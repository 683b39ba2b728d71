//! Common facilities for subcommands: looking a key up by name in the
//! service's key listing.

use vstd::prelude::*;

use crate::policy::Attributes;

verus! {

/// What the service reports of one key it holds: the owning provider's
/// numeric ID, the key's name and its policy metadata.
#[derive(Debug)]
pub struct KeyInfo {
    pub provider_id: u8,
    pub name: String,
    pub attributes: Attributes,
}

/// The policy metadata of the first key in the listing with the given
/// name, if any key has it.
pub open spec fn spec_key_attributes(keys: Seq<KeyInfo>, name: Seq<char>) -> Option<Attributes>
    decreases keys.len(),
{
    if keys.len() == 0 {
        None
    } else if keys[0].name@ == name {
        Some(keys[0].attributes)
    } else {
        spec_key_attributes(keys.skip(1), name)
    }
}

/// Finds the named key in the service's key listing and returns its policy
/// metadata, or nothing when no key has that name.
pub fn key_attributes(keys: &Vec<KeyInfo>, key_name: &String) -> (r: Option<Attributes>)
    ensures
        r == spec_key_attributes(keys@, key_name@),
{
    let mut i: usize = 0;
    proof {
        assert(keys@.skip(0) =~= keys@);
    }
    while i < keys.len()
        invariant
            i <= keys@.len(),
            spec_key_attributes(keys@, key_name@) == spec_key_attributes(
                keys@.skip(i as int),
                key_name@,
            ),
        decreases keys@.len() - i,
    {
        if keys[i].name == *key_name {
            return Some(keys[i].attributes);
        }
        proof {
            assert(keys@.skip(i as int).skip(1) =~= keys@.skip(i + 1));
        }
        i = i + 1;
    }
    None
}

} // verus!
