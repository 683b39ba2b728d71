//! Minimal DER construction and parsing: the SEQUENCE, INTEGER, BIT STRING
//! and OBJECT IDENTIFIER forms needed for SubjectPublicKeyInfo envelopes and
//! ECDSA signatures.
//!
//! Integers follow DER minimal-length, two's-complement-safe rules: no
//! superfluous leading zero byte, except the one needed to keep a value
//! non-negative when its high bit is set.

use vstd::prelude::*;

use vstd::arithmetic::div_mod::{lemma_fundamental_div_mod, lemma_fundamental_div_mod_converse};

verus! {

/// A byte sequence with its leading zero bytes removed.
pub open spec fn trim_zeros(b: Seq<u8>) -> Seq<u8>
    decreases b.len(),
{
    if b.len() == 0 {
        b
    } else if b[0] == 0 {
        trim_zeros(b.skip(1))
    } else {
        b
    }
}

/// A sequence of `n` zero bytes.
pub open spec fn zeros(n: nat) -> Seq<u8> {
    Seq::new(n, |i: int| 0u8)
}

/// The minimal big-endian representation of a natural number: empty for
/// zero, and no leading zero byte otherwise.
pub open spec fn be_bytes(n: nat) -> Seq<u8>
    decreases n,
{
    if n == 0 {
        Seq::empty()
    } else {
        be_bytes(n / 256) + seq![(n % 256) as u8]
    }
}

/// The natural number denoted by a big-endian byte sequence.
pub open spec fn be_val(s: Seq<u8>) -> nat
    decreases s.len(),
{
    if s.len() == 0 {
        0
    } else {
        (be_val(s.take(s.len() - 1)) * 256 + s[s.len() - 1]) as nat
    }
}

/// 256 raised to the power `k`.
pub open spec fn pow256(k: nat) -> nat
    decreases k,
{
    if k == 0 {
        1
    } else {
        256 * pow256((k - 1) as nat)
    }
}

/// The minimal big-endian bytes of a positive number are non-empty and do
/// not start with zero.
pub proof fn lemma_be_bytes_form(n: nat)
    requires
        n > 0,
    ensures
        be_bytes(n).len() > 0,
        be_bytes(n)[0] != 0,
    decreases n,
{
    if n < 256 {
        assert(n / 256 == 0) by (nonlinear_arith)
            requires 0 < n < 256;
        assert(n % 256 == n) by (nonlinear_arith)
            requires 0 < n < 256;
        assert(be_bytes(n) =~= seq![n as u8]) by {
            reveal_with_fuel(be_bytes, 2);
        }
    } else {
        assert(n / 256 > 0) by (nonlinear_arith)
            requires n >= 256;
        lemma_be_bytes_form(n / 256);
        assert(be_bytes(n)[0] == be_bytes(n / 256)[0]);
    }
}

/// Reading back the minimal big-endian bytes of a number recovers it.
pub proof fn lemma_be_val_of_be_bytes(n: nat)
    ensures
        be_val(be_bytes(n)) == n,
    decreases n,
{
    if n > 0 {
        lemma_be_val_of_be_bytes(n / 256);
        let s = be_bytes(n);
        assert(s.take(s.len() - 1) =~= be_bytes(n / 256));
        lemma_fundamental_div_mod(n as int, 256);
    }
}

/// A non-empty big-endian byte sequence without a leading zero is the
/// minimal representation of its value.
pub proof fn lemma_be_bytes_of_be_val(s: Seq<u8>)
    requires
        s.len() > 0,
        s[0] != 0,
    ensures
        be_val(s) > 0,
        be_bytes(be_val(s)) == s,
    decreases s.len(),
{
    let head = s.take(s.len() - 1);
    let v = be_val(s);
    if s.len() == 1 {
        assert(head =~= Seq::<u8>::empty());
        assert(v == s[0]);
        assert(v / 256 == 0 && v % 256 == v) by (nonlinear_arith)
            requires 0 < v < 256;
        assert(be_bytes(v) =~= seq![v as u8]) by {
            reveal_with_fuel(be_bytes, 2);
        }
        assert(be_bytes(v) =~= s);
    } else {
        lemma_be_bytes_of_be_val(head);
        let hv = be_val(head);
        assert(v == hv * 256 + s[s.len() - 1]);
        lemma_fundamental_div_mod_converse(v as int, 256, hv as int, s[s.len() - 1] as int);
        assert(v / 256 == hv && v % 256 == s[s.len() - 1]);
        assert(v > 0) by (nonlinear_arith)
            requires v == hv * 256 + s[s.len() - 1], hv > 0;
        assert(be_bytes(v) =~= be_bytes(hv) + seq![s[s.len() - 1]]);
        assert(be_bytes(v) =~= s);
    }
}

/// A number below `pow256(k)` needs at most `k` big-endian bytes.
pub proof fn lemma_be_bytes_len(n: nat, k: nat)
    requires
        n < pow256(k),
    ensures
        be_bytes(n).len() <= k,
    decreases k,
{
    if n > 0 {
        assert(pow256(0) == 1);
        if k == 0 {
        } else {
            assert(n / 256 < pow256((k - 1) as nat)) by (nonlinear_arith)
                requires n < 256 * pow256((k - 1) as nat), n >= 0;
            lemma_be_bytes_len(n / 256, (k - 1) as nat);
        }
    }
}

/// Every length that fits in a machine word has at most eight big-endian
/// bytes.
pub proof fn lemma_usize_be_bytes_len(n: nat)
    requires
        n <= usize::MAX,
    ensures
        be_bytes(n).len() <= 8,
{
    assert(pow256(8) == 0x1_0000_0000_0000_0000) by {
        reveal_with_fuel(pow256, 9);
    }
    lemma_be_bytes_len(n, 8);
}

/// The DER encoding of a length: one byte below 128, otherwise a count of
/// the length's own big-endian bytes followed by those bytes.
pub open spec fn der_len_bytes(n: nat) -> Seq<u8> {
    if n < 128 {
        seq![n as u8]
    } else {
        seq![(0x80 + be_bytes(n).len()) as u8] + be_bytes(n)
    }
}

/// A tag, a DER length and the content bytes.
pub open spec fn der_tlv(tag: u8, content: Seq<u8>) -> Seq<u8> {
    seq![tag] + der_len_bytes(content.len()) + content
}

/// The content bytes of a DER INTEGER holding a big-endian unsigned value:
/// leading zeros are stripped, and a single zero byte is restored either for
/// the value zero or to keep a high-bit value non-negative. An empty input
/// keeps an empty content, mirroring what the signing service produces for
/// an empty half.
pub open spec fn int_content(b: Seq<u8>) -> Seq<u8> {
    let t = trim_zeros(b);
    if b.len() == 0 {
        Seq::empty()
    } else if t.len() == 0 {
        seq![0u8]
    } else if t[0] >= 0x80 {
        seq![0u8] + t
    } else {
        t
    }
}

/// The DER encoding of an INTEGER from big-endian unsigned bytes.
pub open spec fn der_integer(b: Seq<u8>) -> Seq<u8> {
    der_tlv(0x02, int_content(b))
}

/// The DER encoding of a SEQUENCE with the given payload.
pub open spec fn der_sequence(payload: Seq<u8>) -> Seq<u8> {
    der_tlv(0x30, payload)
}

/// The DER encoding of a BIT STRING with no unused bits.
pub open spec fn der_bit_string(data: Seq<u8>) -> Seq<u8> {
    der_tlv(0x03, seq![0u8] + data)
}

/// Trimming leading zeros leaves a suffix whose first byte, if any, is not
/// zero, and the dropped prefix is all zeros.
pub proof fn lemma_trim_zeros_form(b: Seq<u8>)
    ensures
        trim_zeros(b).len() <= b.len(),
        trim_zeros(b).len() > 0 ==> trim_zeros(b)[0] != 0,
        b =~= zeros((b.len() - trim_zeros(b).len()) as nat) + trim_zeros(b),
    decreases b.len(),
{
    if b.len() == 0 {
    } else if b[0] == 0 {
        lemma_trim_zeros_form(b.skip(1));
        let rest = b.skip(1);
        let pad = (b.len() - trim_zeros(b).len()) as nat;
        assert(trim_zeros(b) == trim_zeros(rest));
        assert(b =~= seq![0u8] + rest);
        assert(zeros(pad) =~= seq![0u8] + zeros((pad - 1) as nat));
    }
}

/// Appends `data[start..end]` to `out`.
pub fn push_bytes_range(out: &mut Vec<u8>, data: &[u8], start: usize, end: usize)
    requires
        start <= end <= data@.len(),
        old(out)@.len() + (end - start) <= usize::MAX,
    ensures
        final(out)@ == old(out)@ + data@.subrange(start as int, end as int),
{
    let mut i: usize = start;
    while i < end
        invariant
            start <= i <= end <= data@.len(),
            out@ =~= old(out)@ + data@.subrange(start as int, i as int),
        decreases end - i,
    {
        out.push(data[i]);
        i = i + 1;
        assert(out@ =~= old(out)@ + data@.subrange(start as int, i as int));
    }
}

/// The number of bytes in the DER encoding of the length `n`.
pub fn der_len_size(n: usize) -> (r: usize)
    ensures
        r == der_len_bytes(n as nat).len(),
        1 <= r <= 9,
{
    proof {
        lemma_usize_be_bytes_len(n as nat);
    }
    if n < 128 {
        1
    } else {
        let mut m: usize = n;
        let mut digits: usize = 0;
        while m > 0
            invariant
                be_bytes(n as nat).len() == be_bytes(m as nat).len() + digits,
                be_bytes(n as nat).len() <= 8,
            decreases m,
        {
            m = m / 256;
            digits = digits + 1;
        }
        1 + digits
    }
}

/// Appends the DER encoding of the length `n` to `out`.
pub fn push_len(out: &mut Vec<u8>, n: usize)
    requires
        old(out)@.len() + 9 <= usize::MAX,
    ensures
        final(out)@ == old(out)@ + der_len_bytes(n as nat),
{
    proof {
        lemma_usize_be_bytes_len(n as nat);
    }
    if n < 128 {
        out.push(n as u8);
        assert(out@ =~= old(out)@ + der_len_bytes(n as nat));
    } else {
        let mut tmp: Vec<u8> = Vec::new();
        let mut m: usize = n;
        while m > 0
            invariant
                be_bytes(n as nat) =~= be_bytes(m as nat) + tmp@.reverse(),
            decreases m,
        {
            let ghost pre = tmp@;
            tmp.push((m % 256) as u8);
            assert(tmp@.reverse() =~= seq![(m % 256) as u8] + pre.reverse());
            m = m / 256;
        }
        assert(be_bytes(n as nat) =~= tmp@.reverse());
        let digits = tmp.len();
        out.push(0x80 + digits as u8);
        let mut i: usize = 0;
        while i < digits
            invariant
                digits == tmp@.len() == be_bytes(n as nat).len() <= 8,
                i <= digits,
                n >= 128,
                be_bytes(n as nat) =~= tmp@.reverse(),
                out@ =~= old(out)@ + seq![(0x80 + digits) as u8] + be_bytes(n as nat).take(
                    i as int,
                ),
            decreases digits - i,
        {
            out.push(tmp[digits - 1 - i]);
            assert(tmp@[digits - 1 - i] == be_bytes(n as nat)[i as int]);
            i = i + 1;
            assert(out@ =~= old(out)@ + seq![(0x80 + digits) as u8] + be_bytes(n as nat).take(
                i as int,
            ));
        }
        assert(be_bytes(n as nat).take(digits as int) =~= be_bytes(n as nat));
        assert(out@ =~= old(out)@ + der_len_bytes(n as nat));
    }
}

/// The least index in `[start, end)` at which `data` holds a non-zero byte,
/// or `end` if all those bytes are zero. Relates the trimmed form of the
/// range to a subrange of `data`.
pub fn first_nonzero(data: &[u8], start: usize, end: usize) -> (i: usize)
    requires
        start <= end <= data@.len(),
    ensures
        start <= i <= end,
        i < end ==> data@[i as int] != 0,
        trim_zeros(data@.subrange(start as int, end as int)) == data@.subrange(
            i as int,
            end as int,
        ),
{
    let mut i: usize = start;
    while i < end && data[i] == 0
        invariant
            start <= i <= end <= data@.len(),
            trim_zeros(data@.subrange(start as int, end as int)) == trim_zeros(
                data@.subrange(i as int, end as int),
            ),
        decreases end - i,
    {
        proof {
            let cur = data@.subrange(i as int, end as int);
            assert(cur.skip(1) =~= data@.subrange(i + 1, end as int));
        }
        i = i + 1;
    }
    proof {
        let cur = data@.subrange(i as int, end as int);
        if i < end {
            assert(trim_zeros(cur) == cur);
        } else {
            assert(cur.len() == 0);
        }
    }
    i
}

/// The number of bytes in the DER INTEGER encoding of `data[start..end]`
/// taken as a big-endian unsigned value.
pub fn der_integer_size(data: &[u8], start: usize, end: usize) -> (r: usize)
    requires
        start <= end <= data@.len(),
        end - start + 16 <= usize::MAX,
    ensures
        r == der_integer(data@.subrange(start as int, end as int)).len(),
        r <= (end - start) + 11,
{
    let ghost b = data@.subrange(start as int, end as int);
    let i = first_nonzero(data, start, end);
    let content_len: usize = if start == end {
        0
    } else if i == end {
        1
    } else if data[i] >= 0x80 {
        end - i + 1
    } else {
        end - i
    };
    assert(content_len == int_content(b).len());
    1 + der_len_size(content_len) + content_len
}

/// Appends the DER INTEGER encoding of `data[start..end]`, taken as a
/// big-endian unsigned value, to `out`.
pub fn push_der_integer(out: &mut Vec<u8>, data: &[u8], start: usize, end: usize)
    requires
        start <= end <= data@.len(),
        old(out)@.len() + (end - start) + 16 <= usize::MAX,
    ensures
        final(out)@ == old(out)@ + der_integer(data@.subrange(start as int, end as int)),
{
    let ghost b = data@.subrange(start as int, end as int);
    let i = first_nonzero(data, start, end);
    out.push(0x02);
    if start == end {
        push_len(out, 0);
        assert(out@ =~= old(out)@ + der_integer(b));
    } else if i == end {
        push_len(out, 1);
        out.push(0x00);
        assert(out@ =~= old(out)@ + der_integer(b));
    } else if data[i] >= 0x80 {
        push_len(out, end - i + 1);
        proof {
            lemma_usize_be_bytes_len((end - i + 1) as nat);
        }
        out.push(0x00);
        push_bytes_range(out, data, i, end);
        assert(int_content(b) =~= seq![0u8] + data@.subrange(i as int, end as int));
        assert(out@ =~= old(out)@ + der_integer(b));
    } else {
        push_len(out, end - i);
        proof {
            lemma_usize_be_bytes_len((end - i) as nat);
        }
        push_bytes_range(out, data, i, end);
        assert(out@ =~= old(out)@ + der_integer(b));
    }
}

/// `pow256` is monotonic.
pub proof fn lemma_pow256_le(a: nat, b: nat)
    requires
        a <= b,
    ensures
        pow256(a) <= pow256(b),
    decreases b,
{
    if a < b {
        lemma_pow256_le(a, (b - 1) as nat);
        assert(pow256(b) == 256 * pow256((b - 1) as nat));
    }
}

/// The value of a big-endian byte sequence is below 256 to the power of its
/// length.
pub proof fn lemma_be_val_bound(s: Seq<u8>)
    ensures
        be_val(s) < pow256(s.len()),
    decreases s.len(),
{
    if s.len() > 0 {
        let head = s.take(s.len() - 1);
        lemma_be_val_bound(head);
        assert(be_val(head) * 256 + s[s.len() - 1] < pow256(s.len())) by (nonlinear_arith)
            requires
                be_val(head) < pow256(head.len()),
                pow256(s.len()) == 256 * pow256(head.len()),
                s[s.len() - 1] < 256,
        ;
    }
}

/// Deterministic reading of a DER length at index `i` of `s`: the one-byte
/// short form below 128, or the minimal long form. Lengths that cannot fit
/// in a machine word are rejected, as no in-memory content can have them.
pub open spec fn spec_read_len(s: Seq<u8>, i: int) -> Option<(nat, int)> {
    if !(0 <= i < s.len()) {
        None
    } else {
        let b0 = s[i];
        if b0 < 0x80 {
            Some((b0 as nat, i + 1))
        } else {
            let k = (b0 - 0x80) as int;
            if k == 0 || k > 8 || i + 1 + k > s.len() {
                None
            } else {
                let bytes = s.subrange(i + 1, i + 1 + k);
                if bytes[0] == 0 {
                    None
                } else {
                    let n = be_val(bytes);
                    if n < 128 || n > usize::MAX {
                        None
                    } else {
                        Some((n, i + 1 + k))
                    }
                }
            }
        }
    }
}

/// If a subrange of `s` equals a concatenation, the two halves stand at
/// their own subranges.
pub proof fn lemma_subrange_decompose(s: Seq<u8>, i: int, a: Seq<u8>, b: Seq<u8>)
    requires
        0 <= i,
        i + a.len() + b.len() <= s.len(),
        s.subrange(i, i + a.len() + b.len()) == a + b,
    ensures
        s.subrange(i, i + a.len() as int) == a,
        s.subrange(i + a.len() as int, i + a.len() + b.len()) == b,
{
    let whole = s.subrange(i, i + a.len() + b.len());
    assert forall|t: int| 0 <= t < a.len() + b.len() implies s[i + t] == (a + b)[t] by {
        assert(whole[t] == (a + b)[t]);
    }
    assert(s.subrange(i, i + a.len() as int) =~= a);
    assert forall|u: int| 0 <= u < b.len() implies s[i + a.len() + u] == b[u] by {
        assert(s[i + (a.len() + u)] == (a + b)[a.len() + u]);
    }
    assert(s.subrange(i + a.len() as int, i + a.len() + b.len()) =~= b);
}

/// Reading a DER length where an encoded length stands yields that length.
pub proof fn lemma_read_len_of_encoding(s: Seq<u8>, i: int, n: nat)
    requires
        0 <= i,
        n <= usize::MAX,
        i + der_len_bytes(n).len() <= s.len(),
        s.subrange(i, i + der_len_bytes(n).len()) == der_len_bytes(n),
    ensures
        spec_read_len(s, i) == Some((n, i + der_len_bytes(n).len())),
{
    if n < 128 {
        assert(s[i] == der_len_bytes(n)[0]);
    } else {
        lemma_be_bytes_form(n);
        lemma_usize_be_bytes_len(n);
        lemma_be_val_of_be_bytes(n);
        let bb = be_bytes(n);
        let k = bb.len() as int;
        assert(s[i] == der_len_bytes(n)[0]);
        assert(s[i] == 0x80 + k);
        lemma_subrange_decompose(s, i, seq![(0x80 + bb.len()) as u8], bb);
        assert(s.subrange(i + 1, i + 1 + k) =~= bb);
    }
}

/// A successful DER length read consumed exactly the encoding of the length
/// it returned.
pub proof fn lemma_read_len_sound(s: Seq<u8>, i: int)
    requires
        spec_read_len(s, i) is Some,
    ensures
        ({
            let (n, j) = spec_read_len(s, i)->Some_0;
            &&& i < j <= s.len()
            &&& n <= usize::MAX
            &&& j - i == der_len_bytes(n).len()
            &&& s.subrange(i, j) == der_len_bytes(n)
        }),
{
    let (n, j) = spec_read_len(s, i)->Some_0;
    let b0 = s[i];
    if b0 < 0x80 {
        assert(s.subrange(i, j) =~= der_len_bytes(n));
    } else {
        let k = (b0 - 0x80) as int;
        let bytes = s.subrange(i + 1, i + 1 + k);
        lemma_be_bytes_of_be_val(bytes);
        assert(be_bytes(n) == bytes);
        assert(s.subrange(i, j) =~= der_len_bytes(n));
    }
}

/// Reads a DER length at index `i` of `data`, following `spec_read_len`.
pub fn read_len(data: &[u8], i: usize) -> (r: Option<(usize, usize)>)
    requires
        i <= data@.len(),
    ensures
        match r {
            Some(p) => spec_read_len(data@, i as int) == Some((p.0 as nat, p.1 as int)),
            None => spec_read_len(data@, i as int) is None,
        },
{
    if i >= data.len() {
        return None;
    }
    let b0 = data[i];
    if b0 < 0x80 {
        return Some((b0 as usize, i + 1));
    }
    let k = (b0 - 0x80) as usize;
    if k == 0 || k > 8 || k > data.len() - i - 1 {
        return None;
    }
    let ghost bytes = data@.subrange(i + 1, i + 1 + k);
    if data[i + 1] == 0 {
        return None;
    }
    let mut val: u64 = 0;
    let mut j: usize = 0;
    proof {
        assert(bytes.take(0) =~= Seq::<u8>::empty());
    }
    while j < k
        invariant
            j <= k <= 8,
            i + 1 + k <= data@.len(),
            i + 1 + k <= usize::MAX,
            bytes == data@.subrange(i + 1, i + 1 + k),
            val == be_val(bytes.take(j as int)),
        decreases k - j,
    {
        proof {
            lemma_be_val_bound(bytes.take(j as int));
            lemma_pow256_le((j + 1) as nat, 8);
            assert(pow256(8) == 0x1_0000_0000_0000_0000) by {
                reveal_with_fuel(pow256, 9);
            }
            assert(be_val(bytes.take(j as int)) * 256 + bytes[j as int] < pow256((j + 1) as nat))
                by (nonlinear_arith)
                requires
                    be_val(bytes.take(j as int)) < pow256(j as nat),
                    pow256((j + 1) as nat) == 256 * pow256(j as nat),
                    bytes[j as int] < 256,
            ;
        }
        let b = data[i + 1 + j];
        proof {
            assert(bytes.take(j + 1).take(j as int) =~= bytes.take(j as int));
            assert(bytes[j as int] == data@[i + 1 + j]);
        }
        val = val * 256 + b as u64;
        j = j + 1;
    }
    proof {
        assert(bytes.take(k as int) =~= bytes);
    }
    if val < 128 || val > usize::MAX as u64 {
        return None;
    }
    Some((val as usize, i + 1 + k))
}

/// The big-endian unsigned bytes denoted by a DER INTEGER content: the
/// canonical form with the sign-padding zero stripped.
pub open spec fn min_unsigned(b: Seq<u8>) -> Seq<u8> {
    if b.len() == 0 {
        Seq::empty()
    } else if trim_zeros(b).len() == 0 {
        seq![0u8]
    } else {
        trim_zeros(b)
    }
}

/// Deterministic reading of a canonical, non-negative DER INTEGER at index
/// `i` of `s`: yields its minimal unsigned bytes and the index after it.
/// Negative values and non-minimal encodings are rejected.
pub open spec fn spec_read_integer(s: Seq<u8>, i: int) -> Option<(Seq<u8>, int)> {
    if !(0 <= i < s.len() && s[i] == 0x02) {
        None
    } else {
        match spec_read_len(s, i + 1) {
            None => None,
            Some((n, j)) => {
                if j + n > s.len() {
                    None
                } else {
                    let c = s.subrange(j, j + n);
                    if c.len() == 0 {
                        Some((Seq::empty(), j + n))
                    } else if c[0] >= 0x80 {
                        None
                    } else if c[0] == 0 {
                        if c.len() == 1 {
                            Some((seq![0u8], j + n))
                        } else if c[1] < 0x80 {
                            None
                        } else {
                            Some((c.skip(1), j + n))
                        }
                    } else {
                        Some((c, j + n))
                    }
                }
            },
        }
    }
}

/// Reading a DER INTEGER where an encoded unsigned value stands yields its
/// minimal unsigned bytes.
pub proof fn lemma_read_integer_of_encoding(s: Seq<u8>, i: int, b: Seq<u8>)
    requires
        0 <= i,
        b.len() + 1 <= usize::MAX,
        i + der_integer(b).len() <= s.len(),
        s.subrange(i, i + der_integer(b).len()) == der_integer(b),
    ensures
        spec_read_integer(s, i) == Some((min_unsigned(b), i + der_integer(b).len())),
{
    let c = int_content(b);
    lemma_trim_zeros_form(b);
    let lb = der_len_bytes(c.len());
    assert(der_integer(b) == seq![0x02u8] + lb + c);
    assert(s[i] == der_integer(b)[0]);
    assert(seq![0x02u8] + lb + c =~= seq![0x02u8] + (lb + c));
    lemma_subrange_decompose(s, i, seq![0x02u8], lb + c);
    lemma_subrange_decompose(s, i + 1, lb, c);
    assert(s.subrange(i + 1, i + 1 + lb.len() as int) =~= lb);
    lemma_read_len_of_encoding(s, i + 1, c.len());
    let j = i + 1 + lb.len();
    assert(s.subrange(j, j + c.len() as int) =~= c);
    let t = trim_zeros(b);
    if b.len() == 0 {
    } else if t.len() == 0 {
        assert(c =~= seq![0u8]);
    } else if t[0] >= 0x80 {
        assert(c =~= seq![0u8] + t);
        assert(c[1] == t[0]);
        assert(c.skip(1) =~= t);
    } else {
        assert(c =~= t);
        assert(c[0] != 0);
    }
}

/// A successful DER INTEGER read consumed exactly the encoding of the value
/// it returned, and that value is in minimal unsigned form.
pub proof fn lemma_read_integer_sound(s: Seq<u8>, i: int)
    requires
        spec_read_integer(s, i) is Some,
    ensures
        ({
            let (v, j) = spec_read_integer(s, i)->Some_0;
            &&& i < j <= s.len()
            &&& v == min_unsigned(v)
            &&& j - i == der_integer(v).len()
            &&& s.subrange(i, j) == der_integer(v)
        }),
{
    let (v, j) = spec_read_integer(s, i)->Some_0;
    let (n, j0) = spec_read_len(s, i + 1)->Some_0;
    lemma_read_len_sound(s, i + 1);
    let c = s.subrange(j0, j0 + n as int);
    assert(int_content(v) =~= c && v == min_unsigned(v)) by {
        if c.len() == 0 {
        } else if c[0] == 0 {
            if c.len() == 1 {
                assert(trim_zeros(seq![0u8]) =~= Seq::<u8>::empty()) by {
                    reveal_with_fuel(trim_zeros, 3);
                    assert(seq![0u8].skip(1) =~= Seq::<u8>::empty());
                }
            } else {
                let rest = c.skip(1);
                assert(rest[0] == c[1] && rest[0] >= 0x80);
                assert(trim_zeros(rest) == rest);
                assert(int_content(rest) =~= seq![0u8] + rest);
                assert(int_content(rest) =~= c);
            }
        } else {
            assert(trim_zeros(c) == c);
        }
    }
    assert(s.subrange(i, j) =~= der_integer(v));
}

/// Copies `data[start..end]` into a fresh vector.
pub fn copy_range(data: &[u8], start: usize, end: usize) -> (r: Vec<u8>)
    requires
        start <= end <= data@.len(),
    ensures
        r@ == data@.subrange(start as int, end as int),
{
    let mut out: Vec<u8> = Vec::new();
    push_bytes_range(&mut out, data, start, end);
    out
}

/// Reads a canonical DER INTEGER at index `i` of `data`, following
/// `spec_read_integer`.
pub fn read_integer(data: &[u8], i: usize) -> (r: Option<(Vec<u8>, usize)>)
    requires
        i <= data@.len(),
    ensures
        match r {
            Some(p) => spec_read_integer(data@, i as int) == Some((p.0@, p.1 as int)),
            None => spec_read_integer(data@, i as int) is None,
        },
{
    if i >= data.len() || data[i] != 0x02 {
        return None;
    }
    let (n, j) = match read_len(data, i + 1) {
        Some(p) => p,
        None => { return None; },
    };
    if n > data.len() - j {
        return None;
    }
    let ghost c = data@.subrange(j as int, j + n);
    if n == 0 {
        proof {
            assert(c =~= Seq::<u8>::empty());
        }
        return Some((Vec::new(), j));
    }
    let first = data[j];
    if first >= 0x80 {
        return None;
    }
    if first == 0 {
        if n == 1 {
            let mut v: Vec<u8> = Vec::new();
            v.push(0u8);
            proof {
                assert(v@ =~= seq![0u8]);
            }
            return Some((v, j + n));
        }
        if data[j + 1] < 0x80 {
            return None;
        }
        let v = copy_range(data, j + 1, j + n);
        proof {
            assert(c.skip(1) =~= data@.subrange(j + 1, j + n));
        }
        return Some((v, j + n));
    }
    let v = copy_range(data, j, j + n);
    Some((v, j + n))
}

/// Deterministic reading of a DER SEQUENCE of exactly two canonical
/// INTEGERs spanning the whole of `s`: yields their minimal unsigned bytes.
pub open spec fn spec_parse_int_pair(s: Seq<u8>) -> Option<(Seq<u8>, Seq<u8>)> {
    if !(s.len() > 0 && s[0] == 0x30) {
        None
    } else {
        match spec_read_len(s, 1) {
            None => None,
            Some((n, i)) => {
                if i + n != s.len() {
                    None
                } else {
                    match spec_read_integer(s, i) {
                        None => None,
                        Some((a, i2)) => {
                            match spec_read_integer(s, i2) {
                                None => None,
                                Some((b, i3)) => {
                                    if i3 != s.len() {
                                        None
                                    } else {
                                        Some((a, b))
                                    }
                                },
                            }
                        },
                    }
                }
            },
        }
    }
}

/// Bounds on the size of a DER INTEGER encoding.
pub proof fn lemma_der_integer_len(b: Seq<u8>)
    requires
        b.len() + 16 <= usize::MAX,
    ensures
        2 <= der_integer(b).len() <= b.len() + 12,
{
    lemma_trim_zeros_form(b);
    lemma_usize_be_bytes_len(int_content(b).len());
}

/// Parsing the encoded SEQUENCE of two unsigned INTEGERs yields their
/// minimal unsigned bytes.
#[verifier::rlimit(60)]
pub proof fn lemma_parse_int_pair_of_encoding(a: Seq<u8>, b: Seq<u8>)
    requires
        a.len() + b.len() + 24 <= usize::MAX,
    ensures
        spec_parse_int_pair(der_sequence(der_integer(a) + der_integer(b))) == Some(
            (min_unsigned(a), min_unsigned(b)),
        ),
{
    lemma_der_integer_len(a);
    lemma_der_integer_len(b);
    let da = der_integer(a);
    let db = der_integer(b);
    let payload = da + db;
    let s = der_sequence(payload);
    let lb = der_len_bytes(payload.len());
    assert(s == seq![0x30u8] + lb + payload);
    assert(s[0] == 0x30);
    let i = 1 + lb.len() as int;
    assert(s.subrange(1, i) =~= lb) by {
        assert forall|t: int| 0 <= t < lb.len() implies s[1 + t] == lb[t] by {
            assert((seq![0x30u8] + lb)[1 + t] == lb[t]);
        }
    }
    lemma_read_len_of_encoding(s, 1, payload.len());
    assert(s.subrange(i, i + da.len() as int) =~= da) by {
        assert forall|t: int| 0 <= t < da.len() implies s[i + t] == da[t] by {
            assert(payload[t] == da[t]);
        }
    }
    lemma_read_integer_of_encoding(s, i, a);
    let i2 = i + da.len() as int;
    assert(s.subrange(i2, i2 + db.len() as int) =~= db) by {
        assert forall|t: int| 0 <= t < db.len() implies s[i2 + t] == db[t] by {
            assert(payload[da.len() + t] == db[t]);
        }
    }
    lemma_read_integer_of_encoding(s, i2, b);
    assert(i2 + db.len() == s.len());
}

/// A successful two-INTEGER parse consumed exactly the encoding of the two
/// values it returned: the input was their canonical DER form.
pub proof fn lemma_parse_int_pair_sound(s: Seq<u8>)
    requires
        spec_parse_int_pair(s) is Some,
    ensures
        ({
            let (a, b) = spec_parse_int_pair(s)->Some_0;
            s == der_sequence(der_integer(a) + der_integer(b))
        }),
{
    let (a, b) = spec_parse_int_pair(s)->Some_0;
    let (n, i) = spec_read_len(s, 1)->Some_0;
    lemma_read_len_sound(s, 1);
    let (a0, i2) = spec_read_integer(s, i)->Some_0;
    lemma_read_integer_sound(s, i);
    let (b0, i3) = spec_read_integer(s, i2)->Some_0;
    lemma_read_integer_sound(s, i2);
    let payload = s.subrange(i, s.len() as int);
    assert(payload =~= der_integer(a) + der_integer(b)) by {
        assert(s.subrange(i, i2) == der_integer(a));
        assert(s.subrange(i2, i3) == der_integer(b));
        assert forall|t: int| 0 <= t < payload.len() implies payload[t] == (der_integer(a)
            + der_integer(b))[t] by {
            if t < i2 - i {
                assert(s.subrange(i, i2)[t] == s[i + t]);
            } else {
                assert(s.subrange(i2, i3)[t - (i2 - i)] == s[i2 + (t - (i2 - i))]);
            }
        }
    }
    assert(s =~= der_sequence(payload)) by {
        assert(s.subrange(1, i) == der_len_bytes(n));
        assert(payload.len() == n);
    }
}

/// Reads a DER SEQUENCE of exactly two canonical INTEGERs spanning the
/// whole input, following `spec_parse_int_pair`.
pub fn parse_int_pair(data: &[u8]) -> (r: Option<(Vec<u8>, Vec<u8>)>)
    ensures
        match r {
            Some(p) => spec_parse_int_pair(data@) == Some((p.0@, p.1@)),
            None => spec_parse_int_pair(data@) is None,
        },
{
    if data.len() == 0 || data[0] != 0x30 {
        return None;
    }
    let (n, i) = match read_len(data, 1) {
        Some(p) => p,
        None => { return None; },
    };
    if n > data.len() - i || i + n != data.len() {
        return None;
    }
    let (a, i2) = match read_integer(data, i) {
        Some(p) => p,
        None => { return None; },
    };
    let (b, i3) = match read_integer(data, i2) {
        Some(p) => p,
        None => { return None; },
    };
    if i3 != data.len() {
        return None;
    }
    Some((a, b))
}

/// `v` left-padded with zero bytes to length `n`.
pub open spec fn pad_left(v: Seq<u8>, n: nat) -> Seq<u8> {
    zeros((n - v.len()) as nat) + v
}

/// The minimal unsigned bytes of a value, padded back to the value's own
/// length, are the value itself.
pub proof fn lemma_pad_min_unsigned(b: Seq<u8>)
    ensures
        min_unsigned(b).len() <= if b.len() == 0 { 0int } else { b.len() as int },
        pad_left(min_unsigned(b), b.len()) == b,
{
    lemma_trim_zeros_form(b);
    let t = trim_zeros(b);
    if b.len() == 0 {
        assert(pad_left(min_unsigned(b), b.len()) =~= b);
    } else if t.len() == 0 {
        assert(b =~= zeros(b.len()));
        assert(pad_left(seq![0u8], b.len()) =~= b);
    } else {
        assert(pad_left(t, b.len()) =~= b);
    }
}

/// Appends `n - v.len()` zero bytes and then `v` itself to `out`.
pub fn push_padded(out: &mut Vec<u8>, v: &Vec<u8>, n: usize)
    requires
        v@.len() <= n,
        old(out)@.len() + n <= usize::MAX,
    ensures
        final(out)@ == old(out)@ + pad_left(v@, n as nat),
{
    let pad = n - v.len();
    let mut i: usize = 0;
    while i < pad
        invariant
            i <= pad,
            out@ =~= old(out)@ + zeros(i as nat),
            old(out)@.len() + n <= usize::MAX,
            pad + v@.len() == n,
        decreases pad - i,
    {
        out.push(0u8);
        i = i + 1;
        assert(out@ =~= old(out)@ + zeros(i as nat));
    }
    push_bytes_range(out, v.as_slice(), 0, v.len());
    proof {
        assert(v@.subrange(0, v@.len() as int) =~= v@);
        assert(out@ =~= old(out)@ + pad_left(v@, n as nat));
    }
}

} // verus!
