//! Subcommand option types, and the decisions that belong to them.
//!
//! Each subcommand is a plain value holding the options it was invoked
//! with. The surrounding program parses the command line into these values,
//! performs the network calls, and hands every decision and every encoding
//! back to this library.

pub mod common;
pub mod create_csr;
pub mod create_ecc_key;
pub mod create_rsa_key;
pub mod decrypt;
pub mod delete_client;
pub mod delete_key;
pub mod encrypt;
pub mod export_public_key;
pub mod generate_random;
pub mod list_authenticators;
pub mod list_clients;
pub mod list_keys;
pub mod list_opcodes;
pub mod list_providers;
pub mod ping;
pub mod sign;

use vstd::prelude::*;

use crate::subcommands::create_csr::CreateCsr;
use crate::subcommands::create_ecc_key::CreateEccKey;
use crate::subcommands::create_rsa_key::CreateRsaKey;
use crate::subcommands::decrypt::Decrypt;
use crate::subcommands::delete_client::DeleteClient;
use crate::subcommands::delete_key::DeleteKey;
use crate::subcommands::encrypt::Encrypt;
use crate::subcommands::export_public_key::ExportPublicKey;
use crate::subcommands::generate_random::GenerateRandom;
use crate::subcommands::list_authenticators::ListAuthenticators;
use crate::subcommands::list_clients::ListClients;
use crate::subcommands::list_keys::ListKeys;
use crate::subcommands::list_opcodes::ListOpcodes;
use crate::subcommands::list_providers::ListProviders;
use crate::subcommands::ping::Ping;
use crate::subcommands::sign::Sign;

verus! {

/// The command-line operations the tool offers.
#[derive(Debug)]
pub enum Subcommand {
    /// Ping the service and print the wire protocol version.
    Ping(Ping),
    /// List the available providers.
    ListProviders(ListProviders),
    /// List the available authenticators.
    ListAuthenticators(ListAuthenticators),
    /// List the supported opcodes for a given provider.
    ListOpcodes(ListOpcodes),
    /// List all keys belonging to the application.
    ListKeys(ListKeys),
    /// Generate a sequence of random bytes.
    GenerateRandom(GenerateRandom),
    /// Export the public part of a key pair in PEM format.
    ExportPublicKey(ExportPublicKey),
    /// Create an RSA key pair.
    CreateRsaKey(CreateRsaKey),
    /// Create an ECC key pair.
    CreateEccKey(CreateEccKey),
    /// Decrypt data using the algorithm of the key.
    Decrypt(Decrypt),
    /// Sign data using the algorithm of the key.
    Sign(Sign),
    /// Delete a key.
    DeleteKey(DeleteKey),
    /// List all clients currently holding data in the service.
    ListClients(ListClients),
    /// Delete all data a client holds in the service.
    DeleteClient(DeleteClient),
    /// Create a certificate signing request from a key pair.
    CreateCsr(CreateCsr),
}

/// Which subcommands talk to the service without authentication: exactly
/// the service-level queries that need no application identity.
pub open spec fn spec_authentication_required(cmd: &Subcommand) -> bool {
    match cmd {
        Subcommand::Ping(_) => false,
        Subcommand::ListProviders(_) => false,
        Subcommand::ListAuthenticators(_) => false,
        Subcommand::ListOpcodes(_) => false,
        _ => true,
    }
}

impl Subcommand {
    /// Whether running this subcommand requires an authenticated client.
    pub fn authentication_required(&self) -> (r: bool)
        ensures
            r == spec_authentication_required(self),
    {
        match self {
            Subcommand::Ping(_) => false,
            Subcommand::ListProviders(_) => false,
            Subcommand::ListAuthenticators(_) => false,
            Subcommand::ListOpcodes(_) => false,
            _ => true,
        }
    }
}

} // verus!
