//! Where a protocol's registrations live in the per-user store.
use vstd::prelude::*;
use vstd::string::StringExecFns;

verus! {

/// The path of the protocol subtree of `protocol`.
pub open spec fn protocol_key_of(protocol: Seq<char>) -> Seq<char> {
    "SOFTWARE\\Classes\\"@ + protocol
}

/// The path of the configuration subtree of `protocol`.
pub open spec fn configuration_key_of(protocol: Seq<char>) -> Seq<char> {
    "Software\\bitSpatter\\Hermes\\"@ + protocol
}

/// The path of the Hosts subtree inside the configuration subtree.
pub open spec fn hosts_key_of(protocol: Seq<char>) -> Seq<char> {
    configuration_key_of(protocol) + "\\Hosts"@
}

pub fn get_protocol_registry_key(protocol: &str) -> (r: String)
    ensures
        r@ == protocol_key_of(protocol@),
{
    let mut key = String::from_str("SOFTWARE\\Classes\\");
    key.append(protocol);
    key
}

pub fn get_configuration_registry_key(protocol: &str) -> (r: String)
    ensures
        r@ == configuration_key_of(protocol@),
{
    let mut key = String::from_str("Software\\bitSpatter\\Hermes\\");
    key.append(protocol);
    key
}

pub fn get_hosts_registry_key(protocol: &str) -> (r: String)
    ensures
        r@ == hosts_key_of(protocol@),
{
    let mut key = get_configuration_registry_key(protocol);
    key.append("\\Hosts");
    key
}

} // verus!
