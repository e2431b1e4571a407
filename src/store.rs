//! The per-user configuration store: protocol registrations and, in a
//! separate subtree per protocol, the hosts registered for it.
use vstd::prelude::*;
use crate::table::Table;

verus! {

/// `s` with the ASCII capitals `A` to `Z` turned into `a` to `z`. Scheme
/// names are compared in this form.
pub open spec fn fold_case(s: Seq<char>) -> Seq<char> {
    s.map_values(|c: char| if 'A' <= c && c <= 'Z' { ((c as u8) + 32) as u8 as char } else { c })
}

/// Relies on `str::to_ascii_lowercase`: each ASCII letter `A` to `Z` becomes
/// `a` to `z`, every other character is kept.
#[verifier::external_body]
pub(crate) fn ascii_lowercase(s: &str) -> (r: String)
    ensures
        r@ == fold_case(s@),
{
    s.to_ascii_lowercase()
}

/// The values written into a protocol's subtree.
pub struct ProtocolRecord {
    /// The scheme description, such as `URL:app Protocol`.
    pub description: String,
    /// The icon reference: the quoted handler path followed by `,0`.
    pub icon: String,
    /// The command line the system runs to open a URL of the scheme.
    pub open_command: String,
}

/// A protocol record seen abstractly.
pub struct ProtocolModel {
    pub description: Seq<char>,
    pub icon: Seq<char>,
    pub open_command: Seq<char>,
}

impl DeepView for ProtocolRecord {
    type V = ProtocolModel;

    open spec fn deep_view(&self) -> ProtocolModel {
        ProtocolModel {
            description: self.description@,
            icon: self.icon@,
            open_command: self.open_command@,
        }
    }
}

/// A command template seen abstractly: the executable, then its arguments.
pub type TemplateModel = Seq<Seq<char>>;

/// The hosts of one protocol: each hostname with its command template.
pub type HostsModel = Map<Seq<char>, TemplateModel>;

/// The whole store seen abstractly.
pub struct StoreModel {
    /// Scheme, in folded case, to protocol subtree.
    pub protocols: Map<Seq<char>, ProtocolModel>,
    /// Scheme, in folded case, to the Hosts subtree of its configuration subtree; a scheme is
    /// a key here exactly when that configuration subtree exists.
    pub hosts: Map<Seq<char>, HostsModel>,
}

/// An in-memory configuration store.
pub struct ConfigStore {
    pub protocols: Table<ProtocolRecord>,
    pub hosts: Table<Table<Vec<String>>>,
}

impl View for ConfigStore {
    type V = StoreModel;

    open spec fn view(&self) -> StoreModel {
        StoreModel { protocols: self.protocols.map(), hosts: self.hosts.map() }
    }
}

impl ConfigStore {
    /// An empty store.
    pub fn new() -> (s: Self)
        ensures
            s@.protocols == Map::<Seq<char>, ProtocolModel>::empty(),
            s@.hosts == Map::<Seq<char>, HostsModel>::empty(),
    {
        ConfigStore { protocols: Table::new(), hosts: Table::new() }
    }

    /// The protocol record of `protocol`, if its subtree exists.
    pub fn protocol_record(&self, protocol: &str) -> (r: Option<&ProtocolRecord>)
        ensures
            match r {
                Some(rec) => self@.protocols.contains_key(fold_case(protocol@))
                    && self@.protocols[fold_case(protocol@)] == rec.deep_view(),
                None => !self@.protocols.contains_key(fold_case(protocol@)),
            },
    {
        let key = ascii_lowercase(protocol);
        self.protocols.get(&key)
    }

    /// The Hosts subtree of `protocol`, if it exists.
    pub fn hosts_of(&self, protocol: &str) -> (r: Option<&Table<Vec<String>>>)
        ensures
            match r {
                Some(h) => self@.hosts.contains_key(fold_case(protocol@))
                    && self@.hosts[fold_case(protocol@)] == h.map(),
                None => !self@.hosts.contains_key(fold_case(protocol@)),
            },
    {
        let key = ascii_lowercase(protocol);
        self.hosts.get(&key)
    }

    /// Writes the protocol subtree of `protocol`, replacing an earlier one.
    pub fn set_protocol_record(&mut self, protocol: &str, record: ProtocolRecord)
        ensures
            final(self)@ == (StoreModel {
                protocols: old(self)@.protocols.insert(fold_case(protocol@), record.deep_view()),
                hosts: old(self)@.hosts,
            }),
    {
        self.protocols.insert(ascii_lowercase(protocol), record);
    }

    /// Writes the Hosts subtree of `protocol`, replacing an earlier one.
    pub fn set_hosts(&mut self, protocol: &str, hosts: Table<Vec<String>>)
        ensures
            final(self)@ == (StoreModel {
                protocols: old(self)@.protocols,
                hosts: old(self)@.hosts.insert(fold_case(protocol@), hosts.map()),
            }),
    {
        self.hosts.insert(ascii_lowercase(protocol), hosts);
    }

    /// The command template registered for `hostname` under `protocol`.
    pub fn host_template(&self, protocol: &str, hostname: &str) -> (r: Option<&Vec<String>>)
        ensures
            match r {
                Some(t) => self@.hosts.contains_key(fold_case(protocol@))
                    && self@.hosts[fold_case(protocol@)].contains_key(hostname@)
                    && self@.hosts[fold_case(protocol@)][hostname@] == t.deep_view(),
                None => !(self@.hosts.contains_key(fold_case(protocol@))
                    && self@.hosts[fold_case(protocol@)].contains_key(hostname@)),
            },
    {
        let key = ascii_lowercase(protocol);
        match self.hosts.get(&key) {
            Some(hosts) => {
                let name = hostname.to_owned();
                hosts.get(&name)
            },
            None => None,
        }
    }
}

} // verus!
