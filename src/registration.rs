//! Registering and unregistering protocols and hosts, with the cleanup that
//! keeps a protocol registered exactly while it is wanted.
use vstd::prelude::*;
use vstd::string::StringExecFns;
use crate::store::{
    ascii_lowercase, fold_case, ConfigStore, HostsModel, ProtocolModel, ProtocolRecord, StoreModel,
    TemplateModel,
};
use crate::table::Table;

verus! {

broadcast use vstd::std_specs::vec::vec_clone_deep_view_proof;

/// The extra argument token seen abstractly.
pub open spec fn extra_view(extra: Option<&str>) -> Option<Seq<char>> {
    match extra {
        Some(x) => Some(x@),
        None => None,
    }
}

/// The scheme description written for `protocol`.
pub open spec fn description_of(protocol: Seq<char>) -> Seq<char> {
    "URL:"@ + protocol + " Protocol"@
}

/// The icon reference of the handler at `exe`: its quoted path, icon 0.
pub open spec fn icon_of(exe: Seq<char>) -> Seq<char> {
    "\""@ + exe + "\",0"@
}

/// The open command: the quoted handler path, the extra token if any, and the
/// quoted placeholder.
pub open spec fn open_command_of(exe: Seq<char>, extra: Option<Seq<char>>) -> Seq<char> {
    match extra {
        Some(x) => "\""@ + exe + "\" "@ + x + " \"%1\""@,
        None => "\""@ + exe + "\" \"%1\""@,
    }
}

pub open spec fn protocol_record_of(
    protocol: Seq<char>,
    exe: Seq<char>,
    extra: Option<Seq<char>>,
) -> ProtocolModel {
    ProtocolModel {
        description: description_of(protocol),
        icon: icon_of(exe),
        open_command: open_command_of(exe, extra),
    }
}

/// The store after registering `protocol` with the handler at `exe`.
pub open spec fn after_register_protocol(
    m: StoreModel,
    protocol: Seq<char>,
    exe: Seq<char>,
    extra: Option<Seq<char>>,
) -> StoreModel {
    StoreModel {
        protocols: m.protocols.insert(fold_case(protocol), protocol_record_of(protocol, exe, extra)),
        hosts: m.hosts,
    }
}

/// The hosts of `protocol`, empty when its configuration subtree is absent.
pub open spec fn hosts_of(m: StoreModel, protocol: Seq<char>) -> HostsModel {
    if m.hosts.contains_key(fold_case(protocol)) {
        m.hosts[fold_case(protocol)]
    } else {
        Map::empty()
    }
}

/// The store after registering `template` for `hostname` under `protocol`.
pub open spec fn after_register_host(
    m: StoreModel,
    protocol: Seq<char>,
    hostname: Seq<char>,
    template: TemplateModel,
    exe: Seq<char>,
    extra: Option<Seq<char>>,
) -> StoreModel {
    let m1 = after_register_protocol(m, protocol, exe, extra);
    StoreModel {
        protocols: m1.protocols,
        hosts: m1.hosts.insert(
            fold_case(protocol),
            hosts_of(m1, protocol).insert(hostname, template),
        ),
    }
}

/// The store after removing the protocol subtree and the configuration
/// subtree of `protocol`.
pub open spec fn after_unregister_protocol(m: StoreModel, protocol: Seq<char>) -> StoreModel {
    StoreModel {
        protocols: m.protocols.remove(fold_case(protocol)),
        hosts: m.hosts.remove(fold_case(protocol)),
    }
}

/// The store after removing `hostname` from `protocol`; when no host is left,
/// or the protocol has no Hosts subtree, the protocol is unregistered whole.
pub open spec fn after_unregister_host(
    m: StoreModel,
    protocol: Seq<char>,
    hostname: Seq<char>,
) -> StoreModel {
    let key = fold_case(protocol);
    if m.hosts.contains_key(key) {
        let rest = m.hosts[key].remove(hostname);
        if rest.dom() == Set::<Seq<char>>::empty() {
            after_unregister_protocol(m, protocol)
        } else {
            StoreModel { protocols: m.protocols, hosts: m.hosts.insert(key, rest) }
        }
    } else {
        after_unregister_protocol(m, protocol)
    }
}

/// The extra token baked into registrations made with debugging enabled.
pub fn get_debug_args(register_with_debugging: bool) -> (r: Option<&'static str>)
    ensures
        r == (if register_with_debugging {
            Some("--debug")
        } else {
            None::<&str>
        }),
{
    if register_with_debugging {
        Some("--debug")
    } else {
        None
    }
}

/// The values written into the protocol subtree of `protocol`.
pub fn build_protocol_record(protocol: &str, exe_path: &str, extra_args: Option<&str>) -> (r:
    ProtocolRecord)
    ensures
        r.deep_view() == protocol_record_of(protocol@, exe_path@, extra_view(extra_args)),
{
    let mut description = String::from_str("URL:");
    description.append(protocol);
    description.append(" Protocol");
    let mut icon = String::from_str("\"");
    icon.append(exe_path);
    icon.append("\",0");
    let mut open_command = String::from_str("\"");
    open_command.append(exe_path);
    match extra_args {
        Some(extra) => {
            open_command.append("\" ");
            open_command.append(extra);
            open_command.append(" \"%1\"");
        },
        None => {
            open_command.append("\" \"%1\"");
        },
    }
    ProtocolRecord { description, icon, open_command }
}

/// Registers the handler at `exe_path` for `protocol`, overwriting any
/// earlier registration.
pub fn register_protocol(
    store: &mut ConfigStore,
    protocol: &str,
    exe_path: &str,
    extra_args: Option<&str>,
)
    ensures
        final(store)@ == after_register_protocol(
            old(store)@,
            protocol@,
            exe_path@,
            extra_view(extra_args),
        ),
{
    let record = build_protocol_record(protocol, exe_path, extra_args);
    store.set_protocol_record(protocol, record);
}

/// Registers `commandline` for `hostname` under `protocol`, registering the
/// protocol itself first.
pub fn register_hostname(
    store: &mut ConfigStore,
    protocol: &str,
    hostname: &str,
    commandline: &Vec<String>,
    exe_path: &str,
    extra_args: Option<&str>,
)
    ensures
        final(store)@ == after_register_host(
            old(store)@,
            protocol@,
            hostname@,
            commandline.deep_view(),
            exe_path@,
            extra_view(extra_args),
        ),
{
    register_protocol(store, protocol, exe_path, extra_args);
    let ghost m1 = store@;
    let key = ascii_lowercase(protocol);
    let mut hosts = match store.hosts.take(&key) {
        Some(h) => h,
        None => Table::new(),
    };
    assert(hosts.map() == hosts_of(m1, protocol@));
    hosts.insert(hostname.to_owned(), commandline.clone());
    store.hosts.insert(key, hosts);
    assert(store@.hosts =~= m1.hosts.insert(
        fold_case(protocol@),
        hosts_of(m1, protocol@).insert(hostname@, commandline.deep_view()),
    ));
}

/// Removes the protocol subtree and the configuration subtree of `protocol`;
/// either being absent already is not an error.
pub fn unregister_protocol(store: &mut ConfigStore, protocol: &str)
    ensures
        final(store)@ == after_unregister_protocol(old(store)@, protocol@),
{
    let key = ascii_lowercase(protocol);
    let _ = store.protocols.take(&key);
    let _ = store.hosts.take(&key);
}

/// Removes `hostname` from `protocol`, and the whole protocol when that was
/// its last host.
pub fn unregister_hostname(store: &mut ConfigStore, protocol: &str, hostname: &str)
    ensures
        final(store)@ == after_unregister_host(old(store)@, protocol@, hostname@),
{
    let ghost m0 = store@;
    let key = ascii_lowercase(protocol);
    match store.hosts.take(&key) {
        Some(mut hosts) => {
            let name = hostname.to_owned();
            let _ = hosts.take(&name);
            if hosts.is_empty() {
                unregister_protocol(store, protocol);
                assert(store@.hosts =~= m0.hosts.remove(fold_case(protocol@)));
            } else {
                store.hosts.insert(key, hosts);
                assert(store@.hosts =~= m0.hosts.insert(
                    fold_case(protocol@),
                    m0.hosts[fold_case(protocol@)].remove(hostname@),
                ));
            }
        },
        None => {
            unregister_protocol(store, protocol);
            assert(store@.hosts =~= m0.hosts.remove(fold_case(protocol@)));
        },
    }
}

} // verus!
