use hermes_url_handler::keys::{
    get_configuration_registry_key, get_hosts_registry_key, get_protocol_registry_key,
};
use hermes_url_handler::registration::{
    build_protocol_record, get_debug_args, register_hostname, register_protocol,
    unregister_hostname, unregister_protocol,
};
use hermes_url_handler::store::ConfigStore;
use hermes_url_handler::table::Table;

const EXE: &str = "C:\\Tools\\hermes.exe";

fn strings(items: &[&str]) -> Vec<String> {
    items.iter().map(|s| s.to_string()).collect()
}

#[test]
fn protocol_record_without_extra_argument() {
    let record = build_protocol_record("app", EXE, None);
    assert_eq!(record.description, "URL:app Protocol");
    assert_eq!(record.icon, "\"C:\\Tools\\hermes.exe\",0");
    assert_eq!(record.open_command, "\"C:\\Tools\\hermes.exe\" \"%1\"");
}

#[test]
fn protocol_record_with_debug_argument() {
    let record = build_protocol_record("app", EXE, get_debug_args(true));
    assert_eq!(record.open_command, "\"C:\\Tools\\hermes.exe\" --debug \"%1\"");
}

#[test]
fn debug_argument_only_when_asked() {
    assert_eq!(get_debug_args(true), Some("--debug"));
    assert_eq!(get_debug_args(false), None);
}

#[test]
fn registry_key_paths() {
    assert_eq!(get_protocol_registry_key("app"), "SOFTWARE\\Classes\\app");
    assert_eq!(get_configuration_registry_key("app"), "Software\\bitSpatter\\Hermes\\app");
    assert_eq!(get_hosts_registry_key("app"), "Software\\bitSpatter\\Hermes\\app\\Hosts");
}

#[test]
fn register_protocol_twice_is_same_as_once() {
    let mut once = ConfigStore::new();
    register_protocol(&mut once, "app", EXE, Some("--debug"));
    let mut twice = ConfigStore::new();
    register_protocol(&mut twice, "app", EXE, Some("--debug"));
    register_protocol(&mut twice, "app", EXE, Some("--debug"));
    let a = once.protocol_record("app").unwrap();
    let b = twice.protocol_record("app").unwrap();
    assert_eq!(a.description, b.description);
    assert_eq!(a.icon, b.icon);
    assert_eq!(a.open_command, b.open_command);
    assert!(twice.host_template("app", "anything").is_none());
}

#[test]
fn reregistering_overwrites() {
    let mut store = ConfigStore::new();
    register_protocol(&mut store, "app", EXE, Some("--debug"));
    register_protocol(&mut store, "app", EXE, None);
    assert_eq!(
        store.protocol_record("app").unwrap().open_command,
        "\"C:\\Tools\\hermes.exe\" \"%1\""
    );
    register_hostname(&mut store, "app", "h", &strings(&["a.exe"]), EXE, None);
    register_hostname(&mut store, "app", "h", &strings(&["b.exe", "%1"]), EXE, None);
    assert_eq!(store.host_template("app", "h").unwrap(), &strings(&["b.exe", "%1"]));
}

#[test]
fn register_host_registers_protocol() {
    let mut store = ConfigStore::new();
    let template = strings(&["C:\\tool.exe", "--open", "%1"]);
    register_hostname(&mut store, "app", "build", &template, EXE, None);
    assert!(store.protocol_record("app").is_some());
    assert_eq!(store.host_template("app", "build").unwrap(), &template);
    assert!(store.host_template("app", "other").is_none());
    assert!(store.host_template("other", "build").is_none());
}

#[test]
fn last_host_removal_cascades() {
    let mut store = ConfigStore::new();
    register_hostname(&mut store, "p", "h", &strings(&["x.exe"]), EXE, None);
    unregister_hostname(&mut store, "p", "h");
    assert!(store.protocol_record("p").is_none());
    assert!(store.host_template("p", "h").is_none());
}

#[test]
fn remaining_host_survives() {
    let mut store = ConfigStore::new();
    register_hostname(&mut store, "p", "h1", &strings(&["one.exe"]), EXE, None);
    register_hostname(&mut store, "p", "h2", &strings(&["two.exe"]), EXE, None);
    unregister_hostname(&mut store, "p", "h1");
    assert!(store.protocol_record("p").is_some());
    assert!(store.host_template("p", "h1").is_none());
    assert_eq!(store.host_template("p", "h2").unwrap(), &strings(&["two.exe"]));
}

#[test]
fn unregistering_absent_entries_is_harmless() {
    let mut store = ConfigStore::new();
    register_hostname(&mut store, "kept", "h", &strings(&["x.exe"]), EXE, None);
    unregister_protocol(&mut store, "never-registered");
    unregister_hostname(&mut store, "never-registered", "x");
    assert!(store.protocol_record("kept").is_some());
    assert_eq!(store.host_template("kept", "h").unwrap(), &strings(&["x.exe"]));
    assert!(store.protocol_record("never-registered").is_none());
}

#[test]
fn unregister_host_without_hosts_removes_protocol() {
    let mut store = ConfigStore::new();
    register_protocol(&mut store, "p", EXE, None);
    unregister_hostname(&mut store, "p", "h");
    assert!(store.protocol_record("p").is_none());
}

#[test]
fn unregister_protocol_removes_hosts() {
    let mut store = ConfigStore::new();
    register_hostname(&mut store, "p", "h1", &strings(&["one.exe"]), EXE, None);
    register_hostname(&mut store, "p", "h2", &strings(&["two.exe"]), EXE, None);
    unregister_protocol(&mut store, "p");
    assert!(store.protocol_record("p").is_none());
    assert!(store.host_template("p", "h1").is_none());
    assert!(store.host_template("p", "h2").is_none());
}

#[test]
fn scheme_names_ignore_case() {
    let mut store = ConfigStore::new();
    register_hostname(&mut store, "App", "build", &strings(&["t.exe"]), EXE, None);
    assert_eq!(store.protocol_record("app").unwrap().description, "URL:App Protocol");
    assert!(store.protocol_record("APP").is_some());
    assert_eq!(store.host_template("aPp", "build").unwrap(), &strings(&["t.exe"]));
    assert!(store.host_template("app", "BUILD").is_none());
    unregister_hostname(&mut store, "APP", "build");
    assert!(store.protocol_record("app").is_none());
}

#[test]
fn store_accessors_write_and_read_subtrees() {

    let mut store = ConfigStore::new();
    store.set_protocol_record("P", build_protocol_record("P", EXE, None));
    let mut hosts = Table::new();
    hosts.insert("h1".to_string(), strings(&["a.exe"]));
    hosts.insert("h2".to_string(), strings(&["b.exe"]));
    hosts.insert("h1".to_string(), strings(&["c.exe"]));
    store.set_hosts("P", hosts);
    let read = store.hosts_of("p").unwrap();
    let mut keys = read.keys();
    keys.sort();
    assert_eq!(keys, strings(&["h1", "h2"]));
    assert_eq!(read.get(&"h1".to_string()).unwrap(), &strings(&["c.exe"]));
    assert!(read.get(&"h3".to_string()).is_none());
    assert!(!read.is_empty());
    assert!(store.hosts_of("q").is_none());
}

#[test]
fn table_take_removes_entry() {

    let mut table: Table<Vec<String>> = Table::new();
    assert!(table.is_empty());
    table.insert("k".to_string(), strings(&["v"]));
    assert_eq!(table.take(&"k".to_string()), Some(strings(&["v"])));
    assert_eq!(table.take(&"k".to_string()), None);
    assert!(table.is_empty());
}
