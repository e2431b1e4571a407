use hermes_url_handler::dispatch::{
    get_path_and_extras, open_url, resolve, scheme_of_url, OpenError,
};
use hermes_url_handler::placeholder::{
    replace_all_occurrences, substitute_arguments, substitute_placeholder,
};
use hermes_url_handler::registration::register_hostname;
use hermes_url_handler::store::ConfigStore;

const EXE: &str = "C:\\Tools\\hermes.exe";

fn strings(items: &[&str]) -> Vec<String> {
    items.iter().map(|s| s.to_string()).collect()
}

#[test]
fn registered_host_round_trip() {
    let mut store = ConfigStore::new();
    let template = strings(&["C:\\tool.exe", "--open", "%1"]);
    register_hostname(&mut store, "app", "build", &template, EXE, None);
    let inv = match open_url(&store, "app://build/assets/Foo?rev=2") {
        Ok(inv) => inv,
        Err(_) => panic!("expected a command"),
    };
    assert_eq!(inv.program, "C:\\tool.exe");
    assert_eq!(inv.args, strings(&["--open", "/assets/Foo?rev=2"]));
}

#[test]
fn every_placeholder_is_replaced() {
    let template = strings(&["x.exe", "%1", "--log=%1.log"]);
    assert_eq!(substitute_arguments(&template, "/a"), strings(&["/a", "--log=/a.log"]));
}

#[test]
fn executable_is_not_substituted() {
    let mut store = ConfigStore::new();
    register_hostname(&mut store, "app", "h", &strings(&["%1.exe", "%1"]), EXE, None);
    let inv = resolve(&store, "app", "h", "/a", "app://h/a").ok().unwrap();
    assert_eq!(inv.program, "%1.exe");
    assert_eq!(inv.args, strings(&["/a"]));
}

#[test]
fn replacement_scans_left_to_right() {
    assert_eq!(replace_all_occurrences("%1%1", "%1", "x"), "xx");
    assert_eq!(replace_all_occurrences("%%11", "%1", "x"), "%x1");
    assert_eq!(replace_all_occurrences("abc", "%1", "x"), "abc");
    assert_eq!(replace_all_occurrences("", "%1", "x"), "");
    assert_eq!(substitute_placeholder("%1", "%1"), "%1");
    assert_eq!(substitute_placeholder("é%1ü", "/ä"), "é/äü");
}

#[test]
fn template_without_placeholder_is_valid() {
    let mut store = ConfigStore::new();
    register_hostname(&mut store, "app", "h", &strings(&["plain.exe"]), EXE, None);
    let inv = open_url(&store, "app://h/x").ok().unwrap();
    assert_eq!(inv.program, "plain.exe");
    assert!(inv.args.is_empty());
}

#[test]
fn selector_omits_absent_and_empty_parts() {
    assert_eq!(get_path_and_extras("/a", None, None), "/a");
    assert_eq!(get_path_and_extras("/a", Some("q=1"), None), "/a?q=1");
    assert_eq!(get_path_and_extras("/a", None, Some("f")), "/a#f");
    assert_eq!(get_path_and_extras("/a", Some("q"), Some("f")), "/a?q#f");
    assert_eq!(get_path_and_extras("/a", Some(""), Some("")), "/a");
}

#[test]
fn selector_from_url_with_fragment() {
    let mut store = ConfigStore::new();
    register_hostname(&mut store, "app", "h", &strings(&["t.exe", "%1"]), EXE, None);
    let inv = open_url(&store, "app://h/p/q?x=1#frag").ok().unwrap();
    assert_eq!(inv.args, strings(&["/p/q?x=1#frag"]));
    let inv = open_url(&store, "APP://h").ok().unwrap();
    assert_eq!(inv.args, strings(&[""]));
}

#[test]
fn unknown_protocol_is_reported() {
    let store = ConfigStore::new();
    match open_url(&store, "unknown://host/x") {
        Err(OpenError::NoSuchProtocol { scheme, url }) => {
            assert_eq!(scheme, "unknown");
            assert_eq!(url, "unknown://host/x");
        }
        _ => panic!("expected NoSuchProtocol"),
    }
}

#[test]
fn unknown_host_is_reported() {
    let mut store = ConfigStore::new();
    register_hostname(&mut store, "app", "build", &strings(&["t.exe"]), EXE, None);
    match open_url(&store, "app://other/x") {
        Err(OpenError::NoSuchHost { hostname, url }) => {
            assert_eq!(hostname, "other");
            assert_eq!(url, "app://other/x");
        }
        _ => panic!("expected NoSuchHost"),
    }
}

#[test]
fn empty_template_is_reported() {
    let mut store = ConfigStore::new();
    register_hostname(&mut store, "app", "h", &Vec::new(), EXE, None);
    match open_url(&store, "app://h/x") {
        Err(OpenError::EmptyCommand { hostname }) => assert_eq!(hostname, "h"),
        _ => panic!("expected EmptyCommand"),
    }
}

#[test]
fn url_without_host_is_reported() {
    let store = ConfigStore::new();
    match open_url(&store, "app:no-host") {
        Err(OpenError::MissingHost { url }) => assert_eq!(url, "app:no-host"),
        _ => panic!("expected MissingHost"),
    }
}

#[test]
fn malformed_url_is_reported() {
    let store = ConfigStore::new();
    match open_url(&store, "not a url") {
        Err(OpenError::Malformed { url, .. }) => assert_eq!(url, "not a url"),
        _ => panic!("expected Malformed"),
    }
}

#[test]
fn scheme_is_read_by_the_url_parser() {
    assert_eq!(scheme_of_url("App://build/x"), Some("app".to_string()));
    assert_eq!(scheme_of_url("not a url"), None);
}

#[test]
fn registration_in_capitals_serves_lowercase_urls() {
    let mut store = ConfigStore::new();
    register_hostname(&mut store, "MyApp", "h", &strings(&["t.exe", "%1"]), EXE, None);
    let inv = open_url(&store, "myapp://h/x").ok().unwrap();
    assert_eq!(inv.args, strings(&["/x"]));
}
