//! Turning an incoming URL into the command to run for it.
use vstd::prelude::*;
use vstd::string::StringExecFns;
use crate::placeholder::{substitute_arguments, substituted};
use crate::store::{ascii_lowercase, fold_case, ConfigStore, StoreModel};

verus! {

#[verifier::external_type_specification]
#[verifier::external_body]
pub struct ExUrlParseError(url::ParseError);

/// Whether the URL parser accepts the text.
pub uninterp spec fn url_parses(s: Seq<char>) -> bool;

/// The scheme the URL parser reads from the text.
pub uninterp spec fn url_scheme(s: Seq<char>) -> Seq<char>;

/// The host, as text, that the URL parser reads from the text.
pub uninterp spec fn url_host(s: Seq<char>) -> Option<Seq<char>>;

/// The path that the URL parser reads from the text.
pub uninterp spec fn url_path(s: Seq<char>) -> Seq<char>;

/// The query that the URL parser reads from the text.
pub uninterp spec fn url_query(s: Seq<char>) -> Option<Seq<char>>;

/// The fragment that the URL parser reads from the text.
pub uninterp spec fn url_fragment(s: Seq<char>) -> Option<Seq<char>>;

/// The components of a parsed URL that dispatch reads.
pub struct UrlParts {
    pub scheme: String,
    pub host: Option<String>,
    pub path: String,
    pub query: Option<String>,
    pub fragment: Option<String>,
}

/// Relies on `url::Url::parse`, which accepts or rejects the text, and on the
/// parsed URL's `scheme`, `host_str`, `path`, `query` and `fragment`, whose
/// results are copied out unchanged.
#[verifier::external_body]
fn parse_url(raw: &str) -> (r: Result<UrlParts, url::ParseError>)
    ensures
        r is Ok == url_parses(raw@),
        r matches Ok(p) ==> p.scheme@ == url_scheme(raw@) && p.host.deep_view() == url_host(raw@)
            && p.path@ == url_path(raw@) && p.query.deep_view() == url_query(raw@)
            && p.fragment.deep_view() == url_fragment(raw@),
{
    match url::Url::parse(raw) {
        Ok(u) => Ok(UrlParts {
            scheme: u.scheme().to_owned(),
            host: u.host_str().map(str::to_owned),
            path: u.path().to_owned(),
            query: u.query().map(str::to_owned),
            fragment: u.fragment().map(str::to_owned),
        }),
        Err(e) => Err(e),
    }
}

/// The scheme of `url` as the URL parser reads it, the protocol whose hosts
/// dispatch consults; `None` when the parser rejects the text.
pub fn scheme_of_url(url: &str) -> (r: Option<String>)
    ensures
        r is Some == url_parses(url@),
        r matches Some(s) ==> s@ == url_scheme(url@),
{
    match parse_url(url) {
        Ok(parts) => Some(parts.scheme),
        Err(_) => None,
    }
}

/// A separator followed by a URL component, or nothing when the component is
/// absent or empty.
pub open spec fn component(sep: Seq<char>, part: Option<Seq<char>>) -> Seq<char> {
    match part {
        Some(p) => if p.len() > 0 {
            sep + p
        } else {
            Seq::empty()
        },
        None => Seq::empty(),
    }
}

/// The selector: the path, then `?` and the query, then `#` and the fragment.
pub open spec fn selector_of(
    path: Seq<char>,
    query: Option<Seq<char>>,
    fragment: Option<Seq<char>>,
) -> Seq<char> {
    path + component("?"@, query) + component("#"@, fragment)
}

/// Builds the selector handed to the command in place of the placeholder.
pub fn get_path_and_extras(path: &str, query: Option<&str>, fragment: Option<&str>) -> (r: String)
    ensures
        r@ == selector_of(path@, query.deep_view(), fragment.deep_view()),
{
    let mut selector = String::from_str(path);
    if let Some(q) = query {
        if !q.is_empty() {
            selector.append("?");
            selector.append(q);
        }
    }
    let ghost with_query = selector@;
    assert(with_query =~= path@ + component("?"@, query.deep_view()));
    if let Some(f) = fragment {
        if !f.is_empty() {
            selector.append("#");
            selector.append(f);
        }
    }
    assert(selector@ =~= with_query + component("#"@, fragment.deep_view()));
    selector
}

/// Why a URL could not be turned into a command.
pub enum OpenError {
    /// The URL parser rejected the text.
    Malformed { url: String, error: url::ParseError },
    /// The URL has no host, which is the dispatch key.
    MissingHost { url: String },
    /// No host of the URL's scheme is registered.
    NoSuchProtocol { scheme: String, url: String },
    /// The scheme is registered but not the URL's host.
    NoSuchHost { hostname: String, url: String },
    /// The host's command template holds no executable.
    EmptyCommand { hostname: String },
}

/// A command to run: the executable and its arguments.
pub struct Invocation {
    pub program: String,
    pub args: Vec<String>,
}

/// `r` is what resolving `hostname` under `scheme` in `m` gives, with
/// `selector` in place of the placeholder.
pub open spec fn resolved(
    m: StoreModel,
    scheme: Seq<char>,
    hostname: Seq<char>,
    selector: Seq<char>,
    url: Seq<char>,
    r: Result<Invocation, OpenError>,
) -> bool {
    let key = fold_case(scheme);
    if !m.hosts.contains_key(key) {
        match r {
            Err(OpenError::NoSuchProtocol { scheme: s, url: u }) => s@ == scheme && u@ == url,
            _ => false,
        }
    } else if !m.hosts[key].contains_key(hostname) {
        match r {
            Err(OpenError::NoSuchHost { hostname: h, url: u }) => h@ == hostname && u@ == url,
            _ => false,
        }
    } else if m.hosts[key][hostname].len() == 0 {
        match r {
            Err(OpenError::EmptyCommand { hostname: h }) => h@ == hostname,
            _ => false,
        }
    } else {
        let template = m.hosts[key][hostname];
        match r {
            Ok(inv) => inv.program@ == template[0] && inv.args.deep_view() == substituted(
                template.skip(1),
                selector,
            ),
            _ => false,
        }
    }
}

/// Looks up the command registered for `hostname` under `scheme` and fills
/// in `selector`; `url` is carried into the errors for diagnosis.
pub fn resolve(
    store: &ConfigStore,
    scheme: &str,
    hostname: &str,
    selector: &str,
    url: &str,
) -> (r: Result<Invocation, OpenError>)
    ensures
        resolved(store@, scheme@, hostname@, selector@, url@, r),
{
    let protocol = ascii_lowercase(scheme);
    let hosts = match store.hosts.get(&protocol) {
        Some(h) => h,
        None => {
            return Err(OpenError::NoSuchProtocol { scheme: scheme.to_owned(), url: url.to_owned() });
        },
    };
    let name = hostname.to_owned();
    let template = match hosts.get(&name) {
        Some(t) => t,
        None => {
            return Err(OpenError::NoSuchHost { hostname: name, url: url.to_owned() });
        },
    };
    if template.len() == 0 {
        return Err(OpenError::EmptyCommand { hostname: name });
    }
    let program = template[0].clone();
    let args = substitute_arguments(template, selector);
    Ok(Invocation { program, args })
}

/// Parses `url` and resolves it against the store: the command to run, with
/// the URL's selector in place of the placeholder.
pub fn open_url(store: &ConfigStore, url: &str) -> (r: Result<Invocation, OpenError>)
    ensures
        !url_parses(url@) ==> (match r {
            Err(OpenError::Malformed { url: u, .. }) => u@ == url@,
            _ => false,
        }),
        url_parses(url@) && url_host(url@) is None ==> (match r {
            Err(OpenError::MissingHost { url: u }) => u@ == url@,
            _ => false,
        }),
        url_parses(url@) && url_host(url@) is Some ==> resolved(
            store@,
            url_scheme(url@),
            url_host(url@)->0,
            selector_of(url_path(url@), url_query(url@), url_fragment(url@)),
            url@,
            r,
        ),
{
    let parts = match parse_url(url) {
        Ok(p) => p,
        Err(error) => {
            return Err(OpenError::Malformed { url: url.to_owned(), error });
        },
    };
    let hostname = match &parts.host {
        Some(h) => h,
        None => {
            return Err(OpenError::MissingHost { url: url.to_owned() });
        },
    };
    let query = match &parts.query {
        Some(q) => Some(q.as_str()),
        None => None,
    };
    let fragment = match &parts.fragment {
        Some(f) => Some(f.as_str()),
        None => None,
    };
    let selector = get_path_and_extras(parts.path.as_str(), query, fragment);
    resolve(store, parts.scheme.as_str(), hostname.as_str(), selector.as_str(), url)
}

} // verus!
