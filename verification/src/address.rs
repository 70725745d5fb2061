//! Where the Terminal service is reached: the host and port of the API base
//! URL, and the choice among the addresses that host resolves to.

use vstd::prelude::*;
use url::{ParseError, Url};

verus! {

#[verifier::external_type_specification]
#[verifier::external_body]
pub struct ExUrl(Url);

#[verifier::external_type_specification]
#[verifier::external_body]
pub struct ExParseError(ParseError);

/// Whether `url::Url::parse` accepts `input`.
pub uninterp spec fn url_parses(input: Seq<char>) -> bool;

/// What `url::Url::host_str` gives for the URL parsed from `input`.
pub uninterp spec fn url_host(input: Seq<char>) -> Option<Seq<char>>;

/// What `url::Url::port_or_known_default` gives for the URL parsed from
/// `input`.
pub uninterp spec fn url_port_or_known_default(input: Seq<char>) -> Option<u16>;

/// A parsed base URL, together with the text it was parsed from.
pub struct BaseUrl {
    url: Url,
    source: Ghost<Seq<char>>,
}

impl View for BaseUrl {
    type V = Seq<char>;

    /// The text the URL was parsed from.
    closed spec fn view(&self) -> Seq<char> {
        self.source@
    }
}

/// Calls `url::Url::parse`. Stated: it succeeds exactly on the inputs that
/// `url_parses` names, and the parsed URL keeps its source text; the
/// parsing itself is left unstated.
#[verifier::external_body]
fn parse_url(input: &str) -> (r: Result<BaseUrl, ParseError>)
    ensures
        r is Ok <==> url_parses(input@),
        r matches Ok(u) ==> u@ == input@,
{
    match Url::parse(input) {
        Ok(url) => Ok(BaseUrl { url, source: Ghost(input@) }),
        Err(e) => Err(e),
    }
}

/// Calls `url::Url::host_str`. Stated: its result is the one `url_host`
/// names for the URL's source text.
#[verifier::external_body]
fn host_of(u: &BaseUrl) -> (r: Option<String>)
    ensures
        match r {
            Some(h) => url_host(u@) == Some(h@),
            None => url_host(u@) is None,
        },
{
    match u.url.host_str() {
        Some(h) => Some(h.to_string()),
        None => None,
    }
}

/// Calls `url::Url::port_or_known_default`. Stated: its result is the one
/// `url_port_or_known_default` names for the URL's source text.
#[verifier::external_body]
fn port_of(u: &BaseUrl) -> (r: Option<u16>)
    ensures
        r == url_port_or_known_default(u@),
{
    u.url.port_or_known_default()
}

/// Why the Terminal address could not be found.
#[derive(Debug, Clone, Copy, PartialEq, Eq, Structural)]
pub enum AddressError {
    InvalidBaseUrl,
    MissingHost,
    MissingPort,
    NoAddress,
}

impl AddressError {
    /// The message shown to the user.
    pub fn message(&self) -> (text: String)
        ensures
            *self == AddressError::InvalidBaseUrl ==> text@ == "base URL is invalid"@,
            *self == AddressError::MissingHost ==> text@ == "base URL has no host"@,
            *self == AddressError::MissingPort ==> text@ == "base URL has no port"@,
            *self == AddressError::NoAddress ==> text@ == "API host resolved to no addresses"@,
    {
        match self {
            AddressError::InvalidBaseUrl => String::from_str("base URL is invalid"),
            AddressError::MissingHost => String::from_str("base URL has no host"),
            AddressError::MissingPort => String::from_str("base URL has no port"),
            AddressError::NoAddress => String::from_str("API host resolved to no addresses"),
        }
    }
}

/// The host and port at which the Terminal of the API at `base_url` is
/// reached: the URL's host, and its port or the scheme's known default.
pub fn terminal_host_port(base_url: &str) -> (r: Result<(String, u16), AddressError>)
    ensures
        !url_parses(base_url@) <==> r == Err::<(String, u16), AddressError>(
            AddressError::InvalidBaseUrl,
        ),
        (url_parses(base_url@) && url_host(base_url@) is None) <==> r == Err::<
            (String, u16),
            AddressError,
        >(AddressError::MissingHost),
        (url_parses(base_url@) && url_host(base_url@) is Some && url_port_or_known_default(
            base_url@,
        ) is None) <==> r == Err::<(String, u16), AddressError>(AddressError::MissingPort),
        r matches Ok((host, port)) ==> url_host(base_url@) == Some(host@)
            && url_port_or_known_default(base_url@) == Some(port),
        r != Err::<(String, u16), AddressError>(AddressError::NoAddress),
{
    let url = match parse_url(base_url) {
        Ok(u) => u,
        Err(_) => return Err(AddressError::InvalidBaseUrl),
    };
    let host = match host_of(&url) {
        Some(h) => h,
        None => return Err(AddressError::MissingHost),
    };
    match port_of(&url) {
        Some(port) => Ok((host, port)),
        None => Err(AddressError::MissingPort),
    }
}

/// The address to connect to, among those the host resolved to (`is_ipv4`
/// tells, for each in resolution order, whether it is IPv4): the first IPv4
/// address if there is one, else the first address; `NoAddress` if none.
pub fn preferred_address(is_ipv4: &Vec<bool>) -> (r: Result<usize, AddressError>)
    ensures
        is_ipv4@.len() == 0 <==> r == Err::<usize, AddressError>(AddressError::NoAddress),
        is_ipv4@.len() > 0 ==> r is Ok,
        r matches Ok(i) ==> i < is_ipv4@.len(),
        r matches Ok(i) ==> (is_ipv4@[i as int] ==> forall|j: int|
            0 <= j < i ==> !#[trigger] is_ipv4@[j]),
        r matches Ok(i) ==> (!is_ipv4@[i as int] ==> i == 0 && forall|j: int|
            0 <= j < is_ipv4@.len() ==> !#[trigger] is_ipv4@[j]),
{
    let n = is_ipv4.len();
    if n == 0 {
        return Err(AddressError::NoAddress);
    }
    let mut i: usize = 0;
    while i < n
        invariant
            i <= n,
            n == is_ipv4@.len(),
            forall|j: int| 0 <= j < i ==> !#[trigger] is_ipv4@[j],
        decreases n - i,
    {
        if is_ipv4[i] {
            return Ok(i);
        }
        i = i + 1;
    }
    Ok(0)
}

} // verus!
