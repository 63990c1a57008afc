//! The remote access client: an endpoint, narrowed to one version and kind, and
//! the requests that it sends for each operation. Sending them is the transport's
//! work; this module decides what is sent and how a response is judged.
use vstd::prelude::*;
use crate::error::YangtzeError;

verus! {

/// What `url::Url::parse` makes of a text: `None` when it is no URL, else the URL's
/// host (`host_str`) and explicit port (`port`).
pub uninterp spec fn endpoint_of(s: Seq<char>) -> Option<(Option<Seq<char>>, Option<u16>)>;

/// The views of a parsed endpoint's parts.
pub open spec fn endpoint_view(r: Option<(Option<String>, Option<u16>)>) -> Option<(Option<Seq<char>>, Option<u16>)> {
    match r {
        Some((h, p)) => Some((h.deep_view(), p)),
        None => None,
    }
}

/// Relies on `url::Url::parse`, and on `host_str` and `port` of the URL it returns:
/// the host and port that the text names. The result depends on the text alone.
#[verifier::external_body]
fn parse_endpoint(s: &str) -> (r: Option<(Option<String>, Option<u16>)>)
    ensures
        endpoint_view(r) == endpoint_of(s@),
{
    url::Url::parse(s).ok().map(|u| (u.host_str().map(|h| h.to_string()), u.port()))
}

pub open spec fn digit_char(d: int) -> char {
    seq!['0', '1', '2', '3', '4', '5', '6', '7', '8', '9'][d]
}

/// The decimal digits of a number, most significant first.
pub open spec fn decimal_text(n: nat) -> Seq<char>
    decreases n,
{
    if n < 10 {
        seq![digit_char(n as int)]
    } else {
        decimal_text(n / 10) + seq![digit_char((n % 10) as int)]
    }
}

/// Writes a number in decimal.
pub fn decimal(n: u64) -> (r: String)
    ensures
        r@ == decimal_text(n as nat),
    decreases n,
{
    let digits = "0123456789";
    proof {
        reveal_strlit("0123456789");
    }
    let d = (n % 10) as usize;
    let last = digits.substring_char(d, d + 1);
    assert(last@ =~= seq![digit_char(d as int)]);
    if n < 10 {
        String::from_str(last)
    } else {
        let mut r = decimal(n / 10);
        r.append(last);
        r
    }
}

/// `s[a..b]` is `s` with its leading and trailing slashes taken off.
pub open spec fn slash_trimmed(s: Seq<char>, a: int, b: int) -> bool {
    &&& 0 <= a <= b <= s.len()
    &&& forall|i: int| 0 <= i < a ==> s[i] == '/'
    &&& forall|i: int| b <= i < s.len() ==> s[i] == '/'
    &&& a < b ==> s[a] != '/' && s[b - 1] != '/'
}

pub open spec fn trim_slashes(s: Seq<char>) -> Seq<char> {
    let p = choose|p: (int, int)| slash_trimmed(s, p.0, p.1);
    s.subrange(p.0, p.1)
}

proof fn lemma_trim_unique(s: Seq<char>, a: int, b: int, c: int, d: int)
    requires
        slash_trimmed(s, a, b),
        slash_trimmed(s, c, d),
    ensures
        s.subrange(a, b) == s.subrange(c, d),
{
    if a < b && c < d {
        if a < c {
            assert(s[a] == '/');
        } else if c < a {
            assert(s[c] == '/');
        }
        if b < d {
            assert(s[d - 1] == '/');
        } else if d < b {
            assert(s[b - 1] == '/');
        }
    } else if a < b {
        assert(s[a] == '/');
    } else if c < d {
        assert(s[c] == '/');
    } else {
        assert(s.subrange(a, b) =~= s.subrange(c, d));
    }
}

/// Takes the leading and trailing slashes off a text.
pub fn trim_slashes_exec(s: &str) -> (r: String)
    ensures
        r@ == trim_slashes(s@),
{
    let len = s.unicode_len();
    let mut a: usize = 0;
    while a < len && s.get_char(a) == '/'
        invariant
            a <= len,
            len == s@.len(),
            forall|i: int| 0 <= i < a ==> s@[i] == '/',
        decreases len - a,
    {
        a += 1;
    }
    let mut b: usize = len;
    while b > a && s.get_char(b - 1) == '/'
        invariant
            a <= b <= len,
            len == s@.len(),
            forall|i: int| b <= i < len ==> s@[i] == '/',
            a < len ==> s@[a as int] != '/',
        decreases b,
    {
        b -= 1;
    }
    let r = String::from_str(s.substring_char(a, b));
    proof {
        let w: (int, int) = (a as int, b as int);
        assert(slash_trimmed(s@, w.0, w.1));
        let p = choose|p: (int, int)| slash_trimmed(s@, p.0, p.1);
        lemma_trim_unique(s@, a as int, b as int, p.0, p.1);
    }
    r
}

#[derive(Debug)]
pub struct YangtzeConfig {
    /// The store's endpoint URL, such as `http://127.0.0.1:8080`.
    pub address: String,
}

pub struct YangtzeClientView {
    pub address: Seq<char>,
    pub version: Option<Seq<char>>,
    pub kind: Option<Seq<char>>,
}

/// `host:port` of an endpoint, with port 80 where the URL names none.
pub open spec fn host_port(host: Seq<char>, port: Option<u16>) -> Seq<char> {
    let p: u16 = match port {
        Some(p) => p,
        None => 80,
    };
    host + ":"@ + decimal_text(p as nat)
}

/// The path that a bound client addresses: `{version}/{kind}`.
pub open spec fn base_path(c: YangtzeClientView) -> Seq<char> {
    let v = match c.version {
        Some(v) => v,
        None => Seq::empty(),
    };
    match c.kind {
        Some(k) => v + "/"@ + k,
        None => v,
    }
}

/// The URL of a request: the base path, then the item path with its slashes trimmed.
pub open spec fn request_url(c: YangtzeClientView, path: Option<Seq<char>>) -> Seq<char> {
    let root = "http://"@ + c.address + "/"@ + base_path(c);
    match path {
        Some(p) => root + "/"@ + trim_slashes(p),
        None => root,
    }
}

#[derive(Clone, Copy, Debug, PartialEq, Eq, Structural)]
pub enum Method {
    Get,
    Post,
    Put,
    Patch,
    Delete,
}

/// One request to the store.
#[derive(Debug)]
pub struct RestRequest {
    pub method: Method,
    pub url: String,
    pub body: String,
}

/// A client of the store, narrowed with `version` and `kind` before it is used.
#[derive(Debug)]
pub struct YangtzeClient {
    address: String,
    version: Option<String>,
    kind: Option<String>,
}

impl View for YangtzeClient {
    type V = YangtzeClientView;

    closed spec fn view(&self) -> YangtzeClientView {
        YangtzeClientView {
            address: self.address@,
            version: self.version.deep_view(),
            kind: self.kind.deep_view(),
        }
    }
}

impl Clone for YangtzeClient {
    fn clone(&self) -> (r: Self)
        ensures
            r@ == self@,
    {
        let version = match &self.version {
            Some(v) => Some(v.clone()),
            None => None,
        };
        let kind = match &self.kind {
            Some(k) => Some(k.clone()),
            None => None,
        };
        YangtzeClient { address: self.address.clone(), version, kind }
    }
}

/// The one response status that counts as success.
pub open spec fn response_ok(status: u16) -> bool {
    status == 200
}

/// Accepts the body of a successful response; any other status is a `RestfulError`
/// whose cause is the status code.
pub fn check_response(status: u16, body: Vec<u8>) -> (r: Result<Vec<u8>, YangtzeError>)
    ensures
        r is Ok <==> response_ok(status),
        r is Ok ==> r->Ok_0@ == body@,
        r is Err ==> r->Err_0 is RestfulError && r->Err_0.spec_message() == decimal_text(status as nat),
{
    if status == 200 {
        Ok(body)
    } else {
        Err(YangtzeError::RestfulError(decimal(status as u64)))
    }
}

impl YangtzeClient {
    /// A client of the endpoint that the configuration names, not yet narrowed.
    /// Fails with `InvalidConfig` when the address is no URL or names no host.
    pub fn new(config: &YangtzeConfig) -> (r: Result<Self, YangtzeError>)
        ensures
            r is Ok <==> (endpoint_of(config.address@) is Some && endpoint_of(config.address@)->Some_0.0 is Some),
            r is Ok ==> r->Ok_0@ == (YangtzeClientView {
                address: host_port(
                    endpoint_of(config.address@)->Some_0.0->Some_0,
                    endpoint_of(config.address@)->Some_0.1,
                ),
                version: None,
                kind: None,
            }),
            r is Err ==> r->Err_0 is InvalidConfig,
    {
        let (host, port) = match parse_endpoint(config.address.as_str()) {
            Some(e) => e,
            None => {
                return Err(YangtzeError::InvalidConfig(String::from_str("invalid yangtze-apiserver url")));
            },
        };
        let host = match host {
            Some(h) => h,
            None => {
                return Err(YangtzeError::InvalidConfig(String::from_str("invalid yangtze-apiserver host")));
            },
        };
        let port: u16 = match port {
            Some(p) => p,
            None => 80,
        };
        let mut address = host;
        address.append(":");
        let digits = decimal(port as u64);
        address.append(digits.as_str());
        Ok(YangtzeClient { address, version: None, kind: None })
    }

    /// The client narrowed to a schema version.
    pub fn version(self, v: &str) -> (r: Self)
        ensures
            r@ == (YangtzeClientView { version: Some(v@), ..self@ }),
    {
        YangtzeClient { version: Some(String::from_str(v)), ..self }
    }

    /// The client narrowed to a resource kind.
    pub fn kind(self, k: &str) -> (r: Self)
        ensures
            r@ == (YangtzeClientView { kind: Some(k@), ..self@ }),
    {
        YangtzeClient { kind: Some(String::from_str(k)), ..self }
    }

    /// Both the version and the kind are set.
    pub fn is_bound(&self) -> (r: bool)
        ensures
            r == (self@.version is Some && self@.kind is Some),
    {
        self.version.is_some() && self.kind.is_some()
    }

    /// The `host:port` that requests go to.
    pub fn address(&self) -> (r: String)
        ensures
            r@ == self@.address,
    {
        self.address.clone()
    }

    fn base_url(&self) -> (r: String)
        ensures
            r@ == base_path(self@),
    {
        let mut url = match &self.version {
            Some(v) => v.clone(),
            None => String::new(),
        };
        match &self.kind {
            Some(k) => {
                url.append("/");
                url.append(k.as_str());
            },
            None => {},
        }
        url
    }

    /// The request for one operation: its method, the URL of the bound version and
    /// kind with the item path if there is one, and the body (empty if there is none).
    /// Fails with `InvalidConfig` on a client that is not narrowed to both a version
    /// and a kind.
    pub fn prepare_request(&self, method: Method, path: Option<String>, data: Option<String>) -> (r: Result<RestRequest, YangtzeError>)
        ensures
            r is Ok <==> (self@.version is Some && self@.kind is Some),
            r is Ok ==> r->Ok_0.method == method
                && r->Ok_0.url@ == request_url(self@, path.deep_view())
                && r->Ok_0.body@ == match data {
                    Some(d) => d@,
                    None => Seq::<char>::empty(),
                },
            r is Err ==> r->Err_0 is InvalidConfig,
    {
        if !self.is_bound() {
            return Err(YangtzeError::InvalidConfig(String::from_str("the client is not bound to a version and kind")));
        }
        let mut url = String::from_str("http://");
        url.append(self.address.as_str());
        url.append("/");
        let base = self.base_url();
        url.append(base.as_str());
        match &path {
            Some(p) => {
                url.append("/");
                let trimmed = trim_slashes_exec(p.as_str());
                url.append(trimmed.as_str());
            },
            None => {},
        }
        let body = match data {
            Some(d) => d,
            None => String::new(),
        };
        Ok(RestRequest { method, url, body })
    }
}

} // verus!
