//! The request authority: credentials and transport settings, and the
//! requests that are made with them.

pub mod error;
pub mod hmac;
pub mod json;
pub mod number;
pub mod query_string;
pub mod response;
pub mod text;
pub mod url;

use self::error::{BinanceError, BodyParseError, TransportError};
use self::hmac::{SecretKey, MAX_HMAC_INPUT};
use self::number::int_text;
use self::query_string::QuerySerializationError;
use self::json::{body_value, from_slice, FromJson};
use self::response::{figures_of, BinanceHttpHeader, Response, SuccessOrError};
use self::text::{lemma_utf8_concat, utf8};
use self::url::{pair_text, Url, UrlView, MAX_CAPACITY};
use vstd::prelude::*;
use vstd::string::*;

verus! {

/// The time, in milliseconds, allowed for connecting unless another is set.
pub const HTTP_CONNECTION_TIMEOUT_MS_DEFAULT: u64 = 5000;

/// The time, in milliseconds, allowed for a whole request unless another is set.
pub const HTTP_REQUEST_TIMEOUT_MS_DEFAULT: u64 = 5000;

/// The receive window, in milliseconds, that the exchange assumes where a
/// request names none.
pub const RECV_WINDOW_MS_DEFAULT: u16 = 5000;

/// Room for `&recvWindow=` and its value.
pub const RECV_WINDOW_MAX_LEN: usize = 17;

/// Room for `&timestamp=` and its value.
pub const TIMESTAMP_MAX_LEN: usize = 30;

/// Room for `&signature=` and its value.
pub const SIGNATURE_MAX_LEN: usize = 75;

/// Room for all that signing appends.
pub const SIGNED_PARAMS_LEN: usize = RECV_WINDOW_MAX_LEN + TIMESTAMP_MAX_LEN + SIGNATURE_MAX_LEN;

/// The address that outgoing connections are bound to, as the bits of an
/// IPv4 or an IPv6 address.
#[derive(Clone, Copy, Debug, PartialEq, Eq, Structural)]
pub enum LocalAddress {
    V4(u32),
    V6(u128),
}

/// How the transport is set up. It is fixed when the client is built and is
/// the same for every request.
#[derive(Clone, Copy, Debug, PartialEq, Eq, Structural)]
pub struct HttpSettings {
    pub connect_timeout_ms: u64,
    pub request_timeout_ms: u64,
    pub tcp_nodelay: bool,
    pub local_addr: Option<LocalAddress>,
    /// Whether every request declares a JSON body by default.
    pub json_content_type: bool,
}

/// The settings of a client that was given none: both timeouts at their
/// defaults, no delay on the socket, no local address, JSON declared.
pub open spec fn default_settings() -> HttpSettings {
    HttpSettings {
        connect_timeout_ms: HTTP_CONNECTION_TIMEOUT_MS_DEFAULT,
        request_timeout_ms: HTTP_REQUEST_TIMEOUT_MS_DEFAULT,
        tcp_nodelay: true,
        local_addr: None,
        json_content_type: true,
    }
}

/// The settings of a client that was given none.
pub fn http_client_default() -> (settings: HttpSettings)
    ensures
        settings == default_settings(),
{
    HttpSettings {
        connect_timeout_ms: HTTP_CONNECTION_TIMEOUT_MS_DEFAULT,
        request_timeout_ms: HTTP_REQUEST_TIMEOUT_MS_DEFAULT,
        tcp_nodelay: true,
        local_addr: None,
        json_content_type: true,
    }
}

/// The bytes of a secret given as text.
fn secret_key_of(secret: &str) -> (key: SecretKey)
    requires
        utf8(secret@).len() <= MAX_HMAC_INPUT,
    ensures
        key@ == utf8(secret@),
{
    SecretKey::new(secret.as_bytes_vec())
}

/// What a client is built from. A field left empty takes its default.
pub struct BinanceClientBuilder {
    pub host: String,
    pub api_key: Option<String>,
    pub secret_key: Option<String>,
    pub recv_window: Option<u16>,
    pub http_connect_timeout_ms: Option<u64>,
    pub http_request_timeout_ms: Option<u64>,
    pub tcp_nodelay: Option<bool>,
    pub local_addr: Option<LocalAddress>,
}

/// The text of an optional string.
pub open spec fn text_of(s: Option<String>) -> Option<Seq<char>> {
    match s {
        Some(s) => Some(s@),
        None => None,
    }
}

/// The settings of a builder, apart from the host.
pub struct BuilderView {
    pub api_key: Option<Seq<char>>,
    pub secret_key: Option<Seq<char>>,
    pub recv_window: Option<u16>,
    pub http_connect_timeout_ms: Option<u64>,
    pub http_request_timeout_ms: Option<u64>,
    pub tcp_nodelay: Option<bool>,
    pub local_addr: Option<LocalAddress>,
}

impl BuilderView {
    /// Nothing set.
    pub open spec fn empty() -> BuilderView {
        BuilderView {
            api_key: None,
            secret_key: None,
            recv_window: None,
            http_connect_timeout_ms: None,
            http_request_timeout_ms: None,
            tcp_nodelay: None,
            local_addr: None,
        }
    }

    /// The secret, or the empty secret where none is set.
    pub open spec fn secret(self) -> Seq<char> {
        match self.secret_key {
            Some(k) => k,
            None => Seq::<char>::empty(),
        }
    }

    /// The transport settings that are built: what is set, and the default
    /// timeouts and no delay on the socket for the rest.
    pub open spec fn settings(self) -> HttpSettings {
        HttpSettings {
            connect_timeout_ms: match self.http_connect_timeout_ms {
                Some(t) => t,
                None => HTTP_CONNECTION_TIMEOUT_MS_DEFAULT,
            },
            request_timeout_ms: match self.http_request_timeout_ms {
                Some(t) => t,
                None => HTTP_REQUEST_TIMEOUT_MS_DEFAULT,
            },
            tcp_nodelay: match self.tcp_nodelay {
                Some(b) => b,
                None => true,
            },
            local_addr: self.local_addr,
            json_content_type: false,
        }
    }

    /// The client that is built for a host: an absent key is the empty key,
    /// an absent receive window the default one.
    pub open spec fn client(self, host: Seq<char>) -> BinanceClientView {
        BinanceClientView {
            api_key: match self.api_key {
                Some(k) => k,
                None => Seq::<char>::empty(),
            },
            secret_key: utf8(self.secret()),
            recv_window: match self.recv_window {
                Some(w) => w,
                None => RECV_WINDOW_MS_DEFAULT,
            },
            host,
            http: self.settings(),
        }
    }
}

impl View for BinanceClientBuilder {
    type V = BuilderView;

    open spec fn view(&self) -> BuilderView {
        BuilderView {
            api_key: text_of(self.api_key),
            secret_key: text_of(self.secret_key),
            recv_window: self.recv_window,
            http_connect_timeout_ms: self.http_connect_timeout_ms,
            http_request_timeout_ms: self.http_request_timeout_ms,
            tcp_nodelay: self.tcp_nodelay,
            local_addr: self.local_addr,
        }
    }
}

impl BinanceClientBuilder {
    pub fn new(host: String) -> (builder: BinanceClientBuilder)
        ensures
            builder.host == host,
            builder@ == BuilderView::empty(),
    {
        BinanceClientBuilder {
            host,
            api_key: None,
            secret_key: None,
            recv_window: None,
            http_connect_timeout_ms: None,
            http_request_timeout_ms: None,
            tcp_nodelay: None,
            local_addr: None,
        }
    }

    /// Builds the client: what was set is taken, the rest defaults.
    pub fn build(self) -> (client: BinanceClient)
        requires
            utf8(self@.secret()).len() <= MAX_HMAC_INPUT,
        ensures
            client@ == self@.client(self.host@),
    {
        let connect_timeout_ms = match self.http_connect_timeout_ms {
            Some(t) => t,
            None => HTTP_CONNECTION_TIMEOUT_MS_DEFAULT,
        };
        let request_timeout_ms = match self.http_request_timeout_ms {
            Some(t) => t,
            None => HTTP_REQUEST_TIMEOUT_MS_DEFAULT,
        };
        let tcp_nodelay = match self.tcp_nodelay {
            Some(b) => b,
            None => true,
        };
        let http = HttpSettings {
            connect_timeout_ms,
            request_timeout_ms,
            tcp_nodelay,
            local_addr: self.local_addr,
            json_content_type: false,
        };
        let api_key = match self.api_key {
            Some(k) => k,
            None => String::new(),
        };
        let secret_key = match self.secret_key {
            Some(k) => secret_key_of(k.as_str()),
            None => {
                proof {
                    assert(utf8(Seq::<char>::empty()) =~= Seq::<u8>::empty());
                }
                SecretKey::new(Vec::new())
            },
        };
        let recv_window = match self.recv_window {
            Some(w) => w,
            None => RECV_WINDOW_MS_DEFAULT,
        };
        BinanceClient { api_key, secret_key, recv_window, host: self.host, http }
    }
}

/// The HTTP methods that the exchange is called with.
#[derive(Clone, Copy, Debug, PartialEq, Eq, Structural)]
pub enum Method {
    Get,
    Post,
    Delete,
}

/// A request that is ready to be sent: nothing is added to it afterwards.
#[derive(Debug)]
pub struct Request {
    pub method: Method,
    /// Host, path and query.
    pub url: String,
    /// The API key to send in the `X-MBX-APIKEY` header, where the request
    /// carries one.
    pub api_key: Option<String>,
}

/// What a [`Request`] stands for.
pub struct RequestView {
    pub method: Method,
    pub url: Seq<char>,
    pub api_key: Option<Seq<char>>,
}

impl View for Request {
    type V = RequestView;

    open spec fn view(&self) -> RequestView {
        RequestView {
            method: self.method,
            url: self.url@,
            api_key: match self.api_key {
                Some(k) => Some(k@),
                None => None,
            },
        }
    }
}

/// Credentials, host, receive window and transport settings. Nothing of it
/// changes once the client is built.
pub struct BinanceClient {
    pub(crate) api_key: String,
    pub(crate) secret_key: SecretKey,
    pub(crate) recv_window: u16,
    pub(crate) host: String,
    pub(crate) http: HttpSettings,
}

/// What a [`BinanceClient`] stands for.
pub struct BinanceClientView {
    pub api_key: Seq<char>,
    pub secret_key: Seq<u8>,
    pub recv_window: u16,
    pub host: Seq<char>,
    pub http: HttpSettings,
}

impl View for BinanceClient {
    type V = BinanceClientView;

    closed spec fn view(&self) -> BinanceClientView {
        BinanceClientView {
            api_key: self.api_key@,
            secret_key: self.secret_key@,
            recv_window: self.recv_window,
            host: self.host@,
            http: self.http,
        }
    }
}

impl BinanceClientView {
    /// A client without credentials, with the default settings.
    pub open spec fn anonymous(host: Seq<char>) -> BinanceClientView {
        BinanceClientView {
            api_key: Seq::<char>::empty(),
            secret_key: Seq::<u8>::empty(),
            recv_window: RECV_WINDOW_MS_DEFAULT,
            host,
            http: default_settings(),
        }
    }

    /// A client with credentials, with the default settings. The key that
    /// signs is the bytes of the secret.
    pub open spec fn with_credentials(
        host: Seq<char>,
        api_key: Seq<char>,
        secret_key: Seq<char>,
    ) -> BinanceClientView {
        BinanceClientView {
            api_key,
            secret_key: utf8(secret_key),
            recv_window: RECV_WINDOW_MS_DEFAULT,
            host,
            http: default_settings(),
        }
    }

    /// The address of a path, before any parameter.
    pub open spec fn start(self, path: Seq<char>) -> UrlView {
        UrlView { base: self.host + path, query: None }
    }

    /// The receive window, where it is not the default.
    pub open spec fn with_window(self, v: UrlView) -> UrlView {
        if self.recv_window != RECV_WINDOW_MS_DEFAULT {
            v.with_param(pair_text("recvWindow"@, int_text(self.recv_window as int)))
        } else {
            v
        }
    }

    /// What is signed: the caller's parameters, the receive window where it is
    /// not the default, and the timestamp.
    pub open spec fn unsigned_params(self, v: UrlView, timestamp: i64) -> UrlView {
        self.with_window(v).with_timestamp(timestamp)
    }

    /// What is sent: what is signed, and its signature last.
    pub open spec fn signed_params(self, v: UrlView, timestamp: i64) -> UrlView {
        self.unsigned_params(v, timestamp).signed(self.secret_key)
    }

    /// What appending the signed parameters does to an address at a given
    /// time: where the address with receive window and timestamp can be
    /// signed, it is signed; where it is too long, it is left unsigned and the
    /// error says how long it is.
    pub open spec fn signing_outcome(
        self,
        before: UrlView,
        timestamp: i64,
        after: UrlView,
        r: Result<(), QuerySerializationError>,
    ) -> bool {
        let unsigned = self.unsigned_params(before, timestamp);
        if signable(unsigned) {
            r is Ok && after == self.signed_params(before, timestamp)
        } else {
            r == Err::<(), QuerySerializationError>(
                QuerySerializationError::TooLong { len: utf8(unsigned.text()).len() as usize },
            ) && after == unsigned
        }
    }

    /// The signed request for an address at a given time: it carries the API
    /// key, and its query ends with the signature. An address too long to be
    /// signed gives no request.
    pub open spec fn signed_request_outcome(
        self,
        method: Method,
        v: UrlView,
        timestamp: i64,
        r: Result<Request, QuerySerializationError>,
    ) -> bool {
        let unsigned = self.unsigned_params(v, timestamp);
        if signable(unsigned) {
            r is Ok && r->Ok_0@ == self.keyed(method, self.signed_params(v, timestamp))
        } else {
            r == Err::<Request, QuerySerializationError>(
                QuerySerializationError::TooLong { len: utf8(unsigned.text()).len() as usize },
            )
        }
    }

    /// The signed request for the outcome of writing the caller's parameters:
    /// a failure to write them is the failure of the request.
    pub open spec fn written_outcome(
        self,
        method: Method,
        written: Result<Url, QuerySerializationError>,
        timestamp: i64,
        r: Result<Request, QuerySerializationError>,
    ) -> bool {
        match written {
            Ok(url) => self.signed_request_outcome(method, url@, timestamp, r),
            Err(e) => r == Err::<Request, QuerySerializationError>(e),
        }
    }

    /// The signed request with a structured object as its parameters: where
    /// the object could not be encoded, the request fails with that error.
    pub open spec fn encoded_outcome(
        self,
        method: Method,
        start: UrlView,
        encoded: Result<String, QuerySerializationError>,
        timestamp: i64,
        r: Result<Request, QuerySerializationError>,
    ) -> bool {
        match encoded {
            Ok(s) => self.signed_request_outcome(method, start.with_param(s@), timestamp, r),
            Err(e) => r == Err::<Request, QuerySerializationError>(e),
        }
    }

    /// A request without credentials.
    pub open spec fn plain(self, method: Method, v: UrlView) -> RequestView {
        RequestView { method, url: v.text(), api_key: None }
    }

    /// A request that carries the API key.
    pub open spec fn keyed(self, method: Method, v: UrlView) -> RequestView {
        RequestView { method, url: v.text(), api_key: Some(self.api_key) }
    }
}

/// Whether an address is short enough for its query to be signed.
pub open spec fn signable(v: UrlView) -> bool {
    utf8(v.text()).len() <= MAX_HMAC_INPUT
}

/// A number of bytes as a capacity: the number itself, or the largest
/// capacity there is where the number is larger.
pub open spec fn capped(bytes: int) -> int {
    if bytes <= MAX_CAPACITY {
        bytes
    } else {
        MAX_CAPACITY as int
    }
}

/// The capacity to reserve for host, path and query together: the bytes of
/// host and path and the room asked for the query, added up. It is a hint
/// and stops at the largest capacity there is.
fn capacity_hint(host: &str, path: &str, query_capacity: usize) -> (n: usize)
    ensures
        n == capped(utf8(host@).len() + utf8(path@).len() + query_capacity),
{
    let mut n: usize = MAX_CAPACITY;
    let host_len = host.as_bytes().len();
    let path_len = path.as_bytes().len();
    if host_len <= MAX_CAPACITY && path_len <= MAX_CAPACITY - host_len && query_capacity
        <= MAX_CAPACITY - host_len - path_len {
        n = host_len + path_len + query_capacity;
    }
    n
}

/// The room to reserve for a value and `extra` bytes around it: the bytes of
/// the value and the extra ones, added up. It stops at the largest capacity
/// there is.
pub(crate) fn room_for(val: &str, extra: usize) -> (n: usize)
    ensures
        n == capped(utf8(val@).len() + extra),
{
    let len = val.as_bytes().len();
    if len <= MAX_CAPACITY && extra <= MAX_CAPACITY - len {
        len + extra
    } else {
        MAX_CAPACITY
    }
}

impl BinanceClient {
    pub fn builder(host: String) -> (builder: BinanceClientBuilder)
        ensures
            builder.host == host,
            builder@ == BuilderView::empty(),
    {
        BinanceClientBuilder::new(host)
    }

    /// A client without credentials, with the default settings.
    pub fn new(host: String) -> (client: BinanceClient)
        ensures
            client@ == BinanceClientView::anonymous(host@),
    {
        BinanceClient {
            api_key: String::new(),
            secret_key: SecretKey::new(Vec::new()),
            recv_window: RECV_WINDOW_MS_DEFAULT,
            host,
            http: http_client_default(),
        }
    }

    /// A client with credentials, with the default settings.
    pub fn signed(host: String, api_key: String, secret_key: String) -> (client: BinanceClient)
        requires
            utf8(secret_key@).len() <= MAX_HMAC_INPUT,
        ensures
            client@ == BinanceClientView::with_credentials(host@, api_key@, secret_key@),
    {
        BinanceClient {
            api_key,
            secret_key: secret_key_of(secret_key.as_str()),
            recv_window: RECV_WINDOW_MS_DEFAULT,
            host,
            http: http_client_default(),
        }
    }

    pub fn api_key(&self) -> (key: &str)
        ensures
            key@ == self@.api_key,
    {
        self.api_key.as_str()
    }

    pub fn host(&self) -> (host: &str)
        ensures
            host@ == self@.host,
    {
        self.host.as_str()
    }

    pub fn recv_window(&self) -> (window: u16)
        ensures
            window == self@.recv_window,
    {
        self.recv_window
    }

    pub fn http_settings(&self) -> (settings: HttpSettings)
        ensures
            settings == self@.http,
    {
        self.http
    }

    /// The buffer for a request to `path`, with room for a query of
    /// `query_capacity` bytes.
    fn url(&self, path: &str, query_capacity: usize) -> (url: Url)
        ensures
            url.wf(),
            url@ == self@.start(path@),
    {
        let capacity = capacity_hint(self.host.as_str(), path, query_capacity);
        Url::with_capacity(self.host.as_str(), path, capacity)
    }

    /// A request without credentials for the address as it stands.
    fn request(&self, method: Method, url: Url) -> (req: Request)
        requires
            url.wf(),
        ensures
            req@ == self@.plain(method, url@),
    {
        Request { method, url: url.into_string(), api_key: None }
    }

    /// A request with the API key for the address as it stands.
    fn signed_request(&self, method: Method, url: Url) -> (req: Request)
        requires
            url.wf(),
        ensures
            req@ == self@.keyed(method, url@),
    {
        Request { method, url: url.into_string(), api_key: Some(self.api_key.clone()) }
    }

    /// An anonymous GET of `path`, without a query.
    pub fn get(&self, path: &str) -> (req: Request)
        ensures
            req@ == self@.plain(Method::Get, self@.start(path@)),
    {
        let url = self.url(path, 0);
        self.request(Method::Get, url)
    }

    /// An anonymous GET of `path` with the query that `add_params` writes.
    pub fn get_with_query<F: FnOnce(Url) -> Url>(
        &self,
        path: &str,
        query_capacity: usize,
        add_params: F,
    ) -> (req: Request)
        requires
            forall|u: Url| u.wf() && u@ == self@.start(path@) ==> add_params.requires((u,)),
            forall|u: Url, v: Url| u.wf() && add_params.ensures((u,), v) ==> v.wf(),
        ensures
            exists|u: Url, v: Url|
                u.wf() && u@ == self@.start(path@) && add_params.ensures((u,), v) && req@
                    == self@.plain(Method::Get, v@),
    {
        let url = self.url(path, query_capacity);
        let url = add_params(url);
        self.request(Method::Get, url)
    }

    /// A GET of `path` that carries the API key but no signature, with the
    /// query that `add_params` writes.
    pub fn get_with_query_api_key<F: FnOnce(Url) -> Url>(
        &self,
        path: &str,
        query_capacity: usize,
        add_params: F,
    ) -> (req: Request)
        requires
            forall|u: Url| u.wf() && u@ == self@.start(path@) ==> add_params.requires((u,)),
            forall|u: Url, v: Url| u.wf() && add_params.ensures((u,), v) ==> v.wf(),
        ensures
            exists|u: Url, v: Url|
                u.wf() && u@ == self@.start(path@) && add_params.ensures((u,), v) && req@
                    == self@.keyed(Method::Get, v@),
    {
        let url = self.url(path, query_capacity);
        let url = add_params(url);
        self.signed_request(Method::Get, url)
    }

    /// Appends what is signed besides the caller's parameters: the receive
    /// window where it is not the default, then the timestamp.
    fn add_unsigned_params_at(&self, url: &mut Url, timestamp: i64)
        requires
            old(url).wf(),
        ensures
            final(url).wf(),
            final(url)@ == self@.unsigned_params(old(url)@, timestamp),
    {
        if self.recv_window != RECV_WINDOW_MS_DEFAULT {
            url.add_param_integer("recvWindow", self.recv_window as i128);
        }
        url.add_timestamp_at(timestamp);
    }

    /// Appends what a signed request ends with, for a given time: the receive
    /// window where it is not the default, the timestamp, and the signature of
    /// the query up to there.
    pub fn add_signed_params_at(&self, url: &mut Url, timestamp: i64)
        requires
            old(url).wf(),
            signable(self@.unsigned_params(old(url)@, timestamp)),
        ensures
            final(url).wf(),
            final(url)@ == self@.signed_params(old(url)@, timestamp),
    {
        self.add_unsigned_params_at(url, timestamp);
        proof {
            lemma_query_within_text(url@);
        }
        url.gen_and_add_signature(&self.secret_key);
    }

    /// Appends what a signed request ends with, for a given time, unless the
    /// address is then too long to be signed: in that case it is left unsigned.
    pub fn try_add_signed_params_at(&self, url: &mut Url, timestamp: i64) -> (r: Result<
        (),
        QuerySerializationError,
    >)
        requires
            old(url).wf(),
        ensures
            final(url).wf(),
            self@.signing_outcome(old(url)@, timestamp, final(url)@, r),
    {
        self.add_unsigned_params_at(url, timestamp);
        let len = url.len();
        if len as u64 > MAX_HMAC_INPUT {
            return Err(QuerySerializationError::TooLong { len });
        }
        proof {
            lemma_query_within_text(url@);
        }
        url.gen_and_add_signature(&self.secret_key);
        Ok(())
    }

    /// Appends what a signed request ends with, at the current time.
    pub fn add_signed_params(&self, url: &mut Url) -> (r: Result<(), QuerySerializationError>)
        requires
            old(url).wf(),
        ensures
            final(url).wf(),
            exists|timestamp: i64| self@.signing_outcome(old(url)@, timestamp, final(url)@, r),
    {
        let now = now_millis();
        self.try_add_signed_params_at(url, now)
    }

    /// The signed request for an address whose parameters are written, for a
    /// given time.
    pub fn signed_request_at(&self, method: Method, url: Url, timestamp: i64) -> (r: Result<
        Request,
        QuerySerializationError,
    >)
        requires
            url.wf(),
        ensures
            self@.signed_request_outcome(method, url@, timestamp, r),
    {
        let mut url = url;
        match self.try_add_signed_params_at(&mut url, timestamp) {
            Ok(()) => Ok(self.signed_request(method, url)),
            Err(e) => Err(e),
        }
    }

    /// The signed request for the outcome of writing the parameters, at the
    /// current time. A failure to write them is handed on.
    fn finish_signed(&self, method: Method, written: Result<Url, QuerySerializationError>) -> (r:
        Result<Request, QuerySerializationError>)
        requires
            written is Ok ==> written->Ok_0.wf(),
        ensures
            exists|timestamp: i64| self@.written_outcome(method, written, timestamp, r),
    {
        match written {
            Ok(url) => {
                let now = now_millis();
                let r = self.signed_request_at(method, url, now);
                proof {
                    assert(self@.written_outcome(method, written, now, r));
                }
                r
            },
            Err(e) => {
                let r = Err(e);
                proof {
                    assert(self@.written_outcome(method, written, 0i64, r));
                }
                r
            },
        }
    }

    /// A signed GET of `path`, without parameters of the caller.
    pub fn get_signed(&self, path: &str) -> (r: Result<Request, QuerySerializationError>)
        ensures
            exists|timestamp: i64|
                self@.signed_request_outcome(Method::Get, self@.start(path@), timestamp, r),
    {
        let url = self.url(path, SIGNED_PARAMS_LEN);
        let now = now_millis();
        self.signed_request_at(Method::Get, url, now)
    }

    /// A signed GET of `path` with the parameters that `add_params` writes.
    pub fn get_signed_with_query<F: FnOnce(Url) -> Result<Url, QuerySerializationError>>(
        &self,
        path: &str,
        query_capacity: usize,
        add_params: F,
    ) -> (r: Result<Request, QuerySerializationError>)
        requires
            forall|u: Url| u.wf() && u@ == self@.start(path@) ==> add_params.requires((u,)),
            forall|u: Url, w: Result<Url, QuerySerializationError>|
                u.wf() && add_params.ensures((u,), w) && w is Ok ==> w->Ok_0.wf(),
        ensures
            exists|u: Url, w: Result<Url, QuerySerializationError>, timestamp: i64|
                u.wf() && u@ == self@.start(path@) && add_params.ensures((u,), w)
                    && self@.written_outcome(Method::Get, w, timestamp, r),
    {
        let room = if query_capacity <= MAX_CAPACITY - SIGNED_PARAMS_LEN {
            query_capacity + SIGNED_PARAMS_LEN
        } else {
            MAX_CAPACITY
        };
        let url = self.url(path, room);
        let written = add_params(url);
        self.finish_signed(Method::Get, written)
    }

    /// A signed POST to `path` with the parameters that `add_params` writes.
    pub fn post_signed_with_query<F: FnOnce(Url) -> Result<Url, QuerySerializationError>>(
        &self,
        path: &str,
        query_capacity: usize,
        add_params: F,
    ) -> (r: Result<Request, QuerySerializationError>)
        requires
            forall|u: Url| u.wf() && u@ == self@.start(path@) ==> add_params.requires((u,)),
            forall|u: Url, w: Result<Url, QuerySerializationError>|
                u.wf() && add_params.ensures((u,), w) && w is Ok ==> w->Ok_0.wf(),
        ensures
            exists|u: Url, w: Result<Url, QuerySerializationError>, timestamp: i64|
                u.wf() && u@ == self@.start(path@) && add_params.ensures((u,), w)
                    && self@.written_outcome(Method::Post, w, timestamp, r),
    {
        let room = if query_capacity <= MAX_CAPACITY - SIGNED_PARAMS_LEN {
            query_capacity + SIGNED_PARAMS_LEN
        } else {
            MAX_CAPACITY
        };
        let url = self.url(path, room);
        let written = add_params(url);
        self.finish_signed(Method::Post, written)
    }

    /// A signed DELETE of `path` with the parameters that `add_params` writes.
    pub fn delete_signed_with_query<F: FnOnce(Url) -> Result<Url, QuerySerializationError>>(
        &self,
        path: &str,
        query_capacity: usize,
        add_params: F,
    ) -> (r: Result<Request, QuerySerializationError>)
        requires
            forall|u: Url| u.wf() && u@ == self@.start(path@) ==> add_params.requires((u,)),
            forall|u: Url, w: Result<Url, QuerySerializationError>|
                u.wf() && add_params.ensures((u,), w) && w is Ok ==> w->Ok_0.wf(),
        ensures
            exists|u: Url, w: Result<Url, QuerySerializationError>, timestamp: i64|
                u.wf() && u@ == self@.start(path@) && add_params.ensures((u,), w)
                    && self@.written_outcome(Method::Delete, w, timestamp, r),
    {
        let room = if query_capacity <= MAX_CAPACITY - SIGNED_PARAMS_LEN {
            query_capacity + SIGNED_PARAMS_LEN
        } else {
            MAX_CAPACITY
        };
        let url = self.url(path, room);
        let written = add_params(url);
        self.finish_signed(Method::Delete, written)
    }

    /// A signed request to `path` whose parameters are a structured object,
    /// given as its encoded query text or as the error of encoding it.
    pub fn signed_with_data(
        &self,
        method: Method,
        path: &str,
        query_capacity: usize,
        data: Result<String, QuerySerializationError>,
    ) -> (r: Result<Request, QuerySerializationError>)
        ensures
            exists|timestamp: i64|
                self@.encoded_outcome(method, self@.start(path@), data, timestamp, r),
    {
        let room = if query_capacity <= MAX_CAPACITY - SIGNED_PARAMS_LEN {
            query_capacity + SIGNED_PARAMS_LEN
        } else {
            MAX_CAPACITY
        };
        let mut url = self.url(path, room);
        let written = match url.add_params_from_data(data) {
            Ok(()) => Ok(url),
            Err(e) => Err(e),
        };
        let r = self.finish_signed(method, written);
        proof {
            let timestamp = choose|timestamp: i64|
                self@.written_outcome(method, written, timestamp, r);
            assert(self@.encoded_outcome(method, self@.start(path@), data, timestamp, r));
        }
        r
    }

    /// The first step of resolving a response: status and rate-limit headers.
    /// A header that is present and holds no number fails the response here,
    /// before its body is looked at.
    pub fn read_head<E>(status: http::StatusCode, headers: &http::HeaderMap<http::HeaderValue>) -> (r:
        Result<ResponseHead, BinanceError<E>>)
        ensures
            r == match figures_of(*headers) {
                Ok(figures) => Ok::<ResponseHead, BinanceError<E>>(
                    ResponseHead { status, headers: figures },
                ),
                Err(e) => Err::<ResponseHead, BinanceError<E>>(BinanceError::HeaderParseInt(e)),
            },
    {
        match BinanceHttpHeader::try_from(headers) {
            Ok(figures) => Ok(ResponseHead { status, headers: figures }),
            Err(e) => Err(BinanceError::HeaderParseInt(e)),
        }
    }

    /// Resolves a response whose body is there: first the rate-limit headers,
    /// which fail the response where one of them holds no number, whatever
    /// the body is; then the body, which is the payload, or the exchange's
    /// error object, or neither.
    pub fn resolve<D: FromJson, E: FromJson>(
        status: http::StatusCode,
        headers: &http::HeaderMap<http::HeaderValue>,
        body: &[u8],
    ) -> (r: Result<Response<D>, BinanceError<E>>)
        ensures
            resolution::<D, E>(status, figures_of(*headers), body@, r),
    {
        let head = match BinanceClient::read_head::<E>(status, headers) {
            Ok(head) => head,
            Err(e) => {
                return Err(e);
            },
        };
        match from_slice::<D, E>(body) {
            Ok(decoded) => decoded.to_result(head.status, head.headers),
            Err(e) => Err(BinanceError::ParseJson(e)),
        }
    }

    /// The second step of resolving a response: what became of the body. A
    /// decoded payload is the result; a decoded error object is the
    /// exchange's refusal, with status and headers; a body that could not be
    /// read or decoded is a failure of its own kind.
    pub fn handle_response<D, E>(head: ResponseHead, body: Result<SuccessOrError<D, E>, BodyFailure>) -> (r:
        Result<Response<D>, BinanceError<E>>)
        ensures
            r == resolved(head, body),
    {
        match body {
            Ok(decoded) => decoded.to_result(head.status, head.headers),
            Err(BodyFailure::Transport(e)) => Err(BinanceError::HttpClient(e)),
            Err(BodyFailure::Parse(e)) => Err(BinanceError::ParseJson(e)),
        }
    }

}

/// Status and rate-limit figures of a response whose body is still to come.
#[derive(Debug)]
pub struct ResponseHead {
    pub status: http::StatusCode,
    pub headers: BinanceHttpHeader,
}

/// Why there is no decoded body.
#[derive(Debug)]
pub enum BodyFailure {
    /// The body could not be read.
    Transport(TransportError),
    /// The body was read and matched neither shape.
    Parse(BodyParseError),
}

/// What a response with a given body resolves to: a header that holds no
/// number decides before the body does.
pub open spec fn resolution<D: FromJson, E: FromJson>(
    status: http::StatusCode,
    figures: Result<BinanceHttpHeader, self::error::HeaderParseIntError>,
    body: Seq<u8>,
    r: Result<Response<D>, BinanceError<E>>,
) -> bool {
    match figures {
        Err(e) => r == Err::<Response<D>, BinanceError<E>>(BinanceError::HeaderParseInt(e)),
        Ok(headers) => match body_value::<D, E>(body) {
            Some(SuccessOrError::Success(payload)) => r == Ok::<Response<D>, BinanceError<E>>(
                Response { headers, status, payload },
            ),
            Some(SuccessOrError::Error(payload)) => r == Err::<Response<D>, BinanceError<E>>(
                BinanceError::Binance(Response { headers, status, payload }),
            ),
            None => r is Err && r->Err_0 is ParseJson,
        },
    }
}

/// What a response resolves to, given its head and what became of its body.
pub open spec fn resolved<D, E>(
    head: ResponseHead,
    body: Result<SuccessOrError<D, E>, BodyFailure>,
) -> Result<Response<D>, BinanceError<E>> {
    match body {
        Ok(SuccessOrError::Success(payload)) => Ok(
            Response { headers: head.headers, status: head.status, payload },
        ),
        Ok(SuccessOrError::Error(payload)) => Err(
            BinanceError::Binance(Response { headers: head.headers, status: head.status, payload }),
        ),
        Err(BodyFailure::Transport(e)) => Err(BinanceError::HttpClient(e)),
        Err(BodyFailure::Parse(e)) => Err(BinanceError::ParseJson(e)),
    }
}

/// The current time as `chrono::Utc::now().timestamp_millis()` gives it:
/// milliseconds since the Unix epoch. Nothing is known of the value.
#[verifier::external_body]
pub(crate) fn now_millis() -> i64 {
    chrono::Utc::now().timestamp_millis()
}

/// The text of the `timestamp` parameter.
pub open spec fn timestamp_text(timestamp: i64) -> Seq<char> {
    pair_text("timestamp"@, int_text(timestamp as int))
}

/// The text of the `recvWindow` parameter.
pub open spec fn recv_window_text(recv_window: u16) -> Seq<char> {
    pair_text("recvWindow"@, int_text(recv_window as int))
}

/// A query with the signature of its own bytes appended.
pub open spec fn signed_query(key: Seq<u8>, query: Seq<char>) -> Seq<char> {
    query + ("&signature="@ + self::hmac::signature(key, utf8(query)))
}

/// With the default receive window, a signed query is the caller's
/// parameters, then `timestamp`, then `signature`; `recvWindow` is left out.
/// The text before the query stays as it was.
pub proof fn lemma_default_window_omitted(client: BinanceClientView, v: UrlView, timestamp: i64)
    requires
        client.recv_window == RECV_WINDOW_MS_DEFAULT,
    ensures
        client.signed_params(v, timestamp).base == v.base,
        client.signed_params(v, timestamp).query == Some(
            signed_query(client.secret_key, v.separated().query->0 + timestamp_text(timestamp)),
        ),
{
}

/// With another receive window, a signed query is the caller's parameters,
/// then `recvWindow`, then `timestamp` right after it, then `signature`.
pub proof fn lemma_window_before_timestamp(client: BinanceClientView, v: UrlView, timestamp: i64)
    requires
        client.recv_window != RECV_WINDOW_MS_DEFAULT,
    ensures
        client.signed_params(v, timestamp).base == v.base,
        client.signed_params(v, timestamp).query == Some(
            signed_query(
                client.secret_key,
                v.separated().query->0 + recv_window_text(client.recv_window) + seq!['&']
                    + timestamp_text(timestamp),
            ),
        ),
{
}

/// A signature covers the query and nothing else: two addresses with the
/// same query get the same signed query, whatever their hosts and paths.
pub proof fn lemma_signature_covers_query_only(
    client: BinanceClientView,
    v1: UrlView,
    v2: UrlView,
    timestamp: i64,
)
    requires
        v1.query == v2.query,
    ensures
        client.signed_params(v1, timestamp).query == client.signed_params(v2, timestamp).query,
{
}

/// The signature is the last thing in a signed query, and it is the
/// signature of all that stands before it there.
pub proof fn lemma_signature_is_last(client: BinanceClientView, v: UrlView, timestamp: i64)
    ensures
        ({
            let unsigned = client.unsigned_params(v, timestamp);
            let signed = client.signed_params(v, timestamp);
            &&& unsigned.query is Some
            &&& signed.query == Some(signed_query(client.secret_key, unsigned.query->0))
        }),
{
}

/// The query is no longer than the whole address.
pub proof fn lemma_query_within_text(v: UrlView)
    requires
        v.query is Some,
    ensures
        utf8(v.query->0).len() <= utf8(v.text()).len(),
{
    lemma_utf8_concat(v.base + seq!['?'], v.query->0);
}

} // verus!
