//! The query builder: host and path followed by an ordered query string.

use super::now_millis;
use super::hmac::{gen_signature, signature, SecretKey, MAX_HMAC_INPUT};
use super::number::{decimal_text, format_integer, int_text, Decimal};
use super::query_string::QuerySerializationError;
use super::text::{lemma_boundary_between, lemma_utf8_injective, lemma_utf8_suffix, utf8};
use vstd::prelude::*;
use vstd::string::*;

verus! {

/// What a [`Url`] stands for: the text before the query, and the query once it
/// has been opened. The query is the text after the `?`.
pub struct UrlView {
    pub base: Seq<char>,
    pub query: Option<Seq<char>>,
}

impl UrlView {
    /// The whole text, as it is sent.
    pub open spec fn text(self) -> Seq<char> {
        match self.query {
            None => self.base,
            Some(q) => self.base + seq!['?'] + q,
        }
    }

    /// The separator that precedes the next parameter: `?` opens the query,
    /// `&` follows every parameter after the first.
    pub open spec fn separated(self) -> UrlView {
        match self.query {
            None => UrlView { base: self.base, query: Some(Seq::<char>::empty()) },
            Some(q) => UrlView { base: self.base, query: Some(q + seq!['&']) },
        }
    }

    /// Text put at the end as it is, without a separator.
    pub open spec fn pushed(self, s: Seq<char>) -> UrlView {
        match self.query {
            None => UrlView { base: self.base + s, query: None },
            Some(q) => UrlView { base: self.base, query: Some(q + s) },
        }
    }

    /// One more parameter: the separator, then the parameter's text.
    pub open spec fn with_param(self, s: Seq<char>) -> UrlView {
        self.separated().pushed(s)
    }

    /// One more parameter, where there is one.
    pub open spec fn with_optional(self, param: Option<Seq<char>>) -> UrlView {
        match param {
            Some(p) => self.with_param(p),
            None => self,
        }
    }

    /// The `recvWindow` parameter, which a window of zero leaves out.
    pub open spec fn with_recv_window(self, recv_window: u16) -> UrlView {
        if recv_window > 0 {
            self.with_param(pair_text("recvWindow"@, int_text(recv_window as int)))
        } else {
            self
        }
    }

    /// The `timestamp` parameter.
    pub open spec fn with_timestamp(self, timestamp: i64) -> UrlView {
        self.with_param(pair_text("timestamp"@, int_text(timestamp as int)))
    }

    /// The `signature` parameter, which always follows an `&`.
    pub open spec fn with_signature(self, signature: Seq<char>) -> UrlView {
        self.pushed("&signature="@ + signature)
    }

    /// The bytes that a signature covers: those of the query.
    pub open spec fn signable(self) -> Seq<u8> {
        utf8(self.query->0)
    }

    /// The query signed under a key: the signature of everything in the query
    /// so far, appended to it.
    pub open spec fn signed(self, key: Seq<u8>) -> UrlView {
        self.with_signature(signature(key, self.signable()))
    }
}

/// Parameters joined by `&`, in their order.
pub open spec fn joined(params: Seq<Seq<char>>) -> Seq<char>
    decreases params.len(),
{
    if params.len() == 0 {
        Seq::<char>::empty()
    } else if params.len() == 1 {
        params[0]
    } else {
        joined(params.drop_last()) + seq!['&'] + params.last()
    }
}

/// The state after appending parameters one after another.
pub open spec fn with_params(start: UrlView, params: Seq<Seq<char>>) -> UrlView
    decreases params.len(),
{
    if params.len() == 0 {
        start
    } else {
        with_params(start, params.drop_last()).with_param(params.last())
    }
}

/// On a buffer without a query, appending one parameter or more leaves the
/// text before the query as it was and makes the query the parameters in call
/// order, joined by `&`: the whole text has `?` before the first parameter and
/// `&` before each later one.
pub proof fn lemma_query_of_params(base: Seq<char>, params: Seq<Seq<char>>)
    requires
        params.len() >= 1,
    ensures
        with_params(UrlView { base, query: None }, params) == (UrlView {
            base,
            query: Some(joined(params)),
        }),
        with_params(UrlView { base, query: None }, params).text() == base + seq!['?'] + joined(
            params,
        ),
    decreases params.len(),
{
    let start = UrlView { base, query: None };
    if params.len() == 1 {
        assert(params.drop_last().len() == 0);
        assert(with_params(start, params.drop_last()) == start);
        assert(Seq::<char>::empty() + params[0] =~= params[0]);
    } else {
        lemma_query_of_params(base, params.drop_last());
    }
}

/// On a buffer with a query, each further parameter is appended after an `&`.
pub proof fn lemma_query_extended(start: UrlView, params: Seq<Seq<char>>)
    requires
        start.query is Some,
        params.len() >= 1,
    ensures
        with_params(start, params) == (UrlView {
            base: start.base,
            query: Some(start.query->0 + seq!['&'] + joined(params)),
        }),
    decreases params.len(),
{
    let q = start.query->0;
    if params.len() == 1 {
        assert(params.drop_last().len() == 0);
        assert(with_params(start, params.drop_last()) == start);
    } else {
        lemma_query_extended(start, params.drop_last());
        let init = joined(params.drop_last());
        assert(q + seq!['&'] + init + seq!['&'] + params.last() =~= q + seq!['&'] + (init
            + seq!['&'] + params.last()));
    }
}

/// Appending never touches what is already in the buffer: the old text is a
/// prefix of the new one.
pub proof fn lemma_param_keeps_prefix(start: UrlView, param: Seq<char>)
    ensures
        start.text().is_prefix_of(start.with_param(param).text()),
        start.with_param(param).base == start.base,
{
    let next = start.with_param(param);
    match start.query {
        None => {
            assert(next.text() =~= start.text() + (seq!['?'] + param));
        },
        Some(q) => {
            assert(next.text() =~= start.text() + (seq!['&'] + param));
        },
    }
}

/// The separator has two states and goes one way: once the query is open it
/// stays open, whatever is appended, and the text before it stays as it was.
pub proof fn lemma_query_stays_open(v: UrlView, s: Seq<char>)
    requires
        v.query is Some,
    ensures
        v.separated().query is Some && v.separated().base == v.base,
        v.pushed(s).query is Some && v.pushed(s).base == v.base,
        v.with_param(s).query is Some && v.with_param(s).base == v.base,
        v.with_signature(s).query is Some && v.with_signature(s).base == v.base,
        v.with_param(s).query == Some(v.query->0 + seq!['&'] + s),
{
}

/// The first parameter opens the query: it follows a `?`, and every state
/// after it has a query.
pub proof fn lemma_first_param_opens_query(v: UrlView, s: Seq<char>)
    requires
        v.query is None,
    ensures
        v.with_param(s).query == Some(s),
        v.with_param(s).text() == v.base + seq!['?'] + s,
{
    assert(Seq::<char>::empty() + s =~= s);
}

/// The largest capacity that a buffer can be asked to reserve.
pub const MAX_CAPACITY: usize = usize::MAX / 2;

/// The text of one `key=value` pair.
pub open spec fn pair_text(key: Seq<char>, val: Seq<char>) -> Seq<char> {
    key + seq!['='] + val
}

/// The pair of a 16-bit number that may be absent.
pub open spec fn optional_u16(key: Seq<char>, val: Option<u16>) -> Option<Seq<char>> {
    match val {
        Some(n) => Some(pair_text(key, int_text(n as int))),
        None => None,
    }
}

/// The pair of a 64-bit number that may be absent.
pub open spec fn optional_u64(key: Seq<char>, val: Option<u64>) -> Option<Seq<char>> {
    match val {
        Some(n) => Some(pair_text(key, int_text(n as int))),
        None => None,
    }
}

/// The pair of a string that may be absent.
pub open spec fn optional_string(key: Seq<char>, val: Option<String>) -> Option<Seq<char>> {
    match val {
        Some(s) => Some(pair_text(key, s@)),
        None => None,
    }
}

/// The pair of a string slice that may be absent.
pub open spec fn optional_str(key: Seq<char>, val: Option<&str>) -> Option<Seq<char>> {
    match val {
        Some(s) => Some(pair_text(key, s@)),
        None => None,
    }
}

/// Host, path and query in one buffer, with the place where the query begins.
pub struct Url {
    url: String,
    query_start_pos: Option<usize>,
    model: Ghost<UrlView>,
}

impl View for Url {
    type V = UrlView;

    closed spec fn view(&self) -> UrlView {
        self.model@
    }
}

fn add_query_separator(this: &mut Url)
    requires
        old(this).wf(),
        old(this)@.query is None,
    ensures
        final(this).wf(),
        final(this)@ == old(this)@.separated(),
{
    this.url.append("?");
    let pos = byte_len(this.url.as_str());
    this.query_start_pos = Some(pos);
    proof {
        reveal_strlit("?");
        assert("?"@ =~= seq!['?']);
        this.model@ = old(this)@.separated();
        assert(this@.text() =~= this.url@);
        assert(this.url@ =~= this@.base + seq!['?']);
    }
}

fn add_param_separator(this: &mut Url)
    requires
        old(this).wf(),
        old(this)@.query is Some,
    ensures
        final(this).wf(),
        final(this)@ == old(this)@.separated(),
{
    this.url.append("&");
    proof {
        reveal_strlit("&");
        assert("&"@ =~= seq!['&']);
        this.model@ = old(this)@.separated();
        assert(this@.text() =~= this.url@);
    }
}

impl Url {
    /// The buffer holds the text of the view, and the recorded offset is the
    /// number of bytes up to and including the `?`.
    pub closed spec fn wf(&self) -> bool {
        &&& self.url@ == self.model@.text()
        &&& match self.query_start_pos {
            None => self.model@.query is None,
            Some(p) => self.model@.query is Some && p == utf8(self.model@.base + seq!['?']).len(),
        }
    }

    /// A buffer that holds host and path and has room for `size` bytes.
    pub fn with_capacity(host: &str, path: &str, size: usize) -> (url: Url)
        requires
            size <= MAX_CAPACITY,
        ensures
            url.wf(),
            url@ == (UrlView { base: host@ + path@, query: None }),
    {
        let mut url = string_with_capacity(size);
        url.append(host);
        url.append(path);
        Url { url, query_start_pos: None, model: Ghost(UrlView { base: host@ + path@, query: None }) }
    }

    fn add_separator(&mut self)
        requires
            old(self).wf(),
        ensures
            final(self).wf(),
            final(self)@ == old(self)@.separated(),
    {
        if self.query_start_pos.is_some() {
            add_param_separator(self);
        } else {
            add_query_separator(self);
        }
    }

    /// Puts text at the end of the buffer as it is.
    fn push(&mut self, s: &str)
        requires
            old(self).wf(),
        ensures
            final(self).wf(),
            final(self)@ == old(self)@.pushed(s@),
    {
        self.url.append(s);
        proof {
            self.model@ = old(self)@.pushed(s@);
            assert(self@.text() =~= self.url@);
        }
    }

    /// Appends ready-made query text as one parameter.
    pub fn add_params(&mut self, params: &str)
        requires
            old(self).wf(),
        ensures
            final(self).wf(),
            final(self)@ == old(self)@.with_param(params@),
    {
        self.add_separator();
        self.push(params);
    }

    /// Appends `key=val`; the value is taken as it is.
    pub fn add_param_str(&mut self, key: &str, val: &str)
        requires
            old(self).wf(),
        ensures
            final(self).wf(),
            final(self)@ == old(self)@.with_param(pair_text(key@, val@)),
    {
        self.add_separator();
        self.push(key);
        self.push("=");
        self.push(val);
        proof {
            reveal_strlit("=");
            assert("="@ =~= seq!['=']);
            let sep = old(self)@.separated();
            assert(sep.pushed(key@).pushed("="@).pushed(val@) == sep.pushed(
                pair_text(key@, val@),
            )) by {
                let q = sep.query->0;
                assert(q + key@ + seq!['='] + val@ =~= q + (key@ + seq!['='] + val@));
            }
        }
    }

    /// Appends an integer parameter in decimal.
    pub fn add_param_integer(&mut self, param: &str, val: i128)
        requires
            old(self).wf(),
        ensures
            final(self).wf(),
            final(self)@ == old(self)@.with_param(pair_text(param@, int_text(val as int))),
    {
        let s = format_integer(val);
        self.add_param_str(param, s.as_str());
    }

    /// Appends a fixed-point parameter in its exact textual form.
    pub fn add_param_decimal(&mut self, param: &str, val: Decimal)
        requires
            old(self).wf(),
        ensures
            final(self).wf(),
            final(self)@ == old(self)@.with_param(
                pair_text(param@, decimal_text(val@.mantissa, val@.scale)),
            ),
    {
        let s = val.to_text();
        self.add_param_str(param, s.as_str());
    }

    /// Appends the parameters of a structured object, already encoded as query
    /// text in the order of its fields. Where the encoding failed, the error is
    /// handed on and the request must not be sent.
    pub fn add_params_from_data(&mut self, data: Result<String, QuerySerializationError>) -> (r:
        Result<(), QuerySerializationError>)
        requires
            old(self).wf(),
        ensures
            final(self).wf(),
            match data {
                Ok(s) => r is Ok && final(self)@ == old(self)@.with_param(s@),
                Err(e) => r == Err::<(), QuerySerializationError>(e) && final(self)@ == old(
                    self,
                )@.separated(),
            },
    {
        self.add_separator();
        match data {
            Ok(s) => {
                self.push(s.as_str());
                Ok(())
            },
            Err(e) => Err(e),
        }
    }

    /// Appends `recvWindow`, unless the window is zero.
    pub fn add_recv_window(&mut self, recv_window: u16)
        requires
            old(self).wf(),
        ensures
            final(self).wf(),
            final(self)@ == old(self)@.with_recv_window(recv_window),
    {
        if recv_window > 0 {
            self.add_param_integer("recvWindow", recv_window as i128);
        }
    }

    /// Appends `timestamp` with the given time, in milliseconds since the epoch.
    pub fn add_timestamp_at(&mut self, timestamp: i64)
        requires
            old(self).wf(),
        ensures
            final(self).wf(),
            final(self)@ == old(self)@.with_timestamp(timestamp),
    {
        self.add_param_integer("timestamp", timestamp as i128);
    }

    /// Appends `timestamp` with the current time.
    pub fn add_timestamp(&mut self)
        requires
            old(self).wf(),
        ensures
            final(self).wf(),
            exists|timestamp: i64| final(self)@ == old(self)@.with_timestamp(timestamp),
    {
        let now = now_millis();
        self.add_timestamp_at(now);
    }

    /// Appends a ready-made signature as the last parameter.
    pub fn add_signature(&mut self, signature: &str)
        requires
            old(self).wf(),
        ensures
            final(self).wf(),
            final(self)@ == old(self)@.with_signature(signature@),
    {
        self.push("&signature=");
        self.push(signature);
        proof {
            let v = old(self)@;
            assert(v.pushed("&signature="@).pushed(signature@) == v.pushed(
                "&signature="@ + signature@,
            )) by {
                match v.query {
                    None => {
                        assert(v.base + "&signature="@ + signature@ =~= v.base + ("&signature="@
                            + signature@));
                    },
                    Some(q) => {
                        assert(q + "&signature="@ + signature@ =~= q + ("&signature="@
                            + signature@));
                    },
                }
            }
        }
    }

    /// Signs the query as it stands and appends the signature to it.
    pub fn gen_and_add_signature(&mut self, secret_key: &SecretKey)
        requires
            old(self).wf(),
            old(self)@.query is Some,
            utf8(old(self)@.query->0).len() <= MAX_HMAC_INPUT,
        ensures
            final(self).wf(),
            final(self)@ == old(self)@.signed(secret_key@),
    {
        let sig = gen_signature(self.query().as_bytes(), secret_key);
        self.add_signature(sig.as_str());
    }

    /// The query of a buffer that has one.
    fn query(&self) -> (query: &str)
        requires
            self.wf(),
            self@.query is Some,
        ensures
            query@ == self@.query->0,
    {
        let pos = self.query_start_pos.unwrap();
        let ghost head = self@.base + seq!['?'];
        let ghost tail = self@.query->0;
        proof {
            assert(self.url@ =~= head + tail);
            lemma_boundary_between(head, tail);
            lemma_utf8_suffix(head, tail);
        }
        let (_, query) = self.url.as_str().split_at(pos);
        proof {
            lemma_utf8_injective(query@, tail);
        }
        query
    }

    /// The query: the text after the `?`, which is what a signature covers.
    pub fn get_query(&self) -> (query: Option<&str>)
        requires
            self.wf(),
        ensures
            self@.query == match query {
                Some(q) => Some(q@),
                None => None,
            },
    {
        if self.query_start_pos.is_some() {
            Some(self.query())
        } else {
            None
        }
    }

    pub fn capacity(&self) -> (n: usize)
        requires
            self.wf(),
        ensures
            n >= utf8(self@.text()).len(),
    {
        string_capacity(&self.url)
    }

    pub fn len(&self) -> (n: usize)
        requires
            self.wf(),
        ensures
            n == utf8(self@.text()).len(),
    {
        byte_len(self.url.as_str())
    }

    pub fn as_str(&self) -> (s: &str)
        requires
            self.wf(),
        ensures
            s@ == self@.text(),
    {
        self.url.as_str()
    }

    pub fn into_string(self) -> (s: String)
        requires
            self.wf(),
        ensures
            s@ == self@.text(),
    {
        self.url
    }
}

/// The number of bytes that a string slice occupies.
fn byte_len(s: &str) -> (n: usize)
    ensures
        n == utf8(s@).len(),
{
    s.as_bytes().len()
}

/// `String::with_capacity`: an empty string with room for `size` bytes. It
/// panics on a size over `isize::MAX`, which the bound leaves out.
#[verifier::external_body]
fn string_with_capacity(size: usize) -> (s: String)
    requires
        size <= MAX_CAPACITY,
    ensures
        s@ == Seq::<char>::empty(),
{
    String::with_capacity(size)
}

/// `String::capacity`: the bytes that the buffer can hold without growing,
/// which is never less than the bytes it holds.
#[verifier::external_body]
fn string_capacity(s: &String) -> (n: usize)
    ensures
        n >= utf8(s@).len(),
{
    s.capacity()
}

} // verus!
