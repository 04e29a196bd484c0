use vstd::prelude::*;
use vstd::string::StringExecFns;
use vstd::utf8::encode_utf8;
use eventsource_client::ClientBuilder;
use crate::error::{ConfigField, OpenPondError, Result};
use crate::types::OpenPondConfig;

verus! {

/// Declares `eventsource_client::ClientBuilder`, the push stream's settings.
#[verifier::external_type_specification]
#[verifier::external_body]
pub struct ExClientBuilder(eventsource_client::ClientBuilder);

/// The character of a decimal digit.
pub open spec fn digit_char(d: nat) -> char {
    if d == 0 { '0' }
    else if d == 1 { '1' }
    else if d == 2 { '2' }
    else if d == 3 { '3' }
    else if d == 4 { '4' }
    else if d == 5 { '5' }
    else if d == 6 { '6' }
    else if d == 7 { '7' }
    else if d == 8 { '8' }
    else { '9' }
}

/// Decimal digits of `n`, most significant first, without leading zeros.
pub open spec fn digits(n: nat) -> Seq<char>
    decreases n,
{
    if n < 10 {
        seq![digit_char(n)]
    } else {
        digits(n / 10) + seq![digit_char(n % 10)]
    }
}

/// Decimal text of an integer, with a leading minus sign when negative.
pub open spec fn decimal(n: int) -> Seq<char> {
    if n < 0 {
        seq!['-'] + digits((-n) as nat)
    } else {
        digits(n as nat)
    }
}

fn digit_text(d: u64) -> (r: &'static str)
    requires
        d < 10,
    ensures
        r@ == seq![digit_char(d as nat)],
{
    proof {
        reveal_strlit("0");
        reveal_strlit("1");
        reveal_strlit("2");
        reveal_strlit("3");
        reveal_strlit("4");
        reveal_strlit("5");
        reveal_strlit("6");
        reveal_strlit("7");
        reveal_strlit("8");
        reveal_strlit("9");
    }
    if d == 0 { "0" }
    else if d == 1 { "1" }
    else if d == 2 { "2" }
    else if d == 3 { "3" }
    else if d == 4 { "4" }
    else if d == 5 { "5" }
    else if d == 6 { "6" }
    else if d == 7 { "7" }
    else if d == 8 { "8" }
    else { "9" }
}

fn push_digits(n: u64, out: &mut String)
    ensures
        final(out)@ == old(out)@ + digits(n as nat),
    decreases n,
{
    if n >= 10 {
        push_digits(n / 10, out);
    }
    out.append(digit_text(n % 10));
    assert(out@ =~= old(out)@ + digits(n as nat));
}

/// Decimal text of `n`, as a timestamp is written in a query or a header.
pub fn decimal_text(n: i64) -> (r: String)
    ensures
        r@ == decimal(n as int),
{
    let mut out = String::new();
    if n < 0 {
        proof {
            reveal_strlit("-");
        }
        out.append("-");
        let magnitude: u64 = (-(n as i128)) as u64;
        push_digits(magnitude, &mut out);
    } else {
        push_digits(n as u64, &mut out);
    }
    proof {
        assert(out@ =~= decimal(n as int));
    }
    out
}

/// `base` followed by `path`.
pub fn join(base: &str, path: &str) -> (r: String)
    ensures
        r@ == base@ + path@,
{
    let mut out = base.to_owned();
    out.append(path);
    out
}

/// The registration endpoint.
pub fn register_url(config: &OpenPondConfig) -> (r: String)
    ensures
        r@ == config.api_url@ + "/agents/register"@,
{
    join(config.api_url.as_str(), "/agents/register")
}

/// The endpoint that accepts outgoing messages.
pub fn messages_url(config: &OpenPondConfig) -> (r: String)
    ensures
        r@ == config.api_url@ + "/messages"@,
{
    join(config.api_url.as_str(), "/messages")
}

/// The directory listing endpoint.
pub fn agents_url(config: &OpenPondConfig) -> (r: String)
    ensures
        r@ == config.api_url@ + "/agents"@,
{
    join(config.api_url.as_str(), "/agents")
}

/// The endpoint of one agent's directory entry.
pub fn agent_url(config: &OpenPondConfig, agent_id: &str) -> (r: String)
    ensures
        r@ == config.api_url@ + "/agents/"@ + agent_id@,
{
    let mut out = join(config.api_url.as_str(), "/agents/");
    out.append(agent_id);
    out
}

/// The push stream's endpoint.
pub fn stream_url(config: &OpenPondConfig) -> (r: String)
    ensures
        r@ == config.api_url@ + "/messages/stream"@,
{
    join(config.api_url.as_str(), "/messages/stream")
}

/// The polling endpoint for messages newer than `cursor`.
pub fn messages_since_url(config: &OpenPondConfig, cursor: i64) -> (r: String)
    ensures
        r@ == config.api_url@ + "/messages?since="@ + decimal(cursor as int),
{
    let mut out = join(config.api_url.as_str(), "/messages?since=");
    let number = decimal_text(cursor);
    out.append(number.as_str());
    out
}

/// Headers as pairs of texts.
pub open spec fn header_view(h: Seq<(String, String)>) -> Seq<(Seq<char>, Seq<char>)> {
    h.map_values(|p: (String, String)| (p.0@, p.1@))
}

/// The text of an optional string.
pub open spec fn opt_view(o: Option<String>) -> Option<Seq<char>> {
    match o {
        Some(s) => Some(s@),
        None => None,
    }
}

/// The pair for the API key, when one is configured.
pub open spec fn api_key_header(api_key: Option<Seq<char>>) -> Seq<(Seq<char>, Seq<char>)> {
    match api_key {
        Some(k) => seq![("X-API-Key"@, k)],
        None => seq![],
    }
}

/// Headers of every plain request.
pub open spec fn request_headers(api_key: Option<Seq<char>>) -> Seq<(Seq<char>, Seq<char>)> {
    seq![("Content-Type"@, "application/json"@)] + api_key_header(api_key)
}

/// Headers of the push stream's connection, made at `timestamp_ms`.
pub open spec fn stream_header_spec(
    private_key: Option<Seq<char>>,
    api_key: Option<Seq<char>>,
    timestamp_ms: int,
) -> Seq<(Seq<char>, Seq<char>)> {
    seq![("Content-Type"@, "application/json"@), ("Accept"@, "text/event-stream"@)] + match private_key {
        Some(id) => seq![("X-Agent-Id"@, id), ("X-Timestamp"@, decimal(timestamp_ms))],
        None => seq![],
    } + api_key_header(api_key)
}

fn pair(name: &str, value: &str) -> (r: (String, String))
    ensures
        r.0@ == name@,
        r.1@ == value@,
{
    (name.to_owned(), value.to_owned())
}

/// The headers that go with every plain request: the content type, and the
/// API key when one is configured.
pub fn default_headers(config: &OpenPondConfig) -> (r: Vec<(String, String)>)
    ensures
        header_view(r@) == request_headers(opt_view(config.api_key)),
{
    let mut out: Vec<(String, String)> = Vec::new();
    out.push(pair("Content-Type", "application/json"));
    match &config.api_key {
        Some(k) => out.push(pair("X-API-Key", k.as_str())),
        None => {},
    }
    proof {
        assert(header_view(out@) =~= request_headers(opt_view(config.api_key)));
    }
    out
}

/// The headers of the push stream's connection made at `timestamp_ms`: the
/// content type and the accepted type, the agent id and the time when the session owns an
/// identity, and the API key when one is configured.
pub fn stream_headers(config: &OpenPondConfig, timestamp_ms: i64) -> (r: Vec<(String, String)>)
    ensures
        header_view(r@) == stream_header_spec(
            opt_view(config.private_key),
            opt_view(config.api_key),
            timestamp_ms as int,
        ),
{
    let mut out: Vec<(String, String)> = Vec::new();
    out.push(pair("Content-Type", "application/json"));
    out.push(pair("Accept", "text/event-stream"));
    match &config.private_key {
        Some(id) => {
            out.push(pair("X-Agent-Id", id.as_str()));
            let stamp = decimal_text(timestamp_ms);
            out.push(pair("X-Timestamp", stamp.as_str()));
        },
        None => {},
    }
    match &config.api_key {
        Some(k) => out.push(pair("X-API-Key", k.as_str())),
        None => {},
    }
    proof {
        assert(header_view(out@) =~= stream_header_spec(
            opt_view(config.private_key),
            opt_view(config.api_key),
            timestamp_ms as int,
        ));
    }
    out
}

/// Whether `ClientBuilder::for_url` accepts this text as a URI.
pub uninterp spec fn uri_parses(url: Seq<char>) -> bool;

/// Whether a byte may stand in a header name: a digit, a letter, or one of
/// ``!"#$%&'*+-.^_`|~``.
pub open spec fn valid_name_byte(b: u8) -> bool {
    (33u8 <= b && b <= 39u8) || b == 42u8 || b == 43u8 || b == 45u8 || b == 46u8
        || (48u8 <= b && b <= 57u8) || (65u8 <= b && b <= 90u8) || (94u8 <= b && b <= 122u8)
        || b == 124u8 || b == 126u8
}

/// Whether these bytes form a valid header name: between 1 and 65535 of
/// them, each a valid name byte.
pub open spec fn valid_header_name(bytes: Seq<u8>) -> bool {
    &&& 1 <= bytes.len() <= 65535
    &&& forall|i: int| 0 <= i < bytes.len() ==> valid_name_byte(#[trigger] bytes[i])
}

/// Whether `ClientBuilder::header` accepts this name and value.
pub open spec fn header_parses(name: Seq<char>, value: Seq<char>) -> bool {
    valid_header_name(encode_utf8(name)) && valid_header_value(encode_utf8(value))
}

/// The headers a stream builder holds, by lowercased name.
pub uninterp spec fn builder_headers(b: ClientBuilder) -> Map<Seq<char>, Seq<char>>;

/// A header name as a header map keys it: ASCII capitals made small.
pub open spec fn ascii_lower(s: Seq<char>) -> Seq<char> {
    s.map_values(|c: char| if 'A' <= c && c <= 'Z' { ((c as u32) + 32) as char } else { c })
}

/// The headers that a fresh stream builder holds.
pub open spec fn initial_stream_headers() -> Map<Seq<char>, Seq<char>> {
    Map::empty().insert("accept"@, "text/event-stream"@).insert("cache-control"@, "no-cache"@)
}

/// `m` with each pair of `h` set in turn, a later pair replacing an earlier
/// one of the same name.
pub open spec fn headers_applied(m: Map<Seq<char>, Seq<char>>, h: Seq<(Seq<char>, Seq<char>)>) -> Map<Seq<char>, Seq<char>>
    decreases h.len(),
{
    if h.len() == 0 {
        m
    } else {
        headers_applied(m, h.drop_last()).insert(ascii_lower(h.last().0), h.last().1)
    }
}

/// How many header values a stream builder holds.
pub uninterp spec fn header_count(b: ClientBuilder) -> nat;

/// The most headers a stream builder is given here; far below what its
/// header map can hold.
pub const MAX_BUILDER_HEADERS: usize = 64;

/// Relies on eventsource_client::ClientBuilder::for_url, which fails exactly
/// when the text does not parse as a URI, and otherwise starts with the two
/// headers `Accept: text/event-stream` and `Cache-Control: no-cache`.
#[verifier::external_body]
fn builder_for_url(url: &str) -> (r: core::result::Result<ClientBuilder, eventsource_client::Error>)
    ensures
        r is Ok <==> uri_parses(url@),
        r is Ok ==> header_count(r->Ok_0) == 2,
        r is Ok ==> builder_headers(r->Ok_0) == initial_stream_headers(),
{
    ClientBuilder::for_url(url)
}

/// Relies on eventsource_client::ClientBuilder::header, which fails exactly
/// when the name is no valid header name (`HeaderName::from_str`) or the value
/// no valid header value (`HeaderValue::from_str`),
/// and otherwise inserts the pair under the name made lowercase, replacing
/// the values of that name. The
/// insert panics only once the map is far larger than `requires` admits.
#[verifier::external_body]
fn builder_header(b: ClientBuilder, name: &str, value: &str) -> (r: core::result::Result<
    ClientBuilder,
    eventsource_client::Error,
>)
    requires
        header_count(b) < MAX_BUILDER_HEADERS + 2,
    ensures
        r is Ok <==> header_parses(name@, value@),
        r is Ok ==> header_count(r->Ok_0) <= header_count(b) + 1,
        r is Ok ==> builder_headers(r->Ok_0) == builder_headers(b).insert(ascii_lower(name@), value@),
{
    b.header(name, value)
}

/// Whether `reqwest::Url::parse` accepts this text.
pub uninterp spec fn url_parses(url: Seq<char>) -> bool;

/// Relies on reqwest::Url::parse (the url crate's `Url::parse`): whether the
/// text parses as an absolute URL.
#[verifier::external_body]
fn parses_as_url(url: &str) -> (r: bool)
    ensures
        r == url_parses(url@),
{
    reqwest::Url::parse(url).is_ok()
}

/// Whether these bytes form a valid HTTP header value: each is a tab, or
/// visible (at least 32) and not DEL.
pub open spec fn valid_header_value(bytes: Seq<u8>) -> bool {
    forall|i: int| 0 <= i < bytes.len() ==> (#[trigger] bytes[i] == 9u8 || (bytes[i] >= 32u8 && bytes[i] != 127u8))
}

/// Whether `s` can stand as an HTTP header value.
pub fn is_valid_header_value(s: &str) -> (r: bool)
    ensures
        r == valid_header_value(encode_utf8(s@)),
{
    let bytes = s.as_bytes();
    let mut i: usize = 0;
    while i < bytes.len()
        invariant
            bytes@ == encode_utf8(s@),
            i <= bytes@.len(),
            forall|j: int| 0 <= j < i ==> (#[trigger] bytes@[j] == 9u8 || (bytes@[j] >= 32u8 && bytes@[j] != 127u8)),
        decreases bytes@.len() - i,
    {
        let c = bytes[i];
        if !(c == 9 || (c >= 32 && c != 127)) {
            return false;
        }
        i = i + 1;
    }
    true
}

/// Whether an optional text is absent or a valid header value.
pub open spec fn optional_header_ok(o: Option<String>) -> bool {
    match o {
        Some(v) => valid_header_value(encode_utf8(v@)),
        None => true,
    }
}

/// What checking a configuration gives: the first field, in the order base
/// URL, API key, private key, that cannot be used.
pub open spec fn config_outcome(config: OpenPondConfig) -> Result<()> {
    if !url_parses(config.api_url@) {
        Err(OpenPondError::ConfigurationError(ConfigField::ApiUrl))
    } else if !optional_header_ok(config.api_key) {
        Err(OpenPondError::ConfigurationError(ConfigField::ApiKey))
    } else if !optional_header_ok(config.private_key) {
        Err(OpenPondError::ConfigurationError(ConfigField::PrivateKey))
    } else {
        Ok(())
    }
}

fn optional_header_valid(o: &Option<String>) -> (r: bool)
    ensures
        r == optional_header_ok(*o),
{
    match o {
        Some(v) => is_valid_header_value(v.as_str()),
        None => true,
    }
}

/// Checks that a session can be built from `config`: the base URL parses, and
/// the API key and private key, which travel in headers, are valid header
/// values.
pub fn check_config(config: &OpenPondConfig) -> (r: Result<()>)
    ensures
        r == config_outcome(*config),
{
    if !parses_as_url(config.api_url.as_str()) {
        Err(OpenPondError::ConfigurationError(ConfigField::ApiUrl))
    } else if !optional_header_valid(&config.api_key) {
        Err(OpenPondError::ConfigurationError(ConfigField::ApiKey))
    } else if !optional_header_valid(&config.private_key) {
        Err(OpenPondError::ConfigurationError(ConfigField::PrivateKey))
    } else {
        Ok(())
    }
}

/// The id the service gave a sent message, or the empty text where its answer
/// named none.
pub fn message_id_or_empty(id: Option<&str>) -> (r: String)
    ensures
        r@ == match id {
            Some(s) => s@,
            None => Seq::<char>::empty(),
        },
{
    match id {
        Some(s) => s.to_owned(),
        None => String::new(),
    }
}

/// Whether every header of `h` is accepted.
pub open spec fn headers_parse(h: Seq<(Seq<char>, Seq<char>)>) -> bool {
    forall|i: int| 0 <= i < h.len() ==> header_parses(#[trigger] h[i].0, h[i].1)
}

/// Whether the stream's settings for `config` at `timestamp_ms` are accepted.
pub open spec fn stream_accepted(config: OpenPondConfig, timestamp_ms: int) -> bool {
    &&& uri_parses(config.api_url@ + "/messages/stream"@)
    &&& headers_parse(
        stream_header_spec(opt_view(config.private_key), opt_view(config.api_key), timestamp_ms),
    )
}

/// Stream settings for `url` with `headers` set in order. Any refusal gives
/// `SSEError`.
pub fn stream_builder(url: &str, headers: &Vec<(String, String)>) -> (r: Result<ClientBuilder>)
    requires
        headers@.len() <= MAX_BUILDER_HEADERS,
    ensures
        r is Ok <==> uri_parses(url@) && headers_parse(header_view(headers@)),
        r is Ok ==> builder_headers(r->Ok_0) == headers_applied(initial_stream_headers(), header_view(headers@)),
        r is Err ==> r->Err_0 is SSEError,
{
    let mut builder = match builder_for_url(url) {
        Ok(b) => b,
        Err(e) => return Err(OpenPondError::from(e)),
    };
    let mut i: usize = 0;
    while i < headers.len()
        invariant
            i <= headers@.len(),
            uri_parses(url@),
            header_count(builder) <= 2 + i,
            builder_headers(builder) == headers_applied(initial_stream_headers(), header_view(headers@).take(i as int)),
            headers@.len() <= MAX_BUILDER_HEADERS,
            forall|j: int| 0 <= j < i ==> header_parses(#[trigger] header_view(headers@)[j].0, header_view(headers@)[j].1),
        decreases headers@.len() - i,
    {
        let name = headers[i].0.as_str();
        let value = headers[i].1.as_str();
        builder = match builder_header(builder, name, value) {
            Ok(b) => b,
            Err(e) => {
                assert(!header_parses(header_view(headers@)[i as int].0, header_view(headers@)[i as int].1));
                return Err(OpenPondError::from(e));
            },
        };
        proof {
            assert(header_view(headers@).take(i as int + 1).drop_last() =~= header_view(headers@).take(i as int));
        }
        i = i + 1;
    }
    assert(header_view(headers@).take(i as int) =~= header_view(headers@));
    Ok(builder)
}

/// Stream settings for the session of `config`, stamped at `timestamp_ms`.
pub fn open_stream_at(config: &OpenPondConfig, timestamp_ms: i64) -> (r: Result<ClientBuilder>)
    ensures
        r is Ok <==> stream_accepted(*config, timestamp_ms as int),
        r is Ok ==> builder_headers(r->Ok_0) == headers_applied(
            initial_stream_headers(),
            stream_header_spec(opt_view(config.private_key), opt_view(config.api_key), timestamp_ms as int),
        ),
        r is Err ==> r->Err_0 is SSEError,
{
    let url = stream_url(config);
    let headers = stream_headers(config, timestamp_ms);
    assert(header_view(headers@).len() == headers@.len());
    stream_builder(url.as_str(), &headers)
}

} // verus!
