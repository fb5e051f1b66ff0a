//! What the web server answers, apart from the radar API itself.

use vstd::prelude::*;

use crate::text::{owned, push_decimal};
use crate::text;

pub mod recordings;

verus! {

/// Where the Signal K API of one version is found.
#[derive(Debug)]
pub struct Endpoint {
    pub version: String,
    pub http: String,
    pub ws: String,
}

/// Whether a byte of a header is visible ASCII, a space or a tab.
pub open spec fn visible(b: u8) -> bool {
    32 <= b < 127 || b == 9
}

/// The text of a header, if all of it is visible.
pub open spec fn header_text(value: Seq<u8>) -> Option<Seq<char>> {
    if forall|i: int| 0 <= i < value.len() ==> visible(#[trigger] value[i]) {
        Some(Seq::new(value.len(), |i: int| value[i] as char))
    } else {
        None
    }
}

/// The text of a `Host` header. One that is missing or not visible counts as the local
/// host.
pub open spec fn header_host(value: Option<Seq<u8>>) -> Seq<char> {
    match value {
        Some(value) => match header_text(value) {
            Some(text) => text,
            None => "localhost"@,
        },
        None => "localhost"@,
    }
}

/// The host part of a URI: what `http::Uri` finds in a text. There is none in a text
/// that is no URI, or in a URI without an authority.
pub uninterp spec fn host_in_uri(text: Seq<char>) -> Option<Seq<char>>;

/// Parses a text as `http::Uri` and takes its host part (`http::Uri::from_str`, then
/// `http::Uri::host`). The result depends on the text alone; which texts are URIs is not
/// stated.
#[verifier::external_body]
fn uri_host(text: &str) -> (r: Option<String>)
    ensures
        text::optional(r) == host_in_uri(text@),
{
    match text.parse::<http::Uri>() {
        Ok(uri) => uri.host().map(String::from),
        Err(_) => None,
    }
}

/// The bytes of a slice, if there is one.
pub open spec fn bytes_view(value: Option<&[u8]>) -> Option<Seq<u8>> {
    match value {
        Some(value) => Some(value@),
        None => None,
    }
}

/// The text of a `Host` header.
pub fn host_text(value: Option<&[u8]>) -> (r: String)
    ensures
        r@ == header_host(bytes_view(value)),
{
    match value {
        Some(bytes) => {
            let mut out = String::new();
            let mut i: usize = 0;
            while i < bytes.len()
                invariant
                    i <= bytes@.len(),
                    value == Some(bytes),
                    forall|k: int| 0 <= k < i ==> visible(#[trigger] bytes@[k]),
                    out@ == Seq::new(i as nat, |k: int| bytes@[k] as char),
                decreases bytes@.len() - i,
            {
                let b: u8 = bytes[i];
                if !((32 <= b && b < 127) || b == 9) {
                    assert(!visible(bytes@[i as int]));
                    return owned("localhost");
                }
                out.push(b as char);
                i += 1;
                assert(out@ =~= Seq::new(i as nat, |k: int| bytes@[k] as char));
            }
            out
        },
        None => owned("localhost"),
    }
}

/// The host and port that are announced to a client, from the host that its URI names.
pub open spec fn announced(host: Option<Seq<char>>, port: u16) -> Seq<char> {
    (match host {
        Some(host) => host,
        None => "localhost"@,
    }) + ":"@ + text::decimal(port as nat)
}

/// The host and port that are announced to a client, from the host that its URI names.
pub fn announce(host: Option<String>, port: u16) -> (r: String)
    ensures
        r@ == announced(text::optional(host), port),
{
    let mut out = match host {
        Some(host) => host,
        None => owned("localhost"),
    };
    out.append(":");
    push_decimal(&mut out, port as u64);
    out
}

/// A URL: the scheme, the host with the port, and the path.
pub open spec fn url(scheme: Seq<char>, host: Seq<char>, path: Seq<char>) -> Seq<char> {
    scheme + "://"@ + host + path
}

fn build_url(scheme: &str, host: &str, path: &str) -> (r: String)
    ensures
        r@ == url(scheme@, host@, path@),
{
    let mut out = owned(scheme);
    out.append("://");
    out.append(host);
    out.append(path);
    out
}

/// The endpoint on a host: over TLS where the server has it.
pub fn endpoint_at(host: &str, tls: bool, base_uri: &str, control_uri: &str) -> (r: Endpoint)
    ensures
        r.version@ == "v2"@,
        r.http@ == url(if tls { "https"@ } else { "http"@ }, host@, base_uri@),
        r.ws@ == url(if tls { "wss"@ } else { "ws"@ }, host@, control_uri@),
{
    let (http_scheme, ws_scheme) = if tls {
        ("https", "wss")
    } else {
        ("http", "ws")
    };
    Endpoint {
        version: owned("v2"),
        http: build_url(http_scheme, host, base_uri),
        ws: build_url(ws_scheme, host, control_uri),
    }
}

/// The endpoint that a client is told, on the host that its `Host` header names.
pub fn endpoints(
    header: Option<&[u8]>,
    port: u16,
    tls: bool,
    base_uri: &str,
    control_uri: &str,
) -> (r: Endpoint)
    ensures
        ({
            let host = announced(host_in_uri(header_host(bytes_view(header))), port);
            &&& r.version@ == "v2"@
            &&& r.http@ == url(if tls { "https"@ } else { "http"@ }, host, base_uri@)
            &&& r.ws@ == url(if tls { "wss"@ } else { "ws"@ }, host, control_uri@)
        }),
{
    let name = host_text(header);
    let host = announce(uri_host(name.as_str()), port);
    endpoint_at(host.as_str(), tls, base_uri, control_uri)
}

/// Texts in a row, each behind the separator.
pub open spec fn joined(parts: Seq<String>, separator: Seq<char>) -> Seq<char>
    decreases parts.len(),
{
    if parts.len() == 0 {
        seq![]
    } else if parts.len() == 1 {
        parts[0]@
    } else {
        joined(parts.drop_last(), separator) + separator + parts.last()@
    }
}

/// What a client is told when no route matches: the path, and the API endpoints that
/// there are.
pub fn api_fallback(path: &str, endpoints: &[String]) -> (r: String)
    ensures
        r@ == "No route matches '"@ + path@ + "'. Valid API endpoints:\n  "@ + joined(
            endpoints@,
            "\n  "@,
        ) + "\n"@,
{
    let mut out = owned("No route matches '");
    out.append(path);
    out.append("'. Valid API endpoints:\n  ");
    let ghost head = out@;
    let mut i: usize = 0;
    assert(out@ =~= head + joined(endpoints@.take(0), "\n  "@));
    while i < endpoints.len()
        invariant
            i <= endpoints@.len(),
            out@ == head + joined(endpoints@.take(i as int), "\n  "@),
        decreases endpoints@.len() - i,
    {
        assert(endpoints@.take(i + 1).drop_last() =~= endpoints@.take(i as int));
        if i > 0 {
            out.append("\n  ");
        }
        out.append(endpoints[i].as_str());
        i += 1;
        assert(out@ =~= head + joined(endpoints@.take(i as int), "\n  "@));
    }
    assert(endpoints@.take(i as int) =~= endpoints@);
    out.append("\n");
    out
}

/// A header of visible characters is taken as it stands; one that is missing, or has any
/// other character, counts as the local host.
pub proof fn law_host_header_reads_back(name: Seq<char>, value: Seq<u8>)
    requires
        value.len() == name.len(),
        forall|i: int|
            0 <= i < name.len() ==> ' ' <= (#[trigger] name[i]) <= '~' && value[i] as int
                == name[i] as int,
    ensures
        header_host(Some(value)) == name,
        header_host(None) == "localhost"@,
        header_host(Some(value.push(0))) == "localhost"@,
        header_host(Some(value.push(127))) == "localhost"@,
        header_host(Some(value.push(128))) == "localhost"@,
{
    assert(' ' as int == 32 && '~' as int == 126);
    assert forall|i: int| 0 <= i < value.len() implies visible(#[trigger] value[i]) by {
        assert(value[i] as int == name[i] as int);
    }
    let text = Seq::new(value.len(), |i: int| value[i] as char);
    assert forall|i: int| 0 <= i < text.len() implies text[i] == name[i] by {
        assert(value[i] as int == name[i] as int);
    }
    assert(text =~= name);
    let n = value.len() as int;
    assert(!visible(value.push(0)[n]));
    assert(!visible(value.push(127)[n]));
    assert(!visible(value.push(128)[n]));
}

/// What is announced is the host, a colon and the port, which can be read back.
pub proof fn law_announced_reads_back(host: Seq<char>, port: u16)
    ensures
        ({
            let s = announced(Some(host), port);
            let n = host.len() as int;
            &&& s.take(n) == host
            &&& s[n] == ':'
            &&& text::value_of_digits(s.skip(n + 1)) == port
        }),
        announced(None, port) == announced(Some("localhost"@), port),
{
    reveal_strlit(":");
    let s = announced(Some(host), port);
    let n = host.len() as int;
    text::law_decimal_reads_back(port as nat, 0);
    assert(s.take(n) =~= host);
    assert(s.skip(n + 1) =~= text::decimal(port as nat));
}

/// A URL is its parts, which can be read back.
pub proof fn law_url_reads_back(scheme: Seq<char>, host: Seq<char>, path: Seq<char>)
    ensures
        ({
            let s = url(scheme, host, path);
            let a = scheme.len() as int;
            let b = a + 3 + host.len();
            &&& s.take(a) == scheme
            &&& s[a] == ':' && s[a + 1] == '/' && s[a + 2] == '/'
            &&& s.subrange(a + 3, b) == host
            &&& s.skip(b) == path
        }),
{
    reveal_strlit("://");
    let s = url(scheme, host, path);
    let a = scheme.len() as int;
    let b = a + 3 + host.len();
    assert(s.take(a) =~= scheme);
    assert(s.subrange(a + 3, b) =~= host);
    assert(s.skip(b) =~= path);
}

/// Every part is found in the texts in a row, and nothing but the parts and what separates
/// them makes up its length.
pub proof fn law_joined_holds_every_part(parts: Seq<String>, separator: Seq<char>, i: int)
    requires
        0 <= i < parts.len(),
    ensures
        text::contains_text(joined(parts, separator), parts[i]@),
        parts.len() == 1 ==> joined(parts, separator) == parts[0]@,
        parts.len() > 1 ==> joined(parts, separator).len() == joined(
            parts.drop_last(),
            separator,
        ).len() + separator.len() + parts.last()@.len(),
    decreases parts.len(),
{
    let whole = joined(parts, separator);
    let part = parts[i]@;
    if parts.len() == 1 {
        assert(whole.subrange(0, part.len() as int) =~= part);
        assert(text::occurs_at(whole, part, 0));
    } else if i == parts.len() - 1 {
        let at = whole.len() - part.len();
        assert(whole.subrange(at, at + part.len()) =~= part);
        assert(text::occurs_at(whole, part, at));
    } else {
        let front = parts.drop_last();
        law_joined_holds_every_part(front, separator, i);
        let before = joined(front, separator);
        let at = choose|at: int| text::occurs_at(before, part, at);
        assert(whole.subrange(at, at + part.len()) =~= before.subrange(at, at + part.len()));
        assert(text::occurs_at(whole, part, at));
    }
}

/// Control characters are not visible, but for the tab.
pub proof fn law_visible_characters()
    ensures
        visible(9) && !visible(8) && !visible(10) && !visible(13),
        visible(32) && !visible(31) && visible(126) && !visible(127) && !visible(128),
{
}

} // verus!
