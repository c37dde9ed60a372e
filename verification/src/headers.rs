//! The headers that every API request carries.
use reqwest::header::{HeaderMap, HeaderValue};
use vstd::prelude::*;

verus! {

/// The `User-Agent` sent with every request.
pub const DEFAULT_USER_AGENT: &'static str = "WARP for Android";

/// The `CF-Client-Version` sent with every request.
pub const CF_CLIENT_VERSION: &'static str = "a-6.35-4471";

/// `reqwest::header::HeaderMap`, a multimap from header names to values.
#[verifier::external_type_specification]
#[verifier::external_body]
#[verifier::reject_recursive_types(T)]
pub struct ExHeaderMap<T>(reqwest::header::HeaderMap<T>);

/// `reqwest::header::HeaderValue`, one header value.
#[verifier::external_type_specification]
#[verifier::external_body]
pub struct ExHeaderValue(reqwest::header::HeaderValue);

/// What a header map holds: each header name, in lower case, with the value
/// stored under it (the first one, where there are several).
pub uninterp spec fn header_entries(headers: HeaderMap<HeaderValue>) -> Map<Seq<char>, Seq<char>>;

/// The lower-case form of an ASCII letter; any other character as it is.
pub open spec fn lower(c: char) -> char {
    if 'A' <= c <= 'Z' {
        (c as u8 + 32) as char
    } else {
        c
    }
}

/// The name under which a header map stores a header.
pub open spec fn stored_name(name: Seq<char>) -> Seq<char> {
    name.map_values(|c: char| lower(c))
}

/// Names that every header map takes.
pub open spec fn is_header_name(name: Seq<char>) -> bool {
    &&& 0 < name.len() <= 64
    &&& forall|i: int| 0 <= i < name.len() ==> {
        'a' <= #[trigger] name[i] <= 'z' || 'A' <= name[i] <= 'Z' || name[i] == '-'
    }
}

/// Values that every header map takes.
pub open spec fn is_header_value(value: Seq<char>) -> bool {
    forall|i: int| 0 <= i < value.len() ==> ' ' <= #[trigger] value[i] <= '~'
}

/// `HeaderMap::new`: an empty map.
#[verifier::external_body]
fn header_map_new() -> (headers: HeaderMap<HeaderValue>)
    ensures
        header_entries(headers) == (Map::<Seq<char>, Seq<char>>::empty()),
{
    HeaderMap::new()
}

/// `HeaderMap::insert` with a static name and `HeaderValue::from_static`: stores
/// the value under the lower-case name, in place of what was stored there.
#[verifier::external_body]
fn header_map_insert(headers: &mut HeaderMap<HeaderValue>, name: &'static str, value: &'static str)
    requires
        header_entries(*old(headers)).dom().finite(),
        header_entries(*old(headers)).dom().len() < 100,
        is_header_name(name@),
        is_header_value(value@),
    ensures
        header_entries(*final(headers)) == header_entries(*old(headers)).insert(
            stored_name(name@),
            value@,
        ),
{
    headers.insert(name, HeaderValue::from_static(value));
}

/// The headers that every request carries.
pub open spec fn default_entries() -> Map<Seq<char>, Seq<char>> {
    map![
        "user-agent"@ => "WARP for Android"@,
        "cf-client-version"@ => "a-6.35-4471"@,
        "content-type"@ => "application/json; charset=UTF-8"@,
        "connection"@ => "Keep-Alive"@,
    ]
}

/// The headers that every request carries.
pub fn default_headers() -> (headers: HeaderMap<HeaderValue>)
    ensures
        header_entries(headers) == default_entries(),
{
    proof {
        reveal_strlit("User-Agent");
        reveal_strlit("user-agent");
        reveal_strlit("WARP for Android");
        assert(stored_name("User-Agent"@) =~= "user-agent"@);
        reveal_strlit("CF-Client-Version");
        reveal_strlit("cf-client-version");
        reveal_strlit("a-6.35-4471");
        assert(stored_name("CF-Client-Version"@) =~= "cf-client-version"@);
        reveal_strlit("Content-Type");
        reveal_strlit("content-type");
        reveal_strlit("application/json; charset=UTF-8");
        assert(stored_name("Content-Type"@) =~= "content-type"@);
        reveal_strlit("Connection");
        reveal_strlit("connection");
        reveal_strlit("Keep-Alive");
        assert(stored_name("Connection"@) =~= "connection"@);
    }
    let mut headers = header_map_new();
    header_map_insert(&mut headers, "User-Agent", DEFAULT_USER_AGENT);
    header_map_insert(&mut headers, "CF-Client-Version", CF_CLIENT_VERSION);
    header_map_insert(&mut headers, "Content-Type", "application/json; charset=UTF-8");
    header_map_insert(&mut headers, "Connection", "Keep-Alive");
    headers
}

} // verus!
