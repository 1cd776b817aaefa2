//! The CORS headers of a response.

use crate::text::{text_equals, trim_text, trimmed};
use vstd::prelude::*;

verus! {

/// The origin that is allowed when none is configured.
pub const DEFAULT_ALLOWED_ORIGIN: &'static str = "http://localhost:5173";

/// The configuration that allows every origin.
pub const ANY_ORIGIN: &'static str = "*";

/// `from..to` is one item of a comma-separated list: it is bounded by
/// commas or by the ends of the text and holds no comma.
pub open spec fn is_list_item(list: Seq<char>, from: int, to: int) -> bool {
    &&& 0 <= from <= to <= list.len()
    &&& (from == 0 || list[from - 1] == ',')
    &&& (to == list.len() || list[to] == ',')
    &&& forall|k: int| from <= k < to ==> list[k] != ','
}

/// Whether some item of a comma-separated list, trimmed, is `origin`.
pub open spec fn lists_origin(list: Seq<char>, origin: Seq<char>) -> bool {
    exists|from: int, to: int|
        #![trigger list.subrange(from, to)]
        is_list_item(list, from, to) && trimmed(list.subrange(from, to)) == origin
}

/// The origin to allow: the origin of the request when the configuration
/// is `*` or lists it, the configuration itself otherwise and for
/// requests without an origin.
pub open spec fn allowed_origin(configured: Seq<char>, origin: Option<Seq<char>>) -> Seq<char> {
    match origin {
        Some(requested) => if configured == ANY_ORIGIN@ || lists_origin(configured, requested) {
            requested
        } else {
            configured
        },
        None => configured,
    }
}

/// Whether a comma-separated list of origins names an origin.
pub fn origin_is_listed(list: &str, origin: &str) -> (listed: bool)
    ensures
        listed == lists_origin(list@, origin@),
{
    let n: usize = list.unicode_len();
    let mut start: usize = 0;
    let mut i: usize = 0;
    while i < n
        invariant
            n == list@.len(),
            start <= i <= n,
            start == 0 || list@[start - 1] == ',',
            forall|k: int| start <= k < i ==> list@[k] != ',',
            forall|from: int, to: int|
                #![trigger list@.subrange(from, to)]
                is_list_item(list@, from, to) && to < start ==> trimmed(list@.subrange(from, to))
                    != origin@,
        decreases n - i,
    {
        if list.get_char(i) == ',' {
            let item = list.substring_char(start, i);
            if text_equals(trim_text(item), origin) {
                return true;
            }
            start = i + 1;
        }
        i += 1;
    }
    let last = list.substring_char(start, n);
    if text_equals(trim_text(last), origin) {
        return true;
    }
    false
}

/// The value of the `Access-Control-Allow-Origin` header.
pub fn origin_to_allow(allowed_origins: &str, request_origin: Option<&str>) -> (origin: String)
    ensures
        origin@ == allowed_origin(
            allowed_origins@,
            match request_origin {
                Some(requested) => Some(requested@),
                None => None,
            },
        ),
{
    match request_origin {
        Some(requested) => {
            if text_equals(allowed_origins, ANY_ORIGIN) || origin_is_listed(
                allowed_origins,
                requested,
            ) {
                String::from_str(requested)
            } else {
                String::from_str(allowed_origins)
            }
        },
        None => String::from_str(allowed_origins),
    }
}

/// The origins that are allowed: those configured, or the default.
pub fn configured_origins(configured: Option<String>) -> (origins: String)
    ensures
        origins@ == match configured {
            Some(value) => value@,
            None => DEFAULT_ALLOWED_ORIGIN@,
        },
{
    match configured {
        Some(value) => value,
        None => String::from_str(DEFAULT_ALLOWED_ORIGIN),
    }
}

/// Adds the CORS headers to responses.
#[derive(Clone, Copy, Debug)]
pub struct CORS;

/// The methods that are allowed across origins.
pub const ALLOWED_METHODS: &'static str = "GET, POST, PUT, DELETE, OPTIONS";

/// The request headers that are allowed across origins.
pub const ALLOWED_HEADERS: &'static str = "Content-Type, Authorization";

/// A header is the pair of the given name and value.
pub open spec fn is_header(header: (String, String), name: Seq<char>, value: Seq<char>) -> bool {
    header.0@ == name && header.1@ == value
}

impl CORS {
    /// The headers to set on a response: the origin allowed, then the
    /// methods, the request headers, and that credentials are allowed.
    pub fn headers(&self, allowed_origins: &str, request_origin: Option<&str>) -> (headers: Vec<
        (String, String),
    >)
        ensures
            headers.len() == 4,
            is_header(
                headers[0],
                "Access-Control-Allow-Origin"@,
                allowed_origin(
                    allowed_origins@,
                    match request_origin {
                        Some(requested) => Some(requested@),
                        None => None,
                    },
                ),
            ),
            is_header(headers[1], "Access-Control-Allow-Methods"@, ALLOWED_METHODS@),
            is_header(headers[2], "Access-Control-Allow-Headers"@, ALLOWED_HEADERS@),
            is_header(headers[3], "Access-Control-Allow-Credentials"@, "true"@),
    {
        let mut headers: Vec<(String, String)> = Vec::new();
        headers.push(
            (
                String::from_str("Access-Control-Allow-Origin"),
                origin_to_allow(allowed_origins, request_origin),
            ),
        );
        headers.push(
            (String::from_str("Access-Control-Allow-Methods"), String::from_str(ALLOWED_METHODS)),
        );
        headers.push(
            (String::from_str("Access-Control-Allow-Headers"), String::from_str(ALLOWED_HEADERS)),
        );
        headers.push(
            (String::from_str("Access-Control-Allow-Credentials"), String::from_str("true")),
        );
        headers
    }
}

} // verus!
