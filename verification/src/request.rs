//! What a request says: its method, its path, the identifier in its path, its
//! body, and the operation that it is routed to.
//!
//! A request is the text that came over the connection, decoded. Only as much
//! of HTTP is read as routing needs: the first line up to the end of the path,
//! and what follows the first blank line. Headers are not looked at.

use vstd::prelude::*;
use vstd::slice::slice_subrange;
use vstd::utf8::{decode_utf8, valid_utf8};
use crate::decimal::{all_digits, decimal_value, digits_value, is_digit, lemma_digits_value_grows};
use crate::text::{
    chars_of, find, find_char, find_space, find_stop, first_char, first_occurrence, first_space,
    first_stop, stands_at, starts_with, lemma_first_char_bounds, lemma_first_occurrence_bounds,
    lemma_first_space_bounds, lemma_first_stop_bounds,
};

verus! {

/// The longest request that is looked at, in bytes. What a client sends beyond
/// it is cut off, which may cut a body short.
pub const REQUEST_LIMIT: usize = 1024;

/// The method of a request.
#[derive(Clone, Copy, Debug, PartialEq, Eq, Structural)]
pub enum Method {
    Get,
    Post,
    Put,
    Delete,
    /// Any other word, or none.
    Other,
}

/// The operation that a request is routed to.
#[derive(Clone, Copy, Debug, PartialEq, Eq, Structural)]
pub enum Route {
    /// `POST /users`
    Create,
    /// `GET /users`
    List,
    /// `PUT /user/`
    Update,
    /// `DELETE /user/`
    Delete,
    /// No route matches.
    NotFound,
}

/// A request, as far as it is read.
#[derive(Debug, PartialEq, Eq)]
pub struct Request {
    pub method: Method,
    pub path: String,
    /// The identifier in the path, where it holds one.
    pub id: Option<i64>,
    pub body: String,
}

/// What a request holds, as far as it is read.
pub struct RequestView {
    pub method: Method,
    pub path: Seq<char>,
    pub id: Option<i64>,
    pub body: Seq<char>,
}

impl View for Request {
    type V = RequestView;

    open spec fn view(&self) -> RequestView {
        RequestView { method: self.method, path: self.path@, id: self.id, body: self.body@ }
    }
}

/// The text that `String::from_utf8_lossy` makes of bytes that are no UTF-8:
/// what they spell, with U+FFFD in place of each part that spells nothing.
pub uninterp spec fn lossy_text(bytes: Seq<u8>) -> Seq<char>;

/// The text that bytes spell in UTF-8. Bytes that are no UTF-8 are replaced,
/// never refused.
pub open spec fn decoded(bytes: Seq<u8>) -> Seq<char> {
    if valid_utf8(bytes) {
        decode_utf8(bytes)
    } else {
        lossy_text(bytes)
    }
}

/// The bytes of a request that are looked at: the first `REQUEST_LIMIT`.
pub open spec fn kept(bytes: Seq<u8>) -> Seq<u8> {
    bytes.take(
        if bytes.len() <= REQUEST_LIMIT {
            bytes.len() as int
        } else {
            REQUEST_LIMIT as int
        },
    )
}

/// The request that bytes read from a connection spell: those of them that
/// are looked at, decoded.
pub open spec fn request_of(bytes: Seq<u8>) -> Seq<char> {
    decoded(kept(bytes))
}

/// The first word of the request line: what stands before the first space.
pub open spec fn method_text(request: Seq<char>) -> Seq<char> {
    request.subrange(0, first_char(request, ' ', 0))
}

/// The method that a request names.
pub open spec fn method_of(request: Seq<char>) -> Method {
    let word = method_text(request);
    if word == "GET"@ {
        Method::Get
    } else if word == "POST"@ {
        Method::Post
    } else if word == "PUT"@ {
        Method::Put
    } else if word == "DELETE"@ {
        Method::Delete
    } else {
        Method::Other
    }
}

/// The path of a request: what follows the first space, up to the next white
/// space. Empty where the request holds no space.
pub open spec fn path_of(request: Seq<char>) -> Seq<char> {
    let space = first_char(request, ' ', 0);
    if space >= request.len() {
        Seq::empty()
    } else {
        request.subrange(space + 1, first_space(request, space + 1))
    }
}

/// The body of a request: what follows the first blank line, that is the first
/// two line ends in a row. Empty where there is no blank line.
pub open spec fn body_of(request: Seq<char>) -> Seq<char> {
    let at = first_occurrence(request, "\r\n\r\n"@, 0);
    if at >= request.len() {
        Seq::empty()
    } else {
        request.skip(at + 4)
    }
}

/// The text of the identifier in a path or a request: what follows its second
/// slash, up to the next slash or white space. In `/user/7` that is `7`. Empty
/// where there are fewer than two slashes, or where a slash or white space
/// comes right after the second.
pub open spec fn id_text(text: Seq<char>) -> Seq<char> {
    let first = first_char(text, '/', 0);
    let second = first_char(text, '/', first + 1);
    if second >= text.len() {
        Seq::empty()
    } else {
        text.subrange(second + 1, first_stop(text, second + 1))
    }
}

/// The identifier that `s` writes: a number in the range of `i64`, which is
/// that of the identifiers of the store.
pub open spec fn identifier(s: Seq<char>) -> Option<i64> {
    match decimal_value(s) {
        Some(n) => if i64::MIN <= n <= i64::MAX {
            Some(n as i64)
        } else {
            None
        },
        None => None,
    }
}

/// The identifier that the path of a request names: the piece of the path
/// that follows `/user/`, read as a number.
pub open spec fn path_id(request: Seq<char>) -> Option<i64> {
    identifier(id_text(path_of(request)))
}

/// What is read of a request.
pub open spec fn read_of(request: Seq<char>) -> RequestView {
    RequestView {
        method: method_of(request),
        path: path_of(request),
        id: path_id(request),
        body: body_of(request),
    }
}

/// The operation that a request is routed to. The tests are made on the text
/// as it came, in this order, and the first that holds decides. They tell
/// upper case from lower case, and ask for a prefix only: what follows it in
/// the path changes nothing.
pub open spec fn route_of(request: Seq<char>) -> Route {
    if starts_with(request, "POST /users"@) {
        Route::Create
    } else if starts_with(request, "GET /users"@) {
        Route::List
    } else if starts_with(request, "PUT /user/"@) {
        Route::Update
    } else if starts_with(request, "DELETE /user/"@) {
        Route::Delete
    } else {
        Route::NotFound
    }
}

/// Reads the identifier out of a path or a request.
pub fn get_id(request: &str) -> (id: &str)
    ensures
        id@ == id_text(request@),
{
    proof {
        reveal_strlit("");
    }
    let text = chars_of(request);
    let first = find_char(&text, '/', 0);
    if first >= text.len() {
        return "";
    }
    let second = find_char(&text, '/', first + 1);
    if second >= text.len() {
        return "";
    }
    let end = find_stop(&text, second + 1);
    proof {
        lemma_first_stop_bounds(text@, second + 1);
    }
    request.substring_char(second + 1, end)
}

/// Reads a number in the range of `i64` out of a text that holds nothing else.
pub fn parse_id(text: &str) -> (id: Option<i64>)
    ensures
        id == identifier(text@),
{
    let chars = chars_of(text);
    let n = chars.len();
    if n == 0 {
        return None;
    }
    let signed = chars[0] == '+' || chars[0] == '-';
    let negative = chars[0] == '-';
    let start: usize = if signed {
        1
    } else {
        0
    };
    if start == n {
        return None;
    }
    let ghost digits = chars@.skip(start as int);
    proof {
        if !signed {
            assert(digits =~= chars@);
        }
    }
    assert(decimal_value(text@) == if all_digits(digits) {
        Some(
            if negative {
                -digits_value(digits)
            } else {
                digits_value(digits)
            },
        )
    } else {
        None
    });
    let mut value: i128 = 0;
    let mut i: usize = start;
    while i < n
        invariant
            start <= i <= n,
            n == chars@.len(),
            digits == chars@.skip(start as int),
            decimal_value(text@) == if all_digits(digits) {
                Some(
                    if negative {
                        -digits_value(digits)
                    } else {
                        digits_value(digits)
                    },
                )
            } else {
                None
            },
            all_digits(digits.take(i - start)),
            value == digits_value(digits.take(i - start)),
            0 <= value <= 0x8000_0000_0000_0000,
        decreases n - i,
    {
        let c = chars[i];
        if !('0' <= c && c <= '9') {
            assert(!is_digit(digits[i - start]));
            return None;
        }
        let digit: i128 = (c as u32 - '0' as u32) as i128;
        proof {
            assert(digits.take(i + 1 - start).drop_last() =~= digits.take(i - start));
            assert(digits.take(i + 1 - start).last() == c);
            assert forall|j: int| 0 <= j < i + 1 - start implies is_digit(
                #[trigger] digits.take(i + 1 - start)[j],
            ) by {
                if j < i - start {
                    assert(is_digit(digits.take(i - start)[j]));
                }
            }
        }
        value = value * 10 + digit;
        i += 1;
        if value > 0x8000_0000_0000_0000 {
            proof {
                if all_digits(digits) {
                    lemma_digits_value_grows(digits, i - start);
                }
            }
            return None;
        }
    }
    proof {
        assert(digits.take(i - start) =~= digits);
    }
    if negative {
        Some((-value) as i64)
    } else if value <= 0x7fff_ffff_ffff_ffff {
        Some(value as i64)
    } else {
        None
    }
}

/// Calls `String::from_utf8_lossy` of std. It decodes the bytes as UTF-8 and
/// puts U+FFFD where they are not; it fails on no input. Trusted: that bytes
/// which are UTF-8 give the text that they spell, and that the text for other
/// bytes depends on the bytes alone.
#[verifier::external_body]
fn lossy(bytes: &[u8]) -> (text: String)
    ensures
        text@ == if valid_utf8(bytes@) {
            decode_utf8(bytes@)
        } else {
            lossy_text(bytes@)
        },
{
    String::from_utf8_lossy(bytes).into_owned()
}

/// Decodes what was read from a connection. Bytes beyond `REQUEST_LIMIT` are
/// left out; bytes that are no UTF-8 are replaced, never refused.
pub fn decode_request(bytes: &[u8]) -> (request: String)
    ensures
        request@ == request_of(bytes@),
{
    let end: usize = if bytes.len() <= REQUEST_LIMIT {
        bytes.len()
    } else {
        REQUEST_LIMIT
    };
    lossy(slice_subrange(bytes, 0, end))
}

/// The method of a request.
pub fn request_method(request: &str) -> (method: Method)
    ensures
        method == method_of(request@),
{
    proof {
        reveal_strlit("GET");
        reveal_strlit("POST");
        reveal_strlit("PUT");
        reveal_strlit("DELETE");
    }
    let text = chars_of(request);
    let space = find_char(&text, ' ', 0);
    proof {
        lemma_first_char_bounds(text@, ' ', 0);
        assert(method_text(request@).len() == space);
    }
    if space == 3 && stands_at(&text, &chars_of("GET"), 0) {
        Method::Get
    } else if space == 4 && stands_at(&text, &chars_of("POST"), 0) {
        Method::Post
    } else if space == 3 && stands_at(&text, &chars_of("PUT"), 0) {
        Method::Put
    } else if space == 6 && stands_at(&text, &chars_of("DELETE"), 0) {
        Method::Delete
    } else {
        Method::Other
    }
}

/// The path of a request.
pub fn request_path(request: &str) -> (path: &str)
    ensures
        path@ == path_of(request@),
{
    proof {
        reveal_strlit("");
    }
    let text = chars_of(request);
    let space = find_char(&text, ' ', 0);
    if space >= text.len() {
        return "";
    }
    let end = find_space(&text, space + 1);
    proof {
        lemma_first_space_bounds(text@, space + 1);
    }
    request.substring_char(space + 1, end)
}

/// The body of a request.
pub fn request_body(request: &str) -> (body: &str)
    ensures
        body@ == body_of(request@),
{
    proof {
        reveal_strlit("");
        reveal_strlit("\r\n\r\n");
    }
    let text = chars_of(request);
    let at = find(&text, &chars_of("\r\n\r\n"), 0);
    if at >= text.len() {
        return "";
    }
    proof {
        lemma_first_occurrence_bounds(text@, "\r\n\r\n"@, 0);
    }
    request.substring_char(at + 4, text.len())
}

/// Routes a request.
pub fn route(request: &str) -> (to: Route)
    ensures
        to == route_of(request@),
{
    let text = chars_of(request);
    if stands_at(&text, &chars_of("POST /users"), 0) {
        Route::Create
    } else if stands_at(&text, &chars_of("GET /users"), 0) {
        Route::List
    } else if stands_at(&text, &chars_of("PUT /user/"), 0) {
        Route::Update
    } else if stands_at(&text, &chars_of("DELETE /user/"), 0) {
        Route::Delete
    } else {
        Route::NotFound
    }
}

/// The identifier that the path of a request names.
pub fn request_id(request: &str) -> (id: Option<i64>)
    ensures
        id == path_id(request@),
{
    parse_id(get_id(request_path(request)))
}

/// Reads a request: its method, its path, the identifier in the path and its
/// body.
pub fn parse_request(request: &str) -> (parsed: Request)
    ensures
        parsed@ == read_of(request@),
{
    Request {
        method: request_method(request),
        path: request_path(request).to_owned(),
        id: request_id(request),
        body: request_body(request).to_owned(),
    }
}

} // verus!
