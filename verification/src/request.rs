//! Requests and replies as plain values, and the comparison of header names.

use vstd::prelude::*;
use vstd::string::*;
use vstd::utf8::{encode_utf8_decode_utf8, is_ascii_chars, is_ascii_chars_encode_utf8};

verus! {

/// One header line: the name and the bytes of the value.
pub type Header = (String, Vec<u8>);

/// A request as the handlers read it: the method token, the path of the
/// request target without its query, the header lines in the order in which
/// they came, and the whole body.
#[derive(Debug)]
pub struct UnpackedRequest {
    pub method: String,
    pub path: String,
    pub headers: Vec<Header>,
    pub body: Vec<u8>,
}

/// The view of an [`UnpackedRequest`].
pub struct UnpackedRequestView {
    pub method: Seq<char>,
    pub path: Seq<char>,
    pub headers: Seq<(Seq<char>, Seq<u8>)>,
    pub body: Seq<u8>,
}

impl View for UnpackedRequest {
    type V = UnpackedRequestView;

    open spec fn view(&self) -> UnpackedRequestView {
        UnpackedRequestView {
            method: self.method@,
            path: self.path@,
            headers: self.headers.deep_view(),
            body: self.body@,
        }
    }
}

/// A reply as the handlers give it: the status code, the header lines in
/// order, and the body.
#[derive(Debug)]
pub struct Reply {
    pub status: u16,
    pub headers: Vec<Header>,
    pub body: Vec<u8>,
}

/// The view of a [`Reply`].
pub struct ReplyView {
    pub status: u16,
    pub headers: Seq<(Seq<char>, Seq<u8>)>,
    pub body: Seq<u8>,
}

impl View for Reply {
    type V = ReplyView;

    open spec fn view(&self) -> ReplyView {
        ReplyView { status: self.status, headers: self.headers.deep_view(), body: self.body@ }
    }
}

/// A letter `A` to `Z` becomes `a` to `z`; every other character stays.
pub open spec fn ascii_lower(c: char) -> char {
    if 'A' <= c && c <= 'Z' {
        ((c as u8) + 32) as char
    } else {
        c
    }
}

/// Two header names are the same when they differ at most in the case of
/// their ASCII letters.
pub open spec fn same_name(a: Seq<char>, b: Seq<char>) -> bool {
    &&& a.len() == b.len()
    &&& forall|i: int| 0 <= i < a.len() ==> ascii_lower(#[trigger] a[i]) == ascii_lower(b[i])
}

/// The value of the first header line with the given name, if there is one.
pub open spec fn header_value(headers: Seq<(Seq<char>, Seq<u8>)>, name: Seq<char>) -> Option<
    Seq<u8>,
>
    decreases headers.len(),
{
    if headers.len() == 0 {
        None
    } else if same_name(headers[0].0, name) {
        Some(headers[0].1)
    } else {
        header_value(headers.drop_first(), name)
    }
}

/// Compares two texts character by character.
pub fn text_eq(a: &str, b: &str) -> (same: bool)
    ensures
        same == (a@ == b@),
{
    let left = a.as_bytes();
    let right = b.as_bytes();
    proof {
        encode_utf8_decode_utf8(a@);
        encode_utf8_decode_utf8(b@);
    }
    if left.len() != right.len() {
        return false;
    }
    let mut at: usize = 0;
    while at < left.len()
        invariant
            at <= left.len(),
            left.len() == right.len(),
            left@ == a.spec_bytes(),
            right@ == b.spec_bytes(),
            forall|i: int| 0 <= i < at ==> left@[i] == right@[i],
        decreases left.len() - at,
    {
        if left[at] != right[at] {
            return false;
        }
        at += 1;
    }
    assert(left@ =~= right@);
    true
}

fn to_ascii_lower(c: char) -> (lower: char)
    ensures
        lower == ascii_lower(c),
{
    if 'A' <= c && c <= 'Z' {
        ((c as u8) + 32) as char
    } else {
        c
    }
}

fn to_ascii_lower_byte(byte: u8) -> (lower: u8)
    ensures
        lower == (if 65 <= byte && byte <= 90 {
            (byte + 32) as u8
        } else {
            byte
        }),
{
    if 65 <= byte && byte <= 90 {
        byte + 32
    } else {
        byte
    }
}

/// Compares two header names that hold ASCII characters only, byte by byte.
fn eq_ignore_case_ascii(a: &str, b: &str) -> (same: bool)
    requires
        is_ascii(a),
        is_ascii(b),
    ensures
        same == same_name(a@, b@),
{
    let left = a.as_bytes();
    let right = b.as_bytes();
    proof {
        is_ascii_chars_encode_utf8(a@);
        is_ascii_chars_encode_utf8(b@);
    }
    if left.len() != right.len() {
        return false;
    }
    let mut at: usize = 0;
    while at < left.len()
        invariant
            at <= left.len(),
            left.len() == right.len(),
            left@.len() == a@.len(),
            right@.len() == b@.len(),
            is_ascii_chars(a@),
            is_ascii_chars(b@),
            forall|i: int| 0 <= i < a@.len() ==> a@[i] as u8 == #[trigger] left@[i],
            forall|i: int| 0 <= i < b@.len() ==> b@[i] as u8 == #[trigger] right@[i],
            forall|i: int| 0 <= i < at ==> ascii_lower(#[trigger] a@[i]) == ascii_lower(b@[i]),
        decreases left.len() - at,
    {
        let ghost x = a@[at as int];
        let ghost y = b@[at as int];
        assert(x as u8 == left@[at as int] && y as u8 == right@[at as int]);
        assert('\0' <= x <= '\u{7f}' && '\0' <= y <= '\u{7f}');
        if to_ascii_lower_byte(left[at]) != to_ascii_lower_byte(right[at]) {
            assert(ascii_lower(x) != ascii_lower(y));
            return false;
        }
        assert(ascii_lower(x) == ascii_lower(y));
        at += 1;
    }
    true
}

/// Compares two header names character by character.
fn eq_ignore_case_chars(a: &str, b: &str) -> (same: bool)
    ensures
        same == same_name(a@, b@),
{
    let len = a.unicode_len();
    if len != b.unicode_len() {
        return false;
    }
    let mut at: usize = 0;
    while at < len
        invariant
            at <= len,
            len == a@.len(),
            len == b@.len(),
            forall|i: int| 0 <= i < at ==> ascii_lower(#[trigger] a@[i]) == ascii_lower(b@[i]),
        decreases len - at,
    {
        if to_ascii_lower(a.get_char(at)) != to_ascii_lower(b.get_char(at)) {
            return false;
        }
        at += 1;
    }
    true
}

/// Compares two header names without regard to the case of ASCII letters.
pub fn eq_ignore_case(a: &str, b: &str) -> (same: bool)
    ensures
        same == same_name(a@, b@),
{
    if a.is_ascii() && b.is_ascii() {
        eq_ignore_case_ascii(a, b)
    } else {
        eq_ignore_case_chars(a, b)
    }
}

} // verus!

verus! {

/// Looks a header up by name, without regard to the case of ASCII letters;
/// of several lines with the name the first one counts.
pub fn find_header<'a>(headers: &'a Vec<Header>, name: &str) -> (value: Option<&'a Vec<u8>>)
    ensures
        match value {
            Some(bytes) => header_value(headers.deep_view(), name@) == Some(bytes@),
            None => header_value(headers.deep_view(), name@) is None,
        },
{
    let mut at: usize = 0;
    assert(headers.deep_view().skip(0) =~= headers.deep_view());
    while at < headers.len()
        invariant
            at <= headers.len(),
            header_value(headers.deep_view(), name@) == header_value(
                headers.deep_view().skip(at as int),
                name@,
            ),
        decreases headers.len() - at,
    {
        let ghost rest = headers.deep_view().skip(at as int);
        assert(rest[0] == headers.deep_view()[at as int]);
        assert(rest.drop_first() =~= headers.deep_view().skip(at + 1));
        if eq_ignore_case(headers[at].0.as_str(), name) {
            return Some(&headers[at].1);
        }
        at += 1;
    }
    None
}

} // verus!
