//! Requests that the library asks its caller to send, and what comes back.

use vstd::prelude::*;
use vstd::utf8::*;

use crate::simkl::ScrobblePayload;

verus! {

/// Request methods in use.
#[derive(Clone, Copy, Debug, PartialEq, Eq, Structural)]
pub enum Method {
    GET,
    POST,
}

/// What a request carries.
#[derive(Debug)]
pub enum Body {
    Empty,
    Json(ScrobblePayload),
    Form(Vec<(String, String)>),
}

/// A request to send.
#[derive(Debug)]
pub struct Request {
    pub method: Method,
    pub url: String,
    pub headers: Vec<(String, String)>,
    pub body: Body,
}

/// The content of a list of named values.
pub open spec fn pairs(list: Seq<(String, String)>) -> Seq<(Seq<char>, Seq<char>)> {
    list.map_values(|p: (String, String)| (p.0@, p.1@))
}

/// The content of a request body.
pub enum BodyView {
    Empty,
    Json(ScrobblePayload),
    Form(Seq<(Seq<char>, Seq<char>)>),
}

impl View for Body {
    type V = BodyView;

    open spec fn view(&self) -> BodyView {
        match self {
            Body::Empty => BodyView::Empty,
            Body::Json(p) => BodyView::Json(*p),
            Body::Form(f) => BodyView::Form(pairs(f@)),
        }
    }
}

/// The content of a request.
pub struct RequestView {
    pub method: Method,
    pub url: Seq<char>,
    pub headers: Seq<(Seq<char>, Seq<char>)>,
    pub body: BodyView,
}

impl View for Request {
    type V = RequestView;

    open spec fn view(&self) -> RequestView {
        RequestView {
            method: self.method,
            url: self.url@,
            headers: pairs(self.headers@),
            body: self.body@,
        }
    }
}

/// A named value.
pub(crate) fn pair(name: &str, value: &str) -> (r: (String, String))
    ensures
        r.0@ == name@,
        r.1@ == value@,
{
    (name.to_string(), value.to_string())
}

/// The status of a reply: a number from 100 to 999.
#[derive(Clone, Copy, Debug)]
pub struct Status {
    code: u16,
}

impl Status {
    #[verifier::type_invariant]
    spec fn in_range(self) -> bool {
        100 <= self.code <= 999
    }

    /// The number of the status.
    pub closed spec fn spec_code(self) -> u16 {
        self.code
    }

    /// A status that means success.
    pub open spec fn spec_success(self) -> bool {
        200 <= self.spec_code() < 300
    }

    /// The status with a given number, if there is one.
    pub fn from_u16(code: u16) -> (r: Option<Status>)
        ensures
            r is Some <==> 100 <= code <= 999,
            r matches Some(s) ==> s.spec_code() == code,
    {
        if code >= 100 && code <= 999 {
            Some(Status { code })
        } else {
            None
        }
    }

    /// The number of the status.
    pub fn as_u16(self) -> (r: u16)
        ensures
            r == self.spec_code(),
    {
        self.code
    }

    /// Whether the status means success.
    pub fn is_success(self) -> (r: bool)
        ensures
            r == self.spec_success(),
    {
        self.code >= 200 && self.code < 300
    }

    /// The number and the canonical reason of the status.
    pub fn line(self) -> (r: String)
        ensures
            r@ == status_line(self.spec_code()),
    {
        proof {
            use_type_invariant(&self);
        }
        write_status(self.code)
    }
}

/// What came back for a request: nothing, or a status with the body, both
/// raw and, where it could be read so, as a `T`.
#[derive(Debug)]
pub enum Reply<T> {
    Unreachable,
    Answered { status: Status, parsed: Option<T>, body: String },
}

/// How `http::StatusCode` writes a status: its number and canonical reason.
pub uninterp spec fn status_line(code: u16) -> Seq<char>;

/// Calls the `Display` of `http::StatusCode`; the table of reasons is left
/// unsaid.
#[verifier::external_body]
pub(crate) fn write_status(code: u16) -> (r: String)
    requires
        100 <= code <= 999,
    ensures
        r@ == status_line(code),
{
    http::StatusCode::from_u16(code).unwrap().to_string()
}

/// The characters that stand for themselves in a URL component.
pub open spec fn is_unreserved(b: u8) -> bool {
    ||| '0' as u8 <= b <= '9' as u8
    ||| 'A' as u8 <= b <= 'Z' as u8
    ||| 'a' as u8 <= b <= 'z' as u8
    ||| b == '-' as u8
    ||| b == '.' as u8
    ||| b == '_' as u8
    ||| b == '~' as u8
}

/// The capital hexadecimal digit of `d`.
pub open spec fn upper_hex(d: int) -> char {
    if d < 10 {
        (('0' as int + d) as u32) as char
    } else {
        (('A' as int + (d - 10)) as u32) as char
    }
}

/// A byte in a URL component: itself, or a percent sign and its two digits.
pub open spec fn encoded_byte(b: u8) -> Seq<char> {
    if is_unreserved(b) {
        seq![b as char]
    } else {
        seq!['%', upper_hex(b as int / 16), upper_hex(b as int % 16)]
    }
}

/// Bytes in a URL component.
pub open spec fn encoded_bytes(bytes: Seq<u8>) -> Seq<char>
    decreases bytes.len(),
{
    if bytes.len() == 0 {
        seq![]
    } else {
        encoded_bytes(bytes.drop_last()) + encoded_byte(bytes.last())
    }
}

/// A text in a URL component.
pub open spec fn url_encoded(s: Seq<char>) -> Seq<char> {
    encoded_bytes(encode_utf8(s))
}

/// Calls `urlencoding::encode`: every byte of the UTF-8 form except letters,
/// digits and `-._~` is written as a percent sign and two capital digits.
#[verifier::external_body]
pub(crate) fn url_encode(s: &str) -> (r: String)
    ensures
        r@ == url_encoded(s@),
{
    urlencoding::encode(s).into_owned()
}

} // verus!
