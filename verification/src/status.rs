//! The status code of an HTTP response.

use vstd::prelude::*;

verus! {

/// A status code: a number of three digits.
#[derive(Clone, Copy, Debug, PartialEq, Eq)]
pub struct HttpStatus {
    code: u16,
}

/// The reason phrase that `http::StatusCode` prints behind the number of
/// the status `code`: the canonical reason where its table has one for the
/// number, and `<unknown status code>` where it has none.
pub uninterp spec fn reason_phrase(code: u16) -> Seq<char>;

/// The character for a digit.
pub open spec fn digit(value: int) -> char {
    (0x30 + value) as u8 as char
}

/// The three digits of a status code.
pub open spec fn decimal(code: u16) -> Seq<char> {
    seq![digit(code as int / 100), digit(code as int / 10 % 10), digit(code as int % 10)]
}

/// A status as it stands in a message: the number, a space and the reason
/// phrase.
pub open spec fn status_display(code: u16) -> Seq<char> {
    decimal(code) + seq![' '] + reason_phrase(code)
}

impl HttpStatus {
    #[verifier::type_invariant]
    spec fn three_digits(self) -> bool {
        100 <= self.code <= 999
    }

    /// The number.
    pub closed spec fn code(self) -> u16 {
        self.code
    }

    /// Whether the status says that the request was carried out (2xx).
    pub open spec fn success(self) -> bool {
        200 <= self.code() < 300
    }

    /// Whether the status says that the server has no such route: 404 or
    /// 405.
    pub open spec fn route_unsupported(self) -> bool {
        self.code() == 404 || self.code() == 405
    }

    /// Whether the status is 404.
    pub open spec fn not_found(self) -> bool {
        self.code() == 404
    }

    /// The status with the number `code`, where it has three digits.
    pub fn new(code: u16) -> (status: Option<HttpStatus>)
        ensures
            status is Some <==> 100 <= code <= 999,
            status matches Some(s) ==> s.code() == code,
    {
        if 100 <= code && code <= 999 {
            Some(HttpStatus { code })
        } else {
            None
        }
    }

    /// The number.
    pub fn as_u16(&self) -> (code: u16)
        ensures
            code == self.code(),
            100 <= code <= 999,
    {
        proof {
            use_type_invariant(self);
        }
        self.code
    }

    /// Whether the status is a 2xx.
    pub fn is_success(&self) -> (yes: bool)
        ensures
            yes == self.success(),
    {
        200 <= self.code && self.code < 300
    }

    /// Whether the status is 404 or 405.
    pub fn is_route_unsupported(&self) -> (yes: bool)
        ensures
            yes == self.route_unsupported(),
    {
        self.code == 404 || self.code == 405
    }

    /// Whether the status is 404.
    pub fn is_not_found(&self) -> (yes: bool)
        ensures
            yes == self.not_found(),
    {
        self.code == 404
    }
}

/// Builds the `reqwest::StatusCode` for `code` with `from_u16`, which
/// takes every number from 100 to 999, and prints it: the number in
/// decimal, a space and the reason phrase.
#[verifier::external_body]
pub(crate) fn status_text(code: u16) -> (text: String)
    requires
        100 <= code <= 999,
    ensures
        text@ == decimal(code) + seq![' '] + reason_phrase(code),
{
    match reqwest::StatusCode::from_u16(code) {
        Ok(status) => status.to_string(),
        Err(_) => String::new(),
    }
}

} // verus!
