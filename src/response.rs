//! Parsing of raw responses, and their resolution into values or errors.

use vstd::prelude::*;
use vstd::string::*;
use crate::json::{json_str_member, json_str_member_of, json_syntax_error, json_syntax_error_of, opt_view};
use crate::wire::{blank_line, Request};

verus! {

/// The part of a response that could not be located.
#[derive(PartialEq, Eq, Structural, Clone, Copy, Debug)]
pub enum MalformedPart {
    /// No three-digit status code at its place on the status line.
    StatusCode,
    /// No blank line between head and body.
    Separator,
}

/// Everything that can go wrong with one call.
#[derive(Debug)]
pub enum ClientError {
    /// The peer at `route` could not be reached.
    ConnectionError { route: String, cause: String },
    /// Writing the request or reading the response did not complete.
    IoError { cause: String },
    /// The response does not have the shape of one.
    MalformedResponse { part: MalformedPart },
    /// The peer answered with an error status.
    ApiError { status_code: i32, message: String },
    /// The body does not have the expected shape.
    DeserializationError { path: String, message: String },
}

pub enum ClientErrorModel {
    ConnectionError { route: Seq<char>, cause: Seq<char> },
    IoError { cause: Seq<char> },
    MalformedResponse { part: MalformedPart },
    ApiError { status_code: int, message: Seq<char> },
    DeserializationError { path: Seq<char>, message: Seq<char> },
}

impl View for ClientError {
    type V = ClientErrorModel;

    open spec fn view(&self) -> ClientErrorModel {
        match self {
            ClientError::ConnectionError { route, cause } => ClientErrorModel::ConnectionError { route: route@, cause: cause@ },
            ClientError::IoError { cause } => ClientErrorModel::IoError { cause: cause@ },
            ClientError::MalformedResponse { part } => ClientErrorModel::MalformedResponse { part: *part },
            ClientError::ApiError { status_code, message } => ClientErrorModel::ApiError { status_code: *status_code as int, message: message@ },
            ClientError::DeserializationError { path, message } => ClientErrorModel::DeserializationError { path: path@, message: message@ },
        }
    }
}

pub open spec fn is_digit(c: char) -> bool {
    '0' <= c && c <= '9'
}

pub open spec fn digit_value(c: char) -> int {
    c as int - '0' as int
}

/// The status code: the three digits that follow `HTTP/1.x ` on the status line.
pub open spec fn status_of(raw: Seq<char>) -> Option<int> {
    if raw.len() >= 12 && is_digit(raw[9]) && is_digit(raw[10]) && is_digit(raw[11]) {
        Some(100 * digit_value(raw[9]) + 10 * digit_value(raw[10]) + digit_value(raw[11]))
    } else {
        None
    }
}

pub open spec fn blank_line_at(s: Seq<char>, i: int) -> bool {
    0 <= i && i + 4 <= s.len() && s.subrange(i, i + 4) == blank_line()
}

/// The first position at or after `i` where a blank line starts.
pub open spec fn first_blank_line_from(s: Seq<char>, i: nat) -> Option<nat>
    decreases s.len() - i,
{
    if i + 4 > s.len() {
        None
    } else if blank_line_at(s, i as int) {
        Some(i)
    } else {
        first_blank_line_from(s, i + 1)
    }
}

/// The body: everything after the first blank line.
pub open spec fn body_of(raw: Seq<char>) -> Option<Seq<char>> {
    match first_blank_line_from(raw, 0) {
        Some(i) => Some(raw.skip(i + 4int)),
        None => None,
    }
}

/// The response to the request for `path`, from the raw text the peer sent.
pub open spec fn parse_response(path: Seq<char>, raw: Seq<char>) -> Result<ResponseModel, ClientErrorModel> {
    match status_of(raw) {
        None => Err(ClientErrorModel::MalformedResponse { part: MalformedPart::StatusCode }),
        Some(code) => match body_of(raw) {
            None => Err(ClientErrorModel::MalformedResponse { part: MalformedPart::Separator }),
            Some(body) => Ok(ResponseModel { path, code, body }),
        },
    }
}

pub open spec fn outcome(r: Result<APIResult, ClientError>) -> Result<ResponseModel, ClientErrorModel> {
    match r {
        Ok(a) => Ok(a@),
        Err(e) => Err(e@),
    }
}

pub struct ResponseModel {
    pub path: Seq<char>,
    pub code: int,
    pub body: Seq<char>,
}

/// The parsed response to one request.
#[derive(Debug)]
pub struct APIResult {
    request_path: String,
    result_code: i32,
    result_body: String,
}

impl View for APIResult {
    type V = ResponseModel;

    closed spec fn view(&self) -> ResponseModel {
        ResponseModel { path: self.request_path@, code: self.result_code as int, body: self.result_body@ }
    }
}

fn find_blank_line(s: &str) -> (r: Option<usize>)
    ensures
        r matches Some(i) ==> first_blank_line_from(s@, 0) == Some(i as nat) && i + 4 <= s@.len(),
        r is None ==> first_blank_line_from(s@, 0) is None,
{
    let n = s.unicode_len();
    let mut i: usize = 0;
    while n >= 4 && i <= n - 4
        invariant
            n == s@.len(),
            first_blank_line_from(s@, 0) == first_blank_line_from(s@, i as nat),
            n >= 4 ==> i <= n - 3,
        decreases n - i,
    {
        if s.get_char(i) == '\r' && s.get_char(i + 1) == '\n' && s.get_char(i + 2) == '\r'
            && s.get_char(i + 3) == '\n' {
            assert(s@.subrange(i as int, i + 4) =~= blank_line());
            return Some(i);
        }
        assert(!blank_line_at(s@, i as int)) by {
            if blank_line_at(s@, i as int) {
                assert(s@.subrange(i as int, i + 4)[0] == s@[i as int]);
                assert(s@.subrange(i as int, i + 4)[1] == s@[i + 1]);
                assert(s@.subrange(i as int, i + 4)[2] == s@[i + 2]);
                assert(s@.subrange(i as int, i + 4)[3] == s@[i + 3]);
            }
        }
        i += 1;
    }
    None
}

fn digit_at(s: &str, i: usize) -> (r: Option<i32>)
    requires
        i < s@.len(),
    ensures
        r matches Some(d) ==> is_digit(s@[i as int]) && d == digit_value(s@[i as int]),
        r is None ==> !is_digit(s@[i as int]),
{
    let c = s.get_char(i);
    if '0' <= c && c <= '9' {
        Some((c as u32 - '0' as u32) as i32)
    } else {
        None
    }
}

impl APIResult {
    /// Parses the raw response to `request`: its status code and its body.
    pub fn new(request: &Request, raw_response: &str) -> (r: Result<APIResult, ClientError>)
        ensures
            outcome(r) == parse_response(request@.path, raw_response@),
    {
        let n = raw_response.unicode_len();
        if n < 12 {
            return Err(ClientError::MalformedResponse { part: MalformedPart::StatusCode });
        }
        let code = match (digit_at(raw_response, 9), digit_at(raw_response, 10), digit_at(raw_response, 11)) {
            (Some(a), Some(b), Some(c)) => 100 * a + 10 * b + c,
            _ => {
                return Err(ClientError::MalformedResponse { part: MalformedPart::StatusCode });
            },
        };
        match find_blank_line(raw_response) {
            Some(i) => {
                let body = raw_response.substring_char(i + 4, n);
                assert(body@ =~= raw_response@.skip(i + 4));
                Ok(APIResult { request_path: request.path_string(), result_code: code, result_body: String::from_str(body) })
            },
            None => Err(ClientError::MalformedResponse { part: MalformedPart::Separator }),
        }
    }

    pub fn path(self) -> (r: String)
        ensures
            r@ == self@.path,
    {
        self.request_path
    }

    pub fn code(&self) -> (r: i32)
        ensures
            r == self@.code,
    {
        self.result_code
    }

    pub fn has_body(&self) -> (r: bool)
        ensures
            r == (self@.body.len() > 0),
    {
        self.result_body.as_str().unicode_len() > 0
    }

    pub fn body_text(&self) -> (r: &str)
        ensures
            r@ == self@.body,
    {
        self.result_body.as_str()
    }
}

/// Why member `key` could not be read from `text`.
pub open spec fn member_failure(text: Seq<char>, key: Seq<char>) -> Seq<char> {
    match json_syntax_error_of(text) {
        Some(e) => e,
        None => "missing or invalid field `"@ + key + "`"@,
    }
}

pub(crate) fn member_failure_message(text: &str, key: &str) -> (r: String)
    ensures
        r@ == member_failure(text@, key@),
{
    match json_syntax_error(text) {
        Some(e) => e,
        None => {
            let mut m = String::from_str("missing or invalid field `");
            m.append(key);
            m.append("`");
            m
        },
    }
}

pub open spec fn message_key() -> Seq<char> {
    "message"@
}

/// The peer's message in `body`: none where the body is not a JSON document.
pub open spec fn readable_message(body: Seq<char>) -> Option<Seq<char>> {
    if json_syntax_error_of(body) is Some {
        None
    } else {
        json_str_member_of(body, message_key())
    }
}

fn read_message(body: &str) -> (r: Option<String>)
    ensures
        opt_view(r) == readable_message(body@),
{
    json_str_member(body, "message")
}

/// The payload of an error response.
pub struct APIError {
    pub message: String,
}

impl APIError {
    /// Reads the payload `{"message": ...}` from `text`, or says why it cannot.
    pub fn from_body(text: &str) -> (r: Result<APIError, String>)
        ensures
            match r {
                Ok(e) => readable_message(text@) == Some(e.message@),
                Err(f) => readable_message(text@) is None && f@ == member_failure(text@, message_key()),
            },
    {
        match read_message(text) {
            Some(message) => Ok(APIError { message }),
            None => Err(member_failure_message(text, "message")),
        }
    }
}

/// The diagnostic for a body of the call to `path` that does not have the
/// expected shape, `failure` saying why: the peer's own error message where
/// the body carries one, else a message that embeds `failure`.
pub open spec fn call_failure_message(path: Seq<char>, body: Seq<char>, failure: Seq<char>) -> Seq<char> {
    "Failed to call '"@ + path + "': "@ + if body.len() > 0 {
        match readable_message(body) {
            Some(m) => m,
            None => "could not deserialize response: "@ + failure,
        }
    } else {
        failure
    }
}

/// The message of an error status: the peer's own where the body carries
/// one, else a diagnostic that embeds why it could not be read.
pub open spec fn status_error_message(path: Seq<char>, body: Seq<char>) -> Seq<char> {
    match readable_message(body) {
        Some(m) => m,
        None => call_failure_message(path, body, member_failure(body, message_key())),
    }
}

/// A parsed response with an error status becomes an `ApiError`.
pub open spec fn check_status(r: Result<ResponseModel, ClientErrorModel>) -> Result<ResponseModel, ClientErrorModel> {
    match r {
        Ok(a) => if a.code >= 400 {
            Err(ClientErrorModel::ApiError { status_code: a.code, message: status_error_message(a.path, a.body) })
        } else {
            Ok(a)
        },
        Err(e) => Err(e),
    }
}

impl APIResult {
    /// The error for a body that does not have the shape the caller expects.
    pub fn body_error(&self, failure: String) -> (r: ClientError)
        ensures
            r@ == (ClientErrorModel::DeserializationError {
                path: self@.path,
                message: call_failure_message(self@.path, self@.body, failure@),
            }),
    {
        let mut message = String::from_str("Failed to call '");
        message.append(self.request_path.as_str());
        message.append("': ");
        if self.has_body() {
            match read_message(self.result_body.as_str()) {
                Some(m) => message.append(m.as_str()),
                None => {
                    message.append("could not deserialize response: ");
                    message.append(failure.as_str());
                },
            }
        } else {
            message.append(failure.as_str());
        }
        assert(message@ =~= call_failure_message(self@.path, self@.body, failure@));
        ClientError::DeserializationError { path: self.request_path.clone(), message }
    }
}

/// The client of the control socket at one route.
pub struct API {
    route: String,
}

impl View for API {
    type V = Seq<char>;

    closed spec fn view(&self) -> Seq<char> {
        self.route@
    }
}

impl API {
    pub fn new(route: String) -> (r: API)
        ensures
            r@ == route@,
    {
        API { route }
    }

    /// The address of the peer: `host:port` or a socket path.
    pub fn route(&self) -> (r: &str)
        ensures
            r@ == self@,
    {
        self.route.as_str()
    }

    /// The response to `request`, from `raw_response`, all that the peer at
    /// the route sent back on the connection that carried the request.
    pub fn request(&mut self, request: &Request, raw_response: &str) -> (r: Result<APIResult, ClientError>)
        ensures
            *final(self) == *old(self),
            outcome(r) == parse_response(request@.path, raw_response@),
    {
        APIResult::new(request, raw_response)
    }

    /// As `request`, but an error status becomes an `ApiError` carrying the
    /// status code and the peer's message.
    pub fn request_with_err(&mut self, request: &Request, raw_response: &str) -> (r: Result<APIResult, ClientError>)
        ensures
            *final(self) == *old(self),
            outcome(r) == check_status(parse_response(request@.path, raw_response@)),
    {
        let result = self.request(request, raw_response)?;
        if result.result_code >= 400 {
            let message = match APIError::from_body(result.result_body.as_str()) {
                Ok(e) => e.message,
                Err(failure) => match result.body_error(failure) {
                    ClientError::DeserializationError { message, .. } => message,
                    _ => String::new(),
                },
            };
            Err(ClientError::ApiError { status_code: result.result_code, message })
        } else {
            Ok(result)
        }
    }
}

/// A response without a blank line after its head is malformed: it never
/// reads as a response with an empty body.
pub proof fn missing_blank_line_is_malformed(path: Seq<char>, raw: Seq<char>)
    requires
        first_blank_line_from(raw, 0) is None,
    ensures
        parse_response(path, raw) is Err,
        status_of(raw) is Some ==> parse_response(path, raw) == Err::<ResponseModel, ClientErrorModel>(
            ClientErrorModel::MalformedResponse { part: MalformedPart::Separator },
        ),
{
}

/// An error status whose body carries a message becomes an `ApiError`
/// with that status code and that message.
pub proof fn error_status_carries_message(path: Seq<char>, raw: Seq<char>, message: Seq<char>)
    requires
        status_of(raw) matches Some(code) && code >= 400,
        body_of(raw) matches Some(body) && readable_message(body) == Some(message),
    ensures
        check_status(parse_response(path, raw)) == Err::<ResponseModel, ClientErrorModel>(
            ClientErrorModel::ApiError { status_code: status_of(raw)->0, message },
        ),
{
}

/// An error status whose body carries no message becomes an `ApiError`
/// with that status code and a message that names the path and embeds why
/// no message could be read.
pub proof fn error_status_without_message(path: Seq<char>, raw: Seq<char>)
    requires
        status_of(raw) matches Some(code) && code >= 400,
        body_of(raw) matches Some(body) && body.len() > 0 && readable_message(body) is None,
    ensures
        check_status(parse_response(path, raw)) == Err::<ResponseModel, ClientErrorModel>(
            ClientErrorModel::ApiError {
                status_code: status_of(raw)->0,
                message: "Failed to call '"@ + path + "': "@ + "could not deserialize response: "@
                    + member_failure(body_of(raw)->0, message_key()),
            },
        ),
{
    let body = body_of(raw)->0;
    assert(status_error_message(path, body) =~= "Failed to call '"@ + path + "': "@
        + "could not deserialize response: "@ + member_failure(body, message_key()));
}

/// An error status whose body is not JSON becomes an `ApiError` with that
/// status code and a message that names the path and embeds the parser's
/// own report on the body.
pub proof fn error_status_with_invalid_body(path: Seq<char>, raw: Seq<char>)
    requires
        status_of(raw) matches Some(code) && code >= 400,
        body_of(raw) matches Some(body) && body.len() > 0 && json_syntax_error_of(body) is Some,
    ensures
        check_status(parse_response(path, raw)) == Err::<ResponseModel, ClientErrorModel>(
            ClientErrorModel::ApiError {
                status_code: status_of(raw)->0,
                message: "Failed to call '"@ + path + "': "@ + "could not deserialize response: "@
                    + json_syntax_error_of(body_of(raw)->0)->0,
            },
        ),
{
    error_status_without_message(path, raw);
}

} // verus!
