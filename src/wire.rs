//! Rendering of logical requests into the text sent on the wire.

use vstd::prelude::*;
use vstd::string::*;
use vstd::utf8::*;

verus! {

/// The characters of the decimal digit `d`.
pub open spec fn digit_char(d: nat) -> char {
    if d == 0 { '0' } else if d == 1 { '1' } else if d == 2 { '2' } else if d == 3 { '3' }
    else if d == 4 { '4' } else if d == 5 { '5' } else if d == 6 { '6' } else if d == 7 { '7' }
    else if d == 8 { '8' } else { '9' }
}

/// The decimal representation of `n`, without leading zeros.
pub open spec fn decimal(n: nat) -> Seq<char>
    decreases n,
{
    if n < 10 {
        seq![digit_char(n)]
    } else {
        decimal(n / 10) + seq![digit_char(n % 10)]
    }
}

fn digit_str(d: usize) -> (r: &'static str)
    requires
        d < 10,
    ensures
        r@ == seq![digit_char(d as nat)],
{
    proof {
        reveal_strlit("0");
        reveal_strlit("1");
        reveal_strlit("2");
        reveal_strlit("3");
        reveal_strlit("4");
        reveal_strlit("5");
        reveal_strlit("6");
        reveal_strlit("7");
        reveal_strlit("8");
        reveal_strlit("9");
    }
    match d {
        0 => "0",
        1 => "1",
        2 => "2",
        3 => "3",
        4 => "4",
        5 => "5",
        6 => "6",
        7 => "7",
        8 => "8",
        _ => "9",
    }
}

/// Renders `n` in decimal.
pub fn decimal_string(n: usize) -> (r: String)
    ensures
        r@ == decimal(n as nat),
    decreases n,
{
    if n < 10 {
        String::from_str(digit_str(n))
    } else {
        let mut s = decimal_string(n / 10);
        s.append(digit_str(n % 10));
        s
    }
}

/// The HTTP-style verb of a request.
#[derive(PartialEq, Eq, Structural, Clone, Copy, Debug)]
pub enum Method {
    GET,
    POST,
}

/// The verb as it appears on the request line.
pub open spec fn method_text(m: Method) -> Seq<char> {
    match m {
        Method::GET => seq!['G', 'E', 'T'],
        Method::POST => seq!['P', 'O', 'S', 'T'],
    }
}

pub open spec fn crlf() -> Seq<char> {
    seq!['\r', '\n']
}

/// The separator between the head and the body of a message.
pub open spec fn blank_line() -> Seq<char> {
    seq!['\r', '\n', '\r', '\n']
}

pub open spec fn content_length_key() -> Seq<char> {
    seq!['C', 'o', 'n', 't', 'e', 'n', 't', '-', 'L', 'e', 'n', 'g', 't', 'h']
}

/// Number of bytes that `s` takes once encoded as UTF-8.
pub open spec fn byte_len(s: Seq<char>) -> nat {
    encode_utf8(s).len()
}

/// Header entries hold each name at most once.
pub open spec fn unique_names(h: Seq<(Seq<char>, Seq<char>)>) -> bool {
    forall|i: int, j: int| 0 <= i < j < h.len() ==> #[trigger] h[i].0 != #[trigger] h[j].0
}

/// The header entries read as a mapping from name to value.
pub open spec fn header_map(h: Seq<(Seq<char>, Seq<char>)>) -> Map<Seq<char>, Seq<char>>
    decreases h.len(),
{
    if h.len() == 0 {
        Map::empty()
    } else {
        header_map(h.drop_last()).insert(h.last().0, h.last().1)
    }
}

/// Entries after setting `name` to `value`: an entry of that name is
/// replaced in place, otherwise one is appended.
pub open spec fn with_header(h: Seq<(Seq<char>, Seq<char>)>, name: Seq<char>, value: Seq<char>) -> Seq<(Seq<char>, Seq<char>)> {
    if exists|i: int| 0 <= i < h.len() && h[i].0 == name {
        let i = choose|i: int| 0 <= i < h.len() && h[i].0 == name;
        h.update(i, (name, value))
    } else {
        h.push((name, value))
    }
}

/// The header lines: each entry rendered as `name: value`, concatenated in order.
pub open spec fn header_lines(h: Seq<(Seq<char>, Seq<char>)>) -> Seq<char>
    decreases h.len(),
{
    if h.len() == 0 {
        Seq::empty()
    } else {
        header_lines(h.drop_last()) + h.last().0 + seq![':', ' '] + h.last().1
    }
}

/// What a request is, apart from its representation.
pub struct RequestModel {
    pub method: Method,
    pub path: Seq<char>,
    pub headers: Seq<(Seq<char>, Seq<char>)>,
    pub body: Seq<char>,
}

impl RequestModel {
    pub open spec fn wf(self) -> bool {
        unique_names(self.headers)
    }

    /// The request after its body is set: the body and its byte length as `Content-Length`.
    pub open spec fn with_body(self, body: Seq<char>) -> RequestModel {
        RequestModel {
            body,
            headers: with_header(self.headers, content_length_key(), decimal(byte_len(body))),
            ..self
        }
    }
}

/// `<METHOD> <PATH> HTTP/1.0\r\n<header-lines>\r\n\r\n<body>\r\n`
pub open spec fn wire_text(r: RequestModel) -> Seq<char> {
    method_text(r.method) + seq![' '] + r.path + seq![' ', 'H', 'T', 'T', 'P', '/', '1', '.', '0']
        + crlf() + header_lines(r.headers) + blank_line() + r.body + crlf()
}

/// A logical request, built by a command before it is sent once.
pub struct Request {
    method: Method,
    path: String,
    headers: Vec<(String, String)>,
    body: String,
}

impl View for Request {
    type V = RequestModel;

    closed spec fn view(&self) -> RequestModel {
        RequestModel {
            method: self.method,
            path: self.path@,
            headers: self.headers@.map_values(|e: (String, String)| (e.0@, e.1@)),
            body: self.body@,
        }
    }
}

impl Request {
    /// A `GET` request for `path` with no headers and an empty body.
    pub fn new(path: String) -> (r: Request)
        ensures
            r@ == (RequestModel { method: Method::GET, path: path@, headers: Seq::empty(), body: Seq::empty() }),
    {
        let r = Request { method: Method::GET, path, headers: Vec::new(), body: String::new() };
        assert(r@.headers =~= Seq::empty());
        r
    }

    pub fn set_method(&mut self, method: Method)
        ensures
            final(self)@ == (RequestModel { method, ..old(self)@ }),
    {
        self.method = method;
    }

    pub fn set_path(&mut self, path: String)
        ensures
            final(self)@ == (RequestModel { path: path@, ..old(self)@ }),
    {
        self.path = path;
    }

    /// Sets header `field` to `value`, replacing an earlier value of that name.
    pub fn set_header(&mut self, field: &str, value: String)
        requires
            old(self)@.wf(),
        ensures
            final(self)@ == (RequestModel { headers: with_header(old(self)@.headers, field@, value@), ..old(self)@ }),
            final(self)@.wf(),
    {
        let ghost h0 = self@.headers;
        let key = String::from_str(field);
        let n = self.headers.len();
        let mut i: usize = 0;
        while i < n
            invariant
                n == self.headers.len(),
                i <= n,
                self@ == old(self)@,
                h0 == self@.headers,
                key@ == field@,
                unique_names(h0),
                forall|j: int| 0 <= j < i ==> h0[j].0 != field@,
            decreases n - i,
        {
            if self.headers[i].0 == key {
                let ghost k = i as int;
                assert(h0[k].0 == field@);
                self.headers.set(i, (key, value));
                proof {
                    let c = choose|c: int| 0 <= c < h0.len() && h0[c].0 == field@;
                    assert(c == k);
                    assert(self@.headers =~= h0.update(k, (field@, value@)));
                }
                return;
            }
            i += 1;
        }
        self.headers.push((key, value));
        proof {
            assert(self@.headers =~= h0.push((field@, value@)));
            assert(!exists|c: int| 0 <= c < h0.len() && h0[c].0 == field@);
        }
    }

    /// Sets the body, and `Content-Length` to its length in bytes.
    pub fn set_body(&mut self, body: String)
        requires
            old(self)@.wf(),
        ensures
            final(self)@ == old(self)@.with_body(body@),
            final(self)@.wf(),
    {
        let len = body.as_str().as_bytes().len();
        self.body = body;
        let length = decimal_string(len);
        self.set_header("Content-Length", length);
        proof {
            reveal_strlit("Content-Length");
            assert("Content-Length"@ =~= content_length_key());
        }
    }

    pub fn path_string(&self) -> (r: String)
        ensures
            r@ == self@.path,
    {
        self.path.clone()
    }

    /// The exact text sent on the wire for this request.
    pub fn as_string(&self) -> (r: String)
        ensures
            r@ == wire_text(self@),
    {
        let mut out = match self.method {
            Method::GET => String::from_str("GET"),
            Method::POST => String::from_str("POST"),
        };
        proof {
            reveal_strlit("GET");
            reveal_strlit("POST");
            reveal_strlit(" ");
            reveal_strlit(" HTTP/1.0\r\n");
            reveal_strlit(": ");
            reveal_strlit("\r\n\r\n");
            reveal_strlit("\r\n");
        }
        out.append(" ");
        out.append(self.path.as_str());
        out.append(" HTTP/1.0\r\n");
        let ghost head = out@;
        let ghost h = self@.headers;
        let n = self.headers.len();
        let mut i: usize = 0;
        while i < n
            invariant
                n == self.headers.len(),
                h == self@.headers,
                i <= n,
                out@ == head + header_lines(h.take(i as int)),
            decreases n - i,
        {
            assert(h.take(i as int + 1).drop_last() =~= h.take(i as int));
            assert(h.take(i as int + 1).last() == h[i as int]);
            assert(self.headers@[i as int].0@ == h[i as int].0);
            out.append(self.headers[i].0.as_str());
            out.append(": ");
            out.append(self.headers[i].1.as_str());
            proof {
                reveal_strlit(": ");
                assert(out@ =~= head + header_lines(h.take(i as int + 1)));
            }
            i += 1;
        }
        assert(h.take(n as int) =~= h);
        out.append("\r\n\r\n");
        out.append(self.body.as_str());
        out.append("\r\n");
        assert(out@ =~= wire_text(self@));
        out
    }
}

proof fn lemma_header_map_update(h: Seq<(Seq<char>, Seq<char>)>, i: int, value: Seq<char>)
    requires
        unique_names(h),
        0 <= i < h.len(),
    ensures
        header_map(h.update(i, (h[i].0, value))) == header_map(h).insert(h[i].0, value),
    decreases h.len(),
{
    let k = h[i].0;
    let u = h.update(i, (k, value));
    if i == h.len() - 1 {
        assert(u.drop_last() =~= h.drop_last());
        assert(header_map(u) =~= header_map(h).insert(k, value));
    } else {
        let d = h.drop_last();
        assert(u.drop_last() =~= d.update(i, (k, value)));
        assert(unique_names(d));
        lemma_header_map_update(d, i, value);
        assert(h.last().0 != k);
        assert(header_map(u) =~= header_map(h).insert(k, value));
    }
}

/// Setting a header makes the mapping read `value` at `name` and leaves
/// every other name as it was.
pub proof fn lemma_with_header(h: Seq<(Seq<char>, Seq<char>)>, name: Seq<char>, value: Seq<char>)
    requires
        unique_names(h),
    ensures
        header_map(with_header(h, name, value)) == header_map(h).insert(name, value),
        unique_names(with_header(h, name, value)),
{
    if exists|i: int| 0 <= i < h.len() && h[i].0 == name {
        let i = choose|i: int| 0 <= i < h.len() && h[i].0 == name;
        lemma_header_map_update(h, i, value);
    } else {
        assert(header_map(h.push((name, value))) =~= header_map(h).insert(name, value)) by {
            assert(h.push((name, value)).drop_last() =~= h);
        }
    }
}

/// Once a body is set, the request announces in `Content-Length` exactly
/// the number of UTF-8 bytes of the body that its wire text then carries
/// last, before the closing line break.
pub proof fn content_length_matches_body(r: RequestModel, body: Seq<char>)
    requires
        r.wf(),
    ensures
        header_map(r.with_body(body).headers).contains_key(content_length_key()),
        header_map(r.with_body(body).headers)[content_length_key()] == decimal(byte_len(body)),
        ({
            let w = wire_text(r.with_body(body));
            w.subrange(w.len() - body.len() - 2, w.len() as int) == body + crlf()
        }),
{
    let s = r.with_body(body);
    lemma_with_header(r.headers, content_length_key(), decimal(byte_len(body)));
    let w = wire_text(s);
    let front = method_text(s.method) + seq![' '] + s.path + seq![' ', 'H', 'T', 'T', 'P', '/', '1', '.', '0']
        + crlf() + header_lines(s.headers) + blank_line();
    assert(w =~= front + (body + crlf()));
    assert(w.subrange(w.len() - body.len() - 2, w.len() as int) =~= body + crlf());
}

} // verus!
