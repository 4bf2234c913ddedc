//! The response model and its wire form.
use vstd::prelude::*;
use vstd::string::StringExecFns;
use vstd::utf8::encode_utf8;
use crate::strmap::{StringMap, insert_entry};
use crate::text::{decimal, decimal_string};

verus! {

/// The closed set of status codes that a response can carry.
#[derive(Clone, Copy, Debug, PartialEq, Eq, Structural)]
pub enum StatusCode {
    Okay,
    Created,
    Accepted,
    NoContent,
    SeeOther,
    BadRequest,
    Forbidden,
    NotFound,
    MethodNotAllowed,
    InternalServerError,
}

pub open spec fn code_of(s: StatusCode) -> usize {
    match s {
        StatusCode::Okay => 200,
        StatusCode::Created => 201,
        StatusCode::Accepted => 202,
        StatusCode::NoContent => 204,
        StatusCode::SeeOther => 303,
        StatusCode::BadRequest => 400,
        StatusCode::Forbidden => 403,
        StatusCode::NotFound => 404,
        StatusCode::MethodNotAllowed => 405,
        StatusCode::InternalServerError => 500,
    }
}

pub open spec fn reason_of(s: StatusCode) -> Seq<char> {
    match s {
        StatusCode::Okay => "OK"@,
        StatusCode::Created => "Created"@,
        StatusCode::Accepted => "Accepted"@,
        StatusCode::NoContent => "No Content"@,
        StatusCode::SeeOther => "See Other"@,
        StatusCode::BadRequest => "Bad Request"@,
        StatusCode::Forbidden => "Forbidden"@,
        StatusCode::NotFound => "Not Found"@,
        StatusCode::MethodNotAllowed => "Method Not Allowed"@,
        StatusCode::InternalServerError => "Internal Server Error"@,
    }
}

/// The status that a numeric code stands for, if it is one of the set.
pub open spec fn status_for(code: usize) -> Option<StatusCode> {
    if code == 200 {
        Some(StatusCode::Okay)
    } else if code == 201 {
        Some(StatusCode::Created)
    } else if code == 202 {
        Some(StatusCode::Accepted)
    } else if code == 204 {
        Some(StatusCode::NoContent)
    } else if code == 303 {
        Some(StatusCode::SeeOther)
    } else if code == 400 {
        Some(StatusCode::BadRequest)
    } else if code == 403 {
        Some(StatusCode::Forbidden)
    } else if code == 404 {
        Some(StatusCode::NotFound)
    } else if code == 405 {
        Some(StatusCode::MethodNotAllowed)
    } else if code == 500 {
        Some(StatusCode::InternalServerError)
    } else {
        None
    }
}

impl StatusCode {
    /// The numeric code.
    pub fn code(&self) -> (r: usize)
        ensures
            r == code_of(*self),
    {
        match self {
            StatusCode::Okay => 200,
            StatusCode::Created => 201,
            StatusCode::Accepted => 202,
            StatusCode::NoContent => 204,
            StatusCode::SeeOther => 303,
            StatusCode::BadRequest => 400,
            StatusCode::Forbidden => 403,
            StatusCode::NotFound => 404,
            StatusCode::MethodNotAllowed => 405,
            StatusCode::InternalServerError => 500,
        }
    }

    /// The fixed reason text.
    pub fn reason(&self) -> (r: String)
        ensures
            r@ == reason_of(*self),
    {
        match self {
            StatusCode::Okay => "OK".to_owned(),
            StatusCode::Created => "Created".to_owned(),
            StatusCode::Accepted => "Accepted".to_owned(),
            StatusCode::NoContent => "No Content".to_owned(),
            StatusCode::SeeOther => "See Other".to_owned(),
            StatusCode::BadRequest => "Bad Request".to_owned(),
            StatusCode::Forbidden => "Forbidden".to_owned(),
            StatusCode::NotFound => "Not Found".to_owned(),
            StatusCode::MethodNotAllowed => "Method Not Allowed".to_owned(),
            StatusCode::InternalServerError => "Internal Server Error".to_owned(),
        }
    }

    /// The status of a numeric code; `None` outside the set.
    pub fn from_code(code: usize) -> (r: Option<StatusCode>)
        ensures
            r == status_for(code),
    {
        match code {
            200 => Some(StatusCode::Okay),
            201 => Some(StatusCode::Created),
            202 => Some(StatusCode::Accepted),
            204 => Some(StatusCode::NoContent),
            303 => Some(StatusCode::SeeOther),
            400 => Some(StatusCode::BadRequest),
            403 => Some(StatusCode::Forbidden),
            404 => Some(StatusCode::NotFound),
            405 => Some(StatusCode::MethodNotAllowed),
            500 => Some(StatusCode::InternalServerError),
            _ => None,
        }
    }
}

/// What a response holds.
pub struct ResponseView {
    pub protocol: Seq<char>,
    pub status: Option<StatusCode>,
    pub headers: Seq<(Seq<char>, Seq<char>)>,
    pub body: Option<Seq<u8>>,
}

/// A response: protocol label, status, headers (one value per name, in
/// insertion order) and an optional body.
pub struct Response {
    protocol: String,
    status: Option<StatusCode>,
    headers: StringMap,
    body: Option<Vec<u8>>,
}

pub open spec fn opt_bytes(b: Option<Vec<u8>>) -> Option<Seq<u8>> {
    match b {
        Some(v) => Some(v@),
        None => None,
    }
}

impl View for Response {
    type V = ResponseView;

    closed spec fn view(&self) -> ResponseView {
        ResponseView {
            protocol: self.protocol@,
            status: self.status,
            headers: self.headers@,
            body: opt_bytes(self.body),
        }
    }
}

/// `name: value`.
pub open spec fn header_line(h: (Seq<char>, Seq<char>)) -> Seq<char> {
    h.0 + ": "@ + h.1
}

/// The header lines joined by CRLF.
pub open spec fn header_block(hs: Seq<(Seq<char>, Seq<char>)>) -> Seq<char>
    decreases hs.len(),
{
    if hs.len() == 0 {
        Seq::empty()
    } else if hs.len() == 1 {
        header_line(hs[0])
    } else {
        header_block(hs.drop_last()) + "\r\n"@ + header_line(hs.last())
    }
}

/// Status line, header lines and the blank line that ends them.
pub open spec fn head_text(protocol: Seq<char>, s: StatusCode, hs: Seq<(Seq<char>, Seq<char>)>) -> Seq<char> {
    protocol + " "@ + decimal(code_of(s) as nat) + " "@ + reason_of(s) + "\r\n"@ + header_block(hs)
        + "\r\n\r\n"@
}

/// The bytes sent for a response that has a status: the UTF-8 head, then
/// the body if there is one.
pub open spec fn wire(v: ResponseView) -> Seq<u8> {
    encode_utf8(head_text(v.protocol, v.status->0, v.headers)) + match v.body {
        Some(b) => b,
        None => Seq::empty(),
    }
}

pub open spec fn fresh_response() -> ResponseView {
    ResponseView {
        protocol: "HTTP/1.1"@,
        status: None,
        headers: Seq::empty(),
        body: None,
    }
}

impl Default for Response {
    /// A response with protocol `HTTP/1.1`, no status, no headers, no body.
    fn default() -> (r: Response)
        ensures
            r@ == fresh_response(),
    {
        Response { protocol: "HTTP/1.1".to_owned(), status: None, headers: StringMap::new(), body: None }
    }
}

impl Response {
    /// Consumes the response and returns it in wire form:
    /// `<protocol> <code> <reason>\r\n`, the header lines joined by `\r\n`,
    /// `\r\n\r\n`, then the body if there is one.
    pub fn stringify(self) -> (r: Vec<u8>)
        requires
            self@.status is Some,
        ensures
            r@ == wire(self@),
    {
        let ghost v = self@;
        let status = self.status.unwrap();
        let mut head = self.protocol;
        head.append(" ");
        let code = decimal_string(status.code());
        head.append(code.as_str());
        head.append(" ");
        let reason = status.reason();
        head.append(reason.as_str());
        head.append("\r\n");
        let entries = self.headers.entries();
        let mut i: usize = 0;
        while i < entries.len()
            invariant
                0 <= i <= entries@.len(),
                crate::text::pairs_view(entries@) == v.headers,
                head@ == v.protocol + " "@ + decimal(code_of(status) as nat) + " "@ + reason_of(status)
                    + "\r\n"@ + header_block(v.headers.take(i as int)),
            decreases entries@.len() - i,
        {
            let ghost prev = head@;
            assert(v.headers.take(i + 1).drop_last() =~= v.headers.take(i as int));
            if i > 0 {
                head.append("\r\n");
            }
            let entry = &entries[i];
            head.append(entry.0.as_str());
            head.append(": ");
            head.append(entry.1.as_str());
            assert(head@ =~= prev + (if i > 0 { "\r\n"@ } else { Seq::empty() }) + header_line(v.headers[i as int]));
            i += 1;
        }
        assert(v.headers.take(entries@.len() as int) =~= v.headers);
        head.append("\r\n\r\n");
        let mut out: Vec<u8> = vstd::slice::slice_to_vec(head.as_str().as_bytes());
        match self.body {
            Some(b) => {
                let mut body = b;
                out.append(&mut body);
            },
            None => {},
        }
        out
    }

    /// Sets the status from a numeric code; a code outside the set leaves
    /// the response without a status.
    pub fn set_status(&mut self, code: usize)
        ensures
            final(self)@ == (ResponseView { status: status_for(code), ..old(self)@ }),
    {
        self.status = StatusCode::from_code(code);
    }

    /// The status, if one is set.
    pub fn get_status(&self) -> (r: Option<StatusCode>)
        ensures
            r == self@.status,
    {
        self.status
    }

    pub fn get_headers(&self) -> (r: &StringMap)
        ensures
            r@ == self@.headers,
    {
        &self.headers
    }

    /// The body, if any.
    pub fn get_body(&self) -> (r: Option<&Vec<u8>>)
        ensures
            match r {
                Some(b) => self@.body == Some(b@),
                None => self@.body is None,
            },
    {
        match &self.body {
            Some(b) => Some(b),
            None => None,
        }
    }

    /// Loads the bytes to be sent to the client.
    pub fn set_body(&mut self, contents: Option<Vec<u8>>)
        ensures
            final(self)@ == (ResponseView { body: opt_bytes(contents), ..old(self)@ }),
    {
        self.body = contents;
    }

    /// Sets a header; a header of the same name is replaced in place.
    pub fn add_header(&mut self, header: (String, String))
        ensures
            final(self)@ == (ResponseView {
                headers: insert_entry(old(self)@.headers, header.0@, header.1@),
                ..old(self)@
            }),
    {
        let (key, value) = header;
        self.headers.insert(key, value);
    }

    /// Sets the protocol label.
    pub fn set_protocol(&mut self, proto: String)
        ensures
            final(self)@ == (ResponseView { protocol: proto@, ..old(self)@ }),
    {
        self.protocol = proto;
    }
}

} // verus!
