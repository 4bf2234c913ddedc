//! Method routing. Serving a request is a short exchange with the file
//! tree: the router says which file operation it needs next, whoever holds
//! the file tree performs it and hands back the outcome, until the router
//! has a response (or gives the request up).
//!
//! Requests on the same path are not coordinated with one another: two
//! exchanges running at once may interleave their file operations, and each
//! answers from the outcomes it was handed.
use vstd::prelude::*;
use vstd::string::StringExecFns;
use vstd::utf8::encode_utf8;
use crate::http::HttpMethod;
use crate::request::Request;
use crate::response::{Response, ResponseView, StatusCode, opt_bytes};
use crate::strmap::lookup;
use crate::paths::{canonical, canonical_path};
use crate::text::{decimal, decimal_string};

verus! {

/// What `httpdate::fmt_http_date` makes of the time `secs` seconds after
/// the Unix epoch.
pub uninterp spec fn http_date_text(secs: nat) -> Seq<char>;

/// The first second of the year 10000, which `httpdate` cannot format.
pub const DATE_LIMIT: u64 = 253402300800;

/// Relies on `httpdate::fmt_http_date`: the IMF-fixdate text of a time,
/// which depends on the time alone. It panics from the year 10000 on.
#[verifier::external_body]
fn http_date(secs: u64) -> (r: String)
    requires
        secs < DATE_LIMIT,
    ensures
        r@ == http_date_text(secs as nat),
{
    httpdate::fmt_http_date(std::time::UNIX_EPOCH + std::time::Duration::from_secs(secs))
}

/// What `Path::extension` finds in a path: the text after the last `.` of
/// the file name, if there is one.
pub uninterp spec fn extension_of(p: Seq<char>) -> Option<Seq<char>>;

/// Relies on `std::path::Path::extension`, which depends on the path's text
/// alone.
#[verifier::external_body]
fn path_extension(p: &str) -> (r: Option<String>)
    ensures
        match r {
            Some(e) => extension_of(p@) == Some(e@),
            None => extension_of(p@) is None,
        },
{
    match std::path::Path::new(p).extension() {
        Some(e) => e.to_str().map(str::to_owned),
        None => None,
    }
}

/// The media type of a file extension.
pub open spec fn media_type(ext: Seq<char>) -> Seq<char> {
    if ext == "html"@ {
        "text/html"@
    } else if ext == "json"@ {
        "application/json"@
    } else if ext == "js"@ || ext == "mjs"@ {
        "text/javascript"@
    } else if ext == "css"@ {
        "text/css"@
    } else if ext == "jpeg"@ || ext == "jpg"@ {
        "image/jpeg"@
    } else if ext == "png"@ {
        "image/png"@
    } else if ext == "txt"@ {
        "text/plain"@
    } else if ext == "md"@ {
        "text/markdown"@
    } else {
        "application/octet-stream"@
    }
}

/// The media type of a file path; a path without extension is
/// `application/octet-stream`.
pub open spec fn media_type_of(path: Seq<char>) -> Seq<char> {
    match extension_of(path) {
        Some(e) => media_type(e),
        None => "application/octet-stream"@,
    }
}

/// The media type of a file extension.
pub fn media_type_for(ext: &String) -> (r: String)
    ensures
        r@ == media_type(ext@),
{
    if *ext == "html".to_owned() {
        "text/html".to_owned()
    } else if *ext == "json".to_owned() {
        "application/json".to_owned()
    } else if *ext == "js".to_owned() || *ext == "mjs".to_owned() {
        "text/javascript".to_owned()
    } else if *ext == "css".to_owned() {
        "text/css".to_owned()
    } else if *ext == "jpeg".to_owned() || *ext == "jpg".to_owned() {
        "image/jpeg".to_owned()
    } else if *ext == "png".to_owned() {
        "image/png".to_owned()
    } else if *ext == "txt".to_owned() {
        "text/plain".to_owned()
    } else if *ext == "md".to_owned() {
        "text/markdown".to_owned()
    } else {
        "application/octet-stream".to_owned()
    }
}

/// The `Content-Type` header for a file path, from its extension.
pub fn get_content_type(path: &str) -> (r: (String, String))
    ensures
        r.0@ == "Content-Type"@,
        r.1@ == media_type_of(path@),
{
    let value = match path_extension(path) {
        Some(e) => media_type_for(&e),
        None => "application/octet-stream".to_owned(),
    };
    ("Content-Type".to_owned(), value)
}

/// A response whose headers are exactly `hs`, in that order.
pub open spec fn reply(s: StatusCode, hs: Seq<(Seq<char>, Seq<char>)>, body: Option<Seq<u8>>) -> ResponseView {
    ResponseView { protocol: "HTTP/1.1"@, status: Some(s), headers: hs, body }
}

/// A response that carries a document, if there is one, with its type and
/// length; without one it carries the date alone.
pub open spec fn document_reply(s: StatusCode, date: Seq<char>, media: Seq<char>, doc: Option<Seq<u8>>) -> ResponseView {
    match doc {
        Some(b) => reply(
            s,
            seq![("Date"@, date), ("Content-Type"@, media), ("Content-Length"@, decimal(b.len()))],
            Some(b),
        ),
        None => reply(s, seq![("Date"@, date)], None),
    }
}

/// The methods that the server answers.
pub open spec fn allowed_methods() -> Seq<char> {
    "GET, POST, PUT, DELETE, OPTIONS"@
}

pub open spec fn options_reply(date: Seq<char>) -> ResponseView {
    reply(StatusCode::NoContent, seq![("Date"@, date), ("Allow"@, allowed_methods())], None)
}

/// The fixed page sent for a method that the server does not answer.
pub open spec fn not_allowed_page() -> Seq<char> {
    "<!DOCTYPE html><html><head><title>405 Method Not Allowed</title></head><body><h1>Method Not Allowed</h1></body></html>"@
}

pub open spec fn not_allowed_reply(date: Seq<char>) -> ResponseView {
    document_reply(StatusCode::MethodNotAllowed, date, "text/html"@, Some(encode_utf8(not_allowed_page())))
}

pub open spec fn bad_request_text(message: Seq<char>) -> Seq<char> {
    "{ 'error': 'Bad request', 'message': "@ + message + " }"@
}

pub open spec fn bad_request_reply(message: Seq<char>, date: Seq<char>) -> ResponseView {
    document_reply(StatusCode::BadRequest, date, "application/json"@, Some(encode_utf8(bad_request_text(message))))
}

pub open spec fn no_content_reply(date: Seq<char>) -> ResponseView {
    reply(StatusCode::NoContent, seq![("Date"@, date)], None)
}

/// Where a successful `POST` sends the client: the sink file.
pub open spec fn sink_location() -> Seq<char> {
    sink_path()
}

pub open spec fn see_other_reply(date: Seq<char>) -> ResponseView {
    reply(
        StatusCode::SeeOther,
        seq![("Date"@, date), ("Content-Type"@, "text/plain"@), ("Location"@, sink_location())],
        None,
    )
}

/// Adds a header whose name no header of the response has yet.
fn push_header(res: &mut Response, k: &str, v: String)
    requires
        forall|i: int| 0 <= i < old(res)@.headers.len() ==> (#[trigger] old(res)@.headers[i]).0 != k@,
    ensures
        final(res)@ == (ResponseView { headers: old(res)@.headers.push((k@, v@)), ..old(res)@ }),
{
    let ghost before = res@.headers;
    res.add_header((k.to_owned(), v));
    assert(!crate::strmap::has_key(before, k@));
}

/// A response with the given status and a `Date` header alone.
fn dated(status: StatusCode, date: &String) -> (r: Response)
    ensures
        r@ == reply(status, seq![("Date"@, date@)], None),
{
    let mut res = Response::default();
    push_header(&mut res, "Date", date.clone());
    res.set_status(status.code());
    assert(res@.headers =~= seq![("Date"@, date@)]);
    res
}

/// A response carrying a document (when there is one) with its media type
/// and length.
fn document(status: StatusCode, date: &String, media: String, doc: Option<Vec<u8>>) -> (r: Response)
    ensures
        r@ == document_reply(status, date@, media@, opt_bytes(doc)),
{
    proof {
        reveal_strlit("Date");
        reveal_strlit("Content-Type");
        reveal_strlit("Content-Length");
        assert("Date"@.len() != "Content-Type"@.len());
        assert("Date"@.len() != "Content-Length"@.len());
        assert("Content-Type"@.len() != "Content-Length"@.len());
    }
    let mut res = dated(status, date);
    match doc {
        Some(b) => {
            let ghost bv = b@;
            push_header(&mut res, "Content-Type", media);
            push_header(&mut res, "Content-Length", decimal_string(b.len()));
            res.set_body(Some(b));
            assert(res@.headers =~= seq![("Date"@, date@), ("Content-Type"@, media@), ("Content-Length"@, decimal(bv.len()))]);
        },
        None => {},
    }
    res
}

/// The response to `OPTIONS`: the methods the server answers.
pub fn options(date: &String) -> (r: Response)
    ensures
        r@ == options_reply(date@),
{
    proof {
        reveal_strlit("Date");
        reveal_strlit("Allow");
        assert("Date"@.len() != "Allow"@.len());
    }
    let mut res = dated(StatusCode::NoContent, date);
    push_header(&mut res, "Allow", "GET, POST, PUT, DELETE, OPTIONS".to_owned());
    assert(res@.headers =~= seq![("Date"@, date@), ("Allow"@, allowed_methods())]);
    res
}

/// The fixed response to a method that the server does not answer.
pub fn invalid_request(date: &String) -> (r: Response)
    ensures
        r@ == not_allowed_reply(date@),
{
    let page = "<!DOCTYPE html><html><head><title>405 Method Not Allowed</title></head><body><h1>Method Not Allowed</h1></body></html>";
    let bytes = vstd::slice::slice_to_vec(page.as_bytes());
    document(StatusCode::MethodNotAllowed, date, "text/html".to_owned(), Some(bytes))
}

/// A `400` response whose JSON-like body carries `message`.
pub fn handle_bad_request(message: &str, date: &String) -> (r: Response)
    ensures
        r@ == bad_request_reply(message@, date@),
{
    let mut text = "{ 'error': 'Bad request', 'message': ".to_owned();
    text.append(message);
    text.append(" }");
    let bytes = vstd::slice::slice_to_vec(text.as_str().as_bytes());
    document(StatusCode::BadRequest, date, "application/json".to_owned(), Some(bytes))
}


/// What `String::from_utf8_lossy` makes of bytes: the text they encode,
/// each invalid sequence replaced by U+FFFD.
pub uninterp spec fn lossy_text(b: Seq<u8>) -> Seq<char>;

/// Relies on `String::from_utf8_lossy`, which depends on the bytes alone.
#[verifier::external_body]
fn utf8_lossy(b: &[u8]) -> (r: String)
    ensures
        r@ == lossy_text(b@),
{
    String::from_utf8_lossy(b).into_owned()
}

/// Form pairs written one per line as `key: value`.
pub open spec fn form_text(ps: Seq<(Seq<char>, Seq<char>)>) -> Seq<char>
    decreases ps.len(),
{
    if ps.len() == 0 {
        Seq::empty()
    } else if ps.len() == 1 {
        crate::response::header_line(ps[0])
    } else {
        form_text(ps.drop_last()) + "\n"@ + crate::response::header_line(ps.last())
    }
}

/// The pairs of a form body (`key=value` joined by `&`; a piece without
/// `=` is dropped) written one per line as `key: value`.
pub fn form_lines(text: &str) -> (r: String)
    ensures
        r@ == form_text(crate::text::form_pairs(text@)),
{
    let v = crate::text::chars_of(text);
    let pairs = crate::text::split_pairs(&v);
    let ghost ps = crate::text::pairs_view(pairs@);
    let mut out = String::new();
    let mut i: usize = 0;
    while i < pairs.len()
        invariant
            0 <= i <= pairs@.len(),
            ps == crate::text::pairs_view(pairs@),
            ps == crate::text::form_pairs(v@),
            v@ == text@,
            out@ == form_text(ps.take(i as int)),
        decreases pairs@.len() - i,
    {
        let ghost prev = out@;
        assert(ps.take(i + 1).drop_last() =~= ps.take(i as int));
        if i > 0 {
            out.append("\n");
        }
        out.append(pairs[i].0.as_str());
        out.append(": ");
        out.append(pairs[i].1.as_str());
        assert(out@ =~= prev + (if i > 0 { "\n"@ } else { Seq::empty() }) + crate::response::header_line(ps[i as int]));
        i += 1;
    }
    assert(ps.take(pairs@.len() as int) =~= ps);
    out
}

/// The file that `POST` writes to.
pub open spec fn sink_path() -> Seq<char> {
    "public/post-success.txt"@
}

pub open spec fn not_found_doc() -> Seq<char> {
    "public/error/404.html"@
}

pub open spec fn server_error_doc() -> Seq<char> {
    "public/error/500.html"@
}

/// The message of the response to a path that leaves the serving root.
pub open spec fn escape_message() -> Seq<char> {
    "Requested resource must stay under the serving root"@
}

/// The bytes that `POST` writes for a body of a given content type (read
/// without surrounding white space); `None` for a content type that the
/// server does not take.
pub open spec fn post_payload(content_type: Option<Seq<char>>, body: Seq<u8>) -> Option<Seq<u8>> {
    match content_type {
        Some(raw) => {
            let ct = crate::text::trim(raw);
            if ct == "application/x-www-form-urlencoded"@ {
                Some(encode_utf8(form_text(crate::text::form_pairs(lossy_text(body)))))
            } else if ct == "text/plain"@ || ct == "application/octet-stream"@ {
                Some(body)
            } else {
                None
            }
        },
        None => None,
    }
}

/// A file operation that an exchange asks for.
pub enum FileOp {
    /// Read the whole file.
    Read(String),
    /// Tell whether the path exists.
    Exists(String),
    /// Create or replace the file with these bytes.
    Write(String, Vec<u8>),
    /// Remove the file.
    Remove(String),
}

/// How a removal went.
#[derive(Clone, Copy, Debug, PartialEq, Eq, Structural)]
pub enum Removal {
    Done,
    Missing,
    Failed,
}

/// The outcome of a file operation.
pub enum FileReply {
    /// The file's bytes, or `None` when it could not be read.
    Contents(Option<Vec<u8>>),
    Exists(bool),
    /// Whether the write succeeded.
    Written(bool),
    Removed(Removal),
}

/// What an exchange does next.
pub enum Step {
    Perform(FileOp),
    Reply(Response),
    /// Give the request up: the connection is closed with nothing sent.
    Abort,
}

pub enum FileOpView {
    Read(Seq<char>),
    Exists(Seq<char>),
    Write(Seq<char>, Seq<u8>),
    Remove(Seq<char>),
}

pub enum FileReplyView {
    Contents(Option<Seq<u8>>),
    Exists(bool),
    Written(bool),
    Removed(Removal),
}

pub enum StepView {
    Perform(FileOpView),
    Reply(ResponseView),
    Abort,
}

impl View for FileOp {
    type V = FileOpView;

    open spec fn view(&self) -> FileOpView {
        match self {
            FileOp::Read(p) => FileOpView::Read(p@),
            FileOp::Exists(p) => FileOpView::Exists(p@),
            FileOp::Write(p, b) => FileOpView::Write(p@, b@),
            FileOp::Remove(p) => FileOpView::Remove(p@),
        }
    }
}

impl View for FileReply {
    type V = FileReplyView;

    open spec fn view(&self) -> FileReplyView {
        match self {
            FileReply::Contents(c) => FileReplyView::Contents(opt_bytes(*c)),
            FileReply::Exists(e) => FileReplyView::Exists(*e),
            FileReply::Written(w) => FileReplyView::Written(*w),
            FileReply::Removed(r) => FileReplyView::Removed(*r),
        }
    }
}

impl View for Step {
    type V = StepView;

    open spec fn view(&self) -> StepView {
        match self {
            Step::Perform(op) => StepView::Perform(op@),
            Step::Reply(r) => StepView::Reply(r@),
            Step::Abort => StepView::Abort,
        }
    }
}

/// Where an exchange stands.
#[derive(Clone, Copy, Debug, PartialEq, Eq, Structural)]
pub enum Phase {
    Start,
    AwaitRead,
    AwaitProbe,
    /// Waiting for the write of a `PUT`; whether the path existed before.
    AwaitWrite(bool),
    AwaitRemove,
    AwaitPostWrite,
    /// Waiting for the error document of a response with this status.
    AwaitErrorDoc(StatusCode),
    Done,
}

/// What an exchange knows of its request, and where it stands.
pub struct ExchangeView {
    pub method: HttpMethod,
    pub path: Seq<char>,
    pub confined: bool,
    pub body: Seq<u8>,
    pub content_type: Option<Seq<char>>,
    pub date: Seq<char>,
    pub phase: Phase,
}

/// One request being served.
pub struct Exchange {
    method: HttpMethod,
    path: String,
    confined: bool,
    body: Vec<u8>,
    content_type: Option<String>,
    date: String,
    phase: Phase,
}

pub open spec fn opt_text(s: Option<String>) -> Option<Seq<char>> {
    match s {
        Some(t) => Some(t@),
        None => None,
    }
}

impl View for Exchange {
    type V = ExchangeView;

    closed spec fn view(&self) -> ExchangeView {
        ExchangeView {
            method: self.method,
            path: self.path@,
            confined: self.confined,
            body: self.body@,
            content_type: opt_text(self.content_type),
            date: self.date@,
            phase: self.phase,
        }
    }
}

/// An exchange for a request that has not started yet. File operations
/// name the canonical form of the request's path.
pub open spec fn exchange_for(req: crate::request::RequestView, date: Seq<char>) -> ExchangeView {
    ExchangeView {
        method: req.method,
        path: match canonical(req.resource) {
            Some(c) => c,
            None => req.resource,
        },
        confined: canonical(req.resource) is Some,
        body: req.body,
        content_type: lookup(req.headers, "content-type"@),
        date,
        phase: Phase::Start,
    }
}

pub open spec fn fetch_error_doc(s: StatusCode) -> (Phase, StepView) {
    (
        Phase::AwaitErrorDoc(s),
        StepView::Perform(
            FileOpView::Read(if s == StatusCode::NotFound { not_found_doc() } else { server_error_doc() }),
        ),
    )
}

/// The next phase and step of an exchange, on a file reply (`None` at the
/// start).
pub open spec fn next(x: ExchangeView, reply: Option<FileReplyView>) -> (Phase, StepView) {
    let done = |r: ResponseView| (Phase::Done, StepView::Reply(r));
    let abort = (Phase::Done, StepView::Abort);
    match (x.phase, reply) {
        (Phase::Start, None) => match x.method {
            HttpMethod::Options => done(options_reply(x.date)),
            HttpMethod::Unrecognized => done(not_allowed_reply(x.date)),
            HttpMethod::Post => match post_payload(x.content_type, x.body) {
                Some(bytes) => (Phase::AwaitPostWrite, StepView::Perform(FileOpView::Write(sink_path(), bytes))),
                None => abort,
            },
            _ => if !x.confined {
                done(bad_request_reply(escape_message(), x.date))
            } else {
                match x.method {
                    HttpMethod::Get => (Phase::AwaitRead, StepView::Perform(FileOpView::Read(x.path))),
                    HttpMethod::Put => (Phase::AwaitProbe, StepView::Perform(FileOpView::Exists(x.path))),
                    _ => (Phase::AwaitRemove, StepView::Perform(FileOpView::Remove(x.path))),
                }
            },
        },
        (Phase::AwaitRead, Some(FileReplyView::Contents(c))) => match c {
            Some(b) => done(document_reply(StatusCode::Okay, x.date, media_type_of(x.path), Some(b))),
            None => fetch_error_doc(StatusCode::NotFound),
        },
        (Phase::AwaitProbe, Some(FileReplyView::Exists(e))) => (
            Phase::AwaitWrite(e),
            StepView::Perform(FileOpView::Write(x.path, x.body)),
        ),
        (Phase::AwaitWrite(e), Some(FileReplyView::Written(ok))) => if ok {
            done(
                document_reply(
                    if e { StatusCode::Okay } else { StatusCode::Created },
                    x.date,
                    media_type_of(x.path),
                    Some(x.body),
                ),
            )
        } else {
            fetch_error_doc(StatusCode::InternalServerError)
        },
        (Phase::AwaitRemove, Some(FileReplyView::Removed(r))) => match r {
            Removal::Done => done(no_content_reply(x.date)),
            Removal::Missing => fetch_error_doc(StatusCode::NotFound),
            Removal::Failed => fetch_error_doc(StatusCode::InternalServerError),
        },
        (Phase::AwaitPostWrite, Some(FileReplyView::Written(ok))) => if ok {
            done(see_other_reply(x.date))
        } else {
            fetch_error_doc(StatusCode::InternalServerError)
        },
        (Phase::AwaitErrorDoc(s), Some(FileReplyView::Contents(c))) => done(
            document_reply(s, x.date, "text/html"@, c),
        ),
        _ => abort,
    }
}

/// Starts serving a request at `now` (seconds since the Unix epoch), which
/// dates the response. Returns the exchange and its first step.
pub fn route(req: Request, now: u64) -> (r: (Exchange, Step))
    requires
        now < DATE_LIMIT,
    ensures
        ({
            let x = exchange_for(req@, http_date_text(now as nat));
            r.0@ == (ExchangeView { phase: next(x, None).0, ..x }) && r.1@ == next(x, None).1
        }),
{
    let date = http_date(now);
    let canon = canonical_path(req.get_resource().as_str());
    let confined = canon.is_some();
    let path = match canon {
        Some(c) => c,
        None => req.get_resource().clone(),
    };
    let key = "content-type".to_owned();
    let content_type = match req.get_headers().get(&key) {
        Some(ct) => Some(ct.clone()),
        None => None,
    };
    let mut x = Exchange {
        method: *req.get_method(),
        path,
        confined,
        body: vstd::slice::slice_to_vec(req.get_body()),
        content_type,
        date,
        phase: Phase::Start,
    };
    let step = x.begin();
    (x, step)
}

impl Exchange {
    fn finish(&mut self, res: Response) -> (r: Step)
        ensures
            final(self)@ == (ExchangeView { phase: Phase::Done, ..old(self)@ }),
            r@ == StepView::Reply(res@),
    {
        self.phase = Phase::Done;
        Step::Reply(res)
    }

    fn abort(&mut self) -> (r: Step)
        ensures
            final(self)@ == (ExchangeView { phase: Phase::Done, ..old(self)@ }),
            r@ == StepView::Abort,
    {
        self.phase = Phase::Done;
        Step::Abort
    }

    fn fetch_error_doc(&mut self, s: StatusCode) -> (r: Step)
        ensures
            final(self)@ == (ExchangeView { phase: fetch_error_doc(s).0, ..old(self)@ }),
            r@ == fetch_error_doc(s).1,
    {
        self.phase = Phase::AwaitErrorDoc(s);
        let path = match s {
            StatusCode::NotFound => "public/error/404.html".to_owned(),
            _ => "public/error/500.html".to_owned(),
        };
        Step::Perform(FileOp::Read(path))
    }

    /// The first step: dispatch on the method.
    fn begin(&mut self) -> (r: Step)
        requires
            old(self)@.phase == Phase::Start,
        ensures
            final(self)@ == (ExchangeView { phase: next(old(self)@, None).0, ..old(self)@ }),
            r@ == next(old(self)@, None).1,
    {
        match self.method {
            HttpMethod::Options => {
                let res = options(&self.date);
                self.finish(res)
            },
            HttpMethod::Unrecognized => {
                let res = invalid_request(&self.date);
                self.finish(res)
            },
            HttpMethod::Post => self.post_begin(),
            _ => {
                if !self.confined {
                    let res = handle_bad_request("Requested resource must stay under the serving root", &self.date);
                    return self.finish(res);
                }
                match self.method {
                    HttpMethod::Get => {
                        self.phase = Phase::AwaitRead;
                        Step::Perform(FileOp::Read(self.path.clone()))
                    },
                    HttpMethod::Put => {
                        self.phase = Phase::AwaitProbe;
                        Step::Perform(FileOp::Exists(self.path.clone()))
                    },
                    _ => {
                        self.phase = Phase::AwaitRemove;
                        Step::Perform(FileOp::Remove(self.path.clone()))
                    },
                }
            },
        }
    }

    /// The first step of a `POST`: the bytes to write to the sink, by
    /// content type.
    fn post_begin(&mut self) -> (r: Step)
        requires
            old(self)@.phase == Phase::Start,
            old(self)@.method == HttpMethod::Post,
        ensures
            final(self)@ == (ExchangeView { phase: next(old(self)@, None).0, ..old(self)@ }),
            r@ == next(old(self)@, None).1,
    {
        let payload: Option<Vec<u8>> = match &self.content_type {
            Some(raw) => {
                let ct = crate::text::trimmed(&crate::text::chars_of(raw.as_str()));
                if ct == "application/x-www-form-urlencoded".to_owned() {
                    let text = utf8_lossy(self.body.as_slice());
                    let lines = form_lines(text.as_str());
                    Some(vstd::slice::slice_to_vec(lines.as_str().as_bytes()))
                } else if ct == "text/plain".to_owned() || ct == "application/octet-stream".to_owned() {
                    Some(self.body.clone())
                } else {
                    None
                }
            },
            None => None,
        };
        match payload {
            Some(bytes) => {
                self.phase = Phase::AwaitPostWrite;
                Step::Perform(FileOp::Write("public/post-success.txt".to_owned(), bytes))
            },
            None => self.abort(),
        }
    }

    /// The step after a file operation's outcome.
    pub fn resume(&mut self, reply: FileReply) -> (r: Step)
        ensures
            final(self)@ == (ExchangeView { phase: next(old(self)@, Some(reply@)).0, ..old(self)@ }),
            r@ == next(old(self)@, Some(reply@)).1,
    {
        match self.phase {
            Phase::AwaitRead => self.get(reply),
            Phase::AwaitProbe => self.put(reply),
            Phase::AwaitWrite(_) => self.put(reply),
            Phase::AwaitRemove => self.delete(reply),
            Phase::AwaitPostWrite => self.post(reply),
            Phase::AwaitErrorDoc(s) => match reply {
                FileReply::Contents(doc) => {
                    let res = document(s, &self.date, "text/html".to_owned(), doc);
                    self.finish(res)
                },
                _ => self.abort(),
            },
            _ => self.abort(),
        }
    }

    /// A `GET` once the file was read: its bytes, or the not-found document.
    fn get(&mut self, reply: FileReply) -> (r: Step)
        requires
            old(self)@.phase == Phase::AwaitRead,
        ensures
            final(self)@ == (ExchangeView { phase: next(old(self)@, Some(reply@)).0, ..old(self)@ }),
            r@ == next(old(self)@, Some(reply@)).1,
    {
        match reply {
            FileReply::Contents(Some(bytes)) => {
                let (_, media) = get_content_type(self.path.as_str());
                let res = document(StatusCode::Okay, &self.date, media, Some(bytes));
                self.finish(res)
            },
            FileReply::Contents(None) => self.fetch_error_doc(StatusCode::NotFound),
            _ => self.abort(),
        }
    }

    /// A `PUT`: write the body once it is known whether the file existed,
    /// then answer `200` (replaced) or `201` (created) with the new
    /// contents, or the server-error document.
    fn put(&mut self, reply: FileReply) -> (r: Step)
        requires
            old(self)@.phase == Phase::AwaitProbe || old(self)@.phase is AwaitWrite,
        ensures
            final(self)@ == (ExchangeView { phase: next(old(self)@, Some(reply@)).0, ..old(self)@ }),
            r@ == next(old(self)@, Some(reply@)).1,
    {
        match (self.phase, reply) {
            (Phase::AwaitProbe, FileReply::Exists(e)) => {
                self.phase = Phase::AwaitWrite(e);
                Step::Perform(FileOp::Write(self.path.clone(), self.body.clone()))
            },
            (Phase::AwaitWrite(e), FileReply::Written(ok)) => {
                if ok {
                    let (_, media) = get_content_type(self.path.as_str());
                    let status = if e { StatusCode::Okay } else { StatusCode::Created };
                    let res = document(status, &self.date, media, Some(self.body.clone()));
                    self.finish(res)
                } else {
                    self.fetch_error_doc(StatusCode::InternalServerError)
                }
            },
            _ => self.abort(),
        }
    }

    /// A `DELETE` once the removal was tried.
    fn delete(&mut self, reply: FileReply) -> (r: Step)
        requires
            old(self)@.phase == Phase::AwaitRemove,
        ensures
            final(self)@ == (ExchangeView { phase: next(old(self)@, Some(reply@)).0, ..old(self)@ }),
            r@ == next(old(self)@, Some(reply@)).1,
    {
        match reply {
            FileReply::Removed(Removal::Done) => {
                let res = dated(StatusCode::NoContent, &self.date);
                self.finish(res)
            },
            FileReply::Removed(Removal::Missing) => self.fetch_error_doc(StatusCode::NotFound),
            FileReply::Removed(Removal::Failed) => self.fetch_error_doc(StatusCode::InternalServerError),
            _ => self.abort(),
        }
    }

    /// A `POST` once the sink was written: a redirect to it, or the
    /// server-error document.
    fn post(&mut self, reply: FileReply) -> (r: Step)
        requires
            old(self)@.phase == Phase::AwaitPostWrite,
        ensures
            final(self)@ == (ExchangeView { phase: next(old(self)@, Some(reply@)).0, ..old(self)@ }),
            r@ == next(old(self)@, Some(reply@)).1,
    {
        proof {
            reveal_strlit("Date");
            reveal_strlit("Content-Type");
            reveal_strlit("Location");
            assert("Date"@.len() != "Content-Type"@.len());
            assert("Date"@.len() != "Location"@.len());
            assert("Content-Type"@.len() != "Location"@.len());
        }
        match reply {
            FileReply::Written(true) => {
                let mut res = dated(StatusCode::SeeOther, &self.date);
                push_header(&mut res, "Content-Type", "text/plain".to_owned());
                push_header(&mut res, "Location", "public/post-success.txt".to_owned());
                assert(res@.headers =~= seq![("Date"@, self.date@), ("Content-Type"@, "text/plain"@), ("Location"@, sink_location())]);
                self.finish(res)
            },
            FileReply::Written(false) => self.fetch_error_doc(StatusCode::InternalServerError),
            _ => self.abort(),
        }
    }
}

} // verus!
