//! Laws of serving, stated over the in-memory file tree.
use vstd::prelude::*;
use crate::http::HttpMethod;
use crate::memfs::{run, served};
use crate::request::RequestView;
use crate::response::StatusCode;
use crate::routing::{
    Phase, StepView, bad_request_reply, document_reply, escape_message, exchange_for, http_date_text,
    media_type_of, next, no_content_reply, not_allowed_reply, not_found_doc, options_reply,
};
use crate::paths::canonical;

verus! {

/// The document a file tree holds at `p`, if any.
pub open spec fn file_at(fs: Map<Seq<char>, Seq<u8>>, p: Seq<char>) -> Option<Seq<u8>> {
    if fs.contains_key(p) {
        Some(fs[p])
    } else {
        None
    }
}

/// Bytes written to a file under the root are what a `GET` on it returns:
/// `200` with exactly those bytes, the file tree unchanged (`p` is the
/// canonical form of the request's path).
pub proof fn law_get_after_write(req: RequestView, p: Seq<char>, now: nat, fs: Map<Seq<char>, Seq<u8>>, b: Seq<u8>)
    requires
        req.method == HttpMethod::Get,
        canonical(req.resource) == Some(p),
    ensures
        served(req, now, fs.insert(p, b)) == (
            StepView::Reply(
                document_reply(StatusCode::Okay, http_date_text(now), media_type_of(p), Some(b)),
            ),
            fs.insert(p, b),
        ),
{
    reveal_with_fuel(run, 3);
}

/// `PUT` on a path under the root (canonical form `p`) makes the file's
/// contents the request body: `201` where there was no file, `200` where
/// one was replaced, with the new contents in the response.
pub proof fn law_put_replaces(req: RequestView, p: Seq<char>, now: nat, fs: Map<Seq<char>, Seq<u8>>)
    requires
        req.method == HttpMethod::Put,
        canonical(req.resource) == Some(p),
    ensures
        served(req, now, fs) == (
            StepView::Reply(
                document_reply(
                    if fs.contains_key(p) { StatusCode::Okay } else { StatusCode::Created },
                    http_date_text(now),
                    media_type_of(p),
                    Some(req.body),
                ),
            ),
            fs.insert(p, req.body),
        ),
{
    reveal_with_fuel(run, 4);
}

/// `DELETE` on an existing file under the root (canonical form `p`)
/// removes it and answers `204` without a body.
pub proof fn law_delete_existing(req: RequestView, p: Seq<char>, now: nat, fs: Map<Seq<char>, Seq<u8>>)
    requires
        req.method == HttpMethod::Delete,
        canonical(req.resource) == Some(p),
        fs.contains_key(p),
    ensures
        served(req, now, fs) == (StepView::Reply(no_content_reply(http_date_text(now))), fs.remove(
            p,
        )),
{
    reveal_with_fuel(run, 3);
}

/// `DELETE` on a missing file answers `404` with the not-found document
/// and leaves the file tree as it was.
pub proof fn law_delete_missing(req: RequestView, p: Seq<char>, now: nat, fs: Map<Seq<char>, Seq<u8>>)
    requires
        req.method == HttpMethod::Delete,
        canonical(req.resource) == Some(p),
        !fs.contains_key(p),
    ensures
        served(req, now, fs) == (
            StepView::Reply(
                document_reply(
                    StatusCode::NotFound,
                    http_date_text(now),
                    "text/html"@,
                    file_at(fs, not_found_doc()),
                ),
            ),
            fs,
        ),
{
    assert(fs.remove(p) =~= fs);
    reveal_with_fuel(run, 4);
}

/// `OPTIONS` on any path answers `204` with `Allow: GET, POST, PUT, DELETE,
/// OPTIONS`, touching no file.
pub proof fn law_options(req: RequestView, now: nat, fs: Map<Seq<char>, Seq<u8>>)
    requires
        req.method == HttpMethod::Options,
    ensures
        next(exchange_for(req, http_date_text(now)), None) == (
            Phase::Done,
            StepView::Reply(options_reply(http_date_text(now))),
        ),
        served(req, now, fs) == (StepView::Reply(options_reply(http_date_text(now))), fs),
        options_reply(http_date_text(now)).headers[1] == ("Allow"@, "GET, POST, PUT, DELETE, OPTIONS"@),
{
}

/// A method that the server does not answer gets the fixed
/// method-not-allowed response at once, before any file operation.
pub proof fn law_unrecognized_method(req: RequestView, now: nat, fs: Map<Seq<char>, Seq<u8>>)
    requires
        req.method == HttpMethod::Unrecognized,
    ensures
        next(exchange_for(req, http_date_text(now)), None) == (
            Phase::Done,
            StepView::Reply(not_allowed_reply(http_date_text(now))),
        ),
        served(req, now, fs) == (StepView::Reply(not_allowed_reply(http_date_text(now))), fs),
{
}

/// A `GET`, `PUT` or `DELETE` whose path, in canonical form, leaves the
/// serving root is
/// answered `400` at once, before any file operation.
pub proof fn law_escape_refused(req: RequestView, now: nat, fs: Map<Seq<char>, Seq<u8>>)
    requires
        req.method == HttpMethod::Get || req.method == HttpMethod::Put || req.method
            == HttpMethod::Delete,
        canonical(req.resource) is None,
    ensures
        next(exchange_for(req, http_date_text(now)), None) == (
            Phase::Done,
            StepView::Reply(bad_request_reply(escape_message(), http_date_text(now))),
        ),
        served(req, now, fs) == (
            StepView::Reply(bad_request_reply(escape_message(), http_date_text(now))),
            fs,
        ),
{
}

} // verus!
