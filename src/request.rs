//! The request model and the parsing of a request's text.
use vstd::prelude::*;
use vstd::string::StringExecFns;
use crate::http::{HttpMethod, method_named};
use crate::strmap::{StringMap, insert_all, insert_entry, lookup};
use crate::text::{
    chars_of, find_char, find_char_from, form_pairs, lower_of,
    pairs_view, parse_count, parse_count_str, skip_space,
    skip_space_from, split_pairs, string_of, to_lower, to_upper, trim, trimmed, trim_end_at,
    is_space_char,
    upper_of, word_end, word_end_from,
};

verus! {

/// What a request holds.
pub struct RequestView {
    pub protocol: Seq<char>,
    pub method: HttpMethod,
    pub resource: Seq<char>,
    pub queries: Seq<(Seq<char>, Seq<char>)>,
    pub headers: Seq<(Seq<char>, Seq<char>)>,
    pub body: Seq<u8>,
}

/// A request: protocol label, method, the file path it names under the
/// serving root, query pairs, headers (names case-folded) and body.
pub struct Request {
    protocol: String,
    method: HttpMethod,
    resource: String,
    queries: StringMap,
    headers: StringMap,
    body: Vec<u8>,
}

impl View for Request {
    type V = RequestView;

    closed spec fn view(&self) -> RequestView {
        RequestView {
            protocol: self.protocol@,
            method: self.method,
            resource: self.resource@,
            queries: self.queries@,
            headers: self.headers@,
            body: self.body@,
        }
    }
}

/// The three first white-space separated words of a request line: method,
/// target and protocol; `None` when there are fewer.
pub open spec fn request_words(s: Seq<char>) -> Option<(Seq<char>, Seq<char>, Seq<char>)> {
    let j0 = skip_space(s, 0);
    let e0 = word_end(s, j0);
    let j1 = skip_space(s, e0);
    let e1 = word_end(s, j1);
    let j2 = skip_space(s, e1);
    let e2 = word_end(s, j2);
    if j0 < s.len() && j1 < s.len() && j2 < s.len() {
        Some((s.subrange(j0, e0), s.subrange(j1, e1), s.subrange(j2, e2)))
    } else {
        None
    }
}

/// The part of a target before its first `?`.
pub open spec fn target_path(t: Seq<char>) -> Seq<char> {
    t.subrange(0, find_char(t, '?', 0))
}

/// The part of a target after its first `?`; empty when there is none.
pub open spec fn target_query(t: Seq<char>) -> Seq<char> {
    let q = find_char(t, '?', 0);
    if q < t.len() {
        t.subrange(q + 1, t.len() as int)
    } else {
        Seq::empty()
    }
}

/// The directory that every request path is resolved under.
pub open spec fn serving_root() -> Seq<char> {
    "public"@
}

/// The file that a request path names: `/` names the default document,
/// any other path `/x` names `<root>/x`.
pub open spec fn resolve(path: Seq<char>) -> Seq<char> {
    if path == "/"@ {
        "public/index.html"@
    } else {
        serving_root() + path
    }
}

/// The query pairs of a query string, a repeated key keeping its last value.
pub open spec fn query_entries(q: Seq<char>) -> Seq<(Seq<char>, Seq<char>)> {
    insert_all(Seq::empty(), form_pairs(q))
}

/// What a header line sets: its name case-folded and its value, the text
/// after the first `:` as it stands; `None` for a line without `:`.
pub open spec fn header_of(line: Seq<char>) -> Option<(Seq<char>, Seq<char>)> {
    let k = find_char(line, ':', 0);
    if k < line.len() {
        Some((lower_of(line.subrange(0, k)), line.subrange(k + 1, line.len() as int)))
    } else {
        None
    }
}

/// A header line with its trailing white space removed; `None` for a line
/// that is all white space, which ends the header section.
pub open spec fn header_line(line: Seq<char>) -> Option<Seq<char>> {
    let end = trim_end_at(line, line.len() as int);
    if end > 0 {
        Some(line.subrange(0, end))
    } else {
        None
    }
}

/// A header line as read from the connection, without its line ending and
/// other trailing white space; `None` for the blank line that ends the
/// headers.
pub fn header_line_of(line: &str) -> (r: Option<String>)
    ensures
        match r {
            Some(t) => header_line(line@) == Some(t@),
            None => header_line(line@) is None,
        },
{
    let v = chars_of(line);
    let mut end: usize = v.len();
    while end > 0 && is_space_char(v[end - 1])
        invariant
            0 <= end <= v@.len(),
            v@ == line@,
            trim_end_at(v@, v@.len() as int) == trim_end_at(v@, end as int),
        decreases end,
    {
        end -= 1;
    }
    if end > 0 {
        Some(string_of(&v, 0, end))
    } else {
        None
    }
}

/// The request line could not be split into method, target and protocol.
#[derive(Clone, Copy, Debug, PartialEq, Eq, Structural)]
pub enum RequestLineError {
    MissingTokens,
}

pub open spec fn fresh_request() -> RequestView {
    RequestView {
        protocol: "HTTP/1.1"@,
        method: HttpMethod::Unrecognized,
        resource: Seq::empty(),
        queries: Seq::empty(),
        headers: Seq::empty(),
        body: Seq::empty(),
    }
}

impl Default for Request {
    /// An empty `HTTP/1.1` request with an unrecognized method.
    fn default() -> (r: Request)
        ensures
            r@ == fresh_request(),
    {
        Request {
            protocol: "HTTP/1.1".to_owned(),
            method: HttpMethod::Unrecognized,
            resource: String::new(),
            queries: StringMap::new(),
            headers: StringMap::new(),
            body: Vec::new(),
        }
    }
}

/// The resolved file path of a request path.
fn resolve_path(path: String) -> (r: String)
    ensures
        r@ == resolve(path@),
{
    if path == "/".to_owned() {
        "public/index.html".to_owned()
    } else {
        let mut r = "public".to_owned();
        r.append(path.as_str());
        r
    }
}

impl Request {
    /// Parses a request line into method, resolved path, query pairs and
    /// protocol. The method token is mapped after upper-casing; the target
    /// is cut at its first `?`. A line with fewer than three words is
    /// refused and leaves the request as it was.
    pub fn parse_status_line(&mut self, status_line: String) -> (r: Result<(), RequestLineError>)
        ensures
            match request_words(status_line@) {
                None => r is Err && final(self)@ == old(self)@,
                Some((m, t, p)) => r is Ok && final(self)@ == (RequestView {
                    protocol: p,
                    method: method_named(upper_of(m)),
                    resource: resolve(target_path(t)),
                    queries: query_entries(target_query(t)),
                    ..old(self)@
                }),
            },
    {
        let v = chars_of(status_line.as_str());
        let j0 = skip_space_from(&v, 0);
        let e0 = word_end_from(&v, j0);
        let j1 = skip_space_from(&v, e0);
        let e1 = word_end_from(&v, j1);
        let j2 = skip_space_from(&v, e1);
        let e2 = word_end_from(&v, j2);
        if !(j0 < v.len() && j1 < v.len() && j2 < v.len()) {
            return Err(RequestLineError::MissingTokens);
        }
        let token = string_of(&v, j0, e0);
        let upper = to_upper(token.as_str());
        let method = HttpMethod::from_upper(&upper);

        let q = find_char_from(&v, '?', j1);
        let cut = if q < e1 { q } else { e1 };
        let ghost t = v@.subrange(j1 as int, e1 as int);
        proof {
            lemma_find_in_range(v@, j1 as int, e1 as int);
        }
        let path = string_of(&v, j1, cut);
        assert(path@ =~= target_path(t));
        let query: Vec<char> = if q < e1 {
            let mut w: Vec<char> = Vec::new();
            let mut i: usize = q + 1;
            while i < e1
                invariant
                    q + 1 <= i <= e1 <= v@.len(),
                    w@ == v@.subrange(q + 1, i as int),
                decreases e1 - i,
            {
                w.push(v[i]);
                assert(v@.subrange(q + 1, i + 1) =~= v@.subrange(q + 1, i as int).push(v@[i as int]));
                i += 1;
            }
            w
        } else {
            Vec::new()
        };
        assert(query@ =~= target_query(t));
        let pairs = split_pairs(&query);
        let mut queries = StringMap::new();
        let mut i: usize = 0;
        while i < pairs.len()
            invariant
                0 <= i <= pairs@.len(),
                pairs_view(pairs@) == form_pairs(query@),
                queries@ == insert_all(Seq::empty(), pairs_view(pairs@).take(i as int)),
            decreases pairs@.len() - i,
        {
            let k = pairs[i].0.clone();
            let val = pairs[i].1.clone();
            assert(pairs_view(pairs@).take(i + 1).drop_last() =~= pairs_view(pairs@).take(i as int));
            queries.insert(k, val);
            i += 1;
        }
        assert(pairs_view(pairs@).take(pairs@.len() as int) =~= pairs_view(pairs@));
        let protocol = string_of(&v, j2, e2);
        self.method = method;
        self.resource = resolve_path(path);
        self.queries = queries;
        self.protocol = protocol;
        Ok(())
    }

    /// Sets the header of a `name: value` line, the name case-folded and the
    /// value kept as it stands after the first `:`; a repeated name replaces
    /// the earlier value. A line without `:` is ignored.
    pub fn append_header(&mut self, line: &str)
        ensures
            match header_of(line@) {
                Some((k, val)) => final(self)@ == (RequestView {
                    headers: insert_entry(old(self)@.headers, k, val),
                    ..old(self)@
                }),
                None => final(self)@ == old(self)@,
            },
    {
        let v = chars_of(line);
        let k = find_char_from(&v, ':', 0);
        if k < v.len() {
            let name = string_of(&v, 0, k);
            let key = to_lower(name.as_str());
            let mut rest: Vec<char> = Vec::new();
            let mut i: usize = k + 1;
            while i < v.len()
                invariant
                    k + 1 <= i <= v@.len(),
                    rest@ == v@.subrange(k + 1, i as int),
                decreases v@.len() - i,
            {
                rest.push(v[i]);
                assert(v@.subrange(k + 1, i + 1) =~= v@.subrange(k + 1, i as int).push(v@[i as int]));
                i += 1;
            }
            let value = string_of(&rest, 0, rest.len());
            assert(value@ =~= rest@);
            self.headers.insert(key, value);
        }
    }

    /// The length that the `content-length` header gives the body, when it
    /// is present and its value, without surrounding white space, reads as a
    /// non-negative integer.
    pub fn body_length(&self) -> (r: Option<usize>)
        ensures
            r == match lookup(self@.headers, "content-length"@) {
                Some(val) => parse_count(trim(val)),
                None => None,
            },
    {
        let key = "content-length".to_owned();
        match self.headers.get(&key) {
            Some(val) => {
                let text = trimmed(&chars_of(val.as_str()));
                parse_count_str(text.as_str())
            },
            None => None,
        }
    }

    /// Sets the body.
    pub fn set_body(&mut self, contents: &[u8])
        ensures
            final(self)@ == (RequestView { body: contents@, ..old(self)@ }),
    {
        self.body = vstd::slice::slice_to_vec(contents);
    }

    /// Whether the resolved path, in canonical form, stays under the
    /// serving root.
    pub fn is_confined(&self) -> (r: bool)
        ensures
            r == crate::paths::canonical(self@.resource) is Some,
    {
        crate::paths::canonical_path(self.resource.as_str()).is_some()
    }

    pub fn get_method(&self) -> (r: &HttpMethod)
        ensures
            *r == self@.method,
    {
        &self.method
    }

    /// The resolved file path.
    pub fn get_resource(&self) -> (r: &String)
        ensures
            r@ == self@.resource,
    {
        &self.resource
    }

    pub fn get_queries(&self) -> (r: &StringMap)
        ensures
            r@ == self@.queries,
    {
        &self.queries
    }

    pub fn get_headers(&self) -> (r: &StringMap)
        ensures
            r@ == self@.headers,
    {
        &self.headers
    }

    pub fn get_body(&self) -> (r: &[u8])
        ensures
            r@ == self@.body,
    {
        self.body.as_slice()
    }
}

/// Searching a sub-range from its start finds what a search of that
/// sub-range alone finds, shifted.
proof fn lemma_find_in_range(s: Seq<char>, lo: int, hi: int)
    requires
        0 <= lo <= hi <= s.len(),
    ensures
        ({
            let q = find_char(s, '?', lo);
            let t = s.subrange(lo, hi);
            (q < hi ==> find_char(t, '?', 0) == q - lo) && (q >= hi ==> find_char(t, '?', 0)
                == t.len())
        }),
{
    lemma_find_shift(s, lo, hi, lo);
}

proof fn lemma_find_shift(s: Seq<char>, lo: int, hi: int, i: int)
    requires
        0 <= lo <= i <= hi <= s.len(),
    ensures
        ({
            let q = find_char(s, '?', i);
            let t = s.subrange(lo, hi);
            (q < hi ==> find_char(t, '?', i - lo) == q - lo) && (q >= hi ==> find_char(
                t,
                '?',
                i - lo,
            ) == t.len())
        }),
    decreases hi - i,
{
    if i < hi {
        lemma_find_shift(s, lo, hi, i + 1);
    } else {
        crate::text::lemma_find_char_bounds(s, '?', i);
    }
}

} // verus!
