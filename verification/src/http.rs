//! The per-connection logic: tokenize and parse a request line, resolve the
//! requested path under the content directory, and build the response bytes.

use vstd::prelude::*;

use crate::errors::ErrorKind;
use crate::errors::WebServerError;

verus! {

/// Position of the first space in `s`, or `s.len()` when there is none.
pub open spec fn first_space(s: Seq<u8>) -> int
    decreases s.len(),
{
    if s.len() == 0 {
        0
    } else if s[0] == 32u8 {
        0
    } else {
        1 + first_space(s.drop_first())
    }
}

pub proof fn lemma_first_space_bounds(s: Seq<u8>)
    ensures
        0 <= first_space(s) <= s.len(),
        forall|i: int| 0 <= i < first_space(s) ==> s[i] != 32u8,
        first_space(s) < s.len() ==> s[first_space(s)] == 32u8,
    decreases s.len(),
{
    if s.len() > 0 && s[0] != 32u8 {
        lemma_first_space_bounds(s.drop_first());
        assert forall|i: int| 0 <= i < first_space(s) implies s[i] != 32u8 by {
            if i > 0 {
                assert(s.drop_first()[i - 1] != 32u8);
            }
        }
    }
}

/// `s` split at single spaces, as `str::split(' ')` does it: the empty
/// sequence yields one empty token, and each space separates two tokens,
/// so consecutive spaces yield empty tokens.
pub open spec fn split_spaces(s: Seq<u8>) -> Seq<Seq<u8>>
    decreases s.len(),
{
    let i = first_space(s);
    if 0 <= i < s.len() {
        seq![s.subrange(0, i)] + split_spaces(s.subrange(i + 1, s.len() as int))
    } else {
        seq![s]
    }
}

pub proof fn lemma_split_spaces_nonempty(s: Seq<u8>)
    ensures
        split_spaces(s).len() >= 1,
    decreases s.len(),
{
    lemma_first_space_bounds(s);
}

/// Index of the first space at or after `from`, or `s.len()` when none follows.
fn find_space(s: &Vec<u8>, from: usize) -> (r: usize)
    requires
        from <= s@.len(),
    ensures
        from <= r <= s@.len(),
        r as int - from == first_space(s@.subrange(from as int, s@.len() as int)),
{
    let mut i = from;
    while i < s.len()
        invariant
            from <= i <= s@.len(),
            forall|j: int| from <= j < i ==> s@[j] != 32u8,
        decreases s@.len() - i,
    {
        if s[i] == 32u8 {
            proof {
                lemma_first_space_pinned(s@.subrange(from as int, s@.len() as int), i - from);
            }
            return i;
        }
        i = i + 1;
    }
    proof {
        lemma_first_space_none(s@.subrange(from as int, s@.len() as int));
    }
    i
}

/// When no byte of `s` is a space, `first_space(s)` is `s.len()`.
proof fn lemma_first_space_none(s: Seq<u8>)
    requires
        forall|j: int| 0 <= j < s.len() ==> s[j] != 32u8,
    ensures
        first_space(s) == s.len(),
    decreases s.len(),
{
    if s.len() > 0 {
        lemma_first_space_none(s.drop_first());
    }
}

/// When `s[k]` is the first space of `s`, `first_space(s)` is `k`.
proof fn lemma_first_space_pinned(s: Seq<u8>, k: int)
    requires
        0 <= k < s.len(),
        s[k] == 32u8,
        forall|j: int| 0 <= j < k ==> s[j] != 32u8,
    ensures
        first_space(s) == k,
    decreases s.len(),
{
    if k > 0 {
        lemma_first_space_pinned(s.drop_first(), k - 1);
    }
}

/// A copy of `s[lo..hi]`.
fn subvec(s: &Vec<u8>, lo: usize, hi: usize) -> (r: Vec<u8>)
    requires
        lo <= hi <= s@.len(),
    ensures
        r@ == s@.subrange(lo as int, hi as int),
{
    let mut r: Vec<u8> = Vec::new();
    let mut i = lo;
    while i < hi
        invariant
            lo <= i <= hi <= s@.len(),
            r@ == s@.subrange(lo as int, i as int),
        decreases hi - i,
    {
        r.push(s[i]);
        proof {
            assert(r@ =~= s@.subrange(lo as int, (i + 1) as int));
        }
        i = i + 1;
    }
    r
}

/// The tokens of `line`, split at single spaces.
pub fn tokenize(line: &Vec<u8>) -> (r: Vec<Vec<u8>>)
    ensures
        r@.map_values(|t: Vec<u8>| t@) == split_spaces(line@),
        r@.len() >= 1,
{
    let mut out: Vec<Vec<u8>> = Vec::new();
    let ghost whole = line@;
    let mut start: usize = 0;
    proof {
        assert(whole.subrange(0, whole.len() as int) =~= whole);
        assert(out@.map_values(|t: Vec<u8>| t@) =~= Seq::<Seq<u8>>::empty());
    }
    loop
        invariant
            start <= line@.len(),
            split_spaces(whole) == out@.map_values(|t: Vec<u8>| t@) + split_spaces(
                whole.subrange(start as int, whole.len() as int),
            ),
            whole == line@,
        decreases line@.len() - start,
    {
        let sp = find_space(line, start);
        let token = subvec(line, start, sp);
        let ghost rest = whole.subrange(start as int, whole.len() as int);
        proof {
            lemma_first_space_bounds(rest);
            assert(token@ =~= rest.subrange(0, first_space(rest)));
        }
        out.push(token);
        if sp == line.len() {
            proof {
                assert(rest.subrange(0, first_space(rest)) =~= rest);
                assert(out@.map_values(|t: Vec<u8>| t@) =~= out@.drop_last().map_values(
                    |t: Vec<u8>| t@,
                ).push(token@));
                assert(split_spaces(whole) =~= out@.map_values(|t: Vec<u8>| t@));
            }
            proof {
                lemma_split_spaces_nonempty(whole);
            }
            return out;
        }
        proof {
            assert(rest.subrange(first_space(rest) + 1, rest.len() as int) =~= whole.subrange(
                (sp + 1) as int,
                whole.len() as int,
            ));
            assert(out@.map_values(|t: Vec<u8>| t@) =~= out@.drop_last().map_values(
                |t: Vec<u8>| t@,
            ).push(token@));
            assert(split_spaces(whole) == out@.map_values(|t: Vec<u8>| t@) + split_spaces(
                whole.subrange((sp + 1) as int, whole.len() as int),
            ));
        }
        start = sp + 1;
    }
}

/// The bytes of the only accepted method, `GET`.
pub open spec fn method_get() -> Seq<u8> {
    seq![('G' as u8), ('E' as u8), ('T' as u8)]
}

/// The bytes of the only accepted version, `HTTP/1.1`.
pub open spec fn version_http11() -> Seq<u8> {
    seq![('H' as u8), ('T' as u8), ('T' as u8), ('P' as u8), ('/' as u8), ('1' as u8), ('.' as u8), ('1' as u8)]
}

/// A parsed `GET` request: just the path it asks for.
pub struct HttpGetRequest {
    pub path: Vec<u8>,
}

/// A parsed request. `GET` is the only variant the server accepts.
pub enum HttpRequest {
    GET(HttpGetRequest),
}

/// What parsing a request line yields: the requested path, or the reason
/// the line is rejected. The method is judged first, then the token count,
/// then the version; extra tokens after the version are ignored.
pub open spec fn spec_parse_request_line(line: Seq<u8>) -> Result<Seq<u8>, ErrorKind> {
    let toks = split_spaces(line);
    if toks[0] != method_get() {
        Err(ErrorKind::UnsupportedMethod)
    } else if toks.len() < 3 {
        Err(ErrorKind::MalformedRequest)
    } else if toks[2] != version_http11() {
        Err(ErrorKind::UnsupportedVersion)
    } else {
        Ok(toks[1])
    }
}

/// Parse one request line into a request, or the error that rejects it.
pub fn parse_request_line(line: &Vec<u8>) -> (r: Result<HttpRequest, WebServerError>)
    ensures
        spec_parse_request_line(line@) matches Ok(p) ==> r matches Ok(q) && q->GET_0.path@ == p,
        spec_parse_request_line(line@) matches Err(k) ==> r == Result::<
            HttpRequest,
            WebServerError,
        >::Err(WebServerError(k)),
{
    let toks = tokenize(line);
    let ghost stoks = split_spaces(line@);
    proof {
        assert(stoks[0] == toks@[0]@);
    }
    let m = &toks[0];
    let method_ok = m.len() == 3 && m[0] == ('G' as u8) && m[1] == ('E' as u8) && m[2] == ('T' as u8);
    proof {
        if method_ok {
            assert(m@ =~= method_get());
        } else {
            assert(m@ != method_get());
        }
    }
    if !method_ok {
        return Err(WebServerError(ErrorKind::UnsupportedMethod));
    }
    if toks.len() < 3 {
        return Err(WebServerError(ErrorKind::MalformedRequest));
    }
    proof {
        assert(stoks[1] == toks@[1]@);
        assert(stoks[2] == toks@[2]@);
    }
    let v = &toks[2];
    let version_ok = v.len() == 8 && v[0] == ('H' as u8) && v[1] == ('T' as u8) && v[2] == ('T' as u8) && v[3] == ('P' as u8)
        && v[4] == ('/' as u8) && v[5] == ('1' as u8) && v[6] == ('.' as u8) && v[7] == ('1' as u8);
    proof {
        if version_ok {
            assert(v@ =~= version_http11());
        } else {
            assert(v@ != version_http11());
        }
    }
    if !version_ok {
        return Err(WebServerError(ErrorKind::UnsupportedVersion));
    }
    let path = subvec(&toks[1], 0, toks[1].len());
    proof {
        assert(path@ =~= toks@[1]@);
    }
    Ok(HttpRequest::GET(HttpGetRequest { path }))
}

/// The directory every request path is resolved under, with its
/// trailing separator: `content/`.
pub open spec fn content_dir_prefix() -> Seq<u8> {
    seq![('c' as u8), ('o' as u8), ('n' as u8), ('t' as u8), ('e' as u8), ('n' as u8), ('t' as u8), ('/' as u8)]
}

/// Resolve a request path to a filesystem path: strip the leading `/` and
/// join the remainder onto the `content` directory. A path without a
/// leading `/` is rejected as malformed. The result is relative to the
/// process working directory; no traversal sanitization is performed, so
/// `..` segments pass through unchanged.
pub fn get_absolute_path(path_from_request: &Vec<u8>) -> (r: Result<Vec<u8>, WebServerError>)
    ensures
        path_from_request@.len() > 0 && path_from_request@[0] == ('/' as u8) ==> (r matches Ok(p) && p@
            == content_dir_prefix() + path_from_request@.drop_first()),
        !(path_from_request@.len() > 0 && path_from_request@[0] == ('/' as u8)) ==> r == Result::<
            Vec<u8>,
            WebServerError,
        >::Err(WebServerError(ErrorKind::MalformedPath)),
{
    if path_from_request.len() == 0 || path_from_request[0] != ('/' as u8) {
        return Err(WebServerError(ErrorKind::MalformedPath));
    }
    let mut out: Vec<u8> = Vec::new();
    out.push(('c' as u8));
    out.push(('o' as u8));
    out.push(('n' as u8));
    out.push(('t' as u8));
    out.push(('e' as u8));
    out.push(('n' as u8));
    out.push(('t' as u8));
    out.push(('/' as u8));
    proof {
        assert(out@ =~= content_dir_prefix());
    }
    let mut i: usize = 1;
    while i < path_from_request.len()
        invariant
            1 <= i <= path_from_request@.len(),
            out@ == content_dir_prefix() + path_from_request@.subrange(1, i as int),
        decreases path_from_request@.len() - i,
    {
        out.push(path_from_request[i]);
        proof {
            assert(out@ =~= content_dir_prefix() + path_from_request@.subrange(1, (i + 1) as int));
        }
        i = i + 1;
    }
    proof {
        assert(path_from_request@.subrange(1, path_from_request@.len() as int)
            =~= path_from_request@.drop_first());
    }
    Ok(out)
}

/// The decimal digits of `n` in ASCII, most significant first, with no
/// leading zeros (`0` is written as one digit).
pub open spec fn dec_rep(n: nat) -> Seq<u8>
    decreases n,
{
    if n < 10 {
        seq![(48 + n) as u8]
    } else {
        dec_rep(n / 10).push((48 + n % 10) as u8)
    }
}

/// Append the decimal digits of `n` to `out`.
pub fn push_decimal(out: &mut Vec<u8>, n: usize)
    ensures
        final(out)@ == old(out)@ + dec_rep(n as nat),
    decreases n,
{
    if n < 10 {
        out.push(48 + n as u8);
        proof {
            assert(final(out)@ =~= old(out)@ + dec_rep(n as nat));
        }
    } else {
        push_decimal(out, n / 10);
        out.push(48 + (n % 10) as u8);
        proof {
            assert(final(out)@ =~= old(out)@ + dec_rep(n as nat));
        }
    }
}

/// The line ending used throughout: `\r\n`.
pub open spec fn crlf() -> Seq<u8> {
    seq![13u8, 10u8]
}

/// The bytes of `HTTP/1.1 200 OK\r\n`.
pub open spec fn status_line_200() -> Seq<u8> {
    seq![
        ('H' as u8), ('T' as u8), ('T' as u8), ('P' as u8), ('/' as u8), ('1' as u8), ('.' as u8),
        ('1' as u8), (' ' as u8), ('2' as u8), ('0' as u8), ('0' as u8), (' ' as u8), ('O' as u8),
        ('K' as u8), 13u8, 10u8,
    ]
}

/// The bytes of `HTTP/1.1 404 NOT FOUND\r\n`.
pub open spec fn status_line_404() -> Seq<u8> {
    seq![
        ('H' as u8), ('T' as u8), ('T' as u8), ('P' as u8), ('/' as u8), ('1' as u8), ('.' as u8),
        ('1' as u8), (' ' as u8), ('4' as u8), ('0' as u8), ('4' as u8), (' ' as u8), ('N' as u8),
        ('O' as u8), ('T' as u8), (' ' as u8), ('F' as u8), ('O' as u8), ('U' as u8), ('N' as u8),
        ('D' as u8), 13u8, 10u8,
    ]
}

/// The bytes of `Content-Length: `.
pub open spec fn content_length_prefix() -> Seq<u8> {
    seq![
        ('C' as u8), ('o' as u8), ('n' as u8), ('t' as u8), ('e' as u8), ('n' as u8), ('t' as u8),
        ('-' as u8), ('L' as u8), ('e' as u8), ('n' as u8), ('g' as u8), ('t' as u8), ('h' as u8),
        (':' as u8), (' ' as u8),
    ]
}

/// The bytes of the best-effort error reply, `HTTP/1.1 500 Internal server
/// error\r\n`: a bare status line, sent whenever handling a connection
/// fails for any per-request reason.
pub open spec fn internal_error_response() -> Seq<u8> {
    seq![
        ('H' as u8), ('T' as u8), ('T' as u8), ('P' as u8), ('/' as u8), ('1' as u8), ('.' as u8),
        ('1' as u8), (' ' as u8), ('5' as u8), ('0' as u8), ('0' as u8), (' ' as u8), ('I' as u8),
        ('n' as u8), ('t' as u8), ('e' as u8), ('r' as u8), ('n' as u8), ('a' as u8), ('l' as u8),
        (' ' as u8), ('s' as u8), ('e' as u8), ('r' as u8), ('v' as u8), ('e' as u8), ('r' as u8),
        (' ' as u8), ('e' as u8), ('r' as u8), ('r' as u8), ('o' as u8), ('r' as u8), 13u8, 10u8,
    ]
}

/// The full reply for a file that was found: status line, `Content-Length`
/// header, blank line, then the file bytes.
pub open spec fn ok_response(body: Seq<u8>) -> Seq<u8> {
    status_line_200() + content_length_prefix() + dec_rep(body.len()) + crlf() + crlf() + body
}

/// The full reply for a missing file: the 404 status line and a blank
/// line, with no `Content-Length` and no body.
pub open spec fn not_found_response() -> Seq<u8> {
    status_line_404() + crlf()
}

/// Build the reply for a file with bytes `body`.
pub fn build_ok_response(body: &Vec<u8>) -> (r: Vec<u8>)
    ensures
        r@ == ok_response(body@),
{
    let mut out: Vec<u8> = Vec::new();
    out.push('H' as u8);
    out.push('T' as u8);
    out.push('T' as u8);
    out.push('P' as u8);
    out.push('/' as u8);
    out.push('1' as u8);
    out.push('.' as u8);
    out.push('1' as u8);
    out.push(' ' as u8);
    out.push('2' as u8);
    out.push('0' as u8);
    out.push('0' as u8);
    out.push(' ' as u8);
    out.push('O' as u8);
    out.push('K' as u8);
    out.push(13u8);
    out.push(10u8);
    out.push('C' as u8);
    out.push('o' as u8);
    out.push('n' as u8);
    out.push('t' as u8);
    out.push('e' as u8);
    out.push('n' as u8);
    out.push('t' as u8);
    out.push('-' as u8);
    out.push('L' as u8);
    out.push('e' as u8);
    out.push('n' as u8);
    out.push('g' as u8);
    out.push('t' as u8);
    out.push('h' as u8);
    out.push(':' as u8);
    out.push(' ' as u8);
    proof {
        assert(out@ =~= status_line_200() + content_length_prefix());
    }
    push_decimal(&mut out, body.len());
    out.push(13u8);
    out.push(10u8);
    out.push(13u8);
    out.push(10u8);
    let ghost head = out@;
    proof {
        assert(head =~= status_line_200() + content_length_prefix() + dec_rep(body@.len()) + crlf()
            + crlf());
    }
    let mut i: usize = 0;
    while i < body.len()
        invariant
            i <= body@.len(),
            out@ == head + body@.subrange(0, i as int),
        decreases body@.len() - i,
    {
        out.push(body[i]);
        proof {
            assert(out@ =~= head + body@.subrange(0, (i + 1) as int));
        }
        i = i + 1;
    }
    proof {
        assert(body@.subrange(0, body@.len() as int) =~= body@);
        assert(out@ =~= ok_response(body@));
    }
    out
}

/// Build the reply for a missing file.
pub fn build_not_found_response() -> (r: Vec<u8>)
    ensures
        r@ == not_found_response(),
{
    let mut out: Vec<u8> = Vec::new();
    out.push('H' as u8);
    out.push('T' as u8);
    out.push('T' as u8);
    out.push('P' as u8);
    out.push('/' as u8);
    out.push('1' as u8);
    out.push('.' as u8);
    out.push('1' as u8);
    out.push(' ' as u8);
    out.push('4' as u8);
    out.push('0' as u8);
    out.push('4' as u8);
    out.push(' ' as u8);
    out.push('N' as u8);
    out.push('O' as u8);
    out.push('T' as u8);
    out.push(' ' as u8);
    out.push('F' as u8);
    out.push('O' as u8);
    out.push('U' as u8);
    out.push('N' as u8);
    out.push('D' as u8);
    out.push(13u8);
    out.push(10u8);
    out.push(13u8);
    out.push(10u8);
    proof {
        assert(out@ =~= not_found_response());
    }
    out
}

/// Build the best-effort reply for a request that failed for any
/// per-request reason.
pub fn build_internal_error_response() -> (r: Vec<u8>)
    ensures
        r@ == internal_error_response(),
{
    let mut out: Vec<u8> = Vec::new();
    out.push('H' as u8);
    out.push('T' as u8);
    out.push('T' as u8);
    out.push('P' as u8);
    out.push('/' as u8);
    out.push('1' as u8);
    out.push('.' as u8);
    out.push('1' as u8);
    out.push(' ' as u8);
    out.push('5' as u8);
    out.push('0' as u8);
    out.push('0' as u8);
    out.push(' ' as u8);
    out.push('I' as u8);
    out.push('n' as u8);
    out.push('t' as u8);
    out.push('e' as u8);
    out.push('r' as u8);
    out.push('n' as u8);
    out.push('a' as u8);
    out.push('l' as u8);
    out.push(' ' as u8);
    out.push('s' as u8);
    out.push('e' as u8);
    out.push('r' as u8);
    out.push('v' as u8);
    out.push('e' as u8);
    out.push('r' as u8);
    out.push(' ' as u8);
    out.push('e' as u8);
    out.push('r' as u8);
    out.push('r' as u8);
    out.push('o' as u8);
    out.push('r' as u8);
    out.push(13u8);
    out.push(10u8);
    proof {
        assert(out@ =~= internal_error_response());
    }
    out
}

/// The reason phrase for each status code the server produces.
pub fn html_error_code_to_str(value: i32) -> (r: Result<&'static str, WebServerError>)
    ensures
        value == 200 ==> (r matches Ok(s) && s@ == "OK"@),
        value == 404 ==> (r matches Ok(s) && s@ == "NOT FOUND"@),
        value == 500 ==> (r matches Ok(s) && s@ == "INTERNAL SERVER ERROR"@),
        value != 200 && value != 404 && value != 500 ==> r == Result::<
            &'static str,
            WebServerError,
        >::Err(WebServerError(ErrorKind::UnknownStatusCode)),
{
    match value {
        200 => Ok("OK"),
        404 => Ok("NOT FOUND"),
        500 => Ok("INTERNAL SERVER ERROR"),
        _ => Err(WebServerError(ErrorKind::UnknownStatusCode)),
    }
}

/// What a connection needs next, once its request lines are read: either
/// the full reply is already known, or a file must be fetched first.
pub enum ConnectionStep {
    /// Reply with exactly these bytes.
    Respond(Vec<u8>),
    /// Fetch the file at this filesystem path, then reply via
    /// `file_response`.
    Fetch(Vec<u8>),
}

/// How fetching the requested file went.
pub enum FileFetch {
    /// The file exists and holds these bytes.
    Found(Vec<u8>),
    /// The file does not exist.
    Missing,
    /// The file exists but reading it failed.
    FetchFailed,
}

/// Whether the request in `line` is a well-formed `GET` whose path starts
/// with `/`, so that a file fetch is called for.
pub open spec fn plan_is_fetch(line: Seq<u8>) -> bool {
    &&& spec_parse_request_line(line) is Ok
    &&& spec_parse_request_line(line)->Ok_0.len() > 0
    &&& spec_parse_request_line(line)->Ok_0[0] == ('/' as u8)
}

/// The filesystem path a fetch-worthy request line resolves to.
pub open spec fn plan_fetch_path(line: Seq<u8>) -> Seq<u8> {
    content_dir_prefix() + spec_parse_request_line(line)->Ok_0.drop_first()
}

/// Decide a connection's next step from its request lines (each line
/// without its line ending; the first is the request line). A request
/// that is absent, malformed, unsupported, or whose path lacks the
/// leading `/` gets the best-effort error reply at once; a well-formed
/// `GET` asks for a file fetch.
pub fn plan_connection(lines: &Vec<Vec<u8>>) -> (r: ConnectionStep)
    ensures
        lines@.len() > 0 && plan_is_fetch(lines@[0]@) ==> (r matches ConnectionStep::Fetch(p) && p@
            == plan_fetch_path(lines@[0]@)),
        !(lines@.len() > 0 && plan_is_fetch(lines@[0]@)) ==> (r matches ConnectionStep::Respond(b)
            && b@ == internal_error_response()),
{
    if lines.len() == 0 {
        return ConnectionStep::Respond(build_internal_error_response());
    }
    match parse_request_line(&lines[0]) {
        Err(_) => ConnectionStep::Respond(build_internal_error_response()),
        Ok(HttpRequest::GET(get_request)) => {
            match get_absolute_path(&get_request.path) {
                Err(_) => ConnectionStep::Respond(build_internal_error_response()),
                Ok(p) => ConnectionStep::Fetch(p),
            }
        },
    }
}

/// The reply owed for each fetch outcome: the file bytes under a 200, a
/// bare 404 for a missing file, and the best-effort error reply for a
/// failed read.
pub fn file_response(fetch: &FileFetch) -> (r: Vec<u8>)
    ensures
        fetch matches FileFetch::Found(c) ==> r@ == ok_response(c@),
        fetch is Missing ==> r@ == not_found_response(),
        fetch is FetchFailed ==> r@ == internal_error_response(),
{
    match fetch {
        FileFetch::Found(content) => build_ok_response(content),
        FileFetch::Missing => build_not_found_response(),
        FileFetch::FetchFailed => build_internal_error_response(),
    }
}

} // verus!

