use vstd::prelude::*;

use crate::systems::types::DisasterType;
use crate::text::{append_decimal, chars_equal_str, decimal, is_white_space, is_whitespace, str_equal};

verus! {

/// The endpoints of the tactical operations server.
#[derive(Debug, Clone, Copy, PartialEq, Eq, Structural)]
pub enum Route {
    /// `GET /` or `GET /index.html`: the dashboard page.
    Dashboard,
    /// `GET /api/status`: platform, bases, latest frame and bulletin as JSON.
    Status,
    /// `POST /api/dispatch`: dispatch a pod to an incident.
    Dispatch,
    /// `POST /api/failsafe`: toggle the simulated loss of uplink.
    ToggleFailsafe,
    /// `POST /api/return`: call the pod home.
    ReturnToBase,
    /// Anything else.
    NotFound,
}

pub open spec fn route_of(method: Seq<char>, path: Seq<char>) -> Route {
    if method == "GET"@ && (path == "/"@ || path == "/index.html"@) {
        Route::Dashboard
    } else if method == "GET"@ && path == "/api/status"@ {
        Route::Status
    } else if method == "POST"@ && path == "/api/dispatch"@ {
        Route::Dispatch
    } else if method == "POST"@ && path == "/api/failsafe"@ {
        Route::ToggleFailsafe
    } else if method == "POST"@ && path == "/api/return"@ {
        Route::ReturnToBase
    } else {
        Route::NotFound
    }
}

/// Picks the endpoint for a request method and path.
pub fn route_request(method: &[char], path: &[char]) -> (r: Route)
    ensures
        r == route_of(method@, path@),
        r == Route::Dashboard <==> (method@ == "GET"@ && (path@ == "/"@ || path@
            == "/index.html"@)),
        r == Route::Status <==> (method@ == "GET"@ && path@ == "/api/status"@),
        r == Route::Dispatch <==> (method@ == "POST"@ && path@ == "/api/dispatch"@),
        r == Route::ToggleFailsafe <==> (method@ == "POST"@ && path@ == "/api/failsafe"@),
        r == Route::ReturnToBase <==> (method@ == "POST"@ && path@ == "/api/return"@),
{
    proof {
        reveal_strlit("GET");
        reveal_strlit("POST");
        reveal_strlit("/");
        reveal_strlit("/index.html");
        reveal_strlit("/api/status");
        reveal_strlit("/api/dispatch");
        reveal_strlit("/api/failsafe");
        reveal_strlit("/api/return");
        assert("GET"@.len() != "POST"@.len());
        assert("/"@.len() != "/api/status"@.len());
        assert("/index.html"@[1] != "/api/status"@[1]);
        assert("/api/dispatch"@[5] != "/api/failsafe"@[5]);
    }
    let get = chars_equal_str(method, "GET");
    let post = chars_equal_str(method, "POST");
    if get && (chars_equal_str(path, "/") || chars_equal_str(path, "/index.html")) {
        Route::Dashboard
    } else if get && chars_equal_str(path, "/api/status") {
        Route::Status
    } else if post && chars_equal_str(path, "/api/dispatch") {
        Route::Dispatch
    } else if post && chars_equal_str(path, "/api/failsafe") {
        Route::ToggleFailsafe
    } else if post && chars_equal_str(path, "/api/return") {
        Route::ReturnToBase
    } else {
        Route::NotFound
    }
}

/// Index of the first `c` at or after `i`, or the length when there is none.
pub open spec fn find_char_from(s: Seq<char>, c: char, i: int) -> int
    decreases s.len() - i,
{
    if i < 0 || i >= s.len() {
        s.len() as int
    } else if s[i] == c {
        i
    } else {
        find_char_from(s, c, i + 1)
    }
}

/// The first line of a request: the characters before the first line feed, a
/// carriage return right before it left out; the whole text when no line feed
/// occurs.
pub open spec fn first_line(s: Seq<char>) -> Seq<char> {
    let k = find_char_from(s, '\n', 0);
    if k < s.len() && k > 0 && s[k - 1] == '\r' {
        s.take(k - 1)
    } else {
        s.take(k)
    }
}

/// First index at or after `i` that does not hold white space.
pub open spec fn skip_white_space(s: Seq<char>, i: int) -> int
    decreases s.len() - i,
{
    if i < 0 || i >= s.len() {
        s.len() as int
    } else if is_white_space(s[i]) {
        skip_white_space(s, i + 1)
    } else {
        i
    }
}

/// First index at or after `i` that holds white space.
pub open spec fn token_end(s: Seq<char>, i: int) -> int
    decreases s.len() - i,
{
    if i < 0 || i >= s.len() {
        s.len() as int
    } else if is_white_space(s[i]) {
        i
    } else {
        token_end(s, i + 1)
    }
}

/// The method and path of a request: the first two white-space separated
/// words of its first line, when that line has at least two.
pub open spec fn request_head_of(s: Seq<char>) -> Option<(Seq<char>, Seq<char>)> {
    let line = first_line(s);
    let a = skip_white_space(line, 0);
    let b = token_end(line, a);
    let c = skip_white_space(line, b);
    let d = token_end(line, c);
    if c < line.len() {
        Some((line.subrange(a, b), line.subrange(c, d)))
    } else {
        None
    }
}

/// Method and path of a request.
#[derive(Debug, Clone, PartialEq, Eq)]
pub struct RequestHead {
    pub method: Vec<char>,
    pub path: Vec<char>,
}

fn find_char(s: &[char], c: char) -> (k: usize)
    ensures
        k == find_char_from(s@, c, 0),
        k <= s@.len(),
{
    let n = s.len();
    let mut i: usize = 0;
    while i < n && s[i] != c
        invariant
            n == s@.len(),
            i <= n,
            find_char_from(s@, c, i as int) == find_char_from(s@, c, 0),
        decreases n - i,
    {
        i = i + 1;
    }
    i
}

fn skip_ws(line: &[char], start: usize) -> (k: usize)
    requires
        start <= line@.len(),
    ensures
        k == skip_white_space(line@, start as int),
        start <= k <= line@.len(),
{
    let n = line.len();
    let mut i = start;
    while i < n && is_whitespace(line[i])
        invariant
            n == line@.len(),
            start <= i <= n,
            skip_white_space(line@, i as int) == skip_white_space(line@, start as int),
        decreases n - i,
    {
        i = i + 1;
    }
    i
}

fn word_end(line: &[char], start: usize) -> (k: usize)
    requires
        start <= line@.len(),
    ensures
        k == token_end(line@, start as int),
        start <= k <= line@.len(),
{
    let n = line.len();
    let mut i = start;
    while i < n && !is_whitespace(line[i])
        invariant
            n == line@.len(),
            start <= i <= n,
            token_end(line@, i as int) == token_end(line@, start as int),
        decreases n - i,
    {
        i = i + 1;
    }
    i
}

fn copy_range(s: &[char], lo: usize, hi: usize) -> (v: Vec<char>)
    requires
        lo <= hi <= s@.len(),
    ensures
        v@ == s@.subrange(lo as int, hi as int),
{
    let mut v: Vec<char> = Vec::new();
    let mut i = lo;
    while i < hi
        invariant
            lo <= i <= hi <= s@.len(),
            v@ == s@.subrange(lo as int, i as int),
        decreases hi - i,
    {
        v.push(s[i]);
        i = i + 1;
        assert(v@ =~= s@.subrange(lo as int, i as int));
    }
    v
}

/// Reads the method and path from the request text; `None` when its first line
/// holds fewer than two words.
pub fn parse_request_head(request: &[char]) -> (head: Option<RequestHead>)
    ensures
        match head {
            Some(h) => request_head_of(request@) == Some((h.method@, h.path@)),
            None => request_head_of(request@) is None,
        },
{
    let k = find_char(request, '\n');
    let line_len = if k < request.len() && k > 0 && request[k - 1] == '\r' {
        k - 1
    } else {
        k
    };
    let line = copy_range(request, 0, line_len);
    assert(line@ =~= first_line(request@));
    let a = skip_ws(line.as_slice(), 0);
    let b = word_end(line.as_slice(), a);
    let c = skip_ws(line.as_slice(), b);
    let d = word_end(line.as_slice(), c);
    if c < line.len() {
        let method = copy_range(line.as_slice(), a, b);
        let path = copy_range(line.as_slice(), c, d);
        Some(RequestHead { method, path })
    } else {
        None
    }
}

/// The header block ends with an empty line.
pub open spec fn is_header_end_at(s: Seq<char>, k: int) -> bool {
    0 <= k && k + 4 <= s.len() && s[k] == '\r' && s[k + 1] == '\n' && s[k + 2] == '\r' && s[k
        + 3] == '\n'
}

/// Index of the first character of the request body, after the blank line that
/// closes the headers; `None` when there is no such line.
pub fn request_body_start(request: &[char]) -> (start: Option<usize>)
    ensures
        match start {
            Some(b) => b >= 4 && is_header_end_at(request@, b - 4) && forall|j: int|
                0 <= j < b - 4 ==> !is_header_end_at(request@, j),
            None => forall|k: int| !is_header_end_at(request@, k),
        },
{
    let n = request.len();
    let mut i: usize = 0;
    while i < n && n - i >= 4
        invariant
            n == request@.len(),
            i <= n,
            forall|j: int| 0 <= j < i ==> !is_header_end_at(request@, j),
        decreases n - i,
    {
        if request[i] == '\r' && request[i + 1] == '\n' && request[i + 2] == '\r' && request[i + 3]
            == '\n' {
            return Some(i + 4);
        }
        i = i + 1;
    }
    None
}


pub open spec fn disaster_type_named(name: Seq<char>) -> DisasterType {
    if name == "Wildfire"@ {
        DisasterType::Wildfire
    } else if name == "Flood"@ {
        DisasterType::Flood
    } else if name == "Landslide"@ {
        DisasterType::Landslide
    } else {
        DisasterType::Earthquake
    }
}

/// The hazard named in a dispatch request; any name other than Wildfire, Flood
/// or Landslide stands for an earthquake.
pub fn disaster_type_from_name(name: &str) -> (t: DisasterType)
    ensures
        t == disaster_type_named(name@),
        name@ == "Wildfire"@ ==> t == DisasterType::Wildfire,
        name@ == "Flood"@ ==> t == DisasterType::Flood,
        name@ == "Landslide"@ ==> t == DisasterType::Landslide,
        (name@ != "Wildfire"@ && name@ != "Flood"@ && name@ != "Landslide"@) ==> t
            == DisasterType::Earthquake,
{
    proof {
        reveal_strlit("Wildfire");
        reveal_strlit("Flood");
        reveal_strlit("Landslide");
        assert("Wildfire"@.len() != "Flood"@.len());
        assert("Wildfire"@[0] != "Landslide"@[0]);
        assert("Flood"@.len() != "Landslide"@.len());
    }
    if str_equal(name, "Wildfire") {
        DisasterType::Wildfire
    } else if str_equal(name, "Flood") {
        DisasterType::Flood
    } else if str_equal(name, "Landslide") {
        DisasterType::Landslide
    } else {
        DisasterType::Earthquake
    }
}

pub open spec fn html_response_of(body: &str) -> Seq<char> {
    "HTTP/1.1 200 OK\r\nContent-Type: text/html; charset=utf-8\r\nContent-Length: "@ + decimal(body.len() as nat) + "\r\nConnection: close\r\n\r\n"@ + body@
}

pub open spec fn json_response_of(body: &str) -> Seq<char> {
    "HTTP/1.1 200 OK\r\nContent-Type: application/json\r\nContent-Length: "@ + decimal(body.len() as nat) + "\r\nAccess-Control-Allow-Origin: *\r\nConnection: close\r\n\r\n"@ + body@
}

/// A complete `200 OK` response carrying an HTML page.
pub fn html_response(body: &str) -> (response: String)
    ensures
        response@ == html_response_of(body),
{
    let mut r = String::from_str(
        "HTTP/1.1 200 OK\r\nContent-Type: text/html; charset=utf-8\r\nContent-Length: ",
    );
    append_decimal(&mut r, body.len() as u64);
    r.append("\r\nConnection: close\r\n\r\n");
    r.append(body);
    r
}

/// A complete `200 OK` response carrying a JSON document, open to any origin.
pub fn json_response(body: &str) -> (response: String)
    ensures
        response@ == json_response_of(body),
{
    let mut r = String::from_str(
        "HTTP/1.1 200 OK\r\nContent-Type: application/json\r\nContent-Length: ",
    );
    append_decimal(&mut r, body.len() as u64);
    r.append("\r\nAccess-Control-Allow-Origin: *\r\nConnection: close\r\n\r\n");
    r.append(body);
    r
}

/// The acknowledgement of a command: `200 OK` with the body `OK`.
pub fn ok_response() -> (response: &'static str)
    ensures
        response@
            == "HTTP/1.1 200 OK\r\nContent-Length: 2\r\nAccess-Control-Allow-Origin: *\r\nConnection: close\r\n\r\nOK"@,
{
    "HTTP/1.1 200 OK\r\nContent-Length: 2\r\nAccess-Control-Allow-Origin: *\r\nConnection: close\r\n\r\nOK"
}

/// The answer to an unknown endpoint.
pub fn not_found_response() -> (response: &'static str)
    ensures
        response@ == "HTTP/1.1 404 NOT FOUND\r\nContent-Length: 9\r\nConnection: close\r\n\r\nNot Found"@,
{
    "HTTP/1.1 404 NOT FOUND\r\nContent-Length: 9\r\nConnection: close\r\n\r\nNot Found"
}

} // verus!
