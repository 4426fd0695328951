//! The responder of the small web server that hands its connections to the
//! pool: which page answers a request line, and the text of a response.
//!
//! Reading the request from a connection, reading the page from disk and
//! writing the response are left to the program; what is decided and what is
//! written is fixed here.

use vstd::prelude::*;
use vstd::string::StringExecFns;
use vstd::utf8::{encode_utf8, encode_utf8_decode_utf8};

verus! {

/// The request line that asks for the index page.
pub const GET_ROOT: &'static str = "GET / HTTP/1.1";

/// The request line that asks for the index page after a pause.
pub const GET_SLEEP: &'static str = "GET /sleep HTTP/1.1";

/// The status line of a successful response.
pub const STATUS_OK: &'static str = "HTTP/1.1 200 OK";

/// The status line of the response to an unknown request.
pub const STATUS_NOT_FOUND: &'static str = "HTTP/1.1 404 NOT FOUND";

/// Where the index page is read from.
pub const INDEX_PATH: &'static str = "./client/index.html";

/// Where the page for unknown requests is read from.
pub const NOT_FOUND_PATH: &'static str = "./client/404.html";

/// How many seconds the slow route pauses before it answers.
pub const SLEEP_SECS: u64 = 5;

/// How a request is answered.
#[derive(Clone, Copy, Debug, PartialEq, Eq, Structural)]
pub enum Route {
    /// With the index page.
    Index,
    /// With the index page, after a pause of `SLEEP_SECS` seconds.
    Sleep,
    /// With the page for unknown requests.
    NotFound,
}

/// The route of a request line: the two known lines have their routes, every
/// other line is unknown.
pub open spec fn route_of(request_line: Seq<char>) -> Route {
    if request_line == GET_ROOT@ {
        Route::Index
    } else if request_line == GET_SLEEP@ {
        Route::Sleep
    } else {
        Route::NotFound
    }
}

/// Whether two strings hold the same text.
fn same_text(a: &str, b: &str) -> (same: bool)
    ensures
        same == (a@ == b@),
{
    let x = a.as_bytes();
    let y = b.as_bytes();
    proof {
        encode_utf8_decode_utf8(a@);
        encode_utf8_decode_utf8(b@);
    }
    if x.len() != y.len() {
        return false;
    }
    let mut i: usize = 0;
    while i < x.len()
        invariant
            x@ == encode_utf8(a@),
            y@ == encode_utf8(b@),
            x@.len() == y@.len(),
            i <= x@.len(),
            forall|j: int| 0 <= j < i ==> x@[j] == y@[j],
        decreases x@.len() - i,
    {
        if x[i] != y[i] {
            return false;
        }
        i += 1;
    }
    assert(x@ =~= y@);
    true
}

/// Decides how the request with this first line is answered.
pub fn route(request_line: &str) -> (r: Route)
    ensures
        r == route_of(request_line@),
{
    if same_text(request_line, GET_ROOT) {
        Route::Index
    } else if same_text(request_line, GET_SLEEP) {
        Route::Sleep
    } else {
        Route::NotFound
    }
}

impl Route {
    /// The status line of the response.
    pub fn status_line(&self) -> (line: &'static str)
        ensures
            line@ == (if self is NotFound {
                STATUS_NOT_FOUND@
            } else {
                STATUS_OK@
            }),
    {
        match self {
            Route::Index => STATUS_OK,
            Route::Sleep => STATUS_OK,
            Route::NotFound => STATUS_NOT_FOUND,
        }
    }

    /// The file whose contents are the body of the response.
    pub fn contents_path(&self) -> (path: &'static str)
        ensures
            path@ == (if self is NotFound {
                NOT_FOUND_PATH@
            } else {
                INDEX_PATH@
            }),
    {
        match self {
            Route::Index => INDEX_PATH,
            Route::Sleep => INDEX_PATH,
            Route::NotFound => NOT_FOUND_PATH,
        }
    }

    /// The number of seconds to pause before the response is written.
    pub fn delay_secs(&self) -> (secs: u64)
        ensures
            secs == (if self is Sleep {
                SLEEP_SECS
            } else {
                0
            }),
    {
        match self {
            Route::Index => 0,
            Route::Sleep => SLEEP_SECS,
            Route::NotFound => 0,
        }
    }
}

/// The character of a decimal digit.
pub open spec fn digit(d: nat) -> char {
    if d == 0 {
        '0'
    } else if d == 1 {
        '1'
    } else if d == 2 {
        '2'
    } else if d == 3 {
        '3'
    } else if d == 4 {
        '4'
    } else if d == 5 {
        '5'
    } else if d == 6 {
        '6'
    } else if d == 7 {
        '7'
    } else if d == 8 {
        '8'
    } else {
        '9'
    }
}

/// The decimal numeral of `n`, without leading zeros.
pub open spec fn decimal(n: nat) -> Seq<char>
    decreases n,
{
    if n < 10 {
        seq![digit(n)]
    } else {
        decimal(n / 10).push(digit(n % 10))
    }
}

/// The text of a response: the status line, the length of the contents in
/// bytes as the only header, an empty line, and the contents.
pub open spec fn response_text(status_line: Seq<char>, contents: Seq<char>) -> Seq<char> {
    status_line + "\r\n"@ + "Content-Length: "@ + decimal(encode_utf8(contents).len()) + "\r\n\r\n"@
        + contents
}

/// The numeral of one decimal digit.
fn digit_text(d: usize) -> (text: &'static str)
    requires
        d < 10,
    ensures
        text@ == seq![digit(d as nat)],
{
    proof {
        reveal_strlit("0");
        reveal_strlit("1");
        reveal_strlit("2");
        reveal_strlit("3");
        reveal_strlit("4");
        reveal_strlit("5");
        reveal_strlit("6");
        reveal_strlit("7");
        reveal_strlit("8");
        reveal_strlit("9");
    }
    let text = match d {
        0 => "0",
        1 => "1",
        2 => "2",
        3 => "3",
        4 => "4",
        5 => "5",
        6 => "6",
        7 => "7",
        8 => "8",
        _ => "9",
    };
    assert(text@ =~= seq![digit(d as nat)]);
    text
}

/// Appends the decimal numeral of `n` to `text`.
fn append_decimal(text: &mut String, n: usize)
    ensures
        final(text)@ == old(text)@ + decimal(n as nat),
    decreases n,
{
    if n >= 10 {
        append_decimal(text, n / 10);
    }
    text.append(digit_text(n % 10));
    assert(text@ =~= old(text)@ + decimal(n as nat));
}

/// Writes the response with this status line and these contents.
pub fn render_response(status_line: &str, contents: &str) -> (response: String)
    ensures
        response@ == response_text(status_line@, contents@),
{
    let mut response = String::from_str(status_line);
    response.append("\r\n");
    response.append("Content-Length: ");
    append_decimal(&mut response, contents.as_bytes().len());
    response.append("\r\n\r\n");
    response.append(contents);
    assert(response@ =~= response_text(status_line@, contents@));
    response
}

} // verus!
