//! Reading what a captive portal sends: the redirect it injects into a
//! probe response and the one-time value hidden in its login form.

use vstd::prelude::*;
use crate::error::{AppError, AppErrorView};
use crate::text::{
    chars_of, contains, contains_text, decimal, find_char_from, find_from, matches_at, occurs_at,
    push_decimal,
};

verus! {

/// What opens a redirect assignment in a page.
pub open spec fn redirect_open() -> Seq<char> {
    "window.location=\""@
}

/// What closes a redirect assignment.
pub open spec fn redirect_close() -> Seq<char> {
    "\""@
}

/// What opens the hidden form field that carries the one-time value.
pub open spec fn magic_open() -> Seq<char> {
    "<input type=\"hidden\" name=\"magic\" value=\""@
}

/// What closes that form field.
pub open spec fn magic_close() -> Seq<char> {
    "\">"@
}

/// A quoted value stands in `s`: `open` at index `i`, then characters other
/// than `"` up to index `j`, then `close` at `j`.
pub open spec fn quoted_at(
    s: Seq<char>,
    open: Seq<char>,
    close: Seq<char>,
    i: int,
    j: int,
) -> bool {
    &&& occurs_at(s, open, i)
    &&& i + open.len() <= j
    &&& forall|k: int| i + open.len() <= k < j ==> s[k] != '"'
    &&& occurs_at(s, close, j)
}

/// The quoted value at `i`, `j` is the one that starts first in `s`.
pub open spec fn first_quoted_at(
    s: Seq<char>,
    open: Seq<char>,
    close: Seq<char>,
    i: int,
    j: int,
) -> bool {
    &&& quoted_at(s, open, close, i, j)
    &&& forall|i2: int, j2: int| quoted_at(s, open, close, i2, j2) ==> i <= i2
}

/// The first quoted value in `s`, if there is any.
pub open spec fn first_quoted(s: Seq<char>, open: Seq<char>, close: Seq<char>) -> Option<
    Seq<char>,
> {
    if exists|i: int, j: int| quoted_at(s, open, close, i, j) {
        let (i, j) = choose|i: int, j: int| first_quoted_at(s, open, close, i, j);
        Some(s.subrange(i + open.len(), j))
    } else {
        None
    }
}

/// The target of the first redirect assignment in a page.
pub open spec fn redirect_url(html: Seq<char>) -> Option<Seq<char>> {
    first_quoted(html, redirect_open(), redirect_close())
}

/// The one-time value of the first hidden `magic` field in a page. A field
/// with an empty value counts as no field.
pub open spec fn form_token(html: Seq<char>) -> Option<Seq<char>> {
    match first_quoted(html, magic_open(), magic_close()) {
        Some(v) => if v.len() > 0 {
            Some(v)
        } else {
            None
        },
        None => None,
    }
}

/// Where `close` begins with `"`, a quoted value that starts at `i` can
/// only end at the first `"` behind `open`.
pub proof fn quoted_end_is_unique(
    s: Seq<char>,
    open: Seq<char>,
    close: Seq<char>,
    i: int,
    j: int,
    j2: int,
)
    requires
        close.len() > 0,
        close[0] == '"',
        quoted_at(s, open, close, i, j),
        quoted_at(s, open, close, i, j2),
    ensures
        j == j2,
{
    assert(s.subrange(j, j + close.len())[0] == s[j]);
    assert(s.subrange(j2, j2 + close.len())[0] == s[j2]);
}

/// Where `close` begins with `"`, the first quoted value is the value at
/// any pair of indices that `first_quoted_at` accepts.
pub proof fn first_quoted_is(s: Seq<char>, open: Seq<char>, close: Seq<char>, i: int, j: int)
    requires
        close.len() > 0,
        close[0] == '"',
        first_quoted_at(s, open, close, i, j),
    ensures
        first_quoted(s, open, close) == Some(s.subrange(i + open.len(), j)),
{
    let (i2, j2) = choose|i2: int, j2: int| first_quoted_at(s, open, close, i2, j2);
    assert(first_quoted_at(s, open, close, i2, j2));
    assert(i == i2);
    quoted_end_is_unique(s, open, close, i, j, j2);
}

/// Among the quoted values of `s` there is one that starts first, and it
/// starts no later than any given one.
pub proof fn first_quoted_exists(s: Seq<char>, open: Seq<char>, close: Seq<char>, i: int, j: int)
    requires
        quoted_at(s, open, close, i, j),
    ensures
        exists|i0: int, j0: int| first_quoted_at(s, open, close, i0, j0) && i0 <= i,
    decreases i,
{
    if forall|i2: int, j2: int| quoted_at(s, open, close, i2, j2) ==> i <= i2 {
        assert(first_quoted_at(s, open, close, i, j));
    } else {
        let (i2, j2) = choose|i2: int, j2: int| quoted_at(s, open, close, i2, j2) && i2 < i;
        first_quoted_exists(s, open, close, i2, j2);
    }
}

/// A page that holds exactly one redirect assignment yields the target of
/// that assignment, character for character: whatever stands before and
/// behind it, and whatever the target holds besides `"`.
pub proof fn single_redirect_round_trip(before: Seq<char>, url: Seq<char>, after: Seq<char>)
    requires
        forall|k: int| 0 <= k < url.len() ==> url[k] != '"',
        forall|i: int, j: int|
            quoted_at(
                before + redirect_open() + url + redirect_close() + after,
                redirect_open(),
                redirect_close(),
                i,
                j,
            ) ==> i == before.len(),
    ensures
        redirect_url(before + redirect_open() + url + redirect_close() + after) == Some(url),
{
    reveal_strlit("\"");
    let open = redirect_open();
    let close = redirect_close();
    let html = before + open + url + close + after;
    let i = before.len() as int;
    let j = i + open.len() + url.len();
    assert(html.subrange(i, i + open.len()) =~= open);
    assert(html.subrange(j, j + close.len()) =~= close);
    assert(html.subrange(i + open.len(), j) =~= url);
    assert forall|k: int| i + open.len() <= k < j implies html[k] != '"' by {
        assert(html[k] == url[k - i - open.len()]);
    }
    assert(quoted_at(html, open, close, i, j));
    first_quoted_is(html, open, close, i, j);
}

/// Of several redirect assignments in a page, the one that starts first in
/// the document gives the result.
pub proof fn redirect_is_first_in_document(html: Seq<char>, i: int, j: int)
    requires
        quoted_at(html, redirect_open(), redirect_close(), i, j),
    ensures
        exists|i0: int, j0: int|
            first_quoted_at(html, redirect_open(), redirect_close(), i0, j0) && i0 <= i
                && redirect_url(html) == Some(html.subrange(i0 + redirect_open().len(), j0)),
{
    reveal_strlit("\"");
    first_quoted_exists(html, redirect_open(), redirect_close(), i, j);
    let (i0, j0) = choose|i0: int, j0: int|
        first_quoted_at(html, redirect_open(), redirect_close(), i0, j0) && i0 <= i;
    first_quoted_is(html, redirect_open(), redirect_close(), i0, j0);
}

/// What is taken out of a page was written in it, and holds no `"`.
pub proof fn first_quoted_is_from_the_text(s: Seq<char>, open: Seq<char>, close: Seq<char>)
    ensures
        first_quoted(s, open, close) matches Some(value) ==> {
            &&& contains_text(s, value)
            &&& forall|k: int| 0 <= k < value.len() ==> value[k] != '"'
        },
{
    if exists|i: int, j: int| quoted_at(s, open, close, i, j) {
        let (i0, j0) = choose|i: int, j: int| quoted_at(s, open, close, i, j);
        first_quoted_exists(s, open, close, i0, j0);
        let (i, j) = choose|i: int, j: int| first_quoted_at(s, open, close, i, j);
        let value = s.subrange(i + open.len(), j);
        assert(occurs_at(s, value, i + open.len()));
    }
}

/// A page in which the opening of the hidden field does not occur as
/// written (it is missing, spelled in another case, or quoted otherwise)
/// holds no one-time value.
pub proof fn token_absent_without_field(html: Seq<char>)
    requires
        forall|at: int| !occurs_at(html, magic_open(), at),
    ensures
        form_token(html) is None,
{
}

/// A hidden field whose value is empty gives no one-time value, where no
/// other such field starts before it.
pub proof fn token_absent_when_empty(before: Seq<char>, after: Seq<char>)
    requires
        forall|i: int, j: int|
            quoted_at(
                before + magic_open() + magic_close() + after,
                magic_open(),
                magic_close(),
                i,
                j,
            ) ==> before.len() <= i,
    ensures
        form_token(before + magic_open() + magic_close() + after) is None,
{
    reveal_strlit("\">");
    let open = magic_open();
    let close = magic_close();
    let html = before + open + close + after;
    let i = before.len() as int;
    let j = i + open.len();
    assert(html.subrange(i, i + open.len()) =~= open);
    assert(html.subrange(j, j + close.len()) =~= close);
    assert(quoted_at(html, open, close, i, j));
    first_quoted_is(html, open, close, i, j);
}

/// A one-time value is never empty.
pub proof fn token_is_never_empty(html: Seq<char>)
    ensures
        form_token(html) matches Some(magic) ==> magic.len() > 0,
{
}

/// Finds the first quoted value in `hay` and returns where the value
/// begins and where it ends.
fn locate_first_quoted(hay: &Vec<char>, open: &Vec<char>, close: &Vec<char>) -> (r: Option<
    (usize, usize),
>)
    requires
        close@.len() > 0,
        close@[0] == '"',
    ensures
        match r {
            Some((a, b)) => {
                &&& a <= b <= hay@.len()
                &&& first_quoted_at(hay@, open@, close@, a - open@.len(), b as int)
            },
            None => forall|i: int, j: int| !quoted_at(hay@, open@, close@, i, j),
        },
{
    let mut from: usize = 0;
    loop
        invariant
            close@.len() > 0,
            close@[0] == '"',
            from <= hay@.len(),
            forall|i: int, j: int| i < from ==> !quoted_at(hay@, open@, close@, i, j),
        decreases hay@.len() - from,
    {
        let i: usize = match find_from(hay, open, from) {
            Some(i) => i,
            None => {
                return None;
            },
        };
        assert(i + open@.len() <= hay.len());
        let start: usize = i + open.len();
        let j: usize = match find_char_from(hay, '"', start) {
            Some(j) => j,
            None => {
                assert forall|i2: int, j2: int| !quoted_at(hay@, open@, close@, i2, j2) by {
                    if quoted_at(hay@, open@, close@, i2, j2) {
                        assert(hay@.subrange(j2, j2 + close@.len())[0] == hay@[j2]);
                    }
                }
                return None;
            },
        };
        if matches_at(hay, close, j) {
            return Some((start, j));
        }
        assert forall|i2: int, j2: int| i2 <= i implies !quoted_at(hay@, open@, close@, i2, j2) by {
            if quoted_at(hay@, open@, close@, i2, j2) {
                assert(hay@.subrange(j2, j2 + close@.len())[0] == hay@[j2]);
            }
        }
        from = i + 1;
    }
}

/// The characters of `s` from index `a` up to index `b`, as a string.
fn slice_of(s: &str, a: usize, b: usize) -> (r: String)
    requires
        a <= b <= s@.len(),
    ensures
        r@ == s@.subrange(a as int, b as int),
{
    s.substring_char(a, b).to_owned()
}

/// The target of the first redirect assignment `window.location="…"` in
/// `html`, or `None` where the page holds no such assignment.
pub fn extract_captive_portal_url(html: &str) -> (r: Option<String>)
    ensures
        match r {
            Some(url) => redirect_url(html@) == Some(url@),
            None => redirect_url(html@) is None,
        },
{
    let hay: Vec<char> = chars_of(html);
    let open: Vec<char> = chars_of("window.location=\"");
    let close: Vec<char> = chars_of("\"");
    proof {
        reveal_strlit("\"");
    }
    match locate_first_quoted(&hay, &open, &close) {
        Some((a, b)) => {
            proof {
                first_quoted_is(hay@, open@, close@, a - open@.len(), b as int);
            }
            Some(slice_of(html, a, b))
        },
        None => None,
    }
}

/// The value of the first hidden form field
/// `<input type="hidden" name="magic" value="…">` in `html`. Returns `None`
/// where the page holds no such field, and where the value is empty.
pub fn extract_magic_value(html: &str) -> (r: Option<String>)
    ensures
        match r {
            Some(magic) => form_token(html@) == Some(magic@),
            None => form_token(html@) is None,
        },
{
    let hay: Vec<char> = chars_of(html);
    let open: Vec<char> = chars_of("<input type=\"hidden\" name=\"magic\" value=\"");
    let close: Vec<char> = chars_of("\">");
    proof {
        reveal_strlit("\">");
    }
    match locate_first_quoted(&hay, &open, &close) {
        Some((a, b)) => {
            proof {
                first_quoted_is(hay@, open@, close@, a - open@.len(), b as int);
            }
            if a < b {
                Some(slice_of(html, a, b))
            } else {
                None
            }
        },
        None => None,
    }
}

/// The address that answers "no content" where the internet is reachable.
pub const CONNECTIVITY_CHECK_URL: &'static str = "http://clients3.google.com/generate_204";

/// The longest that one request may take, in seconds.
pub const REQUEST_TIMEOUT_SECS: u64 = 10;

/// The status "no content".
pub const NO_CONTENT: u16 = 204;

/// A status from 200 to 299.
pub open spec fn success_status(status: u16) -> bool {
    200 <= status <= 299
}

/// A status from 300 to 399.
pub open spec fn redirection_status(status: u16) -> bool {
    300 <= status <= 399
}

pub fn is_success(status: u16) -> (b: bool)
    ensures
        b == success_status(status),
{
    200 <= status && status <= 299
}

pub fn is_redirection(status: u16) -> (b: bool)
    ensures
        b == redirection_status(status),
{
    300 <= status && status <= 399
}

/// The line that `reqwest::StatusCode` prints for a status from 100 to 999:
/// the number and the reason phrase that goes with it.
pub uninterp spec fn status_line(status: u16) -> Seq<char>;

/// Prints a status as `reqwest::StatusCode` does (the type and its
/// `Display` are those of the `http` crate). `StatusCode::from_u16` takes
/// the numbers from 100 to 999 and refuses every other; for a number that
/// it takes, the result is the line that `Display` writes, which depends on
/// the number alone. Neither call can panic.
#[verifier::external_body]
fn status_display(status: u16) -> (line: Option<String>)
    ensures
        line is Some == (100 <= status <= 999),
        line matches Some(text) ==> text@ == status_line(status),
{
    match reqwest::StatusCode::from_u16(status) {
        Ok(code) => Some(code.to_string()),
        Err(_) => None,
    }
}

/// How a status is written: the line of `status_line` for a status that a
/// response can carry, the bare number for any other.
pub open spec fn status_text(status: u16) -> Seq<char> {
    if 100 <= status <= 999 {
        status_line(status)
    } else {
        decimal(status as nat)
    }
}

/// Writes a status, with its reason phrase where it has one.
pub fn describe_status(status: u16) -> (text: String)
    ensures
        text@ == status_text(status),
{
    match status_display(status) {
        Some(text) => text,
        None => {
            let mut text: String = String::new();
            push_decimal(&mut text, status as u64);
            text
        },
    }
}

/// How a request ended, as the transport reports it.
#[derive(Debug, PartialEq, Eq)]
pub enum HttpReply {
    /// The server answered. `status_error` is what the transport says of
    /// the status where it counts the status as an error, and `None`
    /// otherwise.
    Response { status: u16, body: String, status_error: Option<String> },
    /// No answer came: name resolution, connection, TLS or the time limit
    /// failed.
    TransportError { cause: String },
}

/// An `HttpReply` as contracts see it.
pub enum HttpReplyView {
    Response { status: u16, body: Seq<char>, status_error: Option<Seq<char>> },
    TransportError { cause: Seq<char> },
}

impl View for HttpReply {
    type V = HttpReplyView;

    open spec fn view(&self) -> HttpReplyView {
        match self {
            HttpReply::Response { status, body, status_error } => HttpReplyView::Response {
                status: *status,
                body: body@,
                status_error: match status_error {
                    Some(text) => Some(text@),
                    None => None,
                },
            },
            HttpReply::TransportError { cause } => HttpReplyView::TransportError { cause: cause@ },
        }
    }
}

/// Why a connectivity probe gave no reading.
#[derive(Debug, PartialEq, Eq)]
pub enum ProbeFailure {
    /// The check address answered with a status that is neither a success
    /// nor "no content". `cause` is what the transport said of the status,
    /// or the status as it is written where the transport said nothing.
    Status { status: u16, cause: String },
    /// The request did not get through.
    Transport { cause: String },
}

/// A `ProbeFailure` as contracts see it.
pub enum ProbeFailureView {
    Status { status: u16, cause: Seq<char> },
    Transport { cause: Seq<char> },
}

impl View for ProbeFailure {
    type V = ProbeFailureView;

    open spec fn view(&self) -> ProbeFailureView {
        match self {
            ProbeFailure::Status { status, cause } => ProbeFailureView::Status {
                status: *status,
                cause: cause@,
            },
            ProbeFailure::Transport { cause } => ProbeFailureView::Transport { cause: cause@ },
        }
    }
}

/// What one answer to a connectivity probe shows.
#[derive(Debug, PartialEq, Eq)]
pub enum ProbeReading {
    /// "No content": the internet is reachable.
    Clear,
    /// A success whose body redirects to a portal.
    Portal { redirect_url: String },
    /// A success whose body holds no redirect: neither clear nor a portal.
    Indistinct,
    /// No usable answer.
    Failed { cause: ProbeFailure },
}

/// A `ProbeReading` as contracts see it.
pub enum ProbeReadingView {
    Clear,
    Portal { redirect_url: Seq<char> },
    Indistinct,
    Failed { cause: ProbeFailureView },
}

impl View for ProbeReading {
    type V = ProbeReadingView;

    open spec fn view(&self) -> ProbeReadingView {
        match self {
            ProbeReading::Clear => ProbeReadingView::Clear,
            ProbeReading::Portal { redirect_url } => ProbeReadingView::Portal {
                redirect_url: redirect_url@,
            },
            ProbeReading::Indistinct => ProbeReadingView::Indistinct,
            ProbeReading::Failed { cause } => ProbeReadingView::Failed { cause: cause@ },
        }
    }
}

/// What is reported of a status that fails a probe: what the transport
/// said of it, or the status as it is written where the transport said
/// nothing.
pub open spec fn status_failure_text(status: u16, status_error: Option<Seq<char>>) -> Seq<char> {
    match status_error {
        Some(text) => text,
        None => status_text(status),
    }
}

/// The reading that an answer to a connectivity probe gives.
pub open spec fn probe_reading(reply: HttpReplyView) -> ProbeReadingView {
    match reply {
        HttpReplyView::Response { status, body, status_error } => {
            if status == NO_CONTENT {
                ProbeReadingView::Clear
            } else if success_status(status) {
                match redirect_url(body) {
                    Some(url) => ProbeReadingView::Portal { redirect_url: url },
                    None => ProbeReadingView::Indistinct,
                }
            } else {
                ProbeReadingView::Failed {
                    cause: ProbeFailureView::Status {
                        status,
                        cause: status_failure_text(status, status_error),
                    },
                }
            }
        },
        HttpReplyView::TransportError { cause } => ProbeReadingView::Failed {
            cause: ProbeFailureView::Transport { cause },
        },
    }
}

/// Reads one answer to a connectivity probe.
pub fn read_probe(reply: &HttpReply) -> (reading: ProbeReading)
    ensures
        reading@ == probe_reading(reply@),
{
    match reply {
        HttpReply::Response { status, body, status_error } => {
            if *status == NO_CONTENT {
                ProbeReading::Clear
            } else if is_success(*status) {
                match extract_captive_portal_url(body.as_str()) {
                    Some(url) => ProbeReading::Portal { redirect_url: url },
                    None => ProbeReading::Indistinct,
                }
            } else {
                let cause: String = match status_error {
                    Some(text) => text.clone(),
                    None => describe_status(*status),
                };
                ProbeReading::Failed { cause: ProbeFailure::Status { status: *status, cause } }
            }
        },
        HttpReply::TransportError { cause } => ProbeReading::Failed {
            cause: ProbeFailure::Transport { cause: cause.clone() },
        },
    }
}

/// What one probe cycle concludes about the network.
#[derive(Debug, PartialEq, Eq)]
pub enum ConnectivityResult {
    /// No portal stands in the way.
    Clear,
    /// A portal intercepts traffic and redirects to `redirect_url`.
    PortalDetected { redirect_url: String },
    /// The probe gave no reading.
    ProbeFailed { cause: ProbeFailure },
}

/// A `ConnectivityResult` as contracts see it.
pub enum ConnectivityResultView {
    Clear,
    PortalDetected { redirect_url: Seq<char> },
    ProbeFailed { cause: ProbeFailureView },
}

impl View for ConnectivityResult {
    type V = ConnectivityResultView;

    open spec fn view(&self) -> ConnectivityResultView {
        match self {
            ConnectivityResult::Clear => ConnectivityResultView::Clear,
            ConnectivityResult::PortalDetected { redirect_url } => {
                ConnectivityResultView::PortalDetected { redirect_url: redirect_url@ }
            },
            ConnectivityResult::ProbeFailed { cause } => ConnectivityResultView::ProbeFailed {
                cause: cause@,
            },
        }
    }
}

/// What a reading settles. An indistinct reading settles nothing the first
/// time and counts as clear when the reading before it in the same cycle
/// was indistinct too.
pub open spec fn connectivity(indistinct_before: bool, reading: ProbeReadingView) -> Option<
    ConnectivityResultView,
> {
    match reading {
        ProbeReadingView::Clear => Some(ConnectivityResultView::Clear),
        ProbeReadingView::Portal { redirect_url } => Some(
            ConnectivityResultView::PortalDetected { redirect_url },
        ),
        ProbeReadingView::Indistinct => if indistinct_before {
            Some(ConnectivityResultView::Clear)
        } else {
            None
        },
        ProbeReadingView::Failed { cause } => Some(ConnectivityResultView::ProbeFailed { cause }),
    }
}

/// Settles a reading, or returns `None` where the probe is to be sent once
/// more.
pub fn settle_probe(indistinct_before: bool, reading: ProbeReading) -> (r: Option<
    ConnectivityResult,
>)
    ensures
        r is Some == connectivity(indistinct_before, reading@) is Some,
        r matches Some(result) ==> connectivity(indistinct_before, reading@) == Some(result@),
{
    match reading {
        ProbeReading::Clear => Some(ConnectivityResult::Clear),
        ProbeReading::Portal { redirect_url } => Some(
            ConnectivityResult::PortalDetected { redirect_url },
        ),
        ProbeReading::Indistinct => if indistinct_before {
            Some(ConnectivityResult::Clear)
        } else {
            None
        },
        ProbeReading::Failed { cause } => Some(ConnectivityResult::ProbeFailed { cause }),
    }
}

/// Whether an answer to a probe confirms that the internet is reachable:
/// only "no content" does. A request that did not get through confirms
/// nothing and is an error.
pub open spec fn connectivity_verdict(reply: HttpReplyView) -> core::result::Result<
    bool,
    AppErrorView,
> {
    match reply {
        HttpReplyView::Response { status, .. } => Ok(status == NO_CONTENT),
        HttpReplyView::TransportError { cause } => Err(AppErrorView::Network(cause)),
    }
}

/// Tells from the answer to a probe whether the internet is reachable.
pub fn verify_internet_connectivity(reply: &HttpReply) -> (r: crate::error::Result<bool>)
    ensures
        match r {
            Ok(online) => connectivity_verdict(reply@) == Ok::<bool, AppErrorView>(online),
            Err(e) => connectivity_verdict(reply@) == Err::<bool, AppErrorView>(e@),
        },
{
    match reply {
        HttpReply::Response { status, .. } => Ok(*status == NO_CONTENT),
        HttpReply::TransportError { cause } => Err(AppError::Network(cause.clone())),
    }
}

/// The host of the portal whose login form is not served where it is
/// posted.
pub const PORTAL_HOST: &'static str = "login.iitmandi.ac.in";

/// Where a login for that portal is posted.
pub const PORTAL_LOGIN_URL: &'static str = "https://login.iitmandi.ac.in:1003/portal?";

/// Where a session with that portal is ended.
pub const PORTAL_LOGOUT_URL: &'static str = "https://login.iitmandi.ac.in:1003/logout?";

/// The name of the form field that carries the address to return to.
pub const REDIRECT_FIELD: &'static str = "4Tredir";

/// A user's name and password.
pub struct Credentials {
    pub username: String,
    pub password: String,
}

/// `Credentials` as contracts see them.
pub struct CredentialsView {
    pub username: Seq<char>,
    pub password: Seq<char>,
}

impl View for Credentials {
    type V = CredentialsView;

    open spec fn view(&self) -> CredentialsView {
        CredentialsView { username: self.username@, password: self.password@ }
    }
}

/// A login form, ready to be posted.
#[derive(PartialEq, Eq)]
pub struct LoginRequest {
    /// The address that the form is posted to.
    pub target: String,
    pub username: String,
    pub password: String,
    /// The address that the portal detected, sent along as the place to
    /// return to.
    pub redirect: String,
    /// The one-time value from the portal's form.
    pub magic: String,
}

/// A `LoginRequest` as contracts see it.
pub struct LoginRequestView {
    pub target: Seq<char>,
    pub username: Seq<char>,
    pub password: Seq<char>,
    pub redirect: Seq<char>,
    pub magic: Seq<char>,
}

impl View for LoginRequest {
    type V = LoginRequestView;

    open spec fn view(&self) -> LoginRequestView {
        LoginRequestView {
            target: self.target@,
            username: self.username@,
            password: self.password@,
            redirect: self.redirect@,
            magic: self.magic@,
        }
    }
}

/// Where the login for a detected portal address is posted: the fixed
/// login address where the detected one names the known portal host, the
/// detected address itself otherwise.
pub open spec fn login_target(portal_url: Seq<char>) -> Seq<char> {
    if contains_text(portal_url, PORTAL_HOST@) {
        PORTAL_LOGIN_URL@
    } else {
        portal_url
    }
}

/// The login form for a detected portal address.
pub open spec fn login_form(
    portal_url: Seq<char>,
    username: Seq<char>,
    password: Seq<char>,
    magic: Seq<char>,
) -> LoginRequestView {
    LoginRequestView {
        target: login_target(portal_url),
        username,
        password,
        redirect: portal_url,
        magic,
    }
}

/// Prepares the login form for the portal detected at `portal_url`.
pub fn login_request(portal_url: &str, username: &str, password: &str, magic: &str) -> (request:
    LoginRequest)
    ensures
        request@ == login_form(portal_url@, username@, password@, magic@),
{
    let target: String = if contains(portal_url, PORTAL_HOST) {
        PORTAL_LOGIN_URL.to_owned()
    } else {
        portal_url.to_owned()
    };
    LoginRequest {
        target,
        username: username.to_owned(),
        password: password.to_owned(),
        redirect: portal_url.to_owned(),
        magic: magic.to_owned(),
    }
}

impl LoginRequest {
    /// The fields of the form, each with its name, in the order in which
    /// they are sent.
    pub fn form(&self) -> (fields: Vec<(String, String)>)
        ensures
            fields@.len() == 4,
            fields@[0].0@ == "username"@ && fields@[0].1@ == self@.username,
            fields@[1].0@ == "password"@ && fields@[1].1@ == self@.password,
            fields@[2].0@ == REDIRECT_FIELD@ && fields@[2].1@ == self@.redirect,
            fields@[3].0@ == "magic"@ && fields@[3].1@ == self@.magic,
    {
        let mut fields: Vec<(String, String)> = Vec::new();
        fields.push(("username".to_owned(), self.username.clone()));
        fields.push(("password".to_owned(), self.password.clone()));
        fields.push((REDIRECT_FIELD.to_owned(), self.redirect.clone()));
        fields.push(("magic".to_owned(), self.magic.clone()));
        fields
    }
}

/// Whether the portal took a posted login for processing: any success or
/// redirection does, which does not yet show that the login worked.
pub open spec fn submission_accepted(status: u16) -> bool {
    success_status(status) || redirection_status(status)
}

} // verus!
