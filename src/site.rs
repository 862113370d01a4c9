//! The site's wire contract: requests, responses, endpoint URLs and form
//! bodies, each stated as a value over character sequences.
use vstd::prelude::*;

use crate::config::{SyosetuConfig, YesNo};
use crate::html::{extract_id_from_url, regex_capture, regex_compiles, SiteError, UrlPattern};

verus! {

#[derive(Debug, Clone, Copy, PartialEq, Eq, Structural)]
pub enum Method {
    Get,
    Post,
}

/// A request to send; `form` is url-encoded as the body of a `Post`.
#[derive(Debug)]
pub struct HttpRequest {
    pub method: Method,
    pub url: String,
    pub form: Vec<(String, String)>,
}

/// A request as a mathematical value.
pub struct RequestView {
    pub method: Method,
    pub url: Seq<char>,
    pub form: Seq<(Seq<char>, Seq<char>)>,
}

/// The form fields of `f` as character sequences.
pub open spec fn form_view(f: Seq<(String, String)>) -> Seq<(Seq<char>, Seq<char>)> {
    f.map_values(|p: (String, String)| (p.0@, p.1@))
}

impl View for HttpRequest {
    type V = RequestView;

    open spec fn view(&self) -> RequestView {
        RequestView { method: self.method, url: self.url@, form: form_view(self.form@) }
    }
}

/// What came back for a request, with redirects not followed: the status,
/// the `Location` header when present and readable, and the body text
/// (read for page fetches, empty otherwise).
#[derive(Debug)]
pub struct HttpResponse {
    pub status: u16,
    pub location: Option<String>,
    pub body: String,
}

pub open spec fn opt_view(o: Option<String>) -> Option<Seq<char>> {
    match o {
        Some(s) => Some(s@),
        None => None,
    }
}

/// A 3xx status.
pub open spec fn is_redirection(status: u16) -> bool {
    300 <= status <= 399
}

/// A 2xx status.
pub open spec fn is_success(status: u16) -> bool {
    200 <= status <= 299
}

pub fn status_is_redirection(status: u16) -> (r: bool)
    ensures
        r == is_redirection(status),
{
    300 <= status && status <= 399
}

pub fn status_is_success(status: u16) -> (r: bool)
    ensures
        r == is_success(status),
{
    200 <= status && status <= 299
}

/// The id of the form on the book's settings and metadata pages.
pub open spec fn manage_form_id() -> Seq<char> {
    "usernovelmanageForm"@
}

pub open spec fn book_create_url(base: Seq<char>) -> Seq<char> {
    base + "/usernovel/add/"@
}

pub open spec fn settings_page_url(base: Seq<char>, book_id: Seq<char>) -> Seq<char> {
    base + "/draftnovelmanage/receptionsinput/ncode/"@ + book_id + "/"@
}

pub open spec fn info_page_url(base: Seq<char>, book_id: Seq<char>) -> Seq<char> {
    base + "/draftnovelmanage/updateinput/ncode/"@ + book_id + "/"@
}

/// Where a scraped form action is posted.
pub open spec fn form_post_url(base: Seq<char>, action: Seq<char>) -> Seq<char> {
    base + "/"@ + action
}

pub open spec fn draft_page_url(base: Seq<char>, book_id: Seq<char>) -> Seq<char> {
    base + "/draftepisode/input/ncode/"@ + book_id + "/"@
}

pub open spec fn draft_add_url(base: Seq<char>, book_id: Seq<char>) -> Seq<char> {
    base + "/draftepisode/add/ncode/"@ + book_id + "/"@
}

/// The publish confirmation for a draft; `millis` only defeats caches.
pub open spec fn confirm_url(base: Seq<char>, draft_id: Seq<char>, millis: int) -> Seq<char> {
    base + "/draftepisode/postconfirmapi/?draftepisodeid="@ + draft_id
        + "&reserve=off&end=1&_="@ + int_text(millis)
}

pub open spec fn commit_url(base: Seq<char>) -> Seq<char> {
    base + "/draftepisode/postapi/"@
}

pub open spec fn digit_char(d: int) -> char {
    if d == 0 { '0' }
    else if d == 1 { '1' }
    else if d == 2 { '2' }
    else if d == 3 { '3' }
    else if d == 4 { '4' }
    else if d == 5 { '5' }
    else if d == 6 { '6' }
    else if d == 7 { '7' }
    else if d == 8 { '8' }
    else { '9' }
}

/// Decimal digits of `n`, most significant first, without leading zeros.
pub open spec fn nat_text(n: nat) -> Seq<char>
    decreases n,
{
    if n < 10 {
        seq![digit_char(n as int)]
    } else {
        nat_text(n / 10) + seq![digit_char((n % 10) as int)]
    }
}

/// Decimal text of `n`, with a leading `-` when negative.
pub open spec fn int_text(n: int) -> Seq<char> {
    if n < 0 {
        seq!['-'] + nat_text((-n) as nat)
    } else {
        nat_text(n as nat)
    }
}

fn digit_str(d: u64) -> (r: &'static str)
    requires
        d < 10,
    ensures
        r@ == seq![digit_char(d as int)],
{
    proof {
        reveal_strlit("0");
        reveal_strlit("1");
        reveal_strlit("2");
        reveal_strlit("3");
        reveal_strlit("4");
        reveal_strlit("5");
        reveal_strlit("6");
        reveal_strlit("7");
        reveal_strlit("8");
        reveal_strlit("9");
    }
    if d == 0 { "0" }
    else if d == 1 { "1" }
    else if d == 2 { "2" }
    else if d == 3 { "3" }
    else if d == 4 { "4" }
    else if d == 5 { "5" }
    else if d == 6 { "6" }
    else if d == 7 { "7" }
    else if d == 8 { "8" }
    else { "9" }
}

fn nat_to_text(n: u64) -> (r: String)
    ensures
        r@ == nat_text(n as nat),
    decreases n,
{
    if n < 10 {
        String::from_str(digit_str(n))
    } else {
        let mut s = nat_to_text(n / 10);
        s.append(digit_str(n % 10));
        s
    }
}

/// Decimal text of a signed integer.
pub fn int_to_text(n: i64) -> (r: String)
    ensures
        r@ == int_text(n as int),
{
    if n < 0 {
        let magnitude: u64 = ((-(n + 1)) as u64) + 1;
        let mut s = String::from_str("-");
        s.append(nat_to_text(magnitude).as_str());
        proof {
            reveal_strlit("-");
        }
        s
    } else {
        nat_to_text(n as u64)
    }
}


/// Path of the redirect that follows a successful book creation.
pub open spec fn book_id_pattern() -> Seq<char> {
    "/usernovelmanage/top/ncode/(\\d+)/"@
}

/// Path of the redirect that follows a successful draft submission.
pub open spec fn draft_id_pattern() -> Seq<char> {
    "/draftepisode/view/draftepisodeid/(\\d+)/"@
}

/// Everything the publishers need from the run: where the site is, the
/// search preference for new books, and the two compiled redirect patterns.
pub struct Site {
    pub base_url: String,
    pub searchable: YesNo,
    pub book_pattern: UrlPattern,
    pub draft_pattern: UrlPattern,
}

impl Site {
    pub open spec fn wf(&self) -> bool {
        &&& self.book_pattern.source() == book_id_pattern()
        &&& self.draft_pattern.source() == draft_id_pattern()
    }

    /// Compiles the redirect patterns once; `None` only if the regex engine
    /// refuses one of them.
    pub fn new(config: &SyosetuConfig) -> (r: Option<Site>)
        ensures
            r is Some <==> regex_compiles(book_id_pattern()) && regex_compiles(draft_id_pattern()),
            r is Some ==> {
                let site = r->Some_0;
                &&& site.wf()
                &&& site.base_url@ == config.base_url@
                &&& site.searchable == config.novel.searchable
            },
    {
        let book_pattern = match UrlPattern::new("/usernovelmanage/top/ncode/(\\d+)/") {
            Some(p) => p,
            None => return None,
        };
        let draft_pattern = match UrlPattern::new("/draftepisode/view/draftepisodeid/(\\d+)/") {
            Some(p) => p,
            None => return None,
        };
        Some(Site {
            base_url: config.base_url.clone(),
            searchable: config.novel.searchable,
            book_pattern,
            draft_pattern,
        })
    }
}

/// The identifier that a creation step's redirect carries, or why there is none.
pub open spec fn redirect_id(resp: ResponseView, pattern: Seq<char>) -> Result<Seq<char>, SiteError> {
    if !is_redirection(resp.status) {
        Err(SiteError::HttpStatus(resp.status))
    } else {
        match resp.location {
            None => Err(SiteError::SiteContract),
            Some(loc) => match regex_capture(pattern, loc) {
                Some(id) => Ok(id),
                None => Err(SiteError::SiteContract),
            },
        }
    }
}

/// A response as a mathematical value.
pub struct ResponseView {
    pub status: u16,
    pub location: Option<Seq<char>>,
    pub body: Seq<char>,
}

impl View for HttpResponse {
    type V = ResponseView;

    open spec fn view(&self) -> ResponseView {
        ResponseView { status: self.status, location: opt_view(self.location), body: self.body@ }
    }
}

pub open spec fn result_view(r: Result<String, SiteError>) -> Result<Seq<char>, SiteError> {
    match r {
        Ok(s) => Ok(s@),
        Err(e) => Err(e),
    }
}

/// Success of a creation step is a redirect; the new id is read from its target.
pub fn id_from_redirect(resp: &HttpResponse, pattern: &UrlPattern) -> (r: Result<String, SiteError>)
    ensures
        result_view(r) == redirect_id(resp@, pattern.source()),
{
    if !status_is_redirection(resp.status) {
        return Err(SiteError::HttpStatus(resp.status));
    }
    match &resp.location {
        None => Err(SiteError::SiteContract),
        Some(loc) => extract_id_from_url(loc.as_str(), pattern),
    }
}

/// A form field.
pub fn field(name: &str, value: &str) -> (r: (String, String))
    ensures
        r.0@ == name@,
        r.1@ == value@,
{
    (String::from_str(name), String::from_str(value))
}

/// `base` followed by `a`, `b` and `c`.
pub fn url3(base: &str, a: &str, b: &str, c: &str) -> (r: String)
    ensures
        r@ == base@ + a@ + b@ + c@,
{
    let mut s = String::from_str(base);
    s.append(a);
    s.append(b);
    s.append(c);
    s
}

pub fn get_request(url: String) -> (r: HttpRequest)
    ensures
        r@ == (RequestView { method: Method::Get, url: url@, form: seq![] }),
{
    let r = HttpRequest { method: Method::Get, url, form: Vec::new() };
    assert(form_view(r.form@) =~= seq![]);
    r
}

} // verus!
