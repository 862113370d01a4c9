//! Publishing one chapter: fetch the draft page for its one-time token, submit
//! the draft, then, for a long enough chapter, confirm and commit the publish.
use vstd::prelude::*;

use crate::text::{trim, trim_end, trim_end_text, trim_text};
use crate::html::{csrf_selector, extract_csrf_token, first_attr, SiteError};
use crate::site::{
    commit_url, confirm_url, draft_add_url, draft_id_pattern, draft_page_url, field, form_view,
    get_request, id_from_redirect, int_to_text, is_success, redirect_id, status_is_success,
    url3, HttpRequest, HttpResponse, Method, RequestView, ResponseView, Site,
};

verus! {

/// A chapter draft needs more characters than this to be published.
pub const PUBLISH_THRESHOLD: usize = 200;

/// Whether a chapter with this content is published rather than left as a draft.
pub open spec fn is_publishable(content: Seq<char>) -> bool {
    content.len() > PUBLISH_THRESHOLD
}

/// The body of a chapter file: each line after the title, each followed by a newline.
pub open spec fn body_text(lines: Seq<Seq<char>>) -> Seq<char>
    decreases lines.len(),
{
    if lines.len() == 0 {
        seq![]
    } else {
        body_text(lines.drop_last()) + lines.last() + seq!['\n']
    }
}

pub open spec fn is_blank(line: Seq<char>) -> bool {
    trim(line).len() == 0
}

/// Line `k` is the first line that is not blank.
pub open spec fn is_title_line(lines: Seq<Seq<char>>, k: int) -> bool {
    &&& 0 <= k < lines.len()
    &&& !is_blank(lines[k])
    &&& forall|j: int| 0 <= j < k ==> is_blank(#[trigger] lines[j])
}

pub open spec fn lines_view(lines: Seq<String>) -> Seq<Seq<char>> {
    lines.map_values(|l: String| l@)
}

/// One chapter: its title line and its body text.
#[derive(Debug)]
pub struct Chapter {
    pub title: String,
    pub content: String,
}

/// The draft submission form.
pub open spec fn draft_form(title: Seq<char>, content: Seq<char>, token: Seq<char>) -> Seq<(Seq<char>, Seq<char>)> {
    seq![
        ("subtitle"@, title),
        ("novel"@, content),
        ("preface"@, ""@),
        ("postscript"@, ""@),
        ("MAX_FILE_SIZE"@, "1048576"@),
        ("novel-file"@, ""@),
        ("csrf_onetimepass"@, token),
        ("freememo"@, ""@),
    ]
}

pub open spec fn draft_request(base: Seq<char>, book_id: Seq<char>, title: Seq<char>, content: Seq<char>, token: Seq<char>) -> RequestView {
    RequestView { method: Method::Post, url: draft_add_url(base, book_id), form: draft_form(title, content, token) }
}

pub open spec fn confirm_request(base: Seq<char>, draft_id: Seq<char>, millis: int) -> RequestView {
    RequestView { method: Method::Get, url: confirm_url(base, draft_id, millis), form: seq![] }
}

pub open spec fn commit_request(base: Seq<char>, draft_id: Seq<char>) -> RequestView {
    RequestView { method: Method::Post, url: commit_url(base), form: seq![("draftepisodeid"@, draft_id)] }
}

/// Where a chapter stands: `Start -> AwaitingTokenPage -> AwaitingDraft`,
/// then `Skipped`, or `AwaitingConfirm -> AwaitingCommit -> Published`.
/// Each state that awaits holds the draft id once it is known.
#[derive(Debug)]
pub enum ChapterState {
    Start,
    AwaitingTokenPage,
    AwaitingDraft,
    AwaitingConfirm(String),
    AwaitingCommit(String),
    Skipped(String),
    Published(String),
    Failed(SiteError),
}

pub enum ChapterStateView {
    Start,
    AwaitingTokenPage,
    AwaitingDraft,
    AwaitingConfirm(Seq<char>),
    AwaitingCommit(Seq<char>),
    Skipped(Seq<char>),
    Published(Seq<char>),
    Failed(SiteError),
}

impl View for ChapterState {
    type V = ChapterStateView;

    open spec fn view(&self) -> ChapterStateView {
        match self {
            ChapterState::Start => ChapterStateView::Start,
            ChapterState::AwaitingTokenPage => ChapterStateView::AwaitingTokenPage,
            ChapterState::AwaitingDraft => ChapterStateView::AwaitingDraft,
            ChapterState::AwaitingConfirm(d) => ChapterStateView::AwaitingConfirm(d@),
            ChapterState::AwaitingCommit(d) => ChapterStateView::AwaitingCommit(d@),
            ChapterState::Skipped(d) => ChapterStateView::Skipped(d@),
            ChapterState::Published(d) => ChapterStateView::Published(d@),
            ChapterState::Failed(e) => ChapterStateView::Failed(*e),
        }
    }
}

impl ChapterStateView {
    /// A state in which no further request is sent.
    pub open spec fn is_final(self) -> bool {
        self is Skipped || self is Published || self is Failed
    }
}

pub open spec fn request_opt_view(r: Option<HttpRequest>) -> Option<RequestView> {
    match r {
        Some(q) => Some(q@),
        None => None,
    }
}

/// The state that follows `s` once `resp` answers the request that `s` sent,
/// and the request to send next. `millis` is the clock reading that a
/// confirmation request carries.
pub open spec fn chapter_next(
    base: Seq<char>,
    book_id: Seq<char>,
    title: Seq<char>,
    content: Seq<char>,
    s: ChapterStateView,
    resp: ResponseView,
    millis: int,
) -> (ChapterStateView, Option<RequestView>) {
    match s {
        ChapterStateView::AwaitingTokenPage => match first_attr(resp.body, csrf_selector(), "value"@) {
            Some(token) => (
                ChapterStateView::AwaitingDraft,
                Some(draft_request(base, book_id, title, content, token)),
            ),
            None => (ChapterStateView::Failed(SiteError::SiteContract), None),
        },
        ChapterStateView::AwaitingDraft => match redirect_id(resp, draft_id_pattern()) {
            Ok(draft_id) => if is_publishable(content) {
                (ChapterStateView::AwaitingConfirm(draft_id), Some(confirm_request(base, draft_id, millis)))
            } else {
                (ChapterStateView::Skipped(draft_id), None)
            },
            Err(e) => (ChapterStateView::Failed(e), None),
        },
        ChapterStateView::AwaitingConfirm(draft_id) => if is_success(resp.status) {
            (ChapterStateView::AwaitingCommit(draft_id), Some(commit_request(base, draft_id)))
        } else {
            (ChapterStateView::Failed(SiteError::HttpStatus(resp.status)), None)
        },
        ChapterStateView::AwaitingCommit(draft_id) => (ChapterStateView::Published(draft_id), None),
        _ => (s, None),
    }
}

/// Relies on `chrono::Utc::now` and `DateTime::timestamp_millis`: the
/// current time in milliseconds since the Unix epoch, of which nothing is
/// promised.
#[verifier::external_body]
pub(crate) fn now_millis() -> (r: i64) {
    chrono::Utc::now().timestamp_millis()
}

/// A chapter file with a title line and nothing after it has empty content,
/// is not publishable, and once its draft is accepted it is skipped: no
/// confirmation request follows.
pub proof fn law_title_only_chapter_is_skipped(
    lines: Seq<Seq<char>>,
    base: Seq<char>,
    book_id: Seq<char>,
    resp: ResponseView,
    millis: int,
)
    requires
        lines.len() == 1,
        !is_blank(lines[0]),
        redirect_id(resp, draft_id_pattern()) is Ok,
    ensures
        is_title_line(lines, 0),
        trim_end(body_text(lines.subrange(1, 1))) == Seq::<char>::empty(),
        !is_publishable(trim_end(body_text(lines.subrange(1, 1)))),
        chapter_next(base, book_id, trim(lines[0]), trim_end(body_text(lines.subrange(1, 1))), ChapterStateView::AwaitingDraft, resp, millis)
            == (ChapterStateView::Skipped(redirect_id(resp, draft_id_pattern())->Ok_0), None::<RequestView>),
{
    assert(lines.subrange(1, 1) =~= Seq::<Seq<char>>::empty());
    assert(body_text(Seq::<Seq<char>>::empty()) == Seq::<char>::empty());
}

/// A chapter gets a publish confirmation request exactly when its content is
/// publishable: after an accepted draft, the machine either awaits the
/// confirmation of a publishable chapter or skips a short one.
pub proof fn law_publish_iff_publishable(
    base: Seq<char>,
    book_id: Seq<char>,
    title: Seq<char>,
    content: Seq<char>,
    resp: ResponseView,
    millis: int,
)
    requires
        redirect_id(resp, draft_id_pattern()) is Ok,
    ensures
        ({
            let (next, q) = chapter_next(base, book_id, title, content, ChapterStateView::AwaitingDraft, resp, millis);
            let draft_id = redirect_id(resp, draft_id_pattern())->Ok_0;
            &&& is_publishable(content) ==> next == ChapterStateView::AwaitingConfirm(draft_id)
                && q == Some(confirm_request(base, draft_id, millis))
            &&& !is_publishable(content) ==> next == ChapterStateView::Skipped(draft_id) && q is None
        }),
{
}

impl Chapter {
    /// Splits the lines of a chapter file (without their line breaks): the
    /// first non-blank line, trimmed, is the title; the lines after it, each
    /// ended by a newline and with trailing whitespace trimmed, are the
    /// content. `None` when every line is blank.
    pub fn parse(lines: &Vec<String>) -> (r: Option<Chapter>)
        ensures
            r is None <==> forall|j: int| 0 <= j < lines@.len() ==> is_blank(#[trigger] lines_view(lines@)[j]),
            r matches Some(ch) ==> exists|k: int|
                #[trigger] is_title_line(lines_view(lines@), k)
                && ch.title@ == trim(lines_view(lines@)[k])
                && ch.content@ == trim_end(body_text(lines_view(lines@).subrange(k + 1, lines@.len() as int))),
    {
        let ghost ls = lines_view(lines@);
        let mut k: usize = 0;
        let mut title = String::new();
        let mut found = false;
        while k < lines.len() && !found
            invariant
                k <= lines@.len(),
                ls == lines_view(lines@),
                !found ==> forall|j: int| 0 <= j < k ==> is_blank(#[trigger] ls[j]),
                found ==> k > 0 && is_title_line(ls, k - 1) && title@ == trim(ls[k - 1]),
            decreases lines.len() - k + if found { 0int } else { 1int },
        {
            assert(ls[k as int] == lines@[k as int]@);
            let t = trim_text(lines[k].as_str());
            if t.as_str().unicode_len() > 0 {
                title = t;
                found = true;
            }
            k = k + 1;
        }
        if !found {
            return None;
        }
        let ghost start = k as int;
        let mut body = String::new();
        let mut j: usize = k;
        while j < lines.len()
            invariant
                1 <= start <= j <= lines@.len(),
                ls == lines_view(lines@),
                ls.len() == lines@.len(),
                body@ == body_text(ls.subrange(start, j as int)),
            decreases lines.len() - j,
        {
            assert(ls.subrange(start, j + 1).drop_last() =~= ls.subrange(start, j as int));
            assert(ls.subrange(start, j + 1).last() == lines@[j as int]@);
            body.append(lines[j].as_str());
            body.append("\n");
            proof {
                reveal_strlit("\n");
            }
            j = j + 1;
        }
        let content = trim_end_text(body.as_str());
        let ch = Chapter { title, content };
        assert(is_title_line(ls, start - 1));
        assert(ls.subrange(start, ls.len() as int) == ls.subrange(start, j as int));
        Some(ch)
    }

    /// Whether the content has more than `PUBLISH_THRESHOLD` characters.
    pub fn is_published(&self) -> (r: bool)
        ensures
            r == is_publishable(self.content@),
    {
        self.content.as_str().unicode_len() > PUBLISH_THRESHOLD
    }

    /// The page that holds the one-time token for a new draft.
    pub fn draft_page_request(site: &Site, book_id: &str) -> (r: HttpRequest)
        ensures
            r@ == (RequestView { method: Method::Get, url: draft_page_url(site.base_url@, book_id@), form: seq![] }),
    {
        get_request(url3(site.base_url.as_str(), "/draftepisode/input/ncode/", book_id, "/"))
    }

    /// The draft submission, authorized by the token on the freshly fetched `page`.
    pub fn add_draft(&self, site: &Site, book_id: &str, page: &str) -> (r: Result<HttpRequest, SiteError>)
        ensures
            match r {
                Ok(q) => first_attr(page@, csrf_selector(), "value"@) matches Some(token)
                    && q@ == draft_request(site.base_url@, book_id@, self.title@, self.content@, token),
                Err(e) => e == SiteError::SiteContract
                    && first_attr(page@, csrf_selector(), "value"@) is None,
            },
    {
        let token = match extract_csrf_token(page) {
            Ok(t) => t,
            Err(e) => return Err(e),
        };
        let mut form: Vec<(String, String)> = Vec::new();
        form.push(field("subtitle", self.title.as_str()));
        form.push(field("novel", self.content.as_str()));
        form.push(field("preface", ""));
        form.push(field("postscript", ""));
        form.push(field("MAX_FILE_SIZE", "1048576"));
        form.push(field("novel-file", ""));
        form.push(field("csrf_onetimepass", token.as_str()));
        form.push(field("freememo", ""));
        let url = url3(site.base_url.as_str(), "/draftepisode/add/ncode/", book_id, "/");
        let q = HttpRequest { method: Method::Post, url, form };
        assert(form_view(q.form@) =~= draft_form(self.title@, self.content@, token@));
        Ok(q)
    }

    /// The publish confirmation for `draft_id`, or `None` when the chapter is
    /// too short and stays a draft.
    pub fn publish_draft(&self, site: &Site, draft_id: &str, millis: i64) -> (r: Option<HttpRequest>)
        ensures
            request_opt_view(r) == if is_publishable(self.content@) {
                Some(confirm_request(site.base_url@, draft_id@, millis as int))
            } else {
                None
            },
    {
        if !self.is_published() {
            return None;
        }
        let mut url = url3(site.base_url.as_str(), "/draftepisode/postconfirmapi/?draftepisodeid=", draft_id, "&reserve=off&end=1&_=");
        url.append(int_to_text(millis).as_str());
        Some(get_request(url))
    }

    /// The commit that follows a successful confirmation.
    pub fn commit_draft(site: &Site, draft_id: &str) -> (r: HttpRequest)
        ensures
            r@ == commit_request(site.base_url@, draft_id@),
    {
        let mut url = String::from_str(site.base_url.as_str());
        url.append("/draftepisode/postapi/");
        let mut form: Vec<(String, String)> = Vec::new();
        form.push(field("draftepisodeid", draft_id));
        let q = HttpRequest { method: Method::Post, url, form };
        assert(form_view(q.form@) =~= seq![("draftepisodeid"@, draft_id@)]);
        q
    }

    /// Leaves `Start`: the first request fetches the token page.
    pub fn start(&self, site: &Site, book_id: &str) -> (r: (ChapterState, HttpRequest))
        ensures
            r.0@ == ChapterStateView::AwaitingTokenPage,
            r.1@ == (RequestView { method: Method::Get, url: draft_page_url(site.base_url@, book_id@), form: seq![] }),
    {
        (ChapterState::AwaitingTokenPage, Chapter::draft_page_request(site, book_id))
    }

    /// One transition, with the clock reading `millis` given.
    pub fn advance_at(&self, site: &Site, book_id: &str, state: ChapterState, resp: &HttpResponse, millis: i64) -> (r: (ChapterState, Option<HttpRequest>))
        requires
            site.wf(),
        ensures
            (r.0@, request_opt_view(r.1)) == chapter_next(site.base_url@, book_id@, self.title@, self.content@, state@, resp@, millis as int),
    {
        match state {
            ChapterState::AwaitingTokenPage => match self.add_draft(site, book_id, resp.body.as_str()) {
                Ok(q) => (ChapterState::AwaitingDraft, Some(q)),
                Err(e) => (ChapterState::Failed(e), None),
            },
            ChapterState::AwaitingDraft => match id_from_redirect(resp, &site.draft_pattern) {
                Ok(draft_id) => match self.publish_draft(site, draft_id.as_str(), millis) {
                    Some(q) => (ChapterState::AwaitingConfirm(draft_id), Some(q)),
                    None => (ChapterState::Skipped(draft_id), None),
                },
                Err(e) => (ChapterState::Failed(e), None),
            },
            ChapterState::AwaitingConfirm(draft_id) => if status_is_success(resp.status) {
                let q = Chapter::commit_draft(site, draft_id.as_str());
                (ChapterState::AwaitingCommit(draft_id), Some(q))
            } else {
                (ChapterState::Failed(SiteError::HttpStatus(resp.status)), None)
            },
            ChapterState::AwaitingCommit(draft_id) => (ChapterState::Published(draft_id), None),
            other => (other, None),
        }
    }

    /// One transition, reading the clock for a confirmation request.
    pub fn advance(&self, site: &Site, book_id: &str, state: ChapterState, resp: &HttpResponse) -> (r: (ChapterState, Option<HttpRequest>))
        requires
            site.wf(),
        ensures
            exists|millis: i64|
                (r.0@, request_opt_view(r.1)) == #[trigger] chapter_next(site.base_url@, book_id@, self.title@, self.content@, state@, resp@, millis as int),
    {
        let millis = now_millis();
        self.advance_at(site, book_id, state, resp, millis)
    }
}

} // verus!
