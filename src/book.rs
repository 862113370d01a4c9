//! Publishing one book: create it, configure visibility, describe it, then
//! drive its chapters one after another, in order, through the chapter machine.
use vstd::prelude::*;

use crate::chapter::{chapter_next, now_millis, request_opt_view, Chapter, ChapterState, ChapterStateView};
use crate::metadata::{
    create_form, form_post, info_form, opt_str_view, settings_form, strings_view, Metadata,
};
use crate::site::{
    book_create_url, book_id_pattern, draft_page_url, id_from_redirect, info_page_url,
    redirect_id, settings_page_url, HttpRequest, HttpResponse, Method, RequestView, ResponseView,
    Site,
};
use crate::html::SiteError;

verus! {

/// A book and its chapters, already in publishing order.
#[derive(Debug)]
pub struct BookWork {
    pub metadata: Metadata,
    pub chapters: Vec<Chapter>,
}

/// Where a book stands. Once created, every state holds the book id.
#[derive(Debug)]
pub enum BookState {
    Start,
    AwaitingCreate,
    AwaitingSettingsPage(String),
    AwaitingSettingsPost(String),
    AwaitingInfoPage(String),
    AwaitingInfoPost(String),
    /// Chapter at the index is in the given state.
    Publishing(String, usize, ChapterState),
    Done(String),
    Failed(SiteError),
}

pub enum BookStateView {
    Start,
    AwaitingCreate,
    AwaitingSettingsPage(Seq<char>),
    AwaitingSettingsPost(Seq<char>),
    AwaitingInfoPage(Seq<char>),
    AwaitingInfoPost(Seq<char>),
    Publishing(Seq<char>, int, ChapterStateView),
    Done(Seq<char>),
    Failed(SiteError),
}

impl View for BookState {
    type V = BookStateView;

    open spec fn view(&self) -> BookStateView {
        match self {
            BookState::Start => BookStateView::Start,
            BookState::AwaitingCreate => BookStateView::AwaitingCreate,
            BookState::AwaitingSettingsPage(id) => BookStateView::AwaitingSettingsPage(id@),
            BookState::AwaitingSettingsPost(id) => BookStateView::AwaitingSettingsPost(id@),
            BookState::AwaitingInfoPage(id) => BookStateView::AwaitingInfoPage(id@),
            BookState::AwaitingInfoPost(id) => BookStateView::AwaitingInfoPost(id@),
            BookState::Publishing(id, i, c) => BookStateView::Publishing(id@, *i as int, c@),
            BookState::Done(id) => BookStateView::Done(id@),
            BookState::Failed(e) => BookStateView::Failed(*e),
        }
    }
}

/// What the machine reads of a book.
pub struct BookView {
    pub title: Seq<char>,
    pub author: Option<Seq<char>>,
    pub description: Option<Seq<char>>,
    pub keywords: Seq<Seq<char>>,
    /// Title and content of each chapter, in order.
    pub chapters: Seq<(Seq<char>, Seq<char>)>,
}

impl View for BookWork {
    type V = BookView;

    open spec fn view(&self) -> BookView {
        BookView {
            title: self.metadata.title@,
            author: opt_str_view(self.metadata.author),
            description: opt_str_view(self.metadata.description),
            keywords: strings_view(self.metadata.subject@),
            chapters: self.chapters@.map_values(|c: Chapter| (c.title@, c.content@)),
        }
    }
}

pub open spec fn page_request(url: Seq<char>) -> RequestView {
    RequestView { method: Method::Get, url, form: seq![] }
}

/// Moving on to chapter `i`: its token page, or `Done` after the last one.
pub open spec fn chapter_entry(base: Seq<char>, book: BookView, id: Seq<char>, i: int) -> (BookStateView, Option<RequestView>) {
    if i < book.chapters.len() {
        (
            BookStateView::Publishing(id, i, ChapterStateView::AwaitingTokenPage),
            Some(page_request(draft_page_url(base, id))),
        )
    } else {
        (BookStateView::Done(id), None)
    }
}

/// The state that follows `s` once `resp` answers the request that `s` sent,
/// and the request to send next. Visibility and description posts are not
/// status-checked; any other failure ends the book.
pub open spec fn book_next(
    base: Seq<char>,
    searchable: crate::config::YesNo,
    book: BookView,
    s: BookStateView,
    resp: ResponseView,
    millis: int,
) -> (BookStateView, Option<RequestView>) {
    match s {
        BookStateView::AwaitingCreate => match redirect_id(resp, book_id_pattern()) {
            Ok(id) => (BookStateView::AwaitingSettingsPage(id), Some(page_request(settings_page_url(base, id)))),
            Err(e) => (BookStateView::Failed(e), None),
        },
        BookStateView::AwaitingSettingsPage(id) => match form_post(base, resp.body, settings_form(searchable)) {
            Ok(q) => (BookStateView::AwaitingSettingsPost(id), Some(q)),
            Err(e) => (BookStateView::Failed(e), None),
        },
        BookStateView::AwaitingSettingsPost(id) => (BookStateView::AwaitingInfoPage(id), Some(page_request(info_page_url(base, id)))),
        BookStateView::AwaitingInfoPage(id) => match form_post(
            base,
            resp.body,
            info_form(book.title, book.author, book.description, book.keywords),
        ) {
            Ok(q) => (BookStateView::AwaitingInfoPost(id), Some(q)),
            Err(e) => (BookStateView::Failed(e), None),
        },
        BookStateView::AwaitingInfoPost(id) => chapter_entry(base, book, id, 0),
        BookStateView::Publishing(id, i, cs) => if 0 <= i < book.chapters.len() {
            let (next, q) = chapter_next(base, id, book.chapters[i].0, book.chapters[i].1, cs, resp, millis);
            match next {
                ChapterStateView::Failed(e) => (BookStateView::Failed(e), None),
                _ => if q is Some {
                    (BookStateView::Publishing(id, i, next), q)
                } else {
                    chapter_entry(base, book, id, i + 1)
                },
            }
        } else {
            (s, None)
        },
        _ => (s, None),
    }
}

/// Chapters are published strictly one after another, in their order: from
/// chapter `i`, a book either stays on chapter `i`, starts chapter `i + 1` at
/// its token page, finishes after the last chapter, or fails. No other book
/// state is reachable from a chapter, and the book id never changes.
pub proof fn law_chapters_run_in_order(
    base: Seq<char>,
    searchable: crate::config::YesNo,
    book: BookView,
    id: Seq<char>,
    i: int,
    cs: ChapterStateView,
    resp: ResponseView,
    millis: int,
)
    requires
        0 <= i < book.chapters.len(),
    ensures
        ({
            let next = book_next(base, searchable, book, BookStateView::Publishing(id, i, cs), resp, millis).0;
            ||| next matches BookStateView::Publishing(id2, j, _) && id2 == id && j == i
            ||| next == BookStateView::Publishing(id, i + 1, ChapterStateView::AwaitingTokenPage) && i + 1 < book.chapters.len()
            ||| next == BookStateView::Done(id) && i + 1 == book.chapters.len()
            ||| next is Failed
        }),
{
}

impl BookWork {
    /// Leaves `Start`: the first request creates the book.
    pub fn start(&self, site: &Site) -> (r: (BookState, HttpRequest))
        ensures
            r.0@ == BookStateView::AwaitingCreate,
            r.1@ == (RequestView { method: Method::Post, url: book_create_url(site.base_url@), form: create_form(self@.title) }),
    {
        (BookState::AwaitingCreate, self.metadata.create(site))
    }

    fn enter_chapter(&self, site: &Site, id: String, i: usize) -> (r: (BookState, Option<HttpRequest>))
        ensures
            (r.0@, request_opt_view(r.1)) == chapter_entry(site.base_url@, self@, id@, i as int),
    {
        if i < self.chapters.len() {
            let q = Chapter::draft_page_request(site, id.as_str());
            (BookState::Publishing(id, i, ChapterState::AwaitingTokenPage), Some(q))
        } else {
            (BookState::Done(id), None)
        }
    }

    /// One transition, with the clock reading `millis` given.
    pub fn advance_at(&self, site: &Site, state: BookState, resp: &HttpResponse, millis: i64) -> (r: (BookState, Option<HttpRequest>))
        requires
            site.wf(),
        ensures
            (r.0@, request_opt_view(r.1)) == book_next(site.base_url@, site.searchable, self@, state@, resp@, millis as int),
    {
        match state {
            BookState::AwaitingCreate => match id_from_redirect(resp, &site.book_pattern) {
                Ok(id) => {
                    let q = Metadata::settings_page_request(site, id.as_str());
                    (BookState::AwaitingSettingsPage(id), Some(q))
                },
                Err(e) => (BookState::Failed(e), None),
            },
            BookState::AwaitingSettingsPage(id) => match Metadata::update_novel_setting(site, resp.body.as_str()) {
                Ok(q) => (BookState::AwaitingSettingsPost(id), Some(q)),
                Err(e) => (BookState::Failed(e), None),
            },
            BookState::AwaitingSettingsPost(id) => {
                let q = Metadata::info_page_request(site, id.as_str());
                (BookState::AwaitingInfoPage(id), Some(q))
            },
            BookState::AwaitingInfoPage(id) => match self.metadata.update_novel_info(site, resp.body.as_str()) {
                Ok(q) => (BookState::AwaitingInfoPost(id), Some(q)),
                Err(e) => (BookState::Failed(e), None),
            },
            BookState::AwaitingInfoPost(id) => self.enter_chapter(site, id, 0),
            BookState::Publishing(id, i, cs) => {
                if i < self.chapters.len() {
                    let (next, q) = self.chapters[i].advance_at(site, id.as_str(), cs, resp, millis);
                    match next {
                        ChapterState::Failed(e) => (BookState::Failed(e), None),
                        _ => match q {
                            Some(q) => (BookState::Publishing(id, i, next), Some(q)),
                            None => self.enter_chapter(site, id, i + 1),
                        },
                    }
                } else {
                    (BookState::Publishing(id, i, cs), None)
                }
            },
            other => (other, None),
        }
    }

    /// One transition, reading the clock for a confirmation request.
    pub fn advance(&self, site: &Site, state: BookState, resp: &HttpResponse) -> (r: (BookState, Option<HttpRequest>))
        requires
            site.wf(),
        ensures
            exists|millis: i64|
                (r.0@, request_opt_view(r.1)) == #[trigger] book_next(site.base_url@, site.searchable, self@, state@, resp@, millis as int),
    {
        let millis = now_millis();
        self.advance_at(site, state, resp, millis)
    }
}

} // verus!
