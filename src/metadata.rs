//! A book's metadata and the requests that create and describe the book.
use vstd::prelude::*;

use crate::config::YesNo;
use crate::html::{extract_form_action, first_attr, form_selector, SiteError};
use crate::site::{
    book_create_url, field, form_post_url, form_view, get_request, info_page_url, manage_form_id,
    settings_page_url, url3, HttpRequest, Method, RequestView, Site,
};

verus! {

/// What is known of a book before it exists on the site.
#[derive(Debug)]
pub struct Metadata {
    pub title: String,
    pub author: Option<String>,
    pub language: Option<String>,
    pub description: Option<String>,
    /// Custom keywords, in order.
    pub subject: Vec<String>,
}

/// `{"value":"<v>"}`
pub open spec fn keyword_item(v: Seq<char>) -> Seq<char> {
    "{\"value\":\""@ + v + "\"}"@
}

/// The keyword objects of `vals`, separated by commas.
pub open spec fn keyword_items(vals: Seq<Seq<char>>) -> Seq<char>
    decreases vals.len(),
{
    if vals.len() == 0 {
        seq![]
    } else if vals.len() == 1 {
        keyword_item(vals[0])
    } else {
        keyword_items(vals.drop_last()) + ","@ + keyword_item(vals.last())
    }
}

/// The keywords as a JSON-like array: `[]` when there are none.
pub open spec fn keywords_json(vals: Seq<Seq<char>>) -> Seq<char> {
    "["@ + keyword_items(vals) + "]"@
}

pub open spec fn strings_view(v: Seq<String>) -> Seq<Seq<char>> {
    v.map_values(|s: String| s@)
}

/// Serializes keywords as `[{"value":"a"},{"value":"b"}]`, without escaping.
pub fn vec_to_json_string(values: &[String]) -> (r: String)
    ensures
        r@ == keywords_json(strings_view(values@)),
{
    let mut items = String::new();
    let mut i: usize = 0;
    while i < values.len()
        invariant
            i <= values@.len(),
            items@ == keyword_items(strings_view(values@.subrange(0, i as int))),
        decreases values.len() - i,
    {
        proof {
            let pre = strings_view(values@.subrange(0, i as int));
            let next = strings_view(values@.subrange(0, i + 1));
            assert(next.drop_last() =~= pre);
            assert(next.last() == values@[i as int]@);
        }
        if i > 0 {
            items.append(",");
        }
        items.append("{\"value\":\"");
        items.append(values[i].as_str());
        items.append("\"}");
        proof {
            if i == 0 {
                assert(items@ =~= keyword_item(values@[0]@));
            }
        }
        i = i + 1;
    }
    assert(values@.subrange(0, i as int) =~= values@);
    let mut r = String::from_str("[");
    r.append(items.as_str());
    r.append("]");
    r
}

/// Description sent when the metadata gives none.
pub open spec fn default_description() -> Seq<char> {
    "这是简介, 并且有14个字符"@
}

pub open spec fn create_form(title: Seq<char>) -> Seq<(Seq<char>, Seq<char>)> {
    seq![("title"@, title), ("mode1"@, "保存する"@)]
}

pub open spec fn settings_form(searchable: YesNo) -> Seq<(Seq<char>, Seq<char>)> {
    seq![
        ("notkansou"@, "0"@),
        ("notreview"@, "0"@),
        ("notpoint"@, "0"@),
        ("notpointview"@, "0"@),
        ("notreport"@, "0"@),
        ("notsearch"@, if searchable is Yes { "0"@ } else { "1"@ }),
        ("csrf_onetimepass"@, ""@),
    ]
}

pub open spec fn info_form(
    title: Seq<char>,
    author: Option<Seq<char>>,
    description: Option<Seq<char>>,
    keywords: Seq<Seq<char>>,
) -> Seq<(Seq<char>, Seq<char>)> {
    seq![
        ("title"@, title),
        ("writer_radio"@, if author is Some { "1"@ } else { "0"@ }),
        ("writer"@, match author { Some(a) => a, None => ""@ }),
        ("noveltype"@, "1"@),
        ("age_limit"@, "1"@),
        ("nocgenre"@, "1"@),
        ("classification"@, "1"@),
        ("ff_type"@, "1"@),
        ("ff_keyword"@, ""@),
        ("ff_ncode"@, ""@),
        ("trpg_replay_type"@, "1"@),
        ("trpg_replay_keyword_id"@, ""@),
        ("scenario_author"@, ""@),
        ("scenario_name"@, ""@),
        ("biggenre"@, "1"@),
        ("genre"@, "101"@),
        ("ex"@, match description { Some(d) => d, None => default_description() }),
        ("auto_keyword_array"@, ""@),
        ("unique_keyword_array"@, keywords_json(keywords)),
        ("is_monetized"@, "0"@),
    ]
}

/// Posting `form` to the action scraped from the form `usernovelmanageForm` on `page`.
pub open spec fn form_post(base: Seq<char>, page: Seq<char>, form: Seq<(Seq<char>, Seq<char>)>) -> Result<RequestView, SiteError> {
    match first_attr(page, form_selector(manage_form_id()), "action"@) {
        Some(action) => Ok(RequestView { method: Method::Post, url: form_post_url(base, action), form }),
        None => Err(SiteError::SiteContract),
    }
}

pub open spec fn request_result_view(r: Result<HttpRequest, SiteError>) -> Result<RequestView, SiteError> {
    match r {
        Ok(q) => Ok(q@),
        Err(e) => Err(e),
    }
}

pub open spec fn opt_str_view(o: Option<String>) -> Option<Seq<char>> {
    match o {
        Some(s) => Some(s@),
        None => None,
    }
}

/// A post to the form action that `page` declares.
fn post_to_form(site: &Site, page: &str, form: Vec<(String, String)>) -> (r: Result<HttpRequest, SiteError>)
    ensures
        request_result_view(r) == form_post(site.base_url@, page@, form_view(form@)),
{
    proof {
        reveal_strlit("usernovelmanageForm");
    }
    let action = match extract_form_action(page, "usernovelmanageForm") {
        Ok(a) => a,
        Err(e) => return Err(e),
    };
    let url = url3(site.base_url.as_str(), "/", action.as_str(), "");
    proof {
        reveal_strlit("");
        assert(url@ =~= form_post_url(site.base_url@, action@));
    }
    Ok(HttpRequest { method: Method::Post, url, form })
}

impl Metadata {
    /// Creation of the book; the response is read by `site::id_from_redirect`.
    pub fn create(&self, site: &Site) -> (r: HttpRequest)
        ensures
            r@ == (RequestView { method: Method::Post, url: book_create_url(site.base_url@), form: create_form(self.title@) }),
    {
        let mut url = String::from_str(site.base_url.as_str());
        url.append("/usernovel/add/");
        let mut form: Vec<(String, String)> = Vec::new();
        form.push(field("title", self.title.as_str()));
        form.push(field("mode1", "保存する"));
        let q = HttpRequest { method: Method::Post, url, form };
        assert(form_view(q.form@) =~= create_form(self.title@));
        q
    }

    /// The settings page of the book, which holds the visibility form.
    pub fn settings_page_request(site: &Site, book_id: &str) -> (r: HttpRequest)
        ensures
            r@ == (RequestView { method: Method::Get, url: settings_page_url(site.base_url@, book_id@), form: seq![] }),
    {
        get_request(url3(site.base_url.as_str(), "/draftnovelmanage/receptionsinput/ncode/", book_id, "/"))
    }

    /// The metadata page of the book, which holds the description form.
    pub fn info_page_request(site: &Site, book_id: &str) -> (r: HttpRequest)
        ensures
            r@ == (RequestView { method: Method::Get, url: info_page_url(site.base_url@, book_id@), form: seq![] }),
    {
        get_request(url3(site.base_url.as_str(), "/draftnovelmanage/updateinput/ncode/", book_id, "/"))
    }

    /// Visibility settings, posted to the action of the form on the settings `page`.
    pub fn update_novel_setting(site: &Site, page: &str) -> (r: Result<HttpRequest, SiteError>)
        ensures
            request_result_view(r) == form_post(site.base_url@, page@, settings_form(site.searchable)),
    {
        let not_search = site.searchable.negate();
        let mut form: Vec<(String, String)> = Vec::new();
        form.push(field("notkansou", "0"));
        form.push(field("notreview", "0"));
        form.push(field("notpoint", "0"));
        form.push(field("notpointview", "0"));
        form.push(field("notreport", "0"));
        form.push(field("notsearch", not_search.as_str()));
        form.push(field("csrf_onetimepass", ""));
        assert(form_view(form@) =~= settings_form(site.searchable));
        post_to_form(site, page, form)
    }

    /// Title, author, fixed classification and keywords, posted to the action
    /// of the form on the metadata `page`.
    pub fn update_novel_info(&self, site: &Site, page: &str) -> (r: Result<HttpRequest, SiteError>)
        ensures
            request_result_view(r) == form_post(
                site.base_url@,
                page@,
                info_form(self.title@, opt_str_view(self.author), opt_str_view(self.description), strings_view(self.subject@)),
            ),
    {
        let keywords = vec_to_json_string(self.subject.as_slice());
        let mut form: Vec<(String, String)> = Vec::new();
        form.push(field("title", self.title.as_str()));
        match &self.author {
            Some(author) => {
                form.push(field("writer_radio", "1"));
                form.push(field("writer", author.as_str()));
            },
            None => {
                form.push(field("writer_radio", "0"));
                form.push(field("writer", ""));
            },
        }
        form.push(field("noveltype", "1"));
        form.push(field("age_limit", "1"));
        form.push(field("nocgenre", "1"));
        form.push(field("classification", "1"));
        form.push(field("ff_type", "1"));
        form.push(field("ff_keyword", ""));
        form.push(field("ff_ncode", ""));
        form.push(field("trpg_replay_type", "1"));
        form.push(field("trpg_replay_keyword_id", ""));
        form.push(field("scenario_author", ""));
        form.push(field("scenario_name", ""));
        form.push(field("biggenre", "1"));
        form.push(field("genre", "101"));
        match &self.description {
            Some(d) => form.push(field("ex", d.as_str())),
            None => form.push(field("ex", "这是简介, 并且有14个字符")),
        }
        form.push(field("auto_keyword_array", ""));
        form.push(field("unique_keyword_array", keywords.as_str()));
        form.push(field("is_monetized", "0"));
        assert(form_view(form@) =~= info_form(
            self.title@,
            opt_str_view(self.author),
            opt_str_view(self.description),
            strings_view(self.subject@),
        ));
        post_to_form(site, page, form)
    }
}

} // verus!
