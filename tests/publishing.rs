use syosetu_uploader::book::{BookState, BookWork};
use syosetu_uploader::chapter::{Chapter, ChapterState};
use syosetu_uploader::config::{CookieConfig, Novel, SyosetuConfig, YesNo};
use syosetu_uploader::html::{extract_csrf_token, extract_form_action, extract_id_from_url, SiteError, UrlPattern};
use syosetu_uploader::metadata::{vec_to_json_string, Metadata};
use syosetu_uploader::site::{id_from_redirect, int_to_text, HttpRequest, HttpResponse, Method, Site};
use syosetu_uploader::text::{chapter_order, extract_chapter_number, trim_end_text, trim_text};

fn config(searchable: YesNo) -> SyosetuConfig {
    SyosetuConfig {
        base_url: "https://syosetu.com".to_string(),
        data_dir: "./output".to_string(),
        cookie: CookieConfig { ses: "s".to_string(), userl: "u".to_string() },
        novel: Novel { searchable },
    }
}

fn site() -> Site {
    Site::new(&config(YesNo::Yes)).expect("patterns compile")
}

fn chapter(title: &str, n: usize) -> Chapter {
    Chapter { title: title.to_string(), content: "あ".repeat(n) }
}

fn form_value<'a>(q: &'a HttpRequest, name: &str) -> Option<&'a str> {
    q.form.iter().find(|(k, _)| k == name).map(|(_, v)| v.as_str())
}

fn response(status: u16, location: Option<&str>, body: &str) -> HttpResponse {
    HttpResponse { status, location: location.map(|s| s.to_string()), body: body.to_string() }
}

const TOKEN_PAGE: &str = r#"<html><body><form id="f"><input type="hidden" name="csrf_onetimepass" value="tok123"></form></body></html>"#;
const MANAGE_PAGE: &str = r#"<html><body><form id="usernovelmanageForm" action="/draftnovelmanage/update/" method="post"></form></body></html>"#;

#[test]
fn publishable_only_above_threshold() {
    assert!(!chapter("t", 0).is_published());
    assert!(!chapter("t", 200).is_published());
    assert!(chapter("t", 201).is_published());
    // characters, not bytes: 70 three-byte characters are 210 bytes
    assert!(!chapter("t", 70).is_published());
}

#[test]
fn chapter_files_sort_numerically() {
    let names: Vec<String> = vec!["chapter_2.txt".to_string(), "chapter_10.txt".to_string(), "chapter_1.txt".to_string()];
    assert_eq!(chapter_order(&names), vec![2, 0, 1]);
}

#[test]
fn unparsable_names_sort_as_zero_in_listing_order() {
    let names: Vec<String> = vec![
        "chapter_3.txt".to_string(),
        "notes.txt".to_string(),
        "chapter_x.txt".to_string(),
        "chapter_1.txt".to_string(),
    ];
    assert_eq!(chapter_order(&names), vec![1, 2, 3, 0]);
    assert_eq!(chapter_order(&Vec::new()), Vec::<usize>::new());
}

#[test]
fn chapter_number_edge_cases() {
    assert_eq!(extract_chapter_number("chapter_7.txt"), 7);
    assert_eq!(extract_chapter_number("chapter_007.txt"), 7);
    assert_eq!(extract_chapter_number("chapter_+7.txt"), 7);
    assert_eq!(extract_chapter_number("chapter_4294967295.txt"), 4294967295);
    assert_eq!(extract_chapter_number("chapter_4294967296.txt"), 0);
    assert_eq!(extract_chapter_number("chapter_.txt"), 0);
    assert_eq!(extract_chapter_number("chapter_+.txt"), 0);
    assert_eq!(extract_chapter_number("chapter_-1.txt"), 0);
    assert_eq!(extract_chapter_number("chapter_7.md"), 0);
    assert_eq!(extract_chapter_number("ch_7.txt"), 0);
}

#[test]
fn draft_id_is_captured_from_redirect() {
    let s = site();
    assert_eq!(
        extract_id_from_url("/draftepisode/view/draftepisodeid/4872097/", &s.draft_pattern),
        Ok("4872097".to_string())
    );
    assert_eq!(
        extract_id_from_url("/usernovelmanage/top/ncode/2918565/", &s.draft_pattern),
        Err(SiteError::SiteContract)
    );
    assert_eq!(
        extract_id_from_url("https://syosetu.com/usernovelmanage/top/ncode/2918565/", &s.book_pattern),
        Ok("2918565".to_string())
    );
}

#[test]
fn url_pattern_rejects_bad_regex() {
    assert!(UrlPattern::new("(unclosed").is_none());
    assert_eq!(UrlPattern::new("/a/(\\d+)/").unwrap().as_str(), "/a/(\\d+)/");
}

#[test]
fn scraping_token_and_form_action() {
    assert_eq!(extract_csrf_token(TOKEN_PAGE), Ok("tok123".to_string()));
    assert_eq!(extract_csrf_token("<html><body><p>signed out</p></body></html>"), Err(SiteError::SiteContract));
    assert_eq!(
        extract_csrf_token(r#"<input name="csrf_onetimepass">"#),
        Err(SiteError::SiteContract)
    );
    assert_eq!(
        extract_form_action(MANAGE_PAGE, "usernovelmanageForm"),
        Ok("/draftnovelmanage/update/".to_string())
    );
    assert_eq!(extract_form_action(MANAGE_PAGE, "otherForm"), Err(SiteError::SiteContract));
    assert_eq!(extract_form_action(r#"<form id="usernovelmanageForm"></form>"#, "usernovelmanageForm"), Err(SiteError::SiteContract));
}

#[test]
fn redirect_errors() {
    let s = site();
    assert_eq!(
        id_from_redirect(&response(200, None, "ok"), &s.book_pattern),
        Err(SiteError::HttpStatus(200))
    );
    assert_eq!(id_from_redirect(&response(302, None, ""), &s.book_pattern), Err(SiteError::SiteContract));
    assert_eq!(
        id_from_redirect(&response(302, Some("/login/"), ""), &s.book_pattern),
        Err(SiteError::SiteContract)
    );
}

#[test]
fn title_only_chapter_is_drafted_and_skipped() {
    let lines = vec!["".to_string(), "  Chapter One  ".to_string(), "".to_string(), "   ".to_string()];
    let ch = Chapter::parse(&lines).unwrap();
    assert_eq!(ch.title, "Chapter One");
    assert_eq!(ch.content, "");
    assert!(!ch.is_published());

    let s = site();
    let (state, q) = ch.start(&s, "99");
    assert_eq!(q.url, "https://syosetu.com/draftepisode/input/ncode/99/");
    let (state, q) = ch.advance_at(&s, "99", state, &response(200, None, TOKEN_PAGE), 5);
    let q = q.unwrap();
    assert_eq!(q.method, Method::Post);
    assert_eq!(q.url, "https://syosetu.com/draftepisode/add/ncode/99/");
    assert_eq!(form_value(&q, "csrf_onetimepass"), Some("tok123"));
    assert_eq!(form_value(&q, "subtitle"), Some("Chapter One"));
    assert_eq!(form_value(&q, "novel"), Some(""));
    let (state, q) = ch.advance_at(&s, "99", state, &response(302, Some("/draftepisode/view/draftepisodeid/4872097/"), ""), 5);
    assert!(q.is_none());
    assert!(matches!(state, ChapterState::Skipped(ref d) if d == "4872097"));
}

#[test]
fn chapter_parse_keeps_inner_lines() {
    let lines = vec!["Title".to_string(), "".to_string(), "line one".to_string(), "  line two  ".to_string(), "".to_string()];
    let ch = Chapter::parse(&lines).unwrap();
    assert_eq!(ch.title, "Title");
    assert_eq!(ch.content, "\nline one\n  line two");
    assert!(Chapter::parse(&vec![" ".to_string(), "\t".to_string()]).is_none());
    assert!(Chapter::parse(&Vec::new()).is_none());
}

#[test]
fn keyword_serialization() {
    assert_eq!(vec_to_json_string(&["111".to_string(), "2".to_string()]), r#"[{"value":"111"},{"value":"2"}]"#);
    assert_eq!(vec_to_json_string(&[]), "[]");
    assert_eq!(vec_to_json_string(&["a".to_string()]), r#"[{"value":"a"}]"#);
}

#[test]
fn trimming_follows_unicode_whitespace() {
    assert_eq!(trim_text("\u{3000} a b \u{a0}\n"), "a b");
    assert_eq!(trim_end_text("x \r\n\t"), "x");
    assert_eq!(trim_text("   "), "");
}

#[test]
fn timestamps_are_decimal() {
    assert_eq!(int_to_text(0), "0");
    assert_eq!(int_to_text(1760770828123), "1760770828123");
    assert_eq!(int_to_text(-45), "-45");
    assert_eq!(int_to_text(i64::MIN), "-9223372036854775808");
}

#[test]
fn publish_confirmation_and_commit() {
    let s = site();
    let ch = chapter("c", 201);
    let q = ch.publish_draft(&s, "77", 1700000000000).unwrap();
    assert_eq!(q.method, Method::Get);
    assert_eq!(q.url, "https://syosetu.com/draftepisode/postconfirmapi/?draftepisodeid=77&reserve=off&end=1&_=1700000000000");
    assert!(chapter("c", 200).publish_draft(&s, "77", 1).is_none());
    let c = Chapter::commit_draft(&s, "77");
    assert_eq!(c.url, "https://syosetu.com/draftepisode/postapi/");
    assert_eq!(c.form, vec![("draftepisodeid".to_string(), "77".to_string())]);

    let state = ChapterState::AwaitingConfirm("77".to_string());
    let (state, q) = ch.advance_at(&s, "1", state, &response(500, None, ""), 1);
    assert!(q.is_none());
    assert!(matches!(state, ChapterState::Failed(SiteError::HttpStatus(500))));
}

#[test]
fn yes_no_flags() {
    assert_eq!(YesNo::new(true), YesNo::Yes);
    assert_eq!(YesNo::new(false), YesNo::No);
    assert_eq!(YesNo::Yes.negate(), YesNo::No);
    assert_eq!(YesNo::No.negate().as_str(), "1");
    assert_eq!(YesNo::No.as_str(), "0");
    assert_eq!(Novel::default().searchable, YesNo::Yes);
    let c = config(YesNo::No);
    assert_eq!(c.cookie().ses, "s");
    assert_eq!(c.novel().searchable, YesNo::No);
}

#[test]
fn book_forms() {
    let s = Site::new(&config(YesNo::No)).unwrap();
    let md = Metadata {
        title: "Book".to_string(),
        author: Some("Ann".to_string()),
        language: None,
        description: None,
        subject: vec![],
    };
    let q = md.create(&s);
    assert_eq!(q.url, "https://syosetu.com/usernovel/add/");
    assert_eq!(form_value(&q, "title"), Some("Book"));
    assert_eq!(form_value(&q, "mode1"), Some("保存する"));
    let q = Metadata::update_novel_setting(&s, MANAGE_PAGE).unwrap();
    assert_eq!(q.url, "https://syosetu.com//draftnovelmanage/update/");
    assert_eq!(form_value(&q, "notsearch"), Some("1"));
    let q = md.update_novel_info(&s, MANAGE_PAGE).unwrap();
    assert_eq!(form_value(&q, "writer_radio"), Some("1"));
    assert_eq!(form_value(&q, "writer"), Some("Ann"));
    assert_eq!(form_value(&q, "unique_keyword_array"), Some("[]"));
    assert_eq!(form_value(&q, "ex"), Some("这是简介, 并且有14个字符"));
    assert_eq!(q.form.len(), 20);
    assert_eq!(Metadata::update_novel_setting(&s, "<html></html>").unwrap_err(), SiteError::SiteContract);
}

/// Plays the site for one book and records every request.
fn run_book(book: &BookWork, s: &Site) -> (BookState, Vec<HttpRequest>) {
    let mut sent = Vec::new();
    let (mut state, first) = book.start(s);
    let mut next = Some(first);
    let mut drafts = 0u32;
    while let Some(q) = next {
        let resp = if q.url.ends_with("/usernovel/add/") {
            response(302, Some("https://syosetu.com/usernovelmanage/top/ncode/2918565/"), "")
        } else if q.url.contains("/draftepisode/input/") {
            response(200, None, TOKEN_PAGE)
        } else if q.url.contains("/draftepisode/add/") {
            drafts += 1;
            response(302, Some(&format!("/draftepisode/view/draftepisodeid/{}/", 100 + drafts)), "")
        } else if q.url.contains("/draftnovelmanage/receptionsinput/") || q.url.contains("/draftnovelmanage/updateinput/") {
            response(200, None, MANAGE_PAGE)
        } else {
            response(200, None, "{}")
        };
        let (s2, n2) = book.advance(s, state, &resp);
        sent.push(q);
        state = s2;
        next = n2;
        assert!(sent.len() < 100);
    }
    (state, sent)
}

#[test]
fn book_with_three_chapters_publishes_long_ones_in_order() {
    let s = site();
    let book = BookWork {
        metadata: Metadata {
            title: "Book".to_string(),
            author: None,
            language: None,
            description: Some("desc".to_string()),
            subject: vec!["111".to_string(), "2".to_string()],
        },
        chapters: vec![chapter("one", 201), chapter("two", 50), chapter("three", 300)],
    };
    let (state, sent) = run_book(&book, &s);
    assert!(matches!(state, BookState::Done(ref id) if id == "2918565"));
    let adds: Vec<&str> = sent
        .iter()
        .filter(|q| q.url.contains("/draftepisode/add/ncode/2918565/"))
        .map(|q| form_value(q, "subtitle").unwrap())
        .collect();
    assert_eq!(adds, vec!["one", "two", "three"]);
    let confirms: Vec<&String> = sent.iter().filter(|q| q.url.contains("/draftepisode/postconfirmapi/")).map(|q| &q.url).collect();
    assert_eq!(confirms.len(), 2);
    assert!(confirms[0].contains("draftepisodeid=101&"));
    assert!(confirms[1].contains("draftepisodeid=103&"));
    let commits: Vec<Option<&str>> = sent.iter().filter(|q| q.url.ends_with("/draftepisode/postapi/")).map(|q| form_value(q, "draftepisodeid")).collect();
    assert_eq!(commits, vec![Some("101"), Some("103")]);
    // configure comes before describe
    let settings = sent.iter().position(|q| q.url.contains("receptionsinput")).unwrap();
    let info = sent.iter().position(|q| q.url.contains("updateinput")).unwrap();
    assert!(settings < info);
    let described = sent.iter().find(|q| form_value(q, "unique_keyword_array").is_some()).unwrap();
    assert_eq!(form_value(described, "unique_keyword_array"), Some(r#"[{"value":"111"},{"value":"2"}]"#));
    assert_eq!(form_value(described, "ex"), Some("desc"));
}

#[test]
fn book_creation_failure_aborts() {
    let s = site();
    let book = BookWork {
        metadata: Metadata { title: "B".to_string(), author: None, language: None, description: None, subject: vec![] },
        chapters: vec![chapter("one", 201)],
    };
    let (state, _) = book.start(&s);
    let (state, q) = book.advance_at(&s, state, &response(200, None, "form again"), 0);
    assert!(q.is_none());
    assert!(matches!(state, BookState::Failed(SiteError::HttpStatus(200))));
}

#[test]
fn book_without_chapters_is_done_after_describe() {
    let s = site();
    let book = BookWork {
        metadata: Metadata { title: "B".to_string(), author: None, language: None, description: None, subject: vec![] },
        chapters: vec![],
    };
    let (state, sent) = run_book(&book, &s);
    assert!(matches!(state, BookState::Done(_)));
    assert_eq!(sent.len(), 5);
}
