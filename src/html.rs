//! Recovering dynamic values from server-rendered pages and redirect targets.
//! Every lookup either yields the value or fails with `SiteError::SiteContract`:
//! a missing element means the page layout changed or the session lost access.
use vstd::prelude::*;

verus! {

/// What went wrong while talking to the site.
#[derive(Debug, Clone, Copy, PartialEq, Eq, Structural)]
pub enum SiteError {
    /// An expected element, attribute, header or URL capture is absent.
    SiteContract,
    /// A response status broke the per-call expectation; holds the status.
    HttpStatus(u16),
}

/// The value of attribute `attr` on the first element of the document parsed
/// from `html` that the CSS selector `selector` matches; `None` when the
/// selector is invalid, nothing matches, or the attribute is absent.
pub uninterp spec fn first_attr(html: Seq<char>, selector: Seq<char>, attr: Seq<char>) -> Option<Seq<char>>;

/// Whether `pattern` is a regular expression that the regex crate accepts.
pub uninterp spec fn regex_compiles(pattern: Seq<char>) -> bool;

/// The text of capture group 1 in the leftmost match of `pattern` in `text`,
/// or `None` when there is no match or the group did not take part.
pub uninterp spec fn regex_capture(pattern: Seq<char>, text: Seq<char>) -> Option<Seq<char>>;

/// Relies on scraper's `Selector::parse`, `Html::parse_document`,
/// `Html::select` and `Element::attr`: the first match of `selector` in the
/// parsed page, and its attribute `attr`.
#[verifier::external_body]
fn select_first_attr(html: &str, selector: &str, attr: &str) -> (r: Option<String>)
    ensures
        r is None <==> first_attr(html@, selector@, attr@) is None,
        r is Some ==> first_attr(html@, selector@, attr@) == Some(r->Some_0@),
{
    let selector = scraper::Selector::parse(selector).ok()?;
    let document = scraper::Html::parse_document(html);
    let element = document.select(&selector).next()?;
    element.value().attr(attr).map(|v| v.to_string())
}

/// Relies on `regex::Regex::new`: it accepts `pattern` or reports an error.
#[verifier::external_body]
fn compile_regex(pattern: &str) -> (r: Option<regex::Regex>)
    ensures
        r is Some <==> regex_compiles(pattern@),
{
    regex::Regex::new(pattern).ok()
}

#[verifier::external_type_specification]
#[verifier::external_body]
pub struct ExRegex(regex::Regex);

/// A compiled regular expression whose capture group 1 holds an identifier.
/// The compiled form is only ever built from `source`, by `UrlPattern::new`.
pub struct UrlPattern {
    source: String,
    regex: regex::Regex,
}

impl UrlPattern {
    /// The pattern's source text.
    pub closed spec fn source(&self) -> Seq<char> {
        self.source@
    }

    pub fn new(source: &str) -> (r: Option<UrlPattern>)
        ensures
            r is Some <==> regex_compiles(source@),
            r is Some ==> r->Some_0.source() == source@,
    {
        match compile_regex(source) {
            Some(regex) => Some(UrlPattern { source: source.to_owned(), regex }),
            None => None,
        }
    }

    pub fn as_str(&self) -> (r: &str)
        ensures
            r@ == self.source(),
    {
        self.source.as_str()
    }
}

/// Relies on `regex::Regex::captures` and `Captures::get(1)` on the regex
/// that `UrlPattern::new` compiled from `p.source`.
#[verifier::external_body]
fn capture_group(p: &UrlPattern, text: &str) -> (r: Option<String>)
    ensures
        r is None <==> regex_capture(p.source(), text@) is None,
        r is Some ==> regex_capture(p.source(), text@) == Some(r->Some_0@),
{
    let caps = p.regex.captures(text)?;
    caps.get(1).map(|m| m.as_str().to_string())
}

/// Selector of the one-time token field on a form page.
pub open spec fn csrf_selector() -> Seq<char> {
    "input[name='csrf_onetimepass']"@
}

/// Selector of the form with element id `form_id`.
pub open spec fn form_selector(form_id: Seq<char>) -> Seq<char> {
    "form#"@ + form_id
}

/// The `value` of the page's one-time token field.
pub fn extract_csrf_token(html: &str) -> (r: Result<String, SiteError>)
    ensures
        match r {
            Ok(token) => first_attr(html@, csrf_selector(), "value"@) == Some(token@),
            Err(e) => e == SiteError::SiteContract
                && first_attr(html@, csrf_selector(), "value"@) is None,
        },
{
    match select_first_attr(html, "input[name='csrf_onetimepass']", "value") {
        Some(token) => Ok(token),
        None => Err(SiteError::SiteContract),
    }
}

/// The `action` of the form whose element id is `form_id`.
pub fn extract_form_action(html: &str, form_id: &str) -> (r: Result<String, SiteError>)
    ensures
        match r {
            Ok(action) => first_attr(html@, form_selector(form_id@), "action"@) == Some(action@),
            Err(e) => e == SiteError::SiteContract
                && first_attr(html@, form_selector(form_id@), "action"@) is None,
        },
{
    let mut selector = String::from_str("form#");
    selector.append(form_id);
    match select_first_attr(html, selector.as_str(), "action") {
        Some(action) => Ok(action),
        None => Err(SiteError::SiteContract),
    }
}

/// The identifier that capture group 1 of `re` finds in `url`.
pub fn extract_id_from_url(url: &str, re: &UrlPattern) -> (r: Result<String, SiteError>)
    ensures
        match r {
            Ok(id) => regex_capture(re.source(), url@) == Some(id@),
            Err(e) => e == SiteError::SiteContract && regex_capture(re.source(), url@) is None,
        },
{
    match capture_group(re, url) {
        Some(id) => Ok(id),
        None => Err(SiteError::SiteContract),
    }
}

} // verus!
