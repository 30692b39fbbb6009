use vstd::prelude::*;

verus! {

#[verifier::external_type_specification]
#[verifier::external_body]
pub struct ExHtml(scraper::Html);

#[verifier::external_type_specification]
#[verifier::external_body]
pub struct ExSelector(scraper::Selector);

/// Relies on scraper::Html::parse_document, which builds a document tree from any text.
pub assume_specification[ scraper::Html::parse_document ](document: &str) -> scraper::Html;

/// Whether scraper accepts `css` as a selector list.
pub uninterp spec fn selector_parses(css: Seq<char>) -> bool;

/// How many elements of the document parsed from `html` match `css`.
pub uninterp spec fn match_count(html: Seq<char>, css: Seq<char>) -> nat;

/// The first element of the document parsed from `html` that matches `css`, where
/// there is one, and the value of its attribute `attr`, where it has that attribute.
pub uninterp spec fn first_attr_of(html: Seq<char>, css: Seq<char>, attr: Seq<char>) -> Option<
    Option<Seq<char>>,
>;

/// The markup inside the first element of the document parsed from `html` that
/// matches `css`, where there is one.
pub uninterp spec fn first_inner_html_of(html: Seq<char>, css: Seq<char>) -> Option<Seq<char>>;

/// For each element of the document parsed from `html` that matches `outer`, in
/// document order: the first element below it that matches `inner`, where there is
/// one, and the value of its attribute `attr`, where it has that attribute.
pub uninterp spec fn nested_attr_of(
    html: Seq<char>,
    outer: Seq<char>,
    inner: Seq<char>,
    attr: Seq<char>,
) -> Seq<Option<Option<Seq<char>>>>;

/// For each element of the document parsed from `html` that matches `outer`, in
/// document order: the first element below it that matches `inner`, where there is
/// one, and the value of its first attribute in source order, where it has any.
pub uninterp spec fn nested_first_value_of(html: Seq<char>, outer: Seq<char>, inner: Seq<char>) -> Seq<
    Option<Option<Seq<char>>>,
>;

/// The text of an optional string.
pub open spec fn text_of(o: Option<String>) -> Option<Seq<char>> {
    match o {
        Some(s) => Some(s@),
        None => None,
    }
}

/// What was found at a locator: whether a node was found, and the text read from it.
pub open spec fn found_of(o: Option<Option<String>>) -> Option<Option<Seq<char>>> {
    match o {
        Some(a) => Some(text_of(a)),
        None => None,
    }
}

/// What was found below each of several nodes.
pub open spec fn found_all(v: Seq<Option<Option<String>>>) -> Seq<Option<Option<Seq<char>>>> {
    v.map_values(|o: Option<Option<String>>| found_of(o))
}

/// A parsed HTML document, together with the text it was parsed from. Both are set
/// together, by `parse` alone, so the document is always the one parsed from `source`.
pub struct Page {
    html: scraper::Html,
    source: Ghost<Seq<char>>,
}

/// A parsed CSS selector, together with its text. Both are set together, by `parse`
/// alone, so the selector is always the one parsed from `text`.
pub struct Css {
    selector: scraper::Selector,
    text: Ghost<Seq<char>>,
}

impl Page {
    /// The text this document was parsed from.
    pub closed spec fn source(&self) -> Seq<char> {
        self.source@
    }

    /// Parses an HTML document.
    pub fn parse(body: &str) -> (r: Page)
        ensures
            r.source() == body@,
    {
        Page { html: scraper::Html::parse_document(body), source: Ghost(body@) }
    }
}

impl Css {
    /// The text this selector was parsed from.
    pub closed spec fn text(&self) -> Seq<char> {
        self.text@
    }

    /// Parses a CSS selector list.
    pub fn parse(text: &str) -> (r: Option<Css>)
        ensures
            r is Some <==> selector_parses(text@),
            r matches Some(c) ==> c.text() == text@,
    {
        match parse_selector(text) {
            Some(selector) => Some(Css { selector, text: Ghost(text@) }),
            None => None,
        }
    }
}

/// Relies on scraper::Selector::parse, which fails on text that is no selector list.
#[verifier::external_body]
fn parse_selector(text: &str) -> (r: Option<scraper::Selector>)
    ensures
        r is Some <==> selector_parses(text@),
{
    scraper::Selector::parse(text).ok()
}

/// Relies on scraper::Html::select, counting what it yields.
#[verifier::external_body]
pub(crate) fn count_matches(page: &Page, css: &Css) -> (r: usize)
    ensures
        r == match_count(page.source(), css.text()),
{
    page.html.select(&css.selector).count()
}

/// Relies on scraper::Html::select and scraper::node::Element::attr: the first match
/// and one of its attributes.
#[verifier::external_body]
pub(crate) fn select_first_attr(page: &Page, css: &Css, attr: &str) -> (r: Option<Option<String>>)
    ensures
        found_of(r) == first_attr_of(page.source(), css.text(), attr@),
{
    page.html.select(&css.selector).next().map(|e| e.value().attr(attr).map(str::to_owned))
}

/// Relies on scraper::Html::select and scraper::ElementRef::inner_html: the markup inside
/// the first match.
#[verifier::external_body]
pub(crate) fn select_first_inner_html(page: &Page, css: &Css) -> (r: Option<String>)
    ensures
        text_of(r) == first_inner_html_of(page.source(), css.text()),
{
    page.html.select(&css.selector).next().map(|e| e.inner_html())
}

/// Relies on scraper::Html::select, scraper::ElementRef::select and
/// scraper::node::Element::attr: below each match of `outer`, the first match of
/// `inner` and one of its attributes.
#[verifier::external_body]
pub(crate) fn select_nested_attr(page: &Page, outer: &Css, inner: &Css, attr: &str) -> (r: Vec<
    Option<Option<String>>,
>)
    ensures
        r@.len() == match_count(page.source(), outer.text()),
        found_all(r@) == nested_attr_of(page.source(), outer.text(), inner.text(), attr@),
{
    page.html.select(&outer.selector).map(
        |w| w.select(&inner.selector).next().map(|e| e.value().attr(attr).map(str::to_owned)),
    ).collect()
}

/// Relies on scraper::Html::select, scraper::ElementRef::select and the attribute map
/// of scraper::node::Element, kept in source order: below each match of `outer`, the
/// first match of `inner` and the value of its first attribute.
#[verifier::external_body]
pub(crate) fn select_nested_first_value(page: &Page, outer: &Css, inner: &Css) -> (r: Vec<
    Option<Option<String>>,
>)
    ensures
        r@.len() == match_count(page.source(), outer.text()),
        found_all(r@) == nested_first_value_of(page.source(), outer.text(), inner.text()),
{
    page.html.select(&outer.selector).map(
        |w| w.select(&inner.selector).next().map(|e| e.value().attrs.values().next().map(|v| v.to_string())),
    ).collect()
}

} // verus!
