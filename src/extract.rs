use vstd::prelude::*;

verus! {

/// The CSS selector of the element that declares a page's preview image.
pub const OG_IMAGE_SELECTOR: &'static str = "meta[property='og:image']";

/// The attribute of that element that holds the image's URL.
pub const CONTENT_ATTRIBUTE: &'static str = "content";

/// What `String::from_utf8_lossy` makes of some bytes.
pub uninterp spec fn lossy_text(bytes: Seq<u8>) -> Seq<char>;

/// What a `scraper` query yields: `None` where the selector does not parse,
/// else, for each element that matches in document order, the value of the
/// attribute, if the element has it.
pub uninterp spec fn selected_attribute(
    html: Seq<char>,
    selector: Seq<char>,
    attribute: Seq<char>,
) -> Option<Seq<Option<Seq<char>>>>;

/// What `url::Url::parse` accepts, as the URL's serialisation; `None` where it
/// refuses the text (a relative reference among others).
pub uninterp spec fn parsed_url(text: Seq<char>) -> Option<Seq<char>>;

pub open spec fn opt_string_view(s: Option<String>) -> Option<Seq<char>> {
    match s {
        Some(t) => Some(t@),
        None => None,
    }
}

/// The model of a query's result: the attribute values in document order.
pub open spec fn found_view(found: Option<Vec<Option<String>>>) -> Option<Seq<Option<Seq<char>>>> {
    match found {
        Some(v) => Some(v@.map_values(|s: Option<String>| opt_string_view(s))),
        None => None,
    }
}

/// Relies on `String::from_utf8_lossy`: invalid sequences are replaced, the
/// result depends on the bytes alone.
#[verifier::external_body]
pub(crate) fn text_from_bytes(bytes: &[u8]) -> (r: String)
    ensures
        r@ == lossy_text(bytes@),
{
    String::from_utf8_lossy(bytes).into_owned()
}

/// Relies on `scraper::Selector::parse`, `scraper::Html::parse_document`,
/// `Html::select` and `Element::attr`: the document is parsed tolerantly, the
/// matching elements come in document order, each with its attribute's value.
#[verifier::external_body]
pub(crate) fn select_attribute(html: &str, selector: &str, attribute: &str) -> (r: Option<Vec<Option<String>>>)
    ensures
        found_view(r) == selected_attribute(html@, selector@, attribute@),
{
    let selector = scraper::Selector::parse(selector).ok()?;
    let document = scraper::Html::parse_document(html);
    Some(document.select(&selector).map(|e| e.value().attr(attribute).map(String::from)).collect())
}

/// Relies on `url::Url::parse` and `Url::as_str`: the text is parsed as an
/// absolute URL and serialised again.
#[verifier::external_body]
pub(crate) fn parse_url(text: &str) -> (r: Option<String>)
    ensures
        opt_string_view(r) == parsed_url(text@),
{
    url::Url::parse(text).ok().map(|u| String::from(u.as_str()))
}

/// The value of the first element that a query found, if there is one and it
/// has the attribute.
pub open spec fn first_value(found: Option<Seq<Option<Seq<char>>>>) -> Option<Seq<char>> {
    match found {
        Some(s) => if s.len() > 0 {
            s[0]
        } else {
            None
        },
        None => None,
    }
}

/// The preview-image elements of a document with their URLs.
pub open spec fn og_images(html: Seq<char>) -> Option<Seq<Option<Seq<char>>>> {
    selected_attribute(html, OG_IMAGE_SELECTOR@, CONTENT_ATTRIBUTE@)
}

/// The URL that an attribute value holds, if any.
pub open spec fn url_of_value(value: Option<Seq<char>>) -> Option<Seq<char>> {
    match value {
        Some(c) => parsed_url(c),
        None => None,
    }
}

/// The avatar URL that a profile page declares: the content of its first
/// preview-image element, where that parses as an absolute URL.
pub open spec fn extracted(html: Seq<char>) -> Option<Seq<char>> {
    url_of_value(first_value(og_images(html)))
}

/// The attribute value of the first element that a query found, if any.
pub fn first_value_of(found: &Option<Vec<Option<String>>>) -> (r: Option<String>)
    ensures
        opt_string_view(r) == first_value(found_view(*found)),
{
    match found {
        Some(values) => {
            if values.len() == 0 {
                None
            } else {
                match &values[0] {
                    Some(v) => Some(v.clone()),
                    None => None,
                }
            }
        },
        None => None,
    }
}

/// Finds the preview-image URL that an HTML document declares.
pub fn extract_avatar_url(html: &str) -> (r: Option<String>)
    ensures
        opt_string_view(r) == extracted(html@),
        og_images(html@) matches Some(s) && s.len() == 0 ==> r is None,
        og_images(html@) matches Some(s) ==> (s.len() > 0 ==> opt_string_view(r) == url_of_value(s[0])),
{
    let found = select_attribute(html, OG_IMAGE_SELECTOR, CONTENT_ATTRIBUTE);
    match first_value_of(&found) {
        Some(content) => parse_url(content.as_str()),
        None => None,
    }
}

/// Finds the preview-image URL in a page body, read as UTF-8 with invalid
/// sequences replaced.
pub fn extract_from_body(body: &[u8]) -> (r: Option<String>)
    ensures
        opt_string_view(r) == extracted(lossy_text(body@)),
{
    let html = text_from_bytes(body);
    extract_avatar_url(html.as_str())
}

} // verus!
