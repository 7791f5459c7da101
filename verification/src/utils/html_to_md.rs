//! Detecting HTML content and turning it into readable text.

use vstd::prelude::*;
use crate::utils::text::{
    chars_of, contains, contains_from, count_char, count_char_from, join_pieces, join_with,
    skip_spaces, split_on, starts_with, starts_with_from, string_of, trim_start, trimmed_nonempty,
    trimmed_pieces,
};

verus! {

/// The text that `html2text` renders from `html` at the given line width, or
/// `None` where it reports an error.
pub uninterp spec fn html_render(html: Seq<char>, width: usize) -> Option<Seq<char>>;

/// Renders HTML as text with `html2text` (`config::plain().string_from_read`,
/// which `html2text::from_read` calls). The contract only ties the result to
/// the input through `html_render`; what the text holds is not stated.
#[verifier::external_body]
fn render_html(html: &str, width: usize) -> (r: Option<String>)
    ensures
        match r {
            Some(s) => html_render(html@, width) == Some(s@),
            None => html_render(html@, width) is None,
        },
{
    html2text::config::plain().string_from_read(html.as_bytes(), width).ok()
}

/// Line width used for all conversions: wide enough that lines are not wrapped.
pub const RENDER_WIDTH: usize = 10000;

/// Whether `html2text` converts `html` without error.
pub open spec fn renders(html: Seq<char>) -> bool {
    html_render(html, RENDER_WIDTH) is Some
}

/// The converted text of `html` (meaningful where `renders(html)`).
pub open spec fn rendered(html: Seq<char>) -> Seq<char> {
    html_render(html, RENDER_WIDTH).unwrap()
}

/// Converts HTML to Markdown-like plain text.
pub fn html_to_markdown(html: &str) -> (r: String)
    requires
        renders(html@),
    ensures
        r@ == rendered(html@),
{
    let out = render_html(html, RENDER_WIDTH);
    out.unwrap()
}

/// Converts HTML to Markdown-like plain text, or `None` where the converter
/// reports an error.
pub fn try_html_to_markdown(html: &str) -> (r: Option<String>)
    ensures
        r is Some <==> renders(html@),
        r matches Some(s) ==> s@ == rendered(html@),
{
    match render_html(html, RENDER_WIDTH) {
        Some(_) => Some(html_to_markdown(html)),
        None => None,
    }
}

/// `text.lines().map(trim).filter(non-empty).join("\n")`: the lines of `text`,
/// each trimmed, empty ones dropped. (`str::lines` also drops a `'\r'` before
/// each newline and a last empty line; trimming and dropping empty lines make
/// both invisible.)
pub open spec fn tidy_lines(text: Seq<char>) -> Seq<char> {
    join_with(trimmed_nonempty(split_on(text, '\n')), '\n')
}

/// Removes blank lines and the whitespace around each line.
pub fn tidy_text(text: &str) -> (r: String)
    ensures
        r@ == tidy_lines(text@),
{
    let lines = trimmed_pieces(text, '\n');
    let joined = join_pieces(&lines, '\n');
    string_of(&joined)
}

/// Converts HTML to plain text: the rendered text with blank lines and the
/// whitespace around each line removed.
pub fn html_to_text(html: &str) -> (r: String)
    requires
        renders(html@),
    ensures
        r@ == tidy_lines(rendered(html@)),
{
    let text = html_to_markdown(html);
    tidy_text(text.as_str())
}

/// Converts HTML to plain text, or `None` where the converter reports an error.
pub fn try_html_to_text(html: &str) -> (r: Option<String>)
    ensures
        r is Some <==> renders(html@),
        r matches Some(s) ==> s@ == tidy_lines(rendered(html@)),
{
    match render_html(html, RENDER_WIDTH) {
        Some(_) => Some(html_to_text(html)),
        None => None,
    }
}


/// Tags whose presence marks content as possibly HTML.
pub open spec fn has_html_tags(t: Seq<char>) -> bool {
    ||| contains(t, "<div"@)
    ||| contains(t, "</div>"@)
    ||| contains(t, "<p>"@)
    ||| contains(t, "</p>"@)
    ||| contains(t, "<br"@)
    ||| contains(t, "<br/>"@)
    ||| contains(t, "<table"@)
    ||| contains(t, "</table>"@)
    ||| contains(t, "<span"@)
    ||| contains(t, "</span>"@)
    ||| contains(t, "<body"@)
    ||| contains(t, "</body>"@)
}

/// The HTML heuristic: after leading whitespace, a doctype or `<html` opening
/// decides at once; otherwise one of the common tags must occur, together with
/// a second `<` or a `/>`.
pub open spec fn looks_like_html(content: Seq<char>) -> bool {
    let t = trim_start(content);
    if starts_with(t, "<!DOCTYPE"@) || starts_with(t, "<!doctype"@) || starts_with(t, "<html"@)
        || starts_with(t, "<HTML"@) {
        true
    } else {
        has_html_tags(t) && (count_char(t, '<') >= 2 || contains(t, "/>"@))
    }
}

/// Content that opens, after leading whitespace, with a doctype or an `<html`
/// tag is HTML.
pub proof fn html_openings_are_html(c: Seq<char>)
    ensures
        starts_with(trim_start(c), "<!DOCTYPE"@) ==> looks_like_html(c),
        starts_with(trim_start(c), "<!doctype"@) ==> looks_like_html(c),
        starts_with(trim_start(c), "<html"@) ==> looks_like_html(c),
        starts_with(trim_start(c), "<HTML"@) ==> looks_like_html(c),
{
}

/// Content holding one of the common tags is HTML once it holds a second `<`
/// or a `/>`.
pub proof fn common_tags_are_html(c: Seq<char>)
    ensures
        ({
            let t = trim_start(c);
            let tag = contains(t, "<div"@) || contains(t, "</div>"@) || contains(t, "<p>"@)
                || contains(t, "</p>"@) || contains(t, "<br"@) || contains(t, "<br/>"@)
                || contains(t, "<table"@) || contains(t, "</table>"@) || contains(t, "<span"@)
                || contains(t, "</span>"@) || contains(t, "<body"@) || contains(t, "</body>"@);
            tag && (count_char(t, '<') >= 2 || contains(t, "/>"@)) ==> looks_like_html(c)
        }),
{
}

/// Content in which none of the common tags occurs and that opens with no
/// doctype or `<html` tag is not HTML, whatever else it holds.
pub proof fn tagless_text_is_not_html(c: Seq<char>)
    ensures
        ({
            let t = trim_start(c);
            let opening = starts_with(t, "<!DOCTYPE"@) || starts_with(t, "<!doctype"@)
                || starts_with(t, "<html"@) || starts_with(t, "<HTML"@);
            let tag = contains(t, "<div"@) || contains(t, "</div>"@) || contains(t, "<p>"@)
                || contains(t, "</p>"@) || contains(t, "<br"@) || contains(t, "<br/>"@)
                || contains(t, "<table"@) || contains(t, "</table>"@) || contains(t, "<span"@)
                || contains(t, "</span>"@) || contains(t, "<body"@) || contains(t, "</body>"@);
            !opening && !tag ==> !looks_like_html(c)
        }),
{
}

fn contains_lit(v: &Vec<char>, from: usize, lit: &str) -> (b: bool)
    requires
        from <= v@.len(),
    ensures
        b == contains(v@.skip(from as int), lit@),
{
    let p = chars_of(lit);
    contains_from(v, from, &p)
}

fn starts_with_lit(v: &Vec<char>, from: usize, lit: &str) -> (b: bool)
    requires
        from <= v@.len(),
    ensures
        b == starts_with(v@.skip(from as int), lit@),
{
    let p = chars_of(lit);
    starts_with_from(v, from, &p)
}

/// Detects whether content is HTML, with heuristics that avoid false
/// positives from code snippets or comparisons.
pub fn is_html(content: &str) -> (b: bool)
    ensures
        b == looks_like_html(content@),
{
    let v = chars_of(content);
    assert(v@.skip(0) =~= v@);
    let start = skip_spaces(&v, 0);
    if starts_with_lit(&v, start, "<!DOCTYPE") || starts_with_lit(&v, start, "<!doctype")
        || starts_with_lit(&v, start, "<html") || starts_with_lit(&v, start, "<HTML") {
        return true;
    }
    let has_html_tags = contains_lit(&v, start, "<div") || contains_lit(&v, start, "</div>")
        || contains_lit(&v, start, "<p>") || contains_lit(&v, start, "</p>")
        || contains_lit(&v, start, "<br") || contains_lit(&v, start, "<br/>")
        || contains_lit(&v, start, "<table") || contains_lit(&v, start, "</table>")
        || contains_lit(&v, start, "<span") || contains_lit(&v, start, "</span>")
        || contains_lit(&v, start, "<body") || contains_lit(&v, start, "</body>");
    has_html_tags && (count_char_from(&v, start, '<') >= 2 || contains_lit(&v, start, "/>"))
}

/// What `smart_convert` returns: the rendered text for HTML, the content
/// itself otherwise.
pub open spec fn smart_converted(content: Seq<char>) -> Seq<char> {
    if looks_like_html(content) {
        rendered(content)
    } else {
        content
    }
}

/// `smart_convert` renders exactly the content detected as HTML and hands
/// back any other content unchanged.
pub proof fn smart_convert_law(c: Seq<char>)
    ensures
        looks_like_html(c) ==> smart_converted(c) == rendered(c),
        !looks_like_html(c) ==> smart_converted(c) == c,
{
}

/// Converts HTML content to text and returns any other content as it is.
pub fn smart_convert(content: &str) -> (r: String)
    requires
        looks_like_html(content@) ==> renders(content@),
    ensures
        r@ == smart_converted(content@),
{
    if is_html(content) {
        html_to_markdown(content)
    } else {
        content.to_owned()
    }
}

/// `smart_convert`, or `None` where the content is HTML that the converter
/// reports an error on.
pub fn try_smart_convert(content: &str) -> (r: Option<String>)
    ensures
        r is Some <==> (looks_like_html(content@) ==> renders(content@)),
        r matches Some(s) ==> s@ == smart_converted(content@),
{
    if is_html(content) {
        match render_html(content, RENDER_WIDTH) {
            Some(_) => Some(smart_convert(content)),
            None => None,
        }
    } else {
        Some(smart_convert(content))
    }
}

} // verus!
