//! Conversions between the markup languages that Jira speaks: HTML (rendered fields),
//! Markdown (what the user reads and types) and the Atlassian Document Format (what the
//! REST API takes as a comment body). The conversions are done by outside crates.

use vstd::prelude::*;

verus! {

/// The Markdown that `html2md::parse_html` produces from an HTML text.
pub uninterp spec fn markdown_of_html(html: Seq<char>) -> Seq<char>;

/// The HTML that `markdown::to_html` produces from a Markdown text.
pub uninterp spec fn html_of_markdown(markdown: Seq<char>) -> Seq<char>;

/// The JSON text of the Atlassian document that `htmltoadf::convert_html_str_to_adf_str`
/// produces from an HTML text.
pub uninterp spec fn adf_of_html(html: Seq<char>) -> Seq<char>;

/// Calls `html2md::parse_html`, which parses HTML and writes it out as Markdown. The
/// contract only names the result: it depends on the HTML text alone.
#[verifier::external_body]
pub(crate) fn parse_html(html: &str) -> (markdown: String)
    ensures
        markdown@ == markdown_of_html(html@),
{
    html2md::parse_html(html)
}

/// Calls `markdown::to_html`, which renders CommonMark as HTML with the default options
/// (under which, as its documentation says, it never fails). The contract only names the
/// result: it depends on the Markdown text alone.
#[verifier::external_body]
pub(crate) fn markdown_to_html(markdown: &str) -> (html: String)
    ensures
        html@ == html_of_markdown(markdown@),
{
    markdown::to_html(markdown)
}

/// Calls `htmltoadf::convert_html_str_to_adf_str`, which converts HTML into the JSON text
/// of an Atlassian document. The contract only names the result: it depends on the HTML
/// text alone. The crate panics on some inline `color` styles (a missing value, or an
/// `rgb(..)`/`rgba(..)` component that does not fit `i32`), so `requires` admits only HTML
/// that `markdown::to_html` wrote: with its default options that crate shows raw HTML as
/// escaped text and writes no style attribute itself.
#[verifier::external_body]
pub(crate) fn html_to_adf(html: String) -> (adf: String)
    requires
        exists|markdown: Seq<char>| html@ == #[trigger] html_of_markdown(markdown),
    ensures
        adf@ == adf_of_html(html@),
{
    htmltoadf::convert_html_str_to_adf_str(html)
}

} // verus!
