//! The usage sections of the README.

use vstd::prelude::*;
use vstd::string::*;

verus! {

/// The HTML that `ansi_to_html::convert` makes of a text with ANSI escape
/// codes; none where it refuses the text.
pub uninterp spec fn ansi_html(ansi: Seq<char>) -> Option<Seq<char>>;

/// `convert` of `ansi_to_html`.
#[verifier::external_body]
fn ansi_to_html(ansi: &str) -> (html: Option<String>)
    ensures
        match html {
            Some(text) => ansi_html(ansi@) == Some(text@),
            None => ansi_html(ansi@) is None,
        },
{
    ansi_to_html::convert(ansi).ok()
}

/// A section of the README: the heading, and the HTML in a block of
/// preformatted text.
pub open spec fn section_text(heading: Seq<char>, html: Seq<char>) -> Seq<char> {
    "### "@ + heading + "\n\n<pre>\n"@ + html + "</pre>\n\n"@
}

/// Writes a section of the README around HTML that is already there.
pub fn section(heading: &str, html: &str) -> (section: String)
    ensures
        section@ == section_text(heading@, html@),
{
    let mut section = String::from_str("### ");
    section.append(heading);
    section.append("\n\n<pre>\n");
    section.append(html);
    section.append("</pre>\n\n");
    section
}

/// Renders a section of the README from the help text of a command, which
/// holds ANSI escape codes.
pub fn render_section(heading: &str, ansi: &str) -> (section: Option<String>)
    ensures
        match section {
            Some(text) => ansi_html(ansi@) is Some && text@ == section_text(
                heading@,
                ansi_html(ansi@)->0,
            ),
            None => ansi_html(ansi@) is None,
        },
{
    match ansi_to_html(ansi) {
        Some(html) => Some(section(heading, html.as_str())),
        None => None,
    }
}

} // verus!
