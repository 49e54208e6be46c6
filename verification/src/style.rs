//! Terminal styles: text between ANSI escape sequences.

use vstd::prelude::*;

verus! {

/// The escape sequence that selects the graphic rendition `code`.
pub open spec fn escape(code: Seq<char>) -> Seq<char> {
    seq!['\x1b', '['] + code + seq!['m']
}

/// `text` in the purple foreground colour.
pub open spec fn purple_text(text: Seq<char>) -> Seq<char> {
    escape(seq!['3', '5']) + text + escape(seq!['3', '9'])
}

/// `text` in the bright black foreground colour.
pub open spec fn bright_black_text(text: Seq<char>) -> Seq<char> {
    escape(seq!['9', '0']) + text + escape(seq!['3', '9'])
}

/// `text` in bold.
pub open spec fn bold_text(text: Seq<char>) -> Seq<char> {
    escape(seq!['1']) + text + escape(seq!['0'])
}

/// `text` in italics.
pub open spec fn italic_text(text: Seq<char>) -> Seq<char> {
    escape(seq!['3']) + text + escape(seq!['0'])
}

/// `text` underlined.
pub open spec fn underlined_text(text: Seq<char>) -> Seq<char> {
    escape(seq!['4']) + text + escape(seq!['0'])
}

/// `text` as a heading: purple, bold and underlined.
pub open spec fn emphasized(text: Seq<char>) -> Seq<char> {
    underlined_text(bold_text(purple_text(text)))
}

/// `text` as a side note: bright black and in italics.
pub open spec fn subdued(text: Seq<char>) -> Seq<char> {
    italic_text(bright_black_text(text))
}

/// Styles `text` as a heading.
pub fn emphasize(text: &str) -> (styled: String)
    ensures
        styled@ == emphasized(text@),
{
    let coloured = purple(text);
    let bold = bold(coloured.as_str());
    underline(bold.as_str())
}

/// Styles `text` as a side note.
pub fn subdue(text: &str) -> (styled: String)
    ensures
        styled@ == subdued(text@),
{
    let coloured = bright_black(text);
    italic(coloured.as_str())
}

/// Displays `text` through owo_colors' `OwoColorize::purple`. Claimed of
/// it: the text comes out unchanged between `ESC[35m` and `ESC[39m`.
#[verifier::external_body]
fn purple(text: &str) -> (styled: String)
    ensures
        styled@ == purple_text(text@),
{
    format!("{}", owo_colors::OwoColorize::purple(&text))
}

/// Displays `text` through owo_colors' `OwoColorize::bright_black`. Claimed
/// of it: the text comes out unchanged between `ESC[90m` and `ESC[39m`.
#[verifier::external_body]
fn bright_black(text: &str) -> (styled: String)
    ensures
        styled@ == bright_black_text(text@),
{
    format!("{}", owo_colors::OwoColorize::bright_black(&text))
}

/// Displays `text` through owo_colors' `OwoColorize::bold`. Claimed of it:
/// the text comes out unchanged between `ESC[1m` and `ESC[0m`.
#[verifier::external_body]
fn bold(text: &str) -> (styled: String)
    ensures
        styled@ == bold_text(text@),
{
    format!("{}", owo_colors::OwoColorize::bold(&text))
}

/// Displays `text` through owo_colors' `OwoColorize::italic`. Claimed of
/// it: the text comes out unchanged between `ESC[3m` and `ESC[0m`.
#[verifier::external_body]
fn italic(text: &str) -> (styled: String)
    ensures
        styled@ == italic_text(text@),
{
    format!("{}", owo_colors::OwoColorize::italic(&text))
}

/// Displays `text` through owo_colors' `OwoColorize::underline`. Claimed of
/// it: the text comes out unchanged between `ESC[4m` and `ESC[0m`.
#[verifier::external_body]
fn underline(text: &str) -> (styled: String)
    ensures
        styled@ == underlined_text(text@),
{
    format!("{}", owo_colors::OwoColorize::underline(&text))
}

} // verus!
