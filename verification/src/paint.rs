//! Terminal colour for a piece of text: the escape sequences that wrap it,
//! and the calls that apply them.

use vstd::prelude::*;

verus! {

/// The foreground colours that a log line uses.
#[derive(Clone, Copy, Debug, PartialEq, Eq, Structural)]
pub enum Hue {
    Red,
    Yellow,
    Green,
    BrightBlue,
    Purple,
    Cyan,
}

impl Hue {
    /// The colour's number in a "select graphic rendition" sequence.
    pub open spec fn code(self) -> Seq<char> {
        match self {
            Hue::Red => seq!['3', '1'],
            Hue::Yellow => seq!['3', '3'],
            Hue::Green => seq!['3', '2'],
            Hue::BrightBlue => seq!['9', '4'],
            Hue::Purple => seq!['3', '5'],
            Hue::Cyan => seq!['3', '6'],
        }
    }
}

/// The sequence that switches a colour on: escape, `[`, the code, `m`.
pub open spec fn style_open(code: Seq<char>) -> Seq<char> {
    seq!['\u{1b}', '['] + code + seq!['m']
}

/// The sequence that switches every colour and style off.
pub open spec fn style_reset() -> Seq<char> {
    seq!['\u{1b}', '[', '0', 'm']
}

/// `text` with `open` put in again behind every reset sequence that `text`
/// itself holds, so that a reset inside the text does not end the colour
/// early.
pub open spec fn reopened(text: Seq<char>, open: Seq<char>) -> Seq<char>
    decreases text.len(),
{
    if text.len() == 0 {
        text
    } else if style_reset().is_prefix_of(text) {
        style_reset() + open + reopened(text.skip(4), open)
    } else {
        seq![text[0]] + reopened(text.skip(1), open)
    }
}

/// `text` in the colour `code`: switched on before it, kept on through it,
/// and reset behind it.
pub open spec fn decorated(code: Seq<char>, text: Seq<char>) -> Seq<char> {
    style_open(code) + reopened(text, style_open(code)) + style_reset()
}

/// Whether `out` is `text` painted in `hue`: either decorated, or, where
/// colour is switched off for the process, the text as it is.
pub open spec fn is_painting(out: Seq<char>, hue: Hue, text: Seq<char>) -> bool {
    out == text || out == decorated(hue.code(), text)
}

/// Text without an escape character is wrapped and otherwise left as it is.
pub proof fn lemma_reopened_plain(text: Seq<char>, open: Seq<char>)
    requires
        forall|i: int| 0 <= i < text.len() ==> text[i] != '\u{1b}',
    ensures
        reopened(text, open) == text,
    decreases text.len(),
{
    if text.len() > 0 {
        assert(text[0] != '\u{1b}');
        assert(!style_reset().is_prefix_of(text)) by {
            if style_reset().is_prefix_of(text) {
                assert(text[0] == style_reset()[0]);
            }
        }
        lemma_reopened_plain(text.skip(1), open);
        assert(seq![text[0]] + text.skip(1) =~= text);
    }
}

/// Painted text is never shorter than the text, and its length tells
/// whether it was decorated.
pub proof fn lemma_decorated_is_longer(code: Seq<char>, text: Seq<char>)
    ensures
        decorated(code, text).len() >= text.len() + code.len() + 7,
{
    lemma_reopened_length(text, style_open(code));
}

/// Putting the colour in again only ever adds characters.
pub proof fn lemma_reopened_length(text: Seq<char>, open: Seq<char>)
    ensures
        reopened(text, open).len() >= text.len(),
    decreases text.len(),
{
    if text.len() == 0 {
    } else if style_reset().is_prefix_of(text) {
        lemma_reopened_length(text.skip(4), open);
    } else {
        lemma_reopened_length(text.skip(1), open);
    }
}

/// `colored::Colorize::red` on a `&str`, then `to_string`. The crate writes
/// either the text alone (colour switched off for the process) or the text
/// decorated with code 31; the contract holds as long as no other thread
/// flips that switch during the call.
#[verifier::external_body]
fn paint_red(text: &str) -> (out: String)
    ensures
        is_painting(out@, Hue::Red, text@),
{
    colored::Colorize::red(text).to_string()
}

/// `colored::Colorize::yellow` on a `&str`, then `to_string`: the text
/// alone, or decorated with code 33, under the same condition as for red.
#[verifier::external_body]
fn paint_yellow(text: &str) -> (out: String)
    ensures
        is_painting(out@, Hue::Yellow, text@),
{
    colored::Colorize::yellow(text).to_string()
}

/// `colored::Colorize::green` on a `&str`, then `to_string`: the text
/// alone, or decorated with code 32, under the same condition as for red.
#[verifier::external_body]
fn paint_green(text: &str) -> (out: String)
    ensures
        is_painting(out@, Hue::Green, text@),
{
    colored::Colorize::green(text).to_string()
}

/// `colored::Colorize::bright_blue` on a `&str`, then `to_string`: the text
/// alone, or decorated with code 94, under the same condition as for red.
#[verifier::external_body]
fn paint_bright_blue(text: &str) -> (out: String)
    ensures
        is_painting(out@, Hue::BrightBlue, text@),
{
    colored::Colorize::bright_blue(text).to_string()
}

/// `colored::Colorize::purple` on a `&str`, then `to_string`: the text
/// alone, or decorated with code 35 (the crate's purple is its magenta),
/// under the same condition as for red.
#[verifier::external_body]
fn paint_purple(text: &str) -> (out: String)
    ensures
        is_painting(out@, Hue::Purple, text@),
{
    colored::Colorize::purple(text).to_string()
}

/// `colored::Colorize::cyan` on a `&str`, then `to_string`: the text alone,
/// or decorated with code 36, under the same condition as for red.
#[verifier::external_body]
fn paint_cyan(text: &str) -> (out: String)
    ensures
        is_painting(out@, Hue::Cyan, text@),
{
    colored::Colorize::cyan(text).to_string()
}

/// Paints `text` in `hue` for a terminal. What comes back is the text
/// decorated, or the text unchanged where colour is switched off for the
/// process.
pub fn paint(hue: Hue, text: &str) -> (out: String)
    ensures
        is_painting(out@, hue, text@),
{
    match hue {
        Hue::Red => paint_red(text),
        Hue::Yellow => paint_yellow(text),
        Hue::Green => paint_green(text),
        Hue::BrightBlue => paint_bright_blue(text),
        Hue::Purple => paint_purple(text),
        Hue::Cyan => paint_cyan(text),
    }
}

} // verus!
