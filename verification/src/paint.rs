//! Terminal colours.

use vstd::prelude::*;

verus! {

/// The foreground colours that the pipeline uses.
#[derive(Clone, Copy, Debug, PartialEq, Eq, Structural)]
pub enum Color {
    Red,
    Yellow,
    Green,
    Cyan,
    White,
    BrightRed,
    BrightYellow,
}

impl Color {
    /// The number that selects this foreground colour in an escape sequence.
    pub open spec fn code(self) -> Seq<char> {
        match self {
            Color::Red => seq!['3', '1'],
            Color::Yellow => seq!['3', '3'],
            Color::Green => seq!['3', '2'],
            Color::Cyan => seq!['3', '6'],
            Color::White => seq!['3', '7'],
            Color::BrightRed => seq!['9', '1'],
            Color::BrightYellow => seq!['9', '3'],
        }
    }

    /// The escape sequence that switches the terminal to this colour.
    pub open spec fn opening(self) -> Seq<char> {
        seq!['\u{1b}', '['] + self.code() + seq!['m']
    }
}

/// The escape sequence that switches the terminal back to its defaults.
pub open spec fn reset_sequence() -> Seq<char> {
    seq!['\u{1b}', '[', '0', 'm']
}

/// Whether `text` holds the reset sequence somewhere.
pub open spec fn holds_reset(text: Seq<char>) -> bool {
    exists|i: int|
        0 <= i && i + 4 <= text.len() && #[trigger] text.subrange(i, i + 4) == reset_sequence()
}

/// `text` with the sequence `opening` put in after every reset sequence that
/// it holds, so that a colour that the text itself switches off is taken up
/// again.
pub open spec fn color_resumed(text: Seq<char>, opening: Seq<char>) -> Seq<char>
    decreases text.len(),
{
    if text.len() == 0 {
        text
    } else if reset_sequence().is_prefix_of(text) {
        reset_sequence() + opening + color_resumed(text.subrange(4, text.len() as int), opening)
    } else {
        seq![text[0]] + color_resumed(text.subrange(1, text.len() as int), opening)
    }
}

/// What colouring `text` may give. With colours switched off the text comes
/// back as it is. With colours on it stands between the colour's opening
/// sequence and the reset sequence, and the opening sequence is put in again
/// after every reset sequence inside the text. Colours may be switched off
/// while the text is being rendered: then the opening sequence in front, or
/// those inside the text, or both are missing.
pub open spec fn is_painted(out: Seq<char>, text: Seq<char>, color: Color) -> bool {
    ||| out == text
    ||| out == color.opening() + color_resumed(text, color.opening()) + reset_sequence()
    ||| out == color.opening() + text + reset_sequence()
    ||| out == color_resumed(text, color.opening()) + reset_sequence()
    ||| out == text + reset_sequence()
}

/// A text that holds no reset sequence has no place at which a colour is to
/// be taken up again.
pub proof fn lemma_nothing_to_resume(text: Seq<char>, opening: Seq<char>)
    requires
        !holds_reset(text),
    ensures
        color_resumed(text, opening) == text,
    decreases text.len(),
{
    if text.len() > 0 {
        let rest = text.subrange(1, text.len() as int);
        if reset_sequence().is_prefix_of(text) {
            let at = 0;
            assert(text.subrange(at, at + 4) =~= reset_sequence());
        }
        if holds_reset(rest) {
            let i = choose|i: int|
                0 <= i && i + 4 <= rest.len() && #[trigger] rest.subrange(i, i + 4)
                    == reset_sequence();
            let at = i + 1;
            assert(text.subrange(at, at + 4) =~= rest.subrange(i, i + 4));
        }
        lemma_nothing_to_resume(rest, opening);
        assert(seq![text[0]] + rest =~= text);
    }
}

/// Whether `text` stands in `out` as it is, at position `at`.
pub open spec fn stands_at(out: Seq<char>, text: Seq<char>, at: int) -> bool {
    0 <= at && at + text.len() <= out.len() && out.subrange(at, at + text.len()) == text
}

/// Whether `text` stands somewhere in `out` as it is.
pub open spec fn holds_text(out: Seq<char>, text: Seq<char>) -> bool {
    exists|at: int| stands_at(out, text, at)
}

/// Colouring keeps the text: a text that does not hold the reset sequence
/// stands in its coloured form as it is.
pub proof fn lemma_painted_holds_text(out: Seq<char>, text: Seq<char>, color: Color)
    requires
        is_painted(out, text, color),
        !holds_reset(text),
    ensures
        holds_text(out, text),
{
    lemma_nothing_to_resume(text, color.opening());
    if out == text {
        assert(out.subrange(0, text.len() as int) =~= text);
        assert(stands_at(out, text, 0));
    } else if out == color.opening() + text + reset_sequence() {
        let at = color.opening().len() as int;
        assert(out.subrange(at, at + text.len()) =~= text);
        assert(stands_at(out, text, at));
    } else {
        assert(out.subrange(0, text.len() as int) =~= text);
        assert(stands_at(out, text, 0));
    }
}

/// What stands in a part of a text stands in the whole.
pub proof fn lemma_holds_text_in_concat(
    before: Seq<char>,
    part: Seq<char>,
    after: Seq<char>,
    text: Seq<char>,
)
    requires
        holds_text(part, text),
    ensures
        holds_text(before + part + after, text),
{
    let at = choose|at: int| stands_at(part, text, at);
    let whole = before + part + after;
    let shifted = before.len() + at;
    assert(whole.subrange(shifted, shifted + text.len()) =~= part.subrange(at, at + text.len()));
    assert(stands_at(whole, text, shifted));
}

/// Colours a text for the terminal.
///
/// Calls `colored::Colorize::color` on the text and renders the resulting
/// `ColoredString` through its `Display`. Whether colours are on is decided by
/// `colored` from the environment and its process-wide override, so the
/// contract lists the shapes that the result can have: every path through
/// that `Display`, with each of its reads of the colour switch going either
/// way. None of this is proved here.
#[verifier::external_body]
pub(crate) fn paint(text: &str, color: Color) -> (out: String)
    ensures
        is_painted(out@, text@, color),
{
    let tint = match color {
        Color::Red => colored::Color::Red,
        Color::Yellow => colored::Color::Yellow,
        Color::Green => colored::Color::Green,
        Color::Cyan => colored::Color::Cyan,
        Color::White => colored::Color::White,
        Color::BrightRed => colored::Color::BrightRed,
        Color::BrightYellow => colored::Color::BrightYellow,
    };
    colored::Colorize::color(text, tint).to_string()
}

} // verus!
