//! The text of an output line.

use vstd::prelude::*;
use vstd::string::StringExecFns;
use crate::event::{LogEvent, LogEventView};
use crate::paint::{
    holds_reset,
    holds_text,
    is_painted,
    lemma_holds_text_in_concat,
    lemma_painted_holds_text,
    paint,
    stands_at,
};
use crate::text::{decimal, decimal_text};

verus! {

/// Where an event comes from, in brackets: `[module]`, or `[module@line]`
/// when the source line is known.
pub open spec fn origin_text(module: Seq<char>, line: Option<u32>) -> Seq<char> {
    match line {
        Some(n) => seq!['['] + module + seq!['@'] + decimal(n as nat) + seq![']'],
        None => seq!['['] + module + seq![']'],
    }
}

/// An output line: time, severity, origin and message, one blank between
/// each.
pub open spec fn line_text(
    clock: Seq<char>,
    label: Seq<char>,
    module: Seq<char>,
    line: Option<u32>,
    message: Seq<char>,
) -> Seq<char> {
    clock + seq![' '] + label + seq![' '] + origin_text(module, line) + seq![' '] + message
}

/// The line of an event without any colour.
pub open spec fn plain_line(event: LogEventView) -> Seq<char> {
    line_text(
        event.timestamp.digits(),
        event.severity.label_text(),
        event.module,
        event.line,
        event.message,
    )
}

/// Whether `out` is the line of `event` with `label` and `message` standing
/// for its severity name and its message.
pub open spec fn is_line_with(
    out: Seq<char>,
    event: LogEventView,
    label: Seq<char>,
    message: Seq<char>,
) -> bool {
    &&& is_painted(label, event.severity.label_text(), event.severity.tint())
    &&& is_painted(message, event.message, event.severity.tint())
    &&& out == line_text(event.timestamp.digits(), label, event.module, event.line, message)
}

/// Whether `out` is a line of `event` in which the severity name and the
/// message are coloured by the severity, each as colouring may turn out. The
/// time and the origin are never coloured.
pub open spec fn is_colored_line(out: Seq<char>, event: LogEventView) -> bool {
    exists|label: Seq<char>, message: Seq<char>| is_line_with(out, event, label, message)
}

/// The plain line is the line that comes out when colours are switched off.
pub proof fn lemma_plain_line_is_a_line(event: LogEventView)
    ensures
        is_colored_line(plain_line(event), event),
{
    assert(is_line_with(plain_line(event), event, event.severity.label_text(), event.message));
}

/// Whatever colouring does, a line starts with the time of its event and
/// shows the origin as it is; the message stands in it unchanged unless it
/// holds the reset sequence.
pub proof fn lemma_line_holds_its_texts(out: Seq<char>, event: LogEventView)
    requires
        is_colored_line(out, event),
    ensures
        event.timestamp.digits().is_prefix_of(out),
        holds_text(out, origin_text(event.module, event.line)),
        !holds_reset(event.message) ==> holds_text(out, event.message),
{
    let (label, message) = choose|label: Seq<char>, message: Seq<char>|
        is_line_with(out, event, label, message);
    let clock = event.timestamp.digits();
    let origin = origin_text(event.module, event.line);
    let blank = seq![' '];
    assert(holds_text(out, origin)) by {
        let before = clock + blank + label + blank;
        assert(origin.subrange(0, origin.len() as int) =~= origin);
        assert(stands_at(origin, origin, 0));
        lemma_holds_text_in_concat(before, origin, blank + message, origin);
        assert(out =~= before + origin + (blank + message));
    }
    if !holds_reset(event.message) {
        let before = clock + blank + label + blank + origin + blank;
        lemma_painted_holds_text(message, event.message, event.severity.tint());
        lemma_holds_text_in_concat(before, message, Seq::empty(), event.message);
    }
}

/// Puts an output line together from its parts. `label` and `message` are
/// taken as they are, coloured or not.
pub fn render_line(
    clock: &str,
    label: &str,
    module: &str,
    line: Option<u32>,
    message: &str,
) -> (r: String)
    ensures
        r@ == line_text(clock@, label@, module@, line, message@),
{
    proof {
        reveal_strlit(" ");
        reveal_strlit(" [");
        reveal_strlit("@");
        reveal_strlit("] ");
    }
    let mut r = String::from_str(clock);
    r.append(" ");
    r.append(label);
    r.append(" [");
    r.append(module);
    match line {
        Some(n) => {
            let number = decimal_text(n);
            r.append("@");
            r.append(number.as_str());
        },
        None => {},
    }
    r.append("] ");
    r.append(message);
    r
}

/// The line of an event without colour: `HH:MM:SS.mmm SEVERITY [module] message`,
/// with `@line` after the module where the source line is known.
pub fn format_plain(event: &LogEvent) -> (r: String)
    ensures
        r@ == plain_line(event@),
{
    let clock = event.timestamp().text();
    render_line(
        clock.as_str(),
        event.severity().label(),
        event.module(),
        event.line(),
        event.message(),
    )
}

/// The line of an event as the consumer prints it: the severity name and the
/// message in the colour of the severity, the rest plain.
pub fn format_event(event: &LogEvent) -> (r: String)
    ensures
        is_colored_line(r@, event@),
{
    let clock = event.timestamp().text();
    let color = event.severity().color();
    let label = paint(event.severity().label(), color);
    let message = paint(event.message(), color);
    let r = render_line(
        clock.as_str(),
        label.as_str(),
        event.module(),
        event.line(),
        message.as_str(),
    );
    assert(is_line_with(r@, event@, label@, message@));
    r
}

} // verus!
