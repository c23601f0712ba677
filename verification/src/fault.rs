//! The emergency report of an unrecoverable fault.
//!
//! The report is written straight to the error stream by whoever catches the
//! fault; it never passes through the channel or the consumer.

use vstd::prelude::*;
use vstd::string::StringExecFns;
use crate::paint::{
    holds_reset,
    holds_text,
    is_painted,
    lemma_holds_text_in_concat,
    lemma_painted_holds_text,
    paint,
    Color,
};
use crate::text::{decimal, decimal_text};

verus! {

/// The first line of every report.
pub open spec fn banner_text() -> Seq<char> {
    "========== Rust panicked! =========="@
}

/// The sign in front of each row.
pub open spec fn bullet_text() -> Seq<char> {
    ">"@
}

/// The caption of the row that names the thread.
pub open spec fn thread_caption() -> Seq<char> {
    "Thread:"@
}

/// The caption of the row that names the place.
pub open spec fn location_caption() -> Seq<char> {
    "Location:"@
}

/// The caption of the row that holds the message.
pub open spec fn message_caption() -> Seq<char> {
    "Message:"@
}

/// Stands for the place of a fault that has none.
pub open spec fn unknown_location() -> Seq<char> {
    "<unknown>"@
}

/// Stands for the message of a fault that carries no text.
pub open spec fn unknown_message() -> Seq<char> {
    "<panic>"@
}

/// A place in the source: `file:line:column`.
pub open spec fn location_of(file: Seq<char>, line: u32, column: u32) -> Seq<char> {
    file + seq![':'] + decimal(line as nat) + seq![':'] + decimal(column as nat)
}

/// One row of a report: bullet, caption and value, one blank between each.
pub open spec fn row_text(bullet: Seq<char>, caption: Seq<char>, value: Seq<char>) -> Seq<char> {
    bullet + seq![' '] + caption + seq![' '] + value
}

/// A report: the banner and three rows, each ended by a line feed.
pub open spec fn report_text(
    banner: Seq<char>,
    thread_row: Seq<char>,
    location_row: Seq<char>,
    message_row: Seq<char>,
) -> Seq<char> {
    banner + seq!['\n'] + thread_row + seq!['\n'] + location_row + seq!['\n'] + message_row
        + seq!['\n']
}

/// Whether `out` is the report on a fault, put together from the eight pieces
/// in `parts`: banner, bullet, then caption and value of the thread, of the
/// place and of the message. Banner and bullet are red, captions bright red,
/// values bright yellow, each as colouring may turn out.
pub open spec fn is_report_from(
    out: Seq<char>,
    parts: Seq<Seq<char>>,
    thread: Seq<char>,
    location: Seq<char>,
    message: Seq<char>,
) -> bool {
    &&& parts.len() == 8
    &&& is_painted(parts[0], banner_text(), Color::Red)
    &&& is_painted(parts[1], bullet_text(), Color::Red)
    &&& is_painted(parts[2], thread_caption(), Color::BrightRed)
    &&& is_painted(parts[3], thread, Color::BrightYellow)
    &&& is_painted(parts[4], location_caption(), Color::BrightRed)
    &&& is_painted(parts[5], location, Color::BrightYellow)
    &&& is_painted(parts[6], message_caption(), Color::BrightRed)
    &&& is_painted(parts[7], message, Color::BrightYellow)
    &&& out == report_text(
        parts[0],
        row_text(parts[1], parts[2], parts[3]),
        row_text(parts[1], parts[4], parts[5]),
        row_text(parts[1], parts[6], parts[7]),
    )
}

/// Whether `out` is a report on a fault in `thread` at `location` with
/// `message`.
pub open spec fn is_fault_report(
    out: Seq<char>,
    thread: Seq<char>,
    location: Seq<char>,
    message: Seq<char>,
) -> bool {
    exists|parts: Seq<Seq<char>>| is_report_from(out, parts, thread, location, message)
}

/// A piece that is coloured from `text` and stands in `out` between `before`
/// and `after` brings `text` into `out`, unless `text` holds the reset
/// sequence.
proof fn lemma_piece_brings_text(
    out: Seq<char>,
    before: Seq<char>,
    piece: Seq<char>,
    after: Seq<char>,
    text: Seq<char>,
    color: Color,
)
    requires
        out == before + piece + after,
        is_painted(piece, text, color),
        !holds_reset(text),
    ensures
        holds_text(out, text),
{
    lemma_painted_holds_text(piece, text, color);
    lemma_holds_text_in_concat(before, piece, after, text);
}

/// A row, seen as what stands before its value and the value.
proof fn lemma_row_ends_in_value(bullet: Seq<char>, caption: Seq<char>, value: Seq<char>)
    ensures
        row_text(bullet, caption, value) == (bullet + seq![' '] + caption + seq![' ']) + value,
{
}

/// A report shows the thread, the place and the message as they are: each of
/// them that does not hold the reset sequence stands in the report unchanged,
/// whether or not colours are on.
pub proof fn lemma_report_holds_its_texts(
    out: Seq<char>,
    thread: Seq<char>,
    location: Seq<char>,
    message: Seq<char>,
)
    requires
        is_fault_report(out, thread, location, message),
    ensures
        !holds_reset(thread) ==> holds_text(out, thread),
        !holds_reset(location) ==> holds_text(out, location),
        !holds_reset(message) ==> holds_text(out, message),
{
    let parts = choose|parts: Seq<Seq<char>>| is_report_from(out, parts, thread, location, message);
    let feed = seq!['\n'];
    let thread_row = row_text(parts[1], parts[2], parts[3]);
    let location_row = row_text(parts[1], parts[4], parts[5]);
    let message_row = row_text(parts[1], parts[6], parts[7]);
    let thread_lead = parts[1] + seq![' '] + parts[2] + seq![' '];
    let location_lead = parts[1] + seq![' '] + parts[4] + seq![' '];
    let message_lead = parts[1] + seq![' '] + parts[6] + seq![' '];
    lemma_row_ends_in_value(parts[1], parts[2], parts[3]);
    lemma_row_ends_in_value(parts[1], parts[4], parts[5]);
    lemma_row_ends_in_value(parts[1], parts[6], parts[7]);
    if !holds_reset(thread) {
        let before = parts[0] + feed + thread_lead;
        let after = feed + location_row + feed + message_row + feed;
        assert(out =~= before + parts[3] + after) by {
            lemma_regroup(parts[0] + feed, thread_lead, parts[3], after);
            assert(out =~= (parts[0] + feed) + (thread_lead + parts[3]) + after);
        }
        lemma_piece_brings_text(out, before, parts[3], after, thread, Color::BrightYellow);
    }
    if !holds_reset(location) {
        let start = parts[0] + feed + thread_row + feed;
        let after = feed + message_row + feed;
        assert(out =~= start + location_lead + parts[5] + after) by {
            lemma_regroup(start, location_lead, parts[5], after);
            assert(out =~= start + (location_lead + parts[5]) + after);
        }
        lemma_piece_brings_text(
            out,
            start + location_lead,
            parts[5],
            after,
            location,
            Color::BrightYellow,
        );
    }
    if !holds_reset(message) {
        let start = parts[0] + feed + thread_row + feed + location_row + feed;
        assert(out =~= start + message_lead + parts[7] + feed) by {
            lemma_regroup(start, message_lead, parts[7], feed);
        }
        lemma_piece_brings_text(
            out,
            start + message_lead,
            parts[7],
            feed,
            message,
            Color::BrightYellow,
        );
    }
}

/// Concatenation may be grouped either way.
proof fn lemma_regroup(a: Seq<char>, b: Seq<char>, c: Seq<char>, d: Seq<char>)
    ensures
        a + (b + c) + d == a + b + c + d,
{
}

/// Writes a place in the source as `file:line:column`.
pub fn location_text(file: &str, line: u32, column: u32) -> (r: String)
    ensures
        r@ == location_of(file@, line, column),
{
    proof {
        reveal_strlit(":");
    }
    let mut r = String::from_str(file);
    r.append(":");
    let l = decimal_text(line);
    r.append(l.as_str());
    r.append(":");
    let c = decimal_text(column);
    r.append(c.as_str());
    r
}

/// Puts one row of a report together from its pieces, taken as they are.
pub fn report_row(bullet: &str, caption: &str, value: &str) -> (r: String)
    ensures
        r@ == row_text(bullet@, caption@, value@),
{
    proof {
        reveal_strlit(" ");
    }
    let mut r = String::from_str(bullet);
    r.append(" ");
    r.append(caption);
    r.append(" ");
    r.append(value);
    r
}

/// Puts a report together from its banner and rows, taken as they are.
pub fn assemble_report(banner: &str, thread_row: &str, location_row: &str, message_row: &str) -> (r:
    String)
    ensures
        r@ == report_text(banner@, thread_row@, location_row@, message_row@),
{
    proof {
        reveal_strlit("\n");
    }
    let mut r = String::from_str(banner);
    r.append("\n");
    r.append(thread_row);
    r.append("\n");
    r.append(location_row);
    r.append("\n");
    r.append(message_row);
    r.append("\n");
    r
}

/// The report on an unrecoverable fault: which thread failed, where, and with
/// what message. A fault without a known place is reported at `<unknown>`,
/// one without a text as `<panic>`.
pub fn fault_report(thread: &str, location: Option<&str>, message: Option<&str>) -> (r: String)
    ensures
        is_fault_report(
            r@,
            thread@,
            match location {
                Some(l) => l@,
                None => unknown_location(),
            },
            match message {
                Some(m) => m@,
                None => unknown_message(),
            },
        ),
{
    let place = match location {
        Some(l) => l,
        None => "<unknown>",
    };
    let text = match message {
        Some(m) => m,
        None => "<panic>",
    };
    let banner = paint("========== Rust panicked! ==========", Color::Red);
    let bullet = paint(">", Color::Red);
    let thread_caption = paint("Thread:", Color::BrightRed);
    let thread_value = paint(thread, Color::BrightYellow);
    let location_caption = paint("Location:", Color::BrightRed);
    let location_value = paint(place, Color::BrightYellow);
    let message_caption = paint("Message:", Color::BrightRed);
    let message_value = paint(text, Color::BrightYellow);
    let thread_row = report_row(bullet.as_str(), thread_caption.as_str(), thread_value.as_str());
    let location_row = report_row(
        bullet.as_str(),
        location_caption.as_str(),
        location_value.as_str(),
    );
    let message_row = report_row(bullet.as_str(), message_caption.as_str(), message_value.as_str());
    let r = assemble_report(
        banner.as_str(),
        thread_row.as_str(),
        location_row.as_str(),
        message_row.as_str(),
    );
    proof {
        let parts = seq![
            banner@,
            bullet@,
            thread_caption@,
            thread_value@,
            location_caption@,
            location_value@,
            message_caption@,
            message_value@,
        ];
        assert(is_report_from(r@, parts, thread@, place@, text@));
    }
    r
}

} // verus!
