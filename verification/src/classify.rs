//! Which events are shown, and the line of text that shows one.

use crate::decimal::{decimal, push_decimal};
use crate::event::{EventKind, RawEvent, EV_MSC, EV_SYN, MSC_SCAN};
use crate::names::{code_name, code_text, misc_name};
use vstd::prelude::*;
use vstd::string::*;

verus! {

/// Events of these kinds are never shown: every synchronization event, and
/// the scan-code echo that accompanies a key event.
pub open spec fn is_suppressed(kind: EventKind) -> bool {
    kind is Synchronization || kind == EventKind::Miscellaneous(MSC_SCAN)
}

/// The line for an event that carries a code:
/// `<name>: <category>: <code name> <value>`.
pub open spec fn coded_line(
    name: Seq<char>,
    category: Seq<char>,
    code: Seq<char>,
    value: int,
) -> Seq<char> {
    name + ": "@ + category + ": "@ + code + " "@ + decimal(value)
}

/// The line for an event that is shown without a code:
/// `<name>: <category> <value>`.
pub open spec fn plain_line(name: Seq<char>, category: Seq<char>, value: int) -> Seq<char> {
    name + ": "@ + category + " "@ + decimal(value)
}

/// The word that stands for a kind in its line.
pub open spec fn category(kind: EventKind) -> Seq<char> {
    match kind {
        EventKind::Key(_) => "key"@,
        EventKind::RelativeAxis(_) => "relative axis"@,
        EventKind::AbsoluteAxis(_) => "absolute axis"@,
        EventKind::Miscellaneous(_) => "misc"@,
        EventKind::Switch(_) => "switch"@,
        EventKind::Led(_) => "led"@,
        EventKind::Sound(_) => "sound"@,
        EventKind::Synchronization(_) => "synchronization"@,
        EventKind::Other => "other"@,
    }
}

/// The line that shows `event` on the device called `name`, or `None` where
/// the event is suppressed.
pub open spec fn rendered(name: Seq<char>, event: RawEvent) -> Option<Seq<char>> {
    let kind = event.kind_spec();
    if is_suppressed(kind) {
        None
    } else if kind is Other {
        Some(plain_line(name, category(kind), event.value as int))
    } else {
        Some(coded_line(name, category(kind), code_name(kind), event.value as int))
    }
}

/// The lines that show a batch of events, in the order of the events.
pub open spec fn rendered_batch(name: Seq<char>, events: Seq<RawEvent>) -> Seq<Seq<char>>
    decreases events.len(),
{
    if events.len() == 0 {
        Seq::empty()
    } else {
        let before = rendered_batch(name, events.drop_last());
        match rendered(name, events.last()) {
            Some(line) => before.push(line),
            None => before,
        }
    }
}

/// The texts of a sequence of strings.
pub open spec fn texts(lines: Seq<String>) -> Seq<Seq<char>> {
    lines.map_values(|line: String| line@)
}

/// Whether an event of this kind is shown.
pub fn is_forwarded(kind: EventKind) -> (shown: bool)
    ensures
        shown == !is_suppressed(kind),
{
    match kind {
        EventKind::Synchronization(_) => false,
        EventKind::Miscellaneous(code) => code != MSC_SCAN,
        _ => true,
    }
}

/// The word that stands for `kind` in its line.
pub fn category_text(kind: EventKind) -> (word: &'static str)
    ensures
        word@ == category(kind),
{
    match kind {
        EventKind::Key(_) => "key",
        EventKind::RelativeAxis(_) => "relative axis",
        EventKind::AbsoluteAxis(_) => "absolute axis",
        EventKind::Miscellaneous(_) => "misc",
        EventKind::Switch(_) => "switch",
        EventKind::Led(_) => "led",
        EventKind::Sound(_) => "sound",
        EventKind::Synchronization(_) => "synchronization",
        EventKind::Other => "other",
    }
}

/// Builds the line `<name>: <category>: <code> <value>`.
pub fn coded_line_text(name: &str, category: &str, code: &str, value: i32) -> (line: String)
    ensures
        line@ == coded_line(name@, category@, code@, value as int),
{
    let mut line = String::new();
    line.append(name);
    line.append(": ");
    line.append(category);
    line.append(": ");
    line.append(code);
    line.append(" ");
    push_decimal(&mut line, value);
    assert(line@ =~= coded_line(name@, category@, code@, value as int));
    line
}

/// Builds the line `<name>: <category> <value>`.
pub fn plain_line_text(name: &str, category: &str, value: i32) -> (line: String)
    ensures
        line@ == plain_line(name@, category@, value as int),
{
    let mut line = String::new();
    line.append(name);
    line.append(": ");
    line.append(category);
    line.append(" ");
    push_decimal(&mut line, value);
    assert(line@ =~= plain_line(name@, category@, value as int));
    line
}

/// The line that shows `event` on the device called `name`; `None` exactly
/// for a suppressed event.
pub fn render(name: &str, event: &RawEvent) -> (line: Option<String>)
    ensures
        line is None <==> is_suppressed(event.kind_spec()),
        match line {
            Some(text) => rendered(name@, *event) == Some(text@),
            None => rendered(name@, *event) is None,
        },
{
    let kind = event.kind();
    if !is_forwarded(kind) {
        None
    } else {
        match kind {
            EventKind::Other => Some(plain_line_text(name, category_text(kind), event.value)),
            _ => {
                let code = code_text(kind);
                Some(coded_line_text(name, category_text(kind), code.as_str(), event.value))
            },
        }
    }
}

/// The lines that show `events` on the device called `name`: one line for
/// each event that is not suppressed, in the order of the events.
pub fn render_batch(name: &str, events: &Vec<RawEvent>) -> (lines: Vec<String>)
    ensures
        texts(lines@) == rendered_batch(name@, events@),
{
    let mut lines: Vec<String> = Vec::new();
    let mut i: usize = 0;
    assert(events@.take(0) =~= Seq::<RawEvent>::empty());
    assert(texts(lines@) =~= rendered_batch(name@, events@.take(0)));
    while i < events.len()
        invariant
            i <= events.len(),
            texts(lines@) == rendered_batch(name@, events@.take(i as int)),
        decreases events.len() - i,
    {
        let ghost before = lines@;
        let line = render(name, &events[i]);
        proof {
            let next = events@.take(i + 1);
            assert(next.drop_last() =~= events@.take(i as int));
            assert(next.last() == events@[i as int]);
        }
        match line {
            Some(text) => {
                lines.push(text);
                assert(texts(lines@) =~= texts(before).push(text@));
            },
            None => {},
        }
        i += 1;
    }
    assert(events@.take(i as int) =~= events@);
    lines
}

/// A synchronization event is never shown, whatever its code and value, and
/// it adds no line to a batch that it ends.
pub proof fn synchronization_is_never_shown(
    name: Seq<char>,
    earlier: Seq<RawEvent>,
    code: u16,
    value: i32,
)
    ensures
        rendered(name, RawEvent { event_type: EV_SYN, code, value }) is None,
        rendered_batch(name, earlier.push(RawEvent { event_type: EV_SYN, code, value }))
            == rendered_batch(name, earlier),
{
    let event = RawEvent { event_type: EV_SYN, code, value };
    assert(earlier.push(event).drop_last() =~= earlier);
}

/// A miscellaneous event is suppressed exactly when its code is the scan
/// code: with that code it is never shown, with any other it always is.
pub proof fn miscellaneous_is_shown_unless_scan_code(name: Seq<char>, code: u16, value: i32)
    ensures
        rendered(name, RawEvent { event_type: EV_MSC, code, value }) is None <==> code
            == MSC_SCAN,
        code != MSC_SCAN ==> rendered(name, RawEvent { event_type: EV_MSC, code, value })
            == Some(coded_line(name, "misc"@, misc_name(code), value as int)),
{
}

/// Every line that shows an event of a device begins with the device's name,
/// followed by a colon and a space.
pub proof fn line_begins_with_name(name: Seq<char>, event: RawEvent)
    ensures
        match rendered(name, event) {
            Some(line) => (name + ": "@).is_prefix_of(line),
            None => true,
        },
{
    let kind = event.kind_spec();
    let head = name + ": "@;
    match rendered(name, event) {
        Some(line) => {
            let rest = if kind is Other {
                category(kind) + " "@ + decimal(event.value as int)
            } else {
                category(kind) + ": "@ + code_name(kind) + " "@ + decimal(event.value as int)
            };
            assert(line =~= head + rest);
            assert((head + rest).subrange(0, head.len() as int) =~= head);
        },
        None => {},
    }
}

/// Where one batch ends and the next begins makes no difference to what is
/// shown: the lines of two batches, one after the other, are the lines of
/// their events taken as one batch.
pub proof fn batch_boundaries_do_not_matter(
    name: Seq<char>,
    first: Seq<RawEvent>,
    second: Seq<RawEvent>,
)
    ensures
        rendered_batch(name, first + second) == rendered_batch(name, first) + rendered_batch(
            name,
            second,
        ),
    decreases second.len(),
{
    if second.len() == 0 {
        assert(first + second =~= first);
        assert(rendered_batch(name, first) + rendered_batch(name, second) =~= rendered_batch(
            name,
            first,
        ));
    } else {
        let shorter = second.drop_last();
        batch_boundaries_do_not_matter(name, first, shorter);
        assert((first + second).drop_last() =~= first + shorter);
        assert((first + second).last() == second.last());
        let so_far = rendered_batch(name, first) + rendered_batch(name, shorter);
        match rendered(name, second.last()) {
            Some(line) => {
                assert(so_far.push(line) =~= rendered_batch(name, first) + rendered_batch(
                    name,
                    shorter,
                ).push(line));
            },
            None => {},
        }
    }
}

} // verus!
