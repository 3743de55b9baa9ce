//! The polling loop: which device is polled next, and what each poll puts on
//! the output and error streams.
//!
//! The loop itself never ends and is run by the caller, which fetches from
//! the device that is due and hands the outcome to [`Dispatcher::step`].

use crate::classify::{
    batch_boundaries_do_not_matter, render_batch, rendered_batch, texts,
};
use crate::event::RawEvent;
use crate::registry::RegistryEntry;
use crate::source::{batch_of, report_of, FetchOutcome};
use vstd::arithmetic::div_mod::{
    lemma_fundamental_div_mod, lemma_fundamental_div_mod_converse, lemma_mod_bound,
    lemma_small_mod,
};
use vstd::prelude::*;

verus! {

/// The devices that are polled, in list order, and the place of the one that
/// is due.
#[derive(Debug)]
pub struct Dispatcher {
    entries: Vec<RegistryEntry>,
    cursor: usize,
}

/// What one poll puts out.
#[derive(Clone, Debug)]
pub struct Output {
    /// The lines for the output stream, in order.
    pub lines: Vec<String>,
    /// The line for the error stream, if there is one.
    pub report: Option<String>,
}

/// The events that an outcome delivers; none unless it is a batch.
pub open spec fn delivered(outcome: FetchOutcome) -> Seq<RawEvent> {
    match batch_of(outcome) {
        Some(events) => events,
        None => Seq::empty(),
    }
}

/// The lines that an outcome puts on the output stream for the device called
/// `name`.
pub open spec fn shown(name: Seq<char>, outcome: FetchOutcome) -> Seq<Seq<char>> {
    rendered_batch(name, delivered(outcome))
}

/// The place that is due after `cursor` in a list of `len` devices: the next
/// one, and the first one again after the last.
pub open spec fn next_cursor(cursor: nat, len: nat) -> nat {
    if cursor + 1 < len {
        cursor + 1
    } else {
        0
    }
}

/// The place that is due after `polls` polls, starting from the first device.
pub open spec fn due_after(len: nat, polls: nat) -> nat
    decreases polls,
{
    if polls == 0 {
        0
    } else {
        next_cursor(due_after(len, (polls - 1) as nat), len)
    }
}

/// The events that a run of fetches on one device hands on, in order.
pub open spec fn forwarded(outcomes: Seq<FetchOutcome>) -> Seq<RawEvent>
    decreases outcomes.len(),
{
    if outcomes.len() == 0 {
        Seq::empty()
    } else {
        forwarded(outcomes.drop_last()) + delivered(outcomes.last())
    }
}

/// The lines that a run of fetches on the device called `name` puts on the
/// output stream, in order.
pub open spec fn lines_over(name: Seq<char>, outcomes: Seq<FetchOutcome>) -> Seq<Seq<char>>
    decreases outcomes.len(),
{
    if outcomes.len() == 0 {
        Seq::empty()
    } else {
        lines_over(name, outcomes.drop_last()) + shown(name, outcomes.last())
    }
}

impl Output {
    /// The text of the report, if there is one.
    pub open spec fn report_view(self) -> Option<Seq<char>> {
        match self.report {
            Some(line) => Some(line@),
            None => None,
        }
    }
}

impl Dispatcher {
    /// The devices, in list order.
    pub closed spec fn entries_spec(self) -> Seq<RegistryEntry> {
        self.entries@
    }

    /// The place in the list of the device that is due.
    pub closed spec fn cursor_spec(self) -> nat {
        self.cursor as nat
    }

    /// The place that is due lies in the list; in an empty list it is zero.
    #[verifier::type_invariant]
    spec fn cursor_in_list(self) -> bool {
        self.cursor < self.entries.len() || self.cursor == 0
    }

    /// A dispatcher over `entries`, with the first of them due.
    pub fn new(entries: Vec<RegistryEntry>) -> (dispatcher: Dispatcher)
        ensures
            dispatcher.entries_spec() == entries@,
            dispatcher.cursor_spec() == 0,
    {
        Dispatcher { entries, cursor: 0 }
    }

    /// The number of devices.
    pub fn len(&self) -> (len: usize)
        ensures
            len == self.entries_spec().len(),
    {
        self.entries.len()
    }

    /// The place in the list of the device that is due, and the device
    /// itself; `None` exactly when there are no devices.
    pub fn due(&self) -> (due: Option<(usize, &RegistryEntry)>)
        ensures
            due is None <==> self.entries_spec().len() == 0,
            match due {
                Some((place, entry)) => {
                    &&& place == self.cursor_spec()
                    &&& place < self.entries_spec().len()
                    &&& *entry == self.entries_spec()[place as int]
                },
                None => true,
            },
    {
        proof {
            use_type_invariant(self);
        }
        if self.entries.len() == 0 {
            None
        } else {
            Some((self.cursor, &self.entries[self.cursor]))
        }
    }

    /// Takes the outcome of the fetch that was made on the device that is
    /// due, and moves on to the next device.
    ///
    /// The batch, if the outcome is one, is shown under that device's name,
    /// event by event in the device's order; a failure other than a lack of
    /// events is reported. Where there are no devices, nothing is put out.
    pub fn step(&mut self, outcome: FetchOutcome) -> (output: Output)
        ensures
            final(self).entries_spec() == old(self).entries_spec(),
            final(self).cursor_spec() == next_cursor(
                old(self).cursor_spec(),
                old(self).entries_spec().len(),
            ),
            old(self).entries_spec().len() == 0 ==> output.lines@.len() == 0 && output.report
                is None,
            old(self).entries_spec().len() > 0 ==> {
                &&& texts(output.lines@) == shown(
                    old(self).entries_spec()[old(self).cursor_spec() as int].name_spec(),
                    outcome,
                )
                &&& output.report_view() == report_of(outcome)
            },
    {
        proof {
            use_type_invariant(&*self);
        }
        if self.entries.len() == 0 {
            return Output { lines: Vec::new(), report: None };
        }
        let entry = &self.entries[self.cursor];
        let polled = entry.source().try_fetch(outcome);
        let lines = match &polled.batch {
            Some(events) => render_batch(entry.name(), events),
            None => {
                let none: Vec<String> = Vec::new();
                assert(texts(none@) =~= rendered_batch(entry.name_spec(), Seq::empty()));
                none
            },
        };
        self.cursor = if self.cursor + 1 < self.entries.len() {
            self.cursor + 1
        } else {
            0
        };
        Output { lines, report: polled.report }
    }
}

/// A run of fetches hands on what its parts hand on, one after the other:
/// nothing is lost, doubled or reordered where two runs meet.
pub proof fn forwarding_follows_the_run(first: Seq<FetchOutcome>, second: Seq<FetchOutcome>)
    ensures
        forwarded(first + second) == forwarded(first) + forwarded(second),
    decreases second.len(),
{
    if second.len() == 0 {
        assert(first + second =~= first);
        assert(forwarded(first) + forwarded(second) =~= forwarded(first));
    } else {
        forwarding_follows_the_run(first, second.drop_last());
        assert((first + second).drop_last() =~= first + second.drop_last());
        assert((first + second).last() == second.last());
        assert(forwarded(first + second) =~= forwarded(first) + forwarded(second));
    }
}

/// A fetch that finds nothing pending changes nothing, wherever in a run it
/// falls: the events handed on are the same with and without it, and so are
/// the lines.
pub proof fn gap_changes_nothing(name: Seq<char>, outcomes: Seq<FetchOutcome>, at: int)
    requires
        0 <= at <= outcomes.len(),
    ensures
        forwarded(outcomes.insert(at, FetchOutcome::WouldBlock)) == forwarded(outcomes),
        lines_over(name, outcomes.insert(at, FetchOutcome::WouldBlock)) == lines_over(
            name,
            outcomes,
        ),
    decreases outcomes.len() - at,
{
    let with_gap = outcomes.insert(at, FetchOutcome::WouldBlock);
    if at == outcomes.len() {
        assert(with_gap.drop_last() =~= outcomes);
        assert(with_gap.last() == FetchOutcome::WouldBlock);
        assert(forwarded(with_gap) =~= forwarded(outcomes));
        assert(lines_over(name, with_gap) =~= lines_over(name, outcomes));
    } else {
        gap_changes_nothing(name, outcomes.drop_last(), at);
        assert(with_gap.drop_last() =~= outcomes.drop_last().insert(
            at,
            FetchOutcome::WouldBlock,
        ));
        assert(with_gap.last() == outcomes.last());
    }
}

/// The lines of a run are the lines of the events it hands on, taken in
/// order as one batch: each event that is not suppressed is shown exactly
/// once, in the order in which the device reported it, however the events
/// were spread over the fetches.
pub proof fn run_shows_each_event_once_in_order(name: Seq<char>, outcomes: Seq<FetchOutcome>)
    ensures
        lines_over(name, outcomes) == rendered_batch(name, forwarded(outcomes)),
    decreases outcomes.len(),
{
    if outcomes.len() > 0 {
        run_shows_each_event_once_in_order(name, outcomes.drop_last());
        batch_boundaries_do_not_matter(
            name,
            forwarded(outcomes.drop_last()),
            delivered(outcomes.last()),
        );
    }
}

/// The devices are polled in list order, round and round: after any number
/// of polls the device that is due is the one whose place is that number
/// modulo the length of the list.
pub proof fn devices_take_turns(len: nat, polls: nat)
    requires
        len > 0,
    ensures
        due_after(len, polls) == polls % len,
    decreases polls,
{
    if polls == 0 {
        lemma_small_mod(0, len);
    } else {
        let before = (polls - 1) as nat;
        devices_take_turns(len, before);
        let place = before % len;
        let rounds = before / len;
        lemma_fundamental_div_mod(before as int, len as int);
        lemma_mod_bound(before as int, len as int);
        if place + 1 < len {
            assert(polls == rounds * len + (place + 1)) by (nonlinear_arith)
                requires
                    before == len * rounds + place,
                    polls == before + 1,
            ;
            lemma_fundamental_div_mod_converse(
                polls as int,
                len as int,
                rounds as int,
                (place + 1) as int,
            );
        } else {
            assert(polls == (rounds + 1) * len + 0) by (nonlinear_arith)
                requires
                    before == len * rounds + place,
                    polls == before + 1,
                    place + 1 == len,
            ;
            lemma_fundamental_div_mod_converse(
                polls as int,
                len as int,
                (rounds + 1) as int,
                0,
            );
        }
    }
}

} // verus!
