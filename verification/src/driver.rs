//! The polling loop as a state machine.
//!
//! The state is the action that the caller has to perform next. The caller
//! performs it, reports how it ended, and is told what to print and what to
//! do next. There is no final state: the loop goes on for as long as the
//! caller keeps calling [`advance`], and no timer is needed to step through
//! it.

use crate::quote::{FetchError, Price};
use crate::sink::WriteError;
use crate::source::SourceId;
use vstd::prelude::*;
use vstd::string::*;

verus! {

/// The pause between two poll cycles, in seconds.
pub const POLL_INTERVAL_SECS: u64 = 10;

/// The action that the caller of the state machine performs next.
#[derive(Clone, Copy, Debug, PartialEq, Eq, Structural)]
pub enum Pending {
    /// Query the endpoint of the source.
    Fetch(SourceId),
    /// Append the price that was fetched to the log of the source.
    Save(SourceId, Price),
    /// Pause for the given number of seconds.
    Sleep(u64),
}

/// How an action ended.
#[derive(Debug, PartialEq, Eq)]
pub enum Event {
    /// The fetch gave a price, or failed.
    Fetched(Result<Price, FetchError>),
    /// The write was done, or failed.
    Saved(Result<(), WriteError>),
    /// The pause is over.
    Woke,
}

/// What follows an event: a diagnostic for the operator, if the action
/// failed, and the next action.
#[derive(Debug, PartialEq, Eq)]
pub struct Turn {
    pub report: Option<String>,
    pub next: Pending,
}

/// The action that follows the handling of `source`: the fetch of the next
/// source of the cycle, or the pause after the last.
pub open spec fn following(source: SourceId) -> Pending {
    match source.followed_by() {
        Some(next) => Pending::Fetch(next),
        None => Pending::Sleep(POLL_INTERVAL_SECS),
    }
}

/// The action that follows `event`. An event that does not answer the
/// pending action changes nothing.
pub open spec fn next_pending(pending: Pending, event: Event) -> Pending {
    match (pending, event) {
        (Pending::Fetch(source), Event::Fetched(Ok(price))) => Pending::Save(source, price),
        (Pending::Fetch(source), Event::Fetched(Err(_))) => following(source),
        (Pending::Save(source, _), Event::Saved(_)) => following(source),
        (Pending::Sleep(_), Event::Woke) => initial(),
        _ => pending,
    }
}

/// The diagnostic that `event` calls for: one for a failed fetch, one for a
/// failed write, none otherwise.
pub open spec fn report_text(pending: Pending, event: Event) -> Option<Seq<char>> {
    match (pending, event) {
        (Pending::Fetch(_), Event::Fetched(Err(error))) => Some(
            "Error fetching price: "@ + error.text(),
        ),
        (Pending::Save(_, _), Event::Saved(Err(error))) => Some(
            "Error saving price: "@ + error.message@,
        ),
        _ => None,
    }
}

/// The action that a run starts with: the fetch of the first source.
pub open spec fn initial() -> Pending {
    Pending::Fetch(SourceId::first_polled())
}

/// The action that a run starts with.
pub fn start() -> (pending: Pending)
    ensures
        pending == initial(),
{
    Pending::Fetch(SourceId::first())
}

/// The action that follows the handling of `source`.
fn after(source: SourceId) -> (pending: Pending)
    ensures
        pending == following(source),
{
    match source.next() {
        Some(next) => Pending::Fetch(next),
        None => Pending::Sleep(POLL_INTERVAL_SECS),
    }
}

/// A diagnostic: what failed, and the message of the error.
fn diagnostic(prefix: &str, message: &str) -> (text: String)
    ensures
        text@ == prefix@ + message@,
{
    let mut text = prefix.to_owned();
    text.append(message);
    text
}

/// One step of the polling loop: given the pending action and how it ended,
/// the diagnostic to print and the action to perform next.
pub fn advance(pending: Pending, event: Event) -> (turn: Turn)
    ensures
        turn.next == next_pending(pending, event),
        match report_text(pending, event) {
            Some(text) => turn.report matches Some(report) && report@ == text,
            None => turn.report is None,
        },
{
    match pending {
        Pending::Fetch(source) => match event {
            Event::Fetched(Ok(price)) => Turn { report: None, next: Pending::Save(source, price) },
            Event::Fetched(Err(error)) => Turn {
                report: Some(diagnostic("Error fetching price: ", error.message())),
                next: after(source),
            },
            _ => Turn { report: None, next: pending },
        },
        Pending::Save(source, _) => match event {
            Event::Saved(Ok(_)) => Turn { report: None, next: after(source) },
            Event::Saved(Err(error)) => Turn {
                report: Some(diagnostic("Error saving price: ", error.message.as_str())),
                next: after(source),
            },
            _ => Turn { report: None, next: pending },
        },
        Pending::Sleep(_) => match event {
            Event::Woke => Turn { report: None, next: Pending::Fetch(SourceId::first()) },
            _ => Turn { report: None, next: pending },
        },
    }
}

/// The pending action after `events` were handled one after the other.
pub open spec fn run(pending: Pending, events: Seq<Event>) -> Pending
    decreases events.len(),
{
    if events.len() == 0 {
        pending
    } else {
        run(next_pending(pending, events[0]), events.skip(1))
    }
}

/// The actions that were issued in answer to `events`, in order.
pub open spec fn issued(pending: Pending, events: Seq<Event>) -> Seq<Pending>
    decreases events.len(),
{
    if events.len() == 0 {
        Seq::empty()
    } else {
        let next = next_pending(pending, events[0]);
        seq![next] + issued(next, events.skip(1))
    }
}

/// The diagnostics that were called for while `events` were handled, in
/// order.
pub open spec fn reported(pending: Pending, events: Seq<Event>) -> Seq<Seq<char>>
    decreases events.len(),
{
    if events.len() == 0 {
        Seq::empty()
    } else {
        let rest = reported(next_pending(pending, events[0]), events.skip(1));
        match report_text(pending, events[0]) {
            Some(text) => seq![text] + rest,
            None => rest,
        }
    }
}

/// The events that the handling of one source brings: the end of the fetch
/// and, where it gave a price, the end of the write.
pub open spec fn source_events(
    fetched: Result<Price, FetchError>,
    saved: Result<(), WriteError>,
) -> Seq<Event> {
    match fetched {
        Ok(_) => seq![Event::Fetched(fetched), Event::Saved(saved)],
        Err(_) => seq![Event::Fetched(fetched)],
    }
}

/// The actions that the handling of one source calls for after its fetch: a
/// write of the price where one was fetched, and then whatever follows the
/// source.
pub open spec fn source_actions(source: SourceId, fetched: Result<Price, FetchError>) -> Seq<
    Pending,
> {
    match fetched {
        Ok(price) => seq![Pending::Save(source, price), following(source)],
        Err(_) => seq![following(source)],
    }
}

/// The diagnostics that the handling of one source calls for: at most one.
pub open spec fn source_reports(
    fetched: Result<Price, FetchError>,
    saved: Result<(), WriteError>,
) -> Seq<Seq<char>> {
    match (fetched, saved) {
        (Err(error), _) => seq!["Error fetching price: "@ + error.text()],
        (Ok(_), Err(error)) => seq!["Error saving price: "@ + error.message@],
        (Ok(_), Ok(_)) => Seq::empty(),
    }
}

/// How the fetches and the writes of one poll cycle end, source by source.
/// What `saved` holds for a source whose fetch failed plays no part: there is
/// no write then.
pub struct Outcomes {
    pub fetched: spec_fn(SourceId) -> Result<Price, FetchError>,
    pub saved: spec_fn(SourceId) -> Result<(), WriteError>,
}

impl Outcomes {
    /// The events that the handling of `source` brings.
    pub open spec fn events_of(self, source: SourceId) -> Seq<Event> {
        source_events((self.fetched)(source), (self.saved)(source))
    }

    /// The actions that the handling of `source` calls for after its fetch.
    pub open spec fn actions_of(self, source: SourceId) -> Seq<Pending> {
        source_actions(source, (self.fetched)(source))
    }

    /// The diagnostics that the handling of `source` calls for.
    pub open spec fn reports_of(self, source: SourceId) -> Seq<Seq<char>> {
        source_reports((self.fetched)(source), (self.saved)(source))
    }

    /// The events of the whole cycle, up to the pause.
    pub open spec fn events(self) -> Seq<Event> {
        self.events_of(SourceId::CryptoA) + self.events_of(SourceId::CryptoB) + self.events_of(
            SourceId::EquityIndex,
        )
    }

    /// The actions that the whole cycle calls for after its first fetch.
    pub open spec fn actions(self) -> Seq<Pending> {
        self.actions_of(SourceId::CryptoA) + self.actions_of(SourceId::CryptoB) + self.actions_of(
            SourceId::EquityIndex,
        )
    }

    /// The diagnostics that the whole cycle calls for.
    pub open spec fn reports(self) -> Seq<Seq<char>> {
        self.reports_of(SourceId::CryptoA) + self.reports_of(SourceId::CryptoB) + self.reports_of(
            SourceId::EquityIndex,
        )
    }
}

/// Tells the fetches from the other actions.
pub open spec fn is_fetch() -> spec_fn(Pending) -> bool {
    |action: Pending| action is Fetch
}

/// Tells the writes to the log of `source` from the other actions.
pub open spec fn is_write_for(source: SourceId) -> spec_fn(Pending) -> bool {
    |action: Pending| action matches Pending::Save(target, _) && target == source
}

/// The fetches among `actions`, in order.
pub open spec fn fetches(actions: Seq<Pending>) -> Seq<Pending> {
    actions.filter(is_fetch())
}

/// The writes to the log of `source` among `actions`, in order.
pub open spec fn writes_for(actions: Seq<Pending>, source: SourceId) -> Seq<Pending> {
    actions.filter(is_write_for(source))
}

/// Handling a run of events is handling its first part and then, from where
/// that ended, the rest.
pub proof fn lemma_run_splits(pending: Pending, first: Seq<Event>, rest: Seq<Event>)
    ensures
        run(pending, first + rest) == run(run(pending, first), rest),
        issued(pending, first + rest) == issued(pending, first) + issued(
            run(pending, first),
            rest,
        ),
        reported(pending, first + rest) == reported(pending, first) + reported(
            run(pending, first),
            rest,
        ),
    decreases first.len(),
{
    if first.len() == 0 {
        assert(first + rest =~= rest);
    } else {
        let next = next_pending(pending, first[0]);
        assert((first + rest).skip(1) =~= first.skip(1) + rest);
        lemma_run_splits(next, first.skip(1), rest);
    }
}

/// Whatever the fetch and the write of a source come to, the loop goes on to
/// what follows the source. A write is called for exactly where the fetch
/// gave a price, once and with that price; a diagnostic exactly where the
/// fetch or the write failed.
pub proof fn lemma_source_is_settled(
    source: SourceId,
    fetched: Result<Price, FetchError>,
    saved: Result<(), WriteError>,
)
    ensures
        ({
            let events = source_events(fetched, saved);
            &&& run(Pending::Fetch(source), events) == following(source)
            &&& issued(Pending::Fetch(source), events) == source_actions(source, fetched)
            &&& reported(Pending::Fetch(source), events) == source_reports(fetched, saved)
        }),
{
    let events = source_events(fetched, saved);
    let fetch = Pending::Fetch(source);
    reveal_with_fuel(run, 3);
    reveal_with_fuel(issued, 3);
    reveal_with_fuel(reported, 3);
    match fetched {
        Ok(_) => {
            assert(events.skip(1) =~= seq![Event::Saved(saved)]);
            assert(events.skip(1).skip(1) =~= Seq::<Event>::empty());
        },
        Err(_) => {
            assert(events.skip(1) =~= Seq::<Event>::empty());
        },
    }
    assert(issued(fetch, events) =~= source_actions(source, fetched));
    assert(reported(fetch, events) =~= source_reports(fetched, saved));
}

/// A poll cycle handles the three sources one after the other, each as if it
/// were alone: what is done and printed for a source depends on how its own
/// fetch and write end, and on nothing that happened to another source. The
/// cycle ends in the pause of the fixed length, and the pause in the first
/// fetch of the next cycle.
pub proof fn lemma_cycle_handles_every_source(outcomes: Outcomes)
    ensures
        issued(initial(), outcomes.events()) == outcomes.actions(),
        reported(initial(), outcomes.events()) == outcomes.reports(),
        run(initial(), outcomes.events()) == Pending::Sleep(POLL_INTERVAL_SECS),
        run(initial(), outcomes.events() + seq![Event::Woke]) == initial(),
{
    let a = outcomes.events_of(SourceId::CryptoA);
    let b = outcomes.events_of(SourceId::CryptoB);
    let e = outcomes.events_of(SourceId::EquityIndex);
    lemma_source_is_settled(
        SourceId::CryptoA,
        (outcomes.fetched)(SourceId::CryptoA),
        (outcomes.saved)(SourceId::CryptoA),
    );
    lemma_source_is_settled(
        SourceId::CryptoB,
        (outcomes.fetched)(SourceId::CryptoB),
        (outcomes.saved)(SourceId::CryptoB),
    );
    lemma_source_is_settled(
        SourceId::EquityIndex,
        (outcomes.fetched)(SourceId::EquityIndex),
        (outcomes.saved)(SourceId::EquityIndex),
    );
    lemma_run_splits(initial(), a, b);
    lemma_run_splits(initial(), a + b, e);
    lemma_run_splits(initial(), a + b + e, seq![Event::Woke]);
    reveal_with_fuel(run, 2);
    assert(seq![Event::Woke].skip(1) =~= Seq::<Event>::empty());
}

/// In every poll cycle each source is fetched once, in the fixed order,
/// whatever the fetches and writes come to: a failure at one source does not
/// keep the loop from the others.
pub proof fn lemma_cycle_fetches_every_source(outcomes: Outcomes)
    ensures
        fetches(seq![initial()] + issued(initial(), outcomes.events())) == seq![
            Pending::Fetch(SourceId::CryptoA),
            Pending::Fetch(SourceId::CryptoB),
            Pending::Fetch(SourceId::EquityIndex),
        ],
{
    let first = seq![initial()];
    let later = outcomes.actions();
    assert(issued(initial(), outcomes.events()) == later) by {
        lemma_cycle_handles_every_source(outcomes);
    }
    assert(fetches(first) == first) by {
        reveal_with_fuel(Seq::filter, 2);
        assert(first.drop_last() =~= Seq::<Pending>::empty());
        assert(fetches(first) =~= first);
    }
    assert(fetches(later) == seq![
        Pending::Fetch(SourceId::CryptoB),
        Pending::Fetch(SourceId::EquityIndex),
    ]) by {
        lemma_later_fetches(outcomes);
    }
    assert(fetches(first + later) == fetches(first) + fetches(later)) by {
        Seq::filter_distributes_over_add(first, later, is_fetch());
    }
    assert(fetches(first) + fetches(later) =~= seq![
        Pending::Fetch(SourceId::CryptoA),
        Pending::Fetch(SourceId::CryptoB),
        Pending::Fetch(SourceId::EquityIndex),
    ]);
}

/// After its first fetch a cycle calls for the fetches of the second and of
/// the third source, in that order, and for no other.
proof fn lemma_later_fetches(outcomes: Outcomes)
    ensures
        fetches(outcomes.actions()) == seq![
            Pending::Fetch(SourceId::CryptoB),
            Pending::Fetch(SourceId::EquityIndex),
        ],
{
    let a = outcomes.actions_of(SourceId::CryptoA);
    let b = outcomes.actions_of(SourceId::CryptoB);
    let e = outcomes.actions_of(SourceId::EquityIndex);
    lemma_fetch_after(SourceId::CryptoA, (outcomes.fetched)(SourceId::CryptoA));
    lemma_fetch_after(SourceId::CryptoB, (outcomes.fetched)(SourceId::CryptoB));
    lemma_fetch_after(SourceId::EquityIndex, (outcomes.fetched)(SourceId::EquityIndex));
    Seq::filter_distributes_over_add(a + b, e, is_fetch());
    Seq::filter_distributes_over_add(a, b, is_fetch());
    assert(fetches(a) + fetches(b) + fetches(e) =~= seq![
        Pending::Fetch(SourceId::CryptoB),
        Pending::Fetch(SourceId::EquityIndex),
    ]);
}

/// In every poll cycle a price that was fetched is written once, to the log
/// of its own source, and nothing is written for a source whose fetch failed.
/// How the fetches and writes of the other sources end makes no difference.
pub proof fn lemma_cycle_writes_what_was_fetched(outcomes: Outcomes, source: SourceId)
    ensures
        writes_for(issued(initial(), outcomes.events()), source) == match (outcomes.fetched)(
            source,
        ) {
            Ok(price) => seq![Pending::Save(source, price)],
            Err(_) => Seq::<Pending>::empty(),
        },
{
    let a = outcomes.actions_of(SourceId::CryptoA);
    let b = outcomes.actions_of(SourceId::CryptoB);
    let e = outcomes.actions_of(SourceId::EquityIndex);
    assert(issued(initial(), outcomes.events()) == a + b + e) by {
        lemma_cycle_handles_every_source(outcomes);
    }
    lemma_writes_after(SourceId::CryptoA, (outcomes.fetched)(SourceId::CryptoA), source);
    lemma_writes_after(SourceId::CryptoB, (outcomes.fetched)(SourceId::CryptoB), source);
    lemma_writes_after(SourceId::EquityIndex, (outcomes.fetched)(SourceId::EquityIndex), source);
    Seq::filter_distributes_over_add(a + b, e, is_write_for(source));
    Seq::filter_distributes_over_add(a, b, is_write_for(source));
    assert(writes_for(a, source) + writes_for(b, source) + writes_for(e, source) =~= match (
        outcomes.fetched
    )(source) {
        Ok(price) => seq![Pending::Save(source, price)],
        Err(_) => Seq::<Pending>::empty(),
    });
}

/// Among the actions that the handling of a source calls for, the only fetch
/// is that of the source that follows, if one follows.
proof fn lemma_fetch_after(source: SourceId, fetched: Result<Price, FetchError>)
    ensures
        fetches(source_actions(source, fetched)) == match source.followed_by() {
            Some(next) => seq![Pending::Fetch(next)],
            None => Seq::<Pending>::empty(),
        },
{
    let actions = source_actions(source, fetched);
    reveal_with_fuel(Seq::filter, 3);
    match fetched {
        Ok(price) => {
            assert(actions.drop_last() =~= seq![Pending::Save(source, price)]);
            assert(actions.drop_last().drop_last() =~= Seq::<Pending>::empty());
        },
        Err(_) => {
            assert(actions.drop_last() =~= Seq::<Pending>::empty());
        },
    }
    assert(fetches(actions) =~= match source.followed_by() {
        Some(next) => seq![Pending::Fetch(next)],
        None => Seq::<Pending>::empty(),
    });
}

/// Among the actions that the handling of a source calls for, there is one
/// write where the fetch gave a price: of that price, to the log of that
/// source. There is none where the fetch failed, and never one to another
/// log.
proof fn lemma_writes_after(source: SourceId, fetched: Result<Price, FetchError>, log: SourceId)
    ensures
        writes_for(source_actions(source, fetched), log) == match fetched {
            Ok(price) if source == log => seq![Pending::Save(source, price)],
            _ => Seq::<Pending>::empty(),
        },
{
    let actions = source_actions(source, fetched);
    reveal_with_fuel(Seq::filter, 3);
    match fetched {
        Ok(price) => {
            assert(actions.drop_last() =~= seq![Pending::Save(source, price)]);
            assert(actions.drop_last().drop_last() =~= Seq::<Pending>::empty());
        },
        Err(_) => {
            assert(actions.drop_last() =~= Seq::<Pending>::empty());
        },
    }
    assert(writes_for(actions, log) =~= match fetched {
        Ok(price) if source == log => seq![Pending::Save(source, price)],
        _ => Seq::<Pending>::empty(),
    });
}

} // verus!
