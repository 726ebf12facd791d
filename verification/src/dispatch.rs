//! The polling loop's decisions.
//!
//! The loop itself runs outside: it performs what a [`Directive`] says and reports back what
//! came of it. Here is what it decides in between: where the cursor stands, which events of
//! a batch are handed on, and when it is over.

use crate::event::{admits, admitted, is_admitted, Event};
use vstd::prelude::*;

verus! {

/// A kind of event the remote stream carries.
#[derive(Clone, Copy, Debug, PartialEq, Eq, Structural)]
pub enum Category {
    /// A message sent to a chat.
    Message,
    /// The press of a button under a message.
    CallbackQuery,
}

/// The loop's timing, fixed when the loop is made.
#[derive(Clone, Copy, Debug, PartialEq, Eq, Structural)]
pub struct Pace {
    /// How long one fetch may wait for events, in seconds.
    pub max_wait_secs: u32,
    /// How long the loop rests between two fetches, in milliseconds.
    pub interval_millis: u64,
}

/// What the loop is to do next.
#[derive(Clone, Copy, Debug, PartialEq, Eq, Structural)]
pub enum Directive {
    /// Fetch the events of `category` from position `after` on, waiting for them no longer
    /// than `max_wait_secs`.
    Fetch { after: u64, category: Category, max_wait_secs: u32 },
    /// Let `millis` milliseconds pass.
    Wait { millis: u64 },
    /// Return.
    Stop,
}

/// What came of the last directive.
#[derive(Debug, PartialEq, Eq)]
pub enum Completion {
    /// The fetch brought these events; there may be none.
    Fetched(Vec<Event>),
    /// The fetch failed.
    FetchFailed,
    /// The poll interval has passed.
    Waited,
}

/// One step's result: the events to start a task for, and what to do next.
#[derive(Debug, PartialEq, Eq)]
pub struct Step {
    /// The admitted events, each to be handled by a task of its own.
    pub spawn: Vec<Event>,
    /// What the loop does after starting those tasks.
    pub next: Directive,
}

/// The loop's state.
#[derive(Clone, Copy, Debug, PartialEq, Eq)]
pub struct DispatchLoop {
    owner: u64,
    pace: Pace,
    cursor: u64,
    stopped: bool,
}

/// The loop's state as the contracts see it.
pub struct DispatchLoopView {
    pub owner: u64,
    pub pace: Pace,
    pub cursor: u64,
    pub stopped: bool,
}

impl View for DispatchLoop {
    type V = DispatchLoopView;

    closed spec fn view(&self) -> DispatchLoopView {
        DispatchLoopView { owner: self.owner, pace: self.pace, cursor: self.cursor, stopped: self.stopped }
    }
}

/// The cursor after a batch: one past the highest sequence number seen, and never less
/// than it was.
pub open spec fn cursor_after(cursor: int, batch: Seq<Event>) -> int
    decreases batch.len(),
{
    if batch.len() == 0 {
        cursor
    } else {
        let before = cursor_after(cursor, batch.drop_last());
        if batch.last().sequence + 1 > before {
            batch.last().sequence + 1
        } else {
            before
        }
    }
}

/// The fetch a loop in `state` asks for: message events only, from its cursor on, with the
/// wait bounded as its pace says.
pub open spec fn fetch_spec(state: DispatchLoopView) -> Directive {
    Directive::Fetch {
        after: state.cursor,
        category: Category::Message,
        max_wait_secs: state.pace.max_wait_secs,
    }
}

/// The rest a loop in `state` takes between two fetches.
pub open spec fn wait_spec(state: DispatchLoopView) -> Directive {
    Directive::Wait { millis: state.pace.interval_millis }
}

/// What a step does, as a function of the loop's state and what is reported to it.
pub open spec fn step_spec(state: DispatchLoopView, cancelled: bool, completion: Completion) -> (
    DispatchLoopView,
    Seq<Event>,
    Directive,
) {
    if state.stopped || cancelled {
        (DispatchLoopView { stopped: true, ..state }, Seq::empty(), Directive::Stop)
    } else {
        match completion {
            Completion::Fetched(batch) => (
                DispatchLoopView { cursor: cursor_after(state.cursor as int, batch@) as u64, ..state },
                admitted(batch@, state.owner),
                wait_spec(state),
            ),
            Completion::FetchFailed => (state, Seq::empty(), wait_spec(state)),
            Completion::Waited => (state, Seq::empty(), fetch_spec(state)),
        }
    }
}

/// The cursor never moves back, ends up past every event of the batch, and moves no further
/// than that.
pub proof fn law_cursor_after(cursor: int, batch: Seq<Event>)
    ensures
        cursor_after(cursor, batch) >= cursor,
        forall|i: int| 0 <= i < batch.len() ==> batch[i].sequence < cursor_after(cursor, batch),
        cursor_after(cursor, batch) == cursor || exists|i: int|
            0 <= i < batch.len() && cursor_after(cursor, batch) == #[trigger] batch[i].sequence + 1,
        0 <= cursor <= u64::MAX ==> cursor_after(cursor, batch) <= u64::MAX,
    decreases batch.len(),
{
    if batch.len() > 0 {
        let rest = batch.drop_last();
        law_cursor_after(cursor, rest);
        assert forall|i: int| 0 <= i < batch.len() implies batch[i].sequence < cursor_after(
            cursor,
            batch,
        ) by {
            if i < rest.len() {
                assert(batch[i] == rest[i]);
            }
        }
        if cursor_after(cursor, batch) != cursor {
            if cursor_after(cursor, batch) == cursor_after(cursor, rest) {
                let i = choose|i: int|
                    0 <= i < rest.len() && cursor_after(cursor, rest) == #[trigger] rest[i].sequence + 1;
                assert(batch[i] == rest[i]);
            } else {
                assert(cursor_after(cursor, batch) == batch[batch.len() - 1].sequence + 1);
            }
        }
    }
}

/// Fetching the same batch once more moves the cursor no further.
pub proof fn law_cursor_settles(cursor: int, batch: Seq<Event>)
    ensures
        cursor_after(cursor_after(cursor, batch), batch) == cursor_after(cursor, batch),
{
    let once = cursor_after(cursor, batch);
    law_cursor_after(cursor, batch);
    law_cursor_after(once, batch);
    let twice = cursor_after(once, batch);
    if twice != once {
        let i = choose|i: int| 0 <= i < batch.len() && twice == #[trigger] batch[i].sequence + 1;
        assert(batch[i].sequence < once);
    }
}

/// Once the loop has stopped it stays stopped: whatever is reported to it, it asks for no
/// fetch, starts no task and leaves the cursor alone. A cancellation stops it whatever else is
/// reported with it.
pub proof fn law_stop_is_final(state: DispatchLoopView, cancelled: bool, completion: Completion)
    requires
        state.stopped || cancelled,
    ensures
        step_spec(state, cancelled, completion).0.stopped,
        step_spec(state, cancelled, completion).0.cursor == state.cursor,
        step_spec(state, cancelled, completion).1 == Seq::<Event>::empty(),
        step_spec(state, cancelled, completion).2 == Directive::Stop,
{
}

/// A loop that runs on fetches and rests in turn: after a fetch, whatever came of it, it rests
/// for the fixed interval; after the rest it asks for the message events from its cursor on.
/// A failed fetch leaves the cursor where it was, so the next fetch asks for the same events.
pub proof fn law_fetch_and_rest_alternate(state: DispatchLoopView, completion: Completion)
    requires
        !state.stopped,
    ensures
        completion is Waited ==> step_spec(state, false, completion).2 == (Directive::Fetch {
            after: state.cursor,
            category: Category::Message,
            max_wait_secs: state.pace.max_wait_secs,
        }),
        !(completion is Waited) ==> step_spec(state, false, completion).2 == (Directive::Wait {
            millis: state.pace.interval_millis,
        }),
        !(completion is Fetched) ==> step_spec(state, false, completion).0 == state,
        !step_spec(state, false, completion).0.stopped,
{
}

/// Only admitted events are handed on, and every admitted event of a fetched batch is.
pub proof fn law_spawns_admitted(state: DispatchLoopView, cancelled: bool, completion: Completion, event: Event)
    ensures
        step_spec(state, cancelled, completion).1.contains(event) ==> event.sender == Some(state.owner),
        !state.stopped && !cancelled ==> (match completion {
            Completion::Fetched(batch) => batch@.contains(event) && event.sender == Some(state.owner)
                ==> step_spec(state, cancelled, completion).1.contains(event),
            _ => true,
        }),
{
    let spawned = step_spec(state, cancelled, completion).1;
    if !state.stopped && !cancelled {
        match completion {
            Completion::Fetched(batch) => {
                batch@.filter_lemma(admits(state.owner));
                if spawned.contains(event) {
                    let i = choose|i: int| 0 <= i < spawned.len() && spawned[i] == event;
                    assert(admits(state.owner)(spawned[i]));
                }
                if batch@.contains(event) && event.sender == Some(state.owner) {
                    let i = choose|i: int| 0 <= i < batch@.len() && batch@[i] == event;
                    assert(admits(state.owner)(batch@[i]));
                }
            },
            _ => {},
        }
    }
}

impl DispatchLoop {
    /// A loop for `owner` that starts fetching at `initial_cursor` and keeps to `pace`.
    pub fn new(owner: u64, initial_cursor: u64, pace: Pace) -> (state: Self)
        ensures
            state@ == (DispatchLoopView { owner, pace, cursor: initial_cursor, stopped: false }),
    {
        DispatchLoop { owner, pace, cursor: initial_cursor, stopped: false }
    }

    /// The timing the loop keeps to.
    pub fn pace(&self) -> (pace: Pace)
        ensures
            pace == self@.pace,
    {
        self.pace
    }

    /// The user whose events are admitted.
    pub fn owner(&self) -> (owner: u64)
        ensures
            owner == self@.owner,
    {
        self.owner
    }

    /// The position from which the next fetch asks.
    pub fn cursor(&self) -> (cursor: u64)
        ensures
            cursor == self@.cursor,
    {
        self.cursor
    }

    /// Whether the loop has been cancelled.
    pub fn is_stopped(&self) -> (stopped: bool)
        ensures
            stopped == self@.stopped,
    {
        self.stopped
    }

    /// The first directive: a fetch from the cursor, unless the loop has stopped.
    pub fn start(&self) -> (first: Directive)
        ensures
            first == if self@.stopped {
                Directive::Stop
            } else {
                fetch_spec(self@)
            },
    {
        if self.stopped {
            Directive::Stop
        } else {
            self.fetch()
        }
    }

    fn fetch(&self) -> (next: Directive)
        ensures
            next == fetch_spec(self@),
    {
        Directive::Fetch {
            after: self.cursor,
            category: Category::Message,
            max_wait_secs: self.pace.max_wait_secs,
        }
    }

    fn wait(&self) -> (next: Directive)
        ensures
            next == wait_spec(self@),
    {
        Directive::Wait { millis: self.pace.interval_millis }
    }

    /// The cancellation signal fired while nothing else was ready: the loop stops.
    pub fn cancel(&mut self) -> (next: Directive)
        ensures
            final(self)@ == (DispatchLoopView { stopped: true, ..old(self)@ }),
            next == Directive::Stop,
    {
        self.stopped = true;
        Directive::Stop
    }

    /// Takes in what came of the last directive and says what to do next.
    ///
    /// `cancelled` tells whether the cancellation signal has fired; it wins over anything
    /// reported with it. A fetched batch moves the cursor past its events and hands on the
    /// admitted ones; a failed fetch changes nothing and is tried again after the interval.
    pub fn step(&mut self, cancelled: bool, completion: Completion) -> (step: Step)
        ensures
            final(self)@ == step_spec(old(self)@, cancelled, completion).0,
            step.spawn@ == step_spec(old(self)@, cancelled, completion).1,
            step.next == step_spec(old(self)@, cancelled, completion).2,
            final(self)@.owner == old(self)@.owner,
            final(self)@.pace == old(self)@.pace,
            final(self)@.cursor >= old(self)@.cursor,
    {
        if self.stopped || cancelled {
            self.stopped = true;
            return Step { spawn: Vec::new(), next: Directive::Stop };
        }
        match completion {
            Completion::Fetched(batch) => {
                let ghost events = batch@;
                let ghost start = self.cursor as int;
                let owner = self.owner;
                let mut cursor = self.cursor;
                let mut spawn: Vec<Event> = Vec::new();
                proof {
                    reveal(Seq::filter);
                    assert(events.take(0) =~= Seq::<Event>::empty());
                }
                for event in it: batch.into_iter()
                    invariant
                        it.seq() == events,
                        start <= cursor,
                        cursor == cursor_after(start, events.take(it.index() as int)),
                        spawn@ == admitted(events.take(it.index() as int), owner),
                {
                    proof {
                        reveal(Seq::filter);
                        let seen = events.take(it.index() + 1);
                        assert(seen.drop_last() =~= events.take(it.index() as int));
                        assert(seen.last() == event);
                    }
                    if event.sequence as u64 >= cursor {
                        cursor = event.sequence as u64 + 1;
                    }
                    if is_admitted(&event, owner) {
                        spawn.push(event);
                    }
                }
                proof {
                    assert(events.take(events.len() as int) =~= events);
                }
                self.cursor = cursor;
                Step { spawn, next: self.wait() }
            },
            Completion::FetchFailed => Step { spawn: Vec::new(), next: self.wait() },
            Completion::Waited => Step { spawn: Vec::new(), next: self.fetch() },
        }
    }
}

} // verus!
