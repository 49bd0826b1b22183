//! The clipboard watcher: a polling protocol that surfaces every clipboard
//! change exactly once.
//!
//! The watcher itself never touches a clipboard. It is a state machine: the
//! caller performs the [`Action`] it was handed (sleep, read the change
//! counter, read the text, deliver a capture) and hands back what came of
//! it as the next [`Event`]. All decisions are taken by [`Watcher::step`],
//! whose contract is the pure function [`transition`].

use vstd::prelude::*;

verus! {

/// How long to stay idle, in milliseconds, after a poll that found the
/// change counter where it was.
pub const POLL_INTERVAL_MS: u64 = 500;

/// One captured text together with the change counter it was captured at.
#[derive(Debug)]
pub struct ClipboardSnapshot {
    counter: isize,
    text: String,
}

/// The mathematical content of a [`ClipboardSnapshot`].
pub struct SnapshotView {
    pub counter: int,
    pub text: Seq<char>,
}

impl View for ClipboardSnapshot {
    type V = SnapshotView;

    closed spec fn view(&self) -> SnapshotView {
        SnapshotView { counter: self.counter as int, text: self.text@ }
    }
}

impl ClipboardSnapshot {
    /// The change counter observed when the text was captured.
    pub fn counter(&self) -> (counter: isize)
        ensures
            counter == self@.counter,
    {
        self.counter
    }

    /// The captured text, exactly as the provider returned it.
    pub fn text(&self) -> (text: &String)
        ensures
            text@ == self@.text,
    {
        &self.text
    }

    /// Gives up the snapshot for the text it carries.
    pub fn into_text(self) -> (text: String)
        ensures
            text@ == self@.text,
    {
        self.text
    }
}

/// What the caller tells the watcher.
#[derive(Debug)]
pub enum Event {
    /// The provider's change counter was read and had this value.
    Counter(isize),
    /// The provider's text was read: the captured text, or `None` when the
    /// clipboard holds nothing that can be read as text.
    Text(Option<String>),
}

/// The mathematical content of an [`Event`].
pub enum EventView {
    Counter(int),
    Text(Option<Seq<char>>),
}

impl View for Event {
    type V = EventView;

    open spec fn view(&self) -> EventView {
        match *self {
            Event::Counter(counter) => EventView::Counter(counter as int),
            Event::Text(None) => EventView::Text(None),
            Event::Text(Some(text)) => EventView::Text(Some(text@)),
        }
    }
}

/// What the watcher asks its caller to do next.
#[derive(Debug)]
pub enum Action {
    /// Nothing changed: stay idle for `millis` milliseconds, then read the
    /// change counter.
    Sleep { millis: u64 },
    /// The counter moved: read the clipboard text.
    ReadText,
    /// Deliver this capture to the sink, then read the change counter.
    Forward(ClipboardSnapshot),
    /// Nothing to deliver: read the change counter again without waiting.
    Poll,
}

/// The mathematical content of an [`Action`].
pub enum ActionView {
    Sleep { millis: nat },
    ReadText,
    Forward(SnapshotView),
    Poll,
}

impl View for Action {
    type V = ActionView;

    open spec fn view(&self) -> ActionView {
        match *self {
            Action::Sleep { millis } => ActionView::Sleep { millis: millis as nat },
            Action::ReadText => ActionView::ReadText,
            Action::Forward(snapshot) => ActionView::Forward(snapshot@),
            Action::Poll => ActionView::Poll,
        }
    }
}

/// The watcher's memory: the counter of the last clipboard write it has
/// dealt with, and the counter of a write whose text it is waiting for.
#[derive(Debug)]
pub struct Watcher {
    last_seen: isize,
    pending: Option<isize>,
}

/// The mathematical content of a [`Watcher`].
pub struct WatcherView {
    /// Counter of the last write that was processed (or the counter the
    /// watcher started from).
    pub last_seen: int,
    /// Counter of a detected write whose text the watcher is waiting for.
    pub pending: Option<int>,
}

impl View for Watcher {
    type V = WatcherView;

    closed spec fn view(&self) -> WatcherView {
        WatcherView {
            last_seen: self.last_seen as int,
            pending: match self.pending {
                Some(counter) => Some(counter as int),
                None => None,
            },
        }
    }
}

/// The watcher's rules, as a function from state and event to the next state
/// and the action to perform.
///
/// * A counter equal to the remembered one asks for a sleep of
///   [`POLL_INTERVAL_MS`]; the remembered counter stays, and nothing is
///   pending any more.
/// * A counter that differs becomes the pending one and asks for the text.
/// * A text event settles the pending counter: it becomes the remembered
///   one whether or not there was any text, and the text, if any, is
///   forwarded with that counter.
/// * A text event that nothing asked for is dropped.
pub open spec fn transition(state: WatcherView, event: EventView) -> (WatcherView, ActionView) {
    match event {
        EventView::Counter(counter) => {
            if counter == state.last_seen {
                (
                    WatcherView { last_seen: state.last_seen, pending: None },
                    ActionView::Sleep { millis: POLL_INTERVAL_MS as nat },
                )
            } else {
                (
                    WatcherView { last_seen: state.last_seen, pending: Some(counter) },
                    ActionView::ReadText,
                )
            }
        },
        EventView::Text(text) => {
            match state.pending {
                None => (state, ActionView::Poll),
                Some(counter) => (
                    WatcherView { last_seen: counter, pending: None },
                    match text {
                        Some(text) => ActionView::Forward(SnapshotView { counter, text }),
                        None => ActionView::Poll,
                    },
                ),
            }
        },
    }
}

impl Watcher {
    /// A watcher that takes `initial` for the counter of a write it has
    /// already dealt with: only later writes are captured.
    pub fn new(initial: isize) -> (watcher: Self)
        ensures
            watcher@ == (WatcherView { last_seen: initial as int, pending: None }),
    {
        Watcher { last_seen: initial, pending: None }
    }

    /// The counter of the last write that was processed.
    pub fn last_seen(&self) -> (counter: isize)
        ensures
            counter == self@.last_seen,
    {
        self.last_seen
    }

    /// Takes in one event and says what to do next, as [`transition`]
    /// prescribes.
    pub fn step(&mut self, event: Event) -> (action: Action)
        ensures
            final(self)@ == transition(old(self)@, event@).0,
            action@ == transition(old(self)@, event@).1,
    {
        match event {
            Event::Counter(counter) => {
                if counter == self.last_seen {
                    self.pending = None;
                    Action::Sleep { millis: POLL_INTERVAL_MS }
                } else {
                    self.pending = Some(counter);
                    Action::ReadText
                }
            },
            Event::Text(text) => {
                match self.pending {
                    None => Action::Poll,
                    Some(counter) => {
                        self.last_seen = counter;
                        self.pending = None;
                        match text {
                            Some(text) => Action::Forward(ClipboardSnapshot { counter, text }),
                            None => Action::Poll,
                        }
                    },
                }
            },
        }
    }
}

/// What the clipboard text is, given what reading it produced: the first
/// text representation if the read succeeded and offered any, and nothing
/// otherwise. A failed read counts as a clipboard without text.
pub fn captured_text<E>(read: Result<Vec<String>, E>) -> (text: Option<String>)
    ensures
        text is Some <==> (read matches Ok(offered) && offered@.len() > 0),
        text matches Some(first) ==> (read matches Ok(offered) && first@ == offered@[0]@),
{
    match read {
        Ok(offered) => {
            let mut offered = offered;
            if offered.len() > 0 {
                Some(offered.remove(0))
            } else {
                None
            }
        },
        Err(_) => None,
    }
}

/// The captures forwarded, in order, while a watcher that starts in `state`
/// takes in `events` one after the other.
pub open spec fn forwarded(state: WatcherView, events: Seq<EventView>) -> Seq<SnapshotView>
    decreases events.len(),
{
    if events.len() == 0 {
        Seq::empty()
    } else {
        let (next, action) = transition(state, events.first());
        let rest = forwarded(next, events.drop_first());
        match action {
            ActionView::Forward(snapshot) => seq![snapshot] + rest,
            _ => rest,
        }
    }
}

/// The counter that `state` has most recently been told of.
pub open spec fn latest_counter(state: WatcherView) -> int {
    match state.pending {
        Some(counter) => counter,
        None => state.last_seen,
    }
}

/// The counter readings among `events` start at `floor` or above and never
/// go down from one reading to a later one.
pub open spec fn counters_never_decrease(floor: int, events: Seq<EventView>) -> bool {
    &&& forall|i: int|
        0 <= i < events.len() && (#[trigger] events[i]) is Counter ==> floor
            <= events[i]->Counter_0
    &&& forall|i: int, j: int|
        0 <= i < j < events.len() && (#[trigger] events[i]) is Counter && (#[trigger] events[j])
            is Counter ==> events[i]->Counter_0 <= events[j]->Counter_0
}

/// A reading that repeats the remembered counter asks for a sleep of the
/// polling interval and leaves the remembered counter alone.
pub proof fn lemma_unchanged_counter_sleeps(state: WatcherView)
    ensures
        transition(state, EventView::Counter(state.last_seen)) == (
            WatcherView { last_seen: state.last_seen, pending: None },
            ActionView::Sleep { millis: POLL_INTERVAL_MS as nat },
        ),
{
}

/// A write whose text is captured is forwarded once, with its counter and
/// its text untouched, and a further reading of the same counter only asks
/// for a sleep.
pub proof fn lemma_captured_write_is_forwarded_once(
    state: WatcherView,
    counter: int,
    text: Seq<char>,
)
    requires
        counter != state.last_seen,
    ensures
        ({
            let (asked, first) = transition(state, EventView::Counter(counter));
            let (settled, second) = transition(asked, EventView::Text(Some(text)));
            &&& first == ActionView::ReadText
            &&& second == ActionView::Forward(SnapshotView { counter, text })
            &&& settled == (WatcherView { last_seen: counter, pending: None })
            &&& transition(settled, EventView::Counter(counter)).1 is Sleep
            &&& transition(settled, EventView::Counter(counter)).0 == settled
        }),
{
}

/// A write that offers no text forwards nothing, yet it is remembered: the
/// same counter is not taken up again, and the next write is caught and its
/// text forwarded.
pub proof fn lemma_textless_write_is_skipped(
    state: WatcherView,
    counter: int,
    later: int,
    text: Seq<char>,
)
    requires
        counter != state.last_seen,
        later != counter,
    ensures
        ({
            let (asked, first) = transition(state, EventView::Counter(counter));
            let (settled, second) = transition(asked, EventView::Text(None));
            let (asked_again, third) = transition(settled, EventView::Counter(later));
            let (_, fourth) = transition(asked_again, EventView::Text(Some(text)));
            &&& first == ActionView::ReadText
            &&& second == ActionView::Poll
            &&& settled == (WatcherView { last_seen: counter, pending: None })
            &&& transition(settled, EventView::Counter(counter)).1 is Sleep
            &&& third == ActionView::ReadText
            &&& fourth == ActionView::Forward(SnapshotView { counter: later, text })
        }),
{
}

/// The induction behind [`lemma_forwarded_counters_rise`], from any state
/// whose pending counter, if it has one, lies above the remembered one.
proof fn lemma_forwarded_counters_rise_from(state: WatcherView, events: Seq<EventView>)
    requires
        state.pending matches Some(counter) ==> state.last_seen < counter,
        counters_never_decrease(latest_counter(state), events),
    ensures
        forall|i: int|
            0 <= i < forwarded(state, events).len() ==> state.last_seen < (#[trigger] forwarded(
                state,
                events,
            )[i]).counter,
        forall|i: int, j: int|
            0 <= i < j < forwarded(state, events).len() ==> (#[trigger] forwarded(
                state,
                events,
            )[i]).counter < (#[trigger] forwarded(state, events)[j]).counter,
    decreases events.len(),
{
    if events.len() > 0 {
        let (next, action) = transition(state, events.first());
        let rest = events.drop_first();
        let out = forwarded(state, events);
        let tail = forwarded(next, rest);
        assert forall|i: int| 0 <= i < rest.len() implies #[trigger] rest[i] == events[i + 1] by {}
        assert(counters_never_decrease(latest_counter(next), rest));
        lemma_forwarded_counters_rise_from(next, rest);
        if let ActionView::Forward(snapshot) = action {
            assert forall|i: int| 0 < i < out.len() implies #[trigger] out[i] == tail[i - 1] by {}
        }
    }
}

/// As long as the provider's counter never goes down, no write is forwarded
/// twice: the counters of the forwarded captures rise strictly, starting
/// above the counter the watcher was created with.
pub proof fn lemma_forwarded_counters_rise(initial: int, events: Seq<EventView>)
    requires
        counters_never_decrease(initial, events),
    ensures
        ({
            let out = forwarded(WatcherView { last_seen: initial, pending: None }, events);
            &&& forall|i: int| 0 <= i < out.len() ==> initial < (#[trigger] out[i]).counter
            &&& forall|i: int, j: int|
                0 <= i < j < out.len() ==> (#[trigger] out[i]).counter < (#[trigger] out[j]).counter
        }),
{
    lemma_forwarded_counters_rise_from(WatcherView { last_seen: initial, pending: None }, events);
}

} // verus!
