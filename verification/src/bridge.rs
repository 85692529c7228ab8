//! The bridge between windowing events and host callbacks: a state machine
//! with the states running and closed.

use vstd::prelude::*;
use crate::handle::{DisplayHandle, HandleDescriptor, SetupCall, WindowHandle, resolved, setup_for};

verus! {

/// A windowing event, reduced to what the bridge answers.
#[derive(Clone, Debug, PartialEq, Eq)]
pub enum WindowEvent {
    /// The user or the system asked for the window to close.
    CloseRequested,
    /// The window's contents should be repainted.
    RedrawRequested,
    /// The window has a new physical size.
    Resized { width: u32, height: u32 },
    /// A file was dropped onto the window.
    DroppedFile { path: String },
    /// Any other event: input, focus, movement.
    Other,
}

/// What the owner of the window does in answer to one event.
#[derive(Clone, Debug, PartialEq, Eq)]
pub enum Action {
    /// Leave the event loop.
    Exit,
    /// Invoke the host's draw callback.
    Draw,
    /// Invoke the host's resize callback with these dimensions.
    Resize { width: u32, height: u32 },
    /// Decode the file at this path and make it the window's icon.
    ReplaceIcon { path: String },
    /// Do nothing.
    Ignore,
}

/// The state of the bridge.
#[derive(Clone, Copy, Debug, PartialEq, Eq, Structural)]
pub enum Phase {
    /// Events are answered.
    Running,
    /// A close was requested; nothing is answered any more.
    Closed,
}

/// The answer of a running bridge to one event. The icon is replaced at the
/// drop itself; a redraw only draws.
pub open spec fn response(event: WindowEvent) -> Action {
    match event {
        WindowEvent::CloseRequested => Action::Exit,
        WindowEvent::RedrawRequested => Action::Draw,
        WindowEvent::Resized { width, height } => Action::Resize { width, height },
        WindowEvent::DroppedFile { path } => Action::ReplaceIcon { path },
        WindowEvent::Other => Action::Ignore,
    }
}

/// The phase that follows `phase` on `event`.
pub open spec fn next_phase(phase: Phase, event: WindowEvent) -> Phase {
    if phase == Phase::Running && !(event is CloseRequested) {
        Phase::Running
    } else {
        Phase::Closed
    }
}

/// The answer to `event` in `phase`.
pub open spec fn answer(phase: Phase, event: WindowEvent) -> Action {
    if phase == Phase::Running {
        response(event)
    } else {
        Action::Ignore
    }
}

/// True where a close request stands before position `i` of `events`.
pub open spec fn closed_before(events: Seq<WindowEvent>, i: int) -> bool {
    exists|j: int| 0 <= j < i && j < events.len() && (#[trigger] events[j]) is CloseRequested
}

/// The phase of a bridge that started running and has answered the first `i`
/// events.
pub open spec fn phase_after(events: Seq<WindowEvent>, i: int) -> Phase {
    if closed_before(events, i) {
        Phase::Closed
    } else {
        Phase::Running
    }
}

/// The answers of a bridge that starts running to a sequence of events, one
/// for each event.
pub open spec fn answers(events: Seq<WindowEvent>) -> Seq<Action> {
    Seq::new(events.len(), |i: int| answer(phase_after(events, i), events[i]))
}

/// The number of resize events in `events`.
pub open spec fn count_resizes(events: Seq<WindowEvent>) -> nat
    decreases events.len(),
{
    if events.len() == 0 {
        0
    } else {
        count_resizes(events.drop_last()) + if events.last() is Resized {
            1nat
        } else {
            0nat
        }
    }
}

/// The number of resize callbacks in `actions`.
pub open spec fn count_resize_calls(actions: Seq<Action>) -> nat
    decreases actions.len(),
{
    if actions.len() == 0 {
        0
    } else {
        count_resize_calls(actions.drop_last()) + if actions.last() is Resize {
            1nat
        } else {
            0nat
        }
    }
}

/// The owner's record of one window's event loop.
#[derive(Clone, Copy, Debug, PartialEq, Eq)]
pub struct Bridge {
    phase: Phase,
}

impl Bridge {
    /// The bridge's state.
    pub closed spec fn view(&self) -> Phase {
        self.phase
    }

    /// A running bridge.
    pub fn new() -> (bridge: Bridge)
        ensures
            bridge@ == Phase::Running,
    {
        Bridge { phase: Phase::Running }
    }

    /// Resolves the window's handles and starts the bridge: the setup
    /// notification, if the platform family is supported, and a running
    /// bridge in either case.
    pub fn start(window: WindowHandle, display: DisplayHandle, width: u32, height: u32) -> (out: (
        Bridge,
        Option<SetupCall>,
    ))
        ensures
            out.0@ == Phase::Running,
            out.1 == setup_for(resolved(window, display), width, height),
    {
        let desc = HandleDescriptor::resolve(window, display);
        (Bridge::new(), desc.setup_call(width, height))
    }

    /// The current state.
    pub fn phase(&self) -> (phase: Phase)
        ensures
            phase == self@,
    {
        self.phase
    }

    /// True once a close was requested.
    pub fn is_closed(&self) -> (closed: bool)
        ensures
            closed == (self@ == Phase::Closed),
    {
        match self.phase {
            Phase::Closed => true,
            Phase::Running => false,
        }
    }

    /// Answers one event. A running bridge answers a close request by leaving
    /// the loop and becomes closed; it answers every other event as
    /// `response` says and keeps running. A closed bridge ignores everything.
    pub fn handle(&mut self, event: &WindowEvent) -> (action: Action)
        ensures
            action == answer(old(self)@, *event),
            final(self)@ == next_phase(old(self)@, *event),
    {
        match self.phase {
            Phase::Closed => Action::Ignore,
            Phase::Running => match event {
                WindowEvent::CloseRequested => {
                    self.phase = Phase::Closed;
                    Action::Exit
                },
                WindowEvent::RedrawRequested => Action::Draw,
                WindowEvent::Resized { width, height } => Action::Resize {
                    width: *width,
                    height: *height,
                },
                WindowEvent::DroppedFile { path } => Action::ReplaceIcon { path: path.clone() },
                WindowEvent::Other => Action::Ignore,
            },
        }
    }

    /// Answers a whole sequence of events with a fresh bridge, in order, and
    /// returns the answers with the bridge as the last event left it.
    pub fn replay(events: &Vec<WindowEvent>) -> (out: (Bridge, Vec<Action>))
        ensures
            out.1@ == answers(events@),
            out.0@ == phase_after(events@, events@.len() as int),
    {
        let ghost all = events@;
        let mut bridge = Bridge::new();
        let mut actions: Vec<Action> = Vec::new();
        let mut i: usize = 0;
        while i < events.len()
            invariant
                all == events@,
                i <= events.len(),
                actions@.len() == i,
                bridge@ == phase_after(all, i as int),
                forall|k: int| 0 <= k < i ==> actions@[k] == answer(phase_after(all, k), all[k]),
            decreases events.len() - i,
        {
            proof {
                lemma_phase_step(all, i as int);
            }
            let action = bridge.handle(&events[i]);
            actions.push(action);
            i = i + 1;
        }
        assert(actions@ =~= answers(all));
        (bridge, actions)
    }
}

/// Answering one more event moves the phase as `next_phase` says.
pub proof fn lemma_phase_step(events: Seq<WindowEvent>, i: int)
    requires
        0 <= i < events.len(),
    ensures
        phase_after(events, i + 1) == next_phase(phase_after(events, i), events[i]),
{
    if closed_before(events, i) {
        let j = choose|j: int| 0 <= j < i && j < events.len() && (#[trigger] events[j]) is CloseRequested;
        assert(0 <= j < i + 1 && events[j] is CloseRequested);
    } else if events[i] is CloseRequested {
        assert(0 <= i < i + 1 && events[i] is CloseRequested);
    } else {
        if closed_before(events, i + 1) {
            let j = choose|j: int| 0 <= j < i + 1 && j < events.len() && (#[trigger] events[j]) is CloseRequested;
            assert(j < i);
        }
    }
}

/// The first close request is answered by leaving the loop, and every event
/// behind a close request is ignored, whatever it is: no callback follows a
/// close.
pub proof fn lemma_close_ends_callbacks(events: Seq<WindowEvent>, close: int)
    requires
        0 <= close < events.len(),
        events[close] is CloseRequested,
    ensures
        phase_after(events, events.len() as int) == Phase::Closed,
        forall|k: int| close < k < events.len() ==> #[trigger] answers(events)[k] == Action::Ignore,
        !closed_before(events, close) ==> answers(events)[close] == Action::Exit,
        exists|first: int| 0 <= first <= close && #[trigger] answers(events)[first] == Action::Exit,
{
    assert(closed_before(events, events.len() as int));
    assert forall|k: int| close < k < events.len() implies #[trigger] answers(events)[k]
        == Action::Ignore by {
        assert(closed_before(events, k));
    }
    lemma_first_close(events, close);
}

/// Some close request at or before `close` is the first one, and it is
/// answered by leaving the loop.
proof fn lemma_first_close(events: Seq<WindowEvent>, close: int)
    requires
        0 <= close < events.len(),
        events[close] is CloseRequested,
    ensures
        exists|first: int| 0 <= first <= close && #[trigger] answers(events)[first] == Action::Exit,
    decreases close,
{
    if closed_before(events, close) {
        let j = choose|j: int| 0 <= j < close && j < events.len() && (#[trigger] events[j]) is CloseRequested;
        lemma_first_close(events, j);
        let first = choose|first: int| 0 <= first <= j && #[trigger] answers(events)[first] == Action::Exit;
        assert(0 <= first <= close && answers(events)[first] == Action::Exit);
    } else {
        assert(answers(events)[close] == Action::Exit);
    }
}

/// While no close was requested, every resize event is answered by one resize
/// callback with the event's own dimensions, at the event's own position, and
/// no other event is answered by a resize callback.
pub proof fn lemma_resize_answers(events: Seq<WindowEvent>, i: int)
    requires
        0 <= i < events.len(),
        !closed_before(events, i),
    ensures
        events[i] matches WindowEvent::Resized { width, height } ==> answers(events)[i]
            == (Action::Resize { width, height }),
        answers(events)[i] is Resize ==> events[i] is Resized,
        events[i] is RedrawRequested <==> answers(events)[i] is Draw,
{
}

/// A sequence of resize events, however long, is answered by the same number
/// of resize callbacks, in the same order and with the same dimensions.
pub proof fn lemma_resizes_only(events: Seq<WindowEvent>)
    requires
        forall|i: int| 0 <= i < events.len() ==> (#[trigger] events[i]) is Resized,
    ensures
        answers(events).len() == events.len(),
        forall|i: int|
            0 <= i < events.len() ==> #[trigger] answers(events)[i] == (Action::Resize {
                width: events[i]->width,
                height: events[i]->height,
            }),
        phase_after(events, events.len() as int) == Phase::Running,
{
    assert forall|i: int| 0 <= i <= events.len() implies !closed_before(events, i) by {
        if closed_before(events, i) {
            let j = choose|j: int|
                0 <= j < i && j < events.len() && (#[trigger] events[j]) is CloseRequested;
            assert(events[j] is Resized);
        }
    }
}

/// A sequence of events without a close request gets as many resize callbacks
/// as it holds resize events: none is merged with another and none is lost.
pub proof fn lemma_resize_count(events: Seq<WindowEvent>)
    requires
        !closed_before(events, events.len() as int),
    ensures
        answers(events).len() == events.len(),
        count_resize_calls(answers(events)) == count_resizes(events),
    decreases events.len(),
{
    if events.len() > 0 {
        let front = events.drop_last();
        let n = events.len() - 1;
        if closed_before(front, front.len() as int) {
            let j = choose|j: int| 0 <= j < front.len() && j < front.len() && (#[trigger] front[j]) is CloseRequested;
            assert(events[j] is CloseRequested);
            assert(closed_before(events, events.len() as int));
        }
        lemma_resize_count(front);
        assert forall|k: int| 0 <= k < n implies closed_before(front, k) == closed_before(events, k) by {
            if closed_before(front, k) {
                let j = choose|j: int| 0 <= j < k && j < front.len() && (#[trigger] front[j]) is CloseRequested;
                assert(events[j] is CloseRequested);
            }
            if closed_before(events, k) {
                let j = choose|j: int| 0 <= j < k && j < events.len() && (#[trigger] events[j]) is CloseRequested;
                assert(front[j] is CloseRequested);
            }
        }
        assert(answers(events).drop_last() =~= answers(front));
        if closed_before(events, n) {
            let j = choose|j: int| 0 <= j < n && j < events.len() && (#[trigger] events[j]) is CloseRequested;
            assert(closed_before(events, events.len() as int));
        }
        assert(answers(events).last() == response(events[n]));
    }
}

} // verus!
