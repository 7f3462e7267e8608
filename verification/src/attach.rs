//! The interactive session: bytes pumped in both directions between the
//! local terminal and the remote process, and a watcher that forwards the
//! terminal's size. The session is a machine from state and event to state
//! and action; the caller does the reading and writing.

use vstd::prelude::*;

verus! {

/// One piece of what the remote side sent.
#[derive(Debug, Clone)]
pub enum OutputChunk {
    StdOut(Vec<u8>),
    StdErr(Vec<u8>),
    Console(Vec<u8>),
    /// An echo of the input: it is not shown.
    StdIn(Vec<u8>),
    /// A piece that could not be read: it is passed over.
    Broken,
}

/// What happens during a session.
#[derive(Debug, Clone)]
pub enum SessionEvent {
    /// The remote side sent a piece of output.
    Output(OutputChunk),
    /// The remote side closed its output.
    OutputClosed,
    /// The local input gave these bytes.
    Input(Vec<u8>),
    /// The local input ended, or the remote side takes no more input.
    InputClosed,
    /// One of the two pumps broke down.
    PumpFailed,
    /// The local terminal has this size now.
    Resized { cols: u16, rows: u16 },
}

/// The size that the remote terminal is set to.
#[derive(Clone, Copy, PartialEq, Eq, Structural, Debug)]
pub struct Resize {
    pub height: u16,
    pub width: u16,
}

/// What the caller does after an event.
#[derive(Debug, Clone)]
pub enum SessionAction {
    /// Nothing.
    Ignore,
    /// Write these bytes to the local output and flush it.
    WriteLocal(Vec<u8>),
    /// Write these bytes to the remote input and flush it.
    WriteRemote(Vec<u8>),
    /// Set the remote terminal to this size.
    SendResize(Resize),
    /// The session is over: cancel the watcher and restore the terminal.
    Teardown,
}

/// An action with its bytes as a sequence.
pub enum ActionView {
    Ignore,
    WriteLocal(Seq<u8>),
    WriteRemote(Seq<u8>),
    SendResize(Resize),
    Teardown,
}

/// The state of a session.
#[derive(Clone, Copy, PartialEq, Eq, Structural, Debug)]
pub struct Session {
    /// The remote output has not closed yet.
    pub output_open: bool,
    /// The local input has not ended yet.
    pub input_open: bool,
    /// A pump broke down.
    pub failed: bool,
    /// The size watcher runs.
    pub watcher_active: bool,
}

impl SessionAction {
    /// The action with its bytes as a sequence.
    pub open spec fn view(&self) -> ActionView {
        match *self {
            SessionAction::Ignore => ActionView::Ignore,
            SessionAction::WriteLocal(b) => ActionView::WriteLocal(b@),
            SessionAction::WriteRemote(b) => ActionView::WriteRemote(b@),
            SessionAction::SendResize(r) => ActionView::SendResize(r),
            SessionAction::Teardown => ActionView::Teardown,
        }
    }
}

/// The bytes of a piece of output that are shown, if it has any.
pub open spec fn payload_spec(chunk: OutputChunk) -> Option<Seq<u8>> {
    match chunk {
        OutputChunk::StdOut(b) => Some(b@),
        OutputChunk::StdErr(b) => Some(b@),
        OutputChunk::Console(b) => Some(b@),
        OutputChunk::StdIn(_) => None,
        OutputChunk::Broken => None,
    }
}

/// The size to send for a terminal of `cols` columns and `rows` rows.
pub open spec fn resize_spec(cols: u16, rows: u16) -> Resize {
    Resize { height: rows, width: cols }
}

impl Session {
    /// Whether the session is over: both directions are done, or a pump
    /// broke down.
    pub open spec fn ended(&self) -> bool {
        self.failed || (!self.output_open && !self.input_open)
    }

    /// The watcher runs exactly as long as the session.
    pub open spec fn wf(&self) -> bool {
        self.watcher_active == !self.ended()
    }

    /// A session at its beginning.
    pub open spec fn fresh() -> Session {
        Session { output_open: true, input_open: true, failed: false, watcher_active: true }
    }

    /// A session at its beginning: both directions open, the watcher running.
    pub fn begin() -> (s: Session)
        ensures
            s == Session::fresh(),
            s.wf(),
            !s.ended(),
    {
        Session { output_open: true, input_open: true, failed: false, watcher_active: true }
    }

    /// Tells whether the session is over.
    pub fn is_over(&self) -> (over: bool)
        ensures
            over == self.ended(),
    {
        self.failed || (!self.output_open && !self.input_open)
    }

    /// Takes one event and says what to do. A session that is over ignores
    /// every event. When the event ends the session, the watcher is
    /// cancelled and the action is the teardown.
    pub fn step(&mut self, event: SessionEvent) -> (action: SessionAction)
        ensures
            (*final(self), action@) == step_spec(*old(self), event),
            old(self).wf() ==> final(self).wf(),
    {
        proof {
            if self.wf() {
                lemma_step_keeps_wf(*self, event);
            }
        }
        if self.is_over() {
            return SessionAction::Ignore;
        }
        match event {
            SessionEvent::Output(chunk) => {
                if !self.output_open {
                    return SessionAction::Ignore;
                }
                match chunk {
                    OutputChunk::StdOut(b) => SessionAction::WriteLocal(b),
                    OutputChunk::StdErr(b) => SessionAction::WriteLocal(b),
                    OutputChunk::Console(b) => SessionAction::WriteLocal(b),
                    OutputChunk::StdIn(_) => SessionAction::Ignore,
                    OutputChunk::Broken => SessionAction::Ignore,
                }
            },
            SessionEvent::OutputClosed => {
                self.output_open = false;
                self.finish()
            },
            SessionEvent::Input(bytes) => {
                if self.input_open {
                    SessionAction::WriteRemote(bytes)
                } else {
                    SessionAction::Ignore
                }
            },
            SessionEvent::InputClosed => {
                self.input_open = false;
                self.finish()
            },
            SessionEvent::PumpFailed => {
                self.failed = true;
                self.finish()
            },
            SessionEvent::Resized { cols, rows } => {
                if self.watcher_active {
                    SessionAction::SendResize(Resize { height: rows, width: cols })
                } else {
                    SessionAction::Ignore
                }
            },
        }
    }

    /// Cancels the watcher if the session is over.
    fn finish(&mut self) -> (action: SessionAction)
        ensures
            (*final(self), action@) == finish_spec(*old(self)),
    {
        if self.is_over() {
            self.watcher_active = false;
            SessionAction::Teardown
        } else {
            SessionAction::Ignore
        }
    }
}

/// The state and the action when a direction has closed or a pump has
/// failed: if the session is over with that, the watcher is cancelled.
pub open spec fn finish_spec(s: Session) -> (Session, ActionView) {
    if s.ended() {
        (Session { watcher_active: false, ..s }, ActionView::Teardown)
    } else {
        (s, ActionView::Ignore)
    }
}

/// The state after an event, and the action that it calls for.
pub open spec fn step_spec(s: Session, event: SessionEvent) -> (Session, ActionView) {
    if s.ended() {
        (s, ActionView::Ignore)
    } else {
        match event {
            SessionEvent::Output(chunk) => match payload_spec(chunk) {
                Some(bytes) => if s.output_open {
                    (s, ActionView::WriteLocal(bytes))
                } else {
                    (s, ActionView::Ignore)
                },
                None => (s, ActionView::Ignore),
            },
            SessionEvent::OutputClosed => finish_spec(Session { output_open: false, ..s }),
            SessionEvent::Input(bytes) => if s.input_open {
                (s, ActionView::WriteRemote(bytes@))
            } else {
                (s, ActionView::Ignore)
            },
            SessionEvent::InputClosed => finish_spec(Session { input_open: false, ..s }),
            SessionEvent::PumpFailed => finish_spec(Session { failed: true, ..s }),
            SessionEvent::Resized { cols, rows } => if s.watcher_active {
                (s, ActionView::SendResize(resize_spec(cols, rows)))
            } else {
                (s, ActionView::Ignore)
            },
        }
    }
}

/// The bytes that an action writes to the local output.
pub open spec fn local_bytes(action: ActionView) -> Seq<u8> {
    match action {
        ActionView::WriteLocal(b) => b,
        _ => Seq::empty(),
    }
}

/// All bytes written to the local output while a sequence of events is taken.
pub open spec fn run_output(s: Session, events: Seq<SessionEvent>) -> Seq<u8>
    decreases events.len(),
{
    if events.len() == 0 {
        Seq::empty()
    } else {
        let r = step_spec(s, events[0]);
        local_bytes(r.1) + run_output(r.0, events.drop_first())
    }
}

/// The state after a sequence of events.
pub open spec fn run_state(s: Session, events: Seq<SessionEvent>) -> Session
    decreases events.len(),
{
    if events.len() == 0 {
        s
    } else {
        run_state(step_spec(s, events[0]).0, events.drop_first())
    }
}

/// The bytes that the remote side sent for showing before it closed its
/// output.
pub open spec fn delivered(events: Seq<SessionEvent>) -> Seq<u8>
    decreases events.len(),
{
    if events.len() == 0 {
        Seq::empty()
    } else {
        match events[0] {
            SessionEvent::OutputClosed => Seq::empty(),
            SessionEvent::Output(chunk) => (match payload_spec(chunk) {
                Some(b) => b,
                None => Seq::empty(),
            }) + delivered(events.drop_first()),
            _ => delivered(events.drop_first()),
        }
    }
}

/// No pump breaks down during these events.
pub open spec fn no_failure(events: Seq<SessionEvent>) -> bool {
    forall|i: int| 0 <= i < events.len() ==> !(#[trigger] events[i] is PumpFailed)
}

/// The bytes of a piece of output that are shown, if it has any.
pub fn payload(chunk: OutputChunk) -> (bytes: Option<Vec<u8>>)
    ensures
        match payload_spec(chunk) {
            Some(b) => bytes matches Some(v) && v@ == b,
            None => bytes is None,
        },
{
    match chunk {
        OutputChunk::StdOut(b) => Some(b),
        OutputChunk::StdErr(b) => Some(b),
        OutputChunk::Console(b) => Some(b),
        OutputChunk::StdIn(_) => None,
        OutputChunk::Broken => None,
    }
}

/// The size to send to the remote terminal when the session opens, where the
/// local size is known.
pub fn initial_resize(size: Option<(u16, u16)>) -> (resize: Option<Resize>)
    ensures
        resize == match size {
            Some((cols, rows)) => Some(resize_spec(cols, rows)),
            None => None,
        },
{
    match size {
        Some((cols, rows)) => Some(Resize { height: rows, width: cols }),
        None => None,
    }
}

/// For a watcher that polls: the size to send, if the terminal's size is
/// known and is other than the last one seen.
pub fn poll_resize(last: (u16, u16), now: Option<(u16, u16)>) -> (out: ((u16, u16), Option<Resize>))
    ensures
        out == match now {
            Some(size) => if size != last {
                (size, Some(resize_spec(size.0, size.1)))
            } else {
                (last, None::<Resize>)
            },
            None => (last, None::<Resize>),
        },
{
    match now {
        Some((cols, rows)) => {
            if cols != last.0 || rows != last.1 {
                ((cols, rows), Some(Resize { height: rows, width: cols }))
            } else {
                (last, None)
            }
        },
        None => (last, None),
    }
}

/// The watcher runs exactly as long as the session, whatever happens; the
/// teardown is called for by the one event that ends the session; and a
/// session that is over has no watcher.
pub proof fn lemma_step_keeps_wf(s: Session, event: SessionEvent)
    requires
        s.wf(),
    ensures
        step_spec(s, event).0.wf(),
        (step_spec(s, event).1 is Teardown) == (!s.ended() && step_spec(s, event).0.ended()),
        step_spec(s, event).0.ended() ==> !step_spec(s, event).0.watcher_active,
        s.ended() ==> step_spec(s, event).0.ended(),
{
}

/// Whichever direction is done first, the session is over when both are,
/// and it is then that the watcher is cancelled.
pub proof fn lemma_either_order_ends()
    ensures
        ({
            let a = step_spec(Session::fresh(), SessionEvent::OutputClosed);
            let b = step_spec(a.0, SessionEvent::InputClosed);
            a.1 is Ignore && a.0.watcher_active && b.1 is Teardown && b.0.ended() && !b.0.watcher_active
        }),
        ({
            let a = step_spec(Session::fresh(), SessionEvent::InputClosed);
            let b = step_spec(a.0, SessionEvent::OutputClosed);
            a.1 is Ignore && a.0.watcher_active && b.1 is Teardown && b.0.ended() && !b.0.watcher_active
        }),
{
}

/// Once the remote output has closed nothing more is written locally.
pub proof fn lemma_closed_output_is_silent(s: Session, events: Seq<SessionEvent>)
    requires
        !s.output_open,
    ensures
        run_output(s, events) == Seq::<u8>::empty(),
    decreases events.len(),
{
    if events.len() > 0 {
        let r = step_spec(s, events[0]);
        lemma_closed_output_is_silent(r.0, events.drop_first());
        assert(local_bytes(r.1) + Seq::<u8>::empty() =~= Seq::<u8>::empty());
    }
}

/// While no pump breaks down, what is written locally is exactly what the
/// remote side sent before it closed its output: every byte of it, in order,
/// and none after the close, whatever the input and the terminal do meanwhile.
pub proof fn lemma_output_pump_forwards(s: Session, events: Seq<SessionEvent>)
    requires
        s.wf(),
        s.output_open,
        !s.failed,
        no_failure(events),
    ensures
        run_output(s, events) == delivered(events),
        run_state(s, events).wf(),
    decreases events.len(),
{
    if events.len() > 0 {
        let r = step_spec(s, events[0]);
        let rest = events.drop_first();
        lemma_step_keeps_wf(s, events[0]);
        assert(!(events[0] is PumpFailed));
        assert forall|i: int| 0 <= i < rest.len() implies !(#[trigger] rest[i] is PumpFailed) by {
            assert(rest[i] == events[i + 1]);
        }
        if r.0.output_open {
            lemma_output_pump_forwards(r.0, rest);
            assert(Seq::<u8>::empty() + delivered(rest) =~= delivered(rest));
        } else {
            lemma_closed_output_is_silent(r.0, rest);
            lemma_run_keeps_wf(r.0, rest);
            assert(events[0] is OutputClosed);
            assert(Seq::<u8>::empty() + Seq::<u8>::empty() =~= Seq::<u8>::empty());
        }
    }
}

/// Once the remote side has closed its output, the output pump is done and
/// stays so.
pub proof fn lemma_output_closes(s: Session, events: Seq<SessionEvent>, at: int)
    requires
        !s.failed,
        0 <= at < events.len(),
        events[at] is OutputClosed,
        no_failure(events),
    ensures
        !run_state(s, events).output_open,
    decreases events.len(),
{
    let r = step_spec(s, events[0]);
    let rest = events.drop_first();
    if !r.0.output_open {
        lemma_closed_output_stays(r.0, rest);
    } else {
        assert(at > 0);
        assert(rest[at - 1] == events[at]);
        assert forall|i: int| 0 <= i < rest.len() implies !(#[trigger] rest[i] is PumpFailed) by {
            assert(rest[i] == events[i + 1]);
        }
        assert(!(events[0] is PumpFailed));
        lemma_output_closes(r.0, rest, at - 1);
    }
}

/// A closed output stays closed.
proof fn lemma_closed_output_stays(s: Session, events: Seq<SessionEvent>)
    requires
        !s.output_open,
    ensures
        !run_state(s, events).output_open,
    decreases events.len(),
{
    if events.len() > 0 {
        lemma_closed_output_stays(step_spec(s, events[0]).0, events.drop_first());
    }
}

/// The watcher runs exactly as long as the session after any events.
pub proof fn lemma_run_keeps_wf(s: Session, events: Seq<SessionEvent>)
    requires
        s.wf(),
    ensures
        run_state(s, events).wf(),
        run_state(s, events).ended() ==> !run_state(s, events).watcher_active,
    decreases events.len(),
{
    if events.len() > 0 {
        lemma_step_keeps_wf(s, events[0]);
        lemma_run_keeps_wf(step_spec(s, events[0]).0, events.drop_first());
    }
}

} // verus!
