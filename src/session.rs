//! The lifecycle of one live connection.
//!
//! A session starts `Connecting`, becomes `Active` once it has registered its
//! outbound queue, and runs two tasks: a reader, which takes inbound frames
//! and hands each decoded batch to the fan-out, and a writer, which drains
//! the outbound queue onto the connection. Whichever task ends first cancels
//! the other (`Closing`); when the second has ended too the session is
//! `Closed` and takes its own registry entry out, unless a newer session of
//! the same user has replaced it.

use crate::message::SendMessageInSocket;
use crate::registry::{Entry, Registry};
use vstd::prelude::*;

verus! {

#[derive(PartialEq, Eq, Structural, Clone, Copy, Debug)]
pub enum Task {
    Reader,
    Writer,
}

#[derive(PartialEq, Eq, Structural, Clone, Copy, Debug)]
pub enum SessionPhase {
    Connecting,
    Active,
    /// `first` has ended and the other task is being cancelled.
    Closing { first: Task },
    Closed,
}

/// What the session asks of its owner after a task has ended.
#[derive(PartialEq, Eq, Structural, Clone, Copy, Debug)]
pub enum SessionAction {
    /// Cancel the task that is still running.
    Cancel(Task),
    /// Both tasks are over: the session is closed.
    Close,
    /// Nothing to do.
    Ignore,
}

/// What the reader got from the connection.
pub enum ReaderEvent {
    /// A text frame that decoded as a batch.
    Batch(SendMessageInSocket),
    /// A text frame that did not decode.
    Malformed,
    /// A frame that carries no chat data (binary, ping, pong).
    Other,
    /// The peer closed the connection or the stream ended.
    Ended,
    /// Reading failed.
    Failed,
}

/// What the reader does next.
pub enum ReaderAction {
    /// Hand the batch to the fan-out, then read on.
    Dispatch(SendMessageInSocket),
    /// Read the next frame.
    Continue,
    /// End the reader task.
    Stop,
}

/// What the writer got.
pub enum WriterEvent {
    /// A frame from the outbound queue.
    Queued(String),
    /// The outbound queue has no sender left.
    QueueClosed,
    /// A frame was written.
    Sent,
    /// Writing to the connection failed.
    SendFailed,
}

/// What the writer does next.
pub enum WriterAction {
    /// Write the frame to the connection.
    Send(String),
    /// Wait for the next frame of the queue.
    Continue,
    /// End the writer task.
    Stop,
}

/// The reader's rule: a decoded batch is dispatched, an undecodable or
/// irrelevant frame is passed over, and only the end of the stream or a
/// read failure ends the task.
pub open spec fn reader_next(ev: ReaderEvent) -> ReaderAction {
    match ev {
        ReaderEvent::Batch(b) => ReaderAction::Dispatch(b),
        ReaderEvent::Malformed => ReaderAction::Continue,
        ReaderEvent::Other => ReaderAction::Continue,
        ReaderEvent::Ended => ReaderAction::Stop,
        ReaderEvent::Failed => ReaderAction::Stop,
    }
}

/// The batches a reader hands to the fan-out when the connection yields
/// `evs`, in order, up to the event that ends it.
pub open spec fn dispatched(evs: Seq<ReaderEvent>) -> Seq<SendMessageInSocket>
    decreases evs.len(),
{
    if evs.len() == 0 {
        Seq::empty()
    } else {
        match reader_next(evs[0]) {
            ReaderAction::Dispatch(b) => seq![b] + dispatched(evs.drop_first()),
            ReaderAction::Continue => dispatched(evs.drop_first()),
            ReaderAction::Stop => Seq::empty(),
        }
    }
}

/// The reader's decision for one event.
pub fn reader_action(ev: ReaderEvent) -> (r: ReaderAction)
    ensures
        r == reader_next(ev),
{
    match ev {
        ReaderEvent::Batch(b) => ReaderAction::Dispatch(b),
        ReaderEvent::Malformed => ReaderAction::Continue,
        ReaderEvent::Other => ReaderAction::Continue,
        ReaderEvent::Ended => ReaderAction::Stop,
        ReaderEvent::Failed => ReaderAction::Stop,
    }
}

/// The writer's decision for one event: queued frames are written, and a
/// closed queue or a failed write ends the task.
pub fn writer_action(ev: WriterEvent) -> (r: WriterAction)
    ensures
        ev matches WriterEvent::Queued(f) ==> r == WriterAction::Send(f),
        ev is Sent ==> r is Continue,
        ev is QueueClosed || ev is SendFailed ==> r is Stop,
{
    match ev {
        WriterEvent::Queued(f) => WriterAction::Send(f),
        WriterEvent::Sent => WriterAction::Continue,
        WriterEvent::QueueClosed => WriterAction::Stop,
        WriterEvent::SendFailed => WriterAction::Stop,
    }
}

/// The other task of a session.
pub open spec fn sibling(t: Task) -> Task {
    match t {
        Task::Reader => Task::Writer,
        Task::Writer => Task::Reader,
    }
}

/// One live connection of one user.
pub struct Session {
    user_id: i64,
    session_id: u64,
    phase: SessionPhase,
}

pub struct SessionView {
    pub user_id: i64,
    pub session_id: u64,
    pub phase: SessionPhase,
}

impl View for Session {
    type V = SessionView;

    closed spec fn view(&self) -> SessionView {
        SessionView { user_id: self.user_id, session_id: self.session_id, phase: self.phase }
    }
}

impl Session {
    /// A session of `user_id`, told apart from the user's other sessions by
    /// `session_id`.
    pub fn new(user_id: i64, session_id: u64) -> (r: Session)
        ensures
            r@ == (SessionView { user_id, session_id, phase: SessionPhase::Connecting }),
    {
        Session { user_id, session_id, phase: SessionPhase::Connecting }
    }

    pub fn phase(&self) -> (r: SessionPhase)
        ensures
            r == self@.phase,
    {
        self.phase
    }

    pub fn user_id(&self) -> (r: i64)
        ensures
            r == self@.user_id,
    {
        self.user_id
    }

    /// Registers the session's outbound queue under its user and makes it
    /// active. A session that is not connecting changes nothing.
    pub fn activate<C>(&mut self, registry: &mut Registry<C>, outbound: C)
        ensures
            final(self)@.user_id == old(self)@.user_id,
            final(self)@.session_id == old(self)@.session_id,
            old(self)@.phase == SessionPhase::Connecting ==> {
                &&& final(self)@.phase == SessionPhase::Active
                &&& final(registry)@ == old(registry)@.insert(
                    old(self)@.user_id,
                    Entry { session: old(self)@.session_id, outbound },
                )
            },
            old(self)@.phase != SessionPhase::Connecting ==> {
                &&& final(self)@ == old(self)@
                &&& final(registry)@ == old(registry)@
            },
    {
        if self.phase == SessionPhase::Connecting {
            registry.register(self.user_id, self.session_id, outbound);
            self.phase = SessionPhase::Active;
        }
    }

    /// Records that task `t` has ended. The first task to end has the other
    /// cancelled; when the second ends the session closes and takes its own
    /// entry out of the registry.
    pub fn task_ended<C>(&mut self, t: Task, registry: &mut Registry<C>) -> (r: SessionAction)
        ensures
            final(self)@.user_id == old(self)@.user_id,
            final(self)@.session_id == old(self)@.session_id,
            old(self)@.phase == SessionPhase::Active ==> {
                &&& final(self)@.phase == (SessionPhase::Closing { first: t })
                &&& r == SessionAction::Cancel(sibling(t))
                &&& final(registry)@ == old(registry)@
            },
            old(self)@.phase == (SessionPhase::Closing { first: sibling(t) }) ==> {
                &&& final(self)@.phase == SessionPhase::Closed
                &&& r == SessionAction::Close
                &&& final(registry)@ == (if old(registry)@.contains_key(old(self)@.user_id)
                    && old(registry)@[old(self)@.user_id].session == old(self)@.session_id {
                    old(registry)@.remove(old(self)@.user_id)
                } else {
                    old(registry)@
                })
            },
            old(self)@.phase != SessionPhase::Active && old(self)@.phase != (SessionPhase::Closing {
                first: sibling(t),
            }) ==> {
                &&& final(self)@ == old(self)@
                &&& r == SessionAction::Ignore
                &&& final(registry)@ == old(registry)@
            },
    {
        let other = match t {
            Task::Reader => Task::Writer,
            Task::Writer => Task::Reader,
        };
        if self.phase == SessionPhase::Active {
            self.phase = SessionPhase::Closing { first: t };
            SessionAction::Cancel(other)
        } else if self.phase == (SessionPhase::Closing { first: other }) {
            self.phase = SessionPhase::Closed;
            registry.release(self.user_id, self.session_id);
            SessionAction::Close
        } else {
            SessionAction::Ignore
        }
    }
}

/// A frame that does not decode changes nothing but itself: wherever it
/// stands among the frames of a connection, the batches dispatched are those
/// of the other frames, so a well-formed frame after it is still processed.
pub proof fn lemma_malformed_frame_skipped(pre: Seq<ReaderEvent>, post: Seq<ReaderEvent>)
    ensures
        dispatched(pre + seq![ReaderEvent::Malformed] + post) == dispatched(pre + post),
    decreases pre.len(),
{
    let whole = pre + seq![ReaderEvent::Malformed] + post;
    if pre.len() == 0 {
        assert(whole.drop_first() =~= post);
        assert(pre + post =~= post);
    } else {
        assert(whole.drop_first() =~= pre.drop_first() + seq![ReaderEvent::Malformed] + post);
        assert((pre + post).drop_first() =~= pre.drop_first() + post);
        assert(whole[0] == pre[0]);
        assert((pre + post)[0] == pre[0]);
        lemma_malformed_frame_skipped(pre.drop_first(), post);
    }
}

} // verus!
