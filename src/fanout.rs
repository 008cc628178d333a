//! The fan-out of one inbound batch, as a state machine.
//!
//! The engine never waits on the outside world itself. Each `step` takes the
//! outcome of the previous action (membership listed, profiles resolved, a
//! message stored or not, a frame handed out) and returns the next action:
//! list the channel's members, resolve their profiles, store message `i`,
//! deliver the frame of message `i` to the members that are online, or stop.
//!
//! Policy:
//! - a failed membership lookup ends the batch: nothing is stored or sent;
//! - a failed profile lookup is not fatal: the sender is then shown by
//!   identity alone;
//! - messages are stored and delivered one at a time, in batch order, and a
//!   message whose storage failed is skipped, never delivered, and does not
//!   stop the ones after it;
//! - a frame is only ever delivered after its message was stored;
//! - a frame goes to every member of the snapshot that is online when it is
//!   delivered, the sender's own connection included, and to no one else;
//! - an event that does not answer the pending request ends the fan-out.

use crate::message::{
    frame_of, is_bare_profile, record_of, CreateMessage, Message, SendMessageReq, SimpleUser,
    WebSocketMessage,
};
use crate::registry::{online_among, Registry};
use vstd::prelude::*;

verus! {

#[derive(PartialEq, Eq, Structural, Clone, Copy, Debug)]
pub enum DispatchPhase {
    /// Created; nothing asked yet.
    Idle,
    /// Waiting for the channel's membership.
    AwaitMembers,
    /// Waiting for the members' profiles.
    AwaitProfiles,
    /// Waiting for the store to create the current message.
    AwaitPersist,
    /// Waiting for the frame of the current message to be handed out.
    AwaitDelivery,
    /// Nothing more to do.
    Finished,
}

/// The outcome of the action asked for last.
pub enum DispatchEvent {
    Start,
    MembersListed(Vec<i64>),
    MembersFailed,
    ProfilesListed(Vec<SimpleUser>),
    ProfilesFailed,
    Persisted(Message),
    PersistFailed,
    Delivered,
}

/// What the engine asks for next.
pub enum DispatchAction {
    ListMembers { channel_id: i64 },
    GetProfiles { user_ids: Vec<i64> },
    Persist { index: usize, record: CreateMessage },
    Deliver { index: usize, recipients: Vec<i64>, frame: WebSocketMessage },
    Done,
}

/// The fan-out of one batch from one sender to one channel.
pub struct Dispatch {
    channel_id: i64,
    sender_id: i64,
    batch: Ghost<Seq<SendMessageReq>>,
    pending: Vec<SendMessageReq>,
    current: usize,
    members: Vec<i64>,
    sender: SimpleUser,
    phase: DispatchPhase,
}

/// The abstract state of a fan-out.
pub struct DispatchView {
    pub channel_id: i64,
    pub sender_id: i64,
    /// The whole batch, in arrival order.
    pub batch: Seq<SendMessageReq>,
    /// The index of the message being stored or delivered.
    pub current: int,
    /// The membership snapshot taken for this batch.
    pub members: Seq<i64>,
    /// The profile shown as the sender of every frame.
    pub sender: SimpleUser,
    pub phase: DispatchPhase,
}

impl View for Dispatch {
    type V = DispatchView;

    closed spec fn view(&self) -> DispatchView {
        DispatchView {
            channel_id: self.channel_id,
            sender_id: self.sender_id,
            batch: self.batch@,
            current: self.current as int,
            members: self.members@,
            sender: self.sender,
            phase: self.phase,
        }
    }
}

/// Whether `event` answers what a fan-out in `phase` waits for.
pub open spec fn expects(phase: DispatchPhase, event: DispatchEvent) -> bool {
    match phase {
        DispatchPhase::Idle => event is Start,
        DispatchPhase::AwaitMembers => event is MembersListed || event is MembersFailed,
        DispatchPhase::AwaitProfiles => event is ProfilesListed || event is ProfilesFailed,
        DispatchPhase::AwaitPersist => event is Persisted || event is PersistFailed,
        DispatchPhase::AwaitDelivery => event is Delivered,
        DispatchPhase::Finished => false,
    }
}

/// `p` is the profile to show for sender `id` among the resolved profiles
/// `ps`: the first one with that identity, or the identity alone if none has.
pub open spec fn chosen_sender(ps: Seq<SimpleUser>, id: i64, p: SimpleUser) -> bool {
    if exists|j: int| 0 <= j < ps.len() && ps[j].id == id {
        exists|j: int|
            0 <= j < ps.len() && ps[j].id == id && p == ps[j] && forall|k: int|
                0 <= k < j ==> ps[k].id != id
    } else {
        is_bare_profile(p, id)
    }
}

/// After the messages before `i` are dealt with, `d` stores message `i`
/// with action `r`, or, past the end of the batch, is finished.
pub open spec fn turns_to(d: DispatchView, r: DispatchAction, i: int) -> bool {
    if i < d.batch.len() {
        &&& d.phase == DispatchPhase::AwaitPersist
        &&& d.current == i
        &&& r matches DispatchAction::Persist { index, record }
        &&& index == i
        &&& record == record_of(d.channel_id, d.sender_id, d.batch[i])
    } else {
        &&& d.phase == DispatchPhase::Finished
        &&& r is Done
    }
}

/// The two states belong to the same batch from the same sender to the same
/// channel.
pub open spec fn same_context(a: DispatchView, b: DispatchView) -> bool {
    &&& a.channel_id == b.channel_id
    &&& a.sender_id == b.sender_id
    &&& a.batch == b.batch
}

impl Dispatch {
    /// The well-formedness of a fan-out: the messages not yet taken up are
    /// exactly the rest of the batch.
    pub closed spec fn wf(&self) -> bool {
        &&& self.batch@.len() <= usize::MAX
        &&& match self.phase {
            DispatchPhase::Idle | DispatchPhase::AwaitMembers | DispatchPhase::AwaitProfiles => {
                self.pending@ == self.batch@
            },
            DispatchPhase::AwaitPersist | DispatchPhase::AwaitDelivery => {
                &&& self.current < self.batch@.len()
                &&& self.pending@ == self.batch@.subrange(self.current + 1, self.batch@.len() as int)
            },
            DispatchPhase::Finished => true,
        }
    }

    /// A fan-out of `msgs` from `sender_id` to `channel_id`, not yet started.
    pub fn new(channel_id: i64, sender_id: i64, msgs: Vec<SendMessageReq>) -> (r: Dispatch)
        ensures
            r.wf(),
            r@.channel_id == channel_id,
            r@.sender_id == sender_id,
            r@.batch == msgs@,
            r@.members.len() == 0,
            r@.phase == DispatchPhase::Idle,
    {
        let n = msgs.len();
        let ghost batch = msgs@;
        assert(batch.len() == n);
        Dispatch {
            channel_id,
            sender_id,
            batch: Ghost(batch),
            pending: msgs,
            current: 0,
            members: Vec::new(),
            sender: SimpleUser::anonymous(sender_id),
            phase: DispatchPhase::Idle,
        }
    }

    /// The phase the fan-out is in.
    pub fn phase(&self) -> (r: DispatchPhase)
        ensures
            r == self@.phase,
    {
        self.phase
    }

    /// Ends the fan-out.
    fn finish(&mut self) -> (r: DispatchAction)
        requires
            old(self).wf(),
        ensures
            final(self)@ == (DispatchView { phase: DispatchPhase::Finished, ..old(self)@ }),
            final(self).wf(),
            r is Done,
    {
        self.phase = DispatchPhase::Finished;
        DispatchAction::Done
    }

    /// Takes up message `i`, the first of those left, or ends the batch.
    fn take_up(&mut self, i: usize) -> (r: DispatchAction)
        requires
            old(self).batch@.len() <= usize::MAX,
            i <= old(self).batch@.len(),
            old(self).pending@ == old(self).batch@.subrange(i as int, old(self).batch@.len() as int),
        ensures
            final(self).wf(),
            same_context(final(self)@, old(self)@),
            final(self)@.members == old(self)@.members,
            final(self)@.sender == old(self)@.sender,
            turns_to(final(self)@, r, i as int),
    {
        if self.pending.len() > 0 {
            let m = self.pending.remove(0);
            self.current = i;
            self.phase = DispatchPhase::AwaitPersist;
            proof {
                assert(self.pending@ =~= self.batch@.subrange(i + 1, self.batch@.len() as int));
            }
            DispatchAction::Persist {
                index: i,
                record: CreateMessage::for_message(self.channel_id, self.sender_id, m),
            }
        } else {
            self.phase = DispatchPhase::Finished;
            DispatchAction::Done
        }
    }

    /// Takes the outcome of the last action and returns the next one.
    pub fn step<C>(&mut self, event: DispatchEvent, registry: &Registry<C>) -> (r: DispatchAction)
        requires
            old(self).wf(),
        ensures
            final(self).wf(),
            same_context(final(self)@, old(self)@),
            old(self)@.phase == DispatchPhase::Idle && event is Start ==> {
                &&& final(self)@.phase == DispatchPhase::AwaitMembers
                &&& r matches DispatchAction::ListMembers { channel_id }
                &&& channel_id == old(self)@.channel_id
            },
            old(self)@.phase == DispatchPhase::AwaitMembers ==> (event matches DispatchEvent::MembersListed(ms) ==> {
                &&& final(self)@.phase == DispatchPhase::AwaitProfiles
                &&& final(self)@.members == ms@
                &&& r matches DispatchAction::GetProfiles { user_ids }
                &&& user_ids@ == ms@
            }),
            old(self)@.phase == DispatchPhase::AwaitMembers && event is MembersFailed ==> {
                &&& final(self)@.phase == DispatchPhase::Finished
                &&& r is Done
            },
            old(self)@.phase == DispatchPhase::AwaitProfiles ==> (event matches DispatchEvent::ProfilesListed(ps) ==> {
                &&& chosen_sender(ps@, old(self)@.sender_id, final(self)@.sender)
                &&& final(self)@.members == old(self)@.members
                &&& turns_to(final(self)@, r, 0)
            }),
            old(self)@.phase == DispatchPhase::AwaitProfiles && event is ProfilesFailed ==> {
                &&& is_bare_profile(final(self)@.sender, old(self)@.sender_id)
                &&& final(self)@.members == old(self)@.members
                &&& turns_to(final(self)@, r, 0)
            },
            old(self)@.phase == DispatchPhase::AwaitPersist ==> (event matches DispatchEvent::Persisted(m) ==> {
                &&& final(self)@ == old(self)@.with_phase(DispatchPhase::AwaitDelivery)
                &&& r matches DispatchAction::Deliver { index, recipients, frame }
                &&& index == old(self)@.current
                &&& recipients@ == online_among(old(self)@.members, registry@)
                &&& frame == frame_of(old(self)@.sender, m)
            }),
            old(self)@.phase == DispatchPhase::AwaitPersist && event is PersistFailed ==> {
                &&& final(self)@.members == old(self)@.members
                &&& final(self)@.sender == old(self)@.sender
                &&& turns_to(final(self)@, r, old(self)@.current + 1)
            },
            old(self)@.phase == DispatchPhase::AwaitDelivery && event is Delivered ==> {
                &&& final(self)@.members == old(self)@.members
                &&& final(self)@.sender == old(self)@.sender
                &&& turns_to(final(self)@, r, old(self)@.current + 1)
            },
            r is Deliver ==> old(self)@.phase == DispatchPhase::AwaitPersist && event is Persisted,
            !expects(old(self)@.phase, event) ==> {
                &&& final(self)@ == old(self)@.with_phase(DispatchPhase::Finished)
                &&& r is Done
            },
    {
        match event {
            DispatchEvent::Start => {
                if self.phase == DispatchPhase::Idle {
                    self.phase = DispatchPhase::AwaitMembers;
                    DispatchAction::ListMembers { channel_id: self.channel_id }
                } else {
                    self.finish()
                }
            },
            DispatchEvent::MembersListed(ms) => {
                if self.phase == DispatchPhase::AwaitMembers {
                    let user_ids = copy_ids(&ms);
                    self.members = ms;
                    self.phase = DispatchPhase::AwaitProfiles;
                    DispatchAction::GetProfiles { user_ids }
                } else {
                    self.finish()
                }
            },
            DispatchEvent::MembersFailed => self.finish(),
            DispatchEvent::ProfilesListed(ps) => {
                if self.phase == DispatchPhase::AwaitProfiles {
                    self.sender = pick_sender(ps, self.sender_id);
                    assert(self.batch@.subrange(0, self.batch@.len() as int) =~= self.batch@);
                    self.take_up(0)
                } else {
                    self.finish()
                }
            },
            DispatchEvent::ProfilesFailed => {
                if self.phase == DispatchPhase::AwaitProfiles {
                    self.sender = SimpleUser::anonymous(self.sender_id);
                    assert(self.batch@.subrange(0, self.batch@.len() as int) =~= self.batch@);
                    self.take_up(0)
                } else {
                    self.finish()
                }
            },
            DispatchEvent::Persisted(m) => {
                if self.phase == DispatchPhase::AwaitPersist {
                    self.phase = DispatchPhase::AwaitDelivery;
                    let recipients = registry.online_members(&self.members);
                    let frame = WebSocketMessage::for_stored(self.sender.duplicate(), m);
                    DispatchAction::Deliver { index: self.current, recipients, frame }
                } else {
                    self.finish()
                }
            },
            DispatchEvent::PersistFailed => {
                if self.phase == DispatchPhase::AwaitPersist {
                    let next = self.current + 1;
                    self.take_up(next)
                } else {
                    self.finish()
                }
            },
            DispatchEvent::Delivered => {
                if self.phase == DispatchPhase::AwaitDelivery {
                    let next = self.current + 1;
                    self.take_up(next)
                } else {
                    self.finish()
                }
            },
        }
    }
}

impl DispatchView {
    /// The same state in another phase.
    pub open spec fn with_phase(self, phase: DispatchPhase) -> DispatchView {
        DispatchView { phase, ..self }
    }
}

/// A copy of a list of identities.
fn copy_ids(ids: &Vec<i64>) -> (r: Vec<i64>)
    ensures
        r@ == ids@,
{
    let mut out: Vec<i64> = Vec::new();
    let mut i: usize = 0;
    while i < ids.len()
        invariant
            i <= ids.len(),
            out@ == ids@.subrange(0, i as int),
        decreases ids.len() - i,
    {
        out.push(ids[i]);
        i = i + 1;
        proof {
            assert(out@ =~= ids@.subrange(0, i as int));
        }
    }
    assert(ids@.subrange(0, ids.len() as int) =~= ids@);
    out
}

/// The profile to show for sender `id`: the first of `ps` with that
/// identity, or the identity alone.
fn pick_sender(profiles: Vec<SimpleUser>, id: i64) -> (r: SimpleUser)
    ensures
        chosen_sender(profiles@, id, r),
{
    let mut ps = profiles;
    let ghost all = ps@;
    let mut j: usize = 0;
    while j < ps.len()
        invariant
            ps@ == all,
            all == profiles@,
            j <= ps.len(),
            forall|k: int| 0 <= k < j ==> ps@[k].id != id,
        decreases ps.len() - j,
    {
        if ps[j].id == id {
            let p = ps.remove(j);
            assert(all[j as int].id == id && p == all[j as int]);
            return p;
        }
        j = j + 1;
    }
    SimpleUser::anonymous(id)
}

} // verus!
