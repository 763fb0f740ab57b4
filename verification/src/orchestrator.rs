//! The channel lifecycle as a state machine: which step follows which, what
//! each outside outcome means, and which message is chained to which link.
//!
//! The protocol engine and the store act outside the library; the driver
//! here only decides. The surrounding program performs each returned
//! [`Action`], reports its outcome as an [`Event`], and asks for the next
//! step. No transition may be skipped: an outcome that does not fit the
//! phase aborts the run.

use vstd::prelude::*;

use crate::link::copy_bytes;
use crate::link::Link;

verus! {

/// The kind of channel the author creates or recovers.
#[derive(Debug, Clone, Copy, PartialEq, Eq, Structural)]
pub enum ChannelType {
    MultiBranch,
    SingleBranch,
}

/// Where the run stands. `Announced` and `Recovered` are the two mutually
/// exclusive outcomes of the announcement attempt: a fresh channel, or an
/// existing one whose author state is rebuilt from the store. `Failed` is
/// terminal.
#[derive(Debug, Clone, Copy, PartialEq, Eq, Structural)]
pub enum Phase {
    Uninitialized,
    Announced,
    RecoveryRequested,
    Recovered,
    Synchronized,
    AnnouncementDelivered,
    SubscriptionRequested,
    KeyloadRequested,
    AuthorizedSubscribers,
    Publishing,
    Consuming,
    Idle,
    Failed,
}

/// The outcome of one performed action, as the surrounding program reports
/// it. `AnnounceRefused` means the store signalled that a record already
/// exists at the announcement key — the store must surface that conflict
/// distinguishably; every other announce failure is `Fatal`, never taken
/// for "already exists".
#[derive(Debug)]
pub enum Event {
    AnnounceAccepted,
    AnnounceRefused,
    RecoveryDone,
    SyncDone { count: usize },
    AnnouncementReceived,
    SubscriptionSent { link: Link },
    SubscriptionResult { accepted: bool },
    KeyloadSent { link: Link },
    PacketSent { link: Link },
    MessageYielded { payload: Option<Vec<u8>> },
    NoMoreMessages,
    Fatal,
}

/// What the surrounding program is to do next. Each action is one call on
/// the protocol engine or the end of the run.
#[derive(Debug)]
pub enum Action {
    Announce,
    Recover,
    Sync,
    ReceiveAnnouncement { link: Link },
    SendSubscribe { link: Link },
    ReceiveSubscribe { link: Link },
    SendKeyload { link: Link },
    SendPacket { link: Link, public_part: Vec<u8>, masked_part: Vec<u8> },
    NextMessage,
    Done,
    Abort,
}

/// The payload reported for a consumed message that carries none.
pub open spec fn placeholder() -> Seq<u8> {
    seq![101u8, 109u8, 112u8, 116u8, 121u8]
}

/// The reported form of a consumed message's payload: the payload itself,
/// or the explicit placeholder `empty` where the message carries none —
/// never an error.
pub fn payload_or_placeholder(payload: Option<Vec<u8>>) -> (r: Vec<u8>)
    ensures
        payload matches Some(p) ==> r@ == p@,
        payload is None ==> r@ == placeholder(),
{
    match payload {
        Some(p) => p,
        None => {
            let mut out: Vec<u8> = Vec::new();
            out.push(101);
            out.push(109);
            out.push(112);
            out.push(116);
            out.push(121);
            proof {
                assert(out@ =~= placeholder());
            }
            out
        },
    }
}

/// The event kinds a phase can answer. `Fatal` fits no phase: it always
/// aborts.
pub open spec fn expected(phase: Phase, event: Event) -> bool {
    ||| phase is Uninitialized && (event is AnnounceAccepted || event is AnnounceRefused)
    ||| phase is RecoveryRequested && event is RecoveryDone
    ||| (phase is Announced || phase is Recovered) && event is SyncDone
    ||| phase is Synchronized && event is AnnouncementReceived
    ||| phase is AnnouncementDelivered && event is SubscriptionSent
    ||| phase is SubscriptionRequested && event is SubscriptionResult
    ||| phase is KeyloadRequested && event is KeyloadSent
    ||| (phase is AuthorizedSubscribers || phase is Publishing) && event is PacketSent
    ||| phase is Consuming && (event is MessageYielded || event is NoMoreMessages)
}

/// One run of the channel lifecycle. `payloads` is the publication plan:
/// the masked parts of the signed packets, first chained to the keyload
/// link, each next one to the previous packet's link. `sent` counts the
/// packets confirmed so far; `received` records each consumed payload in
/// the order it was yielded.
#[derive(Debug)]
pub struct Driver {
    pub phase: Phase,
    pub announcement: Link,
    pub channel_type: ChannelType,
    pub payloads: Vec<Vec<u8>>,
    pub sent: usize,
    pub last_link: Link,
    pub is_new: bool,
    pub synced: usize,
    pub subscriber_accepted: bool,
    pub received: Vec<Vec<u8>>,
}

impl Driver {
    /// While a packet is outstanding, its index is within the plan.
    pub open spec fn inv(self) -> bool {
        (self.phase is AuthorizedSubscribers || self.phase is Publishing) ==> self.sent
            < self.payloads.len()
    }

    pub fn new(announcement: Link, channel_type: ChannelType, payloads: Vec<Vec<u8>>) -> (r:
        Driver)
        ensures
            r.phase is Uninitialized,
            r.announcement == announcement,
            r.channel_type == channel_type,
            r.payloads == payloads,
            r.sent == 0,
            r.received@.len() == 0,
            r.inv(),
    {
        let last_link = announcement.clone();
        Driver {
            phase: Phase::Uninitialized,
            announcement,
            channel_type,
            payloads,
            sent: 0,
            last_link,
            is_new: false,
            synced: 0,
            subscriber_accepted: false,
            received: Vec::new(),
        }
    }

    /// The first action of a run: attempt to publish the announcement. The
    /// announcement link is deterministic from the author's identity, so
    /// no network round trip precedes this.
    pub fn start(&self) -> (r: Action)
        requires
            self.phase is Uninitialized,
        ensures
            r is Announce,
    {
        Action::Announce
    }

    /// Advances the run by one reported outcome and says what to do next.
    ///
    /// The contract is the transition table. In particular: the two
    /// announcement outcomes are exclusive — acceptance makes the channel
    /// new, a conflict takes the recovery branch and the announcement is
    /// never re-published (no step returns `Announce`); a subscription
    /// rejection is recorded, not fatal; packet `n` is chained to packet
    /// `n-1`'s link, the first to the keyload link; a consumed message's
    /// payload is recorded in arrival order, a missing one as the
    /// placeholder; an outcome that does not fit the phase, and any fatal
    /// transport failure, aborts the run.
    pub fn step(&mut self, event: Event) -> (r: Action)
        requires
            old(self).inv(),
        ensures
            final(self).inv(),
            final(self).announcement == old(self).announcement,
            final(self).payloads == old(self).payloads,
            final(self).channel_type == old(self).channel_type,
            !(old(self).phase is Uninitialized) ==> final(self).is_new == old(self).is_new,
            !(event is SyncDone) ==> final(self).synced == old(self).synced,
            !(event is SubscriptionResult) ==> final(self).subscriber_accepted == old(self).subscriber_accepted,
            !(event is MessageYielded) ==> final(self).received == old(self).received,
            !(r is Announce),
            old(self).phase is Uninitialized && event is AnnounceAccepted ==> final(self).phase is Announced && final(self).is_new && r is Sync,
            old(self).phase is Uninitialized && event is AnnounceRefused ==> final(self).phase is RecoveryRequested && !final(self).is_new && r is Recover,
            old(self).phase is RecoveryRequested && event is RecoveryDone ==> final(self).phase is Recovered && r is Sync,
            (old(self).phase is Announced || old(self).phase is Recovered) ==> (event matches
                Event::SyncDone { count } ==> final(self).phase is Synchronized && final(self).synced == count && (r matches Action::ReceiveAnnouncement { link }
                && link.app_inst@ == old(self).announcement.app_inst@ && link.msg_id@ == old(self).announcement.msg_id@)),
            old(self).phase is Synchronized && event is AnnouncementReceived ==> final(self).phase is AnnouncementDelivered && (r matches Action::SendSubscribe { link }
                && link.app_inst@ == old(self).announcement.app_inst@ && link.msg_id@ == old(self).announcement.msg_id@),
            old(self).phase is AnnouncementDelivered ==> (event matches Event::SubscriptionSent {
                link,
            } ==> final(self).phase is SubscriptionRequested && (r matches
                Action::ReceiveSubscribe { link: to } && to.app_inst@ == link.app_inst@
                && to.msg_id@ == link.msg_id@)),
            old(self).phase is SubscriptionRequested ==> (event matches Event::SubscriptionResult {
                accepted,
            } ==> final(self).phase is KeyloadRequested && final(self).subscriber_accepted
                == accepted && (r matches Action::SendKeyload { link }
                && link.app_inst@ == old(self).announcement.app_inst@ && link.msg_id@ == old(self).announcement.msg_id@)),
            old(self).phase is KeyloadRequested ==> (event matches Event::KeyloadSent { link }
                ==> final(self).sent == 0 && final(self).last_link.app_inst@ == link.app_inst@
                && final(self).last_link.msg_id@ == link.msg_id@ && (old(self).payloads@.len() > 0
                ==> final(self).phase is AuthorizedSubscribers && (r matches Action::SendPacket {
                link: to,
                public_part,
                masked_part,
            } && to.app_inst@ == link.app_inst@ && to.msg_id@ == link.msg_id@ && public_part@
                == Seq::<u8>::empty() && masked_part@ == old(self).payloads@[0]@)) && (old(self).payloads@.len() == 0 ==> final(self).phase is Consuming && r is NextMessage)),
            (old(self).phase is AuthorizedSubscribers || old(self).phase is Publishing) ==> (
            event matches Event::PacketSent { link } ==> final(self).sent == old(self).sent + 1
                && final(self).last_link.app_inst@ == link.app_inst@ && final(self).last_link.msg_id@ == link.msg_id@ && (old(self).sent + 1 < old(self).payloads@.len()
                ==> final(self).phase is Publishing && (r matches Action::SendPacket {
                link: to,
                public_part,
                masked_part,
            } && to.app_inst@ == link.app_inst@ && to.msg_id@ == link.msg_id@ && public_part@
                == Seq::<u8>::empty() && masked_part@ == old(self).payloads@[old(self).sent + 1]@))
                && (old(self).sent + 1 == old(self).payloads@.len() ==> final(self).phase is Consuming && r is NextMessage)),
            old(self).phase is Consuming ==> (event matches Event::MessageYielded { payload }
                ==> final(self).phase is Consuming && r is NextMessage && final(self).received@
                == old(self).received@.push(final(self).received@.last()) && (payload matches Some(
                p,
            ) ==> final(self).received@.last()@ == p@) && (payload is None ==> final(self).received@.last()@ == placeholder())),
            old(self).phase is Consuming && event is NoMoreMessages ==> final(self).phase is Idle
                && r is Done,
            event is Fatal || !expected(old(self).phase, event) ==> final(self).phase is Failed
                && r is Abort,
    {
        match event {
            Event::AnnounceAccepted => {
                if self.phase == Phase::Uninitialized {
                    self.phase = Phase::Announced;
                    self.is_new = true;
                    Action::Sync
                } else {
                    self.phase = Phase::Failed;
                    Action::Abort
                }
            },
            Event::AnnounceRefused => {
                if self.phase == Phase::Uninitialized {
                    self.phase = Phase::RecoveryRequested;
                    self.is_new = false;
                    Action::Recover
                } else {
                    self.phase = Phase::Failed;
                    Action::Abort
                }
            },
            Event::RecoveryDone => {
                if self.phase == Phase::RecoveryRequested {
                    self.phase = Phase::Recovered;
                    Action::Sync
                } else {
                    self.phase = Phase::Failed;
                    Action::Abort
                }
            },
            Event::SyncDone { count } => {
                if self.phase == Phase::Announced || self.phase == Phase::Recovered {
                    self.phase = Phase::Synchronized;
                    self.synced = count;
                    Action::ReceiveAnnouncement { link: self.announcement.clone() }
                } else {
                    self.phase = Phase::Failed;
                    Action::Abort
                }
            },
            Event::AnnouncementReceived => {
                if self.phase == Phase::Synchronized {
                    self.phase = Phase::AnnouncementDelivered;
                    Action::SendSubscribe { link: self.announcement.clone() }
                } else {
                    self.phase = Phase::Failed;
                    Action::Abort
                }
            },
            Event::SubscriptionSent { link } => {
                if self.phase == Phase::AnnouncementDelivered {
                    self.phase = Phase::SubscriptionRequested;
                    Action::ReceiveSubscribe { link }
                } else {
                    self.phase = Phase::Failed;
                    Action::Abort
                }
            },
            Event::SubscriptionResult { accepted } => {
                if self.phase == Phase::SubscriptionRequested {
                    self.phase = Phase::KeyloadRequested;
                    self.subscriber_accepted = accepted;
                    Action::SendKeyload { link: self.announcement.clone() }
                } else {
                    self.phase = Phase::Failed;
                    Action::Abort
                }
            },
            Event::KeyloadSent { link } => {
                if self.phase == Phase::KeyloadRequested {
                    self.sent = 0;
                    self.last_link = link.clone();
                    if self.payloads.len() > 0 {
                        self.phase = Phase::AuthorizedSubscribers;
                        let masked_part = copy_bytes(&self.payloads[0]);
                        Action::SendPacket { link, public_part: Vec::new(), masked_part }
                    } else {
                        self.phase = Phase::Consuming;
                        Action::NextMessage
                    }
                } else {
                    self.phase = Phase::Failed;
                    Action::Abort
                }
            },
            Event::PacketSent { link } => {
                if self.phase == Phase::AuthorizedSubscribers || self.phase == Phase::Publishing {
                    self.last_link = link.clone();
                    self.sent = self.sent + 1;
                    if self.sent < self.payloads.len() {
                        self.phase = Phase::Publishing;
                        let masked_part = copy_bytes(&self.payloads[self.sent]);
                        Action::SendPacket { link, public_part: Vec::new(), masked_part }
                    } else {
                        self.phase = Phase::Consuming;
                        Action::NextMessage
                    }
                } else {
                    self.phase = Phase::Failed;
                    Action::Abort
                }
            },
            Event::MessageYielded { payload } => {
                if self.phase == Phase::Consuming {
                    let reported = payload_or_placeholder(payload);
                    self.received.push(reported);
                    Action::NextMessage
                } else {
                    self.phase = Phase::Failed;
                    Action::Abort
                }
            },
            Event::NoMoreMessages => {
                if self.phase == Phase::Consuming {
                    self.phase = Phase::Idle;
                    Action::Done
                } else {
                    self.phase = Phase::Failed;
                    Action::Abort
                }
            },
            Event::Fatal => {
                self.phase = Phase::Failed;
                Action::Abort
            },
        }
    }
}

} // verus!
