//! The graphical idle link and the supervisor that owns it.
//!
//! The link is either absent or holds the connection to the compositor together
//! with the idle flag that the compositor's notifications keep up to date. The
//! supervisor is the only owner of the link and the only place where its state
//! changes: a link comes into being when a connect attempt is complete, its flag
//! follows the events that were dispatched while it was serviced, and it is
//! given up, connection and all, when servicing it fails.

use vstd::prelude::*;
use crate::connect::{ConnectPlan, ConnectStage};

verus! {

/// A notification of the compositor's idle notifier.
#[derive(Clone, Copy, Debug, PartialEq, Eq, Structural)]
pub enum IdleEvent {
    /// The user has been idle for the subscribed timeout.
    Idled,
    /// The user is active again.
    Resumed,
    /// An event that this library does not know; it is passed over.
    Unknown,
}

/// How a non-blocking operation on the connection went.
#[derive(Clone, Copy, Debug, PartialEq, Eq, Structural)]
pub enum IoOutcome {
    /// The operation was carried out.
    Done,
    /// The operation would have had to wait; nothing is wrong.
    WouldBlock,
    /// The operation failed: the connection is of no more use.
    Failed,
}

/// What servicing the link brought at one tick: how flushing the pending
/// requests and receiving the pending events went, and the notifications that
/// were dispatched, in their order.
#[derive(Debug, PartialEq, Eq)]
pub struct ServiceReport {
    pub flush: IoOutcome,
    pub receive: IoOutcome,
    pub events: Vec<IdleEvent>,
}

/// The link to the compositor's idle notifier. `H` is the connection, with
/// whatever belongs to it.
pub enum GraphicalIdleLink<H> {
    /// There is no connection.
    Unlinked,
    /// The connection is up; `idle_flag` is what the compositor last reported.
    Linked { handle: H, idle_flag: bool },
}

/// The owner of the link.
pub struct ConnectionSupervisor<H> {
    link: GraphicalIdleLink<H>,
}

/// The idle flag after one notification.
pub open spec fn flag_after_event(flag: bool, event: IdleEvent) -> bool {
    match event {
        IdleEvent::Idled => true,
        IdleEvent::Resumed => false,
        IdleEvent::Unknown => flag,
    }
}

/// The idle flag after a run of notifications, taken in their order.
pub open spec fn flag_after_events(flag: bool, events: Seq<IdleEvent>) -> bool
    decreases events.len(),
{
    if events.len() == 0 {
        flag
    } else {
        flag_after_event(flag_after_events(flag, events.drop_last()), events.last())
    }
}

/// Whether servicing failed beyond recovery: flushing or receiving failed
/// otherwise than by having to wait.
pub open spec fn unrecoverable_spec(flush: IoOutcome, receive: IoOutcome) -> bool {
    flush is Failed || receive is Failed
}

/// What a tick reads as the graphical idle signal from a link that has just
/// been serviced, or that could not be: the flag after the dispatched events
/// where there is a link, and `false` where there is none.
pub open spec fn graphical_idle_after<H>(link: GraphicalIdleLink<H>, report: ServiceReport) -> bool {
    match link {
        GraphicalIdleLink::Unlinked => false,
        GraphicalIdleLink::Linked { handle, idle_flag } => flag_after_events(
            idle_flag,
            report.events@,
        ),
    }
}

/// The link after it has been serviced: gone where servicing failed beyond
/// recovery, and else the same connection with the flag brought up to date.
pub open spec fn link_after_service<H>(
    link: GraphicalIdleLink<H>,
    report: ServiceReport,
) -> GraphicalIdleLink<H> {
    match link {
        GraphicalIdleLink::Unlinked => GraphicalIdleLink::Unlinked,
        GraphicalIdleLink::Linked { handle, idle_flag } => if unrecoverable_spec(
            report.flush,
            report.receive,
        ) {
            GraphicalIdleLink::Unlinked
        } else {
            GraphicalIdleLink::Linked {
                handle,
                idle_flag: flag_after_events(idle_flag, report.events@),
            }
        },
    }
}

/// The link after a connect attempt has handed over its connection: a new link
/// with the flag cleared where there was none and the attempt is complete;
/// else the link as it was.
pub open spec fn link_after_establish<H>(
    link: GraphicalIdleLink<H>,
    stage: ConnectStage,
    handle: H,
) -> GraphicalIdleLink<H> {
    if link is Unlinked && stage is Complete {
        GraphicalIdleLink::Linked { handle, idle_flag: false }
    } else {
        link
    }
}

impl IdleEvent {
    /// The idle flag after this notification.
    pub fn apply(self, flag: bool) -> (updated: bool)
        ensures
            updated == flag_after_event(flag, self),
    {
        match self {
            IdleEvent::Idled => true,
            IdleEvent::Resumed => false,
            IdleEvent::Unknown => flag,
        }
    }
}

impl ServiceReport {
    /// Whether servicing failed beyond recovery.
    pub fn unrecoverable(&self) -> (lost: bool)
        ensures
            lost == unrecoverable_spec(self.flush, self.receive),
    {
        let flush_failed = match self.flush {
            IoOutcome::Failed => true,
            _ => false,
        };
        let receive_failed = match self.receive {
            IoOutcome::Failed => true,
            _ => false,
        };
        flush_failed || receive_failed
    }

    /// The idle flag after the notifications of this report.
    pub fn flag_after(&self, flag: bool) -> (updated: bool)
        ensures
            updated == flag_after_events(flag, self.events@),
    {
        let mut updated = flag;
        let mut k: usize = 0;
        assert(self.events@.take(0) =~= Seq::<IdleEvent>::empty());
        while k < self.events.len()
            invariant
                k <= self.events.len(),
                updated == flag_after_events(flag, self.events@.take(k as int)),
            decreases self.events.len() - k,
        {
            assert(self.events@.take(k + 1).drop_last() =~= self.events@.take(k as int));
            updated = self.events[k].apply(updated);
            k += 1;
        }
        assert(self.events@.take(k as int) =~= self.events@);
        updated
    }
}

impl<H> ConnectionSupervisor<H> {
    /// The link that the supervisor owns.
    pub closed spec fn link(&self) -> GraphicalIdleLink<H> {
        self.link
    }

    /// A supervisor at startup: there is no link.
    pub fn new() -> (supervisor: Self)
        ensures
            supervisor.link() is Unlinked,
    {
        ConnectionSupervisor { link: GraphicalIdleLink::Unlinked }
    }

    /// Whether there is a link.
    pub fn is_linked(&self) -> (linked: bool)
        ensures
            linked == (self.link() is Linked),
    {
        match &self.link {
            GraphicalIdleLink::Linked { .. } => true,
            GraphicalIdleLink::Unlinked => false,
        }
    }

    /// The idle flag of the link, where there is one.
    pub fn idle_flag(&self) -> (flag: Option<bool>)
        ensures
            flag == match self.link() {
                GraphicalIdleLink::Linked { handle, idle_flag } => Some(idle_flag),
                GraphicalIdleLink::Unlinked => None,
            },
    {
        match &self.link {
            GraphicalIdleLink::Linked { idle_flag, .. } => Some(*idle_flag),
            GraphicalIdleLink::Unlinked => None,
        }
    }

    /// The connection, for the program to service it. What the program does to
    /// the connection leaves the state of the link and its flag as they are.
    pub fn handle_mut(&mut self) -> (handle: Option<&mut H>)
        ensures
            old(self).link() is Unlinked ==> handle is None && final(self).link() is Unlinked,
            old(self).link() matches GraphicalIdleLink::Linked { handle: held, idle_flag } ==> {
                &&& handle matches Some(borrowed)
                &&& *borrowed == held
                &&& final(self).link() == (GraphicalIdleLink::Linked {
                    handle: *final(borrowed),
                    idle_flag,
                })
            },
    {
        match &mut self.link {
            GraphicalIdleLink::Linked { handle, .. } => Some(handle),
            GraphicalIdleLink::Unlinked => None,
        }
    }

    /// Takes the connection that a connect attempt has brought up. A link comes
    /// into being only where there is none yet and every stage of the attempt
    /// has succeeded; otherwise the connection is given up and nothing changes.
    /// Says whether the link was established.
    pub fn establish(&mut self, plan: &ConnectPlan, handle: H) -> (established: bool)
        ensures
            final(self).link() == link_after_establish(old(self).link(), plan.stage(), handle),
            established == (old(self).link() is Unlinked && plan.stage() is Complete),
    {
        if !self.is_linked() && plan.is_complete() {
            self.link = GraphicalIdleLink::Linked { handle, idle_flag: false };
            true
        } else {
            false
        }
    }

    /// Takes in what servicing the link brought and says what this tick reads
    /// as the graphical idle signal. The flag follows the dispatched events;
    /// a failure beyond recovery ends the link after this reading. Without a
    /// link the reading is `false`.
    pub fn service(&mut self, report: &ServiceReport) -> (graphical_idle: bool)
        ensures
            graphical_idle == graphical_idle_after(old(self).link(), *report),
            final(self).link() == link_after_service(old(self).link(), *report),
    {
        match self.idle_flag() {
            None => false,
            Some(flag) => {
                let updated = report.flag_after(flag);
                if report.unrecoverable() {
                    self.link = GraphicalIdleLink::Unlinked;
                } else {
                    self.set_flag(updated);
                }
                updated
            },
        }
    }

    /// What a tick reads as the graphical idle signal when the link is not
    /// serviced: the flag as it stands, and `false` without a link.
    pub fn graphical_idle(&self) -> (graphical_idle: bool)
        ensures
            graphical_idle == match self.link() {
                GraphicalIdleLink::Linked { handle, idle_flag } => idle_flag,
                GraphicalIdleLink::Unlinked => false,
            },
    {
        match &self.link {
            GraphicalIdleLink::Linked { idle_flag, .. } => *idle_flag,
            GraphicalIdleLink::Unlinked => false,
        }
    }

    fn set_flag(&mut self, flag: bool)
        ensures
            final(self).link() == match old(self).link() {
                GraphicalIdleLink::Linked { handle, idle_flag } => GraphicalIdleLink::Linked {
                    handle,
                    idle_flag: flag,
                },
                GraphicalIdleLink::Unlinked => GraphicalIdleLink::Unlinked,
            },
    {
        match &mut self.link {
            GraphicalIdleLink::Linked { idle_flag, .. } => {
                *idle_flag = flag;
            },
            GraphicalIdleLink::Unlinked => {},
        }
    }
}

/// A link comes from a complete attempt only: handing over a connection makes
/// a link where there was none exactly when every stage of the attempt has
/// succeeded, and the new link holds that connection with the flag cleared.
pub proof fn lemma_link_only_from_complete_attempt<H>(stage: ConnectStage, handle: H)
    ensures
        link_after_establish(GraphicalIdleLink::<H>::Unlinked, stage, handle) is Linked <==> stage
            is Complete,
        stage is Complete ==> link_after_establish(GraphicalIdleLink::<H>::Unlinked, stage, handle)
            == (GraphicalIdleLink::Linked { handle, idle_flag: false }),
{
}

/// The last notification that is known decides the flag: after a run that ends
/// in `Idled` the flag is set, after one that ends in `Resumed` it is cleared,
/// and unknown events at the end change nothing.
pub proof fn lemma_last_known_event_decides(flag: bool, events: Seq<IdleEvent>)
    requires
        events.len() > 0,
    ensures
        events.last() is Idled ==> flag_after_events(flag, events),
        events.last() is Resumed ==> !flag_after_events(flag, events),
        events.last() is Unknown ==> flag_after_events(flag, events) == flag_after_events(
            flag,
            events.drop_last(),
        ),
{
}

/// Having to wait is no failure: a link that is serviced without a failure of
/// flushing or receiving stays, with the same connection.
pub proof fn lemma_would_block_keeps_link<H>(link: GraphicalIdleLink<H>, report: ServiceReport)
    requires
        link is Linked,
        !(report.flush is Failed),
        !(report.receive is Failed),
    ensures
        link_after_service(link, report) is Linked,
        link_after_service(link, report)->handle == link->handle,
        report.events@.len() == 0 ==> link_after_service(link, report) == link,
{
}

/// A failure of receiving, or of flushing, ends the link, and with it the
/// connection; the reading of that tick is still the last flag known.
pub proof fn lemma_failure_ends_link<H>(link: GraphicalIdleLink<H>, report: ServiceReport)
    requires
        link is Linked,
        report.flush is Failed || report.receive is Failed,
    ensures
        link_after_service(link, report) is Unlinked,
        graphical_idle_after(link, report) == flag_after_events(link->idle_flag, report.events@),
        graphical_idle_after(link_after_service(link, report), report) == false,
{
}

} // verus!
