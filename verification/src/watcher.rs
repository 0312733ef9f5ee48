//! The watcher: one tick after another.
//!
//! At each tick the program samples the terminal sessions and then asks the
//! watcher what to do about the link, until the link has been serviced or a
//! connect attempt has left it absent: without a link a connect attempt comes
//! first, and a link is serviced, also one that has just come up. The program
//! hands what it found to the watcher, which reads the graphical signal off the
//! link, fuses the two signals and says whether the action is to be spawned.

use vstd::prelude::*;
use crate::config::Config;
use crate::connect::{ConnectPlan, first_stage};
use crate::fusion::{fire_rule, fuse, trigger_step, EpisodeTrigger};
use crate::link::{
    graphical_idle_after,
    link_after_establish,
    link_after_service,
    ConnectionSupervisor,
    GraphicalIdleLink,
    ServiceReport,
};
use crate::session::SessionSample;

verus! {

/// What the watcher decides at a tick.
#[derive(Clone, Copy, Debug, PartialEq, Eq, Structural)]
pub struct TickDecision {
    /// What the tick read as the graphical idle signal.
    pub graphical_idle: bool,
    /// Whether the fusion rule holds at this tick.
    pub fire: bool,
    /// Whether the action is to be spawned at this tick.
    pub spawn: bool,
}

/// What a tick is to do about the link before the decision is taken.
#[derive(Clone, Copy, Debug, PartialEq, Eq, Structural)]
pub enum TickStep {
    /// There is no link: make a connect attempt.
    Connect,
    /// There is a link: service it and hand in the report.
    Service,
}

/// The state of the watcher across ticks: its configuration, the supervisor of
/// the link, and the debounce of the action.
pub struct Watcher<H> {
    config: Config,
    supervisor: ConnectionSupervisor<H>,
    trigger: EpisodeTrigger,
}

/// What a tick reads as the graphical idle signal: with a report, what the
/// serviced link says; without one, the flag of the link as it stands; and
/// `false` in either case where there is no link.
pub open spec fn tick_reading<H>(link: GraphicalIdleLink<H>, report: Option<ServiceReport>) -> bool {
    match report {
        Some(report) => graphical_idle_after(link, report),
        None => match link {
            GraphicalIdleLink::Linked { handle, idle_flag } => idle_flag,
            GraphicalIdleLink::Unlinked => false,
        },
    }
}

/// The link after a tick.
pub open spec fn tick_link<H>(
    link: GraphicalIdleLink<H>,
    report: Option<ServiceReport>,
) -> GraphicalIdleLink<H> {
    match report {
        Some(report) => link_after_service(link, report),
        None => link,
    }
}

/// What is decided at a tick, from the state before it and what the tick found.
pub open spec fn tick_decision<H>(
    threshold: u64,
    link: GraphicalIdleLink<H>,
    triggered: bool,
    sample: SessionSample,
    report: Option<ServiceReport>,
) -> TickDecision {
    let graphical_idle = tick_reading(link, report);
    let fire = fire_rule(sample, threshold, graphical_idle);
    TickDecision { graphical_idle, fire, spawn: trigger_step(triggered, fire).spawn }
}

impl<H> Watcher<H> {
    /// The configuration that the watcher was started with.
    pub closed spec fn config_spec(&self) -> Config {
        self.config
    }

    /// The link as the supervisor holds it.
    pub closed spec fn link(&self) -> GraphicalIdleLink<H> {
        self.supervisor.link()
    }

    /// Whether the action has been spawned in the idle episode under way.
    pub closed spec fn triggered(&self) -> bool {
        self.trigger.triggered()
    }

    /// A watcher at startup: no link, no episode under way.
    pub fn new(config: Config) -> (watcher: Self)
        ensures
            watcher.config_spec() == config,
            watcher.link() is Unlinked,
            !watcher.triggered(),
    {
        Watcher { config, supervisor: ConnectionSupervisor::new(), trigger: EpisodeTrigger::new() }
    }

    /// The configuration that the watcher was started with.
    pub fn config(&self) -> (config: &Config)
        ensures
            *config == self.config_spec(),
    {
        &self.config
    }

    /// Whether there is a link. Without one, the tick starts with a connect
    /// attempt.
    pub fn is_linked(&self) -> (linked: bool)
        ensures
            linked == (self.link() is Linked),
    {
        self.supervisor.is_linked()
    }

    /// What the tick is to do about the link next: a connect attempt where
    /// there is no link, servicing where there is one.
    pub fn next_step(&self) -> (step: TickStep)
        ensures
            step == if self.link() is Linked {
                TickStep::Service
            } else {
                TickStep::Connect
            },
    {
        if self.supervisor.is_linked() {
            TickStep::Service
        } else {
            TickStep::Connect
        }
    }

    /// Whether the action has been spawned in the idle episode under way.
    pub fn triggered_this_episode(&self) -> (triggered: bool)
        ensures
            triggered == self.triggered(),
    {
        self.trigger.triggered()
    }

    /// Starts a connect attempt for the configured threshold.
    pub fn begin_connect(&self, display_in_environment: bool) -> (plan: ConnectPlan)
        ensures
            plan.stage() == first_stage(display_in_environment),
            plan.threshold() == self.config_spec().idle_threshold,
    {
        ConnectPlan::start(display_in_environment, self.config.idle_threshold)
    }

    /// Takes the connection that a connect attempt has brought up; see
    /// `ConnectionSupervisor::establish`.
    pub fn establish(&mut self, plan: &ConnectPlan, handle: H) -> (established: bool)
        ensures
            final(self).link() == link_after_establish(old(self).link(), plan.stage(), handle),
            established == (old(self).link() is Unlinked && plan.stage() is Complete),
            final(self).config_spec() == old(self).config_spec(),
            final(self).triggered() == old(self).triggered(),
    {
        self.supervisor.establish(plan, handle)
    }

    /// The connection, for the program to service it.
    pub fn handle_mut(&mut self) -> (handle: Option<&mut H>)
        ensures
            old(self).link() is Unlinked ==> handle is None && final(self).link() is Unlinked,
            old(self).link() matches GraphicalIdleLink::Linked { handle: held, idle_flag } ==> {
                &&& handle matches Some(borrowed)
                &&& *borrowed == held
                &&& final(self).link() == (GraphicalIdleLink::Linked {
                    handle: *final(borrowed),
                    idle_flag,
                })
            },
            final(self).config_spec() == old(self).config_spec(),
            final(self).triggered() == old(self).triggered(),
    {
        self.supervisor.handle_mut()
    }

    /// One tick. `sample` is what the session sampler found; `report` is what
    /// servicing the link brought, or `None` where the link was not serviced.
    /// The decision uses the two signals of this tick alone. The link is given
    /// up after the reading where servicing failed, and the debounce flag
    /// follows the fusion rule.
    pub fn tick(&mut self, sample: SessionSample, report: Option<&ServiceReport>) -> (decision:
        TickDecision)
        ensures
            decision == tick_decision(
                old(self).config_spec().idle_threshold,
                old(self).link(),
                old(self).triggered(),
                sample,
                match report {
                    Some(report) => Some(*report),
                    None => None,
                },
            ),
            final(self).link() == tick_link(
                old(self).link(),
                match report {
                    Some(report) => Some(*report),
                    None => None,
                },
            ),
            final(self).triggered() == decision.fire,
            final(self).config_spec() == old(self).config_spec(),
            old(self).link() is Unlinked ==> !decision.fire && !decision.spawn,
            old(self).link() is Unlinked ==> final(self).link() is Unlinked,
    {
        let graphical_idle = match report {
            Some(report) => self.supervisor.service(report),
            None => self.supervisor.graphical_idle(),
        };
        let fire = fuse(sample, self.config.idle_threshold, graphical_idle);
        let spawn = self.trigger.observe(fire);
        TickDecision { graphical_idle, fire, spawn }
    }
}

} // verus!
