//! The fusion rule and the debounce of the action.
//!
//! Each tick yields two signals: the sample of the terminal sessions and the
//! idle flag of the graphical session. The fusion rule says whether the action
//! is due; the episode trigger sees to it that the action is spawned once for
//! each idle episode, at the episode's first tick.

use vstd::prelude::*;
use crate::session::SessionSample;

verus! {

/// The fusion rule: the action is due when the terminals have been idle for
/// longer than the threshold and the compositor reports idleness as well.
/// Neither signal is enough alone.
pub open spec fn fire_rule(sample: SessionSample, threshold: u64, graphical_idle: bool) -> bool {
    sample.exceeds(threshold) && graphical_idle
}

/// Applies the fusion rule to the two signals of one tick.
pub fn fuse(sample: SessionSample, threshold: u64, graphical_idle: bool) -> (fire: bool)
    ensures
        fire == fire_rule(sample, threshold, graphical_idle),
        !sample.exceeds(threshold) ==> !fire,
        sample.exceeds(threshold) && !graphical_idle ==> !fire,
        sample.exceeds(threshold) && graphical_idle ==> fire,
{
    sample.exceeds(threshold) && graphical_idle
}

/// An unavailable sample leaves the decision to the graphical signal: whatever
/// the threshold, the action is due exactly when the compositor reports
/// idleness.
pub proof fn lemma_unavailable_sample_defers_to_graphical(threshold: u64, graphical_idle: bool)
    ensures
        SessionSample::Unavailable.exceeds(threshold),
        fire_rule(SessionSample::Unavailable, threshold, graphical_idle) == graphical_idle,
{
}

/// The debounce of the action: remembers whether the action has been spawned
/// in the idle episode that is under way.
#[derive(Clone, Copy, Debug, PartialEq, Eq)]
pub struct EpisodeTrigger {
    triggered_this_episode: bool,
}

/// What the trigger decides at one tick.
#[derive(Clone, Copy, Debug, PartialEq, Eq, Structural)]
pub struct TriggerStep {
    /// Whether the action has been spawned in the episode under way, after this
    /// tick.
    pub triggered: bool,
    /// Whether the action is to be spawned at this tick.
    pub spawn: bool,
}

/// One tick of the debounce. The action is spawned when it is due and has not
/// been spawned in this episode; the flag follows the fusion rule, so that the
/// end of an episode clears it.
pub open spec fn trigger_step(triggered: bool, fire: bool) -> TriggerStep {
    TriggerStep { triggered: fire, spawn: fire && !triggered }
}

/// The flag after a run of ticks that starts with the flag cleared; `fires`
/// holds what the fusion rule said at each tick.
pub open spec fn triggered_after(fires: Seq<bool>) -> bool
    decreases fires.len(),
{
    if fires.len() == 0 {
        false
    } else {
        trigger_step(triggered_after(fires.drop_last()), fires.last()).triggered
    }
}

/// Whether the action is spawned at tick `i` of a run that starts with the flag
/// cleared.
pub open spec fn spawned_at(fires: Seq<bool>, i: int) -> bool
    recommends
        0 <= i < fires.len(),
{
    trigger_step(triggered_after(fires.take(i)), fires[i]).spawn
}

impl EpisodeTrigger {
    /// Whether the action has been spawned in the episode under way.
    pub closed spec fn triggered_spec(self) -> bool {
        self.triggered_this_episode
    }

    /// A trigger at startup: no episode is under way.
    pub fn new() -> (trigger: Self)
        ensures
            !trigger.triggered(),
    {
        EpisodeTrigger { triggered_this_episode: false }
    }

    #[verifier::when_used_as_spec(triggered_spec)]
    pub fn triggered(self) -> (flag: bool)
        ensures
            flag == self.triggered_spec(),
    {
        self.triggered_this_episode
    }

    /// Takes in what the fusion rule said at this tick and says whether the
    /// action is to be spawned now.
    pub fn observe(&mut self, fire: bool) -> (spawn: bool)
        ensures
            spawn == trigger_step(old(self).triggered(), fire).spawn,
            final(self).triggered() == trigger_step(old(self).triggered(), fire).triggered,
    {
        let spawn = fire && !self.triggered_this_episode;
        self.triggered_this_episode = fire;
        spawn
    }
}

/// After any run of ticks the flag says what the fusion rule said at the last
/// of them.
pub proof fn lemma_flag_follows_fire(fires: Seq<bool>)
    ensures
        triggered_after(fires) == (fires.len() > 0 && fires.last()),
{
}

/// The action is spawned at the first tick of each idle episode and at no
/// other: at a tick where the action is due and was not due the tick before.
pub proof fn lemma_spawn_at_episode_start(fires: Seq<bool>, i: int)
    requires
        0 <= i < fires.len(),
    ensures
        spawned_at(fires, i) == (fires[i] && (i == 0 || !fires[i - 1])),
{
    lemma_flag_follows_fire(fires.take(i));
}

/// No idle episode sees the action spawned twice: between two ticks that spawn
/// it lies a tick at which it was not due, and there the flag was cleared.
pub proof fn lemma_one_spawn_per_episode(fires: Seq<bool>, i: int, j: int)
    requires
        0 <= i < j < fires.len(),
        spawned_at(fires, i),
        spawned_at(fires, j),
    ensures
        !fires[j - 1],
        i < j - 1,
        !triggered_after(fires.take(j)),
{
    lemma_spawn_at_episode_start(fires, i);
    lemma_spawn_at_episode_start(fires, j);
    lemma_flag_follows_fire(fires.take(j));
}

/// While the action stays due the flag stays set and nothing more is spawned.
pub proof fn lemma_no_respawn_within_episode(fires: Seq<bool>, i: int, j: int)
    requires
        0 <= i < j < fires.len(),
        forall|k: int| i <= k <= j ==> fires[k],
    ensures
        !spawned_at(fires, j),
        triggered_after(fires.take(j + 1)),
{
    lemma_spawn_at_episode_start(fires, j);
    lemma_flag_follows_fire(fires.take(j + 1));
}

} // verus!
