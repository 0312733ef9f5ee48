//! Bringing up the link to the compositor, stage by stage.
//!
//! A connect attempt resolves the display endpoint, opens the connection, binds
//! the seats and the idle notifier, settles the initial state with a round
//! trip, and subscribes to idle notifications. Each stage can fail on its own,
//! and a failure at any stage ends the attempt. The program performs the work of
//! each stage and reports how it went; the plan decides what comes next.

use vstd::prelude::*;
use vstd::string::*;
use crate::decimal::{append_decimal, decimal_digits};

verus! {

/// The first index of the per-user sockets that are probed for a display.
pub const FIRST_SOCKET_INDEX: u8 = 1;

/// The last index of the per-user sockets that are probed for a display.
pub const LAST_SOCKET_INDEX: u8 = 9;

/// The version of the idle notifier that the link is made for.
pub const NOTIFIER_VERSION: u32 = 1;

/// The longest threshold, in seconds, that a subscription can carry: the
/// compositor takes its timeout in milliseconds, in 32 bits.
pub const MAX_SUBSCRIPTION_SECONDS: u64 = 4294967;

/// Where the display endpoint of an attempt comes from.
#[derive(Clone, Copy, Debug, PartialEq, Eq, Structural)]
pub enum DisplaySource {
    /// The environment names the endpoint.
    Environment,
    /// The per-user socket with this index was found by probing.
    Probed(u8),
}

/// Why a connect attempt ended without a link.
#[derive(Clone, Copy, Debug, PartialEq, Eq, Structural)]
pub enum ConnectFailure {
    /// The environment names no endpoint and none of the probed sockets exists.
    NoDisplayFound,
    /// The connection could not be opened, or the globals not collected.
    OpenFailed,
    /// The seats or the idle notifier could not be bound.
    BindFailed,
    /// The round trip that settles the initial state failed.
    SettleFailed,
    /// The threshold does not fit the timeout of a subscription.
    ThresholdOutOfRange,
    /// The subscription to idle notifications failed.
    SubscribeFailed,
}

/// Where a connect attempt stands. The first five stages name the work that is
/// to be done next; the last two are final.
#[derive(Clone, Copy, Debug, PartialEq, Eq, Structural)]
pub enum ConnectStage {
    /// Look whether the per-user socket with this index exists.
    Probing { index: u8 },
    /// Open the connection to the display and collect the globals.
    Opening { display: DisplaySource },
    /// Bind the seats and the idle notifier.
    Binding,
    /// Make the round trip that settles the initial state.
    Settling,
    /// Subscribe to idle notifications, for each seat, with this timeout in
    /// milliseconds.
    Subscribing { timeout_ms: u32 },
    /// Every stage succeeded: the link can be established.
    Complete,
    /// A stage failed: there is no link.
    Failed(ConnectFailure),
}

/// A connect attempt under way.
#[derive(Clone, Copy, Debug, PartialEq, Eq)]
pub struct ConnectPlan {
    stage: ConnectStage,
    threshold: u64,
}

/// The timeout of a subscription for a threshold in seconds: the threshold in
/// milliseconds, where that fits 32 bits.
pub open spec fn timeout_millis_spec(threshold: u64) -> Option<u32> {
    if threshold * 1000 <= u32::MAX {
        Some((threshold * 1000) as u32)
    } else {
        None
    }
}

/// The stage at which an attempt starts: with the endpoint that the
/// environment names, or else with the first socket to probe.
pub open spec fn first_stage(display_in_environment: bool) -> ConnectStage {
    if display_in_environment {
        ConnectStage::Opening { display: DisplaySource::Environment }
    } else {
        ConnectStage::Probing { index: FIRST_SOCKET_INDEX }
    }
}

/// The stage that follows `stage` once its work has been done, with success
/// (`done`) or without. A socket that is not there sends the probe on to the
/// next index, and past the last index no display is found. Any other work that
/// fails ends the attempt. The final stages stay as they are.
pub open spec fn next_stage(stage: ConnectStage, threshold: u64, done: bool) -> ConnectStage {
    match stage {
        ConnectStage::Probing { index } => if done {
            ConnectStage::Opening { display: DisplaySource::Probed(index) }
        } else if index < LAST_SOCKET_INDEX {
            ConnectStage::Probing { index: (index + 1) as u8 }
        } else {
            ConnectStage::Failed(ConnectFailure::NoDisplayFound)
        },
        ConnectStage::Opening { display } => if done {
            ConnectStage::Binding
        } else {
            ConnectStage::Failed(ConnectFailure::OpenFailed)
        },
        ConnectStage::Binding => if done {
            ConnectStage::Settling
        } else {
            ConnectStage::Failed(ConnectFailure::BindFailed)
        },
        ConnectStage::Settling => if !done {
            ConnectStage::Failed(ConnectFailure::SettleFailed)
        } else {
            match timeout_millis_spec(threshold) {
                Some(timeout_ms) => ConnectStage::Subscribing { timeout_ms },
                None => ConnectStage::Failed(ConnectFailure::ThresholdOutOfRange),
            }
        },
        ConnectStage::Subscribing { timeout_ms } => if done {
            ConnectStage::Complete
        } else {
            ConnectStage::Failed(ConnectFailure::SubscribeFailed)
        },
        ConnectStage::Complete => ConnectStage::Complete,
        ConnectStage::Failed(failure) => ConnectStage::Failed(failure),
    }
}

/// The stage reached from `stage` after a run of reports, the first report
/// being that of `stage` itself.
pub open spec fn stage_after(stage: ConnectStage, threshold: u64, reports: Seq<bool>) -> ConnectStage
    decreases reports.len(),
{
    if reports.len() == 0 {
        stage
    } else {
        stage_after(next_stage(stage, threshold, reports[0]), threshold, reports.drop_first())
    }
}

/// The name of the display behind the per-user socket with an index.
pub open spec fn display_name_spec(index: u8) -> Seq<char> {
    "wayland-"@ + decimal_digits(index as nat)
}

/// The runtime directory of a user, with the separator that ends it.
pub open spec fn runtime_directory_spec(uid: u32) -> Seq<char> {
    "/var/run/user/"@ + decimal_digits(uid as nat) + "/"@
}

/// The path of the per-user socket with an index.
pub open spec fn socket_path_spec(uid: u32, index: u8) -> Seq<char> {
    runtime_directory_spec(uid) + display_name_spec(index)
}

/// The timeout of a subscription for a threshold in seconds, in milliseconds;
/// `None` where the threshold is too long for a subscription to carry.
pub fn timeout_millis(threshold: u64) -> (timeout_ms: Option<u32>)
    ensures
        timeout_ms == timeout_millis_spec(threshold),
        timeout_ms is Some <==> threshold <= MAX_SUBSCRIPTION_SECONDS,
{
    if threshold <= MAX_SUBSCRIPTION_SECONDS {
        Some((threshold * 1000) as u32)
    } else {
        None
    }
}

/// The name of the display behind the per-user socket with an index, by which
/// the connection is then opened.
pub fn display_name(index: u8) -> (name: String)
    ensures
        name@ == display_name_spec(index),
{
    let mut name = String::from_str("wayland-");
    append_decimal(&mut name, index as u64);
    name
}

/// The path at which the per-user socket with an index is looked for, under the
/// runtime directory of the user `uid`.
pub fn socket_path(uid: u32, index: u8) -> (path: String)
    ensures
        path@ == socket_path_spec(uid, index),
{
    let mut path = String::from_str("/var/run/user/");
    append_decimal(&mut path, uid as u64);
    path.append("/");
    let name = display_name(index);
    path.append(name.as_str());
    path
}

impl ConnectStage {
    /// Whether the attempt has ended, with a link to establish or without.
    pub open spec fn is_final_spec(self) -> bool {
        self is Complete || self is Failed
    }

    #[verifier::when_used_as_spec(is_final_spec)]
    pub fn is_final(self) -> (ended: bool)
        ensures
            ended == self.is_final_spec(),
    {
        match self {
            ConnectStage::Complete => true,
            ConnectStage::Failed(_) => true,
            _ => false,
        }
    }

    /// The stage that follows this one once its work has been reported.
    pub fn next(self, threshold: u64, done: bool) -> (following: ConnectStage)
        ensures
            following == next_stage(self, threshold, done),
    {
        match self {
            ConnectStage::Probing { index } => {
                if done {
                    ConnectStage::Opening { display: DisplaySource::Probed(index) }
                } else if index < LAST_SOCKET_INDEX {
                    ConnectStage::Probing { index: index + 1 }
                } else {
                    ConnectStage::Failed(ConnectFailure::NoDisplayFound)
                }
            },
            ConnectStage::Opening { .. } => {
                if done {
                    ConnectStage::Binding
                } else {
                    ConnectStage::Failed(ConnectFailure::OpenFailed)
                }
            },
            ConnectStage::Binding => {
                if done {
                    ConnectStage::Settling
                } else {
                    ConnectStage::Failed(ConnectFailure::BindFailed)
                }
            },
            ConnectStage::Settling => {
                if !done {
                    ConnectStage::Failed(ConnectFailure::SettleFailed)
                } else {
                    match timeout_millis(threshold) {
                        Some(timeout_ms) => ConnectStage::Subscribing { timeout_ms },
                        None => ConnectStage::Failed(ConnectFailure::ThresholdOutOfRange),
                    }
                }
            },
            ConnectStage::Subscribing { .. } => {
                if done {
                    ConnectStage::Complete
                } else {
                    ConnectStage::Failed(ConnectFailure::SubscribeFailed)
                }
            },
            ConnectStage::Complete => ConnectStage::Complete,
            ConnectStage::Failed(failure) => ConnectStage::Failed(failure),
        }
    }
}

impl ConnectPlan {
    /// The stage at which the attempt stands.
    pub closed spec fn stage_spec(self) -> ConnectStage {
        self.stage
    }

    /// The idle threshold, in seconds, that the subscription is to carry.
    pub closed spec fn threshold_spec(self) -> u64 {
        self.threshold
    }

    /// Starts an attempt. `display_in_environment` says whether the environment
    /// names a display endpoint; `threshold` is the idle threshold in seconds.
    pub fn start(display_in_environment: bool, threshold: u64) -> (plan: Self)
        ensures
            plan.stage() == first_stage(display_in_environment),
            plan.threshold() == threshold,
    {
        let stage = if display_in_environment {
            ConnectStage::Opening { display: DisplaySource::Environment }
        } else {
            ConnectStage::Probing { index: FIRST_SOCKET_INDEX }
        };
        ConnectPlan { stage, threshold }
    }

    #[verifier::when_used_as_spec(stage_spec)]
    pub fn stage(self) -> (stage: ConnectStage)
        ensures
            stage == self.stage_spec(),
    {
        self.stage
    }

    #[verifier::when_used_as_spec(threshold_spec)]
    pub fn threshold(self) -> (threshold: u64)
        ensures
            threshold == self.threshold_spec(),
    {
        self.threshold
    }

    /// Takes in how the work of the current stage went and moves on.
    pub fn advance(&mut self, done: bool)
        ensures
            final(self).stage() == next_stage(old(self).stage(), old(self).threshold(), done),
            final(self).threshold() == old(self).threshold(),
    {
        self.stage = self.stage.next(self.threshold, done);
    }

    /// Whether every stage has succeeded.
    pub fn is_complete(self) -> (complete: bool)
        ensures
            complete == (self.stage() is Complete),
    {
        match self.stage {
            ConnectStage::Complete => true,
            _ => false,
        }
    }

    /// Why the attempt ended without a link, if it did.
    pub fn failure(self) -> (failure: Option<ConnectFailure>)
        ensures
            failure == match self.stage() {
                ConnectStage::Failed(reason) => Some(reason),
                _ => None,
            },
    {
        match self.stage {
            ConnectStage::Failed(reason) => Some(reason),
            _ => None,
        }
    }
}

/// A final stage stays what it is, whatever is reported after it: an attempt
/// that has failed never comes to a link, and one that is complete stays so.
pub proof fn lemma_final_stage_stays(stage: ConnectStage, threshold: u64, reports: Seq<bool>)
    requires
        stage.is_final(),
    ensures
        stage_after(stage, threshold, reports) == stage,
    decreases reports.len(),
{
    if reports.len() > 0 {
        lemma_final_stage_stays(stage, threshold, reports.drop_first());
    }
}

/// Reports can be taken in one run or in two.
pub proof fn lemma_stage_after_split(
    stage: ConnectStage,
    threshold: u64,
    reports: Seq<bool>,
    len: int,
)
    requires
        0 <= len <= reports.len(),
    ensures
        stage_after(stage, threshold, reports) == stage_after(
            stage_after(stage, threshold, reports.take(len)),
            threshold,
            reports.skip(len),
        ),
    decreases len,
{
    if len == 0 {
        assert(reports.skip(0) =~= reports);
    } else {
        let following = next_stage(stage, threshold, reports[0]);
        lemma_stage_after_split(following, threshold, reports.drop_first(), len - 1);
        assert(reports.take(len).drop_first() =~= reports.drop_first().take(len - 1));
        assert(reports.drop_first().skip(len - 1) =~= reports.skip(len));
    }
}

/// Once the display is resolved, four stages that succeed make the attempt
/// complete, provided that the threshold fits a subscription.
pub proof fn lemma_every_stage_done_completes(display: DisplaySource, threshold: u64)
    requires
        threshold <= MAX_SUBSCRIPTION_SECONDS,
    ensures
        stage_after(ConnectStage::Opening { display }, threshold, seq![true, true, true, true])
            == ConnectStage::Complete,
        stage_after(first_stage(true), threshold, seq![true, true, true, true])
            == ConnectStage::Complete,
{
    let reports = seq![true, true, true, true];
    reveal_with_fuel(stage_after, 5);
    assert(reports.drop_first() =~= seq![true, true, true]);
    assert(reports.drop_first().drop_first() =~= seq![true, true]);
    assert(reports.drop_first().drop_first().drop_first() =~= seq![true]);
    assert(reports.drop_first().drop_first().drop_first().drop_first() =~= Seq::<bool>::empty());
}

/// A failure ends the attempt: where the work of a stage other than a probe is
/// reported as failed, the attempt ends without a link, whatever succeeded
/// before that stage and whatever is reported after it.
pub proof fn lemma_failed_stage_ends_attempt(
    display_in_environment: bool,
    threshold: u64,
    reports: Seq<bool>,
    failing: int,
)
    requires
        0 <= failing < reports.len(),
        !reports[failing],
        !stage_after(first_stage(display_in_environment), threshold, reports.take(failing))
            .is_final(),
        !(stage_after(first_stage(display_in_environment), threshold, reports.take(failing))
            is Probing),
    ensures
        stage_after(first_stage(display_in_environment), threshold, reports) is Failed,
{
    let start = first_stage(display_in_environment);
    let before = stage_after(start, threshold, reports.take(failing));
    let rest = reports.skip(failing);
    lemma_stage_after_split(start, threshold, reports, failing);
    assert(rest[0] == reports[failing]);
    let failed = next_stage(before, threshold, rest[0]);
    lemma_final_stage_stays(failed, threshold, rest.drop_first());
}

/// The probe takes the first socket that exists: where the sockets before
/// index `found` are missing and that one is there, the connection is opened
/// on it.
pub proof fn lemma_probe_takes_first_socket(threshold: u64, reports: Seq<bool>, found: int)
    requires
        FIRST_SOCKET_INDEX <= found <= LAST_SOCKET_INDEX,
        reports.len() == found,
        forall|i: int| 0 <= i < found - 1 ==> !reports[i],
        reports[found - 1],
    ensures
        stage_after(first_stage(false), threshold, reports) == (ConnectStage::Opening {
            display: DisplaySource::Probed(found as u8),
        }),
{
    lemma_probe_passes_missing_sockets(threshold, reports.take(found - 1), found - 1);
    lemma_stage_after_split(first_stage(false), threshold, reports, found - 1);
    let rest = reports.skip(found - 1);
    assert(rest[0]);
    assert(rest.drop_first() =~= Seq::<bool>::empty());
    reveal_with_fuel(stage_after, 2);
}

/// While sockets are missing the probe moves from index to index.
pub proof fn lemma_probe_passes_missing_sockets(threshold: u64, reports: Seq<bool>, missing: int)
    requires
        0 <= missing < LAST_SOCKET_INDEX,
        reports.len() == missing,
        forall|i: int| 0 <= i < missing ==> !reports[i],
    ensures
        stage_after(first_stage(false), threshold, reports) == (ConnectStage::Probing {
            index: (FIRST_SOCKET_INDEX + missing) as u8,
        }),
    decreases missing,
{
    if missing > 0 {
        lemma_probe_passes_missing_sockets(threshold, reports.take(missing - 1), missing - 1);
        lemma_stage_after_split(first_stage(false), threshold, reports, missing - 1);
        let rest = reports.skip(missing - 1);
        assert(!rest[0]);
        assert(rest.drop_first() =~= Seq::<bool>::empty());
        reveal_with_fuel(stage_after, 2);
    }
}

/// With no endpoint in the environment and no socket at any probed index, the
/// attempt ends with no display found, whatever is reported after the probes.
pub proof fn lemma_no_socket_no_display(threshold: u64, reports: Seq<bool>)
    requires
        reports.len() >= LAST_SOCKET_INDEX,
        forall|i: int| 0 <= i < LAST_SOCKET_INDEX ==> !reports[i],
    ensures
        stage_after(first_stage(false), threshold, reports) == ConnectStage::Failed(
            ConnectFailure::NoDisplayFound,
        ),
{
    let probes = reports.take(LAST_SOCKET_INDEX as int);
    lemma_probe_passes_missing_sockets(threshold, probes.take(8), 8);
    lemma_stage_after_split(first_stage(false), threshold, probes, 8);
    let last = probes.skip(8);
    assert(!last[0]);
    assert(last.drop_first() =~= Seq::<bool>::empty());
    reveal_with_fuel(stage_after, 2);
    lemma_stage_after_split(first_stage(false), threshold, reports, LAST_SOCKET_INDEX as int);
    lemma_final_stage_stays(
        ConnectStage::Failed(ConnectFailure::NoDisplayFound),
        threshold,
        reports.skip(LAST_SOCKET_INDEX as int),
    );
}

} // verus!
