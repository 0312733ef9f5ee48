//! The session idle sampler: many login sessions reduced to one idle duration.
//!
//! The program reads the login-session table and the last-access time of each
//! session's terminal device; this module says which records qualify, where
//! their devices are, and how the readings are reduced to one sample.

use vstd::prelude::*;
use vstd::string::*;

verus! {

/// One record of the login-session table, as far as the sampler reads it.
#[derive(Debug, PartialEq, Eq)]
pub enum LoginRecord {
    /// An interactive user process on the terminal device named `line`.
    UserProcess { line: String },
    /// A record of any other kind: boot and run-level marks, login and init
    /// processes, dead processes.
    Other,
}

/// What one tick learns from the login-session table.
#[derive(Clone, Copy, Debug, PartialEq, Eq, Structural)]
pub enum SessionSample {
    /// The table could not be read, or no session qualified: idleness of the
    /// terminals can neither be shown nor refuted.
    Unavailable,
    /// The smallest idle duration, in seconds, over the qualifying sessions.
    MinIdle(u64),
}

/// The directory under which terminal devices are found.
pub open spec fn device_directory() -> Seq<char> {
    "/dev/"@
}

/// Where the terminal device of a record is found: under the device directory
/// for a user process, nowhere for the other records.
pub open spec fn device_path_spec(record: LoginRecord) -> Option<Seq<char>> {
    match record {
        LoginRecord::UserProcess { line } => Some(device_directory() + line@),
        LoginRecord::Other => None,
    }
}

/// The devices of the qualifying records of a table, in the table's order.
pub open spec fn qualifying_devices_spec(records: Seq<LoginRecord>) -> Seq<Seq<char>>
    decreases records.len(),
{
    if records.len() == 0 {
        Seq::empty()
    } else {
        let earlier = qualifying_devices_spec(records.drop_last());
        match device_path_spec(records.last()) {
            Some(path) => earlier.push(path),
            None => earlier,
        }
    }
}

/// Seconds between `last_access` and `now`, both counted from the epoch, kept
/// within the range of a duration: a device touched after `now` has been idle
/// for no time at all.
pub open spec fn idle_seconds_spec(now: u64, last_access: i64) -> u64 {
    let elapsed: int = now - last_access;
    if elapsed < 0 {
        0
    } else if elapsed > u64::MAX {
        u64::MAX
    } else {
        elapsed as u64
    }
}

/// How long the session behind one reading has been idle at `now`; `None`
/// where its device could not be read.
pub open spec fn reading_idle(now: u64, reading: Option<i64>) -> Option<u64> {
    match reading {
        Some(last_access) => Some(idle_seconds_spec(now, last_access)),
        None => None,
    }
}

/// Whether `sample` is what the readings reduce to at time `now`. A reading is
/// the last-access time of one qualifying session's device, or `None` where the
/// device could not be read; such a session is passed over. The sample is the
/// least idle duration among the others, and unavailable where none is left.
pub open spec fn is_sample_of(sample: SessionSample, now: u64, readings: Seq<Option<i64>>) -> bool {
    match sample {
        SessionSample::Unavailable => forall|i: int|
            0 <= i < readings.len() ==> reading_idle(now, #[trigger] readings[i]) is None,
        SessionSample::MinIdle(seconds) => {
            &&& exists|i: int|
                0 <= i < readings.len() && reading_idle(now, #[trigger] readings[i]) == Some(
                    seconds,
                )
            &&& forall|i: int|
                0 <= i < readings.len() ==> (reading_idle(now, #[trigger] readings[i]) matches Some(
                    idle,
                ) ==> seconds <= idle)
        },
    }
}

impl LoginRecord {
    /// The path of the terminal device whose last access tells how long the
    /// session has been idle; `None` for a record that is no user process.
    pub fn device_path(&self) -> (path: Option<String>)
        ensures
            match path {
                Some(p) => device_path_spec(*self) == Some(p@),
                None => device_path_spec(*self) is None,
            },
    {
        match self {
            LoginRecord::UserProcess { line } => {
                let mut path = String::from_str("/dev/");
                path.append(line.as_str());
                Some(path)
            },
            LoginRecord::Other => None,
        }
    }
}

impl SessionSample {
    /// Whether the sample lies above `threshold` seconds. An unavailable sample
    /// stands for an unbounded idle duration and lies above every threshold.
    pub open spec fn exceeds_spec(self, threshold: u64) -> bool {
        match self {
            SessionSample::Unavailable => true,
            SessionSample::MinIdle(seconds) => seconds > threshold,
        }
    }

    #[verifier::when_used_as_spec(exceeds_spec)]
    pub fn exceeds(self, threshold: u64) -> (over: bool)
        ensures
            over == self.exceeds_spec(threshold),
    {
        match self {
            SessionSample::Unavailable => true,
            SessionSample::MinIdle(seconds) => seconds > threshold,
        }
    }
}

/// The paths of the terminal devices to read for a session table: one for each
/// user process, in the table's order.
pub fn qualifying_devices(records: &Vec<LoginRecord>) -> (paths: Vec<String>)
    ensures
        paths.deep_view() == qualifying_devices_spec(records@),
{
    let mut paths: Vec<String> = Vec::new();
    let mut k: usize = 0;
    assert(records@.take(0) =~= Seq::<LoginRecord>::empty());
    while k < records.len()
        invariant
            k <= records.len(),
            paths.deep_view() =~= qualifying_devices_spec(records@.take(k as int)),
        decreases records.len() - k,
    {
        let ghost before = paths.deep_view();
        assert(records@.take(k + 1).drop_last() =~= records@.take(k as int));
        assert(records@.take(k + 1).last() == records@[k as int]);
        if let Some(path) = records[k].device_path() {
            paths.push(path);
            assert(paths.deep_view() =~= before.push(path@));
        }
        k += 1;
    }
    assert(records@.take(k as int) =~= records@);
    paths
}

/// How long a device last touched at `last_access` has been idle at `now`.
pub fn idle_seconds(now: u64, last_access: i64) -> (idle: u64)
    ensures
        idle == idle_seconds_spec(now, last_access),
{
    if last_access >= 0 {
        let touched: u64 = last_access as u64;
        if touched <= now {
            now - touched
        } else {
            0
        }
    } else {
        let before_epoch: u64 = ((-(last_access + 1)) as u64) + 1;
        now.saturating_add(before_epoch)
    }
}

/// Reduces the readings of the qualifying sessions to the sample of this tick:
/// the smallest idle duration among the devices that could be read, and
/// `Unavailable` where there is none.
pub fn min_idle(now: u64, readings: &Vec<Option<i64>>) -> (sample: SessionSample)
    ensures
        is_sample_of(sample, now, readings@),
{
    let mut sample = SessionSample::Unavailable;
    let mut k: usize = 0;
    while k < readings.len()
        invariant
            k <= readings.len(),
            is_sample_of(sample, now, readings@.take(k as int)),
        decreases readings.len() - k,
    {
        let ghost seen = readings@.take(k as int);
        let ghost next = readings@.take(k + 1);
        assert(forall|i: int| 0 <= i < k ==> next[i] == seen[i]);
        assert(next[k as int] == readings@[k as int]);
        proof {
            if let SessionSample::MinIdle(least) = sample {
                let j = choose|j: int|
                    0 <= j < seen.len() && reading_idle(now, #[trigger] seen[j]) == Some(least);
                assert(reading_idle(now, next[j]) == Some(least));
            }
        }
        if let Some(last_access) = readings[k] {
            let idle: u64 = idle_seconds(now, last_access);
            match sample {
                SessionSample::Unavailable => {
                    sample = SessionSample::MinIdle(idle);
                },
                SessionSample::MinIdle(least) => {
                    if idle < least {
                        sample = SessionSample::MinIdle(idle);
                    }
                },
            }
        }
        k += 1;
    }
    assert(readings@.take(k as int) =~= readings@);
    sample
}

/// The sample of one tick. `table` holds one reading for each qualifying
/// session, or is `None` where the session table could not be read.
pub fn sample(now: u64, table: Option<&Vec<Option<i64>>>) -> (sample: SessionSample)
    ensures
        match table {
            Some(readings) => is_sample_of(sample, now, readings@),
            None => sample is Unavailable,
        },
{
    match table {
        Some(readings) => min_idle(now, readings),
        None => SessionSample::Unavailable,
    }
}

/// The readings fix the sample: two samples of the same readings at the same
/// time are equal.
pub proof fn lemma_sample_unique(
    first: SessionSample,
    second: SessionSample,
    now: u64,
    readings: Seq<Option<i64>>,
)
    requires
        is_sample_of(first, now, readings),
        is_sample_of(second, now, readings),
    ensures
        first == second,
{
    if let SessionSample::MinIdle(a) = first {
        let i = choose|i: int|
            0 <= i < readings.len() && reading_idle(now, #[trigger] readings[i]) == Some(a);
        assert(reading_idle(now, readings[i]) is Some);
    }
    if let SessionSample::MinIdle(b) = second {
        let j = choose|j: int|
            0 <= j < readings.len() && reading_idle(now, #[trigger] readings[j]) == Some(b);
        assert(reading_idle(now, readings[j]) is Some);
    }
}

} // verus!
