//! Scheduler: one sync task per configured upstream, each with a lock
//! identifier of its own.

use vstd::prelude::*;
use crate::config::Config;
use crate::services::{cache_of, cache_policy, persist_target, policy_view, target_of};
use crate::sync_task::{
    CycleOutcome, SourceDescriptor, SourceKind, SyncState, SyncTask, SyncTaskView,
};

verus! {

pub const ISS_LOCK_ID: i64 = 12345;

pub const OSDR_LOCK_ID: i64 = 12346;

pub const APOD_LOCK_ID: i64 = 12347;

pub const NEO_LOCK_ID: i64 = 12348;

pub const DONKI_FLR_LOCK_ID: i64 = 12349;

pub const DONKI_CME_LOCK_ID: i64 = 12350;

pub const SPACEX_LOCK_ID: i64 = 12351;

/// Number of upstreams.
pub const SOURCE_COUNT: usize = 7;

/// The upstreams, in the order in which their tasks are started.
pub open spec fn kinds() -> Seq<SourceKind> {
    seq![
        SourceKind::Iss,
        SourceKind::Osdr,
        SourceKind::Apod,
        SourceKind::Neo,
        SourceKind::DonkiFlr,
        SourceKind::DonkiCme,
        SourceKind::SpaceX,
    ]
}

/// The lock identifier of an upstream: the same on every replica.
pub open spec fn lock_id_of(kind: SourceKind) -> i64 {
    match kind {
        SourceKind::Iss => ISS_LOCK_ID,
        SourceKind::Osdr => OSDR_LOCK_ID,
        SourceKind::Apod => APOD_LOCK_ID,
        SourceKind::Neo => NEO_LOCK_ID,
        SourceKind::DonkiFlr => DONKI_FLR_LOCK_ID,
        SourceKind::DonkiCme => DONKI_CME_LOCK_ID,
        SourceKind::SpaceX => SPACEX_LOCK_ID,
    }
}

/// The name of an upstream, as the log shows it.
pub open spec fn name_of(kind: SourceKind) -> Seq<char> {
    match kind {
        SourceKind::Iss => "ISS"@,
        SourceKind::Osdr => "OSDR"@,
        SourceKind::Apod => "APOD"@,
        SourceKind::Neo => "NEO"@,
        SourceKind::DonkiFlr => "DONKI FLR"@,
        SourceKind::DonkiCme => "DONKI CME"@,
        SourceKind::SpaceX => "SpaceX"@,
    }
}

/// The poll interval of an upstream under `config`, in seconds. The two kinds
/// of space-weather events share one setting.
pub open spec fn interval_of(config: Config, kind: SourceKind) -> u64 {
    match kind {
        SourceKind::Iss => config.iss_sync_interval,
        SourceKind::Osdr => config.osdr_sync_interval,
        SourceKind::Apod => config.apod_sync_interval,
        SourceKind::Neo => config.neo_sync_interval,
        SourceKind::DonkiFlr => config.donki_sync_interval,
        SourceKind::DonkiCme => config.donki_sync_interval,
        SourceKind::SpaceX => config.spacex_sync_interval,
    }
}

/// Whether `d` is the descriptor of `kind` under `config`.
pub open spec fn describes(d: SourceDescriptor, config: Config, kind: SourceKind) -> bool {
    &&& d.kind == kind
    &&& d.name@ == name_of(kind)
    &&& d.lock_id == lock_id_of(kind)
    &&& d.interval_secs == interval_of(config, kind)
    &&& policy_view(d.cache) == cache_of(kind)
    &&& d.target == target_of(kind)
}

/// No lock identifier belongs to two descriptors.
pub open spec fn locks_distinct(descriptors: Seq<SourceDescriptor>) -> bool {
    forall|i: int, j: int|
        0 <= i < descriptors.len() && 0 <= j < descriptors.len() && i != j
            ==> descriptors[i].lock_id != descriptors[j].lock_id
}

/// No name belongs to two descriptors.
pub open spec fn names_distinct(descriptors: Seq<SourceDescriptor>) -> bool {
    forall|i: int, j: int|
        0 <= i < descriptors.len() && 0 <= j < descriptors.len() && i != j
            ==> descriptors[i].name@ != descriptors[j].name@
}

/// Whether `tasks` holds one task per descriptor, in order, each before its
/// first cycle.
pub open spec fn one_task_each(tasks: Seq<SyncTask>, descriptors: Seq<SourceDescriptor>) -> bool {
    &&& tasks.len() == descriptors.len()
    &&& forall|i: int|
        0 <= i < tasks.len() ==> (#[trigger] tasks[i])@ == (SyncTaskView {
            descriptor: descriptors[i],
            state: SyncState::Idle,
            outcome: CycleOutcome::Pending,
            cycle: 0,
        })
}

/// Two descriptors collide in their lock identifier or in their name.
#[derive(Clone, Copy, Debug, PartialEq, Eq, Structural)]
pub struct Collision {
    pub first: usize,
    pub second: usize,
}

/// The name of an upstream, as the log shows it.
pub fn source_name(kind: SourceKind) -> (name: &'static str)
    ensures
        name@ == name_of(kind),
{
    match kind {
        SourceKind::Iss => "ISS",
        SourceKind::Osdr => "OSDR",
        SourceKind::Apod => "APOD",
        SourceKind::Neo => "NEO",
        SourceKind::DonkiFlr => "DONKI FLR",
        SourceKind::DonkiCme => "DONKI CME",
        SourceKind::SpaceX => "SpaceX",
    }
}

/// The descriptor of one upstream.
pub fn descriptor_for(config: &Config, kind: SourceKind) -> (d: SourceDescriptor)
    ensures
        describes(d, *config, kind),
{
    let (lock_id, interval_secs): (i64, u64) = match kind {
        SourceKind::Iss => (ISS_LOCK_ID, config.iss_sync_interval),
        SourceKind::Osdr => (OSDR_LOCK_ID, config.osdr_sync_interval),
        SourceKind::Apod => (APOD_LOCK_ID, config.apod_sync_interval),
        SourceKind::Neo => (NEO_LOCK_ID, config.neo_sync_interval),
        SourceKind::DonkiFlr => (DONKI_FLR_LOCK_ID, config.donki_sync_interval),
        SourceKind::DonkiCme => (DONKI_CME_LOCK_ID, config.donki_sync_interval),
        SourceKind::SpaceX => (SPACEX_LOCK_ID, config.spacex_sync_interval),
    };
    SourceDescriptor {
        kind,
        name: source_name(kind).to_owned(),
        lock_id,
        interval_secs,
        cache: cache_policy(kind),
        target: persist_target(kind),
    }
}

/// The descriptors of all upstreams under `config`. Their lock identifiers
/// differ from one another, and so do their names.
pub fn descriptors(config: &Config) -> (ds: Vec<SourceDescriptor>)
    ensures
        ds@.len() == SOURCE_COUNT,
        forall|i: int| 0 <= i < ds@.len() ==> describes(#[trigger] ds@[i], *config, kinds()[i]),
        locks_distinct(ds@),
        names_distinct(ds@),
{
    let mut ds: Vec<SourceDescriptor> = Vec::new();
    ds.push(descriptor_for(config, SourceKind::Iss));
    ds.push(descriptor_for(config, SourceKind::Osdr));
    ds.push(descriptor_for(config, SourceKind::Apod));
    ds.push(descriptor_for(config, SourceKind::Neo));
    ds.push(descriptor_for(config, SourceKind::DonkiFlr));
    ds.push(descriptor_for(config, SourceKind::DonkiCme));
    ds.push(descriptor_for(config, SourceKind::SpaceX));
    proof {
        lemma_names_differ();
        assert forall|i: int, j: int| 0 <= i < ds@.len() && 0 <= j < ds@.len() && i != j implies {
            &&& ds@[i].lock_id != ds@[j].lock_id
            &&& ds@[i].name@ != ds@[j].name@
        } by {
            assert(describes(ds@[i], *config, kinds()[i]));
            assert(describes(ds@[j], *config, kinds()[j]));
        }
    }
    ds
}

/// The names of two upstreams differ.
proof fn lemma_names_differ()
    ensures
        forall|a: SourceKind, b: SourceKind| a != b ==> #[trigger] name_of(a) != #[trigger] name_of(b),
{
    reveal_strlit("ISS");
    reveal_strlit("OSDR");
    reveal_strlit("APOD");
    reveal_strlit("NEO");
    reveal_strlit("DONKI FLR");
    reveal_strlit("DONKI CME");
    reveal_strlit("SpaceX");
    assert forall|a: SourceKind, b: SourceKind| a != b implies #[trigger] name_of(a)
        != #[trigger] name_of(b) by {
        let x = name_of(a);
        let y = name_of(b);
        if x.len() == y.len() {
            if x.len() == 3 {
                assert(x[0] != y[0]);
            } else if x.len() == 4 {
                assert(x[0] != y[0]);
            } else if x.len() == 9 {
                assert(x[6] != y[6]);
            }
        }
    }
}

/// Looks for two descriptors with one lock identifier or one name.
pub fn find_collision(descriptors: &Vec<SourceDescriptor>) -> (r: Option<Collision>)
    ensures
        r is None <==> locks_distinct(descriptors@) && names_distinct(descriptors@),
        r matches Some(c) ==> {
            &&& c.first < c.second < descriptors@.len()
            &&& (descriptors@[c.first as int].lock_id == descriptors@[c.second as int].lock_id
                || descriptors@[c.first as int].name@ == descriptors@[c.second as int].name@)
        },
{
    let n: usize = descriptors.len();
    let mut j: usize = 0;
    while j < n
        invariant
            n == descriptors@.len(),
            j <= n,
            forall|a: int, b: int|
                0 <= a < b < j ==> descriptors@[a].lock_id != descriptors@[b].lock_id
                    && descriptors@[a].name@ != descriptors@[b].name@,
        decreases n - j,
    {
        let mut i: usize = 0;
        while i < j
            invariant
                n == descriptors@.len(),
                j < n,
                i <= j,
                forall|a: int|
                    0 <= a < i ==> descriptors@[a].lock_id != descriptors@[j as int].lock_id
                        && descriptors@[a].name@ != descriptors@[j as int].name@,
            decreases j - i,
        {
            if descriptors[i].lock_id == descriptors[j].lock_id || descriptors[i].name
                == descriptors[j].name {
                return Some(Collision { first: i, second: j });
            }
            i += 1;
        }
        j += 1;
    }
    proof {
        assert forall|a: int, b: int| 0 <= a < n && 0 <= b < n && a != b implies descriptors@[a].lock_id
            != descriptors@[b].lock_id && descriptors@[a].name@ != descriptors@[b].name@ by {
            if a < b {
            } else {
                assert(0 <= b < a < n);
            }
        }
    }
    None
}

/// One task per descriptor, each before its first cycle. Descriptors that
/// collide in a lock identifier or a name are refused, and no task is made.
pub fn start_tasks(descriptors: Vec<SourceDescriptor>) -> (r: Result<Vec<SyncTask>, Collision>)
    ensures
        r is Ok <==> locks_distinct(descriptors@) && names_distinct(descriptors@),
        r matches Ok(tasks) ==> one_task_each(tasks@, descriptors@),
        r matches Err(c) ==> {
            &&& c.first < c.second < descriptors@.len()
            &&& (descriptors@[c.first as int].lock_id == descriptors@[c.second as int].lock_id
                || descriptors@[c.first as int].name@ == descriptors@[c.second as int].name@)
        },
{
    match find_collision(&descriptors) {
        Some(c) => Err(c),
        None => Ok(make_tasks(descriptors)),
    }
}

fn make_tasks(descriptors: Vec<SourceDescriptor>) -> (tasks: Vec<SyncTask>)
    ensures
        one_task_each(tasks@, descriptors@),
{
    let ghost all = descriptors@;
    let mut rest = descriptors;
    let mut reversed: Vec<SyncTask> = Vec::new();
    while rest.len() > 0
        invariant
            rest@.len() <= all.len(),
            rest@ == all.take(rest@.len() as int),
            reversed@.len() == all.len() - rest@.len(),
            forall|k: int|
                0 <= k < reversed@.len() ==> (#[trigger] reversed@[k])@ == (SyncTaskView {
                    descriptor: all[all.len() - 1 - k],
                    state: SyncState::Idle,
                    outcome: CycleOutcome::Pending,
                    cycle: 0,
                }),
        decreases rest@.len(),
    {
        let descriptor = rest.pop().unwrap();
        reversed.push(SyncTask::new(descriptor));
    }
    let mut tasks: Vec<SyncTask> = Vec::new();
    while reversed.len() > 0
        invariant
            reversed@.len() + tasks@.len() == all.len(),
            forall|k: int|
                0 <= k < reversed@.len() ==> (#[trigger] reversed@[k])@ == (SyncTaskView {
                    descriptor: all[all.len() - 1 - k],
                    state: SyncState::Idle,
                    outcome: CycleOutcome::Pending,
                    cycle: 0,
                }),
            forall|k: int|
                0 <= k < tasks@.len() ==> (#[trigger] tasks@[k])@ == (SyncTaskView {
                    descriptor: all[k],
                    state: SyncState::Idle,
                    outcome: CycleOutcome::Pending,
                    cycle: 0,
                }),
        decreases reversed@.len(),
    {
        let task = reversed.pop().unwrap();
        tasks.push(task);
    }
    tasks
}

/// The tasks to run in the background: one per upstream, under the lock
/// identifier and at the interval that `config` gives it.
pub fn start_background_tasks(config: &Config) -> (tasks: Vec<SyncTask>)
    ensures
        tasks@.len() == SOURCE_COUNT,
        forall|i: int|
            0 <= i < tasks@.len() ==> {
                &&& describes((#[trigger] tasks@[i])@.descriptor, *config, kinds()[i])
                &&& tasks@[i]@.state == SyncState::Idle
                &&& tasks@[i]@.outcome == CycleOutcome::Pending
                &&& tasks@[i]@.cycle == 0
            },
        forall|i: int, j: int|
            0 <= i < tasks@.len() && 0 <= j < tasks@.len() && i != j ==> (
            #[trigger] tasks@[i])@.descriptor.lock_id != (#[trigger] tasks@[j])@.descriptor.lock_id,
{
    let ds = descriptors(config);
    let ghost all = ds@;
    let tasks = make_tasks(ds);
    proof {
        assert forall|i: int| 0 <= i < tasks@.len() implies describes(
            (#[trigger] tasks@[i])@.descriptor,
            *config,
            kinds()[i],
        ) by {
            assert(describes(all[i], *config, kinds()[i]));
        }
    }
    tasks
}

} // verus!
