//! Device reads keyed by device: which are watched, over which route, and what
//! is shown of each.
//!
//! A read is an entry of a result cache that fetches, retries and remembers.
//! This module decides when one is started, replaced, retried or forgotten and
//! which of its answers still count; what it asks of the cache is handed back
//! to the caller.

use crate::device::DeviceRoute;
use crate::hid::{
    DpiInfo, LightingInfo, ReportRateHz, ReportRateInfo, SmartShiftStatus, WriteError,
};
use crate::state::load::{
    same_load, Comparable, DpiStatus, LightingLoad, Load, ReportRateStatus, SmartShiftLoad,
};
use crate::table::{list_contains, lists, Table};
use std::sync::Arc;
use vstd::prelude::*;

verus! {

/// First part of every cache key.
pub const ROOT: &'static str = "device-read";

/// How often a read that failed for a passing reason is tried again.
pub const MAX_RETRIES: u32 = 2;

/// What is read of a device.
#[derive(Debug, Clone, Copy, PartialEq, Eq, Structural)]
pub enum ReadKind {
    Dpi,
    ReportRate,
    SmartShift,
    Lighting,
}

impl ReadKind {
    /// The part of the cache key that names the kind.
    pub open spec fn spec_name(self) -> Seq<char> {
        match self {
            ReadKind::Dpi => "dpi"@,
            ReadKind::ReportRate => "report-rate"@,
            ReadKind::SmartShift => "smartshift"@,
            ReadKind::Lighting => "lighting"@,
        }
    }

    /// The part of the cache key that names the kind.
    pub fn name(self) -> (name: &'static str)
        ensures
            name@ == self.spec_name(),
    {
        match self {
            ReadKind::Dpi => "dpi",
            ReadKind::ReportRate => "report-rate",
            ReadKind::SmartShift => "smartshift",
            ReadKind::Lighting => "lighting",
        }
    }

    /// Whether asking again cannot help after `error`.
    pub open spec fn permanent(self, error: WriteError) -> bool {
        match error {
            WriteError::FeatureUnsupported { .. } => true,
            WriteError::EmptyDpiList => self == ReadKind::Dpi,
            WriteError::EmptyReportRateList => self == ReadKind::ReportRate,
            WriteError::AgentUnavailable | WriteError::Device { .. } => false,
        }
    }

    /// Whether asking again cannot help after `error`.
    pub fn error_is_permanent(self, error: WriteError) -> (permanent: bool)
        ensures
            permanent == self.permanent(error),
    {
        match error {
            WriteError::FeatureUnsupported { .. } => true,
            WriteError::EmptyDpiList => self == ReadKind::Dpi,
            WriteError::EmptyReportRateList => self == ReadKind::ReportRate,
            WriteError::AgentUnavailable | WriteError::Device { .. } => false,
        }
    }

    /// Whether a read that failed `failures` times so far, last with `error`,
    /// is tried again.
    pub open spec fn tried_again(self, failures: nat, error: WriteError) -> bool {
        !self.permanent(error) && failures <= MAX_RETRIES
    }

    /// How often a read is attempted that failed `failures` times and keeps
    /// failing with `error`, those failures included.
    pub open spec fn attempts(self, failures: nat, error: WriteError) -> nat
        decreases MAX_RETRIES + 1 - failures,
    {
        if self.tried_again(failures, error) {
            self.attempts(failures + 1, error)
        } else {
            failures
        }
    }

    /// Whether a read that failed `failures` times so far, last with `error`,
    /// is tried again: not after a permanent error, and [`MAX_RETRIES`] times
    /// at most.
    pub fn retries_after(self, failures: u32, error: WriteError) -> (again: bool)
        ensures
            again == self.tried_again(failures as nat, error),
    {
        !self.error_is_permanent(error) && failures <= MAX_RETRIES
    }
}

/// The cache key of a read.
pub fn query_key(kind: ReadKind, key: &str) -> (query: (&'static str, &'static str, String))
    ensures
        query.0@ == ROOT@,
        query.1@ == kind.spec_name(),
        query.2@ == key@,
{
    (ROOT, kind.name(), key.to_owned())
}

/// The cache's state of one read: the value it holds, why the last fetch
/// failed and in which words, and whether a fetch is running.
#[derive(Debug)]
pub struct QueryState<T> {
    pub data: Option<Arc<T>>,
    pub error: Option<(WriteError, String)>,
    pub is_validating: bool,
}

/// What is shown of a cache state. Nothing is known until a fetch runs; while
/// one runs, an earlier value stays visible; a settled error hides the value.
pub open spec fn projected<T>(kind: ReadKind, state: QueryState<T>) -> Load<Arc<T>> {
    if state.is_validating {
        match state.data {
            Some(value) => Load::Ready(value),
            None => Load::Loading,
        }
    } else {
        match (state.error, state.data) {
            (Some(error), _) => if kind.permanent(error.0) {
                Load::Unsupported(error.1)
            } else {
                Load::Failed(error.1)
            },
            (None, Some(value)) => Load::Ready(value),
            (None, None) => Load::Unknown,
        }
    }
}

/// Projects a cache state onto what is shown of it.
pub fn project_load<T>(kind: ReadKind, state: &QueryState<T>) -> (load: Load<Arc<T>>)
    ensures
        load == projected(kind, *state),
{
    if state.is_validating && state.data.is_none() {
        return Load::Loading;
    }
    if !state.is_validating {
        if let Some((error, message)) = &state.error {
            return if kind.error_is_permanent(*error) {
                Load::Unsupported(message.clone())
            } else {
                Load::Failed(message.clone())
            };
        }
    }
    match &state.data {
        Some(value) => Load::Ready(value.clone()),
        None => Load::Unknown,
    }
}

/// Stale data remains visible while a fetch runs, but only a settled state is
/// the device's own answer.
pub fn smartshift_read_is_settled(state: &QueryState<SmartShiftStatus>) -> (settled: bool)
    ensures
        settled == !state.is_validating,
{
    !state.is_validating
}

/// One watched read.
#[derive(Debug)]
pub struct DeviceRead<T> {
    /// The route that the read asks over.
    pub route: DeviceRoute,
    /// Tells answers to this read from answers to one it replaced.
    pub generation: u64,
    /// What is shown.
    pub load: Load<Arc<T>>,
}

/// What the cache has to do before and for a read.
#[derive(Debug, Clone, Copy, PartialEq, Eq, Structural)]
pub enum ReadStart {
    /// The read is watched over this route already.
    Watched,
    /// There is no cache to ask yet.
    NoCache,
    /// Subscribe under `generation`, after emptying the old entry (`clear`) or
    /// marking it stale and keeping its value (`invalidate`).
    Subscribe { generation: u64, clear: bool, invalidate: bool },
}

/// The number of the next read, after this one was started.
pub open spec fn numbered(start: Option<ReadStart>, next_generation: u64) -> u64 {
    match start {
        Some(ReadStart::Subscribe { .. }) => following(next_generation),
        _ => next_generation,
    }
}

/// What a table shows of `key`: nothing is known of a read that is not watched.
pub open spec fn shown<T>(reads: Map<Seq<char>, DeviceRead<T>>, key: Seq<char>) -> Load<Arc<T>> {
    if reads.contains_key(key) {
        reads[key].load
    } else {
        Load::Unknown
    }
}

/// `key`'s read after a retry: what is not ready is loading again.
pub open spec fn retried<T>(read: DeviceRead<T>) -> DeviceRead<T> {
    DeviceRead {
        load: if read.load is Ready {
            read.load
        } else {
            Load::Loading
        },
        ..read
    }
}

fn status_of<T>(reads: &Table<DeviceRead<T>>, key: &str) -> (load: Load<Arc<T>>)
    ensures
        load == shown(reads@, key@),
{
    match reads.get(key) {
        Some(read) => read.load.clone(),
        None => Load::Unknown,
    }
}

fn load_of<'a, T>(reads: &'a Table<DeviceRead<T>>, key: &str) -> (load: Option<&'a Load<Arc<T>>>)
    ensures
        match load {
            Some(load) => reads@.contains_key(key@) && *load == reads@[key@].load,
            None => !reads@.contains_key(key@),
        },
{
    match reads.get(key) {
        Some(read) => Some(&read.load),
        None => None,
    }
}

fn retry_of<T>(reads: &mut Table<DeviceRead<T>>, key: &str) -> (revalidate: bool)
    ensures
        revalidate == old(reads)@.contains_key(key@),
        revalidate ==> final(reads)@ == old(reads)@.insert(key@, retried(old(reads)@[key@])),
        !revalidate ==> final(reads)@ == old(reads)@,
{
    match reads.remove(key) {
        Some(read) => {
            let load = match read.load {
                Load::Ready(value) => Load::Ready(value),
                _ => Load::Loading,
            };
            reads.insert(key, DeviceRead { route: read.route, generation: read.generation, load });
            assert(reads@ =~= old(reads)@.insert(key@, retried(old(reads)@[key@])));
            true
        },
        None => {
            assert(reads@ =~= old(reads)@);
            false
        },
    }
}

fn remove_of<T>(reads: &mut Table<DeviceRead<T>>, key: &str) -> (clear: bool)
    ensures
        clear == old(reads)@.contains_key(key@),
        final(reads)@ == old(reads)@.remove(key@),
{
    reads.remove(key).is_some()
}

/// `reads` after an answer: only the read that asked takes it.
pub open spec fn answered<T>(
    reads: Map<Seq<char>, DeviceRead<T>>,
    key: Seq<char>,
    generation: u64,
    load: Load<Arc<T>>,
) -> Map<Seq<char>, DeviceRead<T>> {
    if reads.contains_key(key) && reads[key].generation == generation {
        reads.insert(key, DeviceRead { load, ..reads[key] })
    } else {
        reads
    }
}

fn update_of<T: Comparable>(
    reads: &mut Table<DeviceRead<T>>,
    key: &str,
    generation: u64,
    load: Load<Arc<T>>,
) -> (changed: bool)
    ensures
        changed == (old(reads)@.contains_key(key@) && old(reads)@[key@].generation == generation
            && !same_load(old(reads)@[key@].load, load)),
        changed ==> final(reads)@ == answered(old(reads)@, key@, generation, load),
        !changed ==> final(reads)@ == old(reads)@,
{
    let route = match reads.get(key) {
        Some(read) => {
            if read.generation != generation || read.load.same(&load) {
                return false;
            }
            read.route
        },
        None => {
            return false;
        },
    };
    reads.insert(key, DeviceRead { route, generation, load });
    true
}

/// The device reads that the window watches.
#[derive(Debug)]
pub struct DeviceReads {
    /// Whether the result cache is there.
    pub attached: bool,
    /// The generation that the next read gets.
    pub next_generation: u64,
    pub dpi: Table<DeviceRead<DpiInfo>>,
    pub report_rate: Table<DeviceRead<ReportRateInfo>>,
    pub smartshift: Table<DeviceRead<SmartShiftStatus>>,
    pub lighting: Table<DeviceRead<LightingInfo>>,
}

/// Whether `after` is `before` with `key`'s read showing `status`; a read that
/// is not watched shows nothing.
pub open spec fn shows_smartshift(
    before: Map<Seq<char>, DeviceRead<SmartShiftStatus>>,
    after: Map<Seq<char>, DeviceRead<SmartShiftStatus>>,
    key: Seq<char>,
    status: SmartShiftStatus,
) -> bool {
    if before.contains_key(key) {
        &&& after.dom() == before.dom()
        &&& after.remove(key) == before.remove(key)
        &&& after[key].route == before[key].route
        &&& after[key].generation == before[key].generation
        &&& after[key].load matches Load::Ready(value) && *value == status
    } else {
        after == before
    }
}

/// Whether `after` is `before` with `key`'s read showing `rate` as the current
/// polling frequency; a read without a value shows none.
pub open spec fn shows_report_rate(
    before: Map<Seq<char>, DeviceRead<ReportRateInfo>>,
    after: Map<Seq<char>, DeviceRead<ReportRateInfo>>,
    key: Seq<char>,
    rate: ReportRateHz,
) -> bool {
    if before.contains_key(key) && before[key].load is Ready {
        &&& after.dom() == before.dom()
        &&& after.remove(key) == before.remove(key)
        &&& after[key].route == before[key].route
        &&& after[key].generation == before[key].generation
        &&& (after[key].load, before[key].load) matches (Load::Ready(now), Load::Ready(was)) && {
            &&& now.current == rate
            &&& now.capabilities@ == was.capabilities@
            &&& now.capabilities.spec_step_hint() == was.capabilities.spec_step_hint()
        }
    } else {
        after == before
    }
}

/// Which cache entries have to be emptied.
#[derive(Debug, Clone, Copy, PartialEq, Eq, Structural)]
pub struct Cleared {
    pub dpi: bool,
    pub report_rate: bool,
    pub smartshift: bool,
    pub lighting: bool,
}

/// Whether `key` is watched over `route`.
pub open spec fn watched<T>(
    reads: Map<Seq<char>, DeviceRead<T>>,
    key: Seq<char>,
    route: DeviceRoute,
) -> bool {
    reads.contains_key(key) && reads[key].route == route
}

/// The generation after `generation`.
pub open spec fn following(generation: u64) -> u64 {
    if generation == u64::MAX {
        generation
    } else {
        (generation + 1) as u64
    }
}

/// What the cache has to do for a first read of `key` over `route`.
pub open spec fn start_of<T>(
    reads: Map<Seq<char>, DeviceRead<T>>,
    attached: bool,
    generation: u64,
    key: Seq<char>,
    route: DeviceRoute,
) -> ReadStart {
    if watched(reads, key, route) {
        ReadStart::Watched
    } else if !attached {
        ReadStart::NoCache
    } else {
        ReadStart::Subscribe { generation, clear: reads.contains_key(key), invalidate: false }
    }
}

fn ensure_of<T>(
    reads: &mut Table<DeviceRead<T>>,
    attached: bool,
    next_generation: &mut u64,
    key: &str,
    route: DeviceRoute,
) -> (start: ReadStart)
    ensures
        start == start_of(old(reads)@, attached, *old(next_generation), key@, route),
        start is Watched ==> final(reads)@ == old(reads)@,
        start !is Watched ==> final(reads)@ == old(reads)@.remove(key@),
        *final(next_generation) == if start is Subscribe {
            following(*old(next_generation))
        } else {
            *old(next_generation)
        },
{
    if let Some(read) = reads.get(key) {
        if read.route == route {
            return ReadStart::Watched;
        }
    }
    let clear = remove_of(reads, key);
    if !attached {
        return ReadStart::NoCache;
    }
    let generation = take(next_generation);
    ReadStart::Subscribe { generation, clear, invalidate: false }
}

fn take(next_generation: &mut u64) -> (generation: u64)
    ensures
        generation == *old(next_generation),
        *final(next_generation) == following(*old(next_generation)),
{
    let generation: u64 = *next_generation;
    if generation < u64::MAX {
        *next_generation = generation + 1;
    }
    generation
}

fn absent_keys<T>(reads: &Table<DeviceRead<T>>, present: &Vec<String>) -> (absent: Vec<String>)
    ensures
        forall|key: Seq<char>| #[trigger]
            lists(absent@, key) <==> reads@.contains_key(key) && !lists(present@, key),
{
    let mut absent: Vec<String> = Vec::new();
    let length: usize = reads.len();
    let mut i: usize = 0;
    while i < length
        invariant
            i <= length,
            length == reads.in_order().len(),
            forall|j: int| 0 <= j < absent@.len() ==> reads@.contains_key((#[trigger] absent@[j])@)
                && !lists(present@, absent@[j]@),
            forall|j: int| #![trigger reads.in_order()[j]]
                0 <= j < i && !lists(present@, reads.in_order()[j].0@) ==> lists(
                    absent@,
                    reads.in_order()[j].0@,
                ),
        decreases length - i,
    {
        let (key, _) = reads.entry(i);
        if !list_contains(present, key) {
            let ghost before = absent@;
            absent.push(key.to_owned());
            proof {
                assert(absent@[before.len() as int]@ == key@);
                assert forall|k: Seq<char>| lists(before, k) implies lists(absent@, k) by {
                    let at = choose|at: int| 0 <= at < before.len() && (#[trigger] before[at])@ == k;
                    assert(absent@[at]@ == k);
                }
            }
        }
        i += 1;
    }
    proof {
        assert forall|key: Seq<char>| reads@.contains_key(key) && !lists(
            present@,
            key,
        ) implies #[trigger] lists(absent@, key) by {
            let at = choose|at: int| crate::table::key_at(reads.in_order(), key, at);
            assert(reads.in_order()[at].0@ == key);
        }
    }
    absent
}

impl DeviceReads {
    /// No reads, and no cache to ask yet.
    pub fn new() -> (reads: Self)
        ensures
            !reads.attached,
            reads.next_generation == 0,
            reads.dpi@ == Map::<Seq<char>, DeviceRead<DpiInfo>>::empty(),
            reads.report_rate@ == Map::<Seq<char>, DeviceRead<ReportRateInfo>>::empty(),
            reads.smartshift@ == Map::<Seq<char>, DeviceRead<SmartShiftStatus>>::empty(),
            reads.lighting@ == Map::<Seq<char>, DeviceRead<LightingInfo>>::empty(),
    {
        DeviceReads {
            attached: false,
            next_generation: 0,
            dpi: Table::new(),
            report_rate: Table::new(),
            smartshift: Table::new(),
            lighting: Table::new(),
        }
    }

    /// The result cache is there from now on.
    pub fn connect(&mut self)
        ensures
            *final(self) == (DeviceReads { attached: true, ..*old(self) }),
    {
        self.attached = true;
    }

    /// Starts the resolution read unless it is watched over this route.
    pub fn ensure_dpi(&mut self, key: &str, route: DeviceRoute) -> (start: ReadStart)
        ensures
            start == start_of(
                old(self).dpi@,
                old(self).attached,
                old(self).next_generation,
                key@,
                route,
            ),
            final(self).dpi@ == if start is Watched {
                old(self).dpi@
            } else {
                old(self).dpi@.remove(key@)
            },
            *final(self) == (DeviceReads {
                dpi: final(self).dpi,
                next_generation: if start is Subscribe {
                    following(old(self).next_generation)
                } else {
                    old(self).next_generation
                },
                ..*old(self)
            }),
    {
        ensure_of(&mut self.dpi, self.attached, &mut self.next_generation, key, route)
    }

    /// Starts the polling-frequency read unless it is watched over this route.
    pub fn ensure_report_rate(&mut self, key: &str, route: DeviceRoute) -> (start: ReadStart)
        ensures
            start == start_of(
                old(self).report_rate@,
                old(self).attached,
                old(self).next_generation,
                key@,
                route,
            ),
            final(self).report_rate@ == if start is Watched {
                old(self).report_rate@
            } else {
                old(self).report_rate@.remove(key@)
            },
            *final(self) == (DeviceReads {
                report_rate: final(self).report_rate,
                next_generation: if start is Subscribe {
                    following(old(self).next_generation)
                } else {
                    old(self).next_generation
                },
                ..*old(self)
            }),
    {
        ensure_of(&mut self.report_rate, self.attached, &mut self.next_generation, key, route)
    }

    /// Starts the lighting read unless it is watched over this route.
    pub fn ensure_lighting(&mut self, key: &str, route: DeviceRoute) -> (start: ReadStart)
        ensures
            start == start_of(
                old(self).lighting@,
                old(self).attached,
                old(self).next_generation,
                key@,
                route,
            ),
            final(self).lighting@ == if start is Watched {
                old(self).lighting@
            } else {
                old(self).lighting@.remove(key@)
            },
            *final(self) == (DeviceReads {
                lighting: final(self).lighting,
                next_generation: if start is Subscribe {
                    following(old(self).next_generation)
                } else {
                    old(self).next_generation
                },
                ..*old(self)
            }),
    {
        ensure_of(&mut self.lighting, self.attached, &mut self.next_generation, key, route)
    }

    /// Starts the first SmartShift read unless it is watched over this route.
    /// Without a cache an earlier read stays as it is.
    pub fn ensure_smartshift(&mut self, key: &str, route: DeviceRoute) -> (start: ReadStart)
        ensures
            start == start_of(
                old(self).smartshift@,
                old(self).attached,
                old(self).next_generation,
                key@,
                route,
            ),
            final(self).smartshift@ == if start is Subscribe {
                old(self).smartshift@.remove(key@)
            } else {
                old(self).smartshift@
            },
            *final(self) == (DeviceReads {
                smartshift: final(self).smartshift,
                next_generation: if start is Subscribe {
                    following(old(self).next_generation)
                } else {
                    old(self).next_generation
                },
                ..*old(self)
            }),
    {
        if let Some(read) = self.smartshift.get(key) {
            if read.route == route {
                return ReadStart::Watched;
            }
        }
        self.subscribe_smartshift(key, false)
    }

    /// Replaces the SmartShift read by one that confirms a write: the value
    /// written stays visible as stale data while the device is asked.
    pub fn confirm_smartshift(&mut self, key: &str) -> (start: ReadStart)
        ensures
            start == if old(self).attached {
                ReadStart::Subscribe {
                    generation: old(self).next_generation,
                    clear: false,
                    invalidate: true,
                }
            } else {
                ReadStart::NoCache
            },
            final(self).smartshift@ == if old(self).attached {
                old(self).smartshift@.remove(key@)
            } else {
                old(self).smartshift@
            },
            *final(self) == (DeviceReads {
                smartshift: final(self).smartshift,
                next_generation: if old(self).attached {
                    following(old(self).next_generation)
                } else {
                    old(self).next_generation
                },
                ..*old(self)
            }),
    {
        self.subscribe_smartshift(key, true)
    }

    fn subscribe_smartshift(&mut self, key: &str, preserve_data: bool) -> (start: ReadStart)
        ensures
            start == if old(self).attached {
                ReadStart::Subscribe {
                    generation: old(self).next_generation,
                    clear: !preserve_data && old(self).smartshift@.contains_key(key@),
                    invalidate: preserve_data,
                }
            } else {
                ReadStart::NoCache
            },
            final(self).smartshift@ == if old(self).attached {
                old(self).smartshift@.remove(key@)
            } else {
                old(self).smartshift@
            },
            *final(self) == (DeviceReads {
                smartshift: final(self).smartshift,
                next_generation: if old(self).attached {
                    following(old(self).next_generation)
                } else {
                    old(self).next_generation
                },
                ..*old(self)
            }),
    {
        if !self.attached {
            return ReadStart::NoCache;
        }
        let had_previous = remove_of(&mut self.smartshift, key);
        let generation = take(&mut self.next_generation);
        ReadStart::Subscribe {
            generation,
            clear: !preserve_data && had_previous,
            invalidate: preserve_data,
        }
    }

    /// Watches the resolution read that was subscribed under `generation` and
    /// whose cache state is `state`.
    pub fn watch_dpi(
        &mut self,
        key: &str,
        route: DeviceRoute,
        generation: u64,
        state: &QueryState<DpiInfo>,
    )
        ensures
            final(self).dpi@ == old(self).dpi@.insert(
                key@,
                DeviceRead { route, generation, load: projected(ReadKind::Dpi, *state) },
            ),
            *final(self) == (DeviceReads { dpi: final(self).dpi, ..*old(self) }),
    {
        let load = project_load(ReadKind::Dpi, state);
        self.dpi.insert(key, DeviceRead { route, generation, load });
    }

    /// Watches the polling-frequency read that was subscribed under
    /// `generation` and whose cache state is `state`.
    pub fn watch_report_rate(
        &mut self,
        key: &str,
        route: DeviceRoute,
        generation: u64,
        state: &QueryState<ReportRateInfo>,
    )
        ensures
            final(self).report_rate@ == old(self).report_rate@.insert(
                key@,
                DeviceRead { route, generation, load: projected(ReadKind::ReportRate, *state) },
            ),
            *final(self) == (DeviceReads { report_rate: final(self).report_rate, ..*old(self) }),
    {
        let load = project_load(ReadKind::ReportRate, state);
        self.report_rate.insert(key, DeviceRead { route, generation, load });
    }

    /// Watches the SmartShift read that was subscribed under `generation` and
    /// whose cache state is `state`.
    pub fn watch_smartshift(
        &mut self,
        key: &str,
        route: DeviceRoute,
        generation: u64,
        state: &QueryState<SmartShiftStatus>,
    )
        ensures
            final(self).smartshift@ == old(self).smartshift@.insert(
                key@,
                DeviceRead { route, generation, load: projected(ReadKind::SmartShift, *state) },
            ),
            *final(self) == (DeviceReads { smartshift: final(self).smartshift, ..*old(self) }),
    {
        let load = project_load(ReadKind::SmartShift, state);
        self.smartshift.insert(key, DeviceRead { route, generation, load });
    }

    /// Watches the lighting read that was subscribed under `generation` and
    /// whose cache state is `state`.
    pub fn watch_lighting(
        &mut self,
        key: &str,
        route: DeviceRoute,
        generation: u64,
        state: &QueryState<LightingInfo>,
    )
        ensures
            final(self).lighting@ == old(self).lighting@.insert(
                key@,
                DeviceRead { route, generation, load: projected(ReadKind::Lighting, *state) },
            ),
            *final(self) == (DeviceReads { lighting: final(self).lighting, ..*old(self) }),
    {
        let load = project_load(ReadKind::Lighting, state);
        self.lighting.insert(key, DeviceRead { route, generation, load });
    }

    /// What is shown of the resolution read.
    pub fn dpi_status(&self, key: &str) -> (status: DpiStatus)
        ensures
            status == shown(self.dpi@, key@),
    {
        status_of(&self.dpi, key)
    }

    /// The resolution read's state, if it is watched.
    pub fn dpi_load(&self, key: &str) -> (load: Option<&DpiStatus>)
        ensures
            match load {
                Some(load) => self.dpi@.contains_key(key@) && *load == self.dpi@[key@].load,
                None => !self.dpi@.contains_key(key@),
            },
    {
        load_of(&self.dpi, key)
    }

    /// What is shown of the polling-frequency read.
    pub fn report_rate_status(&self, key: &str) -> (status: ReportRateStatus)
        ensures
            status == shown(self.report_rate@, key@),
    {
        status_of(&self.report_rate, key)
    }

    /// The polling-frequency read's state, if it is watched.
    pub fn report_rate_load(&self, key: &str) -> (load: Option<&ReportRateStatus>)
        ensures
            match load {
                Some(load) => self.report_rate@.contains_key(key@) && *load
                    == self.report_rate@[key@].load,
                None => !self.report_rate@.contains_key(key@),
            },
    {
        load_of(&self.report_rate, key)
    }

    /// What is shown of the SmartShift read.
    pub fn smartshift_status(&self, key: &str) -> (status: SmartShiftLoad)
        ensures
            status == shown(self.smartshift@, key@),
    {
        status_of(&self.smartshift, key)
    }

    /// The SmartShift read's state, if it is watched.
    pub fn smartshift_load(&self, key: &str) -> (load: Option<&SmartShiftLoad>)
        ensures
            match load {
                Some(load) => self.smartshift@.contains_key(key@) && *load
                    == self.smartshift@[key@].load,
                None => !self.smartshift@.contains_key(key@),
            },
    {
        load_of(&self.smartshift, key)
    }

    /// What is shown of the lighting read.
    pub fn lighting_status(&self, key: &str) -> (status: LightingLoad)
        ensures
            status == shown(self.lighting@, key@),
    {
        status_of(&self.lighting, key)
    }

    /// Asks for the resolution again. Returns whether there is a read to
    /// revalidate.
    pub fn retry_dpi(&mut self, key: &str) -> (revalidate: bool)
        ensures
            revalidate == old(self).dpi@.contains_key(key@),
            final(self).dpi@ == if revalidate {
                old(self).dpi@.insert(key@, retried(old(self).dpi@[key@]))
            } else {
                old(self).dpi@
            },
            *final(self) == (DeviceReads { dpi: final(self).dpi, ..*old(self) }),
    {
        retry_of(&mut self.dpi, key)
    }

    /// Asks for the polling frequency again. Returns whether there is a read
    /// to revalidate.
    pub fn retry_report_rate(&mut self, key: &str) -> (revalidate: bool)
        ensures
            revalidate == old(self).report_rate@.contains_key(key@),
            final(self).report_rate@ == if revalidate {
                old(self).report_rate@.insert(key@, retried(old(self).report_rate@[key@]))
            } else {
                old(self).report_rate@
            },
            *final(self) == (DeviceReads { report_rate: final(self).report_rate, ..*old(self) }),
    {
        retry_of(&mut self.report_rate, key)
    }

    /// Asks for the SmartShift configuration again. Returns whether there is a
    /// read to revalidate.
    pub fn retry_smartshift(&mut self, key: &str) -> (revalidate: bool)
        ensures
            revalidate == old(self).smartshift@.contains_key(key@),
            final(self).smartshift@ == if revalidate {
                old(self).smartshift@.insert(key@, retried(old(self).smartshift@[key@]))
            } else {
                old(self).smartshift@
            },
            *final(self) == (DeviceReads { smartshift: final(self).smartshift, ..*old(self) }),
    {
        retry_of(&mut self.smartshift, key)
    }

    /// Shows a SmartShift write before the device has confirmed it. Returns
    /// whether the cache has to take the value over.
    pub fn set_smartshift_ready(&mut self, key: &str, status: SmartShiftStatus) -> (publish: bool)
        ensures
            publish == old(self).attached,
            shows_smartshift(old(self).smartshift@, final(self).smartshift@, key@, status),
            *final(self) == (DeviceReads { smartshift: final(self).smartshift, ..*old(self) }),
    {
        if let Some(read) = self.smartshift.remove(key) {
            let load = Load::Ready(Arc::new(status));
            self.smartshift.insert(
                key,
                DeviceRead { route: read.route, generation: read.generation, load },
            );
            assert(self.smartshift@.dom() =~= old(self).smartshift@.dom());
            assert(self.smartshift@.remove(key@) =~= old(self).smartshift@.remove(key@));
        } else {
            assert(self.smartshift@ =~= old(self).smartshift@);
        }
        self.attached
    }

    /// Shows a polling-frequency write before the device is asked again. What
    /// the device supports stays as it was read; an unread device shows
    /// nothing yet. Returns whether the cache has to take the value over.
    pub fn set_report_rate_ready(&mut self, key: &str, rate: ReportRateHz) -> (publish: bool)
        ensures
            publish == (old(self).report_rate@.contains_key(key@)
                && old(self).report_rate@[key@].load is Ready && old(self).attached),
            shows_report_rate(old(self).report_rate@, final(self).report_rate@, key@, rate),
            *final(self) == (DeviceReads { report_rate: final(self).report_rate, ..*old(self) }),
    {
        let (route, generation, info) = match self.report_rate.get(key) {
            Some(read) => match &read.load {
                Load::Ready(info) => (
                    read.route,
                    read.generation,
                    ReportRateInfo { current: rate, capabilities: info.capabilities.duplicate() },
                ),
                _ => {
                    return false;
                },
            },
            None => {
                return false;
            },
        };
        self.report_rate.insert(
            key,
            DeviceRead { route, generation, load: Load::Ready(Arc::new(info)) },
        );
        assert(self.report_rate@.dom() =~= old(self).report_rate@.dom());
        assert(self.report_rate@.remove(key@) =~= old(self).report_rate@.remove(key@));
        self.attached
    }

    /// Forgets every read of a device. Returns which cache entries have to be
    /// emptied, so that answers still on their way are not taken for new ones.
    pub fn remove(&mut self, key: &str) -> (cleared: Cleared)
        ensures
            final(self).dpi@ == old(self).dpi@.remove(key@),
            final(self).report_rate@ == old(self).report_rate@.remove(key@),
            final(self).smartshift@ == old(self).smartshift@.remove(key@),
            final(self).lighting@ == old(self).lighting@.remove(key@),
            final(self).attached == old(self).attached,
            final(self).next_generation == old(self).next_generation,
            cleared == (Cleared {
                dpi: old(self).dpi@.contains_key(key@),
                report_rate: old(self).report_rate@.contains_key(key@),
                smartshift: old(self).smartshift@.contains_key(key@),
                lighting: old(self).lighting@.contains_key(key@),
            }),
    {
        let dpi = remove_of(&mut self.dpi, key);
        let report_rate = remove_of(&mut self.report_rate, key);
        let smartshift = remove_of(&mut self.smartshift, key);
        let lighting = remove_of(&mut self.lighting, key);
        Cleared { dpi, report_rate, smartshift, lighting }
    }

    /// Takes a resolution answer. Returns whether it changed what is shown;
    /// an answer to a replaced read never does.
    pub fn update_dpi(&mut self, key: &str, generation: u64, load: DpiStatus) -> (changed: bool)
        ensures
            changed == (old(self).dpi@.contains_key(key@) && old(self).dpi@[key@].generation
                == generation && !same_load(old(self).dpi@[key@].load, load)),
            final(self).dpi@ == if changed {
                answered(old(self).dpi@, key@, generation, load)
            } else {
                old(self).dpi@
            },
            *final(self) == (DeviceReads { dpi: final(self).dpi, ..*old(self) }),
    {
        update_of(&mut self.dpi, key, generation, load)
    }

    /// Takes a polling-frequency answer. Returns whether it changed what is
    /// shown; an answer to a replaced read never does.
    pub fn update_report_rate(
        &mut self,
        key: &str,
        generation: u64,
        load: ReportRateStatus,
    ) -> (changed: bool)
        ensures
            changed == (old(self).report_rate@.contains_key(key@)
                && old(self).report_rate@[key@].generation == generation && !same_load(
                old(self).report_rate@[key@].load,
                load,
            )),
            final(self).report_rate@ == if changed {
                answered(old(self).report_rate@, key@, generation, load)
            } else {
                old(self).report_rate@
            },
            *final(self) == (DeviceReads { report_rate: final(self).report_rate, ..*old(self) }),
    {
        update_of(&mut self.report_rate, key, generation, load)
    }

    /// Takes a lighting answer. Returns whether it changed what is shown; an
    /// answer to a replaced read never does.
    pub fn update_lighting(
        &mut self,
        key: &str,
        generation: u64,
        load: LightingLoad,
    ) -> (changed: bool)
        ensures
            changed == (old(self).lighting@.contains_key(key@)
                && old(self).lighting@[key@].generation == generation && !same_load(
                old(self).lighting@[key@].load,
                load,
            )),
            final(self).lighting@ == if changed {
                answered(old(self).lighting@, key@, generation, load)
            } else {
                old(self).lighting@
            },
            *final(self) == (DeviceReads { lighting: final(self).lighting, ..*old(self) }),
    {
        update_of(&mut self.lighting, key, generation, load)
    }

    /// Takes a SmartShift answer. A confirmation often brings the value that
    /// is shown already, so every answer to the watched read counts; only an
    /// answer to a replaced one does not.
    pub fn update_smartshift(
        &mut self,
        key: &str,
        generation: u64,
        load: SmartShiftLoad,
    ) -> (taken: bool)
        ensures
            taken == (old(self).smartshift@.contains_key(key@)
                && old(self).smartshift@[key@].generation == generation),
            final(self).smartshift@ == answered(old(self).smartshift@, key@, generation, load),
            *final(self) == (DeviceReads { smartshift: final(self).smartshift, ..*old(self) }),
    {
        let route = match self.smartshift.get(key) {
            Some(read) => {
                if read.generation != generation {
                    return false;
                }
                read.route
            },
            None => {
                return false;
            },
        };
        self.smartshift.insert(key, DeviceRead { route, generation, load });
        true
    }

    /// Forgets every read whose device is not among `present`. Returns the
    /// keys whose cache entries have to be emptied, by kind.
    pub fn retain_present(&mut self, present: &Vec<String>) -> (gone: GoneReads)
        ensures
            final(self).dpi@ == only_present(old(self).dpi@, present@),
            final(self).report_rate@ == only_present(old(self).report_rate@, present@),
            final(self).smartshift@ == only_present(old(self).smartshift@, present@),
            final(self).lighting@ == only_present(old(self).lighting@, present@),
            final(self).attached == old(self).attached,
            final(self).next_generation == old(self).next_generation,
            forall|key: Seq<char>| #[trigger]
                lists(gone.dpi@, key) <==> old(self).dpi@.contains_key(key) && !lists(present@, key),
            forall|key: Seq<char>| #[trigger]
                lists(gone.report_rate@, key) <==> old(self).report_rate@.contains_key(key)
                    && !lists(present@, key),
            forall|key: Seq<char>| #[trigger]
                lists(gone.smartshift@, key) <==> old(self).smartshift@.contains_key(key) && !lists(
                    present@,
                    key,
                ),
            forall|key: Seq<char>| #[trigger]
                lists(gone.lighting@, key) <==> old(self).lighting@.contains_key(key) && !lists(
                    present@,
                    key,
                ),
    {
        let gone = GoneReads {
            dpi: absent_keys(&self.dpi, present),
            report_rate: absent_keys(&self.report_rate, present),
            smartshift: absent_keys(&self.smartshift, present),
            lighting: absent_keys(&self.lighting, present),
        };
        self.dpi.retain_keys(present);
        self.report_rate.retain_keys(present);
        self.smartshift.retain_keys(present);
        self.lighting.retain_keys(present);
        gone
    }
}

/// The reads that were forgotten, by kind.
#[derive(Debug)]
pub struct GoneReads {
    pub dpi: Vec<String>,
    pub report_rate: Vec<String>,
    pub smartshift: Vec<String>,
    pub lighting: Vec<String>,
}

/// The part of `reads` whose keys are among `present`.
pub open spec fn only_present<T>(
    reads: Map<Seq<char>, DeviceRead<T>>,
    present: Seq<String>,
) -> Map<Seq<char>, DeviceRead<T>> {
    reads.restrict(Set::new(|key: Seq<char>| reads.contains_key(key) && lists(present, key)))
}

/// An answer to a read that was replaced changes nothing.
pub proof fn stale_answers_are_ignored<T>(
    reads: Map<Seq<char>, DeviceRead<T>>,
    key: Seq<char>,
    generation: u64,
    load: Load<Arc<T>>,
)
    requires
        reads.contains_key(key) ==> reads[key].generation != generation,
    ensures
        answered(reads, key, generation, load) == reads,
{
}

/// An answer changes no read but the one it is for, and of that one only what
/// is shown.
pub proof fn answers_touch_one_read<T>(
    reads: Map<Seq<char>, DeviceRead<T>>,
    key: Seq<char>,
    generation: u64,
    load: Load<Arc<T>>,
)
    ensures
        answered(reads, key, generation, load).dom() == reads.dom(),
        answered(reads, key, generation, load).remove(key) == reads.remove(key),
        reads.contains_key(key) ==> {
            &&& answered(reads, key, generation, load)[key].route == reads[key].route
            &&& answered(reads, key, generation, load)[key].generation == reads[key].generation
        },
{
    assert(answered(reads, key, generation, load).dom() =~= reads.dom());
    assert(answered(reads, key, generation, load).remove(key) =~= reads.remove(key));
}

/// A read that keeps failing for a passing reason is attempted three times; one
/// that fails for good is attempted once.
pub proof fn attempts_are_bounded(kind: ReadKind, error: WriteError)
    ensures
        kind.attempts(1, error) == if kind.permanent(error) {
            1nat
        } else {
            3nat
        },
{
    reveal_with_fuel(ReadKind::attempts, 3);
}

} // verus!
