use vstd::prelude::*;
use vstd::string::StringExecFns;
use crate::conditions::{recorded, ConditionStore};
use crate::error::Error;
use crate::pod::PodSnapshot;
use crate::text::{decimal, push_decimal};
use crate::timestamp::Timestamp;

verus! {

/// The name of the condition every duration is measured from.
pub open spec fn baseline() -> Seq<char> {
    "PodScheduled"@
}

/// A readiness milestone of a pod, in the order a pod passes them.
#[derive(Clone, Copy, Debug, PartialEq, Eq, Structural)]
pub enum Milestone {
    Initialized,
    PodReadyToStartContainers,
    ContainersReady,
    Ready,
}

impl Milestone {
    /// The name of the condition that marks the milestone.
    pub open spec fn spec_name(self) -> Seq<char> {
        match self {
            Milestone::Initialized => "Initialized"@,
            Milestone::PodReadyToStartContainers => "PodReadyToStartContainers"@,
            Milestone::ContainersReady => "ContainersReady"@,
            Milestone::Ready => "Ready"@,
        }
    }

    /// The words a report line opens with.
    pub open spec fn spec_label(self) -> Seq<char> {
        match self {
            Milestone::Initialized => "Initialize"@,
            Milestone::PodReadyToStartContainers => "Pod ready to start containers"@,
            Milestone::ContainersReady => "Containers ready"@,
            Milestone::Ready => "Ready"@,
        }
    }

    /// The milestone's place in the fixed order, from 0.
    pub open spec fn rank(self) -> int {
        match self {
            Milestone::Initialized => 0,
            Milestone::PodReadyToStartContainers => 1,
            Milestone::ContainersReady => 2,
            Milestone::Ready => 3,
        }
    }

    /// The name of the condition that marks the milestone.
    pub fn name(&self) -> (name: &'static str)
        ensures
            name@ == self.spec_name(),
    {
        match self {
            Milestone::Initialized => "Initialized",
            Milestone::PodReadyToStartContainers => "PodReadyToStartContainers",
            Milestone::ContainersReady => "ContainersReady",
            Milestone::Ready => "Ready",
        }
    }

    /// The words a report line opens with.
    pub fn label(&self) -> (label: &'static str)
        ensures
            label@ == self.spec_label(),
    {
        match self {
            Milestone::Initialized => "Initialize",
            Milestone::PodReadyToStartContainers => "Pod ready to start containers",
            Milestone::ContainersReady => "Containers ready",
            Milestone::Ready => "Ready",
        }
    }
}

/// One line of a report: a milestone and the seconds from scheduling to it.
#[derive(Clone, Copy, Debug, PartialEq, Eq, Structural)]
pub struct TimingEntry {
    pub milestone: Milestone,
    /// Negative when the milestone's time precedes the scheduling time.
    pub seconds: i64,
}

/// A [`TimingEntry`] with its duration as a mathematical integer.
pub struct Timing {
    pub milestone: Milestone,
    pub seconds: int,
}

impl View for TimingEntry {
    type V = Timing;

    open spec fn view(&self) -> Timing {
        Timing { milestone: self.milestone, seconds: self.seconds as int }
    }
}

/// The durations of the milestones a pod has passed, in milestone order.
#[derive(Clone, Debug)]
pub struct TimingReport {
    pub entries: Vec<TimingEntry>,
}

impl View for TimingReport {
    type V = Seq<Timing>;

    open spec fn view(&self) -> Seq<Timing> {
        Seq::new(self.entries@.len(), |i: int| self.entries@[i]@)
    }
}

/// The report line of one milestone: one timing when the milestone is
/// recorded, nothing when it is not.
pub open spec fn timing_of(conditions: Map<Seq<char>, Timestamp>, milestone: Milestone) -> Seq<Timing> {
    if conditions.dom().contains(milestone.spec_name()) {
        seq![
            Timing {
                milestone,
                seconds: conditions[milestone.spec_name()].elapsed_since(conditions[baseline()]),
            },
        ]
    } else {
        Seq::empty()
    }
}

/// The report a set of conditions calls for: the recorded milestones in
/// their fixed order, each with the time elapsed since scheduling.
pub open spec fn report_of(conditions: Map<Seq<char>, Timestamp>) -> Seq<Timing> {
    timing_of(conditions, Milestone::Initialized) + timing_of(
        conditions,
        Milestone::PodReadyToStartContainers,
    ) + timing_of(conditions, Milestone::ContainersReady) + timing_of(conditions, Milestone::Ready)
}

/// Appends the timing of `milestone` to `entries` if the store records it.
fn push_timing(
    entries: &mut Vec<TimingEntry>,
    store: &ConditionStore,
    scheduled: Timestamp,
    milestone: Milestone,
)
    requires
        scheduled.is_valid(),
        store@.dom().contains(baseline()),
        store@[baseline()] == scheduled,
    ensures
        Seq::new(final(entries)@.len(), |i: int| final(entries)@[i]@) == Seq::new(
            old(entries)@.len(),
            |i: int| old(entries)@[i]@,
        ) + timing_of(store@, milestone),
{
    match store.get(milestone.name()) {
        Some(time) => {
            let seconds = time.seconds_since(&scheduled);
            entries.push(TimingEntry { milestone, seconds });
        },
        None => {},
    }
    assert(Seq::new(entries@.len(), |i: int| entries@[i]@) =~= Seq::new(
        old(entries)@.len(),
        |i: int| old(entries)@[i]@,
    ) + timing_of(store@, milestone));
}

/// Measures each recorded milestone from the moment the pod was scheduled.
///
/// Fails with [`Error::NoBaseline`] exactly when the store holds no
/// `PodScheduled` condition. A milestone the store does not hold is left
/// out; a milestone that precedes scheduling is reported with its negative
/// duration.
pub fn compute(store: &ConditionStore) -> (computed: Result<TimingReport, Error>)
    ensures
        match computed {
            Ok(report) => store@.dom().contains(baseline()) && report@ == report_of(store@),
            Err(e) => e is NoBaseline && !store@.dom().contains(baseline()),
        },
{
    let scheduled = match store.get("PodScheduled") {
        Some(time) => time,
        None => {
            return Err(Error::NoBaseline);
        },
    };
    let mut entries: Vec<TimingEntry> = Vec::new();
    assert(Seq::new(entries@.len(), |i: int| entries@[i]@) =~= Seq::<Timing>::empty());
    push_timing(&mut entries, store, scheduled, Milestone::Initialized);
    push_timing(&mut entries, store, scheduled, Milestone::PodReadyToStartContainers);
    push_timing(&mut entries, store, scheduled, Milestone::ContainersReady);
    push_timing(&mut entries, store, scheduled, Milestone::Ready);
    let report = TimingReport { entries };
    assert(report@ =~= report_of(store@));
    Ok(report)
}

/// The conditions a pod's status records; `None` while the pod has no
/// status.
pub open spec fn conditions_of(pod: PodSnapshot) -> Option<Map<Seq<char>, Timestamp>> {
    match pod.status {
        None => None,
        Some(status) => match status.conditions {
            Some(conditions) => Some(recorded(conditions@)),
            None => Some(Map::empty()),
        },
    }
}

/// Reads a pod's conditions and measures its milestones from scheduling.
///
/// Fails with [`Error::MissingStatus`] when the pod has no status block and
/// with [`Error::NoBaseline`] when its conditions hold no valid
/// `PodScheduled` time.
pub fn collect(pod: &PodSnapshot) -> (collected: Result<TimingReport, Error>)
    ensures
        match conditions_of(*pod) {
            None => collected matches Err(e) && e is MissingStatus,
            Some(conditions) => if conditions.dom().contains(baseline()) {
                collected matches Ok(report) && report@ == report_of(conditions)
            } else {
                collected matches Err(e) && e is NoBaseline
            },
        },
{
    match ConditionStore::build(pod) {
        Ok(store) => compute(&store),
        Err(e) => Err(e),
    }
}

/// The text of one report line: the milestone's label, a colon and a space,
/// the seconds in decimal, and the letter `s`.
pub open spec fn line_of(timing: Timing) -> Seq<char> {
    timing.milestone.spec_label() + ": "@ + decimal(timing.seconds) + "s"@
}

/// Writes one report line.
pub fn render_entry(entry: &TimingEntry) -> (line: String)
    ensures
        line@ == line_of(entry@),
{
    let mut line = String::from_str(entry.milestone.label());
    line.append(": ");
    push_decimal(&mut line, entry.seconds);
    line.append("s");
    line
}

/// Writes a report, one line for each entry in the report's order.
pub fn render(report: &TimingReport) -> (lines: Vec<String>)
    ensures
        lines@.len() == report@.len(),
        forall|i: int| 0 <= i < lines@.len() ==> (#[trigger] lines@[i])@ == line_of(report@[i]),
{
    let mut lines: Vec<String> = Vec::new();
    let mut i: usize = 0;
    while i < report.entries.len()
        invariant
            i <= report.entries.len(),
            lines@.len() == i,
            report@.len() == report.entries@.len(),
            forall|k: int| 0 <= k < i ==> (#[trigger] lines@[k])@ == line_of(report@[k]),
        decreases report.entries.len() - i,
    {
        let line = render_entry(&report.entries[i]);
        lines.push(line);
        i += 1;
    }
    lines
}

/// A report names exactly the recorded milestones, each once and in the
/// fixed order, each with the time elapsed from scheduling to it.
pub proof fn lemma_report_lists_recorded_milestones(conditions: Map<Seq<char>, Timestamp>)
    ensures
        forall|i: int, j: int|
            0 <= i < j < report_of(conditions).len() ==> (#[trigger] report_of(
                conditions,
            )[i]).milestone.rank() < (#[trigger] report_of(conditions)[j]).milestone.rank(),
        forall|i: int|
            0 <= i < report_of(conditions).len() ==> {
                let timing = #[trigger] report_of(conditions)[i];
                &&& conditions.dom().contains(timing.milestone.spec_name())
                &&& timing.seconds == conditions[timing.milestone.spec_name()].elapsed_since(
                    conditions[baseline()],
                )
            },
        forall|milestone: Milestone|
            conditions.dom().contains(#[trigger] milestone.spec_name()) ==> exists|i: int|
                0 <= i < report_of(conditions).len() && (#[trigger] report_of(
                    conditions,
                )[i]).milestone == milestone,
{
    let a = timing_of(conditions, Milestone::Initialized);
    let b = timing_of(conditions, Milestone::PodReadyToStartContainers);
    let c = timing_of(conditions, Milestone::ContainersReady);
    let d = timing_of(conditions, Milestone::Ready);
    let r = report_of(conditions);
    assert(r == a + b + c + d);
    assert forall|milestone: Milestone|
        conditions.dom().contains(#[trigger] milestone.spec_name()) implies exists|i: int|
        0 <= i < r.len() && (#[trigger] r[i]).milestone == milestone by {
        match milestone {
            Milestone::Initialized => {
                assert(r[0].milestone == milestone);
            },
            Milestone::PodReadyToStartContainers => {
                assert(r[a.len() as int].milestone == milestone);
            },
            Milestone::ContainersReady => {
                assert(r[(a.len() + b.len()) as int].milestone == milestone);
            },
            Milestone::Ready => {
                assert(r[(a.len() + b.len() + c.len()) as int].milestone == milestone);
            },
        }
    }
}

} // verus!
