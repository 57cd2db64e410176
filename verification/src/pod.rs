use vstd::prelude::*;
use crate::text::text_is;
use crate::timestamp::Timestamp;

verus! {

/// Where a pod stands in its lifecycle.
#[derive(Clone, Copy, Debug, PartialEq, Eq, Structural)]
pub enum PodPhase {
    Pending,
    Running,
    Succeeded,
    Failed,
    Unknown,
}

impl PodPhase {
    /// The phase a wire value spells; anything unrecognised is `Unknown`.
    pub open spec fn of(text: Seq<char>) -> PodPhase {
        if text == "Pending"@ {
            PodPhase::Pending
        } else if text == "Running"@ {
            PodPhase::Running
        } else if text == "Succeeded"@ {
            PodPhase::Succeeded
        } else if text == "Failed"@ {
            PodPhase::Failed
        } else {
            PodPhase::Unknown
        }
    }

    /// Reads a phase from its wire value.
    pub fn parse(text: &String) -> (phase: PodPhase)
        ensures
            phase == PodPhase::of(text@),
    {
        if text_is(text, "Pending") {
            PodPhase::Pending
        } else if text_is(text, "Running") {
            PodPhase::Running
        } else if text_is(text, "Succeeded") {
            PodPhase::Succeeded
        } else if text_is(text, "Failed") {
            PodPhase::Failed
        } else {
            PodPhase::Unknown
        }
    }
}

/// Names the pod to observe.
#[derive(Clone, Debug)]
pub struct CollectInput {
    /// The name of the pod.
    pub name: String,
    /// The namespace of the pod.
    pub namespace: String,
}

/// One status condition of a pod as the server reported it.
#[derive(Clone, Debug)]
pub struct PodCondition {
    /// The condition's type, such as `Ready`.
    pub type_: String,
    /// When the condition last changed, if the server said so.
    pub last_transition_time: Option<Timestamp>,
}

/// The status block of a pod.
#[derive(Clone, Debug)]
pub struct PodStatus {
    /// The lifecycle phase as the server spells it.
    pub phase: Option<String>,
    /// The status conditions, if any were reported.
    pub conditions: Option<Vec<PodCondition>>,
}

/// A pod as observed at one moment.
#[derive(Clone, Debug)]
pub struct PodSnapshot {
    /// The pod's name.
    pub name: String,
    /// The status block; absent until the pod has been picked up.
    pub status: Option<PodStatus>,
}

impl PodSnapshot {
    /// The pod's phase: `Unknown` while there is no status or no phase.
    pub open spec fn spec_phase(self) -> PodPhase {
        match self.status {
            Some(status) => match status.phase {
                Some(phase) => PodPhase::of(phase@),
                None => PodPhase::Unknown,
            },
            None => PodPhase::Unknown,
        }
    }

    /// Whether the pod is in the `Running` phase.
    pub open spec fn running(self) -> bool {
        self.spec_phase() == PodPhase::Running
    }

    /// The pod's phase.
    pub fn phase(&self) -> (phase: PodPhase)
        ensures
            phase == self.spec_phase(),
    {
        match &self.status {
            Some(status) => match &status.phase {
                Some(phase) => PodPhase::parse(phase),
                None => PodPhase::Unknown,
            },
            None => PodPhase::Unknown,
        }
    }

    /// Whether the pod is in the `Running` phase.
    pub fn is_running(&self) -> (yes: bool)
        ensures
            yes == self.running(),
    {
        match self.phase() {
            PodPhase::Running => true,
            _ => false,
        }
    }
}

/// A pod is running exactly when its status spells the phase `Running`.
pub proof fn lemma_running_means_spelled(pod: PodSnapshot)
    ensures
        pod.running() <==> (pod.status matches Some(status) && status.phase matches Some(phase)
            && phase@ == "Running"@),
{
    reveal_strlit("Pending");
    reveal_strlit("Running");
    reveal_strlit("Succeeded");
    reveal_strlit("Failed");
    match pod.status {
        Some(status) => match status.phase {
            Some(phase) => {
                if phase@ == "Running"@ {
                    assert(phase@[0] == 'R');
                }
            },
            None => {},
        },
        None => {},
    }
}

} // verus!
