use vstd::prelude::*;
use vstd::string::StringExecFns;
use crate::error::Error;
use crate::pod::{CollectInput, PodSnapshot};

verus! {

/// Seconds a watch session lasts unless the caller says otherwise.
pub const DEFAULT_WATCH_TIMEOUT: u32 = 30;

/// Where the search for a running pod stands.
#[derive(Clone, Copy, Debug, PartialEq, Eq, Structural)]
pub enum ReachState {
    /// The pod is being fetched for the first time.
    Fetching,
    /// A watch is open and its events are being read.
    Watching,
    /// The watch ended without a running pod; the pod is fetched once more.
    TimedOut,
    /// A snapshot has been handed back.
    Reached,
}

/// One event of a watch stream.
#[derive(Clone, Debug)]
pub enum WatchEvent {
    Added(PodSnapshot),
    Modified(PodSnapshot),
    Deleted(PodSnapshot),
    Bookmark,
    Error(String),
}

/// What the caller saw when it did as directed.
#[derive(Clone, Debug)]
pub enum Observation {
    /// A direct fetch returned the pod.
    Fetched(PodSnapshot),
    /// A direct fetch found no such pod.
    NotFound,
    /// The watch stream delivered an event.
    Event(WatchEvent),
    /// The watch stream ended or its time ran out.
    StreamEnded,
}

/// What the caller is to do next.
#[derive(Clone, Debug)]
pub enum Directive {
    /// Fetch the pod directly.
    Fetch,
    /// Open a watch with this field selector and this timeout.
    Watch { field_selector: String, timeout_seconds: u32 },
    /// Read the next event of the open watch.
    Next,
    /// Log the message, then read the next event of the open watch.
    Report(String),
    /// Stop: this is the pod as last observed.
    Finish(PodSnapshot),
}

/// The kind of a step, without what it carries.
#[derive(Clone, Copy, Debug, PartialEq, Eq, Structural)]
pub enum Move {
    Fetch,
    Watch,
    Next,
    Report,
    Finish,
    /// The observation was refused with an error.
    Fail,
}

/// The field selector that restricts a watch to the pod named `name`.
pub open spec fn selector_for(name: Seq<char>) -> Seq<char> {
    "metadata.name="@ + name
}

/// Whether the search has asked for a direct fetch and waits for its result.
pub open spec fn awaits_fetch(state: ReachState) -> bool {
    state == ReachState::Fetching || state == ReachState::TimedOut
}

/// The state an observation leads to, or `None` where it is refused: a pod
/// that does not exist, or an observation the state does not expect.
pub open spec fn next_state(state: ReachState, observation: Observation) -> Option<ReachState> {
    match (state, observation) {
        (ReachState::Fetching, Observation::Fetched(pod)) => if pod.running() {
            Some(ReachState::Reached)
        } else {
            Some(ReachState::Watching)
        },
        (ReachState::Watching, Observation::Event(WatchEvent::Modified(pod))) => if pod.running() {
            Some(ReachState::Reached)
        } else {
            Some(ReachState::Watching)
        },
        (ReachState::Watching, Observation::Event(_)) => Some(ReachState::Watching),
        (ReachState::Watching, Observation::StreamEnded) => Some(ReachState::TimedOut),
        (ReachState::TimedOut, Observation::Fetched(_)) => Some(ReachState::Reached),
        _ => None,
    }
}

/// The kind of step an observation is answered with.
pub open spec fn next_move(state: ReachState, observation: Observation) -> Move {
    match (state, observation) {
        (ReachState::Fetching, Observation::Fetched(pod)) => if pod.running() {
            Move::Finish
        } else {
            Move::Watch
        },
        (ReachState::Watching, Observation::Event(WatchEvent::Modified(pod))) => if pod.running() {
            Move::Finish
        } else {
            Move::Next
        },
        (ReachState::Watching, Observation::Event(WatchEvent::Error(_))) => Move::Report,
        (ReachState::Watching, Observation::Event(_)) => Move::Next,
        (ReachState::Watching, Observation::StreamEnded) => Move::Fetch,
        (ReachState::TimedOut, Observation::Fetched(_)) => Move::Finish,
        _ => Move::Fail,
    }
}

/// The search for one pod in the `Running` phase.
///
/// The caller starts with a direct fetch and reports each thing it sees to
/// [`Reacher::step`], which says what to do next.
#[derive(Clone, Debug)]
pub struct Reacher {
    /// The pod that is looked for.
    pub target: CollectInput,
    /// Seconds a watch session may last.
    pub timeout_seconds: u32,
    /// Where the search stands.
    pub state: ReachState,
}

impl Directive {
    /// The kind of this directive.
    pub open spec fn kind(self) -> Move {
        match self {
            Directive::Fetch => Move::Fetch,
            Directive::Watch { .. } => Move::Watch,
            Directive::Next => Move::Next,
            Directive::Report(_) => Move::Report,
            Directive::Finish(_) => Move::Finish,
        }
    }
}

impl Reacher {
    /// Starts a search; the first thing to do is a direct fetch.
    pub fn new(target: CollectInput, timeout_seconds: u32) -> (started: (Reacher, Directive))
        ensures
            started.0.target == target,
            started.0.timeout_seconds == timeout_seconds,
            started.0.state == ReachState::Fetching,
            started.1 is Fetch,
    {
        (Reacher { target, timeout_seconds, state: ReachState::Fetching }, Directive::Fetch)
    }

    /// What a directive must carry when it answers `observation` in the
    /// state `self` is in.
    pub open spec fn answers(self, observation: Observation, directive: Directive) -> bool {
        &&& directive.kind() == next_move(self.state, observation)
        &&& directive matches Directive::Watch { field_selector, timeout_seconds } ==> {
            &&& field_selector@ == selector_for(self.target.name@)
            &&& timeout_seconds == self.timeout_seconds
        }
        &&& directive matches Directive::Report(message) ==> observation
            == Observation::Event(WatchEvent::Error(message))
        &&& directive matches Directive::Finish(pod) ==> {
            ||| observation == Observation::Fetched(pod)
            ||| observation == Observation::Event(WatchEvent::Modified(pod))
        }
    }

    /// Takes in what the caller saw and says what to do next.
    ///
    /// A fetch that finds no pod fails with [`Error::PodNotFound`]; an
    /// observation that the current state does not expect fails with
    /// [`Error::OutOfTurn`]. A failure leaves the search where it was.
    pub fn step(&mut self, observation: Observation) -> (answer: Result<Directive, Error>)
        ensures
            final(self).target == old(self).target,
            final(self).timeout_seconds == old(self).timeout_seconds,
            match answer {
                Ok(directive) => {
                    &&& next_state(old(self).state, observation) == Some(final(self).state)
                    &&& old(self).answers(observation, directive)
                },
                Err(e) => {
                    &&& next_state(old(self).state, observation) is None
                    &&& final(self).state == old(self).state
                    &&& if awaits_fetch(old(self).state) && observation is NotFound {
                        e matches Error::PodNotFound { namespace, name } && namespace@
                            == old(self).target.namespace@ && name@ == old(self).target.name@
                    } else {
                        e is OutOfTurn
                    }
                },
            },
    {
        match self.state {
            ReachState::Fetching => match observation {
                Observation::Fetched(pod) => {
                    if pod.is_running() {
                        self.state = ReachState::Reached;
                        Ok(Directive::Finish(pod))
                    } else {
                        self.state = ReachState::Watching;
                        let field_selector = String::from_str("metadata.name=").concat(
                            self.target.name.as_str(),
                        );
                        Ok(Directive::Watch { field_selector, timeout_seconds: self.timeout_seconds })
                    }
                },
                Observation::NotFound => Err(self.not_found()),
                _ => Err(Error::OutOfTurn),
            },
            ReachState::Watching => match observation {
                Observation::Event(event) => match event {
                    WatchEvent::Modified(pod) => {
                        if pod.is_running() {
                            self.state = ReachState::Reached;
                            Ok(Directive::Finish(pod))
                        } else {
                            Ok(Directive::Next)
                        }
                    },
                    WatchEvent::Error(message) => Ok(Directive::Report(message)),
                    _ => Ok(Directive::Next),
                },
                Observation::StreamEnded => {
                    self.state = ReachState::TimedOut;
                    Ok(Directive::Fetch)
                },
                _ => Err(Error::OutOfTurn),
            },
            ReachState::TimedOut => match observation {
                Observation::Fetched(pod) => {
                    self.state = ReachState::Reached;
                    Ok(Directive::Finish(pod))
                },
                Observation::NotFound => Err(self.not_found()),
                _ => Err(Error::OutOfTurn),
            },
            ReachState::Reached => Err(Error::OutOfTurn),
        }
    }

    /// The error that reports the target as missing.
    fn not_found(&self) -> (error: Error)
        ensures
            error matches Error::PodNotFound { namespace, name } && namespace@
                == self.target.namespace@ && name@ == self.target.name@,
    {
        Error::PodNotFound { namespace: self.target.namespace.clone(), name: self.target.name.clone() }
    }
}

/// The steps a search takes when it is fed `observations` one after the
/// other from `state` on. The search stops at the first refusal.
pub open spec fn moves(state: ReachState, observations: Seq<Observation>) -> Seq<Move>
    decreases observations.len(),
{
    if observations.len() == 0 {
        Seq::empty()
    } else {
        match next_state(state, observations[0]) {
            None => seq![Move::Fail],
            Some(next) => seq![next_move(state, observations[0])] + moves(
                next,
                observations.drop_first(),
            ),
        }
    }
}

/// How often `wanted` occurs among `steps`.
pub open spec fn count(steps: Seq<Move>, wanted: Move) -> nat
    decreases steps.len(),
{
    if steps.len() == 0 {
        0
    } else {
        count(steps.drop_first(), wanted) + if steps[0] == wanted {
            1nat
        } else {
            0nat
        }
    }
}

/// From any state on, a search opens a watch at most once, and only if it
/// is still at its first fetch; it asks for another fetch at most once, and
/// never after the watch has ended; it hands back a snapshot at most once.
pub proof fn lemma_search_is_bounded(state: ReachState, observations: Seq<Observation>)
    ensures
        count(moves(state, observations), Move::Watch) <= (if state == ReachState::Fetching {
            1nat
        } else {
            0nat
        }),
        count(moves(state, observations), Move::Fetch) <= (if state == ReachState::Fetching || state
            == ReachState::Watching {
            1nat
        } else {
            0nat
        }),
        count(moves(state, observations), Move::Finish) <= (if state == ReachState::Reached {
            0nat
        } else {
            1nat
        }),
    decreases observations.len(),
{
    let steps = moves(state, observations);
    if observations.len() > 0 {
        let first = observations[0];
        match next_state(state, first) {
            None => {
                assert(steps == seq![Move::Fail]);
                assert(steps.drop_first() == Seq::<Move>::empty());
                assert(count(Seq::<Move>::empty(), Move::Watch) == 0);
                assert(count(Seq::<Move>::empty(), Move::Fetch) == 0);
                assert(count(Seq::<Move>::empty(), Move::Finish) == 0);
            },
            Some(next) => {
                let rest = moves(next, observations.drop_first());
                lemma_search_is_bounded(next, observations.drop_first());
                assert(steps == seq![next_move(state, first)] + rest);
                assert(steps[0] == next_move(state, first));
                assert(steps.drop_first() == rest);
                assert(next_move(state, first) == Move::Watch ==> state == ReachState::Fetching
                    && next == ReachState::Watching);
                assert(next_move(state, first) == Move::Fetch ==> state == ReachState::Watching
                    && next == ReachState::TimedOut);
                assert(next_move(state, first) == Move::Finish ==> next == ReachState::Reached);
                assert(state == ReachState::Watching ==> next != ReachState::Fetching);
                assert(state == ReachState::TimedOut ==> next == ReachState::Reached);
            },
        }
    }
}

/// When the first fetch already shows a running pod, the search ends with
/// that snapshot: no watch is opened and nothing more is fetched, whatever
/// the caller reports afterwards.
pub proof fn lemma_running_pod_needs_no_watch(pod: PodSnapshot, later: Seq<Observation>)
    requires
        pod.running(),
    ensures
        moves(ReachState::Fetching, seq![Observation::Fetched(pod)] + later)[0] == Move::Finish,
        count(moves(ReachState::Fetching, seq![Observation::Fetched(pod)] + later), Move::Watch)
            == 0,
        count(moves(ReachState::Fetching, seq![Observation::Fetched(pod)] + later), Move::Fetch)
            == 0,
{
    let observations = seq![Observation::Fetched(pod)] + later;
    let steps = moves(ReachState::Fetching, observations);
    assert(observations[0] == Observation::Fetched(pod));
    assert(observations.drop_first() == later);
    lemma_search_is_bounded(ReachState::Reached, later);
    assert(steps == seq![Move::Finish] + moves(ReachState::Reached, later));
    assert(steps.drop_first() == moves(ReachState::Reached, later));
}

/// How the caller goes on when a search ended without a running pod.
#[derive(Clone, Copy, Debug, PartialEq, Eq, Structural)]
pub struct PollPolicy {
    /// Seconds to wait before searching again.
    pub interval_seconds: u64,
    /// Searches after which the caller gives up; `None` for no limit.
    pub max_attempts: Option<u32>,
}

/// What to do after one search.
#[derive(Clone, Copy, Debug, PartialEq, Eq, Structural)]
pub enum PollDecision {
    /// The pod is running: go on to read its conditions.
    Proceed,
    /// Wait this many seconds, then search again.
    Retry { wait_seconds: u64 },
    /// The limit is reached: stop without a running pod.
    GiveUp,
}

impl PollPolicy {
    /// Search again every 15 seconds, without limit.
    pub fn unbounded() -> (policy: PollPolicy)
        ensures
            policy == (PollPolicy { interval_seconds: 15, max_attempts: None }),
    {
        PollPolicy { interval_seconds: 15, max_attempts: None }
    }

    /// What the policy calls for after `attempts` searches.
    pub open spec fn decision(self, attempts: u32, running: bool) -> PollDecision {
        if running {
            PollDecision::Proceed
        } else if self.max_attempts matches Some(limit) && attempts >= limit {
            PollDecision::GiveUp
        } else {
            PollDecision::Retry { wait_seconds: self.interval_seconds }
        }
    }

    /// Decides how to go on after `attempts` searches, the last of which
    /// found the pod running or not.
    pub fn after_attempt(&self, attempts: u32, running: bool) -> (decision: PollDecision)
        ensures
            decision == self.decision(attempts, running),
    {
        if running {
            return PollDecision::Proceed;
        }
        match self.max_attempts {
            Some(limit) => {
                if attempts >= limit {
                    PollDecision::GiveUp
                } else {
                    PollDecision::Retry { wait_seconds: self.interval_seconds }
                }
            },
            None => PollDecision::Retry { wait_seconds: self.interval_seconds },
        }
    }
}

} // verus!
