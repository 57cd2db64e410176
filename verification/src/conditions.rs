use vstd::prelude::*;
use vstd::string::StringExecFns;
use crate::error::Error;
use crate::pod::{PodCondition, PodSnapshot};
use crate::timestamp::Timestamp;

verus! {

/// One recorded condition: its name and the valid instant at which it last
/// changed.
#[derive(Debug)]
pub struct Condition {
    name: String,
    time: Timestamp,
}

impl Condition {
    #[verifier::type_invariant]
    spec fn time_is_valid(self) -> bool {
        self.time.is_valid()
    }

    /// The condition as a pair of name and time.
    pub closed spec fn recording(self) -> (Seq<char>, Timestamp) {
        (self.name@, self.time)
    }

    /// Pairs a name with a time, provided the time is a valid instant.
    pub fn new(name: String, time: Timestamp) -> (made: Option<Condition>)
        ensures
            match made {
                Some(condition) => time.is_valid() && condition.recording() == (name@, time),
                None => !time.is_valid(),
            },
    {
        if time.valid() {
            Some(Condition { name, time })
        } else {
            None
        }
    }

    /// The condition's name.
    pub fn name(&self) -> (name: &String)
        ensures
            name@ == self.recording().0,
    {
        &self.name
    }

    /// When the condition last changed.
    pub fn time(&self) -> (time: Timestamp)
        ensures
            time == self.recording().1,
            time.is_valid(),
    {
        proof {
            use_type_invariant(self);
        }
        self.time
    }
}

/// The mapping a sequence of recordings amounts to: each recording
/// overwrites whatever was recorded under the same name before it.
pub open spec fn mapping_of(recordings: Seq<(Seq<char>, Timestamp)>) -> Map<Seq<char>, Timestamp>
    decreases recordings.len(),
{
    if recordings.len() == 0 {
        Map::empty()
    } else {
        mapping_of(recordings.drop_last()).insert(recordings.last().0, recordings.last().1)
    }
}

/// Index of the last of the first `upto` recordings made under `name`.
pub open spec fn last_recording(
    recordings: Seq<(Seq<char>, Timestamp)>,
    name: Seq<char>,
    upto: int,
) -> Option<int>
    decreases upto,
{
    if upto <= 0 || upto > recordings.len() {
        None
    } else if recordings[upto - 1].0 == name {
        Some(upto - 1)
    } else {
        last_recording(recordings, name, upto - 1)
    }
}

/// What [`last_recording`] finds is the last recording under the name among
/// those it looks through.
pub proof fn lemma_last_recording(recordings: Seq<(Seq<char>, Timestamp)>, name: Seq<char>, upto: int)
    requires
        0 <= upto <= recordings.len(),
    ensures
        match last_recording(recordings, name, upto) {
            Some(i) => 0 <= i < upto && recordings[i].0 == name && forall|j: int|
                i < j < upto ==> recordings[j].0 != name,
            None => forall|j: int| 0 <= j < upto ==> recordings[j].0 != name,
        },
    decreases upto,
{
    if upto > 0 && recordings[upto - 1].0 != name {
        lemma_last_recording(recordings, name, upto - 1);
    }
}

/// Two sequences that agree on their first `upto` recordings give the same
/// answer there.
proof fn lemma_last_recording_agrees(
    a: Seq<(Seq<char>, Timestamp)>,
    b: Seq<(Seq<char>, Timestamp)>,
    name: Seq<char>,
    upto: int,
)
    requires
        0 <= upto <= a.len(),
        upto <= b.len(),
        forall|i: int| 0 <= i < upto ==> a[i] == b[i],
    ensures
        last_recording(a, name, upto) == last_recording(b, name, upto),
    decreases upto,
{
    if upto > 0 && a[upto - 1].0 != name {
        lemma_last_recording_agrees(a, b, name, upto - 1);
    }
}

/// The mapping holds, under each name, the last recording made under it.
pub proof fn lemma_mapping_holds_last(recordings: Seq<(Seq<char>, Timestamp)>, name: Seq<char>)
    ensures
        match last_recording(recordings, name, recordings.len() as int) {
            Some(i) => 0 <= i < recordings.len() && mapping_of(recordings).dom().contains(name)
                && mapping_of(recordings)[name] == recordings[i].1,
            None => !mapping_of(recordings).dom().contains(name),
        },
    decreases recordings.len(),
{
    lemma_last_recording(recordings, name, recordings.len() as int);
    if recordings.len() > 0 {
        let rest = recordings.drop_last();
        if recordings.last().0 != name {
            lemma_mapping_holds_last(rest, name);
            lemma_last_recording(rest, name, rest.len() as int);
            lemma_last_recording_agrees(rest, recordings, name, rest.len() as int);
        }
    }
}

/// The last-transition times of a pod's conditions, keyed by condition name.
#[derive(Debug)]
pub struct ConditionStore {
    recordings: Vec<Condition>,
}

impl ConditionStore {
    /// Every recording made so far, oldest first.
    pub closed spec fn history(self) -> Seq<(Seq<char>, Timestamp)> {
        Seq::new(self.recordings@.len(), |i: int| self.recordings@[i].recording())
    }

    /// An empty store.
    pub fn new() -> (store: ConditionStore)
        ensures
            store@ == Map::<Seq<char>, Timestamp>::empty(),
            store.history() == Seq::<(Seq<char>, Timestamp)>::empty(),
    {
        let store = ConditionStore { recordings: Vec::new() };
        assert(store.history() == Seq::<(Seq<char>, Timestamp)>::empty());
        store
    }

    /// Records `time` under `name`, replacing what was recorded before, and
    /// says whether it did: a time that is no valid instant is not recorded.
    pub fn insert(&mut self, name: String, time: Timestamp) -> (kept: bool)
        ensures
            kept == time.is_valid(),
            final(self)@ == if kept {
                old(self)@.insert(name@, time)
            } else {
                old(self)@
            },
    {
        match Condition::new(name, time) {
            Some(condition) => {
                self.recordings.push(condition);
                assert(self.history() == old(self).history().push((name@, time)));
                assert(self.history().drop_last() == old(self).history());
                true
            },
            None => false,
        }
    }

    /// The time recorded under `name`.
    pub fn get(&self, name: &str) -> (found: Option<Timestamp>)
        ensures
            found == if self@.dom().contains(name@) {
                Some(self@[name@])
            } else {
                None
            },
            found matches Some(time) ==> time.is_valid(),
    {
        proof {
            lemma_mapping_holds_last(self.history(), name@);
        }
        let wanted = String::from_str(name);
        let mut i: usize = self.recordings.len();
        while i > 0
            invariant
                i <= self.recordings.len(),
                wanted@ == name@,
                self.history().len() == self.recordings.len(),
                forall|k: int|
                    0 <= k < self.recordings.len() ==> self.history()[k]
                        == self.recordings@[k].recording(),
                last_recording(self.history(), name@, self.recordings.len() as int)
                    == last_recording(self.history(), name@, i as int),
            decreases i,
        {
            i -= 1;
            let recording = &self.recordings[i];
            assert(self.history()[i as int] == recording.recording());
            if *recording.name() == wanted {
                assert(last_recording(self.history(), name@, i + 1) == Some(i as int));
                proof {
                    lemma_mapping_holds_last(self.history(), name@);
                }
                return Some(recording.time());
            }
        }
        None
    }

    /// Whether anything is recorded under `name`.
    pub fn contains(&self, name: &str) -> (yes: bool)
        ensures
            yes == self@.dom().contains(name@),
    {
        self.get(name).is_some()
    }

    /// Gathers the conditions of a pod.
    ///
    /// Fails with [`Error::MissingStatus`] when the pod has no status block.
    /// A condition without a transition time, or with one that is no valid
    /// instant, is left out; the others are recorded in their order.
    pub fn build(pod: &PodSnapshot) -> (built: Result<ConditionStore, Error>)
        ensures
            match pod.status {
                None => built matches Err(e) && e is MissingStatus,
                Some(status) => built matches Ok(store) && store@ == match status.conditions {
                    Some(conditions) => recorded(conditions@),
                    None => Map::empty(),
                },
            },
    {
        let status = match &pod.status {
            Some(status) => status,
            None => {
                return Err(Error::MissingStatus);
            },
        };
        let mut store = ConditionStore::new();
        match &status.conditions {
            None => {},
            Some(conditions) => {
                let mut i: usize = 0;
                while i < conditions.len()
                    invariant
                        i <= conditions.len(),
                        store@ == recorded(conditions@.subrange(0, i as int)),
                    decreases conditions.len() - i,
                {
                    let condition = &conditions[i];
                    assert(conditions@.subrange(0, i + 1).drop_last() == conditions@.subrange(
                        0,
                        i as int,
                    ));
                    match condition.last_transition_time {
                        Some(time) => {
                            store.insert(condition.type_.clone(), time);
                        },
                        None => {},
                    }
                    i += 1;
                }
                assert(conditions@.subrange(0, conditions.len() as int) == conditions@);
            },
        }
        Ok(store)
    }
}

impl View for ConditionStore {
    type V = Map<Seq<char>, Timestamp>;

    closed spec fn view(&self) -> Map<Seq<char>, Timestamp> {
        mapping_of(self.history())
    }
}

/// What a pod's conditions record: each condition that carries a valid
/// transition time, later ones overwriting earlier ones of the same type.
pub open spec fn recorded(conditions: Seq<PodCondition>) -> Map<Seq<char>, Timestamp>
    decreases conditions.len(),
{
    if conditions.len() == 0 {
        Map::empty()
    } else {
        let before = recorded(conditions.drop_last());
        let condition = conditions.last();
        match condition.last_transition_time {
            Some(time) => if time.is_valid() {
                before.insert(condition.type_@, time)
            } else {
                before
            },
            None => before,
        }
    }
}

/// Every time a store built from conditions holds is a valid instant that
/// one of the conditions carried under that name.
pub proof fn lemma_recorded_comes_from_conditions(conditions: Seq<PodCondition>, name: Seq<char>)
    requires
        recorded(conditions).dom().contains(name),
    ensures
        recorded(conditions)[name].is_valid(),
        exists|i: int|
            0 <= i < conditions.len() && (#[trigger] conditions[i]).type_@ == name
                && conditions[i].last_transition_time == Some(recorded(conditions)[name]),
    decreases conditions.len(),
{
    if conditions.len() > 0 {
        let rest = conditions.drop_last();
        let condition = conditions.last();
        let taken = condition.last_transition_time matches Some(time) && time.is_valid()
            && condition.type_@ == name;
        if taken {
            assert(conditions[conditions.len() - 1].type_@ == name);
        } else {
            lemma_recorded_comes_from_conditions(rest, name);
            let i = choose|i: int|
                0 <= i < rest.len() && (#[trigger] rest[i]).type_@ == name
                    && rest[i].last_transition_time == Some(recorded(rest)[name]);
            assert(conditions[i] == rest[i]);
        }
    }
}

} // verus!
