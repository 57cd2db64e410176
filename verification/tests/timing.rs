use ktime::conditions::ConditionStore;
use ktime::error::Error;
use ktime::pod::{PodCondition, PodSnapshot, PodStatus};
use ktime::timestamp::Timestamp;
use ktime::timing::{collect, compute, render, render_entry, Milestone, TimingEntry, TimingReport};

const T0: i64 = 1_700_000_000;

fn at(secs: i64) -> Timestamp {
    Timestamp { secs, nanos: 0 }
}

fn store_of(entries: &[(&str, Timestamp)]) -> ConditionStore {
    let mut store = ConditionStore::new();
    for (name, time) in entries {
        assert!(store.insert(name.to_string(), *time));
    }
    store
}

fn pairs(report: &TimingReport) -> Vec<(Milestone, i64)> {
    report.entries.iter().map(|e| (e.milestone, e.seconds)).collect()
}

#[test]
fn reports_present_milestones_with_offsets() {
    let store = store_of(&[("PodScheduled", at(T0)), ("Initialized", at(T0 + 5)), ("Ready", at(T0 + 12))]);
    let report = compute(&store).unwrap();
    assert_eq!(pairs(&report), vec![(Milestone::Initialized, 5), (Milestone::Ready, 12)]);
    assert_eq!(report.entries[0].milestone.name(), "Initialized");
    assert_eq!(report.entries[1].milestone.name(), "Ready");
}

#[test]
fn negative_duration_is_reported_unmodified() {
    let store = store_of(&[("Ready", at(T0 - 3)), ("PodScheduled", at(T0))]);
    let report = compute(&store).unwrap();
    assert_eq!(pairs(&report), vec![(Milestone::Ready, -3)]);
}

#[test]
fn missing_baseline_fails_whatever_else_is_recorded() {
    let empty = ConditionStore::new();
    assert!(matches!(compute(&empty), Err(Error::NoBaseline)));
    let store = store_of(&[
        ("Initialized", at(T0)),
        ("PodReadyToStartContainers", at(T0 + 1)),
        ("ContainersReady", at(T0 + 2)),
        ("Ready", at(T0 + 3)),
        ("podscheduled", at(T0)),
    ]);
    assert!(matches!(compute(&store), Err(Error::NoBaseline)));
}

#[test]
fn baseline_alone_gives_an_empty_report() {
    let store = store_of(&[("PodScheduled", at(T0))]);
    assert!(compute(&store).unwrap().entries.is_empty());
}

#[test]
fn every_subset_of_milestones_comes_out_in_fixed_order() {
    let all = [
        (Milestone::Initialized, "Initialized", 7i64),
        (Milestone::PodReadyToStartContainers, "PodReadyToStartContainers", -2),
        (Milestone::ContainersReady, "ContainersReady", 40),
        (Milestone::Ready, "Ready", 41),
    ];
    for mask in 0u32..16 {
        let mut store = ConditionStore::new();
        let mut expected = Vec::new();
        // recorded in reverse order, so that the order of the report is not the order of arrival
        for (i, (milestone, name, offset)) in all.iter().enumerate().rev() {
            if mask & (1 << i) != 0 {
                store.insert(name.to_string(), at(T0 + offset));
                expected.insert(0, (*milestone, *offset));
            }
        }
        store.insert("PodScheduled".to_string(), at(T0));
        store.insert("SomethingElse".to_string(), at(T0 + 99));
        assert_eq!(pairs(&compute(&store).unwrap()), expected);
    }
}

#[test]
fn fractions_of_a_second_are_cut_toward_zero() {
    let scheduled = Timestamp { secs: T0, nanos: 500_000_000 };
    let store = store_of(&[
        ("PodScheduled", scheduled),
        ("Initialized", Timestamp { secs: T0 + 2, nanos: 400_000_000 }),
        ("ContainersReady", Timestamp { secs: T0, nanos: 0 }),
        ("Ready", Timestamp { secs: T0 - 1, nanos: 600_000_000 }),
    ]);
    let report = compute(&store).unwrap();
    assert_eq!(
        pairs(&report),
        vec![(Milestone::Initialized, 1), (Milestone::ContainersReady, 0), (Milestone::Ready, 0)]
    );
}

#[test]
fn lines_carry_label_and_signed_seconds() {
    let report = TimingReport {
        entries: vec![
            TimingEntry { milestone: Milestone::Initialized, seconds: 5 },
            TimingEntry { milestone: Milestone::PodReadyToStartContainers, seconds: 0 },
            TimingEntry { milestone: Milestone::ContainersReady, seconds: 1200 },
            TimingEntry { milestone: Milestone::Ready, seconds: -3 },
        ],
    };
    assert_eq!(
        render(&report),
        vec![
            "Initialize: 5s".to_string(),
            "Pod ready to start containers: 0s".to_string(),
            "Containers ready: 1200s".to_string(),
            "Ready: -3s".to_string(),
        ]
    );
}

#[test]
fn extreme_durations_are_written_in_full() {
    let most = TimingEntry { milestone: Milestone::Ready, seconds: i64::MAX };
    let least = TimingEntry { milestone: Milestone::Ready, seconds: i64::MIN };
    assert_eq!(render_entry(&most), format!("Ready: {}s", i64::MAX));
    assert_eq!(render_entry(&least), format!("Ready: {}s", i64::MIN));
    assert_eq!(render_entry(&least), "Ready: -9223372036854775808s");
    for n in [-1000i64, -10, -9, -1, 0, 1, 9, 10, 11, 99, 100, 101, 1_000_000_007] {
        let entry = TimingEntry { milestone: Milestone::Initialized, seconds: n };
        assert_eq!(render_entry(&entry), format!("Initialize: {}s", n));
    }
}

#[test]
fn labels_and_names_of_milestones() {
    assert_eq!(Milestone::Initialized.name(), "Initialized");
    assert_eq!(Milestone::PodReadyToStartContainers.name(), "PodReadyToStartContainers");
    assert_eq!(Milestone::ContainersReady.name(), "ContainersReady");
    assert_eq!(Milestone::Ready.name(), "Ready");
    assert_eq!(Milestone::Initialized.label(), "Initialize");
    assert_eq!(Milestone::PodReadyToStartContainers.label(), "Pod ready to start containers");
    assert_eq!(Milestone::ContainersReady.label(), "Containers ready");
    assert_eq!(Milestone::Ready.label(), "Ready");
}

fn condition(name: &str, time: Option<Timestamp>) -> PodCondition {
    PodCondition { type_: name.to_string(), last_transition_time: time }
}

#[test]
fn collect_goes_from_pod_to_report() {
    let pod = PodSnapshot {
        name: "web".to_string(),
        status: Some(PodStatus {
            phase: Some("Running".to_string()),
            conditions: Some(vec![
                condition("Ready", Some(at(T0 + 12))),
                condition("Initialized", Some(at(T0 + 5))),
                condition("ContainersReady", None),
                condition("PodScheduled", Some(at(T0))),
            ]),
        }),
    };
    let report = collect(&pod).unwrap();
    assert_eq!(pairs(&report), vec![(Milestone::Initialized, 5), (Milestone::Ready, 12)]);
    assert_eq!(render(&report), vec!["Initialize: 5s".to_string(), "Ready: 12s".to_string()]);
}

#[test]
fn collect_reports_missing_status_and_missing_baseline() {
    let unscheduled = PodSnapshot { name: "web".to_string(), status: None };
    assert!(matches!(collect(&unscheduled), Err(Error::MissingStatus)));
    let bare = PodSnapshot { name: "web".to_string(), status: Some(PodStatus { phase: None, conditions: None }) };
    assert!(matches!(collect(&bare), Err(Error::NoBaseline)));
    let unusable = PodSnapshot {
        name: "web".to_string(),
        status: Some(PodStatus {
            phase: None,
            conditions: Some(vec![condition("PodScheduled", None), condition("Ready", Some(at(T0)))]),
        }),
    };
    assert!(matches!(collect(&unusable), Err(Error::NoBaseline)));
}
