use std::time::Duration;
use sup_resilience::ident::{ChannelIdent, PackageIdent, SUP_PKG_IDENT};
use sup_resilience::self_updater::Runner;
use sup_resilience::task::{Action, Event, Phase, Task, VersionOrder};

fn runner(period: Duration) -> Runner {
    Runner {
        current: PackageIdent {
            origin: "core".to_string(),
            name: "hab-sup".to_string(),
            version: Some("1.6.0".to_string()),
            release: None,
        },
        update_url: "https://bldr.example.test".to_string(),
        update_channel: ChannelIdent("stable".to_string()),
        period,
    }
}

fn begun(period: Duration) -> Task {
    Task::begin(runner(period)).expect("the period is not empty").0
}

#[test]
fn supervisor_package_is_core_hab_sup() {
    assert_eq!(SUP_PKG_IDENT, "core/hab-sup");
}

#[test]
fn first_delay_lies_within_one_period() {
    let period = Duration::from_millis(250);
    for _ in 0..200 {
        let (task, delay) = Task::begin(runner(period)).unwrap();
        assert!(delay < period);
        assert_eq!(task.phase(), Phase::Splaying);
        assert_eq!(task.runner().period, period);
    }
}

#[test]
fn first_delay_of_the_shortest_period_is_zero() {
    let (_task, delay) = Task::begin(runner(Duration::from_nanos(1))).unwrap();
    assert_eq!(delay, Duration::from_nanos(0));
}

#[test]
fn empty_period_begins_no_task() {
    assert!(Task::begin(runner(Duration::from_secs(0))).is_none());
}

#[test]
fn installer_is_called_after_the_first_delay() {
    let mut task = begun(Duration::from_secs(60));
    match task.step(Event::<String>::Woke) {
        Some(Action::Install(request)) => {
            assert_eq!(request.update_url, "https://bldr.example.test");
            assert_eq!(request.install_source, "core/hab-sup");
            assert_eq!(request.update_channel.0, "stable");
        },
        _ => panic!("the delay has passed"),
    }
    assert_eq!(task.phase(), Phase::Installing);
}

#[test]
fn newer_build_is_signalled_and_ends_the_task() {
    let mut task = begun(Duration::from_secs(60));
    task.step(Event::<String>::Woke).unwrap();
    match task.step(Event::Installed("1.6.1".to_string(), VersionOrder::Newer)) {
        Some(Action::Signal(package)) => assert_eq!(package, "1.6.1"),
        _ => panic!("the build is newer"),
    }
    assert!(task.finished());
    assert_eq!(task.phase(), Phase::Finished);
    assert!(task.step(Event::<String>::Woke).is_none());
    assert!(task.step(Event::Installed("1.6.2".to_string(), VersionOrder::Newer)).is_none());
    assert!(task.step(Event::<String>::InstallFailed).is_none());
    assert!(task.finished());
}

#[test]
fn build_that_is_not_newer_is_not_signalled() {
    for order in [VersionOrder::Same, VersionOrder::Older, VersionOrder::Unrelated] {
        let mut task = begun(Duration::from_secs(60));
        task.step(Event::<String>::Woke).unwrap();
        match task.step(Event::Installed("1.6.0".to_string(), order)) {
            Some(Action::Sleep(delay)) => assert_eq!(delay, Duration::from_secs(60)),
            _ => panic!("the build is not newer"),
        }
        assert_eq!(task.phase(), Phase::Delaying);
        assert!(!task.finished());
        assert!(matches!(task.step(Event::<String>::Woke), Some(Action::Install(_))));
    }
}

#[test]
fn failed_install_is_retried_after_one_period() {
    let mut task = begun(Duration::from_secs(7));
    task.step(Event::<String>::Woke).unwrap();
    for _ in 0..3 {
        match task.step(Event::<String>::InstallFailed) {
            Some(Action::Sleep(delay)) => assert_eq!(delay, Duration::from_secs(7)),
            _ => panic!("the installer failed"),
        }
        assert!(matches!(task.step(Event::<String>::Woke), Some(Action::Install(_))));
    }
    assert!(matches!(
        task.step(Event::Installed("2.0.0".to_string(), VersionOrder::Newer)),
        Some(Action::Signal(_))
    ));
}

#[test]
fn event_out_of_turn_changes_nothing() {
    let mut task = begun(Duration::from_secs(60));
    assert!(task.step(Event::<String>::InstallFailed).is_none());
    assert!(task.step(Event::Installed("1.6.1".to_string(), VersionOrder::Newer)).is_none());
    assert_eq!(task.phase(), Phase::Splaying);
    task.step(Event::<String>::Woke).unwrap();
    assert!(task.step(Event::<String>::Woke).is_none());
    assert_eq!(task.phase(), Phase::Installing);
}

#[test]
fn run_signals_at_most_once_and_last() {
    let events = vec![
        Event::Woke,
        Event::InstallFailed,
        Event::Woke,
        Event::Installed("a".to_string(), VersionOrder::Same),
        Event::Woke,
        Event::Installed("b".to_string(), VersionOrder::Newer),
        Event::Woke,
        Event::Installed("c".to_string(), VersionOrder::Newer),
    ];
    let mut task = begun(Duration::from_secs(60));
    let mut actions = Vec::new();
    for event in events {
        if let Some(action) = task.step(event) {
            actions.push(action);
        }
    }
    assert_eq!(actions.len(), 6);
    let signals = actions.iter().filter(|action| matches!(action, Action::Signal(_))).count();
    assert_eq!(signals, 1);
    assert!(matches!(actions.last(), Some(Action::Signal(package)) if package == "b"));
}
