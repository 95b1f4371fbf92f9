use testcontainers_ext::reaper::running_container_ids;
use testcontainers_ext::reaper::ContainerInfo;
use testcontainers_ext::reaper::EngineAction;
use testcontainers_ext::reaper::EngineEvent;
use testcontainers_ext::reaper::ReapError;
use testcontainers_ext::reaper::Reaper;

fn container(id: Option<&str>, state: Option<&str>) -> ContainerInfo {
    ContainerInfo { id: id.map(String::from), state: state.map(String::from) }
}

fn expected_filters() -> Vec<String> {
    vec![
        String::from("proj-A.testcontainers.prune=true"),
        String::from("proj-A.testcontainers.scope=proj-A"),
        String::from("proj-A.testcontainers.container=redis"),
    ]
}

fn assert_finish_labels(action: EngineAction) {
    match action {
        EngineAction::FinishLabeling { labels } => {
            assert_eq!(
                labels,
                vec![
                    (String::from("proj-A.testcontainers.prune"), String::from("true")),
                    (String::from("proj-A.testcontainers.scope"), String::from("proj-A")),
                    (String::from("proj-A.testcontainers.container"), String::from("redis")),
                ]
            );
        }
        _ => panic!("expected the labeling action"),
    }
}

#[test]
fn running_ids_selects_running_with_identifiers() {
    let listing = vec![
        container(Some("c1"), Some("running")),
        container(Some("c2"), Some("exited")),
        container(None, Some("running")),
        container(Some("c4"), None),
        container(Some("c5"), Some("running")),
    ];
    let ids = running_container_ids(&listing);
    assert_eq!(ids, vec![String::from("c1"), String::from("c5")]);
}

#[test]
fn disabled_run_makes_no_engine_contact() {
    // With prune off the very first action already hands out the labels,
    // and the finished run accepts no event: no engine call is ever asked.
    let (reaper, action) = Reaper::new("proj-A", "redis", false, true);
    assert_finish_labels(action);
    assert!(!reaper.accepts_event(&EngineEvent::ClientReady));
    assert!(!reaper.accepts_event(&EngineEvent::ClientFailed));
    assert!(!reaper.accepts_event(&EngineEvent::Listed { containers: vec![] }));
    assert!(!reaper.accepts_event(&EngineEvent::StopsDone));
    assert!(!reaper.accepts_event(&EngineEvent::Pruned { removed: vec![] }));
}

#[test]
fn forced_run_stops_then_prunes_then_labels() {
    // One pre-existing running match: its identifier appears in the stop
    // set, the prune follows, and the final request carries the triple.
    let (mut reaper, action) = Reaper::new("proj-A", "redis", true, true);
    assert!(matches!(action, EngineAction::AcquireClient));

    let action = reaper.step(EngineEvent::ClientReady);
    match action {
        EngineAction::ListMatching { filters } => assert_eq!(filters, expected_filters()),
        _ => panic!("expected the listing action"),
    }

    let listing = vec![container(Some("c1"), Some("running"))];
    let action = reaper.step(EngineEvent::Listed { containers: listing });
    match action {
        EngineAction::StopContainers { ids } => assert_eq!(ids, vec![String::from("c1")]),
        _ => panic!("expected the stop action"),
    }

    let action = reaper.step(EngineEvent::StopsDone);
    match action {
        EngineAction::PruneMatching { filters } => assert_eq!(filters, expected_filters()),
        _ => panic!("expected the prune action"),
    }

    let action = reaper.step(EngineEvent::Pruned { removed: vec![String::from("c1")] });
    assert_finish_labels(action);
}

#[test]
fn unforced_run_issues_no_stop() {
    // Without force the run goes straight from the client to the prune:
    // no listing, no stop call, and the request is still labeled.
    let (mut reaper, action) = Reaper::new("proj-A", "redis", true, false);
    assert!(matches!(action, EngineAction::AcquireClient));

    let action = reaper.step(EngineEvent::ClientReady);
    match action {
        EngineAction::PruneMatching { filters } => assert_eq!(filters, expected_filters()),
        _ => panic!("expected the prune action with no stop before it"),
    }

    // The running container was not stopped, so the prune removed nothing.
    let action = reaper.step(EngineEvent::Pruned { removed: vec![] });
    assert_finish_labels(action);
}

#[test]
fn second_run_finds_nothing_and_still_labels() {
    // After a successful forced reap nothing matches any more: the second
    // run lists nothing, stops nothing, prunes nothing, and still labels.
    let (mut reaper, action) = Reaper::new("proj-A", "redis", true, true);
    assert!(matches!(action, EngineAction::AcquireClient));
    let action = reaper.step(EngineEvent::ClientReady);
    assert!(matches!(action, EngineAction::ListMatching { .. }));
    let action = reaper.step(EngineEvent::Listed { containers: vec![] });
    match action {
        EngineAction::StopContainers { ids } => assert!(ids.is_empty()),
        _ => panic!("expected an empty stop action"),
    }
    let action = reaper.step(EngineEvent::StopsDone);
    assert!(matches!(action, EngineAction::PruneMatching { .. }));
    let action = reaper.step(EngineEvent::Pruned { removed: vec![] });
    assert_finish_labels(action);
}

#[test]
fn stop_failure_aborts_before_prune() {
    // One failed stop among several fails the run: the error surfaces and
    // the run accepts nothing further, so no prune can be issued.
    let (mut reaper, _) = Reaper::new("proj-A", "redis", true, true);
    reaper.step(EngineEvent::ClientReady);
    let listing = vec![
        container(Some("c1"), Some("running")),
        container(Some("c2"), Some("running")),
        container(Some("c3"), Some("running")),
    ];
    let action = reaper.step(EngineEvent::Listed { containers: listing });
    match action {
        EngineAction::StopContainers { ids } => {
            assert_eq!(ids, vec![String::from("c1"), String::from("c2"), String::from("c3")])
        }
        _ => panic!("expected the stop action"),
    }
    let action = reaper.step(EngineEvent::StopFailed);
    match action {
        EngineAction::ReturnError { error } => assert_eq!(error, ReapError::StopFailed),
        _ => panic!("expected the run to fail"),
    }
    assert!(!reaper.accepts_event(&EngineEvent::Pruned { removed: vec![] }));
    assert!(!reaper.accepts_event(&EngineEvent::StopsDone));
}

#[test]
fn client_failure_surfaces() {
    let (mut reaper, _) = Reaper::new("proj-A", "redis", true, false);
    let action = reaper.step(EngineEvent::ClientFailed);
    match action {
        EngineAction::ReturnError { error } => assert_eq!(error, ReapError::ClientUnavailable),
        _ => panic!("expected the run to fail"),
    }
    assert!(!reaper.accepts_event(&EngineEvent::ClientReady));
}

#[test]
fn list_failure_surfaces() {
    let (mut reaper, _) = Reaper::new("proj-A", "redis", true, true);
    reaper.step(EngineEvent::ClientReady);
    let action = reaper.step(EngineEvent::ListFailed);
    match action {
        EngineAction::ReturnError { error } => assert_eq!(error, ReapError::ListFailed),
        _ => panic!("expected the run to fail"),
    }
}

#[test]
fn prune_failure_surfaces() {
    let (mut reaper, _) = Reaper::new("proj-A", "redis", true, false);
    reaper.step(EngineEvent::ClientReady);
    let action = reaper.step(EngineEvent::PruneFailed);
    match action {
        EngineAction::ReturnError { error } => assert_eq!(error, ReapError::PruneFailed),
        _ => panic!("expected the run to fail"),
    }
    assert!(!reaper.accepts_event(&EngineEvent::Pruned { removed: vec![] }));
}
