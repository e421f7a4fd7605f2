//! End-to-end scenarios for the container-acquisition state machine, driven
//! by a scripted sequence of engine events.

use container_acquire::orchestrator::{Command, Event, Orchestrator, Step};
use container_acquire::records::{AcquireError, ContainerRecord, ContainerState, PullEvent};

fn record(id: &str, name: &str, state: ContainerState) -> ContainerRecord {
    ContainerRecord {
        id: id.to_string(),
        names: vec![format!("/{}", name)],
        state,
    }
}

fn push_updates(collected: &mut Vec<(String, u32)>, step: &Step) {
    for u in step.updates.iter() {
        collected.push((u.message.clone(), u.percent_hundredths));
    }
}

#[test]
fn scenario_fresh_image_full_sequence() {
    let mut o = Orchestrator::new("nginx:latest");
    assert_eq!(o.container_name().as_str(), "nginx_latest_container");
    let mut updates: Vec<(String, u32)> = Vec::new();

    let s = o.start();
    assert!(matches!(s.command, Command::CheckEngine));
    assert!(s.updates.is_empty());

    let s = o.step(Event::EngineOk);
    push_updates(&mut updates, &s);
    assert!(matches!(s.command, Command::ListRunning));

    let s = o.step(Event::Containers { records: vec![] });
    push_updates(&mut updates, &s);
    assert!(matches!(s.command, Command::ListAll));

    let s = o.step(Event::Containers { records: vec![] });
    push_updates(&mut updates, &s);
    match &s.command {
        Command::PullImage { image } => assert_eq!(image.as_str(), "nginx:latest"),
        c => panic!("expected a pull command, got {:?}", command_name(c)),
    }

    let s = o.step(Event::PullProgress {
        event: PullEvent {
            layer_id: Some("layer-a".to_string()),
            progress: Some(container_acquire::records::ByteProgress { current: 10, total: 100 }),
            status: None,
        },
    });
    push_updates(&mut updates, &s);
    assert!(matches!(s.command, Command::AwaitPull));

    let s = o.step(Event::PullFinished);
    push_updates(&mut updates, &s);
    match &s.command {
        Command::CreateContainer { name, image, binding } => {
            assert_eq!(name.as_str(), "nginx_latest_container");
            assert_eq!(image.as_str(), "nginx:latest");
            assert_eq!(binding.container_port, 5000);
            assert_eq!(binding.host_ip.as_str(), "0.0.0.0");
            assert_eq!(binding.host_port, 5000);
        },
        c => panic!("expected a create command, got {:?}", command_name(c)),
    }

    let s = o.step(Event::Created { id: "abc123".to_string() });
    push_updates(&mut updates, &s);
    match &s.command {
        Command::StartContainer { id } => assert_eq!(id.as_str(), "abc123"),
        c => panic!("expected a start command, got {:?}", command_name(c)),
    }

    let s = o.step(Event::Started);
    push_updates(&mut updates, &s);
    match &s.command {
        Command::Succeed { container_id } => assert_eq!(container_id.as_str(), "abc123"),
        c => panic!("expected success, got {:?}", command_name(c)),
    }

    let last = updates.last().unwrap();
    assert_eq!(last.0.as_str(), "Container ready");
    assert_eq!(last.1, 10000);
    assert!(updates.iter().any(|(_, p)| *p == 10000));
    assert_eq!(updates[0].0.as_str(), "Checking existing containers...");
    assert_eq!(updates[0].1, 0);
}

#[test]
fn scenario_running_container_reused() {
    let mut o = Orchestrator::new("nginx:latest");
    let mut updates: Vec<(String, u32)> = Vec::new();

    let s = o.start();
    assert!(matches!(s.command, Command::CheckEngine));

    let s = o.step(Event::EngineOk);
    push_updates(&mut updates, &s);

    let s = o.step(Event::Containers {
        records: vec![
            record("zzz", "unrelated_container", ContainerState::Running),
            record("live1", "nginx_latest_container", ContainerState::Running),
        ],
    });
    push_updates(&mut updates, &s);
    match &s.command {
        Command::Succeed { container_id } => assert_eq!(container_id.as_str(), "live1"),
        c => panic!("expected immediate reuse, got {:?}", command_name(c)),
    }

    assert_eq!(updates.len(), 2);
    assert_eq!(updates[0], ("Checking existing containers...".to_string(), 0));
    assert_eq!(updates[1], ("Container ready".to_string(), 10000));
}

#[test]
fn scenario_stopped_container_started_not_recreated() {
    let mut o = Orchestrator::new("nginx:latest");
    let s = o.start();
    assert!(matches!(s.command, Command::CheckEngine));
    let _ = o.step(Event::EngineOk);

    let s = o.step(Event::Containers {
        records: vec![record("cold1", "nginx_latest_container", ContainerState::Exited)],
    });
    match &s.command {
        Command::StartContainer { id } => assert_eq!(id.as_str(), "cold1"),
        c => panic!("expected a start command, got {:?}", command_name(c)),
    }
    assert_eq!(s.updates.len(), 1);
    assert_eq!(s.updates[0].message.as_str(), "Starting existing container...");
    assert_eq!(s.updates[0].percent_hundredths, 5000);

    let s = o.step(Event::Started);
    match &s.command {
        Command::Succeed { container_id } => assert_eq!(container_id.as_str(), "cold1"),
        c => panic!("expected success, got {:?}", command_name(c)),
    }
}

#[test]
fn scenario_unrelated_container_left_untouched() {
    let mut o = Orchestrator::new("nginx:latest");
    let s = o.start();
    assert!(matches!(s.command, Command::CheckEngine));
    let _ = o.step(Event::EngineOk);

    let other_running = vec![record("zzz", "unrelated_container", ContainerState::Running)];
    let s = o.step(Event::Containers { records: other_running });
    assert!(matches!(s.command, Command::ListAll));

    let other_all = vec![
        record("zzz", "unrelated_container", ContainerState::Running),
        record("old", "another_one", ContainerState::Exited),
    ];
    let s = o.step(Event::Containers { records: other_all });
    assert!(
        matches!(s.command, Command::PullImage { .. }),
        "no removal may be commanded for unrelated containers"
    );
}

#[test]
fn scenario_stale_containers_all_removed_before_pull() {
    let mut o = Orchestrator::new("nginx:latest");
    let s = o.start();
    assert!(matches!(s.command, Command::CheckEngine));
    let _ = o.step(Event::EngineOk);

    let s = o.step(Event::Containers { records: vec![] });
    assert!(matches!(s.command, Command::ListAll));

    let stale = vec![
        record("dead1", "nginx_latest_container", ContainerState::Exited),
        record("zzz", "unrelated_container", ContainerState::Running),
        record("dead2", "nginx_latest_container", ContainerState::Created),
    ];
    let s = o.step(Event::Containers { records: stale });
    match &s.command {
        Command::RemoveContainer { id } => assert_eq!(id.as_str(), "dead1"),
        c => panic!("expected a removal, got {:?}", command_name(c)),
    }
    assert_eq!(s.updates[0].message.as_str(), "Removing old container...");

    let s = o.step(Event::Removed);
    match &s.command {
        Command::RemoveContainer { id } => assert_eq!(id.as_str(), "dead2"),
        c => panic!("expected a second removal, got {:?}", command_name(c)),
    }

    let s = o.step(Event::Removed);
    match &s.command {
        Command::PullImage { image } => assert_eq!(image.as_str(), "nginx:latest"),
        c => panic!("expected the pull to begin, got {:?}", command_name(c)),
    }
    assert_eq!(s.updates[0].message.as_str(), "Pulling Docker image...");
    assert_eq!(s.updates[0].percent_hundredths, 3000);
}

#[test]
fn scenario_pull_error_aborts_without_create() {
    let mut o = Orchestrator::new("nginx:latest");
    let s = o.start();
    assert!(matches!(s.command, Command::CheckEngine));
    let _ = o.step(Event::EngineOk);
    let _ = o.step(Event::Containers { records: vec![] });
    let s = o.step(Event::Containers { records: vec![] });
    assert!(matches!(s.command, Command::PullImage { .. }));

    for layer in ["layer-a", "layer-b"] {
        let s = o.step(Event::PullProgress {
            event: PullEvent {
                layer_id: Some(layer.to_string()),
                progress: None,
                status: None,
            },
        });
        assert!(matches!(s.command, Command::AwaitPull));
    }

    let s = o.step(Event::PullFailed { detail: "connection reset".to_string() });
    assert!(s.updates.is_empty());
    match &s.command {
        Command::Fail { error } => match error {
            AcquireError::PullFailed { detail } => assert_eq!(detail.as_str(), "connection reset"),
            e => panic!("expected a pull failure, got {}", e.describe()),
        },
        c => panic!("expected failure, got {:?}", command_name(c)),
    }
}

#[test]
fn scenario_byte_counts_before_any_layer_emit_nothing() {
    let mut o = Orchestrator::new("nginx:latest");
    let s = o.start();
    assert!(matches!(s.command, Command::CheckEngine));
    let _ = o.step(Event::EngineOk);
    let _ = o.step(Event::Containers { records: vec![] });
    let s = o.step(Event::Containers { records: vec![] });
    assert!(matches!(s.command, Command::PullImage { .. }));

    // Byte counts arrive before any layer id: no numeric update may be
    // produced, and the stream keeps being consumed.
    let s = o.step(Event::PullProgress {
        event: PullEvent {
            layer_id: None,
            progress: Some(container_acquire::records::ByteProgress { current: 5, total: 10 }),
            status: None,
        },
    });
    assert!(s.updates.is_empty());
    assert!(matches!(s.command, Command::AwaitPull));
}

#[test]
fn scenario_engine_unreachable_fails_immediately() {
    let mut o = Orchestrator::new("nginx:latest");
    let s = o.start();
    assert!(matches!(s.command, Command::CheckEngine));

    let s = o.step(Event::EngineDown { detail: "daemon not running".to_string() });
    assert!(s.updates.is_empty(), "nothing may be emitted before the failure");
    match &s.command {
        Command::Fail { error } => match error {
            AcquireError::EngineUnreachable { detail } => {
                assert_eq!(detail.as_str(), "daemon not running")
            },
            e => panic!("expected unreachable-engine failure, got {}", e.describe()),
        },
        c => panic!("expected failure, got {:?}", command_name(c)),
    }
}

#[test]
fn scenario_emit_failure_is_fatal() {
    let mut o = Orchestrator::new("nginx:latest");
    let s = o.start();
    assert!(matches!(s.command, Command::CheckEngine));
    let _ = o.step(Event::EngineOk);

    let s = o.step(Event::EmitFailed { detail: "sink closed".to_string() });
    assert!(s.updates.is_empty());
    match &s.command {
        Command::Fail { error } => {
            assert!(matches!(error, AcquireError::ProgressDeliveryFailed { .. }))
        },
        c => panic!("expected failure, got {:?}", command_name(c)),
    }
}

#[test]
fn scenario_each_engine_failure_maps_to_its_error() {
    // A failed listing aborts with an engine-operation failure.
    let mut o = Orchestrator::new("nginx:latest");
    let _ = o.start();
    let _ = o.step(Event::EngineOk);
    let s = o.step(Event::ListFailed { detail: "socket closed".to_string() });
    match &s.command {
        Command::Fail { error } => {
            assert!(matches!(error, AcquireError::EngineOperationFailed { .. }))
        },
        c => panic!("expected failure, got {:?}", command_name(c)),
    }

    // A failed removal aborts the same way.
    let mut o = Orchestrator::new("nginx:latest");
    let _ = o.start();
    let _ = o.step(Event::EngineOk);
    let _ = o.step(Event::Containers { records: vec![] });
    let _ = o.step(Event::Containers {
        records: vec![record("dead1", "nginx_latest_container", ContainerState::Exited)],
    });
    let s = o.step(Event::RemoveFailed { detail: "in use".to_string() });
    match &s.command {
        Command::Fail { error } => {
            assert!(matches!(error, AcquireError::EngineOperationFailed { .. }))
        },
        c => panic!("expected failure, got {:?}", command_name(c)),
    }

    // A rejected creation and a rejected start carry their own kinds.
    let mut o = Orchestrator::new("nginx:latest");
    let _ = o.start();
    let _ = o.step(Event::EngineOk);
    let _ = o.step(Event::Containers { records: vec![] });
    let _ = o.step(Event::Containers { records: vec![] });
    let _ = o.step(Event::PullFinished);
    let s = o.step(Event::CreateFailed { detail: "name in use".to_string() });
    match &s.command {
        Command::Fail { error } => assert!(matches!(error, AcquireError::CreateFailed { .. })),
        c => panic!("expected failure, got {:?}", command_name(c)),
    }

    let mut o = Orchestrator::new("nginx:latest");
    let _ = o.start();
    let _ = o.step(Event::EngineOk);
    let _ = o.step(Event::Containers { records: vec![] });
    let _ = o.step(Event::Containers { records: vec![] });
    let _ = o.step(Event::PullFinished);
    let _ = o.step(Event::Created { id: "abc".to_string() });
    let s = o.step(Event::StartFailed { detail: "no such image".to_string() });
    match &s.command {
        Command::Fail { error } => assert!(matches!(error, AcquireError::StartFailed { .. })),
        c => panic!("expected failure, got {:?}", command_name(c)),
    }
}

#[test]
fn error_descriptions_name_the_operation() {
    let e = AcquireError::CreateFailed { detail: "name in use".to_string() };
    assert_eq!(e.describe().as_str(), "Failed to create container: name in use");
    let e = AcquireError::StartFailed { detail: "oom".to_string() };
    assert_eq!(e.describe().as_str(), "Failed to start container: oom");
    let e = AcquireError::EngineUnreachable { detail: "socket missing".to_string() };
    assert_eq!(e.describe().as_str(), "Failed to connect to Docker: socket missing");
}

fn command_name(c: &Command) -> &'static str {
    match c {
        Command::CheckEngine => "CheckEngine",
        Command::ListRunning => "ListRunning",
        Command::ListAll => "ListAll",
        Command::RemoveContainer { .. } => "RemoveContainer",
        Command::PullImage { .. } => "PullImage",
        Command::AwaitPull => "AwaitPull",
        Command::CreateContainer { .. } => "CreateContainer",
        Command::StartContainer { .. } => "StartContainer",
        Command::Succeed { .. } => "Succeed",
        Command::Fail { .. } => "Fail",
    }
}
