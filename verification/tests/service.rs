use oidar::ports::BackendCommand;
use oidar::service::{apply_command, core_step, loader_step, CoreAction, LoaderAction, LoaderCmd, LoaderEvent};

#[test]
fn play_url_is_forwarded_to_loader() {
    match core_step(BackendCommand::PlayUrl("http://radio.example/".to_string())) {
        CoreAction::Forward(LoaderCmd::SetUrl(u)) => assert_eq!(u, "http://radio.example/"),
        other => panic!("unexpected {other:?}"),
    }
}

#[test]
fn stop_is_forwarded_to_loader() {
    assert!(matches!(core_step(BackendCommand::StopPlayback), CoreAction::Forward(LoaderCmd::Stop)));
}

#[test]
fn shutdown_ends_core() {
    assert!(matches!(core_step(BackendCommand::Shutdown), CoreAction::Exit));
}

#[test]
fn loader_commands_set_url() {
    assert_eq!(apply_command(LoaderCmd::SetUrl("http://a/".to_string())), Some("http://a/".to_string()));
    assert_eq!(apply_command(LoaderCmd::Stop), None);
}

#[test]
fn loader_forwards_chunks_then_polls() {
    assert!(matches!(loader_step(LoaderEvent::ChunkRead), LoaderAction::ForwardChunkThenPoll));
    assert!(matches!(loader_step(LoaderEvent::Polled(None)), LoaderAction::ReadNext));
}

#[test]
fn loader_waits_without_stream() {
    assert!(matches!(loader_step(LoaderEvent::NoStream), LoaderAction::WaitForCommand));
}

#[test]
fn loader_applies_commands() {
    match loader_step(LoaderEvent::Polled(Some(LoaderCmd::SetUrl("http://b/".to_string())))) {
        LoaderAction::ApplyUrl(Some(u)) => assert_eq!(u, "http://b/"),
        other => panic!("unexpected {other:?}"),
    }
    assert!(matches!(loader_step(LoaderEvent::Received(LoaderCmd::Stop)), LoaderAction::ApplyUrl(None)));
    match loader_step(LoaderEvent::Received(LoaderCmd::SetUrl("http://c/".to_string()))) {
        LoaderAction::ApplyUrl(Some(u)) => assert_eq!(u, "http://c/"),
        other => panic!("unexpected {other:?}"),
    }
}

#[test]
fn loader_terminates_on_failure_or_closed_commands() {
    assert!(matches!(loader_step(LoaderEvent::ReadFailed), LoaderAction::Terminate));
    assert!(matches!(loader_step(LoaderEvent::CommandsClosed), LoaderAction::Terminate));
}
