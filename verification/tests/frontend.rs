use oidar::frontend::{play_command, play_command_from, EasyReplFrontend};
use oidar::ports::BackendCommand;

#[test]
fn station_url_is_played() {
    match play_command("https://orf-live.ors-shoutcast.at/fm4-q2a") {
        Ok(BackendCommand::PlayUrl(u)) => assert_eq!(u, "https://orf-live.ors-shoutcast.at/fm4-q2a"),
        other => panic!("unexpected {other:?}"),
    }
}

#[test]
fn url_is_normalised() {
    match play_command("HTTP://Example.COM") {
        Ok(BackendCommand::PlayUrl(u)) => assert_eq!(u, "http://example.com/"),
        other => panic!("unexpected {other:?}"),
    }
}

#[test]
fn invalid_url_is_rejected_with_reason() {
    match play_command("not a url") {
        Err(e) => {
            assert_eq!(e.input, "not a url");
            assert_eq!(e.reason, "relative URL without a base");
        }
        other => panic!("unexpected {other:?}"),
    }
}

#[test]
fn play_command_from_parse_result() {
    match play_command_from("x", Ok("http://x/".to_string())) {
        Ok(BackendCommand::PlayUrl(u)) => assert_eq!(u, "http://x/"),
        other => panic!("unexpected {other:?}"),
    }
    match play_command_from("y", Err("bad".to_string())) {
        Err(e) => {
            assert_eq!(e.input, "y");
            assert_eq!(e.reason, "bad");
        }
        other => panic!("unexpected {other:?}"),
    }
}

#[test]
fn repl_frontend_is_made() {
    let _frontend = EasyReplFrontend::new();
}
