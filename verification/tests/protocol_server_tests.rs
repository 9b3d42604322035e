use binge_watch_me::protocol::{Command, MediaState};
use binge_watch_me::server::{
    on_remote_event, route_command, AppState, ExtensionAction, RemoteAction, SocketEvent,
    VolumeRequest,
};

fn sample_state() -> MediaState {
    MediaState {
        site: "youtube".to_string(),
        is_playing: true,
        title: "Some video".to_string(),
        current_time_bits: 12.5f64.to_bits(),
        duration_bits: 300.0f64.to_bits(),
        volume: 70,
    }
}

#[test]
fn default_media_state_says_nothing_playing() {
    let s = MediaState::default();
    assert_eq!(s.site, "unknown");
    assert!(!s.is_playing);
    assert_eq!(s.title, "Nothing playing");
    assert_eq!(f64::from_bits(s.current_time_bits), 0.0);
    assert_eq!(f64::from_bits(s.duration_bits), 0.0);
    assert_eq!(s.volume, 50);
}

#[test]
fn new_app_state_holds_default_state() {
    let app = AppState::new();
    let s = app.current_state();
    assert_eq!(s.site, "unknown");
    assert_eq!(s.title, "Nothing playing");
    assert_eq!(s.volume, 50);
}

#[test]
fn remote_connecting_after_report_sees_that_report() {
    let mut app = AppState::new();
    match app.on_extension_event(SocketEvent::Message(sample_state())) {
        ExtensionAction::Broadcast(s) => assert_eq!(s.title, "Some video"),
        _ => panic!("a decoded state must be broadcast"),
    }
    let seen = app.current_state();
    assert_eq!(seen.site, "youtube");
    assert!(seen.is_playing);
    assert_eq!(seen.title, "Some video");
    assert_eq!(f64::from_bits(seen.current_time_bits), 12.5);
    assert_eq!(f64::from_bits(seen.duration_bits), 300.0);
    assert_eq!(seen.volume, 70);
}

#[test]
fn other_extension_events_keep_the_stored_state() {
    let mut app = AppState::new();
    app.on_extension_event(SocketEvent::Message(sample_state()));
    assert!(matches!(
        app.on_extension_event(SocketEvent::Malformed),
        ExtensionAction::WarnMalformed
    ));
    assert!(matches!(
        app.on_extension_event(SocketEvent::Ignored),
        ExtensionAction::Continue
    ));
    assert!(matches!(
        app.on_extension_event(SocketEvent::Closed),
        ExtensionAction::Disconnect
    ));
    assert_eq!(app.current_state().title, "Some video");
}

#[test]
fn volume_commands_are_handled_locally() {
    assert!(matches!(
        route_command(Command::VolumeUp),
        RemoteAction::Volume(VolumeRequest::Up)
    ));
    assert!(matches!(
        route_command(Command::VolumeDown),
        RemoteAction::Volume(VolumeRequest::Down)
    ));
    assert!(matches!(
        route_command(Command::SetVolume { level: 33 }),
        RemoteAction::Volume(VolumeRequest::SetLevel(33))
    ));
}

#[test]
fn playback_commands_are_forwarded_unchanged() {
    let seek = Command::SeekForward { seconds_bits: 10.0f64.to_bits() };
    match route_command(seek.clone()) {
        RemoteAction::Forward(c) => assert_eq!(c, seek),
        _ => panic!("seek must be forwarded"),
    }
    for cmd in [
        Command::PlayPause,
        Command::Next,
        Command::SeekBackward { seconds_bits: 5.0f64.to_bits() },
    ] {
        match route_command(cmd.clone()) {
            RemoteAction::Forward(c) => assert_eq!(c, cmd),
            _ => panic!("playback commands must be forwarded"),
        }
    }
}

#[test]
fn remote_socket_events() {
    assert!(matches!(
        on_remote_event(SocketEvent::Message(Command::PlayPause)),
        RemoteAction::Forward(Command::PlayPause)
    ));
    assert!(matches!(
        on_remote_event(SocketEvent::Malformed),
        RemoteAction::WarnMalformed
    ));
    assert!(matches!(on_remote_event(SocketEvent::Closed), RemoteAction::Disconnect));
    assert!(matches!(on_remote_event(SocketEvent::Ignored), RemoteAction::Continue));
}

#[test]
fn remote_sees_the_last_of_several_reports() {
    let mut app = AppState::new();
    let mut second = sample_state();
    second.title = "Next episode".to_string();
    app.on_extension_event(SocketEvent::Message(sample_state()));
    app.on_extension_event(SocketEvent::Malformed);
    app.on_extension_event(SocketEvent::Message(second));
    app.on_extension_event(SocketEvent::Ignored);
    assert_eq!(app.current_state().title, "Next episode");
}
