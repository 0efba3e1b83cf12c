use termchat::auth::AuthState;
use termchat::dispatch::{handle_update, run_dispatcher, DispatchPoll, Route, UpdateKind};
use termchat::render::RenderUpdate;
use termchat::{client_start, Config, ShutdownFlag};

#[test]
fn classification_per_kind() {
    assert_eq!(
        handle_update(UpdateKind::AuthState(AuthState::Ready)),
        Route::ToAuthDriver(AuthState::Ready)
    );
    assert_eq!(
        handle_update(UpdateKind::NewMessage),
        Route::ToRenderLoop(RenderUpdate::NewMessage)
    );
    assert_eq!(handle_update(UpdateKind::Other), Route::Discard);
}

#[test]
fn routes_in_arrival_order_until_shutdown() {
    let polls = vec![
        DispatchPoll {
            shutdown: false,
            update: Some(UpdateKind::AuthState(AuthState::NeedsParameters)),
        },
        DispatchPoll { shutdown: false, update: None },
        DispatchPoll { shutdown: false, update: Some(UpdateKind::NewMessage) },
        DispatchPoll { shutdown: false, update: Some(UpdateKind::Other) },
        DispatchPoll { shutdown: false, update: Some(UpdateKind::AuthState(AuthState::Ready)) },
        DispatchPoll { shutdown: true, update: Some(UpdateKind::NewMessage) },
        DispatchPoll { shutdown: false, update: Some(UpdateKind::NewMessage) },
    ];
    let report = run_dispatcher(&polls);
    assert_eq!(report.polls_consumed, 5);
    assert_eq!(report.auth_out, vec![AuthState::NeedsParameters, AuthState::Ready]);
    assert_eq!(report.render_out, vec![RenderUpdate::NewMessage]);
    assert_eq!(report.discarded, 1);
}

#[test]
fn stops_at_once_when_flag_is_already_up() {
    let polls = vec![
        DispatchPoll { shutdown: true, update: Some(UpdateKind::NewMessage) },
    ];
    let report = run_dispatcher(&polls);
    assert_eq!(report.polls_consumed, 0);
    assert!(report.auth_out.is_empty());
    assert!(report.render_out.is_empty());
    assert_eq!(report.discarded, 0);
}

#[test]
fn no_polls_no_forwards() {
    let report = run_dispatcher(&vec![]);
    assert_eq!(report.polls_consumed, 0);
    assert!(report.auth_out.is_empty());
    assert!(report.render_out.is_empty());
}

#[test]
fn shutdown_flag_raises_once() {
    let mut flag = ShutdownFlag::new();
    assert!(!flag.is_raised());
    flag.raise();
    assert!(flag.is_raised());
    flag.raise();
    assert!(flag.is_raised());
}

#[test]
fn config_carries_the_credentials() {
    let config = Config { api_id: 12345, api_hash: String::from("0123456789abcdef") };
    assert_eq!(config.api_id, 12345);
    assert_eq!(config.api_hash, "0123456789abcdef");
}

#[test]
fn client_start_is_a_no_op() {
    client_start();
}
