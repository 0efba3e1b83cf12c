use termchat::auth::{
    auth_action, handle_authorization_state, prompt_until_accepted, AuthAction, AuthState,
    DriveOutcome,
};
use termchat::ShutdownFlag;

#[test]
fn transition_table() {
    assert_eq!(auth_action(AuthState::NeedsParameters), AuthAction::SetParameters);
    assert_eq!(auth_action(AuthState::NeedsPhoneNumber), AuthAction::PromptPhoneNumber);
    assert_eq!(
        auth_action(AuthState::NeedsVerificationCode),
        AuthAction::PromptVerificationCode
    );
    assert_eq!(auth_action(AuthState::Ready), AuthAction::FinishReady);
    assert_eq!(auth_action(AuthState::Closed), AuthAction::FinishClosed);
    assert_eq!(auth_action(AuthState::Other), AuthAction::Ignore);
}

#[test]
fn drive_to_ready_leaves_flag_down() {
    let states = vec![
        AuthState::NeedsParameters,
        AuthState::NeedsPhoneNumber,
        AuthState::NeedsVerificationCode,
        AuthState::Ready,
    ];
    let phone = vec![true];
    let code = vec![true];
    let mut flag = ShutdownFlag::new();
    let report = handle_authorization_state(&states, &phone, &code, &mut flag);
    assert_eq!(report.outcome, DriveOutcome::ReachedReady);
    assert_eq!(report.states_consumed, 4);
    assert_eq!(report.param_calls, 1);
    assert_eq!(report.phone_prompts, 1);
    assert_eq!(report.code_prompts, 1);
    assert!(!flag.is_raised());
}

#[test]
fn closed_raises_flag_and_returns() {
    let states = vec![AuthState::Closed];
    let mut flag = ShutdownFlag::new();
    assert!(!flag.is_raised());
    let report = handle_authorization_state(&states, &vec![], &vec![], &mut flag);
    assert_eq!(report.outcome, DriveOutcome::ReachedClosed);
    assert_eq!(report.states_consumed, 1);
    assert!(flag.is_raised());
}

#[test]
fn one_param_call_per_occurrence() {
    let states = vec![
        AuthState::NeedsParameters,
        AuthState::Other,
        AuthState::NeedsParameters,
        AuthState::Ready,
    ];
    let mut flag = ShutdownFlag::new();
    let report = handle_authorization_state(&states, &vec![], &vec![], &mut flag);
    assert_eq!(report.param_calls, 2);
    assert_eq!(report.outcome, DriveOutcome::ReachedReady);
    assert!(!flag.is_raised());
}

#[test]
fn two_rejections_make_three_prompts() {
    let states = vec![AuthState::NeedsPhoneNumber, AuthState::Ready];
    let phone = vec![false, false, true];
    let mut flag = ShutdownFlag::new();
    let report = handle_authorization_state(&states, &phone, &vec![], &mut flag);
    assert_eq!(report.phone_prompts, 3);
    assert_eq!(report.outcome, DriveOutcome::ReachedReady);
}

#[test]
fn ready_stops_consumption() {
    let states = vec![AuthState::Ready, AuthState::NeedsParameters];
    let mut flag = ShutdownFlag::new();
    let report = handle_authorization_state(&states, &vec![], &vec![], &mut flag);
    assert_eq!(report.states_consumed, 1);
    assert_eq!(report.param_calls, 0);
}

#[test]
fn drained_channel_ends_run() {
    let states: Vec<AuthState> = vec![];
    let mut flag = ShutdownFlag::new();
    let report = handle_authorization_state(&states, &vec![], &vec![], &mut flag);
    assert_eq!(report.outcome, DriveOutcome::Drained);
    assert_eq!(report.states_consumed, 0);
    assert!(!flag.is_raised());
}

#[test]
fn exhausted_answers_stall_the_run() {
    let states = vec![AuthState::NeedsVerificationCode, AuthState::Ready];
    let code = vec![false];
    let mut flag = ShutdownFlag::new();
    let report = handle_authorization_state(&states, &vec![], &code, &mut flag);
    assert_eq!(report.outcome, DriveOutcome::Stalled);
    assert_eq!(report.code_prompts, 1);
    assert_eq!(report.states_consumed, 1);
    assert!(!flag.is_raised());
}

#[test]
fn retry_round_counts_prompts() {
    let answers = vec![false, true, true];
    let round = prompt_until_accepted(&answers, 0);
    assert_eq!(round.prompts, 2);
    assert!(round.accepted);
    let round = prompt_until_accepted(&answers, 1);
    assert_eq!(round.prompts, 1);
    assert!(round.accepted);
    let none: Vec<bool> = vec![];
    let round = prompt_until_accepted(&none, 0);
    assert_eq!(round.prompts, 0);
    assert!(!round.accepted);
}
