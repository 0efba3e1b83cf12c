use termchat::render::{RenderOutcome, RenderTick, RenderUpdate, TerminalState};

#[test]
fn message_then_exit_tears_down_once_after_the_message() {
    let mut terminal = TerminalState::new();
    let ticks = vec![
        RenderTick { shutdown: false, command: Some(RenderUpdate::NewMessage) },
        RenderTick { shutdown: false, command: Some(RenderUpdate::Exit) },
    ];
    let report = terminal.run(&ticks);
    assert_eq!(report.outcome, RenderOutcome::ExitedByCommand);
    assert_eq!(report.ticks_run, 2);
    assert_eq!(terminal.handled_count(), 1);
    assert_eq!(terminal.restore_count(), 1);
    assert!(!terminal.is_active());
}

#[test]
fn shutdown_flag_alone_ends_the_loop() {
    let mut terminal = TerminalState::new();
    let ticks = vec![
        RenderTick { shutdown: false, command: None },
        RenderTick { shutdown: true, command: Some(RenderUpdate::NewMessage) },
        RenderTick { shutdown: false, command: None },
    ];
    let report = terminal.run(&ticks);
    assert_eq!(report.outcome, RenderOutcome::StoppedByShutdown);
    assert_eq!(report.ticks_run, 2);
    // In this implementation the shutdown path restores the terminal too.
    assert!(!terminal.is_active());
    assert_eq!(terminal.restore_count(), 1);
    // The command of the shutdown tick was never received.
    assert_eq!(terminal.handled_count(), 0);
}

#[test]
fn teardown_twice_restores_once() {
    let mut terminal = TerminalState::new();
    terminal.teardown();
    terminal.teardown();
    assert!(!terminal.is_active());
    assert_eq!(terminal.restore_count(), 1);
}

#[test]
fn empty_inbox_keeps_the_loop_going() {
    let mut terminal = TerminalState::new();
    let ticks = vec![
        RenderTick { shutdown: false, command: None },
        RenderTick { shutdown: false, command: Some(RenderUpdate::NewMessage) },
    ];
    let report = terminal.run(&ticks);
    assert_eq!(report.outcome, RenderOutcome::StillRunning);
    assert_eq!(report.ticks_run, 2);
    assert!(terminal.is_active());
    assert_eq!(terminal.handled_count(), 1);
    assert_eq!(terminal.restore_count(), 0);
}

#[test]
fn update_decides_per_command() {
    let mut terminal = TerminalState::new();
    assert!(!terminal.update(None));
    assert!(!terminal.update(Some(RenderUpdate::NewMessage)));
    assert!(terminal.is_active());
    assert!(terminal.update(Some(RenderUpdate::Exit)));
    assert!(!terminal.is_active());
    assert_eq!(terminal.handled_count(), 1);
}
