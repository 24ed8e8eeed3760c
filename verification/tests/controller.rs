use toroidal::cause::Cause;
use toroidal::flow::Flow;
use toroidal::game::{Game, Key, State, TermEvent, WaitOutcome};
use toroidal::size::Size;

#[test]
fn default_controller_configuration() {
    let game = Game::default();
    assert_eq!(game.min_terminal_size, Size::new(33, 129));
    assert_eq!(game.terminal_size, Size::new(0, 0));
    assert_eq!(game.iteration_time_ms, 500);
    assert_eq!(game.poll_time_ms, 1);
    assert_eq!(game.event_handling_duration_ms, 8);
    assert_eq!(game.event_handling_surplus_ms, 0);
    assert_eq!(game.state, State::Running);
    assert_eq!(game.space.height(), 32);
    assert_eq!(game.space.width(), 64);
}

#[test]
fn terminal_size_accessors_and_minimum_check() {
    let mut game = Game::default();
    game.handle_resize(40, 140);
    assert_eq!(game.terminal_height(), 40);
    assert_eq!(game.terminal_width(), 140);
    assert_eq!(game.min_terminal_height(), 33);
    assert_eq!(game.min_terminal_width(), 129);
    assert!(!game.terminal_too_small());
    game.handle_resize(40, 128);
    assert!(game.terminal_too_small());
    game.handle_resize(32, 140);
    assert!(game.terminal_too_small());
}

#[test]
fn resize_below_minimum_pauses() {
    let mut game = Game::default();
    assert_eq!(
        game.handle_resize(20, 50),
        Flow::Pause(Cause::TerminalTooSmall)
    );
    assert_eq!(game.terminal_size, Size::new(20, 50));
    assert_eq!(game.handle_resize(33, 129), Flow::Continue);
    assert_eq!(game.terminal_size, Size::new(33, 129));
}

#[test]
fn only_the_quit_key_exits() {
    let game = Game::default();
    assert_eq!(game.handle_key_event(Key::Esc), Flow::Exit);
    assert_eq!(game.handle_key_event(Key::Other), Flow::Continue);
}

#[test]
fn pointer_events_are_ignored() {
    let mut game = Game::default();
    game.setup(40, 140);
    assert_eq!(game.handle_event(TermEvent::Pointer), Flow::Continue);
    assert_eq!(game.state, State::Running);
}

#[test]
fn event_budget_bounds_the_polling_loop() {
    let mut game = Game::default();
    assert!(game.must_handle_events(0));
    assert!(game.must_handle_events(7));
    assert_eq!(game.event_handling_surplus_ms, 0);
    assert!(!game.must_handle_events(8));
    assert_eq!(game.event_handling_surplus_ms, 0);
    assert!(!game.must_handle_events(13));
    assert_eq!(game.event_handling_surplus_ms, 5);
}

#[test]
fn setup_with_small_terminal_waits_before_any_frame() {
    // Terminal (20, 50) against minimum (33, 129): the loop must start in
    // the wait-for-resize state, not in the running state.
    let mut game = Game::default();
    game.setup(20, 50);
    assert_eq!(game.state, State::Paused(Cause::TerminalTooSmall));
    assert_eq!(game.terminal_size, Size::new(20, 50));
}

#[test]
fn setup_with_large_terminal_runs_at_once() {
    let mut game = Game::default();
    game.setup(40, 140);
    assert_eq!(game.state, State::Running);
}

#[test]
fn resize_while_waiting_resumes_when_large_enough() {
    let mut game = Game::default();
    game.setup(20, 50);
    let outcome = game.step_waiting(TermEvent::Resize {
        height: 40,
        width: 140,
    });
    assert_eq!(outcome, WaitOutcome::Resume);
    assert_eq!(game.state, State::Running);
    assert_eq!(game.terminal_size, Size::new(40, 140));
}

#[test]
fn resize_while_waiting_keeps_waiting_when_still_small() {
    let mut game = Game::default();
    game.setup(20, 50);
    let outcome = game.step_waiting(TermEvent::Resize {
        height: 30,
        width: 140,
    });
    assert_eq!(outcome, WaitOutcome::StillTooSmall);
    assert_eq!(game.state, State::Paused(Cause::TerminalTooSmall));
    assert_eq!(game.terminal_size, Size::new(30, 140));
}

#[test]
fn other_events_while_waiting_are_ignored() {
    let mut game = Game::default();
    game.setup(20, 50);
    assert_eq!(game.step_waiting(TermEvent::Key(Key::Other)), WaitOutcome::Ignored);
    assert_eq!(game.step_waiting(TermEvent::Pointer), WaitOutcome::Ignored);
    assert_eq!(game.state, State::Paused(Cause::TerminalTooSmall));
}

#[test]
fn quit_key_terminates_from_running() {
    let mut game = Game::default();
    game.setup(40, 140);
    assert_eq!(game.step_running(TermEvent::Key(Key::Esc)), Flow::Exit);
    assert_eq!(game.state, State::Terminated);
}

#[test]
fn quit_key_terminates_from_waiting() {
    let mut game = Game::default();
    game.setup(20, 50);
    assert_eq!(game.step_waiting(TermEvent::Key(Key::Esc)), WaitOutcome::Quit);
    assert_eq!(game.state, State::Terminated);
}

#[test]
fn resize_below_minimum_while_running_pauses() {
    let mut game = Game::default();
    game.setup(40, 140);
    let flow = game.step_running(TermEvent::Resize {
        height: 20,
        width: 50,
    });
    assert_eq!(flow, Flow::Pause(Cause::TerminalTooSmall));
    assert_eq!(game.state, State::Paused(Cause::TerminalTooSmall));
}

#[test]
fn ordinary_events_keep_the_loop_running() {
    let mut game = Game::default();
    game.setup(40, 140);
    assert_eq!(game.step_running(TermEvent::Key(Key::Other)), Flow::Continue);
    assert_eq!(game.state, State::Running);
    let flow = game.step_running(TermEvent::Resize {
        height: 50,
        width: 150,
    });
    assert_eq!(flow, Flow::Continue);
    assert_eq!(game.state, State::Running);
}

#[test]
fn rendered_frame_covers_the_viewport_with_the_background() {
    let mut game = Game::default();
    game.setup(40, 140);
    let frame = game.render_frame();
    assert_eq!(frame.len(), 33);
    for line in &frame {
        assert_eq!(line.len(), 129);
        assert!(line.iter().all(|c| *c == 'X'));
    }
}
