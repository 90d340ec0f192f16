use dashboard::render_loop::{
    Action, Event, Input, LoopState, RenderLoop, POLL_TIMEOUT_MS, QUIT_KEY,
};
use dashboard::state::App;

#[test]
fn loop_starts_running_and_asks_for_a_frame() {
    let machine = RenderLoop::new(App::new());
    assert_eq!(machine.state(), LoopState::Running);
    assert_eq!(machine.pending(), Action::Draw);
    assert_eq!(machine.dropped_frames(), 0);
    assert_eq!(machine.app().decrypt_progress(), 0);
    assert!(machine.ready());
}

#[test]
fn constants_of_the_loop() {
    assert_eq!(QUIT_KEY, 'q');
    assert_eq!(POLL_TIMEOUT_MS, 100);
}

#[test]
fn drawn_frame_is_followed_by_tick_and_poll() {
    let mut machine = RenderLoop::new(App::new());
    assert_eq!(machine.handle(Event::Drawn), Action::Poll);
    assert_eq!(machine.app().decrypt_progress(), 4);
    assert_eq!(machine.app().scroll(), 1);
    assert_eq!(machine.app().data_signal().len(), 2010);
    assert_eq!(machine.state(), LoopState::Running);
}

#[test]
fn failed_frame_is_counted_and_the_loop_goes_on() {
    let mut machine = RenderLoop::new(App::new());
    assert_eq!(machine.handle(Event::DrawFailed), Action::Poll);
    assert_eq!(machine.dropped_frames(), 1);
    assert_eq!(machine.app().decrypt_progress(), 4);
    assert_eq!(machine.state(), LoopState::Running);
    assert_eq!(machine.handle(Event::Polled(Input::Timeout)), Action::Draw);
    assert_eq!(machine.handle(Event::DrawFailed), Action::Poll);
    assert_eq!(machine.dropped_frames(), 2);
    assert_eq!(machine.app().decrypt_progress(), 8);
}

#[test]
fn timeout_leads_to_the_next_frame() {
    let mut machine = RenderLoop::new(App::new());
    machine.handle(Event::Drawn);
    assert_eq!(machine.handle(Event::Polled(Input::Timeout)), Action::Draw);
    assert_eq!(machine.app().decrypt_progress(), 4);
}

#[test]
fn other_keys_and_input_do_not_end_the_loop() {
    let mut machine = RenderLoop::new(App::new());
    machine.handle(Event::Drawn);
    assert_eq!(
        machine.handle(Event::Polled(Input::Key('x'))),
        Action::Draw
    );
    machine.handle(Event::Drawn);
    assert_eq!(
        machine.handle(Event::Polled(Input::Key('Q'))),
        Action::Draw
    );
    machine.handle(Event::Drawn);
    assert_eq!(machine.handle(Event::Polled(Input::Other)), Action::Draw);
    assert_eq!(machine.state(), LoopState::Running);
}

#[test]
fn quit_key_ends_the_loop() {
    let mut machine = RenderLoop::new(App::new());
    machine.handle(Event::Drawn);
    assert_eq!(
        machine.handle(Event::Polled(Input::Key('q'))),
        Action::Release
    );
    assert_eq!(machine.state(), LoopState::Terminating);
}

#[test]
fn terminating_loop_ignores_every_event() {
    let mut machine = RenderLoop::new(App::new());
    machine.handle(Event::Drawn);
    machine.handle(Event::Polled(Input::Key('q')));
    for event in [
        Event::Drawn,
        Event::DrawFailed,
        Event::Polled(Input::Timeout),
        Event::Polled(Input::Key('x')),
    ] {
        assert_eq!(machine.handle(event), Action::Release);
        assert_eq!(machine.state(), LoopState::Terminating);
    }
    assert_eq!(machine.app().decrypt_progress(), 4);
    assert_eq!(machine.dropped_frames(), 0);
}

#[test]
fn event_out_of_turn_changes_nothing() {
    let mut machine = RenderLoop::new(App::new());
    assert_eq!(
        machine.handle(Event::Polled(Input::Key('q'))),
        Action::Draw
    );
    assert_eq!(machine.state(), LoopState::Running);
    machine.handle(Event::Drawn);
    assert_eq!(machine.handle(Event::Drawn), Action::Poll);
    assert_eq!(machine.app().decrypt_progress(), 4);
}

#[test]
fn twenty_eight_cycles_of_the_loop() {
    let mut machine = RenderLoop::new(App::new());
    for _ in 0..28 {
        assert!(machine.ready());
        assert_eq!(machine.handle(Event::Drawn), Action::Poll);
        assert_eq!(machine.handle(Event::Polled(Input::Timeout)), Action::Draw);
    }
    assert_eq!(machine.app().decrypt_progress(), 100);
    assert_eq!(machine.app().window().start, 28000);
    assert_eq!(machine.app().window().end, 48000);
    assert_eq!(machine.app().data_signal().len(), 2280);
    assert_eq!(machine.app().events().get(0).message, "Message3");
}
