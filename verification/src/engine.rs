use crate::ecs::Component;
use vstd::prelude::*;

verus! {

/// A component kind that the engine registers at start-up.
pub struct CompA {}

/// A second component kind that the engine registers at start-up.
pub struct CompB {}

impl Component for CompA {
    fn new() -> CompA {
        CompA {}
    }
}

impl Component for CompB {
    fn new() -> CompB {
        CompB {}
    }
}

/// The keys that the event loop tells apart.
#[derive(Clone, Copy, PartialEq, Eq, Structural)]
pub enum Key {
    Escape,
    Other,
}

/// Whether a key went down or up.
#[derive(Clone, Copy, PartialEq, Eq, Structural)]
pub enum KeyState {
    Pressed,
    Released,
}

/// The events of the window system that the event loop reacts to.
#[derive(Clone, Copy, PartialEq, Eq, Structural)]
pub enum WindowInput {
    /// The user asked to close the window.
    CloseRequested,
    /// A key changed state; `key` is `None` when the window system names no key.
    KeyboardInput { key: Option<Key>, state: KeyState },
    /// Any other event addressed to the window.
    OtherWindowEvent,
    /// All pending events have been handled.
    MainEventsCleared,
    /// Any other event.
    Other,
}

/// How the event loop goes on after an event.
#[derive(Clone, Copy, PartialEq, Eq, Structural)]
pub enum LoopControl {
    /// Keep polling for events.
    Poll,
    /// Leave the loop.
    Exit,
}

/// What the event loop does in answer to one event.
#[derive(Clone, Copy, PartialEq, Eq, Structural)]
pub struct LoopAction {
    pub control: LoopControl,
    pub request_redraw: bool,
}

/// The answer to one event: leave on a close request or on Escape pressed, ask for a
/// redraw once all events are handled, and keep polling otherwise.
pub open spec fn loop_action_spec(event: WindowInput) -> LoopAction {
    match event {
        WindowInput::CloseRequested => LoopAction { control: LoopControl::Exit, request_redraw: false },
        WindowInput::KeyboardInput { key, state } => if key == Some(Key::Escape) && state
            == KeyState::Pressed {
            LoopAction { control: LoopControl::Exit, request_redraw: false }
        } else {
            LoopAction { control: LoopControl::Poll, request_redraw: false }
        },
        WindowInput::MainEventsCleared => LoopAction {
            control: LoopControl::Poll,
            request_redraw: true,
        },
        _ => LoopAction { control: LoopControl::Poll, request_redraw: false },
    }
}

/// Decides what the event loop does in answer to `event`.
pub fn handle_event(event: WindowInput) -> (action: LoopAction)
    ensures
        action == loop_action_spec(event),
        action.request_redraw == (event == WindowInput::MainEventsCleared),
        (action.control == LoopControl::Exit) == (event == WindowInput::CloseRequested || event
            == WindowInput::KeyboardInput { key: Some(Key::Escape), state: KeyState::Pressed }),
{
    let mut control = LoopControl::Poll;
    let mut request_redraw = false;
    match event {
        WindowInput::CloseRequested => {
            control = LoopControl::Exit;
        },
        WindowInput::KeyboardInput { key, state } => {
            match (key, state) {
                (Some(Key::Escape), KeyState::Pressed) => {
                    control = LoopControl::Exit;
                },
                _ => {},
            }
        },
        WindowInput::MainEventsCleared => {
            request_redraw = true;
        },
        _ => {},
    }
    LoopAction { control, request_redraw }
}

/// Once an event has asked to leave, the loop leaves: the answer to a close request, and to
/// Escape pressed, is to exit, and no answer to leave also asks for a redraw.
pub proof fn lemma_exit_events(key: Option<Key>, state: KeyState, event: WindowInput)
    ensures
        loop_action_spec(WindowInput::CloseRequested).control == LoopControl::Exit,
        loop_action_spec(
            WindowInput::KeyboardInput { key: Some(Key::Escape), state: KeyState::Pressed },
        ).control == LoopControl::Exit,
        loop_action_spec(event).control == LoopControl::Exit ==> !loop_action_spec(
            event,
        ).request_redraw,
        (key != Some(Key::Escape) || state != KeyState::Pressed) ==> loop_action_spec(
            WindowInput::KeyboardInput { key, state },
        ).control == LoopControl::Poll,
{
}

/// A redraw is asked for exactly when all pending events have been handled; no other event,
/// a key press or release among them, asks for one.
pub proof fn lemma_redraw_only_when_cleared(event: WindowInput)
    ensures
        loop_action_spec(event).request_redraw <==> event == WindowInput::MainEventsCleared,
{
}

/// The loop leaves exactly on a close request or on Escape pressed; every other event,
/// Escape released, other keys and unnamed keys among them, keeps it polling.
pub proof fn lemma_exit_only_on_close_or_escape(event: WindowInput)
    ensures
        (loop_action_spec(event).control == LoopControl::Exit) <==> (event
            == WindowInput::CloseRequested || event == WindowInput::KeyboardInput {
            key: Some(Key::Escape),
            state: KeyState::Pressed,
        }),
{
}

} // verus!
