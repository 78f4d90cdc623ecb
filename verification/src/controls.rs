//! The default bindings: which key or controller button gives which command.

use vstd::prelude::*;
use crate::command::{Command, PlayerId};

verus! {

/// The keys that the bindings know, and `Other` for the rest.
#[derive(Clone, Copy, Debug, PartialEq, Eq, Structural)]
pub enum Key {
    A,
    Z,
    S,
    K,
    M,
    J,
    Space,
    Escape,
    Other,
}

/// The controller buttons that the bindings know, and `Other` for the rest.
#[derive(Clone, Copy, Debug, PartialEq, Eq, Structural)]
pub enum Button {
    DPadUp,
    DPadDown,
    B,
    Other,
}

/// What an input device reports.
#[derive(Clone, Copy, Debug, PartialEq, Eq, Structural)]
pub enum Event {
    /// The window was closed.
    Quit,
    /// A key went down, or repeats while it is held.
    KeyDown { key: Key, repeat: bool },
    /// A button of controller number `which` went down.
    ButtonDown { which: u32, button: Button },
    /// Anything else.
    Other,
}

/// What the frame loop does about an event.
#[derive(Clone, Copy, Debug, PartialEq, Eq, Structural)]
pub enum Reaction {
    /// Leave the loop.
    Stop,
    /// Hand the command to the match.
    Deliver(Command),
    /// Nothing.
    Ignore,
}

/// The command bound to a key: player 0 pushes up with A, down with Z and
/// brakes with S; player 1 does so with K, M and J.
pub open spec fn key_binding(key: Key) -> Option<Command> {
    match key {
        Key::A => Some(Command::Accelerate(0, -1i64)),
        Key::Z => Some(Command::Accelerate(0, 1)),
        Key::S => Some(Command::Slow(0)),
        Key::K => Some(Command::Accelerate(1, -1i64)),
        Key::M => Some(Command::Accelerate(1, 1)),
        Key::J => Some(Command::Slow(1)),
        _ => None,
    }
}

/// The command bound to a button of controller number `which`, whose player
/// has the same number: the pad pushes up and down, B brakes.
pub open spec fn button_binding(which: u32, button: Button) -> Option<Command> {
    match button {
        Button::DPadUp => Some(Command::Accelerate(which as PlayerId, -1i64)),
        Button::DPadDown => Some(Command::Accelerate(which as PlayerId, 1)),
        Button::B => Some(Command::Slow(which as PlayerId)),
        Button::Other => None,
    }
}

/// What an event calls for. Closing the window and the escape key stop the
/// loop. The space bar pauses, but not while it repeats. Every other key and
/// every button gives its bound command, if it has one.
pub open spec fn reaction(event: Event) -> Reaction {
    match event {
        Event::Quit => Reaction::Stop,
        Event::KeyDown { key: Key::Escape, .. } => Reaction::Stop,
        Event::KeyDown { key: Key::Space, repeat: false } => Reaction::Deliver(Command::Pause),
        Event::KeyDown { key, .. } => match key_binding(key) {
            Some(command) => Reaction::Deliver(command),
            None => Reaction::Ignore,
        },
        Event::ButtonDown { which, button } => match button_binding(which, button) {
            Some(command) => Reaction::Deliver(command),
            None => Reaction::Ignore,
        },
        Event::Other => Reaction::Ignore,
    }
}

/// The command that a key gives, if any.
pub fn keycode_to_command(key: Key) -> (command: Option<Command>)
    ensures
        command == key_binding(key),
{
    match key {
        Key::A => Some(Command::Accelerate(0, -1)),
        Key::Z => Some(Command::Accelerate(0, 1)),
        Key::S => Some(Command::Slow(0)),
        Key::K => Some(Command::Accelerate(1, -1)),
        Key::M => Some(Command::Accelerate(1, 1)),
        Key::J => Some(Command::Slow(1)),
        _ => None,
    }
}

/// The command that a button of controller number `which` gives, if any.
pub fn button_to_command(which: u32, button: Button) -> (command: Option<Command>)
    ensures
        command == button_binding(which, button),
{
    let player_id: PlayerId = which as PlayerId;
    match button {
        Button::DPadUp => Some(Command::Accelerate(player_id, -1)),
        Button::DPadDown => Some(Command::Accelerate(player_id, 1)),
        Button::B => Some(Command::Slow(player_id)),
        _ => None,
    }
}

/// Decides what the frame loop does about `event`.
pub fn react(event: Event) -> (r: Reaction)
    ensures
        r == reaction(event),
{
    match event {
        Event::Quit => Reaction::Stop,
        Event::KeyDown { key: Key::Escape, .. } => Reaction::Stop,
        Event::KeyDown { key: Key::Space, repeat: false } => Reaction::Deliver(Command::Pause),
        Event::KeyDown { key, .. } => match keycode_to_command(key) {
            Some(command) => Reaction::Deliver(command),
            None => Reaction::Ignore,
        },
        Event::ButtonDown { which, button } => match button_to_command(which, button) {
            Some(command) => Reaction::Deliver(command),
            None => Reaction::Ignore,
        },
        Event::Other => Reaction::Ignore,
    }
}

} // verus!
