use pong::command::{Command, CommandError};
use pong::controls::{button_to_command, keycode_to_command, react, Button, Event, Key, Reaction};
use pong::game::Game;
use pong::vector::Vec2;

#[test]
fn the_first_player_plays_with_a_z_and_s() {
    assert_eq!(keycode_to_command(Key::A), Some(Command::Accelerate(0, -1)));
    assert_eq!(keycode_to_command(Key::Z), Some(Command::Accelerate(0, 1)));
    assert_eq!(keycode_to_command(Key::S), Some(Command::Slow(0)));
}

#[test]
fn the_second_player_plays_with_k_m_and_j() {
    assert_eq!(keycode_to_command(Key::K), Some(Command::Accelerate(1, -1)));
    assert_eq!(keycode_to_command(Key::M), Some(Command::Accelerate(1, 1)));
    assert_eq!(keycode_to_command(Key::J), Some(Command::Slow(1)));
}

#[test]
fn other_keys_give_no_command() {
    assert_eq!(keycode_to_command(Key::Other), None);
    assert_eq!(keycode_to_command(Key::Space), None);
    assert_eq!(keycode_to_command(Key::Escape), None);
}

#[test]
fn a_controller_plays_for_the_player_of_its_number() {
    assert_eq!(button_to_command(0, Button::DPadUp), Some(Command::Accelerate(0, -1)));
    assert_eq!(button_to_command(0, Button::DPadDown), Some(Command::Accelerate(0, 1)));
    assert_eq!(button_to_command(0, Button::B), Some(Command::Slow(0)));
    assert_eq!(button_to_command(1, Button::DPadUp), Some(Command::Accelerate(1, -1)));
    assert_eq!(button_to_command(1, Button::DPadDown), Some(Command::Accelerate(1, 1)));
    assert_eq!(button_to_command(1, Button::B), Some(Command::Slow(1)));
    assert_eq!(button_to_command(5, Button::B), Some(Command::Slow(5)));
}

#[test]
fn other_buttons_give_no_command() {
    assert_eq!(button_to_command(0, Button::Other), None);
    assert_eq!(button_to_command(9, Button::Other), None);
}

#[test]
fn closing_the_window_stops_the_loop() {
    assert_eq!(react(Event::Quit), Reaction::Stop);
}

#[test]
fn escape_stops_the_loop() {
    assert_eq!(react(Event::KeyDown { key: Key::Escape, repeat: false }), Reaction::Stop);
    assert_eq!(react(Event::KeyDown { key: Key::Escape, repeat: true }), Reaction::Stop);
}

#[test]
fn space_pauses_once_per_press() {
    assert_eq!(
        react(Event::KeyDown { key: Key::Space, repeat: false }),
        Reaction::Deliver(Command::Pause)
    );
    assert_eq!(react(Event::KeyDown { key: Key::Space, repeat: true }), Reaction::Ignore);
}

#[test]
fn a_bound_key_delivers_its_command_also_while_it_repeats() {
    assert_eq!(
        react(Event::KeyDown { key: Key::A, repeat: false }),
        Reaction::Deliver(Command::Accelerate(0, -1))
    );
    assert_eq!(
        react(Event::KeyDown { key: Key::M, repeat: true }),
        Reaction::Deliver(Command::Accelerate(1, 1))
    );
    assert_eq!(
        react(Event::KeyDown { key: Key::J, repeat: true }),
        Reaction::Deliver(Command::Slow(1))
    );
}

#[test]
fn an_unbound_key_is_ignored() {
    assert_eq!(react(Event::KeyDown { key: Key::Other, repeat: false }), Reaction::Ignore);
    assert_eq!(react(Event::KeyDown { key: Key::Other, repeat: true }), Reaction::Ignore);
}

#[test]
fn a_button_delivers_its_command() {
    assert_eq!(
        react(Event::ButtonDown { which: 1, button: Button::DPadDown }),
        Reaction::Deliver(Command::Accelerate(1, 1))
    );
    assert_eq!(
        react(Event::ButtonDown { which: 0, button: Button::B }),
        Reaction::Deliver(Command::Slow(0))
    );
    assert_eq!(react(Event::ButtonDown { which: 0, button: Button::Other }), Reaction::Ignore);
}

#[test]
fn other_events_are_ignored() {
    assert_eq!(react(Event::Other), Reaction::Ignore);
}

#[test]
fn a_third_controller_is_turned_down_by_the_match() {
    let mut game = Game::new(Vec2::new(1000, 0));
    let before = game;
    match react(Event::ButtonDown { which: 2, button: Button::DPadUp }) {
        Reaction::Deliver(command) => {
            assert_eq!(game.handle_command(command), Err(CommandError::UnknownPlayer(2)));
        }
        other => panic!("unexpected reaction {:?}", other),
    }
    assert_eq!(game, before);
}

#[test]
fn a_key_press_reaches_the_paddle() {
    let mut game = Game::new(Vec2::new(1000, 0));
    if let Reaction::Deliver(command) = react(Event::KeyDown { key: Key::Z, repeat: false }) {
        game.handle_command(command).unwrap();
    }
    assert_eq!(game.paddles[0].velocity.y, 2000);
    if let Reaction::Deliver(command) = react(Event::KeyDown { key: Key::K, repeat: false }) {
        game.handle_command(command).unwrap();
    }
    assert_eq!(game.paddles[1].velocity.y, -2000);
}
