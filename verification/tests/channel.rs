use tapwatch::channel::EventChannel;
use tapwatch::channel::CHANNEL_CAPACITY;
use tapwatch::channel::DRAIN_LIMIT;
use tapwatch::render_loop::command_for;
use tapwatch::render_loop::handle_input;
use tapwatch::render_loop::pump_events;
use tapwatch::render_loop::pump_events_at;
use tapwatch::render_loop::Command;
use tapwatch::render_loop::TerminalInput;
use tapwatch::render_loop::TerminalKey;
use tapwatch::state::AnimationState;
use tapwatch::state::App;
use tapwatch::terminal::Direction;

fn text(n: usize) -> String {
    format!("k{n}")
}

#[test]
fn new_channel_is_empty() {
    let mut channel = EventChannel::new(CHANNEL_CAPACITY);
    assert_eq!(CHANNEL_CAPACITY, 32);
    assert_eq!(channel.capacity, 32);
    assert_eq!(channel.len(), 0);
    assert!(channel.is_empty());
    assert!(!channel.is_full());
    assert_eq!(channel.try_recv(), None);
    assert!(channel.drain(5).is_empty());
}

#[test]
fn channel_delivers_in_order() {
    let mut channel = EventChannel::new(4);
    assert!(channel.try_send(text(1)));
    assert!(channel.try_send(text(2)));
    assert!(channel.try_send(text(3)));
    assert_eq!(channel.len(), 3);
    assert_eq!(channel.try_recv(), Some(text(1)));
    assert!(channel.try_send(text(4)));
    assert_eq!(channel.try_recv(), Some(text(2)));
    assert_eq!(channel.try_recv(), Some(text(3)));
    assert_eq!(channel.try_recv(), Some(text(4)));
    assert_eq!(channel.try_recv(), None);
}

#[test]
fn full_channel_drops_the_newest() {
    let mut channel = EventChannel::new(CHANNEL_CAPACITY);
    for n in 0..CHANNEL_CAPACITY {
        assert!(channel.try_send(text(n)));
    }
    assert!(channel.is_full());
    assert!(!channel.try_send(text(100)));
    assert!(!channel.try_send(text(101)));
    assert_eq!(channel.len(), CHANNEL_CAPACITY);
    assert_eq!(channel.try_recv(), Some(text(0)));
    assert!(!channel.is_full());
    assert!(channel.try_send(text(102)));
    let rest = channel.drain(100);
    let mut expected: Vec<String> = (1..CHANNEL_CAPACITY).map(text).collect();
    expected.push(text(102));
    assert_eq!(rest, expected);
    assert!(channel.is_empty());
}

#[test]
fn channel_without_room_drops_everything() {
    let mut channel = EventChannel::new(0);
    assert!(channel.is_full());
    assert!(!channel.try_send(text(1)));
    assert_eq!(channel.try_recv(), None);
}

#[test]
fn drain_takes_at_most_the_limit() {
    let mut channel = EventChannel::new(CHANNEL_CAPACITY);
    for n in 0..25 {
        channel.try_send(text(n));
    }
    let first = channel.drain(DRAIN_LIMIT);
    assert_eq!(first, (0..10).map(text).collect::<Vec<_>>());
    assert_eq!(channel.len(), 15);
    let second = channel.drain(DRAIN_LIMIT);
    assert_eq!(second, (10..20).map(text).collect::<Vec<_>>());
    let third = channel.drain(DRAIN_LIMIT);
    assert_eq!(third, (20..25).map(text).collect::<Vec<_>>());
    assert!(channel.drain(DRAIN_LIMIT).is_empty());
    assert!(channel.drain(0).is_empty());
}

#[test]
fn pump_feeds_ten_events_a_frame() {
    let mut channel = EventChannel::new(CHANNEL_CAPACITY);
    for c in "abcdefghijklmno".chars() {
        channel.try_send(c.to_string());
    }
    let mut app = App::new_at(0);
    assert_eq!(pump_events_at(&mut app, &mut channel, 50), 10);
    assert_eq!(app.typed_text, "abcdefghij");
    assert_eq!(app.animation_state, AnimationState::Typing);
    assert_eq!(app.last_keypress_time, 50);
    assert_eq!(channel.len(), 5);
    assert_eq!(pump_events_at(&mut app, &mut channel, 60), 5);
    assert_eq!(app.typed_text, "abcdefghijklmno");
    assert_eq!(app.last_keypress_time, 60);
    assert_eq!(pump_events_at(&mut app, &mut channel, 70), 0);
    assert_eq!(app.last_keypress_time, 60);
}

#[test]
fn pump_with_clock_feeds_the_same_text() {
    let mut channel = EventChannel::new(CHANNEL_CAPACITY);
    for key in ["h", "⇧", "i", "⏎", "x", "y"] {
        channel.try_send(String::from(key));
    }
    let mut app = App::new();
    assert_eq!(pump_events(&mut app, &mut channel), 6);
    assert_eq!(app.typed_text, "xy");
    assert!(!app.is_special_key_text);
    assert!(channel.is_empty());
    assert_eq!(pump_events(&mut app, &mut channel), 0);
}

#[test]
fn overflowing_burst_loses_only_the_excess() {
    let mut channel = EventChannel::new(CHANNEL_CAPACITY);
    let mut accepted = Vec::new();
    for n in 0..40 {
        let sent = char::from(b'a' + (n % 26) as u8).to_string();
        if channel.try_send(sent.clone()) {
            accepted.push(sent);
        }
    }
    assert_eq!(accepted.len(), CHANNEL_CAPACITY);
    let mut app = App::new_at(0);
    let mut frames = 0;
    while pump_events_at(&mut app, &mut channel, frames) > 0 {
        frames += 1;
    }
    assert_eq!(frames, 4);
    assert_eq!(app.typed_text, accepted.concat());
}

#[test]
fn quit_keys() {
    let press = |key| TerminalInput { key, control: false, pressed: true };
    assert_eq!(command_for(press(TerminalKey::Char('q'))), Command::Quit);
    assert_eq!(command_for(press(TerminalKey::Esc)), Command::Quit);
    assert_eq!(command_for(press(TerminalKey::Char('c'))), Command::Ignore);
    assert_eq!(
        command_for(TerminalInput { key: TerminalKey::Char('c'), control: true, pressed: true }),
        Command::Quit
    );
    assert_eq!(
        command_for(TerminalInput { key: TerminalKey::Char('q'), control: true, pressed: true }),
        Command::Quit
    );
    assert_eq!(command_for(press(TerminalKey::Char('Q'))), Command::Ignore);
    assert_eq!(command_for(press(TerminalKey::Char('x'))), Command::Ignore);
    assert_eq!(command_for(press(TerminalKey::Other)), Command::Ignore);
    assert_eq!(
        command_for(TerminalInput { key: TerminalKey::Char('q'), control: false, pressed: false }),
        Command::Ignore
    );
    assert_eq!(
        command_for(TerminalInput { key: TerminalKey::Esc, control: false, pressed: false }),
        Command::Ignore
    );
}

#[test]
fn arrow_keys_place_the_window() {
    let press = |key| TerminalInput { key, control: false, pressed: true };
    assert_eq!(command_for(press(TerminalKey::Up)), Command::Place(Direction::Top));
    assert_eq!(command_for(press(TerminalKey::Down)), Command::Place(Direction::Bottom));
    assert_eq!(command_for(press(TerminalKey::Left)), Command::Place(Direction::Left));
    assert_eq!(command_for(press(TerminalKey::Right)), Command::Place(Direction::Right));
}

#[test]
fn input_is_handled_once_per_frame() {
    let mut app = App::new_at(0);
    assert_eq!(handle_input(&mut app, None), None);
    assert!(!app.should_quit);
    let left = TerminalInput { key: TerminalKey::Left, control: false, pressed: true };
    assert_eq!(handle_input(&mut app, Some(left)), Some(Direction::Left));
    assert!(!app.should_quit);
    let other = TerminalInput { key: TerminalKey::Char('z'), control: false, pressed: true };
    assert_eq!(handle_input(&mut app, Some(other)), None);
    assert!(!app.should_quit);
    let quit = TerminalInput { key: TerminalKey::Esc, control: false, pressed: true };
    assert_eq!(handle_input(&mut app, Some(quit)), None);
    assert!(app.should_quit);
    assert_eq!(handle_input(&mut app, Some(other)), None);
    assert!(app.should_quit);
}
