//! The decisions of the render loop: which events reach the controller in
//! a frame, and what a key pressed in the terminal asks for.

use crate::channel::drained_count;
use crate::channel::EventChannel;
use crate::channel::DRAIN_LIMIT;
use crate::state::App;
use crate::model::AppView;
use crate::model::Event;
use crate::terminal::Direction;
use vstd::prelude::*;

verus! {

/// A key as the terminal reports it.
#[derive(Debug, Clone, Copy, PartialEq, Eq, Structural)]
pub enum TerminalKey {
    Char(char),
    Esc,
    Up,
    Down,
    Left,
    Right,
    Other,
}

/// A key event of the terminal.
#[derive(Debug, Clone, Copy, PartialEq, Eq, Structural)]
pub struct TerminalInput {
    pub key: TerminalKey,
    /// Whether control was held.
    pub control: bool,
    /// Whether the key went down; else it came up or repeats.
    pub pressed: bool,
}

/// What a key event of the terminal asks for.
#[derive(Debug, Clone, Copy, PartialEq, Eq, Structural)]
pub enum Command {
    /// Leave the render loop.
    Quit,
    /// Move the window to an edge of the screen.
    Place(Direction),
    /// Nothing.
    Ignore,
}

/// What a key event asks for: `q`, escape and control-C quit, an arrow
/// moves the window to the edge it points to, and nothing else, nor any
/// key that is not pressed, does anything.
pub open spec fn command_of(input: TerminalInput) -> Command {
    if !input.pressed {
        Command::Ignore
    } else {
        match input.key {
            TerminalKey::Char(c) => if c == 'q' || (c == 'c' && input.control) {
                Command::Quit
            } else {
                Command::Ignore
            },
            TerminalKey::Esc => Command::Quit,
            TerminalKey::Up => Command::Place(Direction::Top),
            TerminalKey::Down => Command::Place(Direction::Bottom),
            TerminalKey::Left => Command::Place(Direction::Left),
            TerminalKey::Right => Command::Place(Direction::Right),
            TerminalKey::Other => Command::Ignore,
        }
    }
}

/// What a key event of the terminal asks for.
pub fn command_for(input: TerminalInput) -> (command: Command)
    ensures
        command == command_of(input),
{
    if !input.pressed {
        return Command::Ignore;
    }
    match input.key {
        TerminalKey::Char(c) => {
            if c == 'q' || (c == 'c' && input.control) {
                Command::Quit
            } else {
                Command::Ignore
            }
        },
        TerminalKey::Esc => Command::Quit,
        TerminalKey::Up => Command::Place(Direction::Top),
        TerminalKey::Down => Command::Place(Direction::Bottom),
        TerminalKey::Left => Command::Place(Direction::Left),
        TerminalKey::Right => Command::Place(Direction::Right),
        TerminalKey::Other => Command::Ignore,
    }
}

/// Handles what the terminal reported in a frame, if it reported
/// anything: a quit is noted in the controller, and a placement is
/// returned for the caller to carry out.
pub fn handle_input(app: &mut App, input: Option<TerminalInput>) -> (placement: Option<Direction>)
    ensures
        final(app)@ == (AppView {
            should_quit: old(app).should_quit || (input matches Some(i) && command_of(i)
                == Command::Quit),
            ..old(app)@
        }),
        final(app).clock == old(app).clock,
        placement == match input {
            Some(i) => match command_of(i) {
                Command::Place(direction) => Some(direction),
                _ => None,
            },
            None => None,
        },
{
    match input {
        Some(i) => match command_for(i) {
            Command::Quit => {
                app.quit();
                None
            },
            Command::Place(direction) => Some(direction),
            Command::Ignore => None,
        },
        None => None,
    }
}

/// The key events that the texts `keys` make at the time `now`.
pub open spec fn key_events(keys: Seq<Seq<char>>, now: u64) -> Seq<Event> {
    Seq::new(keys.len(), |i: int| Event::Key { key: keys[i], now })
}

/// The controller's state with its two key-driven times set to zero:
/// what a key event leaves of the state, whenever it comes.
pub open spec fn timeless(state: AppView) -> AppView {
    AppView { last_keypress_time: 0, last_typing_frame_time: 0, ..state }
}

/// Feeds the controller up to `DRAIN_LIMIT` of the events that wait in the
/// channel, oldest first, as key events at the time `now`, and leaves the
/// rest waiting. Returns the number of events fed.
pub fn pump_events_at(app: &mut App, channel: &mut EventChannel, now: u64) -> (fed: usize)
    requires
        old(app).wf(),
    ensures
        fed == drained_count(old(channel)@, DRAIN_LIMIT as nat),
        final(channel)@ == old(channel)@.skip(fed as int),
        final(channel).capacity == old(channel).capacity,
        old(channel).wf() ==> final(channel).wf(),
        final(app)@ == old(app)@.run(key_events(old(channel)@.take(fed as int), now)),
        final(app).wf(),
        final(app).clock == old(app).clock,
{
    let mut fed: usize = 0;
    assert(key_events(old(channel)@.take(0), now) =~= Seq::<Event>::empty());
    while fed < DRAIN_LIMIT
        invariant
            fed <= DRAIN_LIMIT,
            fed <= old(channel)@.len(),
            app.wf(),
            app.clock == old(app).clock,
            channel@ == old(channel)@.skip(fed as int),
            channel.capacity == old(channel).capacity,
            old(channel).wf() ==> channel.wf(),
            app@ == old(app)@.run(key_events(old(channel)@.take(fed as int), now)),
        ensures
            fed == drained_count(old(channel)@, DRAIN_LIMIT as nat),
            app.wf(),
            app.clock == old(app).clock,
            channel@ == old(channel)@.skip(fed as int),
            channel.capacity == old(channel).capacity,
            old(channel).wf() ==> channel.wf(),
            app@ == old(app)@.run(key_events(old(channel)@.take(fed as int), now)),
        decreases DRAIN_LIMIT - fed,
    {
        match channel.try_recv() {
            Some(key) => {
                let ghost before = key_events(old(channel)@.take(fed as int), now);
                let ghost after = key_events(old(channel)@.take(fed + 1), now);
                assert(after.drop_last() =~= before);
                assert(after.last() == Event::Key { key: key@, now });
                app.on_key_at(key, now);
                fed += 1;
                assert(channel@ =~= old(channel)@.skip(fed as int));
            },
            None => {
                break ;
            },
        }
    }
    fed
}

/// Feeds the controller up to `DRAIN_LIMIT` of the events that wait in the
/// channel, oldest first, each stamped by the controller's clock, and
/// leaves the rest waiting. Returns the number of events fed. But for the
/// times, the controller is where the same events would have brought it
/// at any time.
pub fn pump_events(app: &mut App, channel: &mut EventChannel) -> (fed: usize)
    requires
        old(app).wf(),
    ensures
        fed == drained_count(old(channel)@, DRAIN_LIMIT as nat),
        final(channel)@ == old(channel)@.skip(fed as int),
        final(channel).capacity == old(channel).capacity,
        old(channel).wf() ==> final(channel).wf(),
        timeless(final(app)@) == timeless(
            old(app)@.run(key_events(old(channel)@.take(fed as int), 0)),
        ),
        final(app).wf(),
{
    let mut fed: usize = 0;
    assert(key_events(old(channel)@.take(0), 0) =~= Seq::<Event>::empty());
    while fed < DRAIN_LIMIT
        invariant
            fed <= DRAIN_LIMIT,
            fed <= old(channel)@.len(),
            app.wf(),
            channel@ == old(channel)@.skip(fed as int),
            channel.capacity == old(channel).capacity,
            old(channel).wf() ==> channel.wf(),
            timeless(app@) == timeless(
                old(app)@.run(key_events(old(channel)@.take(fed as int), 0)),
            ),
        ensures
            fed == drained_count(old(channel)@, DRAIN_LIMIT as nat),
            app.wf(),
            channel@ == old(channel)@.skip(fed as int),
            channel.capacity == old(channel).capacity,
            old(channel).wf() ==> channel.wf(),
            timeless(app@) == timeless(
                old(app)@.run(key_events(old(channel)@.take(fed as int), 0)),
            ),
        decreases DRAIN_LIMIT - fed,
    {
        match channel.try_recv() {
            Some(key) => {
                let ghost before = key_events(old(channel)@.take(fed as int), 0);
                let ghost after = key_events(old(channel)@.take(fed + 1), 0);
                let ghost state = app@;
                assert(after.drop_last() =~= before);
                assert(after.last() == Event::Key { key: key@, now: 0 });
                app.on_key(key);
                proof {
                    let now = choose|now: u64| app@ == #[trigger] state.after_key(key@, now);
                    lemma_key_ignores_times(state, old(app)@.run(before), key@, now, 0);
                }
                fed += 1;
                assert(channel@ =~= old(channel)@.skip(fed as int));
            },
            None => {
                break ;
            },
        }
    }
    fed
}

/// A key event reads none of the times: from two states that differ in
/// the key-driven times at most, at whatever two times, it leads to two
/// states that differ in those times at most.
pub proof fn lemma_key_ignores_times(a: AppView, b: AppView, key: Seq<char>, at_a: u64, at_b: u64)
    requires
        timeless(a) == timeless(b),
    ensures
        timeless(a.after_key(key, at_a)) == timeless(b.after_key(key, at_b)),
{
}

/// The events that reach the controller in a frame are the oldest that
/// wait, in their order, and what is not fed stays first in line: feeding
/// twice is feeding the events of both frames in one go.
pub proof fn lemma_pumping_keeps_order(waiting: Seq<Seq<char>>, state: AppView, now: u64, later: u64)
    ensures
        ({
            let first = drained_count(waiting, DRAIN_LIMIT as nat) as int;
            let rest = waiting.skip(first);
            let second = drained_count(rest, DRAIN_LIMIT as nat) as int;
            &&& waiting.take(first) + rest.take(second) == waiting.take(first + second)
            &&& state.run(key_events(waiting.take(first), now)).run(
                key_events(rest.take(second), later),
            ) == state.run(
                key_events(waiting.take(first), now) + key_events(rest.take(second), later),
            )
        }),
{
    let first = drained_count(waiting, DRAIN_LIMIT as nat) as int;
    let rest = waiting.skip(first);
    let second = drained_count(rest, DRAIN_LIMIT as nat) as int;
    assert(waiting.take(first) + rest.take(second) =~= waiting.take(first + second));
    lemma_run_of_concat(
        state,
        key_events(waiting.take(first), now),
        key_events(rest.take(second), later),
    );
}

/// Running two sequences of events one after the other is running their
/// concatenation.
pub proof fn lemma_run_of_concat(state: AppView, first: Seq<Event>, second: Seq<Event>)
    ensures
        state.run(first).run(second) == state.run(first + second),
    decreases second.len(),
{
    if second.len() == 0 {
        assert(first + second =~= first);
    } else {
        lemma_run_of_concat(state, first, second.drop_last());
        assert((first + second).drop_last() =~= first + second.drop_last());
        assert((first + second).last() == second.last());
    }
}

} // verus!
