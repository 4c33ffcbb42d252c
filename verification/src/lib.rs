//! A keystroke-driven animation core for a terminal companion: a dog that
//! types along with the keys pressed in any application.
//!
//! Key notifications are normalised to display strings (`keys`,
//! `capture`), queued in a bounded channel that drops what does not fit
//! (`channel`), and folded into a timed `Idle`/`Typing` state machine with
//! a text trace, overlay effects and a dirty tracker that keeps image
//! redraws to a minimum (`state`, with its mathematical model in `model`
//! and what holds of it in `lemmas`). The render loop's own decisions are
//! in `render_loop`.
//!
//! What a frame shows is planned here and painted elsewhere: `layout` and
//! `ui` place the text and the sprite, `terminal` writes the escape
//! sequences and the window placement script as text, and `bitmap`,
//! `spritesheet` and `key_spritesheet` cut the picture files into frames.
//!
//! Nothing in this crate reads a file, writes to the terminal or starts a
//! thread. The clock and the random numbers come in through `clock` and
//! `rng`, and every operation that uses them has a twin that takes the time
//! and the drawn number as arguments.

pub mod bitmap;
pub mod capture;
pub mod channel;
pub mod classic;
pub mod clock;
pub mod effect;
pub mod iterm2;
pub mod key_spritesheet;
pub mod keys;
pub mod layout;
pub mod lemmas;
pub mod model;
pub mod render_loop;
pub mod rng;
pub mod sprite;
pub mod spritesheet;
pub mod state;
pub mod terminal;
pub mod text;
pub mod ui;
