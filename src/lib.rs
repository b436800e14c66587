//! A terminal character browser: a small screen state machine that lists saved
//! characters, lets the user move a selection over them, and opens a sheet for
//! the chosen (or a fresh) character.
//!
//! The library decides what each screen shows and how each key is read; the
//! caller owns the terminal, draws the frames that the library hands back and
//! feeds it the keys it reads.

pub mod character;
pub mod frame;
pub mod screen;
pub mod driver;
pub mod laws;
