//! A native record of one integer, and the rules by which a host runtime
//! finds and loads the shared library that holds it.
//!
//! - `record`: the record, with its constructor, setter and getter.
//! - `platform`: from an operating system's name to the library file's path.
//! - `bootstrap`: the host's one-time initialization, as a state machine.
//! - `text`: the lower-casing and substring search that `platform` rests on.

pub mod bootstrap;
pub mod platform;
pub mod record;
pub mod text;

pub use record::Foo;
