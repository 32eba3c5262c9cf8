//! The front end's settings and the choice between its two flows.

use crate::charset::is_special;
use crate::generator::{all_in_pool, generate_password};
use crate::record::{format_line, record_line};
use vstd::prelude::*;
use vstd::string::*;

verus! {

/// The password length where none is asked for.
pub const DEFAULT_LENGTH: u32 = 15;

/// The settings of one run.
#[derive(Clone, Debug)]
pub struct Options {
    /// How many characters a new password has.
    pub length: u32,
    /// Whether a new password may hold special characters.
    pub include_specials: bool,
    /// The name to store a new password under; empty to retrieve one.
    pub name: String,
}

/// The two things a run can do.
#[derive(Clone, Copy, Debug, PartialEq, Eq, Structural)]
pub enum Flow {
    /// Select a stored password and copy it to the clipboard.
    Retrieve,
    /// Generate a password and store it under the given name.
    Generate,
}

/// A new password and the line that stores it.
#[derive(Clone, Debug)]
pub struct Entry {
    /// The password that was generated.
    pub password: String,
    /// The line to append to the store, with its newline.
    pub line: String,
}

impl Options {
    /// The settings that the command line's flags stand for: the length
    /// defaults to fifteen, the name to the empty string, and special
    /// characters are included unless the switch is given.
    pub fn from_flags(length: Option<u32>, special_switch: bool, name: Option<String>) -> (options:
        Options)
        ensures
            options.length == match length {
                Some(l) => l,
                None => DEFAULT_LENGTH,
            },
            options.include_specials == !special_switch,
            options.name@ == match name {
                Some(n) => n@,
                None => Seq::<char>::empty(),
            },
    {
        let length = match length {
            Some(l) => l,
            None => DEFAULT_LENGTH,
        };
        let name = match name {
            Some(n) => n,
            None => String::new(),
        };
        Options { length, include_specials: !special_switch, name }
    }

    /// An empty name asks for retrieval, any other name for generation.
    pub fn flow(&self) -> (flow: Flow)
        ensures
            flow == if self.name@.len() == 0 {
                Flow::Retrieve
            } else {
                Flow::Generate
            },
    {
        if self.name.as_str().is_empty() {
            Flow::Retrieve
        } else {
            Flow::Generate
        }
    }

    /// The generation flow up to the write: a fresh password of the
    /// length asked for, and the line that stores it under the name.
    pub fn new_entry(&self) -> (entry: Entry)
        ensures
            entry.password@.len() == self.length,
            all_in_pool(entry.password@, self.include_specials),
            !self.include_specials ==> forall|i: int|
                0 <= i < entry.password@.len() ==> !is_special(#[trigger] entry.password@[i]),
            entry.line@ == record_line(self.name@, entry.password@),
    {
        let password = generate_password(self.length, self.include_specials);
        let line = format_line(self.name.as_str(), password.as_str());
        Entry { password, line }
    }
}

} // verus!
