//! Decision logic of a Hachimi plugin that watches game data at runtime:
//! plugin start-up, its one-time setup, its menu entries, and the text it
//! writes to its log.

use vstd::prelude::*;

pub mod cstr;
pub mod plugin;
pub mod text;

verus! {

/// The answer that the plugin gives to the host when it is started.
#[derive(Clone, Copy, Debug, PartialEq, Eq, Structural)]
pub enum InitResult {
    Error,
    Success,
}

impl InitResult {
    /// The number by which the host knows this answer.
    pub open spec fn spec_code(self) -> i32 {
        match self {
            InitResult::Error => 0,
            InitResult::Success => 1,
        }
    }

    /// The number by which the host knows this answer: 0 for `Error`, 1 for `Success`.
    pub fn code(&self) -> (c: i32)
        ensures
            c == self.spec_code(),
    {
        match self {
            InitResult::Error => 0,
            InitResult::Success => 1,
        }
    }
}

} // verus!
