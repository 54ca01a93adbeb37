//! A clipboard that holds nothing, for displays without one.

use vstd::prelude::*;

verus! {

/// A clipboard that forgets what is written to it and reads as empty.
#[derive(Clone, Copy, Debug, PartialEq, Eq, Structural)]
pub struct Clipboard;

impl Clipboard {
    /// The clipboard; there is nothing to connect to.
    pub fn connect() -> (clipboard: Clipboard)
        ensures
            clipboard == Clipboard,
    {
        Clipboard
    }

    /// The current value, which is always the empty text.
    pub fn read(&self) -> (contents: String)
        ensures
            contents@ == Seq::<char>::empty(),
    {
        String::new()
    }

    /// Takes a new value and drops it.
    pub fn write(&mut self, contents: String)
        ensures
            *final(self) == *old(self),
    {
    }
}

} // verus!
