//! The iOS backend, which offers no clipboard yet.

use vstd::prelude::*;

verus! {

/// The error of the iOS backend.
#[allow(non_camel_case_types)]
#[derive(Clone, Copy, Debug, PartialEq, Eq, Structural)]
pub enum iOSClipboardError {
    Unimplemented,
}

impl iOSClipboardError {
    /// The text that describes the error.
    pub fn message(&self) -> (text: &'static str)
        ensures
            text@ == "Unimplemented"@,
    {
        "Unimplemented"
    }
}

/// The clipboard of an iOS display. It can be had, but not read.
#[derive(Clone, Copy, Debug, PartialEq, Eq, Structural)]
pub struct Clipboard;

impl Clipboard {
    /// The clipboard; this never fails.
    pub fn new() -> (clipboard: Result<Clipboard, iOSClipboardError>)
        ensures
            clipboard == Ok::<Clipboard, iOSClipboardError>(Clipboard),
    {
        Ok(Clipboard)
    }

    /// Reading always fails.
    pub fn read(&self) -> (contents: Result<String, iOSClipboardError>)
        ensures
            contents == Err::<String, iOSClipboardError>(iOSClipboardError::Unimplemented),
    {
        Err(iOSClipboardError::Unimplemented)
    }
}

} // verus!
