//! The Android backend, which offers no clipboard yet.

use vstd::prelude::*;

verus! {

/// The error of the Android backend.
#[derive(Clone, Copy, Debug, PartialEq, Eq, Structural)]
pub enum AndroidClipboardError {
    Unimplemented,
}

impl AndroidClipboardError {
    /// The text that describes the error.
    pub fn message(&self) -> (text: &'static str)
        ensures
            text@ == "Unimplemented"@,
    {
        "Unimplemented"
    }
}

/// The clipboard of an Android display. It can be had, but neither read nor
/// written.
#[derive(Clone, Copy, Debug, PartialEq, Eq, Structural)]
pub struct Clipboard;

impl Clipboard {
    /// The clipboard; this never fails.
    pub fn new() -> (clipboard: Result<Clipboard, AndroidClipboardError>)
        ensures
            clipboard == Ok::<Clipboard, AndroidClipboardError>(Clipboard),
    {
        Ok(Clipboard)
    }

    /// Reading always fails.
    pub fn read(&self) -> (contents: Result<String, AndroidClipboardError>)
        ensures
            contents == Err::<String, AndroidClipboardError>(AndroidClipboardError::Unimplemented),
    {
        Err(AndroidClipboardError::Unimplemented)
    }

    /// Writing always fails.
    pub fn write(&mut self, contents: String) -> (outcome: Result<(), AndroidClipboardError>)
        ensures
            outcome == Err::<(), AndroidClipboardError>(AndroidClipboardError::Unimplemented),
    {
        Err(AndroidClipboardError::Unimplemented)
    }
}

} // verus!
