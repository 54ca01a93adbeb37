//! The writing side of the clipboard: offering a text for a selection and
//! claiming the selection at the server.

use vstd::prelude::*;
use vstd::utf8::encode_utf8;
use crate::atoms::{Atom, Context, Window};
use crate::error::Error;
use crate::store::SelectionStore;
use crate::text;
use crate::xproto;

verus! {

/// The request that makes the window `owner` the owner of `selection`.
#[derive(Clone, Copy, Debug, PartialEq, Eq, Structural)]
pub struct SetSelectionOwner {
    pub owner: Window,
    pub selection: Atom,
    pub time: u32,
}

/// Offers `contents` for `selection` as `UTF8_STRING` bytes, in place of what
/// was offered for it, and returns the request that claims the selection for
/// the writer's window. Offers for other selections stay as they are.
pub fn write_selection(
    store: &mut SelectionStore,
    writer: &Context,
    selection: Atom,
    contents: &String,
) -> (claim: SetSelectionOwner)
    ensures
        final(store)@ == old(store)@.insert(
            selection,
            (writer.atoms.utf8_string, encode_utf8(contents@)),
        ),
        claim == (SetSelectionOwner {
            owner: writer.window,
            selection,
            time: xproto::CURRENT_TIME,
        }),
{
    let bytes = text::encode(contents);
    store.insert(selection, writer.atoms.utf8_string, bytes);
    SetSelectionOwner { owner: writer.window, selection, time: xproto::current_time() }
}

/// Checks the owner that the server names after a claim: the write succeeded
/// exactly if it is the writer's window.
pub fn confirm_owner(writer: &Context, owner: Window) -> (outcome: Result<(), Error>)
    ensures
        owner == writer.window ==> outcome == Ok::<(), Error>(()),
        owner != writer.window ==> outcome == Err::<(), Error>(Error::InvalidOwner),
{
    if owner == writer.window {
        Ok(())
    } else {
        Err(Error::InvalidOwner)
    }
}

} // verus!
