//! The clipboard as its user sees it: text read from and written to the
//! `CLIPBOARD` and `PRIMARY` selections.

use vstd::prelude::*;
use vstd::utf8::encode_utf8;
use crate::atoms::{Atom, Context, Selection, Window};
use crate::error::Error;
use crate::reader::{Reader, ReaderView, READ_TIMEOUT};
use crate::store::{Offers, SelectionStore};
use crate::worker::{Worker, WorkerView};
use crate::writer::{confirm_owner, write_selection, SetSelectionOwner};
use crate::xproto;

verus! {

/// A clipboard over two contexts: one to read through, one to own selections
/// with. Each context has a connection of its own.
pub struct Clipboard {
    reader: Context,
    writer: Context,
}

impl Clipboard {
    /// The context that reads.
    pub closed spec fn reader(&self) -> Context {
        self.reader
    }

    /// The context that owns.
    pub closed spec fn writer(&self) -> Context {
        self.writer
    }

    /// The transfer that reads `which` as text through the reading context.
    pub open spec fn reading(&self, which: Selection) -> ReaderView {
        ReaderView {
            window: self.reader().window,
            selection: self.reader().atoms.selection_of(which),
            target: self.reader().atoms.utf8_string,
            property: self.reader().atoms.property,
            incr: self.reader().atoms.incr,
            timeout: Some(READ_TIMEOUT),
            buff: Seq::empty(),
            is_incr: false,
        }
    }

    /// The request that claims `which` for the owning context's window.
    pub open spec fn claim(&self, which: Selection) -> SetSelectionOwner {
        SetSelectionOwner {
            owner: self.writer().window,
            selection: self.writer().atoms.selection_of(which),
            time: xproto::CURRENT_TIME,
        }
    }

    /// The offers after a write of `contents` to `which`.
    pub open spec fn written(&self, offers: Offers, which: Selection, contents: Seq<char>) -> Offers {
        offers.insert(
            self.writer().atoms.selection_of(which),
            (self.writer().atoms.utf8_string, encode_utf8(contents)),
        )
    }

    /// A clipboard over the two contexts, with the worker that serves the
    /// owning context, given the server's maximum request size in bytes, and
    /// the store they share. Nothing is offered and no transfer is under way.
    pub fn connect(reader: Context, writer: Context, max_length: usize) -> (parts: (
        Clipboard,
        Worker,
        SelectionStore,
    ))
        ensures
            parts.0.reader() == reader,
            parts.0.writer() == writer,
            parts.1@ == (WorkerView {
                targets: writer.atoms.targets,
                incr: writer.atoms.incr,
                max_length,
                incr_map: Map::empty(),
                state_map: Map::empty(),
            }),
            parts.2@ == Offers::empty(),
    {
        let worker = Worker::new(writer.atoms.targets, writer.atoms.incr, max_length);
        (Clipboard { reader, writer }, worker, SelectionStore::new())
    }

    /// The window of the context that reads.
    pub fn reader_window(&self) -> (window: Window)
        ensures
            window == self.reader().window,
    {
        self.reader.window
    }

    /// The window of the context that owns.
    pub fn writer_window(&self) -> (window: Window)
        ensures
            window == self.writer().window,
    {
        self.writer.window
    }

    /// The atom under which the owning context offers `which`. A write tells
    /// the worker to cancel the transfers of this atom before it changes the
    /// offer.
    pub fn selection(&self, which: Selection) -> (atom: Atom)
        ensures
            atom == self.writer().atoms.selection_of(which),
    {
        self.writer.atoms.selection(which)
    }

    /// Starts a load of `selection`, converted to `target`, through `property`
    /// of the reading context's window, that may take `timeout` microseconds,
    /// or any time where there is none.
    pub fn load(&self, selection: Atom, target: Atom, property: Atom, timeout: Option<u64>) -> (reader:
        Reader)
        ensures
            reader@ == (ReaderView {
                window: self.reader().window,
                selection,
                target,
                property,
                incr: self.reader().atoms.incr,
                timeout,
                buff: Seq::empty(),
                is_incr: false,
            }),
    {
        Reader::new(&self.reader, selection, target, property, timeout)
    }

    /// Starts a read of the `CLIPBOARD` selection as text.
    pub fn read(&self) -> (reader: Reader)
        ensures
            reader@ == self.reading(Selection::Clipboard),
    {
        Reader::text(&self.reader, self.reader.atoms.selection(Selection::Clipboard))
    }

    /// Starts a read of the `PRIMARY` selection as text.
    pub fn read_primary(&self) -> (reader: Reader)
        ensures
            reader@ == self.reading(Selection::Primary),
    {
        Reader::text(&self.reader, self.reader.atoms.selection(Selection::Primary))
    }

    /// Offers `contents` for the `CLIPBOARD` selection, and returns the
    /// request that claims it; the `PRIMARY` selection keeps its offer.
    pub fn write(&self, store: &mut SelectionStore, contents: &String) -> (claim: SetSelectionOwner)
        ensures
            final(store)@ == self.written(old(store)@, Selection::Clipboard, contents@),
            claim == self.claim(Selection::Clipboard),
    {
        let selection = self.writer.atoms.selection(Selection::Clipboard);
        write_selection(store, &self.writer, selection, contents)
    }

    /// Offers `contents` for the `PRIMARY` selection, and returns the request
    /// that claims it; the `CLIPBOARD` selection keeps its offer.
    pub fn write_primary(&self, store: &mut SelectionStore, contents: &String) -> (claim:
        SetSelectionOwner)
        ensures
            final(store)@ == self.written(old(store)@, Selection::Primary, contents@),
            claim == self.claim(Selection::Primary),
    {
        let selection = self.writer.atoms.selection(Selection::Primary);
        write_selection(store, &self.writer, selection, contents)
    }

    /// Checks the owner that the server names after a write: the write
    /// succeeded exactly if it is the owning context's window.
    pub fn confirm(&self, owner: Window) -> (outcome: Result<(), Error>)
        ensures
            owner == self.writer().window ==> outcome == Ok::<(), Error>(()),
            owner != self.writer().window ==> outcome == Err::<(), Error>(Error::InvalidOwner),
    {
        confirm_owner(&self.writer, owner)
    }
}

} // verus!
