//! The requesting side of a selection: the decisions of the reader that asks
//! for a conversion and drains the answer, in one piece or in increments.
//!
//! The reader never touches the connection. It says which request to send
//! next, and is told what came back.

use vstd::prelude::*;
use vstd::bytes::spec_u32_from_le_bytes;
use vstd::utf8::{decode_utf8, valid_utf8};
use crate::atoms::{Atom, Context, Window};
use crate::error::Error;
use crate::text;
use crate::worker::PropertyState;
use crate::xproto;

verus! {

/// How long `read` waits for a selection, in microseconds.
pub const READ_TIMEOUT: u64 = 3_000_000;

/// How long the reader rests when no event is waiting, in microseconds.
pub const POLL_INTERVAL: u64 = 50;

/// The request that asks the owner of `selection` to put it, converted to
/// `target`, on `property` of the window `requestor`.
#[derive(Clone, Copy, Debug, PartialEq, Eq, Structural)]
pub struct ConvertSelection {
    pub requestor: Window,
    pub selection: Atom,
    pub target: Atom,
    pub property: Atom,
    pub time: u32,
}

/// The request that reads `property` of `window`: `long_length` 32-bit units
/// from unit `long_offset` on, of any type when `type_` is the wildcard.
#[derive(Clone, Copy, Debug, PartialEq, Eq, Structural)]
pub struct GetProperty {
    pub delete: bool,
    pub window: Window,
    pub property: Atom,
    pub type_: Atom,
    pub long_offset: u32,
    pub long_length: u32,
}

/// The request that deletes `property` of `window`.
#[derive(Clone, Copy, Debug, PartialEq, Eq, Structural)]
pub struct DeleteProperty {
    pub window: Window,
    pub property: Atom,
}

/// The answer to a [`GetProperty`].
pub struct PropertyReply {
    pub type_: Atom,
    pub bytes_after: u32,
    pub value: Vec<u8>,
}

/// What the reader's connection delivers.
#[derive(Clone, Copy, Debug, PartialEq, Eq, Structural)]
pub enum Event {
    /// The owner of `selection` has answered; `property` holds the value, or
    /// is the null atom where the owner refused.
    SelectionNotify { selection: Atom, property: Atom },
    /// A property of the reader's window changed.
    PropertyNotify { state: PropertyState },
    /// Anything else.
    Other,
}

/// What the reader does next.
#[derive(Clone, Copy, Debug, PartialEq, Eq, Structural)]
pub enum Action {
    /// Wait for the next event.
    Poll,
    /// Read the answered property and hand the reply to [`Reader::accept_value`].
    Fetch(GetProperty),
    /// Measure the next increment and hand the reply to [`Reader::measure`].
    Probe(GetProperty),
    /// Read the next increment and hand the reply to [`Reader::accept_chunk`].
    Drain(GetProperty),
    /// Delete the drop-off property so that the owner starts to stream, then
    /// wait for the next event.
    StartIncr(DeleteProperty),
    /// Give up with this error.
    Fail(Error),
    /// The value is complete: send [`Reader::cleanup`] and take the bytes.
    Finish,
}

/// Whether a wait that has lasted `elapsed` has used up `timeout`. Without a
/// timeout a wait never ends by itself.
pub open spec fn is_expired(timeout: Option<u64>, elapsed: u64) -> bool {
    timeout matches Some(limit) && elapsed >= limit
}

/// The unit at which to go on reading after `len` bytes: a quarter of `len`,
/// or the largest offset where that does not fit.
pub open spec fn offset_after(len: nat) -> u32 {
    if len / 4 <= u32::MAX {
        (len / 4) as u32
    } else {
        u32::MAX
    }
}

/// The size that an owner announces at the start of an incremental transfer:
/// the first 32-bit unit of the value, low byte first, or 0 where it has none.
pub open spec fn announced_size(value: Seq<u8>) -> u32 {
    if value.len() >= 4 {
        spec_u32_from_le_bytes(value.subrange(0, 4))
    } else {
        0
    }
}

/// The size that an owner announces at the start of an incremental transfer.
pub fn size_hint(value: &Vec<u8>) -> (size: u32)
    ensures
        size == announced_size(value@),
{
    if value.len() >= 4 {
        vstd::bytes::u32_from_le_bytes(vstd::slice::slice_subrange(value.as_slice(), 0, 4))
    } else {
        0
    }
}

/// The mathematical content of a [`Reader`].
pub struct ReaderView {
    pub window: Window,
    pub selection: Atom,
    pub target: Atom,
    pub property: Atom,
    pub incr: Atom,
    /// How long the transfer may take, in microseconds, if it is limited.
    pub timeout: Option<u64>,
    /// The bytes received so far.
    pub buff: Seq<u8>,
    /// Whether the owner has announced an incremental transfer.
    pub is_incr: bool,
}

impl ReaderView {
    /// The request that starts the transfer.
    pub open spec fn convert(self) -> ConvertSelection {
        ConvertSelection {
            requestor: self.window,
            selection: self.selection,
            target: self.target,
            property: self.property,
            time: xproto::CURRENT_TIME,
        }
    }

    /// The request that removes the drop-off property.
    pub open spec fn cleanup(self) -> DeleteProperty {
        DeleteProperty { window: self.window, property: self.property }
    }

    /// What an event asks for. An answer for this selection is fetched,
    /// unless the owner refused, which ends the transfer with what has been
    /// received; during an incremental transfer a new property value is
    /// measured; everything else is passed over.
    pub open spec fn process_event(self, event: Event) -> Action {
        match event {
            Event::SelectionNotify { selection, property } => {
                if selection != self.selection {
                    Action::Poll
                } else if property == xproto::NONE {
                    Action::Finish
                } else {
                    Action::Fetch(
                        GetProperty {
                            delete: false,
                            window: self.window,
                            property,
                            type_: xproto::NONE,
                            long_offset: offset_after(self.buff.len()),
                            long_length: u32::MAX,
                        },
                    )
                }
            },
            Event::PropertyNotify { state } => {
                if self.is_incr && state == PropertyState::NewValue {
                    Action::Probe(
                        GetProperty {
                            delete: false,
                            window: self.window,
                            property: self.property,
                            type_: xproto::NONE,
                            long_offset: 0,
                            long_length: 0,
                        },
                    )
                } else {
                    Action::Poll
                }
            },
            Event::Other => Action::Poll,
        }
    }

    /// The reader after the answered property was read: an announcement of
    /// increments is noted, a value of the target's type is appended, a value
    /// of another type changes nothing.
    pub open spec fn accept_value(self, type_: Atom, value: Seq<u8>) -> ReaderView {
        if type_ == self.incr {
            ReaderView { is_incr: true, ..self }
        } else if type_ != self.target {
            self
        } else {
            ReaderView { buff: self.buff + value, ..self }
        }
    }

    /// What follows after the answered property was read.
    pub open spec fn value_action(self, type_: Atom) -> Action {
        if type_ == self.incr {
            Action::StartIncr(self.cleanup())
        } else if type_ != self.target {
            Action::Fail(Error::UnexpectedType(type_))
        } else {
            Action::Finish
        }
    }

    /// The request that reads and deletes an increment of which `bytes_after`
    /// units are waiting.
    pub open spec fn measure(self, bytes_after: u32) -> Action {
        Action::Drain(
            GetProperty {
                delete: true,
                window: self.window,
                property: self.property,
                type_: xproto::NONE,
                long_offset: 0,
                long_length: bytes_after,
            },
        )
    }

    /// The reader after an increment was read: one of the target's type is
    /// appended, a stray one changes nothing.
    pub open spec fn accept_chunk(self, type_: Atom, value: Seq<u8>) -> ReaderView {
        if type_ == self.target {
            ReaderView { buff: self.buff + value, ..self }
        } else {
            self
        }
    }

    /// What follows after an increment was read: the empty increment of the
    /// target's type ends the transfer, anything else waits for more.
    pub open spec fn chunk_action(self, type_: Atom, value: Seq<u8>) -> Action {
        if type_ == self.target && value.len() == 0 {
            Action::Finish
        } else {
            Action::Poll
        }
    }
}

/// The state of one transfer towards this process.
pub struct Reader {
    window: Window,
    selection: Atom,
    target: Atom,
    property: Atom,
    incr: Atom,
    timeout: Option<u64>,
    buff: Vec<u8>,
    is_incr: bool,
}

impl View for Reader {
    type V = ReaderView;

    closed spec fn view(&self) -> ReaderView {
        ReaderView {
            window: self.window,
            selection: self.selection,
            target: self.target,
            property: self.property,
            incr: self.incr,
            timeout: self.timeout,
            buff: self.buff@,
            is_incr: self.is_incr,
        }
    }
}

impl Reader {
    /// A transfer of `selection`, converted to `target`, through `property`
    /// of the context's window, that may take `timeout` microseconds, or any
    /// time where there is none. Nothing has been received yet.
    pub fn new(
        context: &Context,
        selection: Atom,
        target: Atom,
        property: Atom,
        timeout: Option<u64>,
    ) -> (reader: Reader)
        ensures
            reader@ == (ReaderView {
                window: context.window,
                selection,
                target,
                property,
                incr: context.atoms.incr,
                timeout,
                buff: Seq::empty(),
                is_incr: false,
            }),
    {
        Reader {
            window: context.window,
            selection,
            target,
            property,
            incr: context.atoms.incr,
            timeout,
            buff: Vec::new(),
            is_incr: false,
        }
    }

    /// A transfer of `selection` as text: converted to `UTF8_STRING`, through
    /// the context's own drop-off property, within three seconds.
    pub fn text(context: &Context, selection: Atom) -> (reader: Reader)
        ensures
            reader@ == (ReaderView {
                window: context.window,
                selection,
                target: context.atoms.utf8_string,
                property: context.atoms.property,
                incr: context.atoms.incr,
                timeout: Some(READ_TIMEOUT),
                buff: Seq::empty(),
                is_incr: false,
            }),
    {
        Reader::new(
            context,
            selection,
            context.atoms.utf8_string,
            context.atoms.property,
            Some(READ_TIMEOUT),
        )
    }

    /// Checks the deadline, as the reader does before each look for the next
    /// event: a transfer that has lasted `elapsed` microseconds fails exactly
    /// if it has used up its timeout.
    pub fn check_deadline(&self, elapsed: u64) -> (outcome: Result<(), Error>)
        ensures
            is_expired(self@.timeout, elapsed) ==> outcome == Err::<(), Error>(Error::Timeout),
            !is_expired(self@.timeout, elapsed) ==> outcome == Ok::<(), Error>(()),
    {
        match self.timeout {
            Some(limit) => {
                if elapsed >= limit {
                    Err(Error::Timeout)
                } else {
                    Ok(())
                }
            },
            None => Ok(()),
        }
    }

    /// The request that starts the transfer.
    pub fn convert(&self) -> (request: ConvertSelection)
        ensures
            request == self@.convert(),
    {
        ConvertSelection {
            requestor: self.window,
            selection: self.selection,
            target: self.target,
            property: self.property,
            time: xproto::current_time(),
        }
    }

    /// What to do about an event. Events never change what has been received.
    pub fn process_event(&self, event: &Event) -> (action: Action)
        ensures
            action == self@.process_event(*event),
    {
        match *event {
            Event::SelectionNotify { selection, property } => {
                if selection != self.selection {
                    Action::Poll
                } else if property == xproto::atom_none() {
                    Action::Finish
                } else {
                    let units: usize = self.buff.len() / 4;
                    let long_offset: u32 = if units <= u32::MAX as usize {
                        units as u32
                    } else {
                        u32::MAX
                    };
                    Action::Fetch(
                        GetProperty {
                            delete: false,
                            window: self.window,
                            property,
                            type_: xproto::atom_any(),
                            long_offset,
                            long_length: u32::MAX,
                        },
                    )
                }
            },
            Event::PropertyNotify { state } => {
                match state {
                    PropertyState::NewValue => {
                        if self.is_incr {
                            Action::Probe(
                                GetProperty {
                                    delete: false,
                                    window: self.window,
                                    property: self.property,
                                    type_: xproto::atom_any(),
                                    long_offset: 0,
                                    long_length: 0,
                                },
                            )
                        } else {
                            Action::Poll
                        }
                    },
                    PropertyState::Deleted => Action::Poll,
                }
            },
            Event::Other => Action::Poll,
        }
    }

    /// Takes the reply to a [`Action::Fetch`]. An announcement of increments
    /// switches the reader to incremental mode; a value of the target's type
    /// is appended and completes the transfer; any other type fails it.
    pub fn accept_value(&mut self, reply: &PropertyReply) -> (action: Action)
        ensures
            final(self)@ == old(self)@.accept_value(reply.type_, reply.value@),
            action == old(self)@.value_action(reply.type_),
    {
        if reply.type_ == self.incr {
            let size: u32 = size_hint(&reply.value);
            let _ = self.buff.try_reserve(size as usize);
            self.is_incr = true;
            Action::StartIncr(DeleteProperty { window: self.window, property: self.property })
        } else if reply.type_ != self.target {
            Action::Fail(Error::UnexpectedType(reply.type_))
        } else {
            self.buff.extend_from_slice(reply.value.as_slice());
            assert(self.buff@ =~= old(self).buff@ + reply.value@);
            Action::Finish
        }
    }

    /// Takes the reply to a [`Action::Probe`]: the whole waiting increment is
    /// read next, and deleted with that.
    pub fn measure(&self, reply: &PropertyReply) -> (action: Action)
        ensures
            action == self@.measure(reply.bytes_after),
    {
        Action::Drain(
            GetProperty {
                delete: true,
                window: self.window,
                property: self.property,
                type_: xproto::atom_any(),
                long_offset: 0,
                long_length: reply.bytes_after,
            },
        )
    }

    /// Takes the reply to a [`Action::Drain`]. An increment of the target's
    /// type is appended, and the empty one completes the transfer; an
    /// increment of another type is passed over.
    pub fn accept_chunk(&mut self, reply: &PropertyReply) -> (action: Action)
        ensures
            final(self)@ == old(self)@.accept_chunk(reply.type_, reply.value@),
            action == old(self)@.chunk_action(reply.type_, reply.value@),
    {
        if reply.type_ != self.target {
            return Action::Poll;
        }
        if reply.value.len() != 0 {
            self.buff.extend_from_slice(reply.value.as_slice());
            assert(self.buff@ =~= old(self).buff@ + reply.value@);
            Action::Poll
        } else {
            assert(self.buff@ =~= old(self).buff@ + reply.value@);
            Action::Finish
        }
    }

    /// The request that removes the drop-off property once the transfer is
    /// complete.
    pub fn cleanup(&self) -> (request: DeleteProperty)
        ensures
            request == self@.cleanup(),
    {
        DeleteProperty { window: self.window, property: self.property }
    }

    /// The number of bytes received so far.
    pub fn received(&self) -> (len: usize)
        ensures
            len == self@.buff.len(),
    {
        self.buff.len()
    }

    /// Ends the transfer and hands out the bytes received.
    pub fn into_bytes(self) -> (bytes: Vec<u8>)
        ensures
            bytes@ == self@.buff,
    {
        self.buff
    }

    /// Ends the transfer and hands out what was received as text. Bytes that
    /// are not well-formed UTF-8 are refused.
    pub fn into_text(self) -> (contents: Result<String, Error>)
        ensures
            valid_utf8(self@.buff) ==> (contents matches Ok(s) && s@ == decode_utf8(self@.buff)),
            !valid_utf8(self@.buff) ==> contents == Err::<String, Error>(Error::InvalidUtf8),
    {
        text::decode(self.buff)
    }
}

} // verus!
