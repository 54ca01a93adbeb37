//! The server side of a selection: the decisions of the worker that answers
//! conversion requests, streams large values in increments and gives a
//! selection up when another client takes it.
//!
//! The worker itself never touches the connection. Each handler takes what an
//! event carries and returns the requests to send, in order.

use vstd::prelude::*;
use std::collections::HashMap;
use crate::atoms::{Atom, Window};
use crate::store::{Offers, SelectionStore};
use crate::xproto;

verus! {

broadcast use vstd::std_specs::hash::group_hash_axioms;

/// The most bytes one increment of a streamed value carries.
pub const INCR_CHUNK_SIZE: usize = 4000;

/// The part of the server's maximum request size that a value sent in one
/// piece has to leave free.
pub const INLINE_RESERVE: usize = 24;

/// How far one outgoing incremental transfer has got.
#[derive(Clone, Copy, Debug, PartialEq, Eq, Structural)]
pub struct IncrState {
    pub selection: Atom,
    pub requestor: Window,
    pub property: Atom,
    pub pos: usize,
}

/// A client asks for `selection`, converted to `target`, on `property` of its
/// window `requestor`.
#[derive(Clone, Copy, Debug, PartialEq, Eq, Structural)]
pub struct SelectionRequest {
    pub time: u32,
    pub requestor: Window,
    pub selection: Atom,
    pub target: Atom,
    pub property: Atom,
}

/// What happened to a property.
#[derive(Clone, Copy, Debug, PartialEq, Eq, Structural)]
pub enum PropertyState {
    NewValue,
    Deleted,
}

/// The property `atom` of `window` changed.
#[derive(Clone, Copy, Debug, PartialEq, Eq, Structural)]
pub struct PropertyNotify {
    pub window: Window,
    pub atom: Atom,
    pub state: PropertyState,
}

/// What the worker's connection delivers.
#[derive(Clone, Copy, Debug, PartialEq, Eq, Structural)]
pub enum Event {
    /// A client asks for a selection.
    SelectionRequest(SelectionRequest),
    /// A property changed on a window whose transfers the worker follows.
    PropertyNotify(PropertyNotify),
    /// Another client has taken `selection`.
    SelectionClear { selection: Atom },
    /// Anything else.
    Other,
}

/// One request for the worker's connection. Properties are always replaced.
#[derive(Debug)]
pub enum Request {
    /// Replace `property` of `window` by 32-bit items of type `type_`.
    ChangeProperty32 { window: Window, property: Atom, type_: Atom, items: Vec<u32> },
    /// Replace `property` of `window` by bytes of type `type_`.
    ChangeProperty8 { window: Window, property: Atom, type_: Atom, data: Vec<u8> },
    /// Ask for the property changes of `window`.
    WatchProperty { window: Window, event_mask: u32 },
    /// Tell `requestor` that its conversion is answered.
    SendSelectionNotify { time: u32, requestor: Window, selection: Atom, target: Atom, property: Atom },
    /// Send what has been queued.
    Flush,
}

/// The mathematical content of a [`Request`].
pub enum RequestView {
    ChangeProperty32 { window: Window, property: Atom, type_: Atom, items: Seq<u32> },
    ChangeProperty8 { window: Window, property: Atom, type_: Atom, data: Seq<u8> },
    WatchProperty { window: Window, event_mask: u32 },
    SendSelectionNotify { time: u32, requestor: Window, selection: Atom, target: Atom, property: Atom },
    Flush,
}

impl View for Request {
    type V = RequestView;

    open spec fn view(&self) -> RequestView {
        match *self {
            Request::ChangeProperty32 { window, property, type_, items } => RequestView::ChangeProperty32 {
                window,
                property,
                type_,
                items: items@,
            },
            Request::ChangeProperty8 { window, property, type_, data } => RequestView::ChangeProperty8 {
                window,
                property,
                type_,
                data: data@,
            },
            Request::WatchProperty { window, event_mask } => RequestView::WatchProperty {
                window,
                event_mask,
            },
            Request::SendSelectionNotify {
                time,
                requestor,
                selection,
                target,
                property,
            } => RequestView::SendSelectionNotify { time, requestor, selection, target, property },
            Request::Flush => RequestView::Flush,
        }
    }
}

/// The contents of a list of requests, in order.
pub open spec fn request_views(requests: Seq<Request>) -> Seq<RequestView> {
    requests.map_values(|r: Request| r@)
}

/// Whether a value of `len` bytes is sent in one piece when the server takes
/// requests of at most `max_length` bytes.
pub open spec fn fits_inline(len: nat, max_length: nat) -> bool {
    len + INLINE_RESERVE < max_length
}

/// The number of bytes in the increment that starts at `pos` of a value of
/// `len` bytes: the rest of the value, but no more than one chunk.
pub open spec fn chunk_len(len: nat, pos: nat) -> nat {
    if pos >= len {
        0
    } else if len - pos < INCR_CHUNK_SIZE {
        (len - pos) as nat
    } else {
        INCR_CHUNK_SIZE as nat
    }
}

/// The increment of `value` that starts at `pos`. It is empty exactly when the
/// value has been sent completely.
pub open spec fn chunk(value: Seq<u8>, pos: nat) -> Seq<u8> {
    if pos >= value.len() {
        Seq::empty()
    } else {
        value.subrange(pos as int, (pos + chunk_len(value.len(), pos)) as int)
    }
}

/// The mathematical content of a [`Worker`].
pub struct WorkerView {
    pub targets: Atom,
    pub incr: Atom,
    pub max_length: usize,
    /// For each selection, the property of its latest incremental transfer.
    pub incr_map: Map<Atom, Atom>,
    /// For each property with a transfer under way, how far it has got.
    pub state_map: Map<Atom, IncrState>,
}

impl WorkerView {
    /// Whether every transfer is recorded under its own property, so that an
    /// increment is written to the property whose deletion asked for it.
    pub open spec fn wf(self) -> bool {
        forall|property: Atom| #[trigger]
            self.state_map.contains_key(property) ==> self.state_map[property].property
                == property
    }

    /// The notification that answers `request`.
    pub open spec fn notify(request: SelectionRequest) -> RequestView {
        RequestView::SendSelectionNotify {
            time: request.time,
            requestor: request.requestor,
            selection: request.selection,
            target: request.target,
            property: request.property,
        }
    }

    /// The worker after the transfer recorded for `selection` is dropped.
    pub open spec fn cancel(self, selection: Atom) -> WorkerView {
        if self.incr_map.contains_key(selection) {
            WorkerView {
                incr_map: self.incr_map.remove(selection),
                state_map: self.state_map.remove(self.incr_map[selection]),
                ..self
            }
        } else {
            self
        }
    }

    /// The worker after each of `selections` is cancelled, first to last.
    pub open spec fn cancel_all(self, selections: Seq<Atom>) -> WorkerView
        decreases selections.len(),
    {
        if selections.len() == 0 {
            self
        } else {
            self.cancel_all(selections.drop_last()).cancel(selections.last())
        }
    }

    /// The worker after a conversion request. Only a value too large to send
    /// in one piece changes it: a transfer from position 0 is recorded.
    pub open spec fn serve(self, offers: Offers, request: SelectionRequest) -> WorkerView {
        if offers.contains_key(request.selection) && request.target != self.targets && !fits_inline(
            offers[request.selection].1.len(),
            self.max_length as nat,
        ) {
            WorkerView {
                incr_map: self.incr_map.insert(request.selection, request.property),
                state_map: self.state_map.insert(
                    request.property,
                    IncrState {
                        selection: request.selection,
                        requestor: request.requestor,
                        property: request.property,
                        pos: 0,
                    },
                ),
                ..self
            }
        } else {
            self
        }
    }

    /// The requests that answer a conversion request: none for a selection
    /// that is not offered; else the list of targets, the value itself, or the
    /// start of an incremental transfer, each followed by the notification.
    pub open spec fn serve_requests(self, offers: Offers, request: SelectionRequest) -> Seq<
        RequestView,
    > {
        if !offers.contains_key(request.selection) {
            Seq::empty()
        } else if request.target == self.targets {
            seq![
                RequestView::ChangeProperty32 {
                    window: request.requestor,
                    property: request.property,
                    type_: xproto::ATOM,
                    items: seq![self.targets, offers[request.selection].0],
                },
                Self::notify(request),
                RequestView::Flush,
            ]
        } else if fits_inline(offers[request.selection].1.len(), self.max_length as nat) {
            seq![
                RequestView::ChangeProperty8 {
                    window: request.requestor,
                    property: request.property,
                    type_: offers[request.selection].0,
                    data: offers[request.selection].1,
                },
                Self::notify(request),
                RequestView::Flush,
            ]
        } else {
            seq![
                RequestView::WatchProperty {
                    window: request.requestor,
                    event_mask: xproto::PROPERTY_CHANGE,
                },
                RequestView::ChangeProperty32 {
                    window: request.requestor,
                    property: request.property,
                    type_: self.incr,
                    items: Seq::empty(),
                },
                Self::notify(request),
                RequestView::Flush,
            ]
        }
    }

    /// Whether a property change continues a transfer: the property was
    /// deleted, a transfer is recorded for it, and its selection is offered.
    pub open spec fn continues(self, offers: Offers, notify: PropertyNotify) -> bool {
        &&& notify.state == PropertyState::Deleted
        &&& self.state_map.contains_key(notify.atom)
        &&& offers.contains_key(self.state_map[notify.atom].selection)
    }

    /// The worker after a property change. A transfer that continues moves on
    /// by the increment sent, and is forgotten once the empty increment that
    /// ends it has been sent.
    pub open spec fn advance(self, offers: Offers, notify: PropertyNotify) -> WorkerView {
        if self.continues(offers, notify) {
            let state = self.state_map[notify.atom];
            let len = chunk_len(offers[state.selection].1.len(), state.pos as nat);
            if len == 0 {
                WorkerView { state_map: self.state_map.remove(notify.atom), ..self }
            } else {
                WorkerView {
                    state_map: self.state_map.insert(
                        notify.atom,
                        IncrState { pos: (state.pos + len) as usize, ..state },
                    ),
                    ..self
                }
            }
        } else {
            self
        }
    }

    /// The requests that answer a property change: for a transfer that
    /// continues, the next increment of the value now offered.
    pub open spec fn advance_requests(self, offers: Offers, notify: PropertyNotify) -> Seq<
        RequestView,
    > {
        if self.continues(offers, notify) {
            let state = self.state_map[notify.atom];
            seq![
                RequestView::ChangeProperty8 {
                    window: state.requestor,
                    property: state.property,
                    type_: offers[state.selection].0,
                    data: chunk(offers[state.selection].1, state.pos as nat),
                },
                RequestView::Flush,
            ]
        } else {
            Seq::empty()
        }
    }

    /// The worker after an event.
    pub open spec fn dispatch(self, offers: Offers, event: Event) -> WorkerView {
        match event {
            Event::SelectionRequest(request) => self.serve(offers, request),
            Event::PropertyNotify(notify) => self.advance(offers, notify),
            Event::SelectionClear { selection } => self.cancel(selection),
            Event::Other => self,
        }
    }

    /// The requests that answer an event.
    pub open spec fn dispatch_requests(self, offers: Offers, event: Event) -> Seq<RequestView> {
        match event {
            Event::SelectionRequest(request) => self.serve_requests(offers, request),
            Event::PropertyNotify(notify) => self.advance_requests(offers, notify),
            Event::SelectionClear { selection } => Seq::empty(),
            Event::Other => Seq::empty(),
        }
    }

    /// The offers after an event: a selection that was taken is withdrawn.
    pub open spec fn dispatch_offers(offers: Offers, event: Event) -> Offers {
        match event {
            Event::SelectionClear { selection } => offers.remove(selection),
            _ => offers,
        }
    }

    /// The worker after an event that it has to pass over because the store
    /// cannot be had: a transfer of a selection that was taken is dropped all
    /// the same.
    pub open spec fn pass_over(self, event: Event) -> WorkerView {
        match event {
            Event::SelectionClear { selection } => self.cancel(selection),
            _ => self,
        }
    }
}

/// The state of the worker that serves this process's selections.
pub struct Worker {
    targets: Atom,
    incr: Atom,
    max_length: usize,
    incr_map: HashMap<Atom, Atom>,
    state_map: HashMap<Atom, IncrState>,
}

impl View for Worker {
    type V = WorkerView;

    closed spec fn view(&self) -> WorkerView {
        WorkerView {
            targets: self.targets,
            incr: self.incr,
            max_length: self.max_length,
            incr_map: self.incr_map@,
            state_map: self.state_map@,
        }
    }
}

impl Worker {
    /// A worker with no transfer under way. `targets` and `incr` are the
    /// interned atoms of those names, `max_length` the server's maximum
    /// request size in bytes.
    pub fn new(targets: Atom, incr: Atom, max_length: usize) -> (worker: Worker)
        ensures
            worker@ == (WorkerView {
                targets,
                incr,
                max_length,
                incr_map: Map::empty(),
                state_map: Map::empty(),
            }),
            worker@.wf(),
    {
        Worker { targets, incr, max_length, incr_map: HashMap::new(), state_map: HashMap::new() }
    }

    /// The number of incremental transfers under way.
    pub fn transfers(&self) -> (count: usize)
        ensures
            count == self@.state_map.len(),
    {
        self.state_map.len()
    }

    /// How far the transfer on `property` has got, if there is one.
    pub fn transfer(&self, property: Atom) -> (state: Option<IncrState>)
        ensures
            state is Some <==> self@.state_map.contains_key(property),
            state matches Some(s) ==> s == self@.state_map[property],
    {
        match self.state_map.get(&property) {
            Some(state) => Some(*state),
            None => None,
        }
    }

    /// Drops the incremental transfer recorded for `selection`, because its
    /// value was replaced or the selection was lost.
    pub fn cancel(&mut self, selection: Atom)
        ensures
            final(self)@ == old(self)@.cancel(selection),
    {
        if let Some(property) = self.incr_map.remove(&selection) {
            self.state_map.remove(&property);
        }
        assert(self@.incr_map =~= old(self)@.cancel(selection).incr_map);
        assert(self@.state_map =~= old(self)@.cancel(selection).state_map);
    }

    /// Drops the transfers of all `selections`, in order. The worker does this
    /// with the cancellations that have arrived, before it handles an event.
    pub fn cancel_all(&mut self, selections: &Vec<Atom>)
        ensures
            final(self)@ == old(self)@.cancel_all(selections@),
    {
        let mut i: usize = 0;
        while i < selections.len()
            invariant
                i <= selections.len(),
                self@ == old(self)@.cancel_all(selections@.take(i as int)),
            decreases selections.len() - i,
        {
            assert(selections@.take(i + 1).drop_last() =~= selections@.take(i as int));
            self.cancel(selections[i]);
            i += 1;
        }
        assert(selections@.take(i as int) =~= selections@);
    }

    /// Answers a conversion request from what `store` offers. A request for a
    /// selection that is not offered gets no answer at all.
    pub fn serve(&mut self, store: &SelectionStore, request: &SelectionRequest) -> (requests: Vec<
        Request,
    >)
        ensures
            final(self)@ == old(self)@.serve(store@, *request),
            request_views(requests@) == old(self)@.serve_requests(store@, *request),
    {
        let mut requests: Vec<Request> = Vec::new();
        let offer = match store.get(request.selection) {
            Some(offer) => offer,
            None => {
                assert(request_views(requests@) =~= Seq::empty());
                return requests;
            },
        };
        let notify = Request::SendSelectionNotify {
            time: request.time,
            requestor: request.requestor,
            selection: request.selection,
            target: request.target,
            property: request.property,
        };
        if request.target == self.targets {
            let mut items: Vec<u32> = Vec::new();
            items.push(self.targets);
            items.push(offer.target);
            assert(items@ =~= seq![self.targets, offer.target]);
            requests.push(
                Request::ChangeProperty32 {
                    window: request.requestor,
                    property: request.property,
                    type_: xproto::atom_atom(),
                    items,
                },
            );
        } else if self.max_length >= INLINE_RESERVE && offer.value.len() < self.max_length
            - INLINE_RESERVE {
            let data = vstd::slice::slice_to_vec(offer.value.as_slice());
            requests.push(
                Request::ChangeProperty8 {
                    window: request.requestor,
                    property: request.property,
                    type_: offer.target,
                    data,
                },
            );
        } else {
            requests.push(
                Request::WatchProperty {
                    window: request.requestor,
                    event_mask: xproto::mask_property_change(),
                },
            );
            requests.push(
                Request::ChangeProperty32 {
                    window: request.requestor,
                    property: request.property,
                    type_: self.incr,
                    items: Vec::new(),
                },
            );
            self.incr_map.insert(request.selection, request.property);
            self.state_map.insert(
                request.property,
                IncrState {
                    selection: request.selection,
                    requestor: request.requestor,
                    property: request.property,
                    pos: 0,
                },
            );
        }
        requests.push(notify);
        requests.push(Request::Flush);
        assert(request_views(requests@) =~= old(self)@.serve_requests(store@, *request));
        requests
    }

    /// Answers a property change. Only the deletion of a property on which a
    /// transfer is under way matters: the next increment of the offered value
    /// is written there, and the transfer ends with the empty increment.
    pub fn advance(&mut self, store: &SelectionStore, notify: &PropertyNotify) -> (requests: Vec<
        Request,
    >)
        ensures
            final(self)@ == old(self)@.advance(store@, *notify),
            request_views(requests@) == old(self)@.advance_requests(store@, *notify),
    {
        let mut requests: Vec<Request> = Vec::new();
        assert(request_views(requests@) =~= Seq::empty());
        match notify.state {
            PropertyState::Deleted => {},
            PropertyState::NewValue => {
                return requests;
            },
        }
        let state = match self.state_map.get(&notify.atom) {
            Some(state) => *state,
            None => {
                return requests;
            },
        };
        let offer = match store.get(state.selection) {
            Some(offer) => offer,
            None => {
                return requests;
            },
        };
        let total: usize = offer.value.len();
        let start: usize = if state.pos < total {
            state.pos
        } else {
            total
        };
        let len: usize = if total - start < INCR_CHUNK_SIZE {
            total - start
        } else {
            INCR_CHUNK_SIZE
        };
        assert(len == chunk_len(total as nat, state.pos as nat));
        let data = vstd::slice::slice_to_vec(
            vstd::slice::slice_subrange(offer.value.as_slice(), start, start + len),
        );
        assert(data@ =~= chunk(offer.value@, state.pos as nat));
        requests.push(
            Request::ChangeProperty8 {
                window: state.requestor,
                property: state.property,
                type_: offer.target,
                data,
            },
        );
        if len == 0 {
            self.state_map.remove(&notify.atom);
        } else {
            self.state_map.insert(
                notify.atom,
                IncrState {
                    selection: state.selection,
                    requestor: state.requestor,
                    property: state.property,
                    pos: state.pos + len,
                },
            );
        }
        requests.push(Request::Flush);
        assert(request_views(requests@) =~= old(self)@.advance_requests(store@, *notify));
        requests
    }

    /// Gives `selection` up because another client has taken it: its transfer
    /// is dropped and its offer withdrawn.
    pub fn clear(&mut self, store: &mut SelectionStore, selection: Atom)
        ensures
            final(self)@ == old(self)@.cancel(selection),
            final(store)@ == old(store)@.remove(selection),
    {
        self.cancel(selection);
        store.remove(selection);
    }

    /// One turn of the worker: the cancellations that have arrived are applied
    /// first, then the event is handled, and the requests to send come back in
    /// order. A transfer cancelled in this turn is never continued by its
    /// event.
    pub fn run(&mut self, store: &mut SelectionStore, cancelled: &Vec<Atom>, event: &Event) -> (requests:
        Vec<Request>)
        ensures
            final(self)@ == old(self)@.cancel_all(cancelled@).dispatch(old(store)@, *event),
            request_views(requests@) == old(self)@.cancel_all(cancelled@).dispatch_requests(
                old(store)@,
                *event,
            ),
            final(store)@ == WorkerView::dispatch_offers(old(store)@, *event),
    {
        self.cancel_all(cancelled);
        match event {
            Event::SelectionRequest(request) => self.serve(store, request),
            Event::PropertyNotify(notify) => self.advance(store, notify),
            Event::SelectionClear { selection } => {
                self.clear(store, *selection);
                let requests: Vec<Request> = Vec::new();
                assert(request_views(requests@) =~= Seq::empty());
                requests
            },
            Event::Other => {
                let requests: Vec<Request> = Vec::new();
                assert(request_views(requests@) =~= Seq::empty());
                requests
            },
        }
    }

    /// One turn of the worker while the store cannot be had: the
    /// cancellations are applied, the transfer of a selection that was taken
    /// is dropped, and nothing is sent.
    pub fn skip(&mut self, cancelled: &Vec<Atom>, event: &Event)
        ensures
            final(self)@ == old(self)@.cancel_all(cancelled@).pass_over(*event),
    {
        self.cancel_all(cancelled);
        match event {
            Event::SelectionClear { selection } => {
                self.cancel(*selection);
            },
            _ => {},
        }
    }
}

} // verus!
