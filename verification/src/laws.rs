//! What holds of the reader, the worker and the store taken together.

use vstd::prelude::*;
use vstd::utf8::{decode_utf8, encode_utf8, valid_utf8};
use crate::atoms::{Atom, Selection};
use crate::clipboard::Clipboard;
use crate::reader::{is_expired, Action, Event, ReaderView, POLL_INTERVAL, READ_TIMEOUT};
use crate::text::lemma_text_round_trip;
use crate::xproto;
use crate::store::Offers;
use crate::worker::{
    Event as WorkerEvent,
    chunk,
    chunk_len,
    fits_inline,
    PropertyNotify,
    PropertyState,
    RequestView,
    SelectionRequest,
    WorkerView,
};

verus! {

/// The part of `value` from `pos` on.
pub open spec fn rest_of(value: Seq<u8>, pos: nat) -> Seq<u8> {
    if pos >= value.len() {
        Seq::empty()
    } else {
        value.subrange(pos as int, value.len() as int)
    }
}

/// The number of increments that carry a value of `len` bytes from `pos` on,
/// the empty one that ends the transfer included.
pub open spec fn increments(len: nat, pos: nat) -> nat
    decreases len - pos,
{
    if pos >= len {
        1
    } else {
        1 + increments(len, pos + chunk_len(len, pos))
    }
}

/// The bytes that the worker writes in answer to `count` deletions of the
/// property in `notify`, one item for each deletion that it answers.
pub open spec fn written(worker: WorkerView, offers: Offers, notify: PropertyNotify, count: nat) -> Seq<
    Seq<u8>,
>
    decreases count,
{
    if count == 0 {
        Seq::empty()
    } else if worker.continues(offers, notify) {
        seq![chunk(offers[worker.state_map[notify.atom].selection].1, worker.state_map[notify.atom].pos as nat)]
            + written(worker.advance(offers, notify), offers, notify, (count - 1) as nat)
    } else {
        written(worker.advance(offers, notify), offers, notify, (count - 1) as nat)
    }
}

/// The worker after `count` deletions of the property in `notify`.
pub open spec fn after_deletions(
    worker: WorkerView,
    offers: Offers,
    notify: PropertyNotify,
    count: nat,
) -> WorkerView
    decreases count,
{
    if count == 0 {
        worker
    } else {
        after_deletions(worker.advance(offers, notify), offers, notify, (count - 1) as nat)
    }
}

/// The reader after it has read `chunks` of its target's type one after the
/// other, and whether one of them completed the transfer; it reads no further
/// than that one.
pub open spec fn drained(reader: ReaderView, chunks: Seq<Seq<u8>>) -> (ReaderView, bool)
    decreases chunks.len(),
{
    if chunks.len() == 0 {
        (reader, false)
    } else if reader.chunk_action(reader.target, chunks[0]) == Action::Finish {
        (reader.accept_chunk(reader.target, chunks[0]), true)
    } else {
        drained(reader.accept_chunk(reader.target, chunks[0]), chunks.skip(1))
    }
}

/// A value that fits in one request arrives whole: the worker writes exactly
/// the offered bytes under the offered target, and a reader that asked for
/// that target appends them and is done.
pub proof fn lemma_value_arrives_whole(
    worker: WorkerView,
    reader: ReaderView,
    offers: Offers,
    request: SelectionRequest,
)
    requires
        offers.contains_key(request.selection),
        request.target != worker.targets,
        fits_inline(offers[request.selection].1.len(), worker.max_length as nat),
        offers[request.selection].0 == reader.target,
        reader.target != reader.incr,
    ensures
        worker.serve_requests(offers, request)[0] == (RequestView::ChangeProperty8 {
            window: request.requestor,
            property: request.property,
            type_: reader.target,
            data: offers[request.selection].1,
        }),
        reader.accept_value(reader.target, offers[request.selection].1).buff == reader.buff
            + offers[request.selection].1,
        reader.value_action(reader.target) == Action::Finish,
        worker.serve(offers, request) == worker,
{
}

/// A value sent in increments arrives whole. Take a worker with a transfer
/// under way on a property, and a reader that asked for the offered target.
/// After at least as many deletions of the property as the rest of the value
/// has increments, the reader that read what the worker wrote has appended
/// exactly the rest of the value and is done, and the worker has forgotten
/// the transfer. From position 0 the rest is the whole value.
pub proof fn lemma_increments_arrive_whole(
    worker: WorkerView,
    reader: ReaderView,
    offers: Offers,
    notify: PropertyNotify,
    count: nat,
)
    requires
        worker.continues(offers, notify),
        offers[worker.state_map[notify.atom].selection].0 == reader.target,
        offers[worker.state_map[notify.atom].selection].1.len() <= usize::MAX,
        count >= increments(
            offers[worker.state_map[notify.atom].selection].1.len(),
            worker.state_map[notify.atom].pos as nat,
        ),
    ensures
        drained(reader, written(worker, offers, notify, count)) == (
            ReaderView {
                buff: reader.buff + rest_of(
                    offers[worker.state_map[notify.atom].selection].1,
                    worker.state_map[notify.atom].pos as nat,
                ),
                ..reader
            },
            true,
        ),
        !after_deletions(worker, offers, notify, count).state_map.contains_key(notify.atom),
        rest_of(offers[worker.state_map[notify.atom].selection].1, 0)
            == offers[worker.state_map[notify.atom].selection].1,
    decreases count,
{
    let state = worker.state_map[notify.atom];
    let value = offers[state.selection].1;
    let pos = state.pos as nat;
    let piece = chunk(value, pos);
    let next = worker.advance(offers, notify);
    let rest = written(next, offers, notify, (count - 1) as nat);
    let chunks = written(worker, offers, notify, count);
    assert(rest_of(value, 0) =~= value);
    assert(chunks == seq![piece] + rest);
    assert(chunks[0] == piece);
    assert(chunks.skip(1) =~= rest);
    if pos >= value.len() {
        assert(piece.len() == 0);
        assert(reader.buff + piece =~= reader.buff);
        assert(reader.buff + rest_of(value, pos) =~= reader.buff);
        assert(!next.state_map.contains_key(notify.atom));
        lemma_deletions_without_transfer(next, offers, notify, (count - 1) as nat);
    } else {
        let len = chunk_len(value.len(), pos);
        assert(piece.len() == len);
        assert(next.state_map[notify.atom].pos == pos + len);
        assert(next.continues(offers, notify));
        let fed = reader.accept_chunk(reader.target, piece);
        lemma_increments_arrive_whole(next, fed, offers, notify, (count - 1) as nat);
        assert(fed.buff + rest_of(value, pos + len) =~= reader.buff + rest_of(value, pos)) by {
            assert(piece + rest_of(value, pos + len) =~= rest_of(value, pos));
            assert(fed.buff == reader.buff + piece);
        }
    }
}

/// The request by which the reading context of `clipboard` asks for `which`
/// as text.
pub open spec fn text_request(clipboard: Clipboard, which: Selection, time: u32) -> SelectionRequest {
    SelectionRequest {
        time,
        requestor: clipboard.reader().window,
        selection: clipboard.reader().atoms.selection_of(which),
        target: clipboard.reader().atoms.utf8_string,
        property: clipboard.reader().atoms.property,
    }
}

/// Whether the two contexts of `clipboard` hold the atoms of one server: the
/// same table, in which the names that differ have different atoms.
pub open spec fn same_server(clipboard: Clipboard) -> bool {
    &&& clipboard.reader().atoms == clipboard.writer().atoms
    &&& clipboard.reader().atoms.utf8_string != clipboard.reader().atoms.targets
    &&& clipboard.reader().atoms.utf8_string != clipboard.reader().atoms.incr
    &&& clipboard.reader().atoms.property != xproto::NONE
    &&& clipboard.reader().atoms.clipboard != clipboard.reader().atoms.primary
}

/// A text written and read back is the same text, where it is sent in one
/// piece. After the write, the worker answers the reader's request with the
/// text's bytes; the reader fetches them on the notification, is done, and
/// what it holds decodes to the text written.
pub proof fn lemma_round_trip_inline(
    clipboard: Clipboard,
    worker: WorkerView,
    offers: Offers,
    which: Selection,
    contents: Seq<char>,
    time: u32,
)
    requires
        same_server(clipboard),
        worker.targets == clipboard.writer().atoms.targets,
        fits_inline(encode_utf8(contents).len(), worker.max_length as nat),
    ensures
        ({
            let request = text_request(clipboard, which, time);
            let after = clipboard.written(offers, which, contents);
            let reader = clipboard.reading(which);
            &&& worker.serve_requests(after, request) == seq![
                RequestView::ChangeProperty8 {
                    window: request.requestor,
                    property: request.property,
                    type_: request.target,
                    data: encode_utf8(contents),
                },
                WorkerView::notify(request),
                RequestView::Flush,
            ]
            &&& reader.process_event(
                Event::SelectionNotify { selection: request.selection, property: request.property },
            ) is Fetch
            &&& reader.value_action(request.target) == Action::Finish
            &&& reader.accept_value(request.target, encode_utf8(contents)).buff == encode_utf8(
                contents,
            )
            &&& valid_utf8(encode_utf8(contents))
            &&& decode_utf8(encode_utf8(contents)) == contents
        }),
{
    lemma_text_round_trip(contents);
    let reader = clipboard.reading(which);
    assert(reader.buff + encode_utf8(contents) =~= encode_utf8(contents));
}

/// A text written and read back is the same text, where it is sent in
/// increments. After the write, the worker answers the reader's request with
/// the announcement; the reader starts the stream; and after as many
/// deletions of the drop-off property as the bytes have increments, the
/// reader that read what the worker wrote is done, holds bytes that decode to
/// the text written, and the worker has forgotten the transfer.
pub proof fn lemma_round_trip_incr(
    clipboard: Clipboard,
    worker: WorkerView,
    offers: Offers,
    which: Selection,
    contents: Seq<char>,
    time: u32,
    count: nat,
)
    requires
        same_server(clipboard),
        worker.targets == clipboard.writer().atoms.targets,
        worker.incr == clipboard.writer().atoms.incr,
        !fits_inline(encode_utf8(contents).len(), worker.max_length as nat),
        encode_utf8(contents).len() <= usize::MAX,
        count >= increments(encode_utf8(contents).len(), 0),
    ensures
        ({
            let request = text_request(clipboard, which, time);
            let after = clipboard.written(offers, which, contents);
            let reader = clipboard.reading(which);
            let deleted = PropertyNotify {
                window: request.requestor,
                atom: request.property,
                state: PropertyState::Deleted,
            };
            let streaming = reader.accept_value(worker.incr, Seq::empty());
            let serving = worker.serve(after, request);
            &&& worker.serve_requests(after, request) == seq![
                RequestView::WatchProperty {
                    window: request.requestor,
                    event_mask: xproto::PROPERTY_CHANGE,
                },
                RequestView::ChangeProperty32 {
                    window: request.requestor,
                    property: request.property,
                    type_: worker.incr,
                    items: Seq::empty(),
                },
                WorkerView::notify(request),
                RequestView::Flush,
            ]
            &&& reader.process_event(
                Event::SelectionNotify { selection: request.selection, property: request.property },
            ) is Fetch
            &&& reader.value_action(worker.incr) == Action::StartIncr(reader.cleanup())
            &&& drained(streaming, written(serving, after, deleted, count)) == (
                ReaderView { buff: encode_utf8(contents), ..streaming },
                true,
            )
            &&& !after_deletions(serving, after, deleted, count).state_map.contains_key(
                request.property,
            )
            &&& valid_utf8(encode_utf8(contents))
            &&& decode_utf8(encode_utf8(contents)) == contents
        }),
{
    lemma_text_round_trip(contents);
    let request = text_request(clipboard, which, time);
    let after = clipboard.written(offers, which, contents);
    let reader = clipboard.reading(which);
    let deleted = PropertyNotify {
        window: request.requestor,
        atom: request.property,
        state: PropertyState::Deleted,
    };
    let streaming = reader.accept_value(worker.incr, Seq::empty());
    let serving = worker.serve(after, request);
    assert(serving.continues(after, deleted));
    lemma_increments_arrive_whole(serving, streaming, after, deleted, count);
    assert(streaming.buff + rest_of(encode_utf8(contents), 0) =~= encode_utf8(contents));
}

/// Writes to the two selections do not disturb each other: after a write to
/// each, in either order, each selection offers what was written to it.
pub proof fn lemma_writes_are_independent(
    clipboard: Clipboard,
    offers: Offers,
    primary: Seq<char>,
    contents: Seq<char>,
)
    requires
        same_server(clipboard),
    ensures
        ({
            let atoms = clipboard.writer().atoms;
            let one = clipboard.written(
                clipboard.written(offers, Selection::Primary, primary),
                Selection::Clipboard,
                contents,
            );
            let other = clipboard.written(
                clipboard.written(offers, Selection::Clipboard, contents),
                Selection::Primary,
                primary,
            );
            &&& one == other
            &&& one[atoms.clipboard] == (atoms.utf8_string, encode_utf8(contents))
            &&& one[atoms.primary] == (atoms.utf8_string, encode_utf8(primary))
        }),
{
    let one = clipboard.written(
        clipboard.written(offers, Selection::Primary, primary),
        Selection::Clipboard,
        contents,
    );
    let other = clipboard.written(
        clipboard.written(offers, Selection::Clipboard, contents),
        Selection::Primary,
        primary,
    );
    assert(one =~= other);
}

/// Deletions of a property without a transfer leave the worker as it is.
proof fn lemma_deletions_without_transfer(
    worker: WorkerView,
    offers: Offers,
    notify: PropertyNotify,
    count: nat,
)
    requires
        !worker.state_map.contains_key(notify.atom),
    ensures
        after_deletions(worker, offers, notify, count) == worker,
    decreases count,
{
    if count > 0 {
        lemma_deletions_without_transfer(worker, offers, notify, (count - 1) as nat);
    }
}

/// Selections are independent: a new offer for one selection changes neither
/// what is offered for another nor how a request for the other is answered.
pub proof fn lemma_selection_independence(
    worker: WorkerView,
    offers: Offers,
    selection: Atom,
    offer: (Atom, Seq<u8>),
    request: SelectionRequest,
)
    requires
        request.selection != selection,
    ensures
        offers.insert(selection, offer).contains_key(request.selection) == offers.contains_key(
            request.selection,
        ),
        offers.contains_key(request.selection) ==> offers.insert(selection, offer)[request.selection]
            == offers[request.selection],
        worker.serve_requests(offers.insert(selection, offer), request) == worker.serve_requests(
            offers,
            request,
        ),
        worker.serve(offers.insert(selection, offer), request) == worker.serve(offers, request),
{
}

/// Reading twice gives the same: while the offers stay as they are, the
/// answer to a request does not depend on what the worker served before. Two
/// workers for the same server answer it alike, and after it each has the
/// same transfer under way on the request's property, if any.
pub proof fn lemma_idempotent_read(
    first: WorkerView,
    second: WorkerView,
    offers: Offers,
    request: SelectionRequest,
)
    requires
        first.targets == second.targets,
        first.incr == second.incr,
        first.max_length == second.max_length,
    ensures
        first.serve_requests(offers, request) == second.serve_requests(offers, request),
        first.serve(offers, request) != first ==> {
            &&& first.serve(offers, request).state_map.contains_key(request.property)
            &&& second.serve(offers, request).state_map.contains_key(request.property)
            &&& first.serve(offers, request).state_map[request.property] == second.serve(
                offers,
                request,
            ).state_map[request.property]
        },
        first.serve(offers, request).serve(offers, request) == first.serve(offers, request),
{
    let once = first.serve(offers, request);
    assert(once.serve(offers, request).incr_map =~= once.incr_map);
    assert(once.serve(offers, request).state_map =~= once.state_map);
    if once != first {
        assert(offers.contains_key(request.selection));
    }
}

/// A selection that another client has taken is no longer served: its offer
/// and its transfer are gone, requests for it get no answer, and a new offer
/// for it is served again.
pub proof fn lemma_ownership_loss(
    worker: WorkerView,
    offers: Offers,
    selection: Atom,
    request: SelectionRequest,
    offer: (Atom, Seq<u8>),
)
    requires
        request.selection == selection,
    ensures
        !offers.remove(selection).contains_key(selection),
        !worker.cancel(selection).incr_map.contains_key(selection),
        worker.cancel(selection).serve_requests(offers.remove(selection), request)
            == Seq::<RequestView>::empty(),
        worker.cancel(selection).serve(offers.remove(selection), request) == worker.cancel(
            selection,
        ),
        offers.remove(selection).insert(selection, offer)[selection] == offer,
        worker.cancel(selection).serve_requests(
            offers.remove(selection).insert(selection, offer),
            request,
        ).len() > 0,
{
}

/// No increment of a replaced value is sent. Once the transfer that is
/// recorded for a selection has been cancelled, the deletion of its property
/// writes nothing and changes nothing, whatever is offered by then.
pub proof fn lemma_no_stale_incr(
    worker: WorkerView,
    selection: Atom,
    offers: Offers,
    notify: PropertyNotify,
)
    requires
        worker.incr_map.contains_key(selection),
        worker.incr_map[selection] == notify.atom,
    ensures
        !worker.cancel(selection).state_map.contains_key(notify.atom),
        worker.cancel(selection).advance_requests(offers, notify) == Seq::<RequestView>::empty(),
        worker.cancel(selection).advance(offers, notify) == worker.cancel(selection),
{
}

/// No increment of a replaced value is sent, for the cancellations as the
/// worker takes them: if the selection's transfer was recorded when it took
/// them, and the selection is among them, the deletion of the transfer's
/// property writes nothing afterwards.
pub proof fn lemma_no_stale_incr_after_drain(
    worker: WorkerView,
    selections: Seq<Atom>,
    selection: Atom,
    offers: Offers,
    notify: PropertyNotify,
)
    requires
        worker.incr_map.contains_key(selection),
        worker.incr_map[selection] == notify.atom,
        selections.contains(selection),
    ensures
        !worker.cancel_all(selections).state_map.contains_key(notify.atom),
        worker.cancel_all(selections).dispatch_requests(offers, WorkerEvent::PropertyNotify(notify))
            == Seq::<RequestView>::empty(),
        worker.cancel_all(selections).dispatch(offers, WorkerEvent::PropertyNotify(notify))
            == worker.cancel_all(selections),
{
    lemma_cancel_all_keeps_record(worker, selections, selection, notify.atom);
}

/// While a selection's record stands, it names the same property; once the
/// selection has been cancelled, that property has no transfer.
proof fn lemma_cancel_all_keeps_record(
    worker: WorkerView,
    selections: Seq<Atom>,
    selection: Atom,
    property: Atom,
)
    requires
        worker.incr_map.contains_key(selection),
        worker.incr_map[selection] == property,
    ensures
        !selections.contains(selection) ==> worker.cancel_all(selections).incr_map.contains_key(
            selection,
        ) && worker.cancel_all(selections).incr_map[selection] == property,
        selections.contains(selection) ==> !worker.cancel_all(selections).state_map.contains_key(
            property,
        ),
    decreases selections.len(),
{
    if selections.len() > 0 {
        let front = selections.drop_last();
        let before = worker.cancel_all(front);
        lemma_cancel_all_keeps_record(worker, front, selection, property);
        assert(worker.cancel_all(selections) == before.cancel(selections.last()));
        if selections.contains(selection) {
            let i = choose|i: int| 0 <= i < selections.len() && selections[i] == selection;
            if i < selections.len() - 1 {
                assert(front[i] == selection);
                assert(front.contains(selection));
            } else {
                assert(selections.last() == selection);
            }
        } else {
            assert(selections.last() != selection) by {
                if selections.last() == selection {
                    assert(selections[selections.len() - 1] == selection);
                }
            }
            assert(!front.contains(selection)) by {
                if front.contains(selection) {
                    let j = choose|j: int| 0 <= j < front.len() && front[j] == selection;
                    assert(selections[j] == selection);
                }
            }
        }
    }
}

/// Every turn of the worker keeps each transfer recorded under its own
/// property, whatever cancellations and event it takes; so the increment that
/// answers the deletion of a property is written to that property.
pub proof fn lemma_transfers_keep_their_property(
    worker: WorkerView,
    offers: Offers,
    cancelled: Seq<Atom>,
    event: WorkerEvent,
)
    requires
        worker.wf(),
    ensures
        worker.cancel_all(cancelled).wf(),
        worker.cancel_all(cancelled).dispatch(offers, event).wf(),
        worker.cancel_all(cancelled).pass_over(event).wf(),
        event matches WorkerEvent::PropertyNotify(notify) ==> (forall|i: int|
            0 <= i < worker.advance_requests(offers, notify).len() ==> (
            #[trigger] worker.advance_requests(offers, notify)[i] matches RequestView::ChangeProperty8 {
                property,
                ..
            } ==> property == notify.atom)),
    decreases cancelled.len(),
{
    if cancelled.len() > 0 {
        lemma_transfers_keep_their_property(worker, offers, cancelled.drop_last(), event);
    }
}

/// The reader reads and deletes properties of its own window only, and the
/// worker writes to the window of the client that asked only.
pub proof fn lemma_each_side_keeps_to_its_window(
    reader: ReaderView,
    event: Event,
    type_: Atom,
    bytes_after: u32,
    worker: WorkerView,
    offers: Offers,
    request: SelectionRequest,
    i: int,
)
    ensures
        reader.process_event(event) matches Action::Fetch(get) ==> get.window == reader.window,
        reader.process_event(event) matches Action::Probe(get) ==> get.window == reader.window
            && get.property == reader.property,
        reader.measure(bytes_after) matches Action::Drain(get) && get.window == reader.window
            && get.property == reader.property,
        reader.value_action(type_) matches Action::StartIncr(delete) ==> delete.window
            == reader.window && delete.property == reader.property,
        reader.cleanup().window == reader.window,
        reader.cleanup().property == reader.property,
        0 <= i < worker.serve_requests(offers, request).len() ==> match worker.serve_requests(
            offers,
            request,
        )[i] {
            RequestView::ChangeProperty32 { window, property, .. } => window == request.requestor
                && property == request.property,
            RequestView::ChangeProperty8 { window, property, .. } => window == request.requestor
                && property == request.property,
            RequestView::WatchProperty { window, .. } => window == request.requestor,
            RequestView::SendSelectionNotify { requestor, .. } => requestor == request.requestor,
            RequestView::Flush => true,
        },
{
}

/// A read ends within one poll interval of its timeout: if the reader's
/// deadline had not passed at one look at the clock, and the next look comes
/// no more than a poll interval later and finds it passed, then less than the
/// timeout and one poll interval have gone by. A read of text has a timeout of
/// three seconds.
pub proof fn lemma_timeout_bound(
    clipboard: Clipboard,
    which: Selection,
    reader: ReaderView,
    limit: u64,
    earlier: u64,
    later: u64,
)
    requires
        reader.timeout == Some(limit),
        !is_expired(reader.timeout, earlier),
        earlier <= later <= earlier + POLL_INTERVAL,
    ensures
        is_expired(reader.timeout, later) ==> limit <= later < limit + POLL_INTERVAL,
        !is_expired(reader.timeout, later) ==> later < limit,
        clipboard.reading(which).timeout == Some(READ_TIMEOUT),
{
}

} // verus!
