//! What holds of the library as a whole: of the table of commands, and of
//! whole operations run against the model of a keyboard.

use vstd::prelude::*;
use crate::chunk::{chunk_count, chunk_len, chunk_of, chunk_start, covered, lemma_chunk_bounds};
use crate::codec::{ExchangeView, ValueView};
use crate::command::Command;
use crate::error::{Error, Outcome};
use crate::ids::{CommandId, PROTOCOL_BUFFERED};
use crate::model::{
    carrying, cleared, fetched, held, named_offset, named_size, perform, round_limit, run, serve,
    stored, Memory,
};
use crate::operation::{
    flattened, read_layout, reported_capacity, write_layout, MatrixInfo, Operation, ADDRESS_SPACE,
    MACRO_WRITE_DONE, MACRO_WRITE_PENDING,
};
use crate::report::{CHUNK_SIZE, REPORT_SIZE};
use crate::session::{after, after_reply, begin, ActionView, Event, SessionView, Stage};
use crate::word::{bytes_of_words, high_byte, lemma_split_then_join, low_byte, words_of_bytes};

verus! {

/// A reply that echoes another command id than the one sent is a
/// rejection, whatever else it holds: nothing is decoded from it.
pub proof fn lemma_mismatch_is_rejected(exchange: ExchangeView, reply: Seq<u8>)
    requires
        reply[0] != exchange.id.wire(),
    ensures
        exchange.outcome(reply) == Outcome::<ValueView>::Rejected,
{
}

/// For every command that can be sent, a reply that echoes its id is
/// decoded to the value that the table places in it.
pub proof fn lemma_echo_is_decoded(command: Command, version: u16, reply: Seq<u8>)
    requires
        command.refusal(version) is None,
        reply[0] == command.layout(version).id.wire(),
    ensures
        command.layout(version).well_formed(),
        command.layout(version).outcome(reply) == Outcome::Success(
            command.layout(version).shape.extract(reply),
        ),
{
}

/// A session for one command sends exactly the report that the table
/// gives, reads the reply once that is sent, and ends with what the table
/// reads from the reply.
pub proof fn lemma_single_command_session(command: Command, version: u16, reply: Seq<u8>)
    requires
        command.refusal(version) is None,
        Operation::Single(command).canned(version) is None,
    ensures
        begin(Operation::Single(command), version).1 == ActionView::Send(
            command.layout(version).request(),
        ),
        after(begin(Operation::Single(command), version).0, Event::Sent).1 == ActionView::Receive,
        after_reply(begin(Operation::Single(command), version).0, reply).1 == ActionView::Finish(
            command.layout(version).outcome(reply),
        ),
{
}

/// A session never waits after a failure of the channel: whatever it was
/// waiting for, it ends at once with that failure.  A keyboard that does
/// not answer in time is such a failure.
pub proof fn lemma_failure_ends_the_session(s: SessionView, error: Error)
    requires
        s.stage != Stage::Finished,
    ensures
        after(s, Event::Failed(error)) == (
            s.finished(),
            ActionView::Finish(Outcome::Failed(error)),
        ),
{
}

/// A session that has ended stays ended: every further event is out of
/// sequence and changes nothing.
pub proof fn lemma_finished_stays_finished(s: SessionView, event: Event)
    requires
        s.stage == Stage::Finished,
    ensures
        after(s, event) == (s, ActionView::Finish(Outcome::Failed(Error::OutOfSequence))),
{
}

/// Whether `get` asks for the value that `set` stores: the two address the
/// same slot, and `get` asks for as many bytes as `set` stores.
pub open spec fn reads_back(set: Command, get: Command) -> bool {
    match (set, get) {
        (
            Command::SetKey { layer, row, col, .. },
            Command::GetKey { layer: same_layer, row: same_row, col: same_col },
        ) => layer == same_layer && row == same_row && col == same_col,
        (
            Command::SetEncoder { layer, id, clockwise, .. },
            Command::GetEncoder { layer: same_layer, id: same_id, clockwise: same_way },
        ) => layer == same_layer && id == same_id && clockwise == same_way,
        (Command::SetLight(light, _), Command::GetLight(same)) => light == same,
        (Command::SetColor(color, _, _), Command::GetColor(same)) => color == same,
        (
            Command::SetKeyboardValue { slot, params },
            Command::GetKeyboardValue { slot: same, params: none, result_length },
        ) => slot == same && none@.len() == 0 && result_length == params@.len(),
        (
            Command::SetKeymapBuffer { offset, data },
            Command::GetKeymapBuffer { offset: same, size },
        ) => offset == same && size == data@.len(),
        (
            Command::SetMacroBuffer { offset, data },
            Command::GetMacroBuffer { offset: same, size },
        ) => offset == same && size == data@.len(),
        _ => false,
    }
}

/// The value that a command stores.
pub open spec fn value_stored(set: Command) -> ValueView {
    match set {
        Command::SetKey { keycode, .. } => ValueView::Word(keycode),
        Command::SetEncoder { keycode, .. } => ValueView::Word(keycode),
        Command::SetLight(_, value) => ValueView::Byte(value),
        Command::SetColor(_, hue, saturation) => ValueView::Pair(hue, saturation),
        Command::SetKeyboardValue { params, .. } => ValueView::Bytes(params@),
        Command::SetKeymapBuffer { data, .. } => ValueView::Bytes(data@),
        Command::SetMacroBuffer { data, .. } => ValueView::Bytes(data@),
        _ => ValueView::Unit,
    }
}

/// A command that stores a value and the command that asks for it lay the
/// value out in the same place: the request that stores it, answered under
/// the id of the command that asks for it, decodes to the value stored.
pub proof fn lemma_get_reads_what_set_wrote(set: Command, get: Command, version: u16)
    requires
        reads_back(set, get),
        set.refusal(version) is None,
        get.refusal(version) is None,
    ensures
        get.layout(version).outcome(
            set.layout(version).request().update(0, get.layout(version).id.wire()),
        ) == Outcome::Success(value_stored(set)),
{
    let reply = set.layout(version).request().update(0, get.layout(version).id.wire());
    let shape = get.layout(version).shape;
    match set {
        Command::SetKey { keycode, .. } => {
            lemma_split_then_join(keycode);
        },
        Command::SetEncoder { keycode, .. } => {
            lemma_split_then_join(keycode);
        },
        Command::SetKeyboardValue { params, .. } => {
            assert(shape.extract(reply) == ValueView::Bytes(reply.subrange(2, 2 + params@.len() as int)));
            assert(reply.subrange(2, 2 + params@.len() as int) =~= params@);
        },
        Command::SetKeymapBuffer { data, .. } => {
            assert(reply.subrange(4, 4 + data@.len() as int) =~= data@);
        },
        Command::SetMacroBuffer { data, .. } => {
            assert(reply.subrange(4, 4 + data@.len() as int) =~= data@);
        },
        _ => {},
    }
}

/// What the report of a request to store bytes holds.
proof fn lemma_write_request(id: CommandId, offset: u16, data: Seq<u8>)
    requires
        data.len() <= CHUNK_SIZE,
    ensures
        ({
            let request = write_layout(id, offset, data).request();
            &&& request.len() == REPORT_SIZE
            &&& request[0] == id.wire()
            &&& named_offset(request) == offset
            &&& named_size(request) == data.len()
            &&& request.subrange(4, 4 + data.len() as int) == data
        }),
{
    let request = write_layout(id, offset, data).request();
    lemma_split_then_join(offset);
    assert(request[1] == high_byte(offset));
    assert(request[2] == low_byte(offset));
    assert(request[3] == data.len() as u8);
    assert(request.subrange(4, 4 + data.len() as int) =~= data);
}

/// What the report of a request to read bytes holds.
proof fn lemma_read_request(id: CommandId, offset: u16, size: u8)
    requires
        size <= CHUNK_SIZE,
    ensures
        ({
            let request = read_layout(id, offset, size).request();
            &&& request.len() == REPORT_SIZE
            &&& request[0] == id.wire()
            &&& named_offset(request) == offset
            &&& named_size(request) == size
        }),
{
    let request = read_layout(id, offset, size).request();
    lemma_split_then_join(offset);
    assert(request[1] == high_byte(offset));
    assert(request[2] == low_byte(offset));
    assert(request[3] == size);
}

/// The state of a session that has had `round` round trips accepted.
pub open spec fn underway(
    operation: Operation,
    version: u16,
    round: nat,
    capacity: u16,
    incoming: Seq<u8>,
) -> SessionView {
    SessionView { operation, version, stage: Stage::Requesting, round, capacity, incoming }
}

/// `buffer` with its first bytes replaced by the first `upto` bytes of
/// `data`.
pub open spec fn overwritten(buffer: Seq<u8>, data: Seq<u8>, upto: nat) -> Seq<u8> {
    Seq::new(
        buffer.len(),
        |j: int|
            if j < upto {
                data[j]
            } else {
                buffer[j]
            },
    )
}

/// What the keyboard does with a request to store bytes in its keymap.
proof fn lemma_serve_keymap_store(mem: Memory, request: Seq<u8>)
    requires
        request[0] == CommandId::DynamicKeymapSetBuffer.wire(),
    ensures
        serve(mem, request) == (
            Memory {
                keymap: stored(
                    mem.keymap,
                    named_offset(request),
                    request.subrange(4, 4 + named_size(request)),
                ),
                ..mem
            },
            request,
        ),
{
}

/// What a session that writes a keymap does with an accepted reply.
proof fn lemma_keymap_write_accepted(operation: Operation, version: u16, k: nat, reply: Seq<u8>)
    requires
        operation is WriteRawMatrix,
        k < chunk_count(operation.wire_data().len()),
        reply[0] == CommandId::DynamicKeymapSetBuffer.wire(),
    ensures
        ({
            let s = underway(operation, version, k, 0, Seq::empty());
            after_reply(s, reply) == if k + 1 == chunk_count(operation.wire_data().len()) {
                (s.finished(), ActionView::Finish(Outcome::Success(ValueView::Unit)))
            } else {
                let next = underway(operation, version, k + 1, 0, Seq::empty());
                (next, ActionView::Send(next.request()))
            }
        }),
{
    let s = underway(operation, version, k, 0, Seq::empty());
    assert(operation.exchange_at(version, 0, k).id == CommandId::DynamicKeymapSetBuffer);
    assert(s.incoming + operation.gathered(0, k, reply) =~= Seq::<u8>::empty());
    assert(operation.rounds(0) == chunk_count(operation.wire_data().len()));
}

/// One round trip of a keymap write: the keyboard stores the piece, and
/// the session ends after the last piece or goes on to the next.
proof fn lemma_keymap_write_step(operation: Operation, version: u16, mem: Memory, k: nat)
    requires
        operation is WriteRawMatrix,
        operation.wire_data().len() <= ADDRESS_SPACE,
        k < chunk_count(operation.wire_data().len()),
    ensures
        ({
            let s = underway(operation, version, k, 0, Seq::empty());
            let data = operation.wire_data();
            let served = serve(mem, s.request());
            &&& served.0 == Memory {
                keymap: stored(mem.keymap, chunk_start(k) as int, chunk_of(data, k)),
                ..mem
            }
            &&& after_reply(s, served.1) == if k + 1 == chunk_count(data.len()) {
                (s.finished(), ActionView::Finish(Outcome::Success(ValueView::Unit)))
            } else {
                let next = underway(operation, version, k + 1, 0, Seq::empty());
                (next, ActionView::Send(next.request()))
            }
        }),
{
    let s = underway(operation, version, k, 0, Seq::empty());
    let data = operation.wire_data();
    let piece = chunk_of(data, k);
    lemma_chunk_bounds(data.len(), k);
    lemma_write_request(CommandId::DynamicKeymapSetBuffer, chunk_start(k) as u16, piece);
    let request = s.request();
    lemma_serve_keymap_store(mem, request);
    lemma_keymap_write_accepted(operation, version, k, request);
}

/// One turn of a run: the request is served and the session takes the
/// reply.
proof fn lemma_run_turn(s: SessionView, mem: Memory, fuel: nat)
    requires
        s.stage is Requesting,
        fuel > 0,
    ensures
        ({
            let served = serve(mem, s.request());
            let next = after_reply(s, served.1);
            run(s, ActionView::Send(s.request()), mem, fuel) == run(
                next.0,
                next.1,
                served.0,
                (fuel - 1) as nat,
            )
        }),
{
}

/// Storing a piece of the data after the pieces before it leaves the
/// buffer as it will be when all the data is stored, up to the end of
/// that piece.
proof fn lemma_piece_stored(buffer: Seq<u8>, data: Seq<u8>, k: nat)
    requires
        data.len() <= buffer.len(),
        k < chunk_count(data.len()),
        forall|j: int| 0 <= j < chunk_start(k) ==> buffer[j] == data[j],
    ensures
        ({
            let kept = stored(buffer, chunk_start(k) as int, chunk_of(data, k));
            &&& kept.len() == buffer.len()
            &&& forall|j: int| 0 <= j < covered(data.len(), k + 1) ==> kept[j] == data[j]
            &&& overwritten(kept, data, data.len()) == overwritten(buffer, data, data.len())
            &&& k + 1 == chunk_count(data.len()) ==> kept == overwritten(
                buffer,
                data,
                data.len(),
            )
        }),
{
    let kept = stored(buffer, chunk_start(k) as int, chunk_of(data, k));
    lemma_chunk_bounds(data.len(), k);
    lemma_chunk_bounds(data.len(), k + 1);
    assert(overwritten(kept, data, data.len()) =~= overwritten(buffer, data, data.len()));
    if k + 1 == chunk_count(data.len()) {
        assert(kept =~= overwritten(buffer, data, data.len()));
    }
}

/// A keymap write that has stored its first `k` pieces stores the rest.
proof fn lemma_keymap_write_rest(operation: Operation, version: u16, mem: Memory, k: nat, fuel: nat)
    requires
        operation is WriteRawMatrix,
        operation.wire_data().len() <= mem.keymap.len(),
        operation.wire_data().len() <= ADDRESS_SPACE,
        k < chunk_count(operation.wire_data().len()),
        fuel > chunk_count(operation.wire_data().len()) - k,
        forall|j: int| 0 <= j < chunk_start(k) ==> mem.keymap[j] == operation.wire_data()[j],
    ensures
        ({
            let s = underway(operation, version, k, 0, Seq::empty());
            let data = operation.wire_data();
            run(s, ActionView::Send(s.request()), mem, fuel) == (
                Outcome::Success(ValueView::Unit),
                Memory { keymap: overwritten(mem.keymap, data, data.len()), ..mem },
            )
        }),
    decreases chunk_count(operation.wire_data().len()) - k,
{
    let s = underway(operation, version, k, 0, Seq::empty());
    let data = operation.wire_data();
    lemma_keymap_write_step(operation, version, mem, k);
    lemma_piece_stored(mem.keymap, data, k);
    lemma_run_turn(s, mem, fuel);
    let served = serve(mem, s.request());
    if k + 1 < chunk_count(data.len()) {
        lemma_chunk_bounds(data.len(), k + 1);
        lemma_keymap_write_rest(operation, version, served.0, k + 1, (fuel - 1) as nat);
    }
}

/// Writing a keymap stores its bytes at the start of the keyboard's keymap
/// and leaves the rest of it as it was.
pub proof fn lemma_keymap_write(operation: Operation, version: u16, mem: Memory)
    requires
        operation is WriteRawMatrix,
        version >= PROTOCOL_BUFFERED,
        operation.wire_data().len() <= mem.keymap.len(),
        operation.wire_data().len() <= ADDRESS_SPACE,
    ensures
        perform(operation, version, mem) == (
            Outcome::Success(ValueView::Unit),
            Memory {
                keymap: overwritten(mem.keymap, operation.wire_data(), operation.wire_data().len()),
                ..mem
            },
        ),
{
    let data = operation.wire_data();
    lemma_chunk_bounds(data.len(), 0);
    if chunk_count(data.len()) == 0 {
        assert(overwritten(mem.keymap, data, data.len()) =~= mem.keymap);
    } else {
        lemma_chunk_bounds(data.len(), chunk_count(data.len()));
        lemma_keymap_write_rest(operation, version, mem, 0, round_limit());
    }
}

/// What the keyboard does with a request for bytes of its keymap.
proof fn lemma_serve_keymap_fetch(mem: Memory, request: Seq<u8>)
    requires
        request[0] == CommandId::DynamicKeymapGetBuffer.wire(),
    ensures
        serve(mem, request) == (
            mem,
            carrying(request, 4, fetched(mem.keymap, named_offset(request), named_size(request))),
        ),
{
}

/// What a session that reads a keymap does with an accepted reply.
proof fn lemma_keymap_read_accepted(
    operation: Operation,
    version: u16,
    k: nat,
    incoming: Seq<u8>,
    reply: Seq<u8>,
)
    requires
        operation is ReadRawMatrix,
        k < chunk_count(operation.span()),
        reply[0] == CommandId::DynamicKeymapGetBuffer.wire(),
    ensures
        ({
            let s = underway(operation, version, k, 0, incoming);
            let read = incoming + reply.subrange(4, 4 + chunk_len(operation.span(), k) as int);
            after_reply(s, reply) == if k + 1 == chunk_count(operation.span()) {
                (
                    s.finished(),
                    ActionView::Finish(Outcome::Success(ValueView::Words(words_of_bytes(read)))),
                )
            } else {
                let next = underway(operation, version, k + 1, 0, read);
                (next, ActionView::Send(next.request()))
            }
        }),
{
    assert(operation.exchange_at(version, 0, k).id == CommandId::DynamicKeymapGetBuffer);
    assert(operation.rounds(0) == chunk_count(operation.span()));
}

/// One round trip of a keymap read: the keyboard returns the piece, and
/// the session ends after the last piece or goes on to the next.
proof fn lemma_keymap_read_step(
    operation: Operation,
    version: u16,
    mem: Memory,
    k: nat,
    incoming: Seq<u8>,
)
    requires
        operation is ReadRawMatrix,
        operation.base() + operation.span() <= ADDRESS_SPACE,
        operation.base() + operation.span() <= mem.keymap.len(),
        k < chunk_count(operation.span()),
    ensures
        ({
            let s = underway(operation, version, k, 0, incoming);
            let from = operation.base() + chunk_start(k);
            let read = incoming + held(mem.keymap, from, chunk_len(operation.span(), k));
            let served = serve(mem, s.request());
            &&& served.0 == mem
            &&& after_reply(s, served.1) == if k + 1 == chunk_count(operation.span()) {
                (
                    s.finished(),
                    ActionView::Finish(Outcome::Success(ValueView::Words(words_of_bytes(read)))),
                )
            } else {
                let next = underway(operation, version, k + 1, 0, read);
                (next, ActionView::Send(next.request()))
            }
        }),
{
    let s = underway(operation, version, k, 0, incoming);
    let from = operation.base() + chunk_start(k);
    let len = chunk_len(operation.span(), k);
    lemma_chunk_bounds(operation.span(), k);
    lemma_read_request(CommandId::DynamicKeymapGetBuffer, from as u16, len as u8);
    let request = s.request();
    lemma_serve_keymap_fetch(mem, request);
    let reply = serve(mem, request).1;
    lemma_keymap_read_accepted(operation, version, k, incoming, reply);
    assert(reply.subrange(4, 4 + len as int) =~= held(mem.keymap, from, len));
}

/// What was read of a buffer, with the next piece after it, is what was
/// read of the buffer one piece further on.
proof fn lemma_held_grows(buffer: Seq<u8>, base: nat, total: nat, k: nat)
    requires
        base + total <= buffer.len(),
        k < chunk_count(total),
    ensures
        held(buffer, base, chunk_start(k)) + held(
            buffer,
            base + chunk_start(k),
            chunk_len(total, k),
        ) == held(buffer, base, covered(total, k + 1)),
        k + 1 == chunk_count(total) ==> covered(total, k + 1) == total,
        k + 1 < chunk_count(total) ==> covered(total, k + 1) == chunk_start(k + 1),
{
    lemma_chunk_bounds(total, k);
    lemma_chunk_bounds(total, k + 1);
    assert(held(buffer, base, chunk_start(k)) + held(
        buffer,
        base + chunk_start(k),
        chunk_len(total, k),
    ) =~= held(buffer, base, covered(total, k + 1)));
}

/// A keymap read that has read its first `k` pieces reads the rest.
proof fn lemma_keymap_read_rest(
    operation: Operation,
    version: u16,
    mem: Memory,
    k: nat,
    incoming: Seq<u8>,
    fuel: nat,
)
    requires
        operation is ReadRawMatrix,
        operation.base() + operation.span() <= ADDRESS_SPACE,
        operation.base() + operation.span() <= mem.keymap.len(),
        k < chunk_count(operation.span()),
        fuel > chunk_count(operation.span()) - k,
        incoming == held(mem.keymap, operation.base(), chunk_start(k)),
    ensures
        ({
            let s = underway(operation, version, k, 0, incoming);
            run(s, ActionView::Send(s.request()), mem, fuel) == (
                Outcome::Success(
                    ValueView::Words(
                        words_of_bytes(held(mem.keymap, operation.base(), operation.span())),
                    ),
                ),
                mem,
            )
        }),
    decreases chunk_count(operation.span()) - k,
{
    let s = underway(operation, version, k, 0, incoming);
    let base = operation.base();
    let span = operation.span();
    let read = incoming + held(mem.keymap, base + chunk_start(k), chunk_len(span, k));
    lemma_keymap_read_step(operation, version, mem, k, incoming);
    lemma_held_grows(mem.keymap, base, span, k);
    let served = serve(mem, s.request());
    let next = after_reply(s, served.1);
    assert(run(s, ActionView::Send(s.request()), mem, fuel) == run(
        next.0,
        next.1,
        served.0,
        (fuel - 1) as nat,
    ));
    if k + 1 < chunk_count(span) {
        lemma_keymap_read_rest(operation, version, mem, k + 1, read, (fuel - 1) as nat);
    }
}

/// Reading a layer returns the keycodes that the keyboard's keymap holds
/// for it, and changes nothing.
pub proof fn lemma_keymap_read(operation: Operation, version: u16, mem: Memory)
    requires
        operation is ReadRawMatrix,
        version >= PROTOCOL_BUFFERED,
        operation.base() + operation.span() <= ADDRESS_SPACE,
        operation.base() + operation.span() <= mem.keymap.len(),
    ensures
        perform(operation, version, mem) == (
            Outcome::Success(
                ValueView::Words(
                    words_of_bytes(
                        held(mem.keymap, operation.base(), operation.span()),
                    ),
                ),
            ),
            mem,
        ),
{
    let base = operation.base();
    lemma_chunk_bounds(operation.span(), 0);
    if chunk_count(operation.span()) == 0 {
        assert(words_of_bytes(held(mem.keymap, base, operation.span()))
            =~= Seq::<u16>::empty());
    } else {
        lemma_chunk_bounds(operation.span(), chunk_count(operation.span()));
        assert(held(mem.keymap, base, chunk_start(0)) =~= Seq::<u8>::empty());
        lemma_keymap_read_rest(operation, version, mem, 0, Seq::empty(), round_limit());
    }
}

/// The bytes of a run of keycodes within a longer run are the keycodes
/// of that run.
proof fn lemma_words_within(words: Seq<u16>, from: nat, count: nat)
    requires
        from + count <= words.len(),
    ensures
        words_of_bytes(held(bytes_of_words(words), 2 * from, 2 * count)) == words.subrange(
            from as int,
            (from + count) as int,
        ),
{
    let bytes = held(bytes_of_words(words), 2 * from, 2 * count);
    let taken = words.subrange(from as int, (from + count) as int);
    assert(bytes.len() == 2 * count);
    assert forall|i: int| 0 <= i < count implies words_of_bytes(bytes)[i] == taken[i] by {
        assert(bytes[2 * i] == bytes_of_words(words)[2 * from + 2 * i]);
        assert(bytes[2 * i + 1] == bytes_of_words(words)[2 * from + 2 * i + 1]);
        assert((2 * from + 2 * i) / 2 == from + i);
        assert((2 * from + 2 * i + 1) / 2 == from + i);
        lemma_split_then_join(words[from + i]);
    }
    assert(words_of_bytes(bytes) =~= taken);
}

/// Where every layer has `keys` keycodes, the keycodes of all layers hold
/// those of layer `layer` at `layer` times `keys`.
proof fn lemma_layer_within(layers: Seq<Vec<u16>>, keys: nat, layer: nat)
    requires
        forall|i: int| 0 <= i < layers.len() ==> (#[trigger] layers[i])@.len() == keys,
        layer < layers.len(),
    ensures
        flattened(layers).len() == layers.len() * keys,
        layer * keys + keys <= layers.len() * keys,
        flattened(layers).subrange((layer * keys) as int, (layer * keys + keys) as int)
            == layers[layer as int]@,
    decreases layers.len(),
{
    let front = layers.drop_last();
    let last = (layers.len() - 1) as nat;
    assert(last * keys + keys == layers.len() * keys) by (nonlinear_arith)
        requires
            last + 1 == layers.len(),
    ;
    if last == 0 {
        assert(flattened(front) =~= Seq::<u16>::empty());
        assert(layer * keys == 0) by (nonlinear_arith)
            requires
                layer == 0,
        ;
        assert(flattened(layers) =~= layers[0]@);
        assert(flattened(layers).subrange(0, keys as int) =~= layers[0]@);
    } else {
        assert forall|i: int| 0 <= i < front.len() implies (#[trigger] front[i])@.len() == keys by {
            assert(front[i] == layers[i]);
        }
        lemma_layer_within(front, keys, if layer < last { layer } else { 0 });
        assert(flattened(front).len() == last * keys);
        if layer < last {
            assert(front[layer as int] == layers[layer as int]);
            assert(flattened(layers).subrange((layer * keys) as int, (layer * keys + keys) as int)
                =~= flattened(front).subrange(
                (layer * keys) as int,
                (layer * keys + keys) as int,
            ));
        } else {
            assert(flattened(layers).subrange((layer * keys) as int, (layer * keys + keys) as int)
                =~= layers.last()@);
        }
    }
}

/// A keymap that was written is read back layer by layer: after writing
/// layers of the matrix's size, reading any of them returns its keycodes
/// as they were given.  This holds of every number of keycodes: none,
/// fewer than one report carries, exactly as many, and more.
pub proof fn lemma_keymap_round_trip(
    info: MatrixInfo,
    keymap: Vec<Vec<u16>>,
    layer: u8,
    version: u16,
    mem: Memory,
)
    requires
        version >= PROTOCOL_BUFFERED,
        forall|i: int| 0 <= i < keymap@.len() ==> (#[trigger] keymap@[i])@.len() == info.keys(),
        layer < keymap@.len(),
        2 * (keymap@.len() * info.keys()) <= mem.keymap.len(),
        2 * (keymap@.len() * info.keys()) <= ADDRESS_SPACE,
    ensures
        ({
            let written = perform(Operation::WriteRawMatrix { info, keymap }, version, mem);
            &&& written.0 == Outcome::Success(ValueView::Unit)
            &&& perform(Operation::ReadRawMatrix { info, layer }, version, written.1) == (
                Outcome::Success(ValueView::Words(keymap@[layer as int]@)),
                written.1,
            )
        }),
{
    let write = Operation::WriteRawMatrix { info, keymap };
    let read = Operation::ReadRawMatrix { info, layer };
    let keys = info.keys();
    let words = flattened(keymap@);
    let data = write.wire_data();
    lemma_layer_within(keymap@, keys, layer as nat);
    assert(data.len() == 2 * (keymap@.len() * keys));
    lemma_keymap_write(write, version, mem);
    let kept = overwritten(mem.keymap, data, data.len());
    let after = Memory { keymap: kept, ..mem };
    assert(read.span() == 2 * keys);
    assert(read.base() == 2 * ((layer as nat) * keys)) by (nonlinear_arith)
        requires
            read.base() == (layer as nat) * (2 * keys),
    ;
    lemma_keymap_read(read, version, after);
    let first: nat = (layer as nat) * keys;
    assert(held(kept, read.base(), read.span()) =~= held(data, 2 * first, 2 * keys));
    lemma_words_within(words, first, keys);
}

/// What the keyboard does with the question for the size of its macro
/// buffer.
proof fn lemma_serve_macro_size(mem: Memory, request: Seq<u8>)
    requires
        request[0] == CommandId::DynamicKeymapMacroGetBufferSize.wire(),
        request.len() == REPORT_SIZE,
        mem.macros.len() < ADDRESS_SPACE,
    ensures
        serve(mem, request).0 == mem,
        serve(mem, request).1[0] == request[0],
        reported_capacity(serve(mem, request).1) == mem.macros.len(),
{
    let len = mem.macros.len() as u16;
    lemma_split_then_join(len);
    let reply = carrying(request, 1, seq![high_byte(len), low_byte(len)]);
    assert(reply[1] == high_byte(len));
    assert(reply[2] == low_byte(len));
}

/// What the keyboard does with a request for bytes of its macro buffer.
proof fn lemma_serve_macro_fetch(mem: Memory, request: Seq<u8>)
    requires
        request[0] == CommandId::DynamicKeymapMacroGetBuffer.wire(),
    ensures
        serve(mem, request) == (
            mem,
            carrying(request, 4, fetched(mem.macros, named_offset(request), named_size(request))),
        ),
{
}

/// The first round trip of a macro read: the session learns the size of
/// the buffer, and ends if there is nothing to read.
proof fn lemma_macro_read_first(version: u16, mem: Memory)
    requires
        mem.macros.len() < ADDRESS_SPACE,
    ensures
        ({
            let operation = Operation::GetMacroBytes;
            let capacity = mem.macros.len() as u16;
            let s = underway(operation, version, 0, 0, Seq::empty());
            let served = serve(mem, s.request());
            &&& begin(operation, version) == (s, ActionView::Send(s.request()))
            &&& served.0 == mem
            &&& after_reply(s, served.1) == if chunk_count(capacity as nat) == 0 {
                (
                    s.finished(),
                    ActionView::Finish(Outcome::Success(ValueView::Bytes(Seq::empty()))),
                )
            } else {
                let next = underway(operation, version, 1, capacity, Seq::empty());
                (next, ActionView::Send(next.request()))
            }
        }),
{
    let operation = Operation::GetMacroBytes;
    let s = underway(operation, version, 0, 0, Seq::empty());
    let request = s.request();
    assert(operation.exchange_at(version, 0, 0).id == CommandId::DynamicKeymapMacroGetBufferSize);
    assert(request[0] == CommandId::DynamicKeymapMacroGetBufferSize.wire());
    lemma_serve_macro_size(mem, request);
    let reply = serve(mem, request).1;
    let capacity = reported_capacity(reply);
    assert(s.incoming + operation.gathered(capacity, 0, reply) =~= Seq::<u8>::empty());
    assert(operation.rounds(capacity) == 1 + chunk_count(capacity as nat));
}

/// What a session that reads the macro buffer does with an accepted reply
/// after the first.
proof fn lemma_macro_read_accepted(
    version: u16,
    capacity: u16,
    k: nat,
    incoming: Seq<u8>,
    reply: Seq<u8>,
)
    requires
        1 <= k <= chunk_count(capacity as nat),
        reply[0] == CommandId::DynamicKeymapMacroGetBuffer.wire(),
    ensures
        ({
            let operation = Operation::GetMacroBytes;
            let s = underway(operation, version, k, capacity, incoming);
            let read = incoming + reply.subrange(
                4,
                4 + chunk_len(capacity as nat, (k - 1) as nat) as int,
            );
            after_reply(s, reply) == if k == chunk_count(capacity as nat) {
                (s.finished(), ActionView::Finish(Outcome::Success(ValueView::Bytes(read))))
            } else {
                let next = underway(operation, version, k + 1, capacity, read);
                (next, ActionView::Send(next.request()))
            }
        }),
{
    let operation = Operation::GetMacroBytes;
    assert(operation.exchange_at(version, capacity, k).id
        == CommandId::DynamicKeymapMacroGetBuffer);
    assert(operation.rounds(capacity) == 1 + chunk_count(capacity as nat));
}

/// One round trip of a macro read after the first: the keyboard returns
/// the piece, and the session ends after the last piece or goes on.
proof fn lemma_macro_read_step(version: u16, mem: Memory, k: nat, incoming: Seq<u8>)
    requires
        mem.macros.len() < ADDRESS_SPACE,
        1 <= k <= chunk_count(mem.macros.len()),
    ensures
        ({
            let operation = Operation::GetMacroBytes;
            let capacity = mem.macros.len() as u16;
            let s = underway(operation, version, k, capacity, incoming);
            let piece = (k - 1) as nat;
            let read = incoming + held(
                mem.macros,
                chunk_start(piece),
                chunk_len(mem.macros.len(), piece),
            );
            let served = serve(mem, s.request());
            &&& served.0 == mem
            &&& after_reply(s, served.1) == if k == chunk_count(mem.macros.len()) {
                (s.finished(), ActionView::Finish(Outcome::Success(ValueView::Bytes(read))))
            } else {
                let next = underway(operation, version, k + 1, capacity, read);
                (next, ActionView::Send(next.request()))
            }
        }),
{
    let operation = Operation::GetMacroBytes;
    let capacity = mem.macros.len() as u16;
    let s = underway(operation, version, k, capacity, incoming);
    let piece = (k - 1) as nat;
    let len = chunk_len(mem.macros.len(), piece);
    lemma_chunk_bounds(mem.macros.len(), piece);
    lemma_read_request(
        CommandId::DynamicKeymapMacroGetBuffer,
        chunk_start(piece) as u16,
        CHUNK_SIZE as u8,
    );
    let request = s.request();
    lemma_serve_macro_fetch(mem, request);
    let reply = serve(mem, request).1;
    lemma_macro_read_accepted(version, capacity, k, incoming, reply);
    assert(reply.subrange(4, 4 + len as int) =~= held(mem.macros, chunk_start(piece), len));
}

/// A macro read that has read the pieces before round trip `k` reads the
/// rest.
proof fn lemma_macro_read_rest(version: u16, mem: Memory, k: nat, incoming: Seq<u8>, fuel: nat)
    requires
        mem.macros.len() < ADDRESS_SPACE,
        1 <= k <= chunk_count(mem.macros.len()),
        fuel > chunk_count(mem.macros.len()) - k + 1,
        incoming == held(mem.macros, 0, chunk_start((k - 1) as nat)),
    ensures
        ({
            let s = underway(
                Operation::GetMacroBytes,
                version,
                k,
                mem.macros.len() as u16,
                incoming,
            );
            run(s, ActionView::Send(s.request()), mem, fuel) == (
                Outcome::Success(ValueView::Bytes(mem.macros)),
                mem,
            )
        }),
    decreases chunk_count(mem.macros.len()) - k,
{
    let operation = Operation::GetMacroBytes;
    let capacity = mem.macros.len() as u16;
    let s = underway(operation, version, k, capacity, incoming);
    let piece = (k - 1) as nat;
    let read = incoming + held(mem.macros, chunk_start(piece), chunk_len(mem.macros.len(), piece));
    lemma_macro_read_step(version, mem, k, incoming);
    lemma_held_grows(mem.macros, 0, mem.macros.len(), piece);
    let served = serve(mem, s.request());
    let next = after_reply(s, served.1);
    assert(run(s, ActionView::Send(s.request()), mem, fuel) == run(
        next.0,
        next.1,
        served.0,
        (fuel - 1) as nat,
    ));
    if k < chunk_count(mem.macros.len()) {
        lemma_macro_read_rest(version, mem, k + 1, read, (fuel - 1) as nat);
    } else {
        assert(held(mem.macros, 0, mem.macros.len()) =~= mem.macros);
    }
}

/// Reading the macros returns the whole macro buffer as the keyboard
/// holds it, and changes nothing.
pub proof fn lemma_macro_read(version: u16, mem: Memory)
    requires
        mem.macros.len() < ADDRESS_SPACE,
    ensures
        perform(Operation::GetMacroBytes, version, mem) == (
            Outcome::Success(ValueView::Bytes(mem.macros)),
            mem,
        ),
{
    let operation = Operation::GetMacroBytes;
    let s = underway(operation, version, 0, 0, Seq::empty());
    lemma_macro_read_first(version, mem);
    let served = serve(mem, s.request());
    let next = after_reply(s, served.1);
    assert(run(s, ActionView::Send(s.request()), mem, round_limit()) == run(
        next.0,
        next.1,
        served.0,
        (round_limit() - 1) as nat,
    ));
    lemma_chunk_bounds(mem.macros.len(), 0);
    lemma_chunk_bounds(mem.macros.len(), chunk_count(mem.macros.len()));
    if chunk_count(mem.macros.len()) == 0 {
        assert(mem.macros =~= Seq::<u8>::empty());
    } else {
        assert(held(mem.macros, 0, chunk_start(0)) =~= Seq::<u8>::empty());
        lemma_macro_read_rest(version, mem, 1, Seq::empty(), (round_limit() - 1) as nat);
    }
}

/// The macro buffer while its contents are being replaced: the first
/// `upto` bytes of `data` are stored, the last byte of the buffer is marked
/// as pending unless a stored byte lies there, and the rest is zero.
pub open spec fn half_written(capacity: nat, data: Seq<u8>, upto: nat) -> Seq<u8> {
    Seq::new(
        capacity,
        |i: int|
            if i < upto {
                data[i]
            } else if i == capacity - 1 {
                MACRO_WRITE_PENDING
            } else {
                0u8
            },
    )
}

/// The macro buffer after its contents were replaced by `data`: the bytes
/// of `data`, then zero bytes, and a zero byte in the last place whatever
/// `data` holds there.
pub open spec fn settled(capacity: nat, data: Seq<u8>) -> Seq<u8> {
    Seq::new(
        capacity,
        |i: int|
            if i < data.len() && i != capacity - 1 {
                data[i]
            } else {
                0u8
            },
    )
}

/// What the keyboard does with a request to store bytes in its macro
/// buffer.
proof fn lemma_serve_macro_store(mem: Memory, request: Seq<u8>)
    requires
        request[0] == CommandId::DynamicKeymapMacroSetBuffer.wire(),
    ensures
        serve(mem, request) == (
            Memory {
                macros: stored(
                    mem.macros,
                    named_offset(request),
                    request.subrange(4, 4 + named_size(request)),
                ),
                ..mem
            },
            request,
        ),
{
}

/// What the keyboard does with a request to clear its macro buffer.
proof fn lemma_serve_macro_reset(mem: Memory, request: Seq<u8>)
    requires
        request[0] == CommandId::DynamicKeymapMacroReset.wire(),
    ensures
        serve(mem, request) == (Memory { macros: cleared(mem.macros.len()), ..mem }, request),
{
}

/// The first round trip of a macro write: the session learns the size of
/// the buffer, and ends if the bytes given do not fit in it.
proof fn lemma_macro_write_first(operation: Operation, version: u16, mem: Memory)
    requires
        operation is SetMacroBytes,
        mem.macros.len() < ADDRESS_SPACE,
    ensures
        ({
            let capacity = mem.macros.len() as u16;
            let s = underway(operation, version, 0, 0, Seq::empty());
            let served = serve(mem, s.request());
            &&& begin(operation, version) == (s, ActionView::Send(s.request()))
            &&& served.0 == mem
            &&& after_reply(s, served.1) == if operation.wire_data().len() > capacity {
                (
                    s.finished(),
                    ActionView::Finish(
                        Outcome::Failed(
                            Error::BufferOverflow {
                                capacity,
                                actual: operation.wire_data().len() as usize,
                            },
                        ),
                    ),
                )
            } else {
                let next = underway(operation, version, 1, capacity, Seq::empty());
                (next, ActionView::Send(next.request()))
            }
        }),
{
    let s = underway(operation, version, 0, 0, Seq::empty());
    let request = s.request();
    assert(operation.exchange_at(version, 0, 0).id == CommandId::DynamicKeymapMacroGetBufferSize);
    assert(request[0] == CommandId::DynamicKeymapMacroGetBufferSize.wire());
    lemma_serve_macro_size(mem, request);
    let reply = serve(mem, request).1;
    let capacity = reported_capacity(reply);
    assert(s.incoming + operation.gathered(capacity, 0, reply) =~= Seq::<u8>::empty());
    assert(operation.rounds(capacity) >= 2);
}

/// What a session that writes the macro buffer does with a reply after
/// the first that echoes the request: it ends after the last round trip
/// and goes on to the next after any other.
proof fn lemma_macro_write_accepted(
    operation: Operation,
    version: u16,
    capacity: u16,
    k: nat,
)
    requires
        operation is SetMacroBytes,
        1 <= k < operation.rounds(capacity),
    ensures
        ({
            let s = underway(operation, version, k, capacity, Seq::empty());
            after_reply(s, s.request()) == if k + 1 == operation.rounds(capacity) {
                (s.finished(), ActionView::Finish(Outcome::Success(ValueView::Unit)))
            } else {
                let next = underway(operation, version, k + 1, capacity, Seq::empty());
                (next, ActionView::Send(next.request()))
            }
        }),
{
    let s = underway(operation, version, k, capacity, Seq::empty());
    let exchange = operation.exchange_at(version, capacity, k);
    let reply = s.request();
    assert(reply[0] == exchange.id.wire());
    assert(s.incoming + operation.gathered(capacity, k, reply) =~= Seq::<u8>::empty());
}

/// The round trip of a macro write that clears the buffer.
proof fn lemma_macro_write_reset(operation: Operation, version: u16, mem: Memory)
    requires
        operation is SetMacroBytes,
        mem.macros.len() < ADDRESS_SPACE,
    ensures
        ({
            let s = underway(operation, version, 1, mem.macros.len() as u16, Seq::empty());
            serve(mem, s.request()) == (
                Memory { macros: cleared(mem.macros.len()), ..mem },
                s.request(),
            )
        }),
{
    let capacity = mem.macros.len() as u16;
    let s = underway(operation, version, 1, capacity, Seq::empty());
    assert(operation.exchange_at(version, capacity, 1).id == CommandId::DynamicKeymapMacroReset);
    assert(s.request()[0] == CommandId::DynamicKeymapMacroReset.wire());
    lemma_serve_macro_reset(mem, s.request());
}

/// A round trip of a macro write that marks the last byte of the buffer.
proof fn lemma_macro_write_mark(operation: Operation, version: u16, mem: Memory, k: nat)
    requires
        operation is SetMacroBytes,
        0 < mem.macros.len() < ADDRESS_SPACE,
        k == 2 || k == 3 + chunk_count(operation.wire_data().len()),
    ensures
        ({
            let s = underway(operation, version, k, mem.macros.len() as u16, Seq::empty());
            let mark = if k == 2 {
                MACRO_WRITE_PENDING
            } else {
                MACRO_WRITE_DONE
            };
            serve(mem, s.request()) == (
                Memory { macros: mem.macros.update(mem.macros.len() - 1, mark), ..mem },
                s.request(),
            )
        }),
{
    let capacity = mem.macros.len() as u16;
    let s = underway(operation, version, k, capacity, Seq::empty());
    let mark = if k == 2 {
        MACRO_WRITE_PENDING
    } else {
        MACRO_WRITE_DONE
    };
    lemma_write_request(
        CommandId::DynamicKeymapMacroSetBuffer,
        (capacity - 1) as u16,
        seq![mark],
    );
    assert(s.request() == write_layout(
        CommandId::DynamicKeymapMacroSetBuffer,
        (capacity - 1) as u16,
        seq![mark],
    ).request());
    lemma_serve_macro_store(mem, s.request());
    assert(stored(mem.macros, capacity - 1, seq![mark]) =~= mem.macros.update(
        mem.macros.len() - 1,
        mark,
    ));
}

/// A round trip of a macro write that stores piece `j` of the bytes.
proof fn lemma_macro_write_piece(operation: Operation, version: u16, mem: Memory, j: nat)
    requires
        operation is SetMacroBytes,
        0 < mem.macros.len() < ADDRESS_SPACE,
        operation.wire_data().len() <= mem.macros.len(),
        j < chunk_count(operation.wire_data().len()),
    ensures
        ({
            let s = underway(operation, version, 3 + j, mem.macros.len() as u16, Seq::empty());
            serve(mem, s.request()) == (
                Memory {
                    macros: stored(
                        mem.macros,
                        chunk_start(j) as int,
                        chunk_of(operation.wire_data(), j),
                    ),
                    ..mem
                },
                s.request(),
            )
        }),
{
    let capacity = mem.macros.len() as u16;
    let data = operation.wire_data();
    let s = underway(operation, version, 3 + j, capacity, Seq::empty());
    lemma_chunk_bounds(data.len(), j);
    lemma_write_request(
        CommandId::DynamicKeymapMacroSetBuffer,
        chunk_start(j) as u16,
        chunk_of(data, j),
    );
    assert(s.request() == write_layout(
        CommandId::DynamicKeymapMacroSetBuffer,
        chunk_start(j) as u16,
        chunk_of(data, j),
    ).request());
    lemma_serve_macro_store(mem, s.request());
}

/// A macro write that has stored its first `j` pieces stores the rest and
/// marks the buffer as done.
proof fn lemma_macro_write_rest(
    operation: Operation,
    version: u16,
    mem: Memory,
    j: nat,
    fuel: nat,
)
    requires
        operation is SetMacroBytes,
        0 < mem.macros.len() < ADDRESS_SPACE,
        operation.wire_data().len() <= mem.macros.len(),
        j <= chunk_count(operation.wire_data().len()),
        fuel > chunk_count(operation.wire_data().len()) - j + 1,
        mem.macros == half_written(
            mem.macros.len(),
            operation.wire_data(),
            covered(operation.wire_data().len(), j),
        ),
    ensures
        ({
            let s = underway(operation, version, 3 + j, mem.macros.len() as u16, Seq::empty());
            run(s, ActionView::Send(s.request()), mem, fuel) == (
                Outcome::Success(ValueView::Unit),
                Memory { macros: settled(mem.macros.len(), operation.wire_data()), ..mem },
            )
        }),
    decreases chunk_count(operation.wire_data().len()) - j,
{
    let capacity = mem.macros.len() as u16;
    let data = operation.wire_data();
    let count = chunk_count(data.len());
    let s = underway(operation, version, 3 + j, capacity, Seq::empty());
    assert(operation.rounds(capacity) == 4 + count);
    lemma_macro_write_accepted(operation, version, capacity, 3 + j);
    lemma_chunk_bounds(data.len(), j);
    let served = serve(mem, s.request());
    let next = after_reply(s, served.1);
    if j < count {
        lemma_macro_write_piece(operation, version, mem, j);
        lemma_chunk_bounds(data.len(), j + 1);
        assert(served.0.macros =~= half_written(
            mem.macros.len(),
            data,
            covered(data.len(), j + 1),
        ));
        assert(run(s, ActionView::Send(s.request()), mem, fuel) == run(
            next.0,
            next.1,
            served.0,
            (fuel - 1) as nat,
        ));
        lemma_macro_write_rest(operation, version, served.0, j + 1, (fuel - 1) as nat);
    } else {
        lemma_macro_write_mark(operation, version, mem, 3 + j);
        assert(served.0.macros =~= settled(mem.macros.len(), data));
        assert(run(s, ActionView::Send(s.request()), mem, fuel) == run(
            next.0,
            next.1,
            served.0,
            (fuel - 1) as nat,
        ));
    }
}

/// Writing macros that the buffer can hold clears the buffer and stores
/// them at its start; the last byte of the buffer is zero afterwards.
/// Writing more than the buffer can hold fails as soon as its size is
/// known and stores nothing.
pub proof fn lemma_macro_write(operation: Operation, version: u16, mem: Memory)
    requires
        operation is SetMacroBytes,
        mem.macros.len() < ADDRESS_SPACE,
    ensures
        perform(operation, version, mem) == if operation.wire_data().len() > mem.macros.len() {
            (
                Outcome::Failed(
                    Error::BufferOverflow {
                        capacity: mem.macros.len() as u16,
                        actual: operation.wire_data().len() as usize,
                    },
                ),
                mem,
            )
        } else {
            (
                Outcome::Success(ValueView::Unit),
                Memory { macros: settled(mem.macros.len(), operation.wire_data()), ..mem },
            )
        },
{
    let capacity = mem.macros.len() as u16;
    let data = operation.wire_data();
    let s0 = underway(operation, version, 0, 0, Seq::empty());
    lemma_macro_write_first(operation, version, mem);
    let served0 = serve(mem, s0.request());
    let next0 = after_reply(s0, served0.1);
    assert(run(s0, ActionView::Send(s0.request()), mem, round_limit()) == run(
        next0.0,
        next0.1,
        served0.0,
        (round_limit() - 1) as nat,
    ));
    if data.len() <= mem.macros.len() {
        let s1 = underway(operation, version, 1, capacity, Seq::empty());
        lemma_macro_write_reset(operation, version, mem);
        lemma_macro_write_accepted(operation, version, capacity, 1);
        let served1 = serve(mem, s1.request());
        let next1 = after_reply(s1, served1.1);
        assert(run(s1, ActionView::Send(s1.request()), mem, (round_limit() - 1) as nat)
            == run(next1.0, next1.1, served1.0, (round_limit() - 2) as nat));
        if capacity == 0 {
            assert(served1.0.macros =~= settled(0, data));
        } else {
            let s2 = underway(operation, version, 2, capacity, Seq::empty());
            lemma_macro_write_mark(operation, version, served1.0, 2);
            lemma_macro_write_accepted(operation, version, capacity, 2);
            let served2 = serve(served1.0, s2.request());
            let next2 = after_reply(s2, served2.1);
            assert(run(
                s2,
                ActionView::Send(s2.request()),
                served1.0,
                (round_limit() - 2) as nat,
            ) == run(next2.0, next2.1, served2.0, (round_limit() - 3) as nat));
            lemma_chunk_bounds(data.len(), 0);
            lemma_chunk_bounds(data.len(), chunk_count(data.len()));
            assert(served2.0.macros =~= half_written(mem.macros.len(), data, 0));
            lemma_macro_write_rest(
                operation,
                version,
                served2.0,
                0,
                (round_limit() - 3) as nat,
            );
        }
    }
}

/// Macros that were written are read back: after writing bytes that the
/// buffer can hold, reading returns those bytes and then zero bytes up to
/// the size of the buffer.  This holds of no bytes at all and of bytes
/// that cross the boundary of a report.  Bytes that fill the buffer are
/// read back as given if the last of them is zero, which is where a macro
/// ends.
pub proof fn lemma_macro_round_trip(data: Vec<u8>, version: u16, mem: Memory)
    requires
        mem.macros.len() < ADDRESS_SPACE,
        data@.len() <= mem.macros.len(),
        data@.len() < mem.macros.len() || data@.len() == 0 || data@.last() == 0,
    ensures
        ({
            let written = perform(Operation::SetMacroBytes(data), version, mem);
            &&& written.0 == Outcome::Success(ValueView::Unit)
            &&& perform(Operation::GetMacroBytes, version, written.1) == (
                Outcome::Success(
                    ValueView::Bytes(data@ + cleared((mem.macros.len() - data@.len()) as nat)),
                ),
                written.1,
            )
        }),
{
    let write = Operation::SetMacroBytes(data);
    lemma_macro_write(write, version, mem);
    let after = Memory { macros: settled(mem.macros.len(), data@), ..mem };
    lemma_macro_read(version, after);
    assert(after.macros =~= data@ + cleared((mem.macros.len() - data@.len()) as nat));
}

} // verus!
