//! What holds of the printer whatever the transport reports and whatever its
//! callers attempt.

use crate::encoding::init_bytes;
use crate::printer::{ActionView, Event, Link, Phase, PrinterView, STATUS_ATTEMPTS, STATUS_PAUSE_MS};
use crate::raster::{bit_weight, byte_width, raster_rows, BitmapView};
use crate::status::{status_of_reply, PrintError, PrinterStatus};
use vstd::prelude::*;

verus! {

/// One thing that happens to the machine: a caller tries to begin an
/// operation, or the transport reports on the last action.
pub enum Input {
    Begin { payload: Option<Seq<u8>>, poll: bool },
    Report(Event),
}

/// The bytes that an action puts on the wire.
pub open spec fn written(action: ActionView) -> Seq<u8> {
    match action {
        ActionView::Write(bytes) => bytes,
        _ => Seq::empty(),
    }
}

/// The bytes of an optional payload, none where there is no payload.
pub open spec fn bytes_of(payload: Option<Seq<u8>>) -> Seq<u8> {
    match payload {
        Some(bytes) => bytes,
        None => Seq::empty(),
    }
}

/// The bytes that the operation in flight has still to put on the wire.
pub open spec fn owed(printer: PrinterView) -> Seq<u8> {
    match printer.phase {
        Phase::Opening => init_bytes() + bytes_of(printer.payload),
        Phase::Initializing => bytes_of(printer.payload),
        _ => Seq::empty(),
    }
}

/// The state and the action after one input.
pub open spec fn step(printer: PrinterView, input: Input) -> (PrinterView, ActionView) {
    match input {
        Input::Begin { payload, poll } => printer.start(payload, poll),
        Input::Report(event) => printer.advance(event),
    }
}

/// The bytes that go on the wire while the operation in flight lasts, for the
/// inputs that arrive meanwhile.
pub open spec fn wire(printer: PrinterView, inputs: Seq<Input>) -> Seq<u8>
    decreases inputs.len(),
{
    if inputs.len() == 0 || printer.idle() {
        Seq::empty()
    } else {
        let (next, action) = step(printer, inputs[0]);
        written(action) + wire(next, inputs.drop_first())
    }
}

/// The machine after `count` reads in a row that found nothing.
pub open spec fn after_silence(printer: PrinterView, count: nat) -> PrinterView
    decreases count,
{
    if count == 0 {
        printer
    } else {
        after_silence(printer, (count - 1) as nat).advance(Event::NoReply).0
    }
}

/// A new printer is in a state that the machine can be in.
pub proof fn lemma_initial_is_wf(path: std::path::PathBuf)
    ensures
        PrinterView::initial(path).wf(),
        PrinterView::initial(path).idle(),
        PrinterView::initial(path).link == Link::Disconnected,
{
}

/// Beginning an operation keeps the state well formed.
pub proof fn lemma_start_keeps_wf(printer: PrinterView, payload: Option<Seq<u8>>, poll: bool)
    requires
        printer.wf(),
    ensures
        printer.start(payload, poll).0.wf(),
{
}

/// Every event keeps the state well formed.
pub proof fn lemma_advance_keeps_wf(printer: PrinterView, event: Event)
    requires
        printer.wf(),
    ensures
        printer.advance(event).0.wf(),
{
}

/// Neither the device path nor, but for a poll that ends, the status that was
/// last seen changes in a step.
pub proof fn lemma_step_keeps_path(printer: PrinterView, input: Input)
    ensures
        step(printer, input).0.path == printer.path,
        !(step(printer, input).1 is Status) ==> step(printer, input).0.status == printer.status,
{
}

/// While an operation is in flight no other begins: the attempt is answered
/// with `Busy`, puts nothing on the wire and leaves the machine as it was.
pub proof fn lemma_busy_changes_nothing(
    printer: PrinterView,
    payload: Option<Seq<u8>>,
    poll: bool,
)
    requires
        !printer.idle(),
    ensures
        printer.start(payload, poll) == (printer, ActionView::Busy),
{
}

/// A step that writes takes its bytes from the head of what the operation in
/// flight owes; a step that ends the operation leaves nothing owed; every
/// other step leaves what is owed as it was. The operation is over exactly
/// when the action is one that ends it.
pub proof fn lemma_write_is_owed(printer: PrinterView, input: Input)
    requires
        printer.wf(),
        !printer.idle(),
    ensures
        ({
            let (next, action) = step(printer, input);
            &&& action is Write ==> owed(printer) == written(action) + owed(next)
            &&& action.is_final() ==> owed(next) == Seq::<u8>::empty()
            &&& !(action is Write) && !action.is_final() ==> owed(next) == owed(printer)
            &&& written(action).is_prefix_of(owed(printer))
            &&& next.idle() <==> action.is_final()
        }),
{
    let (next, action) = step(printer, input);
    if action is Write {
        assert(owed(printer) =~= written(action) + owed(next));
    } else {
        assert(written(action) =~= Seq::<u8>::empty());
    }
    assert(written(action) =~= owed(printer).subrange(0, written(action).len() as int));
}

/// While an operation is in flight, whatever its callers attempt and whatever
/// the transport reports, the bytes that go on the wire are the beginning of
/// what that operation owes: no byte of another operation comes between.
pub proof fn lemma_operation_owns_the_wire(printer: PrinterView, inputs: Seq<Input>)
    requires
        printer.wf(),
    ensures
        wire(printer, inputs).is_prefix_of(owed(printer)),
    decreases inputs.len(),
{
    if inputs.len() == 0 || printer.idle() {
        assert(wire(printer, inputs) =~= owed(printer).subrange(0, 0));
    } else {
        let (next, action) = step(printer, inputs[0]);
        let rest = inputs.drop_first();
        lemma_write_is_owed(printer, inputs[0]);
        match inputs[0] {
            Input::Begin { payload, poll } => {
                lemma_start_keeps_wf(printer, payload, poll);
            },
            Input::Report(event) => {
                lemma_advance_keeps_wf(printer, event);
            },
        }
        lemma_operation_owns_the_wire(next, rest);
        let head = written(action);
        let tail = wire(next, rest);
        if action is Write {
            assert(head + tail =~= owed(printer).subrange(0, (head + tail).len() as int));
        } else {
            assert(head + tail =~= tail);
        }
    }
}

/// From the moment an idle printer takes up an operation to the end of that
/// operation, the bytes on the wire are the beginning of the initialization
/// sequence, where the printer was disconnected, and the bytes of that
/// operation, whatever else is attempted meanwhile.
pub proof fn lemma_no_interleaving(
    printer: PrinterView,
    payload: Option<Seq<u8>>,
    poll: bool,
    inputs: Seq<Input>,
)
    requires
        printer.wf(),
        printer.idle(),
    ensures
        ({
            let (next, action) = printer.start(payload, poll);
            let preamble = if printer.link == Link::Disconnected {
                init_bytes()
            } else {
                Seq::<u8>::empty()
            };
            (written(action) + wire(next, inputs)).is_prefix_of(preamble + bytes_of(payload))
        }),
{
    let (next, action) = printer.start(payload, poll);
    let preamble = if printer.link == Link::Disconnected {
        init_bytes()
    } else {
        Seq::<u8>::empty()
    };
    let all = preamble + bytes_of(payload);
    lemma_start_keeps_wf(printer, payload, poll);
    lemma_operation_owns_the_wire(next, inputs);
    let head = written(action);
    let tail = wire(next, inputs);
    if printer.link == Link::Disconnected {
        assert(owed(next) =~= all);
        assert(head + tail =~= tail);
    } else {
        assert(tail =~= Seq::<u8>::empty());
        assert(head =~= bytes_of(payload));
        assert(head + tail =~= all);
    }
}

/// On a connected idle printer a command writes its bytes and nothing else,
/// and a successful write leaves the printer as it was.
pub proof fn lemma_command_when_connected(printer: PrinterView, bytes: Seq<u8>)
    requires
        printer.wf(),
        printer.idle(),
        printer.link == Link::Connected,
    ensures
        ({
            let (writing, first) = printer.start(Some(bytes), false);
            let (after, last) = writing.advance(Event::Written);
            &&& first == ActionView::Write(bytes)
            &&& last == ActionView::Done(Ok(()))
            &&& after == printer
        }),
{
}

/// A disconnected idle printer has the device opened once, writes the
/// initialization sequence and then the bytes of the operation; after the
/// last write it is connected and idle.
pub proof fn lemma_command_when_disconnected(printer: PrinterView, bytes: Seq<u8>)
    requires
        printer.wf(),
        printer.idle(),
        printer.link == Link::Disconnected,
    ensures
        ({
            let (opening, first) = printer.start(Some(bytes), false);
            let (initializing, second) = opening.advance(Event::Opened);
            let (writing, third) = initializing.advance(Event::Written);
            let (after, last) = writing.advance(Event::Written);
            &&& first == ActionView::Open
            &&& second == ActionView::Write(init_bytes())
            &&& third == ActionView::Write(bytes)
            &&& last == ActionView::Done(Ok(()))
            &&& after == PrinterView { link: Link::Connected, ..printer }
        }),
{
}

/// Connecting a connected printer is done at once and changes nothing.
pub proof fn lemma_connect_is_idempotent(printer: PrinterView)
    requires
        printer.wf(),
        printer.idle(),
        printer.link == Link::Connected,
    ensures
        printer.start(None, false) == (printer, ActionView::Done(Ok(()))),
{
}

/// Connecting a disconnected printer opens the device and writes the
/// initialization sequence; a failure of either leaves it disconnected and
/// ends the attempt as not connected, with no second try.
pub proof fn lemma_connect_when_disconnected(printer: PrinterView)
    requires
        printer.wf(),
        printer.idle(),
        printer.link == Link::Disconnected,
    ensures
        ({
            let (opening, first) = printer.start(None, false);
            let (initializing, second) = opening.advance(Event::Opened);
            let (connected, third) = initializing.advance(Event::Written);
            &&& first == ActionView::Open
            &&& second == ActionView::Write(init_bytes())
            &&& third == ActionView::Done(Ok(()))
            &&& connected == PrinterView { link: Link::Connected, ..printer }
            &&& opening.advance(Event::Failed) == (
                printer,
                ActionView::Done(Err(PrintError::NotConnected)),
            )
            &&& initializing.advance(Event::Failed) == (
                printer,
                ActionView::Done(Err(PrintError::NotConnected)),
            )
        }),
{
}

/// The device is opened at the beginning of an operation or not at all: an
/// idle printer without a connection asks for it once, a connected one does
/// not, and no event is answered with another attempt.
pub proof fn lemma_one_reconnect_attempt(
    printer: PrinterView,
    payload: Option<Seq<u8>>,
    poll: bool,
    event: Event,
)
    ensures
        printer.start(payload, poll).1 is Open <==> printer.idle() && printer.link
            == Link::Disconnected,
        !(printer.advance(event).1 is Open),
        printer.phase == Phase::Opening && event != Event::Opened ==> printer.advance(
            event,
        ).1.is_final(),
{
}

/// A transport fault, in whatever state, ends the operation and gives up the
/// connection; the operation that follows has the device opened and the
/// initialization sequence written before its own bytes.
pub proof fn lemma_fault_forces_reconnect(
    printer: PrinterView,
    bytes: Seq<u8>,
    poll: bool,
)
    ensures
        ({
            let (failed, answer) = printer.advance(Event::Failed);
            let (opening, first) = failed.start(Some(bytes), poll);
            let (initializing, second) = opening.advance(Event::Opened);
            let (writing, third) = initializing.advance(Event::Written);
            &&& failed.idle()
            &&& failed.link == Link::Disconnected
            &&& answer == if printer.poll {
                ActionView::Status(PrinterStatus::PrinterNotConnected)
            } else {
                ActionView::Done(Err(PrintError::NotConnected))
            }
            &&& first == ActionView::Open
            &&& second == ActionView::Write(init_bytes())
            &&& third == ActionView::Write(bytes)
            &&& writing.link == Link::Connected
        }),
{
}

/// An operation ends in an error, or a poll in the status of a printer that
/// is not connected, only together with the loss of the connection; and the
/// only error that a step gives is `NotConnected`.
pub proof fn lemma_error_invalidates(printer: PrinterView, event: Event)
    requires
        printer.wf(),
    ensures
        ({
            let (next, action) = printer.advance(event);
            &&& action matches ActionView::Done(Err(error)) ==> {
                &&& error == PrintError::NotConnected
                &&& next.link == Link::Disconnected
                &&& next.idle()
            }
            &&& action == ActionView::Status(PrinterStatus::PrinterNotConnected) ==> {
                &&& next.link == Link::Disconnected
                &&& next.idle()
                &&& next.status == PrinterStatus::PrinterNotConnected
            }
            &&& (printer.link == Link::Connected && next.link == Link::Disconnected) ==> (action
                == ActionView::Done(Err(PrintError::NotConnected)) || action == ActionView::Status(
                PrinterStatus::PrinterNotConnected,
            ))
        }),
{
}

/// The connection changes in two ways only: it is made when the
/// initialization sequence has gone out to the device that was just opened,
/// and it is given up when an operation ends in a transport fault. Beginning
/// an operation never changes it.
pub proof fn lemma_link_transitions(
    printer: PrinterView,
    event: Event,
    payload: Option<Seq<u8>>,
    poll: bool,
)
    requires
        printer.wf(),
    ensures
        printer.start(payload, poll).0.link == printer.link,
        printer.link == Link::Disconnected && printer.advance(event).0.link == Link::Connected
            <==> printer.phase == Phase::Initializing && event == Event::Written,
        printer.link == Link::Connected && printer.advance(event).0.link == Link::Disconnected
            <==> printer.link == Link::Connected && printer.advance(event) == printer.fault(),
{
}

/// A poll on a connected printer writes the request and reads the reply; the
/// reply byte decides the status, which the printer keeps.
pub proof fn lemma_poll_reply(printer: PrinterView, request: Seq<u8>, reply: u8)
    requires
        printer.wf(),
        printer.idle(),
        printer.link == Link::Connected,
    ensures
        ({
            let (writing, first) = printer.start(Some(request), true);
            let (reading, second) = writing.advance(Event::Written);
            let (after, last) = reading.advance(Event::Reply(reply));
            &&& first == ActionView::Write(request)
            &&& second == ActionView::Read { pause_ms: STATUS_PAUSE_MS }
            &&& last == ActionView::Status(status_of_reply(reply))
            &&& after == PrinterView { status: status_of_reply(reply), ..printer }
        }),
{
}

/// A poll whose device cannot be opened sees the printer as not connected.
pub proof fn lemma_poll_open_failure(printer: PrinterView, request: Seq<u8>)
    requires
        printer.wf(),
        printer.idle(),
        printer.link == Link::Disconnected,
    ensures
        ({
            let (opening, first) = printer.start(Some(request), true);
            let (after, last) = opening.advance(Event::Failed);
            &&& first == ActionView::Open
            &&& last == ActionView::Status(PrinterStatus::PrinterNotConnected)
            &&& after == PrinterView { status: PrinterStatus::PrinterNotConnected, ..printer }
        }),
{
}

/// A read that finds nothing is followed by another read as long as fewer
/// than `STATUS_ATTEMPTS` reads have been made.
pub proof fn lemma_silence_is_retried(printer: PrinterView, count: nat)
    requires
        printer.wf(),
        printer.phase == Phase::Reading,
        printer.tries == 0,
        count < STATUS_ATTEMPTS,
    ensures
        after_silence(printer, count) == (PrinterView { tries: count, ..printer }),
        count + 1 < STATUS_ATTEMPTS ==> after_silence(printer, count).advance(Event::NoReply).1
            == (ActionView::Read { pause_ms: STATUS_PAUSE_MS }),
    decreases count,
{
    if count > 0 {
        lemma_silence_is_retried(printer, (count - 1) as nat);
    }
}

/// When `STATUS_ATTEMPTS` reads have found nothing the poll ends in a
/// timeout, with the connection and the status that was last seen kept.
pub proof fn lemma_silence_times_out(printer: PrinterView)
    requires
        printer.wf(),
        printer.phase == Phase::Reading,
        printer.tries == 0,
    ensures
        ({
            let (after, last) = after_silence(printer, (STATUS_ATTEMPTS - 1) as nat).advance(
                Event::NoReply,
            );
            &&& last == ActionView::ReplyTimeout
            &&& after.idle()
            &&& after.link == Link::Connected
            &&& after.status == printer.status
        }),
{
    lemma_silence_is_retried(printer, (STATUS_ATTEMPTS - 1) as nat);
}

/// The packed rows of an image have one byte for every eight dots of a row,
/// a last row byte for what is left over, and as many rows as the image.
pub proof fn lemma_raster_size(image: BitmapView)
    ensures
        raster_rows(image).len() == image.height * byte_width(image.width),
        image.width % 8 == 0 ==> byte_width(image.width) * 8 == image.width,
        image.width % 8 != 0 ==> (byte_width(image.width) - 1) * 8 + image.width % 8
            == image.width,
{
}

/// A byte whose eight dots are all inked is all ones.
pub proof fn lemma_inked_byte_is_full(image: BitmapView, row: int, k: int)
    requires
        forall|col: int| 8 * k <= col < 8 * k + 8 ==> #[trigger] image.dot(row, col) == 1,
    ensures
        image.packed_byte(row, k) == 0xFF,
{
    assert(image.dot(row, 8 * k) == 1);
    assert(image.dot(row, 8 * k + 1) == 1);
    assert(image.dot(row, 8 * k + 2) == 1);
    assert(image.dot(row, 8 * k + 3) == 1);
    assert(image.dot(row, 8 * k + 4) == 1);
    assert(image.dot(row, 8 * k + 5) == 1);
    assert(image.dot(row, 8 * k + 6) == 1);
    assert(image.dot(row, 8 * k + 7) == 1);
}

/// A byte none of whose dots is inked is zero.
pub proof fn lemma_blank_byte_is_zero(image: BitmapView, row: int, k: int)
    requires
        forall|col: int| 8 * k <= col < 8 * k + 8 ==> #[trigger] image.dot(row, col) == 0,
    ensures
        image.packed_byte(row, k) == 0,
{
    assert(image.dot(row, 8 * k) == 0);
    assert(image.dot(row, 8 * k + 1) == 0);
    assert(image.dot(row, 8 * k + 2) == 0);
    assert(image.dot(row, 8 * k + 3) == 0);
    assert(image.dot(row, 8 * k + 4) == 0);
    assert(image.dot(row, 8 * k + 5) == 0);
    assert(image.dot(row, 8 * k + 6) == 0);
    assert(image.dot(row, 8 * k + 7) == 0);
}

/// Where the width of an image is no multiple of eight, the last byte of
/// each row holds the `used` dots that are left over in its high bits and
/// zeros below them.
pub proof fn lemma_last_byte_is_padded(image: BitmapView, row: int, k: int, used: int)
    requires
        0 <= k,
        0 < used < 8,
        image.width == 8 * k + used,
    ensures
        k == byte_width(image.width) - 1,
        image.packed_byte(row, k) == image.partial_byte(row, k, used),
        image.packed_byte(row, k) % bit_weight(used - 1) == 0,
{
    reveal_with_fuel(BitmapView::partial_byte, 9);
    let byte: int = image.packed_byte(row, k);
    if used == 1 {
        assert(byte % 128 == 0);
    } else if used == 2 {
        assert(byte % 64 == 0);
    } else if used == 3 {
        assert(byte % 32 == 0);
    } else if used == 4 {
        assert(byte % 16 == 0);
    } else if used == 5 {
        assert(byte % 8 == 0);
    } else if used == 6 {
        assert(byte % 4 == 0);
    } else {
        assert(byte % 2 == 0);
    }
}

} // verus!
