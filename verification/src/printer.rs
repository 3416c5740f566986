//! The printer as a state machine that does no input or output itself.
//!
//! An operation is begun by one of the methods of `Printer`, which answers with
//! the first `Action` for the transport. Whoever drives the transport performs
//! the action and reports what came of it as an `Event` to `advance`, which
//! answers with the next action, until an action that ends the operation comes
//! back: `Done`, `Status` or `ReplyTimeout`.
//!
//! The machine holds what the protocol decides on: whether the device is
//! connected, which operation is in flight and how far it has come, and the
//! status that the last poll saw. One operation is in flight at a time: while
//! it is, every attempt to begin another is answered with `Busy` and changes
//! nothing.

use crate::command::Command;
use crate::encoding::{
    cut_payload, encode_cut_payload, encode_font_size, encode_form_feed, encode_init,
    encode_page, encode_position, encode_status_request, encode_text, font_size_bytes,
    form_feed_bytes, init_bytes, page_bytes, position_bytes, status_request_bytes,
    valid_font_size,
};
use crate::picture::{image_is_readable, image_size, image_view};
use crate::raster::{encode_image, image_bytes, is_readable, size_error, Bitmap};
use crate::status::{decode_status, status_of_reply, PrintError, PrinterStatus};
use image::DynamicImage;
use std::path::PathBuf;
use vstd::prelude::*;
use vstd::string::StringSliceAdditionalSpecFns;

verus! {

/// How often the read of a status reply is tried at most, the first read
/// counted.
pub const STATUS_ATTEMPTS: u8 = 10;

/// Pause before each read of a status reply, in milliseconds.
pub const STATUS_PAUSE_MS: u64 = 10;

/// Whether a transport handle is held.
#[derive(Clone, Copy, Debug, PartialEq, Eq, Structural)]
pub enum Link {
    Disconnected,
    Connected,
}

/// How far the operation in flight has come.
#[derive(Clone, Copy, Debug, PartialEq, Eq, Structural)]
pub enum Phase {
    /// No operation is in flight.
    Idle,
    /// The device is being opened.
    Opening,
    /// The initialization sequence is being written.
    Initializing,
    /// The bytes of the operation are being written.
    Writing,
    /// The status reply is being read.
    Reading,
}

/// What the transport reports back after an action.
#[derive(Clone, Copy, Debug, PartialEq, Eq, Structural)]
pub enum Event {
    /// The device was opened for reading and writing.
    Opened,
    /// All bytes of the last `Write` went out.
    Written,
    /// The read gave this byte.
    Reply(u8),
    /// The read found the end of the stream and no byte.
    NoReply,
    /// Opening, writing or reading failed.
    Failed,
}

/// `std::path::PathBuf`, the path of the device. The library keeps it and
/// hands it out and never looks inside it.
#[verifier::external_type_specification]
#[verifier::external_body]
pub struct ExPathBuf(std::path::PathBuf);

/// What the machine asks of the transport, or how the operation ended.
#[derive(Debug, PartialEq, Eq)]
pub enum Action {
    /// Open the device for reading and writing.
    Open,
    /// Write all of these bytes.
    Write(Vec<u8>),
    /// Pause for `pause_ms` milliseconds, then read exactly one byte.
    Read { pause_ms: u64 },
    /// The operation is over, with this result.
    Done(Result<(), PrintError>),
    /// The status poll is over, with this status.
    Status(PrinterStatus),
    /// The status poll is over: the request went out and none of the reads
    /// found a reply. The transport itself did not fail.
    ReplyTimeout,
    /// Another operation is in flight; nothing was begun.
    Busy,
}

/// An action with its bytes as a sequence.
pub enum ActionView {
    Open,
    Write(Seq<u8>),
    Read { pause_ms: u64 },
    Done(Result<(), PrintError>),
    Status(PrinterStatus),
    ReplyTimeout,
    Busy,
}

impl View for Action {
    type V = ActionView;

    open spec fn view(&self) -> ActionView {
        match *self {
            Action::Open => ActionView::Open,
            Action::Write(bytes) => ActionView::Write(bytes@),
            Action::Read { pause_ms } => ActionView::Read { pause_ms },
            Action::Done(result) => ActionView::Done(result),
            Action::Status(status) => ActionView::Status(status),
            Action::ReplyTimeout => ActionView::ReplyTimeout,
            Action::Busy => ActionView::Busy,
        }
    }
}

impl ActionView {
    /// Whether the action ends an operation.
    pub open spec fn is_final(self) -> bool {
        self is Done || self is Status || self is ReplyTimeout
    }
}

/// The state of the machine.
pub struct PrinterView {
    /// Where the device is found.
    pub path: PathBuf,
    /// Whether a transport handle is held.
    pub link: Link,
    /// The status that the last completed poll saw.
    pub status: PrinterStatus,
    /// How far the operation in flight has come.
    pub phase: Phase,
    /// The bytes of the operation in flight that have not been handed out yet.
    pub payload: Option<Seq<u8>>,
    /// Whether the operation in flight is a status poll.
    pub poll: bool,
    /// Reads of the status reply that found nothing so far.
    pub tries: nat,
}

impl PrinterView {
    /// A machine that was just made: disconnected, idle, no status seen yet.
    pub open spec fn initial(path: PathBuf) -> PrinterView {
        PrinterView {
            path,
            link: Link::Disconnected,
            status: PrinterStatus::PrinterNotConnected,
            phase: Phase::Idle,
            payload: None,
            poll: false,
            tries: 0,
        }
    }

    /// What holds of every state that the machine reaches.
    pub open spec fn wf(self) -> bool {
        &&& self.tries < STATUS_ATTEMPTS
        &&& match self.phase {
            Phase::Idle => self.payload is None && !self.poll && self.tries == 0,
            Phase::Opening => self.link == Link::Disconnected && self.tries == 0,
            Phase::Initializing => self.link == Link::Disconnected && self.tries == 0,
            Phase::Writing => self.link == Link::Connected && self.payload is None && self.tries
                == 0,
            Phase::Reading => self.link == Link::Connected && self.payload is None && self.poll,
        }
    }

    /// Whether no operation is in flight.
    pub open spec fn idle(self) -> bool {
        self.phase == Phase::Idle
    }

    /// The state with no operation in flight any more.
    pub open spec fn released(self) -> PrinterView {
        PrinterView { phase: Phase::Idle, payload: None, poll: false, tries: 0, ..self }
    }

    /// The end of an operation in a transport fault: the handle is given up,
    /// so that the next operation opens and initializes the device anew. A
    /// command fails as not connected; a poll sees the printer as not
    /// connected.
    pub open spec fn fault(self) -> (PrinterView, ActionView) {
        if self.poll {
            (
                PrinterView {
                    link: Link::Disconnected,
                    status: PrinterStatus::PrinterNotConnected,
                    ..self.released()
                },
                ActionView::Status(PrinterStatus::PrinterNotConnected),
            )
        } else {
            (
                PrinterView { link: Link::Disconnected, ..self.released() },
                ActionView::Done(Err(PrintError::NotConnected)),
            )
        }
    }

    /// The step of a connected machine that holds the transport: it hands out
    /// the bytes of the operation, or is done where there are none.
    pub open spec fn proceed(self) -> (PrinterView, ActionView) {
        match self.payload {
            Some(bytes) => (
                PrinterView { phase: Phase::Writing, payload: None, ..self },
                ActionView::Write(bytes),
            ),
            None => (self.released(), ActionView::Done(Ok(()))),
        }
    }

    /// Begins an operation that writes `payload`, if any, and then, for a
    /// poll, reads the reply.
    ///
    /// While another operation is in flight nothing changes. A connected
    /// machine goes straight to its bytes; a disconnected one first has the
    /// device opened.
    pub open spec fn start(self, payload: Option<Seq<u8>>, poll: bool) -> (
        PrinterView,
        ActionView,
    ) {
        if self.phase != Phase::Idle {
            (self, ActionView::Busy)
        } else if self.link == Link::Connected {
            PrinterView { payload, poll, tries: 0, ..self }.proceed()
        } else {
            (PrinterView { phase: Phase::Opening, payload, poll, tries: 0, ..self }, ActionView::Open)
        }
    }

    /// The step that an event brings about.
    ///
    /// An event that does not answer the action that was asked for counts as
    /// a transport fault, as `Failed` does.
    pub open spec fn advance(self, event: Event) -> (PrinterView, ActionView) {
        match (self.phase, event) {
            (Phase::Opening, Event::Opened) => (
                PrinterView { phase: Phase::Initializing, ..self },
                ActionView::Write(init_bytes()),
            ),
            (Phase::Initializing, Event::Written) => PrinterView {
                link: Link::Connected,
                ..self
            }.proceed(),
            (Phase::Writing, Event::Written) => if self.poll {
                (
                    PrinterView { phase: Phase::Reading, tries: 0, ..self },
                    ActionView::Read { pause_ms: STATUS_PAUSE_MS },
                )
            } else {
                (self.released(), ActionView::Done(Ok(())))
            },
            (Phase::Reading, Event::Reply(reply)) => (
                PrinterView { status: status_of_reply(reply), ..self.released() },
                ActionView::Status(status_of_reply(reply)),
            ),
            (Phase::Reading, Event::NoReply) => if self.tries + 1 < STATUS_ATTEMPTS {
                (
                    PrinterView { tries: self.tries + 1, ..self },
                    ActionView::Read { pause_ms: STATUS_PAUSE_MS },
                )
            } else {
                (self.released(), ActionView::ReplyTimeout)
            },
            _ => self.fault(),
        }
    }
}

/// The bytes of an optional payload.
spec fn payload_view(payload: Option<Vec<u8>>) -> Option<Seq<u8>> {
    match payload {
        Some(bytes) => Some(bytes@),
        None => None,
    }
}

/// The printer: where the device is found, whether it is connected, the
/// operation in flight and the status that the last poll saw.
#[derive(Debug)]
pub struct Printer {
    path: PathBuf,
    link: Link,
    status: PrinterStatus,
    phase: Phase,
    payload: Option<Vec<u8>>,
    poll: bool,
    tries: u8,
}

impl View for Printer {
    type V = PrinterView;

    closed spec fn view(&self) -> PrinterView {
        PrinterView {
            path: self.path,
            link: self.link,
            status: self.status,
            phase: self.phase,
            payload: payload_view(self.payload),
            poll: self.poll,
            tries: self.tries as nat,
        }
    }
}

impl Printer {
    /// A printer for the device at `path`: disconnected, idle, and not
    /// connected as far as its status goes.
    pub fn new(path: PathBuf) -> (printer: Printer)
        ensures
            printer@ == PrinterView::initial(path),
            printer@.wf(),
    {
        Printer {
            path,
            link: Link::Disconnected,
            status: PrinterStatus::PrinterNotConnected,
            phase: Phase::Idle,
            payload: None,
            poll: false,
            tries: 0,
        }
    }

    /// Where the device is found.
    pub fn path(&self) -> (path: &PathBuf)
        ensures
            *path == self@.path,
    {
        &self.path
    }

    /// The status that the last completed poll saw.
    pub fn status(&self) -> (status: PrinterStatus)
        ensures
            status == self@.status,
    {
        self.status
    }

    /// Whether a transport handle is held.
    pub fn is_connected(&self) -> (connected: bool)
        ensures
            connected == (self@.link == Link::Connected),
    {
        match self.link {
            Link::Connected => true,
            Link::Disconnected => false,
        }
    }

    /// Whether no operation is in flight.
    pub fn is_idle(&self) -> (idle: bool)
        ensures
            idle == self@.idle(),
    {
        match self.phase {
            Phase::Idle => true,
            _ => false,
        }
    }

    /// Ends the operation in flight.
    fn release(&mut self)
        ensures
            final(self)@ == old(self)@.released(),
    {
        self.phase = Phase::Idle;
        self.payload = None;
        self.poll = false;
        self.tries = 0;
    }

    /// Ends the operation in flight in a transport fault.
    fn fail(&mut self) -> (action: Action)
        ensures
            final(self)@ == old(self)@.fault().0,
            action@ == old(self)@.fault().1,
    {
        let poll: bool = self.poll;
        self.release();
        self.link = Link::Disconnected;
        if poll {
            self.status = PrinterStatus::PrinterNotConnected;
            Action::Status(PrinterStatus::PrinterNotConnected)
        } else {
            Action::Done(Err(PrintError::NotConnected))
        }
    }

    /// Hands out the bytes of the operation, or ends it where there are none.
    fn proceed(&mut self) -> (action: Action)
        ensures
            final(self)@ == old(self)@.proceed().0,
            action@ == old(self)@.proceed().1,
    {
        match self.payload.take() {
            Some(bytes) => {
                self.phase = Phase::Writing;
                Action::Write(bytes)
            },
            None => {
                self.release();
                Action::Done(Ok(()))
            },
        }
    }

    /// Begins an operation that writes `payload`, if any, and then, for a
    /// poll, reads the reply.
    fn start(&mut self, payload: Option<Vec<u8>>, poll: bool) -> (action: Action)
        ensures
            final(self)@ == old(self)@.start(payload_view(payload), poll).0,
            action@ == old(self)@.start(payload_view(payload), poll).1,
            old(self)@.wf() ==> final(self)@.wf(),
    {
        match self.phase {
            Phase::Idle => {},
            _ => {
                return Action::Busy;
            },
        }
        self.payload = payload;
        self.poll = poll;
        self.tries = 0;
        match self.link {
            Link::Connected => self.proceed(),
            Link::Disconnected => {
                self.phase = Phase::Opening;
                Action::Open
            },
        }
    }

    /// Takes what the transport reports of the last action and answers with
    /// the next one.
    ///
    /// After `Opened` the initialization sequence is written, after that the
    /// bytes of the operation, and after those, for a poll, the reply is
    /// read: at most `STATUS_ATTEMPTS` times, each after a pause, and when
    /// the last of them has found nothing the poll ends in `ReplyTimeout`
    /// with the connection kept. A reply ends the poll with the status it
    /// stands for, which the printer keeps. `Failed`, or an event that does
    /// not answer the last action, ends the operation as a transport fault
    /// and gives up the connection.
    pub fn advance(&mut self, event: Event) -> (action: Action)
        ensures
            final(self)@ == old(self)@.advance(event).0,
            action@ == old(self)@.advance(event).1,
            old(self)@.wf() ==> final(self)@.wf(),
    {
        match (self.phase, event) {
            (Phase::Opening, Event::Opened) => {
                self.phase = Phase::Initializing;
                Action::Write(encode_init())
            },
            (Phase::Initializing, Event::Written) => {
                self.link = Link::Connected;
                self.proceed()
            },
            (Phase::Writing, Event::Written) => {
                if self.poll {
                    self.phase = Phase::Reading;
                    self.tries = 0;
                    Action::Read { pause_ms: STATUS_PAUSE_MS }
                } else {
                    self.release();
                    Action::Done(Ok(()))
                }
            },
            (Phase::Reading, Event::Reply(reply)) => {
                let status: PrinterStatus = decode_status(reply);
                self.release();
                self.status = status;
                Action::Status(status)
            },
            (Phase::Reading, Event::NoReply) => {
                if self.tries < STATUS_ATTEMPTS - 1 {
                    self.tries = self.tries + 1;
                    Action::Read { pause_ms: STATUS_PAUSE_MS }
                } else {
                    self.release();
                    Action::ReplyTimeout
                }
            },
            _ => self.fail(),
        }
    }

    /// Begins a print command.
    ///
    /// A command that cannot be encoded is refused with its error and leaves
    /// the printer as it was. The image of the command, where it has one,
    /// must be one that the library reads; `try_begin` tests that.
    pub fn begin(&mut self, command: &Command) -> (action: Action)
        requires
            command.is_readable(),
        ensures
            match command@.payload() {
                Ok(bytes) => {
                    &&& final(self)@ == old(self)@.start(Some(bytes), false).0
                    &&& action@ == old(self)@.start(Some(bytes), false).1
                },
                Err(error) => {
                    &&& final(self)@ == old(self)@
                    &&& action@ == ActionView::Done(Err(error))
                },
            },
            old(self)@.wf() ==> final(self)@.wf(),
    {
        match command.encode() {
            Ok(bytes) => self.start(Some(bytes), false),
            Err(error) => Action::Done(Err(error)),
        }
    }

    /// Begins any print command as `begin` does, or answers `None` and
    /// leaves the printer as it was for a command with an image that the
    /// library does not read.
    pub fn try_begin(&mut self, command: &Command) -> (result: Option<Action>)
        ensures
            result is Some <==> command.is_readable(),
            result is None ==> final(self)@ == old(self)@,
            result matches Some(action) ==> match command@.payload() {
                Ok(bytes) => {
                    &&& final(self)@ == old(self)@.start(Some(bytes), false).0
                    &&& action@ == old(self)@.start(Some(bytes), false).1
                },
                Err(error) => {
                    &&& final(self)@ == old(self)@
                    &&& action@ == ActionView::Done(Err(error))
                },
            },
            old(self)@.wf() ==> final(self)@.wf(),
    {
        match command.try_encode() {
            Some(Ok(bytes)) => Some(self.start(Some(bytes), false)),
            Some(Err(error)) => Some(Action::Done(Err(error))),
            None => None,
        }
    }

    /// Begins a connection attempt. A connected printer is done at once.
    pub fn connect(&mut self) -> (action: Action)
        ensures
            final(self)@ == old(self)@.start(None, false).0,
            action@ == old(self)@.start(None, false).1,
            old(self)@.wf() ==> final(self)@.wf(),
    {
        self.start(None, false)
    }

    /// Begins the page-size command for a page of `width` by `height` dots.
    pub fn set_page(&mut self, width: u16, height: u16) -> (action: Action)
        ensures
            final(self)@ == old(self)@.start(Some(page_bytes(width, height)), false).0,
            action@ == old(self)@.start(Some(page_bytes(width, height)), false).1,
            old(self)@.wf() ==> final(self)@.wf(),
    {
        self.start(Some(encode_page(width, height)), false)
    }

    /// Begins the font-size command.
    ///
    /// A size that the device does not have is refused as `TooWide` and
    /// leaves the printer as it was.
    pub fn set_font_size(&mut self, size: u8) -> (action: Action)
        ensures
            valid_font_size(size) ==> {
                &&& final(self)@ == old(self)@.start(Some(font_size_bytes(size)), false).0
                &&& action@ == old(self)@.start(Some(font_size_bytes(size)), false).1
            },
            !valid_font_size(size) ==> {
                &&& final(self)@ == old(self)@
                &&& action@ == ActionView::Done(Err(PrintError::TooWide))
            },
            old(self)@.wf() ==> final(self)@.wf(),
    {
        match encode_font_size(size) {
            Ok(bytes) => self.start(Some(bytes), false),
            Err(error) => Action::Done(Err(error)),
        }
    }

    /// Begins the command that moves the cursor.
    pub fn set_position(&mut self, horizontal: u16, vertical: u16) -> (action: Action)
        ensures
            final(self)@ == old(self)@.start(
                Some(position_bytes(horizontal, vertical)),
                false,
            ).0,
            action@ == old(self)@.start(Some(position_bytes(horizontal, vertical)), false).1,
            old(self)@.wf() ==> final(self)@.wf(),
    {
        self.start(Some(encode_position(horizontal, vertical)), false)
    }

    /// Begins the form feed that prints the page.
    pub fn print_page(&mut self) -> (action: Action)
        ensures
            final(self)@ == old(self)@.start(Some(form_feed_bytes()), false).0,
            action@ == old(self)@.start(Some(form_feed_bytes()), false).1,
            old(self)@.wf() ==> final(self)@.wf(),
    {
        self.start(Some(encode_form_feed()), false)
    }

    /// Begins the raster-image command for an image of the `image` crate.
    ///
    /// An image that is too wide or too tall is refused with that error and
    /// leaves the printer as it was. The image must be one that the library
    /// reads; `try_print_image` tests that.
    pub fn print_image(&mut self, image: &DynamicImage) -> (action: Action)
        requires
            image_is_readable(*image),
        ensures
            match size_error(image_size(*image).0, image_size(*image).1) {
                Some(error) => {
                    &&& final(self)@ == old(self)@
                    &&& action@ == ActionView::Done(Err(error))
                },
                None => {
                    &&& final(self)@ == old(self)@.start(
                        Some(image_bytes(image_view(*image))),
                        false,
                    ).0
                    &&& action@ == old(self)@.start(
                        Some(image_bytes(image_view(*image))),
                        false,
                    ).1
                },
            },
            old(self)@.wf() ==> final(self)@.wf(),
    {
        match Bitmap::from_image(image) {
            Ok(bitmap) => self.print_bitmap(&bitmap),
            Err(error) => Action::Done(Err(error)),
        }
    }

    /// Begins the raster-image command for any image of the `image` crate as
    /// `print_image` does, or answers `None` and leaves the printer as it
    /// was for an image that the library does not read.
    pub fn try_print_image(&mut self, image: &DynamicImage) -> (result: Option<Action>)
        ensures
            result is Some <==> image_is_readable(*image),
            result is None ==> final(self)@ == old(self)@,
            result matches Some(action) ==> match size_error(
                image_size(*image).0,
                image_size(*image).1,
            ) {
                Some(error) => {
                    &&& final(self)@ == old(self)@
                    &&& action@ == ActionView::Done(Err(error))
                },
                None => {
                    &&& final(self)@ == old(self)@.start(
                        Some(image_bytes(image_view(*image))),
                        false,
                    ).0
                    &&& action@ == old(self)@.start(
                        Some(image_bytes(image_view(*image))),
                        false,
                    ).1
                },
            },
            old(self)@.wf() ==> final(self)@.wf(),
    {
        if is_readable(image) {
            Some(self.print_image(image))
        } else {
            None
        }
    }

    /// Begins the raster-image command for `image`.
    ///
    /// An image that is too wide or too tall is refused with that error and
    /// leaves the printer as it was.
    pub fn print_bitmap(&mut self, image: &Bitmap) -> (action: Action)
        ensures
            match size_error(image@.width, image@.height) {
                Some(error) => {
                    &&& final(self)@ == old(self)@
                    &&& action@ == ActionView::Done(Err(error))
                },
                None => {
                    &&& final(self)@ == old(self)@.start(Some(image_bytes(image@)), false).0
                    &&& action@ == old(self)@.start(Some(image_bytes(image@)), false).1
                },
            },
            old(self)@.wf() ==> final(self)@.wf(),
    {
        match encode_image(image) {
            Ok(bytes) => self.start(Some(bytes), false),
            Err(error) => Action::Done(Err(error)),
        }
    }

    /// Begins the cut: the font goes back to its smallest size, the banner
    /// is printed and the paper is severed.
    pub fn cut(&mut self) -> (action: Action)
        ensures
            final(self)@ == old(self)@.start(Some(cut_payload()), false).0,
            action@ == old(self)@.start(Some(cut_payload()), false).1,
            old(self)@.wf() ==> final(self)@.wf(),
    {
        self.start(Some(encode_cut_payload()), false)
    }

    /// Begins a status poll: the request is written and one reply byte read.
    pub fn get_status(&mut self) -> (action: Action)
        ensures
            final(self)@ == old(self)@.start(Some(status_request_bytes()), true).0,
            action@ == old(self)@.start(Some(status_request_bytes()), true).1,
            old(self)@.wf() ==> final(self)@.wf(),
    {
        self.start(Some(encode_status_request()), true)
    }

    /// Begins the writing of `text`, byte for byte.
    pub fn write(&mut self, text: &str) -> (action: Action)
        ensures
            final(self)@ == old(self)@.start(Some(text.spec_bytes()), false).0,
            action@ == old(self)@.start(Some(text.spec_bytes()), false).1,
            old(self)@.wf() ==> final(self)@.wf(),
    {
        self.start(Some(encode_text(text)), false)
    }
}

} // verus!
