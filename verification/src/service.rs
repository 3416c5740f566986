//! The rules of the print service that stands in front of the printer: when a
//! request is printed, held back or thrown away, what a printed page holds,
//! what the two buttons do and what follows from a change of the printer's
//! status.

use crate::command::{Command, CommandView};
use crate::picture::image_view;
use crate::raster::{size_error, BitmapView};
use crate::status::{PrinterStatus, SERVICE_UNAVAILABLE};
use image::DynamicImage;
use vstd::prelude::*;
use vstd::string::StringSliceAdditionalSpecFns;
use vstd::utf8::encode_utf8;

verus! {

/// Longest name that fits on a page, in bytes.
pub const MAX_NAME_LEN: usize = 12;

/// Width of the page, in dots.
pub const PAGE_WIDTH: u16 = 576;

/// Height of the page, in dots.
pub const PAGE_HEIGHT: u16 = 656;

/// Font size of the name.
pub const NAME_FONT_SIZE: u8 = 4;

/// Vertical position of the name.
pub const NAME_LINE: u16 = 0xB8;

/// Horizontal space that the name gives up for each byte it is shorter than
/// the longest name.
pub const NAME_INDENT: u16 = 24;

/// Width and height of each of the two pictures.
pub const PICTURE_SIZE: u16 = 256;

/// Space between a picture and the edge of the page.
pub const PICTURE_MARGIN: u16 = 16;

/// Vertical position of the two pictures.
pub const PICTURE_LINE: u16 = 240;

/// Seconds between two polls of the printer's status.
pub const POLL_PERIOD_SECS: u64 = 2;

/// The least state that the network manager reports when the network is up.
pub const NETWORK_UP: u32 = 50;

/// The answer to a request that the service cannot make sense of.
pub const BAD_REQUEST: u16 = 400;

/// What the service does with a print request.
#[derive(Clone, Copy, Debug, PartialEq, Eq, Structural)]
pub enum Status {
    /// Requests are printed.
    Play,
    /// Requests are refused.
    Pause,
    /// Requests are accepted and thrown away.
    Discard,
}

/// The two buttons of the device.
#[derive(Clone, Copy, Debug, PartialEq, Eq, Structural)]
pub enum Button {
    Key1,
    Key2,
}

/// Why a print request is refused.
#[derive(Clone, Copy, Debug, PartialEq, Eq, Structural)]
pub enum Refusal {
    /// The name is longer than fits on the page.
    NameTooBig,
    /// The service is paused.
    Paused,
}

/// What follows from a poll of the printer's status.
#[derive(Clone, Copy, Debug, PartialEq, Eq, Structural)]
pub struct Reaction {
    /// The status of the service from now on.
    pub status: Status,
    /// Whether the paper is cut.
    pub cut: bool,
    /// Whether the displays are drawn anew.
    pub refresh: bool,
}

/// The status of the service after a button was pressed.
///
/// The first button toggles between printing and pausing, and leaves
/// discarding for pausing. The second button toggles discarding, which it
/// leaves for printing.
pub open spec fn status_after(status: Status, button: Button) -> Status {
    match (button, status) {
        (Button::Key1, Status::Discard) => Status::Pause,
        (Button::Key1, Status::Pause) => Status::Play,
        (Button::Key1, Status::Play) => Status::Pause,
        (Button::Key2, Status::Discard) => Status::Play,
        (Button::Key2, Status::Pause) => Status::Discard,
        (Button::Key2, Status::Play) => Status::Discard,
    }
}

/// The horizontal position of a name of `len` bytes: a shorter name starts
/// further to the right.
pub open spec fn name_position(len: nat) -> int {
    (MAX_NAME_LEN - len) * NAME_INDENT
}

/// The commands that print a page: the name, the picture that was asked for
/// on the right, the heart on the left, and the cut.
pub open spec fn heart_page(name: Seq<char>, picture: BitmapView, heart: BitmapView) -> Seq<
    CommandView,
> {
    seq![
        CommandView::SetPage { width: PAGE_WIDTH, height: PAGE_HEIGHT },
        CommandView::SetFontSize { size: NAME_FONT_SIZE },
        CommandView::SetPosition {
            horizontal: name_position(encode_utf8(name).len()) as u16,
            vertical: NAME_LINE,
        },
        CommandView::Write { text: name },
        CommandView::SetPosition {
            horizontal: (PAGE_WIDTH - PICTURE_SIZE - PICTURE_MARGIN) as u16,
            vertical: PICTURE_LINE,
        },
        CommandView::PrintImage { image: picture },
        CommandView::SetPosition { horizontal: PICTURE_MARGIN, vertical: PICTURE_LINE },
        CommandView::PrintImage { image: heart },
        CommandView::PrintPage,
        CommandView::Cut,
    ]
}

/// What becomes of a print request for `name`: the commands to send, none
/// where the request is thrown away, or the refusal.
pub open spec fn page_request(
    status: Status,
    name: Seq<char>,
    picture: BitmapView,
    heart: BitmapView,
) -> Result<Seq<CommandView>, Refusal> {
    if encode_utf8(name).len() > MAX_NAME_LEN {
        Err(Refusal::NameTooBig)
    } else {
        match status {
            Status::Pause => Err(Refusal::Paused),
            Status::Discard => Ok(Seq::empty()),
            Status::Play => Ok(heart_page(name, picture, heart)),
        }
    }
}

/// What follows from a poll that came after the status `seen`. A poll that
/// found no reply, or the status that was seen before, changes nothing.
/// After any other the displays are drawn anew; a printer that has become
/// ready cuts the paper, one that is not ready pauses a service that was
/// printing.
pub open spec fn reaction(seen: PrinterStatus, polled: Option<PrinterStatus>, status: Status) -> Reaction {
    if polled is None || polled == Some(seen) {
        Reaction { status, cut: false, refresh: false }
    } else if polled == Some(PrinterStatus::Ready) {
        Reaction { status, cut: true, refresh: true }
    } else if status == Status::Play {
        Reaction { status: Status::Pause, cut: false, refresh: true }
    } else {
        Reaction { status, cut: false, refresh: true }
    }
}

/// Every command of a page is one that the printer takes, as long as the
/// name fits and neither picture is larger than the device prints; and the
/// name never starts beyond the room that the longest name takes.
pub proof fn lemma_heart_page_is_printable(
    name: Seq<char>,
    picture: BitmapView,
    heart: BitmapView,
)
    requires
        encode_utf8(name).len() <= MAX_NAME_LEN,
        size_error(picture.width, picture.height) is None,
        size_error(heart.width, heart.height) is None,
    ensures
        heart_page(name, picture, heart).len() == 10,
        forall|i: int|
            0 <= i < 10 ==> (#[trigger] heart_page(name, picture, heart)[i]).payload() is Ok,
        0 <= name_position(encode_utf8(name).len()) <= MAX_NAME_LEN * NAME_INDENT,
{
    let len: nat = encode_utf8(name).len();
    assert(0 <= name_position(len) <= MAX_NAME_LEN * NAME_INDENT) by (nonlinear_arith)
        requires
            0 <= len <= MAX_NAME_LEN,
            name_position(len) == (MAX_NAME_LEN - len) * NAME_INDENT,
    ;
}

impl Refusal {
    /// The refusal in words.
    pub open spec fn message_text(self) -> Seq<char> {
        match self {
            Refusal::NameTooBig => "Name too big"@,
            Refusal::Paused => "Service paused"@,
        }
    }

    /// The status code that answers the refused request.
    pub open spec fn status_code(self) -> u16 {
        match self {
            Refusal::NameTooBig => BAD_REQUEST,
            Refusal::Paused => SERVICE_UNAVAILABLE,
        }
    }

    /// What the service answers to the refused request: the status code and
    /// the refusal in words.
    pub fn response(&self) -> (answer: (u16, String))
        ensures
            answer.0 == self.status_code(),
            answer.1@ == self.message_text(),
    {
        match self {
            Refusal::NameTooBig => (BAD_REQUEST, "Name too big".to_owned()),
            Refusal::Paused => (SERVICE_UNAVAILABLE, "Service paused".to_owned()),
        }
    }
}

/// The status of the service after `button` was pressed while the printer
/// was in the status `printer`: a printer that is not ready leaves the
/// service as it is.
pub fn press(status: Status, button: Button, printer: PrinterStatus) -> (next: Status)
    ensures
        next == if printer == PrinterStatus::Ready {
            status_after(status, button)
        } else {
            status
        },
{
    match printer {
        PrinterStatus::Ready => {},
        _ => {
            return status;
        },
    }
    match button {
        Button::Key1 => match status {
            Status::Discard => Status::Pause,
            Status::Pause => Status::Play,
            Status::Play => Status::Pause,
        },
        Button::Key2 => match status {
            Status::Discard => Status::Play,
            Status::Pause => Status::Discard,
            Status::Play => Status::Discard,
        },
    }
}

/// Decides on a print request for `name` with the picture that was asked
/// for and the heart.
///
/// A name of more than `MAX_NAME_LEN` bytes is refused, whatever the status
/// of the service. A paused service refuses, a discarding one accepts and
/// sends nothing, a printing one sends the page.
pub fn print_heart_page(
    status: Status,
    name: String,
    picture: DynamicImage,
    heart: DynamicImage,
) -> (result: Result<Vec<Command>, Refusal>)
    ensures
        match page_request(status, name@, image_view(picture), image_view(heart)) {
            Ok(commands) => {
                &&& result is Ok
                &&& result->Ok_0@.len() == commands.len()
                &&& forall|i: int|
                    0 <= i < commands.len() ==> (#[trigger] result->Ok_0@[i])@ == commands[i]
            },
            Err(refusal) => result == Err::<Vec<Command>, Refusal>(refusal),
        },
{
    let len: usize = name.as_str().as_bytes().len();
    if len > MAX_NAME_LEN {
        return Err(Refusal::NameTooBig);
    }
    match status {
        Status::Pause => Err(Refusal::Paused),
        Status::Discard => {
            Ok(Vec::new())
        },
        Status::Play => {
            let room: u16 = (MAX_NAME_LEN - len) as u16;
            assert(room * NAME_INDENT == name_position(len as nat)) by (nonlinear_arith)
                requires
                    room == MAX_NAME_LEN - len,
            ;
            let horizontal: u16 = room * NAME_INDENT;
            let mut commands: Vec<Command> = Vec::new();
            commands.push(Command::SetPage { width: PAGE_WIDTH, height: PAGE_HEIGHT });
            commands.push(Command::SetFontSize { size: NAME_FONT_SIZE });
            commands.push(Command::SetPosition { horizontal, vertical: NAME_LINE });
            commands.push(Command::Write { text: name });
            commands.push(
                Command::SetPosition {
                    horizontal: PAGE_WIDTH - PICTURE_SIZE - PICTURE_MARGIN,
                    vertical: PICTURE_LINE,
                },
            );
            commands.push(Command::PrintImage { image: picture });
            commands.push(
                Command::SetPosition { horizontal: PICTURE_MARGIN, vertical: PICTURE_LINE },
            );
            commands.push(Command::PrintImage { image: heart });
            commands.push(Command::PrintPage);
            commands.push(Command::Cut);
            Ok(commands)
        },
    }
}

/// Decides what follows from a poll that came after the status `seen`:
/// `polled` is the status that it found, or `None` where no reply came.
pub fn on_poll(seen: PrinterStatus, polled: Option<PrinterStatus>, status: Status) -> (result:
    Reaction)
    ensures
        result == reaction(seen, polled, status),
{
    match polled {
        None => Reaction { status, cut: false, refresh: false },
        Some(found) => {
            if seen == found {
                return Reaction { status, cut: false, refresh: false };
            }
            match found {
                PrinterStatus::Ready => Reaction { status, cut: true, refresh: true },
                _ => match status {
                    Status::Play => Reaction { status: Status::Pause, cut: false, refresh: true },
                    _ => Reaction { status, cut: false, refresh: true },
                },
            }
        },
    }
}

/// Whether the network manager's state says that the network is up.
pub fn is_online(network_state: u32) -> (online: bool)
    ensures
        online == (network_state >= NETWORK_UP),
{
    network_state >= NETWORK_UP
}

} // verus!
