use printer_service::command::Command;
use printer_service::encoding::{encode_cut_payload, encode_page};
use printer_service::printer::{Action, Event, Printer, STATUS_ATTEMPTS, STATUS_PAUSE_MS};
use std::path::{Path, PathBuf};
use printer_service::raster::Bitmap;
use printer_service::status::{PrintError, PrinterStatus};

/// A transport that keeps what was written and fails where it is told to.
struct Wire {
    opens: usize,
    written: Vec<u8>,
    writes: usize,
    reads: usize,
    pauses: Vec<u64>,
    fail_open: bool,
    fail_write: Option<usize>,
    fail_read: bool,
    silent_reads: usize,
    reply: Option<u8>,
}

fn wire() -> Wire {
    Wire {
        opens: 0,
        written: Vec::new(),
        writes: 0,
        reads: 0,
        pauses: Vec::new(),
        fail_open: false,
        fail_write: None,
        fail_read: false,
        silent_reads: 0,
        reply: None,
    }
}

fn perform(wire: &mut Wire, action: &Action) -> Event {
    match action {
        Action::Open => {
            wire.opens += 1;
            if wire.fail_open {
                Event::Failed
            } else {
                Event::Opened
            }
        }
        Action::Write(bytes) => {
            let index = wire.writes;
            wire.writes += 1;
            if wire.fail_write == Some(index) {
                Event::Failed
            } else {
                wire.written.extend_from_slice(bytes);
                Event::Written
            }
        }
        Action::Read { pause_ms } => {
            wire.pauses.push(*pause_ms);
            wire.reads += 1;
            if wire.fail_read {
                Event::Failed
            } else if wire.reads <= wire.silent_reads {
                Event::NoReply
            } else {
                match wire.reply {
                    Some(byte) => Event::Reply(byte),
                    None => Event::NoReply,
                }
            }
        }
        _ => unreachable!(),
    }
}

/// Performs actions on the wire until the operation is over.
fn drive(printer: &mut Printer, first: Action, wire: &mut Wire) -> Action {
    let mut action = first;
    loop {
        match action {
            Action::Open | Action::Write(_) | Action::Read { .. } => {
                let event = perform(wire, &action);
                action = printer.advance(event);
            }
            last => return last,
        }
    }
}

fn connected() -> Printer {
    let mut printer = Printer::new(PathBuf::from("/dev/usb/lp0"));
    let mut wire = wire();
    let first = printer.connect();
    assert_eq!(drive(&mut printer, first, &mut wire), Action::Done(Ok(())));
    assert!(printer.is_connected());
    printer
}

#[test]
fn new_printer_is_disconnected_and_idle() {
    let printer = Printer::new(PathBuf::from("/dev/usb/lp0"));
    assert_eq!(printer.path().as_path(), Path::new("/dev/usb/lp0"));
    assert!(!printer.is_connected());
    assert!(printer.is_idle());
    assert_eq!(printer.status(), PrinterStatus::PrinterNotConnected);
}

#[test]
fn connect_opens_and_initializes() {
    let mut printer = Printer::new(PathBuf::from("/dev/usb/lp0"));
    let mut wire = wire();
    assert_eq!(printer.connect(), Action::Open);
    assert!(!printer.is_idle());
    assert_eq!(printer.advance(Event::Opened), Action::Write(vec![0x1B, 0x40]));
    assert!(!printer.is_connected());
    assert_eq!(printer.advance(Event::Written), Action::Done(Ok(())));
    assert!(printer.is_connected());
    assert!(printer.is_idle());
    let again = printer.connect();
    assert_eq!(again, Action::Done(Ok(())));
    assert_eq!(drive(&mut printer, again, &mut wire), Action::Done(Ok(())));
    assert_eq!(wire.opens, 0);
    assert_eq!(wire.writes, 0);
    assert!(printer.is_connected());
}

#[test]
fn connect_fails_when_the_device_does_not_open() {
    let mut printer = Printer::new(PathBuf::from("/dev/usb/lp0"));
    let mut wire = wire();
    wire.fail_open = true;
    let first = printer.connect();
    assert_eq!(
        drive(&mut printer, first, &mut wire),
        Action::Done(Err(PrintError::NotConnected))
    );
    assert_eq!(wire.opens, 1);
    assert_eq!(wire.writes, 0);
    assert!(!printer.is_connected());
    assert!(printer.is_idle());
}

#[test]
fn connect_fails_when_the_init_write_fails() {
    let mut printer = Printer::new(PathBuf::from("/dev/usb/lp0"));
    let mut wire = wire();
    wire.fail_write = Some(0);
    let first = printer.connect();
    assert_eq!(
        drive(&mut printer, first, &mut wire),
        Action::Done(Err(PrintError::NotConnected))
    );
    assert_eq!(wire.opens, 1);
    assert!(wire.written.is_empty());
    assert!(!printer.is_connected());
}

#[test]
fn first_command_connects_before_it_writes() {
    let mut printer = Printer::new(PathBuf::from("/dev/usb/lp0"));
    let mut wire = wire();
    let first = printer.set_page(576, 656);
    assert_eq!(first, Action::Open);
    assert_eq!(drive(&mut printer, first, &mut wire), Action::Done(Ok(())));
    assert_eq!(wire.opens, 1);
    let mut expected = vec![0x1B, 0x40];
    expected.extend_from_slice(&encode_page(576, 656));
    assert_eq!(wire.written, expected);
    assert!(printer.is_connected());
    assert!(printer.is_idle());
}

#[test]
fn connected_command_writes_only_its_bytes() {
    let mut printer = connected();
    let mut wire = wire();
    let first = printer.set_position(304, 240);
    assert_eq!(drive(&mut printer, first, &mut wire), Action::Done(Ok(())));
    assert_eq!(wire.opens, 0);
    assert_eq!(wire.written, vec![0x1B, 0x24, 0x30, 0x01, 0x1D, 0x24, 0xF0, 0x00]);
    let first = printer.print_page();
    assert_eq!(drive(&mut printer, first, &mut wire), Action::Done(Ok(())));
    assert_eq!(wire.written, vec![0x1B, 0x24, 0x30, 0x01, 0x1D, 0x24, 0xF0, 0x00, 0x0C]);
}

#[test]
fn font_size_goes_out_scaled() {
    for size in 1u8..=8 {
        let mut printer = connected();
        let mut wire = wire();
        let first = printer.set_font_size(size);
        assert_eq!(first, Action::Write(vec![0x1D, 0x21, 0x11 * (size - 1)]));
        assert_eq!(drive(&mut printer, first, &mut wire), Action::Done(Ok(())));
        assert_eq!(wire.written, vec![0x1D, 0x21, 0x11 * (size - 1)]);
    }
}

#[test]
fn font_size_out_of_range_does_no_io() {
    for size in [0u8, 9, 10, 200, 255] {
        let mut printer = Printer::new(PathBuf::from("/dev/usb/lp0"));
        let mut wire = wire();
        let first = printer.set_font_size(size);
        assert_eq!(first, Action::Done(Err(PrintError::TooWide)));
        assert_eq!(
            drive(&mut printer, first, &mut wire),
            Action::Done(Err(PrintError::TooWide))
        );
        assert_eq!(wire.opens, 0);
        assert_eq!(wire.writes, 0);
        assert!(printer.is_idle());
        assert!(!printer.is_connected());
    }
    let mut printer = connected();
    assert_eq!(printer.set_font_size(9), Action::Done(Err(PrintError::TooWide)));
    assert!(printer.is_connected());
    assert!(printer.is_idle());
}

#[test]
fn image_too_wide_does_no_io() {
    let mut printer = Printer::new(PathBuf::from("/dev/usb/lp0"));
    let image = Bitmap::new(1025, 1, vec![255; 1025]).unwrap();
    assert_eq!(printer.print_bitmap(&image), Action::Done(Err(PrintError::TooWide)));
    assert!(printer.is_idle());
    assert!(!printer.is_connected());
    let mut printer = connected();
    assert_eq!(printer.print_bitmap(&image), Action::Done(Err(PrintError::TooWide)));
    assert!(printer.is_idle());
    assert!(printer.is_connected());
}

#[test]
fn image_too_tall_does_no_io() {
    let mut printer = connected();
    let image = Bitmap::new(1, 4096, vec![255; 4096]).unwrap();
    assert_eq!(printer.print_bitmap(&image), Action::Done(Err(PrintError::TooTall)));
    assert!(printer.is_idle());
    assert!(printer.is_connected());
}

#[test]
fn image_goes_out_with_its_header() {
    let mut printer = connected();
    let mut wire = wire();
    let image = Bitmap::new(9, 1, vec![255; 9]).unwrap();
    let first = printer.print_bitmap(&image);
    assert_eq!(drive(&mut printer, first, &mut wire), Action::Done(Ok(())));
    assert_eq!(
        wire.written,
        vec![0x1D, 0x76, 0x30, 0x00, 0x02, 0x00, 0x01, 0x00, 0xFF, 0x80]
    );
}

#[test]
fn cut_resets_the_font_and_cuts() {
    let mut printer = connected();
    let mut wire = wire();
    let first = printer.cut();
    assert_eq!(drive(&mut printer, first, &mut wire), Action::Done(Ok(())));
    let mut expected: Vec<u8> = vec![0x1D, 0x21, 0x00, 0x1B, 0x4A, 0x28, 0x1B, 0x61, 0x01];
    expected.extend_from_slice("Akri Demo for KubeCon EU 2024".as_bytes());
    expected.extend_from_slice(&[0x1B, 0x4A, 0xAF, 0x08, 0x56, 0x31]);
    assert_eq!(wire.written, expected);
    assert_eq!(wire.written, encode_cut_payload());
}

#[test]
fn text_goes_on_the_wire_as_it_is() {
    let mut printer = connected();
    let mut wire = wire();
    let first = printer.write("Zoë");
    assert_eq!(drive(&mut printer, first, &mut wire), Action::Done(Ok(())));
    assert_eq!(wire.written, "Zoë".as_bytes());
    let mut wire2 = self::wire();
    let first = printer.write("");
    assert_eq!(first, Action::Write(Vec::new()));
    assert_eq!(drive(&mut printer, first, &mut wire2), Action::Done(Ok(())));
    assert!(wire2.written.is_empty());
}

#[test]
fn write_failure_gives_up_the_connection() {
    let mut printer = connected();
    let mut wire = wire();
    wire.fail_write = Some(0);
    let first = printer.set_page(576, 656);
    assert_eq!(
        drive(&mut printer, first, &mut wire),
        Action::Done(Err(PrintError::NotConnected))
    );
    assert!(!printer.is_connected());
    assert!(printer.is_idle());
    assert!(wire.written.is_empty());
}

#[test]
fn after_a_write_failure_the_next_operation_reconnects() {
    let mut printer = connected();
    let mut wire = wire();
    wire.fail_write = Some(0);
    let first = printer.print_page();
    assert_eq!(
        drive(&mut printer, first, &mut wire),
        Action::Done(Err(PrintError::NotConnected))
    );
    assert_eq!(wire.opens, 0);

    let mut wire = self::wire();
    let first = printer.set_font_size(2);
    assert_eq!(first, Action::Open);
    assert_eq!(printer.advance(perform(&mut wire, &first)), Action::Write(vec![0x1B, 0x40]));
    let second = Action::Write(vec![0x1B, 0x40]);
    let third = printer.advance(perform(&mut wire, &second));
    assert_eq!(third, Action::Write(vec![0x1D, 0x21, 0x11]));
    assert_eq!(printer.advance(perform(&mut wire, &third)), Action::Done(Ok(())));
    assert_eq!(wire.opens, 1);
    assert_eq!(wire.written, vec![0x1B, 0x40, 0x1D, 0x21, 0x11]);
    assert!(printer.is_connected());
}

#[test]
fn a_failed_reconnect_is_not_tried_twice() {
    let mut printer = Printer::new(PathBuf::from("/dev/usb/lp0"));
    let mut wire = wire();
    wire.fail_open = true;
    let first = printer.cut();
    assert_eq!(
        drive(&mut printer, first, &mut wire),
        Action::Done(Err(PrintError::NotConnected))
    );
    assert_eq!(wire.opens, 1);
    let first = printer.cut();
    assert_eq!(
        drive(&mut printer, first, &mut wire),
        Action::Done(Err(PrintError::NotConnected))
    );
    assert_eq!(wire.opens, 2);
    assert_eq!(wire.writes, 0);
}

#[test]
fn status_replies_are_decoded() {
    for (reply, status) in [
        (0x60u8, PrinterStatus::NoPaper),
        (0x0C, PrinterStatus::PaperNearEnd),
        (0x00, PrinterStatus::Ready),
    ] {
        let mut printer = connected();
        let mut wire = wire();
        wire.reply = Some(reply);
        let first = printer.get_status();
        assert_eq!(first, Action::Write(vec![0x10, 0x04, 0x04]));
        assert_eq!(drive(&mut printer, first, &mut wire), Action::Status(status));
        assert_eq!(wire.written, vec![0x10, 0x04, 0x04]);
        assert_eq!(wire.reads, 1);
        assert_eq!(wire.pauses, vec![10]);
        assert_eq!(printer.status(), status);
        assert!(printer.is_idle());
        assert!(printer.is_connected());
    }
}

#[test]
fn status_of_a_device_that_does_not_open_is_not_connected() {
    let mut printer = Printer::new(PathBuf::from("/dev/usb/lp0"));
    let mut wire = wire();
    wire.fail_open = true;
    let first = printer.get_status();
    assert_eq!(
        drive(&mut printer, first, &mut wire),
        Action::Status(PrinterStatus::PrinterNotConnected)
    );
    assert_eq!(wire.writes, 0);
    assert_eq!(wire.reads, 0);
    assert_eq!(printer.status(), PrinterStatus::PrinterNotConnected);
}

#[test]
fn status_request_failure_gives_up_the_connection() {
    let mut printer = connected();
    let mut wire = wire();
    wire.reply = Some(0);
    let first = printer.get_status();
    assert_eq!(drive(&mut printer, first, &mut wire), Action::Status(PrinterStatus::Ready));
    assert_eq!(printer.status(), PrinterStatus::Ready);

    let mut wire = self::wire();
    wire.fail_write = Some(0);
    let first = printer.get_status();
    assert_eq!(
        drive(&mut printer, first, &mut wire),
        Action::Status(PrinterStatus::PrinterNotConnected)
    );
    assert!(!printer.is_connected());
    assert_eq!(printer.status(), PrinterStatus::PrinterNotConnected);
    assert_eq!(wire.reads, 0);
}

#[test]
fn status_read_failure_gives_up_the_connection() {
    let mut printer = connected();
    let mut wire = wire();
    wire.fail_read = true;
    let first = printer.get_status();
    assert_eq!(
        drive(&mut printer, first, &mut wire),
        Action::Status(PrinterStatus::PrinterNotConnected)
    );
    assert!(!printer.is_connected());
    assert!(printer.is_idle());
    assert_eq!(wire.reads, 1);
}

#[test]
fn status_read_is_tried_again() {
    assert_eq!(STATUS_ATTEMPTS, 10);
    assert_eq!(STATUS_PAUSE_MS, 10);
    let mut printer = connected();
    let mut wire = wire();
    wire.silent_reads = 9;
    wire.reply = Some(0x0C);
    let first = printer.get_status();
    assert_eq!(
        drive(&mut printer, first, &mut wire),
        Action::Status(PrinterStatus::PaperNearEnd)
    );
    assert_eq!(wire.reads, 10);
    assert_eq!(wire.pauses, vec![10; 10]);
    assert!(printer.is_connected());
}

#[test]
fn status_read_gives_up_after_ten_reads() {
    let mut printer = connected();
    let mut wire = wire();
    wire.reply = Some(0x00);
    let first = printer.get_status();
    assert_eq!(drive(&mut printer, first, &mut wire), Action::Status(PrinterStatus::Ready));

    let mut wire = self::wire();
    wire.reply = None;
    let first = printer.get_status();
    assert_eq!(drive(&mut printer, first, &mut wire), Action::ReplyTimeout);
    assert_eq!(wire.reads, 10);
    assert_eq!(wire.pauses.iter().sum::<u64>(), 100);
    assert!(printer.is_connected());
    assert!(printer.is_idle());
    assert_eq!(printer.status(), PrinterStatus::Ready);

    let mut wire = self::wire();
    wire.reply = Some(0x60);
    let first = printer.get_status();
    assert_eq!(first, Action::Write(vec![0x10, 0x04, 0x04]));
    assert_eq!(drive(&mut printer, first, &mut wire), Action::Status(PrinterStatus::NoPaper));
    assert_eq!(wire.opens, 0);
}

#[test]
fn reply_after_the_last_read_comes_too_late() {
    let mut printer = connected();
    let mut wire = wire();
    wire.silent_reads = 10;
    wire.reply = Some(0x0C);
    let first = printer.get_status();
    assert_eq!(drive(&mut printer, first, &mut wire), Action::ReplyTimeout);
    assert_eq!(wire.reads, 10);
    assert_eq!(printer.status(), PrinterStatus::PrinterNotConnected);
}

#[test]
fn command_failure_keeps_the_status_that_was_seen() {
    let mut printer = connected();
    let mut wire = wire();
    wire.reply = Some(0x0C);
    let first = printer.get_status();
    assert_eq!(
        drive(&mut printer, first, &mut wire),
        Action::Status(PrinterStatus::PaperNearEnd)
    );
    let mut wire = self::wire();
    wire.fail_write = Some(0);
    let first = printer.print_page();
    assert_eq!(
        drive(&mut printer, first, &mut wire),
        Action::Done(Err(PrintError::NotConnected))
    );
    assert_eq!(printer.status(), PrinterStatus::PaperNearEnd);
}

#[test]
fn second_operation_waits_for_the_first() {
    let mut printer = Printer::new(PathBuf::from("/dev/usb/lp0"));
    let mut wire = wire();
    let first = printer.set_font_size(4);
    assert_eq!(first, Action::Open);
    assert_eq!(printer.cut(), Action::Busy);
    assert_eq!(printer.get_status(), Action::Busy);
    let second = printer.advance(perform(&mut wire, &first));
    assert_eq!(second, Action::Write(vec![0x1B, 0x40]));
    assert_eq!(printer.write("between"), Action::Busy);
    assert_eq!(printer.connect(), Action::Busy);
    let third = printer.advance(perform(&mut wire, &second));
    assert_eq!(third, Action::Write(vec![0x1D, 0x21, 0x33]));
    assert_eq!(printer.set_page(1, 1), Action::Busy);
    assert_eq!(printer.print_page(), Action::Busy);
    assert_eq!(printer.set_position(1, 1), Action::Busy);
    assert_eq!(printer.advance(perform(&mut wire, &third)), Action::Done(Ok(())));
    assert_eq!(wire.written, vec![0x1B, 0x40, 0x1D, 0x21, 0x33]);

    let first = printer.write("after");
    assert_eq!(drive(&mut printer, first, &mut wire), Action::Done(Ok(())));
    let mut expected = vec![0x1B, 0x40, 0x1D, 0x21, 0x33];
    expected.extend_from_slice("after".as_bytes());
    assert_eq!(wire.written, expected);
}

#[test]
fn poll_does_not_cut_into_a_command() {
    let mut printer = connected();
    let mut wire = wire();
    wire.reply = Some(0);
    let first = printer.cut();
    assert_eq!(printer.get_status(), Action::Busy);
    assert_eq!(drive(&mut printer, first, &mut wire), Action::Done(Ok(())));
    let poll = printer.get_status();
    assert_eq!(printer.cut(), Action::Busy);
    assert_eq!(drive(&mut printer, poll, &mut wire), Action::Status(PrinterStatus::Ready));
    let mut expected = encode_cut_payload();
    expected.extend_from_slice(&[0x10, 0x04, 0x04]);
    assert_eq!(wire.written, expected);
}

#[test]
fn validation_comes_before_the_busy_answer() {
    let mut printer = Printer::new(PathBuf::from("/dev/usb/lp0"));
    assert_eq!(printer.print_page(), Action::Open);
    assert_eq!(printer.set_font_size(9), Action::Done(Err(PrintError::TooWide)));
    assert_eq!(printer.set_font_size(8), Action::Busy);
    assert!(!printer.is_idle());
}

#[test]
fn event_without_an_operation_is_a_fault() {
    let mut printer = connected();
    assert_eq!(
        printer.advance(Event::Written),
        Action::Done(Err(PrintError::NotConnected))
    );
    assert!(!printer.is_connected());
    assert!(printer.is_idle());
}

#[test]
fn event_that_does_not_answer_is_a_fault() {
    let mut printer = Printer::new(PathBuf::from("/dev/usb/lp0"));
    assert_eq!(printer.print_page(), Action::Open);
    assert_eq!(
        printer.advance(Event::Reply(0)),
        Action::Done(Err(PrintError::NotConnected))
    );
    assert!(printer.is_idle());
    assert!(!printer.is_connected());

    let mut printer = connected();
    assert_eq!(printer.get_status(), Action::Write(vec![0x10, 0x04, 0x04]));
    assert_eq!(
        printer.advance(Event::Opened),
        Action::Status(PrinterStatus::PrinterNotConnected)
    );
    assert!(!printer.is_connected());
}

#[test]
fn begin_takes_a_command_value() {
    let mut printer = connected();
    let mut wire = wire();
    let first = printer.begin(&Command::SetPage { width: 576, height: 656 });
    assert_eq!(drive(&mut printer, first, &mut wire), Action::Done(Ok(())));
    assert_eq!(wire.written, encode_page(576, 656));
    assert_eq!(
        printer.begin(&Command::SetFontSize { size: 0 }),
        Action::Done(Err(PrintError::TooWide))
    );
    let tall = image::DynamicImage::new_luma8(0, 4096);
    assert_eq!(
        printer.begin(&Command::PrintImage { image: tall }),
        Action::Done(Err(PrintError::TooTall))
    );
    assert!(printer.is_idle());
    assert!(printer.is_connected());
}

#[test]
fn path_is_kept_as_it_is() {
    let path = PathBuf::from("/dev/usb/../usb/./lp 0");
    let printer = Printer::new(path.clone());
    assert_eq!(printer.path(), &path);
    assert_eq!(printer.path().as_os_str(), path.as_os_str());
}

#[test]
fn try_begin_takes_every_command_without_an_image() {
    let mut printer = connected();
    assert_eq!(printer.try_begin(&Command::PrintPage), Some(Action::Write(vec![0x0C])));
    assert_eq!(printer.try_begin(&Command::Cut), Some(Action::Busy));
    assert_eq!(printer.advance(Event::Written), Action::Done(Ok(())));
    assert_eq!(
        printer.try_begin(&Command::SetFontSize { size: 9 }),
        Some(Action::Done(Err(PrintError::TooWide)))
    );
}
