use image::{DynamicImage, Rgba, RgbaImage};
use printer_service::command::Command;
use printer_service::printer::{Action, Event, Printer};
use printer_service::service::{
    is_online, on_poll, press, print_heart_page, Button, Reaction, Refusal, Status,
    MAX_NAME_LEN, POLL_PERIOD_SECS,
};
use printer_service::status::PrinterStatus;

fn picture(alpha: u8) -> DynamicImage {
    DynamicImage::ImageRgba8(RgbaImage::from_pixel(256, 256, Rgba([0, 0, 0, alpha])))
}

#[test]
fn first_button_toggles_play_and_pause() {
    let ready = PrinterStatus::Ready;
    assert_eq!(press(Status::Discard, Button::Key1, ready), Status::Pause);
    assert_eq!(press(Status::Pause, Button::Key1, ready), Status::Play);
    assert_eq!(press(Status::Play, Button::Key1, ready), Status::Pause);
}

#[test]
fn second_button_toggles_discard() {
    let ready = PrinterStatus::Ready;
    assert_eq!(press(Status::Discard, Button::Key2, ready), Status::Play);
    assert_eq!(press(Status::Pause, Button::Key2, ready), Status::Discard);
    assert_eq!(press(Status::Play, Button::Key2, ready), Status::Discard);
}

#[test]
fn buttons_do_nothing_while_the_printer_is_not_ready() {
    for printer in [
        PrinterStatus::PaperNearEnd,
        PrinterStatus::NoPaper,
        PrinterStatus::PrinterNotConnected,
    ] {
        for status in [Status::Play, Status::Pause, Status::Discard] {
            assert_eq!(press(status, Button::Key1, printer), status);
            assert_eq!(press(status, Button::Key2, printer), status);
        }
    }
}

#[test]
fn long_name_is_refused() {
    assert_eq!(MAX_NAME_LEN, 12);
    for status in [Status::Play, Status::Pause, Status::Discard] {
        assert_eq!(
            print_heart_page(status, "thirteen chars".to_string(), picture(0), picture(0)),
            Err(Refusal::NameTooBig)
        );
    }
    // Twelve characters that take thirteen bytes.
    assert_eq!(
        print_heart_page(Status::Play, "abcdefghijké".to_string(), picture(0), picture(0)),
        Err(Refusal::NameTooBig)
    );
}

#[test]
fn paused_service_refuses() {
    assert_eq!(
        print_heart_page(Status::Pause, "Ada".to_string(), picture(0), picture(0)),
        Err(Refusal::Paused)
    );
}

#[test]
fn discarding_service_sends_nothing() {
    assert_eq!(
        print_heart_page(Status::Discard, "Ada".to_string(), picture(0), picture(0)),
        Ok(Vec::new())
    );
}

#[test]
fn printing_service_sends_the_page() {
    let commands =
        print_heart_page(Status::Play, "Ada".to_string(), picture(255), picture(7)).unwrap();
    let expected = vec![
        Command::SetPage { width: 576, height: 656 },
        Command::SetFontSize { size: 4 },
        Command::SetPosition { horizontal: 216, vertical: 0xB8 },
        Command::Write { text: "Ada".to_string() },
        Command::SetPosition { horizontal: 304, vertical: 240 },
        Command::PrintImage { image: picture(255) },
        Command::SetPosition { horizontal: 16, vertical: 240 },
        Command::PrintImage { image: picture(7) },
        Command::PrintPage,
        Command::Cut,
    ];
    assert_eq!(commands, expected);
}

#[test]
fn name_moves_left_as_it_grows() {
    for (name, horizontal) in [("", 288u16), ("A", 264), ("abcdef", 144), ("abcdefghijkl", 0)] {
        let commands =
            print_heart_page(Status::Play, name.to_string(), picture(0), picture(0)).unwrap();
        assert_eq!(commands[2], Command::SetPosition { horizontal, vertical: 0xB8 });
        assert_eq!(commands[3], Command::Write { text: name.to_string() });
    }
}

#[test]
fn refusals_have_their_answers() {
    assert_eq!(Refusal::NameTooBig.response(), (400, "Name too big".to_string()));
    assert_eq!(Refusal::Paused.response(), (503, "Service paused".to_string()));
}

#[test]
fn unchanged_status_needs_nothing() {
    for printer in [
        PrinterStatus::Ready,
        PrinterStatus::PaperNearEnd,
        PrinterStatus::NoPaper,
        PrinterStatus::PrinterNotConnected,
    ] {
        for status in [Status::Play, Status::Pause, Status::Discard] {
            assert_eq!(
                on_poll(printer, Some(printer), status),
                Reaction { status, cut: false, refresh: false }
            );
        }
    }
}

#[test]
fn printer_that_became_ready_cuts() {
    for status in [Status::Play, Status::Pause, Status::Discard] {
        assert_eq!(
            on_poll(PrinterStatus::NoPaper, Some(PrinterStatus::Ready), status),
            Reaction { status, cut: true, refresh: true }
        );
    }
}

#[test]
fn printer_that_is_not_ready_pauses_printing() {
    assert_eq!(
        on_poll(PrinterStatus::Ready, Some(PrinterStatus::NoPaper), Status::Play),
        Reaction { status: Status::Pause, cut: false, refresh: true }
    );
    assert_eq!(
        on_poll(
            PrinterStatus::PaperNearEnd,
            Some(PrinterStatus::PrinterNotConnected),
            Status::Play
        ),
        Reaction { status: Status::Pause, cut: false, refresh: true }
    );
    assert_eq!(
        on_poll(PrinterStatus::Ready, Some(PrinterStatus::PaperNearEnd), Status::Discard),
        Reaction { status: Status::Discard, cut: false, refresh: true }
    );
    assert_eq!(
        on_poll(PrinterStatus::Ready, Some(PrinterStatus::NoPaper), Status::Pause),
        Reaction { status: Status::Pause, cut: false, refresh: true }
    );
}

#[test]
fn network_is_up_from_state_fifty() {
    assert!(!is_online(0));
    assert!(!is_online(49));
    assert!(is_online(50));
    assert!(is_online(70));
    assert_eq!(POLL_PERIOD_SECS, 2);
}

#[test]
fn every_command_of_a_page_encodes() {
    let commands =
        print_heart_page(Status::Play, "abcdefghijkl".to_string(), picture(255), picture(0))
            .unwrap();
    assert_eq!(commands.len(), 10);
    for command in &commands {
        assert!(command.encode().is_ok());
    }
}

#[test]
fn page_goes_over_the_wire_command_by_command() {
    let commands =
        print_heart_page(Status::Play, "Ada".to_string(), picture(255), picture(0)).unwrap();
    let mut printer = Printer::new(std::path::PathBuf::from("/dev/usb/lp0"));
    let mut wire: Vec<u8> = Vec::new();
    let mut opens = 0;
    for command in &commands {
        let mut action = printer.begin(command);
        loop {
            action = match action {
                Action::Open => {
                    opens += 1;
                    printer.advance(Event::Opened)
                }
                Action::Write(bytes) => {
                    wire.extend_from_slice(&bytes);
                    printer.advance(Event::Written)
                }
                last => {
                    assert_eq!(last, Action::Done(Ok(())));
                    break;
                }
            };
        }
        assert!(printer.is_idle());
    }
    assert_eq!(opens, 1);
    let mut expected: Vec<u8> = vec![0x1B, 0x40];
    for command in &commands {
        expected.extend_from_slice(&command.encode().unwrap());
    }
    assert_eq!(wire, expected);
    // Init, page, font, position and name come first.
    assert_eq!(
        &wire[..28],
        &[
            0x1B, 0x40, 0x1B, 0x4C, 0x1B, 0x57, 0x00, 0x00, 0x00, 0x00, 0x40, 0x02, 0x90, 0x02,
            0x1D, 0x21, 0x33, 0x1B, 0x24, 0xD8, 0x00, 0x1D, 0x24, 0xB8, 0x00, 0x41, 0x64, 0x61
        ]
    );
    // Two pictures of 256 rows of 32 bytes each, with their headers.
    let picture_bytes = 8 + 32 * 256;
    assert_eq!(wire.len(), 28 + 8 + picture_bytes + 8 + picture_bytes + 1 + 44);
    assert_eq!(&wire[28..36], &[0x1B, 0x24, 0x30, 0x01, 0x1D, 0x24, 0xF0, 0x00]);
    assert_eq!(&wire[36..44], &[0x1D, 0x76, 0x30, 0x00, 0x20, 0x00, 0x00, 0x01]);
    assert!(wire[44..36 + picture_bytes].iter().all(|byte| *byte == 0xFF));
}

#[test]
fn poll_without_reply_changes_nothing() {
    for printer in [
        PrinterStatus::Ready,
        PrinterStatus::PaperNearEnd,
        PrinterStatus::NoPaper,
        PrinterStatus::PrinterNotConnected,
    ] {
        for status in [Status::Play, Status::Pause, Status::Discard] {
            assert_eq!(
                on_poll(printer, None, status),
                Reaction { status, cut: false, refresh: false }
            );
        }
    }
}
