//! The health report of the printer and the errors of a print operation.

use vstd::prelude::*;

verus! {

/// Health of the device as the last status poll saw it.
#[derive(Clone, Copy, Debug, PartialEq, Eq, Structural)]
pub enum PrinterStatus {
    Ready,
    PaperNearEnd,
    NoPaper,
    PrinterNotConnected,
}

/// Why a print operation did not go through.
#[derive(Clone, Copy, Debug, PartialEq, Eq, Structural)]
pub enum PrintError {
    TooWide,
    TooTall,
    NotConnected,
    Paused,
}

/// The answer of the print service to a request that failed at the printer:
/// the service is unavailable.
pub const SERVICE_UNAVAILABLE: u16 = 503;

impl PrintError {
    /// The error in words.
    pub open spec fn message_text(self) -> Seq<char> {
        match self {
            PrintError::TooWide => "Too wide to print"@,
            PrintError::TooTall => "Too tall to print"@,
            PrintError::NotConnected => "Printer not connected"@,
            PrintError::Paused => "Print paused"@,
        }
    }

    /// The error in words.
    pub fn message(&self) -> (text: String)
        ensures
            text@ == self.message_text(),
    {
        match self {
            PrintError::TooWide => "Too wide to print".to_owned(),
            PrintError::TooTall => "Too tall to print".to_owned(),
            PrintError::NotConnected => "Printer not connected".to_owned(),
            PrintError::Paused => "Print paused".to_owned(),
        }
    }

    /// What the print service answers to a request that ended in this error:
    /// the status code and the error in words.
    pub fn response(&self) -> (answer: (u16, String))
        ensures
            answer.0 == SERVICE_UNAVAILABLE,
            answer.1@ == self.message_text(),
    {
        (SERVICE_UNAVAILABLE, self.message())
    }
}

/// Reply bits that report an empty paper roll.
pub const NO_PAPER_MASK: u8 = 0x60;

/// Reply bits that report a paper roll close to its end.
pub const PAPER_NEAR_END_MASK: u8 = 0x0C;

/// What a status reply byte means.
pub open spec fn status_of_reply(reply: u8) -> PrinterStatus {
    if reply & NO_PAPER_MASK != 0 {
        PrinterStatus::NoPaper
    } else if reply & PAPER_NEAR_END_MASK != 0 {
        PrinterStatus::PaperNearEnd
    } else {
        PrinterStatus::Ready
    }
}

/// Decodes the single reply byte of a status request.
pub fn decode_status(reply: u8) -> (status: PrinterStatus)
    ensures
        status == status_of_reply(reply),
{
    if reply & NO_PAPER_MASK != 0 {
        PrinterStatus::NoPaper
    } else if reply & PAPER_NEAR_END_MASK != 0 {
        PrinterStatus::PaperNearEnd
    } else {
        PrinterStatus::Ready
    }
}

} // verus!
