//! The print commands as values, and the bytes that each stands for.

use crate::encoding::{
    cut_payload, encode_cut_payload, encode_font_size, encode_form_feed, encode_page,
    encode_position, encode_text, font_size_bytes, form_feed_bytes, page_bytes, position_bytes,
    valid_font_size,
};
use crate::picture::{image_is_readable, image_view};
use crate::raster::{encode_image, image_bytes, is_readable, size_error, Bitmap, BitmapView};
use crate::status::PrintError;
use image::DynamicImage;
use vstd::prelude::*;
use vstd::utf8::encode_utf8;

verus! {

/// One command for the printer.
#[derive(Debug, PartialEq)]
pub enum Command {
    /// Select page mode with a print area of `width` by `height` dots.
    SetPage { width: u16, height: u16 },
    /// Select the character size, from 1 to 8.
    SetFontSize { size: u8 },
    /// Move the cursor.
    SetPosition { horizontal: u16, vertical: u16 },
    /// Print this text.
    Write { text: String },
    /// Print this image at the cursor.
    PrintImage { image: DynamicImage },
    /// Print the page that was composed.
    PrintPage,
    /// Print the banner and sever the paper.
    Cut,
}

/// A command with its text as characters and its image as the size and the
/// coverage that the rasterizer reads.
pub enum CommandView {
    SetPage { width: u16, height: u16 },
    SetFontSize { size: u8 },
    SetPosition { horizontal: u16, vertical: u16 },
    Write { text: Seq<char> },
    PrintImage { image: BitmapView },
    PrintPage,
    Cut,
}

impl View for Command {
    type V = CommandView;

    open spec fn view(&self) -> CommandView {
        match *self {
            Command::SetPage { width, height } => CommandView::SetPage { width, height },
            Command::SetFontSize { size } => CommandView::SetFontSize { size },
            Command::SetPosition { horizontal, vertical } => CommandView::SetPosition {
                horizontal,
                vertical,
            },
            Command::Write { text } => CommandView::Write { text: text@ },
            Command::PrintImage { image } => CommandView::PrintImage { image: image_view(image) },
            Command::PrintPage => CommandView::PrintPage,
            Command::Cut => CommandView::Cut,
        }
    }
}

impl CommandView {
    /// The bytes that the command puts on the wire, or why it cannot be sent:
    /// a font size that the device does not have is too wide, and so is an
    /// image of more dots in a row than the device prints; an image of more
    /// rows than the device prints is too tall.
    pub open spec fn payload(self) -> Result<Seq<u8>, PrintError> {
        match self {
            CommandView::SetPage { width, height } => Ok(page_bytes(width, height)),
            CommandView::SetFontSize { size } => if valid_font_size(size) {
                Ok(font_size_bytes(size))
            } else {
                Err(PrintError::TooWide)
            },
            CommandView::SetPosition { horizontal, vertical } => Ok(
                position_bytes(horizontal, vertical),
            ),
            CommandView::Write { text } => Ok(encode_utf8(text)),
            CommandView::PrintImage { image } => match size_error(image.width, image.height) {
                Some(error) => Err(error),
                None => Ok(image_bytes(image)),
            },
            CommandView::PrintPage => Ok(form_feed_bytes()),
            CommandView::Cut => Ok(cut_payload()),
        }
    }
}

impl Command {
    /// Whether the library reads the image of the command, where it has one.
    pub open spec fn is_readable(&self) -> bool {
        match *self {
            Command::PrintImage { image } => image_is_readable(image),
            _ => true,
        }
    }

    /// The bytes of the command, or the error that refuses it.
    ///
    /// The image of the command, where it has one, must be one that the
    /// library reads; `try_encode` tests that.
    pub fn encode(&self) -> (result: Result<Vec<u8>, PrintError>)
        requires
            self.is_readable(),
        ensures
            match self@.payload() {
                Ok(bytes) => result is Ok && result->Ok_0@ == bytes,
                Err(error) => result == Err::<Vec<u8>, PrintError>(error),
            },
    {
        match self {
            Command::SetPage { width, height } => Ok(encode_page(*width, *height)),
            Command::SetFontSize { size } => encode_font_size(*size),
            Command::SetPosition { horizontal, vertical } => Ok(
                encode_position(*horizontal, *vertical),
            ),
            Command::Write { text } => Ok(encode_text(text.as_str())),
            Command::PrintImage { image } => match Bitmap::from_image(image) {
                Ok(bitmap) => encode_image(&bitmap),
                Err(error) => Err(error),
            },
            Command::PrintPage => Ok(encode_form_feed()),
            Command::Cut => Ok(encode_cut_payload()),
        }
    }

    /// The bytes of any command or the error that refuses it, as `encode`
    /// gives them, or `None` for a command with an image that the library
    /// does not read.
    pub fn try_encode(&self) -> (result: Option<Result<Vec<u8>, PrintError>>)
        ensures
            result is Some <==> self.is_readable(),
            result matches Some(encoded) ==> match self@.payload() {
                Ok(bytes) => encoded is Ok && encoded->Ok_0@ == bytes,
                Err(error) => encoded == Err::<Vec<u8>, PrintError>(error),
            },
    {
        let readable: bool = match self {
            Command::PrintImage { image } => is_readable(image),
            _ => true,
        };
        if readable {
            Some(self.encode())
        } else {
            None
        }
    }
}

} // verus!
