//! Byte sequences of the printer's command protocol.
//!
//! Every multi-byte integer goes on the wire low byte first.

use crate::status::PrintError;
use vstd::prelude::*;
use vstd::slice::slice_to_vec;
use vstd::string::StringSliceAdditionalSpecFns;

verus! {

/// Smallest font size the device accepts.
pub const MIN_FONT_SIZE: u8 = 1;

/// Largest font size the device accepts.
pub const MAX_FONT_SIZE: u8 = 8;

/// The two bytes of `value`, low byte first.
pub open spec fn le_bytes(value: u16) -> Seq<u8> {
    seq![(value % 256) as u8, (value / 256) as u8]
}

/// Sent once after the device has been opened.
pub open spec fn init_bytes() -> Seq<u8> {
    seq![0x1Bu8, 0x40u8]
}

/// Selects page mode and sets the print area to `width` by `height` dots.
pub open spec fn page_bytes(width: u16, height: u16) -> Seq<u8> {
    seq![0x1Bu8, 0x4Cu8, 0x1Bu8, 0x57u8, 0x00u8, 0x00u8, 0x00u8, 0x00u8] + le_bytes(width)
        + le_bytes(height)
}

/// Whether the device has a font of this size.
pub open spec fn valid_font_size(size: u8) -> bool {
    MIN_FONT_SIZE <= size <= MAX_FONT_SIZE
}

/// The scale byte of a font size: the same factor, one less than the size,
/// in the high and in the low nibble.
pub open spec fn font_scale(size: u8) -> int {
    0x11 * (size - 1)
}

/// Selects the character size.
pub open spec fn font_size_bytes(size: u8) -> Seq<u8> {
    seq![0x1Du8, 0x21u8, font_scale(size) as u8]
}

/// Moves the cursor to the absolute position (`horizontal`, `vertical`).
pub open spec fn position_bytes(horizontal: u16, vertical: u16) -> Seq<u8> {
    seq![0x1Bu8, 0x24u8] + le_bytes(horizontal) + seq![0x1Du8, 0x24u8] + le_bytes(vertical)
}

/// Prints the page that has been composed.
pub open spec fn form_feed_bytes() -> Seq<u8> {
    seq![0x0Cu8]
}

/// The line printed above the cut: "Akri Demo for KubeCon EU 2024".
pub open spec fn banner_bytes() -> Seq<u8> {
    seq![
        0x41u8, 0x6Bu8, 0x72u8, 0x69u8, 0x20u8,
        0x44u8, 0x65u8, 0x6Du8, 0x6Fu8, 0x20u8,
        0x66u8, 0x6Fu8, 0x72u8, 0x20u8,
        0x4Bu8, 0x75u8, 0x62u8, 0x65u8, 0x43u8, 0x6Fu8, 0x6Eu8, 0x20u8,
        0x45u8, 0x55u8, 0x20u8,
        0x32u8, 0x30u8, 0x32u8, 0x34u8,
    ]
}

/// Feeds, centres and prints the banner, feeds again and severs the paper.
pub open spec fn cut_bytes() -> Seq<u8> {
    seq![0x1Bu8, 0x4Au8, 40u8] + seq![0x1Bu8, 0x61u8, 1u8] + banner_bytes() + seq![
        0x1Bu8,
        0x4Au8,
        175u8,
    ] + seq![0x08u8, 0x56u8, 49u8]
}

/// What a cut puts on the wire: the font goes back to its smallest size, then
/// the cut sequence follows.
pub open spec fn cut_payload() -> Seq<u8> {
    font_size_bytes(MIN_FONT_SIZE) + cut_bytes()
}

/// Asks the device for its paper status; one byte comes back.
pub open spec fn status_request_bytes() -> Seq<u8> {
    seq![0x10u8, 0x04u8, 0x04u8]
}

/// Announces a raster image of `height` rows of `byte_width` bytes each.
pub open spec fn image_header_bytes(byte_width: u16, height: u16) -> Seq<u8> {
    seq![0x1Du8, 0x76u8, 0x30u8, 0x00u8] + le_bytes(byte_width) + le_bytes(height)
}

/// Appends the two bytes of `value`, low byte first.
fn push_le(bytes: &mut Vec<u8>, value: u16)
    ensures
        final(bytes)@ == old(bytes)@ + le_bytes(value),
{
    bytes.push((value % 256) as u8);
    bytes.push((value / 256) as u8);
}

/// The initialization sequence.
pub fn encode_init() -> (bytes: Vec<u8>)
    ensures
        bytes@ == init_bytes(),
{
    vec![0x1Bu8, 0x40u8]
}

/// The page-size command.
pub fn encode_page(width: u16, height: u16) -> (bytes: Vec<u8>)
    ensures
        bytes@ == page_bytes(width, height),
{
    let mut bytes: Vec<u8> = vec![0x1Bu8, 0x4Cu8, 0x1Bu8, 0x57u8, 0x00u8, 0x00u8, 0x00u8, 0x00u8];
    push_le(&mut bytes, width);
    push_le(&mut bytes, height);
    bytes
}

/// The font-size command, or `TooWide` for a size the device does not have.
pub fn encode_font_size(size: u8) -> (result: Result<Vec<u8>, PrintError>)
    ensures
        valid_font_size(size) ==> result is Ok && result->Ok_0@ == font_size_bytes(size),
        !valid_font_size(size) ==> result == Err::<Vec<u8>, PrintError>(PrintError::TooWide),
{
    if size < MIN_FONT_SIZE || size > MAX_FONT_SIZE {
        return Err(PrintError::TooWide);
    }
    Ok(font_size_command(size))
}

/// The font-size command for a size that the device has.
fn font_size_command(size: u8) -> (bytes: Vec<u8>)
    requires
        valid_font_size(size),
    ensures
        bytes@ == font_size_bytes(size),
{
    let scale: u8 = 0x11 * (size - 1);
    vec![0x1Du8, 0x21u8, scale]
}

/// The cursor-position command.
pub fn encode_position(horizontal: u16, vertical: u16) -> (bytes: Vec<u8>)
    ensures
        bytes@ == position_bytes(horizontal, vertical),
{
    let mut bytes: Vec<u8> = vec![0x1Bu8, 0x24u8];
    push_le(&mut bytes, horizontal);
    bytes.push(0x1D);
    bytes.push(0x24);
    push_le(&mut bytes, vertical);
    bytes
}

/// The form feed that prints the page.
pub fn encode_form_feed() -> (bytes: Vec<u8>)
    ensures
        bytes@ == form_feed_bytes(),
{
    vec![0x0Cu8]
}

/// The banner line.
fn encode_banner() -> (bytes: Vec<u8>)
    ensures
        bytes@ == banner_bytes(),
{
    vec![
        0x41u8, 0x6Bu8, 0x72u8, 0x69u8, 0x20u8,
        0x44u8, 0x65u8, 0x6Du8, 0x6Fu8, 0x20u8,
        0x66u8, 0x6Fu8, 0x72u8, 0x20u8,
        0x4Bu8, 0x75u8, 0x62u8, 0x65u8, 0x43u8, 0x6Fu8, 0x6Eu8, 0x20u8,
        0x45u8, 0x55u8, 0x20u8,
        0x32u8, 0x30u8, 0x32u8, 0x34u8,
    ]
}

/// The cut sequence.
pub fn encode_cut() -> (bytes: Vec<u8>)
    ensures
        bytes@ == cut_bytes(),
{
    let mut bytes: Vec<u8> = vec![0x1Bu8, 0x4Au8, 40u8, 0x1Bu8, 0x61u8, 1u8];
    let mut banner: Vec<u8> = encode_banner();
    bytes.append(&mut banner);
    let mut tail: Vec<u8> = vec![0x1Bu8, 0x4Au8, 175u8, 0x08u8, 0x56u8, 49u8];
    bytes.append(&mut tail);
    bytes
}

/// The font reset and the cut sequence.
pub fn encode_cut_payload() -> (bytes: Vec<u8>)
    ensures
        bytes@ == cut_payload(),
{
    let mut bytes: Vec<u8> = font_size_command(MIN_FONT_SIZE);
    let mut sequence: Vec<u8> = encode_cut();
    bytes.append(&mut sequence);
    bytes
}

/// The status request.
pub fn encode_status_request() -> (bytes: Vec<u8>)
    ensures
        bytes@ == status_request_bytes(),
{
    vec![0x10u8, 0x04u8, 0x04u8]
}

/// The bytes of `text` as they stand.
pub fn encode_text(text: &str) -> (bytes: Vec<u8>)
    ensures
        bytes@ == text.spec_bytes(),
{
    slice_to_vec(text.as_bytes())
}

/// The header of the raster-image command.
pub fn encode_image_header(byte_width: u16, height: u16) -> (bytes: Vec<u8>)
    ensures
        bytes@ == image_header_bytes(byte_width, height),
{
    let mut bytes: Vec<u8> = vec![0x1Du8, 0x76u8, 0x30u8, 0x00u8];
    push_le(&mut bytes, byte_width);
    push_le(&mut bytes, height);
    bytes
}

} // verus!
