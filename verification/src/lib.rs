//! Control core of a receipt printer.
//!
//! The library decides and never touches the device. `encoding` holds the
//! bytes of each command, `raster` packs an image into the rows of dots that
//! the device prints, `picture` reads images of the `image` crate, `status`
//! holds the status of the device and the errors of a print operation,
//! `command` the commands as values, and `printer` the state machine that
//! says when the device is opened, what is written to it and what is read
//! from it. `service` holds the rules of the print service in front of the
//! printer, and `laws` what is proved of the state machine and of the
//! rasterizer as a whole.

pub mod command;
pub mod encoding;
pub mod laws;
pub mod picture;
pub mod printer;
pub mod raster;
pub mod service;
pub mod status;
