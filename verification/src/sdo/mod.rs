//! The Service Data Object (SDO) protocol: server state machine, client-side
//! request builders and response parsers, and the abort-code catalogue.

pub mod client;
pub mod errors;
pub mod server;

pub use errors::SDOAbortCode;
pub use server::SdoServer;

use vstd::prelude::*;

verus! {

// Command specifiers, in the high three bits of byte 0 of every SDO frame.
pub const REQUEST_SEGMENT_DOWNLOAD: u8 = 0x00;

pub const REQUEST_DOWNLOAD: u8 = 0x20;

pub const REQUEST_UPLOAD: u8 = 0x40;

pub const REQUEST_SEGMENT_UPLOAD: u8 = 0x60;

pub const REQUEST_ABORTED: u8 = 0x80;

pub const RESPONSE_SEGMENT_UPLOAD: u8 = 0x00;

pub const RESPONSE_SEGMENT_DOWNLOAD: u8 = 0x20;

pub const RESPONSE_UPLOAD: u8 = 0x40;

pub const RESPONSE_DOWNLOAD: u8 = 0x60;

pub const RESPONSE_ABORTED: u8 = 0x80;

// Flag bits in byte 0 of initiate and segment frames.
pub const EXPEDITED: u8 = 0x2;

pub const SIZE_SPECIFIED: u8 = 0x1;

pub const NO_MORE_DATA: u8 = 0x1;

pub const TOGGLE_BIT: u8 = 0x10;

} // verus!
