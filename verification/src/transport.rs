//! The computing half of the device transport: identifying the peripheral,
//! interpreting the outcome of a timed read, and classifying read failures.
//!
//! The transport owns an open handle to the peripheral and performs raw
//! reads and writes; that half lives outside the library and hands this
//! module plain values (the bytes a read returned and how many of them,
//! the identifiers of an enumerated device).

use vstd::prelude::*;

use vstd::slice::slice_subrange;

use crate::codec::{decode, spec_decode, DecodeError, EncodeError};
use crate::record::Record;

verus! {

/// Vendor ID of the supported peripheral.
pub const TARGET_VENDOR_ID: u16 = 0x3434;

/// Product ID of the supported peripheral.
pub const TARGET_PRODUCT_ID: u16 = 0x0661;

/// Usage page of the supported peripheral's vendor interface.
pub const TARGET_USAGE_PAGE: u16 = 0xFF60;

/// Usage number of the supported peripheral's vendor interface.
pub const TARGET_USAGE: u16 = 0x61;

/// The identifiers by which a connected HID interface is matched.
#[derive(Clone, Copy, PartialEq, Eq, Structural, Debug)]
pub struct DeviceIds {
    pub vendor_id: u16,
    pub product_id: u16,
    pub usage_page: u16,
    pub usage: u16,
}

/// The identifiers of the peripheral this daemon drives.
pub fn target_device_ids() -> (ids: DeviceIds)
    ensures
        ids == (DeviceIds {
            vendor_id: TARGET_VENDOR_ID,
            product_id: TARGET_PRODUCT_ID,
            usage_page: TARGET_USAGE_PAGE,
            usage: TARGET_USAGE,
        }),
{
    DeviceIds {
        vendor_id: TARGET_VENDOR_ID,
        product_id: TARGET_PRODUCT_ID,
        usage_page: TARGET_USAGE_PAGE,
        usage: TARGET_USAGE,
    }
}

/// Whether an enumerated interface is the one to open: all four identifiers
/// must match.
pub fn matches_target(candidate: &DeviceIds, target: &DeviceIds) -> (m: bool)
    ensures
        m == (*candidate == *target),
{
    candidate.vendor_id == target.vendor_id && candidate.product_id == target.product_id
        && candidate.usage_page == target.usage_page && candidate.usage == target.usage
}

/// A lower-level I/O fault talking to the peripheral (device unplugged,
/// permission failure). Fatal to the current connection.
#[derive(Clone, PartialEq, Eq, Debug)]
pub struct TransportError {
    pub message: String,
}

/// Failure to find or open a matching peripheral. Drives the bounded
/// retry-with-backoff policy; never retried by the transport itself.
#[derive(Clone, PartialEq, Eq, Debug)]
pub enum ConnectError {
    /// HID enumeration found no interface with the target identifiers.
    NoMatchingDevice,
    /// The HID layer itself could not be initialized.
    ApiInit { message: String },
    /// A matching interface was found but could not be opened.
    OpenFailed { message: String },
}

/// Why a read brought no record.
#[derive(Clone, PartialEq, Eq, Debug)]
pub enum ReadError {
    /// An I/O fault; ends the connected session.
    Transport(TransportError),
    /// A frame arrived but did not decode; the corrupted frame is skipped
    /// and the session continues.
    Decode(DecodeError),
}

/// Why a write pushed no frame.
#[derive(Clone, PartialEq, Eq, Debug)]
pub enum WriteError {
    /// The record's payload would not fit the frame. Never produced for
    /// the defined variant set (`codec::lemma_record_always_fits`).
    Encode(EncodeError),
    /// An I/O fault; ends the connected session.
    Transport(TransportError),
}

/// What the bytes of one timed read mean: zero bytes within the timeout is
/// the no-data condition, not an error; anything else is one frame to
/// decode.
pub open spec fn spec_interpret_read(data: Seq<u8>) -> Result<Option<Record>, DecodeError> {
    if data.len() == 0 {
        Ok(None)
    } else {
        match spec_decode(data) {
            Ok(r) => Ok(Some(r)),
            Err(e) => Err(e),
        }
    }
}

/// Interpret the outcome of a timed read that filled `data[..size]`:
/// `Ok(None)` when the timeout elapsed with zero bytes read, the decoded
/// record when a full frame arrived, a decode error otherwise (e.g. a
/// truncated read).
pub fn interpret_read(data: &[u8], size: usize) -> (res: Result<Option<Record>, DecodeError>)
    requires
        size <= data@.len(),
    ensures
        res == spec_interpret_read(data@.subrange(0, size as int)),
{
    if size == 0 {
        return Ok(None);
    }
    let frame = slice_subrange(data, 0, size);
    match decode(frame) {
        Ok(r) => Ok(Some(r)),
        Err(e) => Err(e),
    }
}

/// How the session loop reacts to the outcome of one read.
#[derive(Clone, PartialEq, Eq, Debug)]
pub enum ReadStep {
    /// Nothing arrived within the timeout; poll again.
    Idle,
    /// A record arrived; dispatch it to the reconciliation loop.
    Dispatch(Record),
    /// A single corrupted frame; log it and keep the session.
    SkipFrame(DecodeError),
    /// A transport fault; end the connected session.
    EndSession(TransportError),
}

/// The session-loop disposition of a read outcome: only a transport-level
/// fault ends the connected session; no-data and decode failures keep it.
pub open spec fn spec_classify_read(res: Result<Option<Record>, ReadError>) -> ReadStep {
    match res {
        Ok(Some(r)) => ReadStep::Dispatch(r),
        Ok(None) => ReadStep::Idle,
        Err(ReadError::Decode(e)) => ReadStep::SkipFrame(e),
        Err(ReadError::Transport(t)) => ReadStep::EndSession(t),
    }
}

/// Decide what one read outcome does to the session (see
/// `spec_classify_read`).
pub fn classify_read(res: Result<Option<Record>, ReadError>) -> (step: ReadStep)
    ensures
        step == spec_classify_read(res),
{
    match res {
        Ok(Some(r)) => ReadStep::Dispatch(r),
        Ok(None) => ReadStep::Idle,
        Err(ReadError::Decode(e)) => ReadStep::SkipFrame(e),
        Err(ReadError::Transport(t)) => ReadStep::EndSession(t),
    }
}

} // verus!
