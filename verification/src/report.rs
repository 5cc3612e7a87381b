//! The fixed-layout binary report the device delivers, and its parser.

use vstd::prelude::*;

verus! {

/// Length in bytes of one device report: four single-byte fields followed by
/// a 16-bit little-endian button bitmask.
pub const REPORT_LEN: usize = 6;

/// One snapshot of the device state, as decoded from a raw report.
///
/// * `id` identifies the device/report variant; the tracker's sentinel state
///   uses `0xFF`, real reports from the device carry `0`.
/// * `jog` is the absolute, signed deflection of the spring-centered jog
///   control (any signed 8-bit value is legal input).
/// * `wheel` is the position counter of the free-spinning shuttle ring; it
///   wraps modulo 256.
/// * `fill` is an uninterpreted padding byte, carried along verbatim.
/// * `keys` is a bitmask of button states: bit `k` set means button `k` is
///   currently held. Only bits 0..14 are ever inspected.
#[derive(Clone, Copy, Debug, PartialEq, Eq, Structural)]
pub struct ContourHidEvent {
    pub id: u8,
    pub jog: i8,
    pub wheel: u8,
    pub fill: u8,
    pub keys: u16,
}

/// The placeholder "previous report" a tracker holds before any real report
/// has been received. Its `id` of `0xFF` marks it as not coming from the
/// device itself.
pub open spec fn sentinel() -> ContourHidEvent {
    ContourHidEvent { id: 0xFF, jog: 0, wheel: 0, fill: 0, keys: 0 }
}

/// What a well-formed 6-byte record decodes to: the four single-byte fields
/// in order, then the button mask read little-endian from the last two bytes.
pub open spec fn report_of_bytes(data: Seq<u8>) -> ContourHidEvent
    recommends
        data.len() == REPORT_LEN,
{
    ContourHidEvent {
        id: data[0],
        jog: data[1] as i8,
        wheel: data[2],
        fill: data[3],
        keys: (data[4] + 256 * data[5]) as u16,
    }
}

/// Decodes one raw record into a report. Records of any length other than
/// `REPORT_LEN` are rejected; a record of the right length always decodes
/// (the fields are fixed-width, so no bit pattern is invalid).
pub fn parse_report(data: &[u8]) -> (r: Option<ContourHidEvent>)
    ensures
        data@.len() == REPORT_LEN ==> r == Some(report_of_bytes(data@)),
        data@.len() != REPORT_LEN ==> r is None,
{
    if data.len() != REPORT_LEN {
        return None;
    }
    let lo = data[4];
    let hi = data[5];
    let keys: u16 = (lo as u16) | ((hi as u16) << 8u16);
    proof {
        assert((lo as u16) | ((hi as u16) << 8u16) == lo + 256 * hi) by (bit_vector);
    }
    Some(ContourHidEvent {
        id: data[0],
        jog: #[verifier::truncate] (data[1] as i8),
        wheel: data[2],
        fill: data[3],
        keys,
    })
}

} // verus!
