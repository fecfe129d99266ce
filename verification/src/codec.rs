//! Report codec: turns a raw byte buffer into a validated layer-status
//! report, or rejects it.

use vstd::prelude::*;
use crate::{RAW_APP_ID_ZQ, RAW_REPORT_TYPE_LAYER, RAW_REPORT_VERSION};

verus! {

/// A decoded layer-status report.
///
/// Only [`parse_layer_report`] constructs one, and only from a buffer that
/// passed validation, so every value satisfies [`LayerReport::wf`].
pub struct LayerReport {
    /// Protocol version, copied from byte 1 of the buffer.
    pub version: u8,
    /// Highest currently active layer, copied from byte 3.
    pub highest_layer: u8,
    /// Bitmask of active layers: bit `i` set means layer `i` is active
    /// (layers 0 through 7 only, intentionally limited).
    pub mask: u8,
    /// The original buffer the report was decoded from.
    pub raw: Vec<u8>,
}

/// The fixed wire shape of a layer-status report: at least five bytes,
/// with the three-byte header {application id, version, report type}.
pub open spec fn report_shape_ok(bytes: Seq<u8>) -> bool {
    &&& bytes.len() >= 5
    &&& bytes[0] == RAW_APP_ID_ZQ
    &&& bytes[1] == RAW_REPORT_VERSION
    &&& bytes[2] == RAW_REPORT_TYPE_LAYER
}

impl LayerReport {
    /// A report is well formed when its fields are exactly the ones decoded
    /// from its own raw buffer, and that buffer passes validation.
    pub open spec fn wf(self) -> bool {
        &&& report_shape_ok(self.raw@)
        &&& self.version == self.raw@[1]
        &&& self.highest_layer == self.raw@[3]
        &&& self.mask == self.raw@[4]
    }
}

/// Decodes a raw buffer into a layer-status report.
///
/// Returns `None` exactly when the buffer is shorter than five bytes or its
/// three-byte header does not match; on success the fields are taken from
/// bytes 1, 3 and 4 and the whole buffer is kept as `raw`.
pub fn parse_layer_report(data: &[u8]) -> (r: Option<LayerReport>)
    ensures
        r is Some <==> report_shape_ok(data@),
        r matches Some(rep) ==> rep.wf() && rep.raw@ == data@,
{
    if data.len() < 5 {
        return None;
    }
    if data[0] != RAW_APP_ID_ZQ || data[1] != RAW_REPORT_VERSION || data[2] != RAW_REPORT_TYPE_LAYER {
        return None;
    }
    Some(LayerReport {
        version: data[1],
        highest_layer: data[3],
        mask: data[4],
        raw: vstd::slice::slice_to_vec(data),
    })
}

} // verus!
