//! Device matcher: selects, from a fresh enumeration snapshot, the first
//! device that matches the target specification.

use vstd::prelude::*;
use crate::format::{
    dec_rep, format_wchar_raw, hex4, i32_to_dec, int_rep, opt_string_debug, opt_string_field,
    u32_to_hex4, u64_to_dec, wchar_field,
};
use crate::settings::HidSettings;

verus! {

/// The bus a device hangs off, as far as the backend can tell.
#[derive(Clone, Copy, Debug, PartialEq, Eq, Structural)]
pub enum BusKind {
    Unknown,
    Usb,
    Bluetooth,
    I2c,
    Spi,
}

/// A read-only snapshot record for one physically present HID device.
///
/// Produced fresh on each enumeration, never mutated. The string fields may
/// be absent on some platforms or backends; the raw fields hold the
/// untranslated wide-character data for diagnostics. A backend that cannot
/// report usage information leaves `usage` and `usage_page` both zero.
pub struct DeviceRecord {
    pub vendor_id: u16,
    pub product_id: u16,
    pub usage_page: u16,
    pub usage: u16,
    /// Host-specific identifier used to open the device.
    pub path: String,
    pub interface_number: i32,
    pub release_number: u16,
    pub bus: BusKind,
    pub manufacturer: Option<String>,
    pub product: Option<String>,
    pub serial: Option<String>,
    pub manufacturer_raw: Option<Vec<u32>>,
    pub product_raw: Option<Vec<u32>>,
    pub serial_raw: Option<Vec<u32>>,
}

/// Whether one candidate matches the target: vendor and product ids must
/// equal the target's, and usage compatibility must hold. When the backend
/// reports neither usage nor usage page (both zero), usage compatibility is
/// assumed; otherwise both must equal the target's.
pub open spec fn device_matches(d: DeviceRecord, target: HidSettings) -> bool {
    &&& d.vendor_id == target.vendor_id
    &&& d.product_id == target.product_id
    &&& {
        if d.usage == 0 && d.usage_page == 0 {
            true
        } else {
            d.usage == target.usage && d.usage_page == target.usage_page
        }
    }
}

/// Index of the first matching candidate at or after position `i`.
pub open spec fn first_match_from(devices: Seq<DeviceRecord>, target: HidSettings, i: int) -> Option<int>
    decreases devices.len() - i,
{
    if i < 0 || i >= devices.len() {
        None
    } else if device_matches(devices[i], target) {
        Some(i)
    } else {
        first_match_from(devices, target, i + 1)
    }
}

/// Index of the first matching candidate in enumeration order, if any.
pub open spec fn spec_select(devices: Seq<DeviceRecord>, target: HidSettings) -> Option<int> {
    first_match_from(devices, target, 0)
}

/// Skipping a prefix without a match does not change the selection.
proof fn lemma_no_match_advance(devices: Seq<DeviceRecord>, target: HidSettings, i: int, k: int)
    requires
        0 <= i <= k <= devices.len(),
        forall|j: int| i <= j < k ==> !device_matches(devices[j], target),
    ensures
        first_match_from(devices, target, i) == first_match_from(devices, target, k),
    decreases k - i,
{
    if i < k {
        assert(!device_matches(devices[i], target));
        lemma_no_match_advance(devices, target, i + 1, k);
    }
}

/// The selected index is in range, matches, and nothing before it matches;
/// and a selection exists exactly when some candidate matches.
pub proof fn lemma_select_characterisation(devices: Seq<DeviceRecord>, target: HidSettings)
    ensures
        spec_select(devices, target) matches Some(i) ==> {
            &&& 0 <= i < devices.len()
            &&& device_matches(devices[i], target)
            &&& forall|j: int| 0 <= j < i ==> !device_matches(devices[j], target)
        },
        spec_select(devices, target) is None <==> (forall|j: int|
            0 <= j < devices.len() ==> !device_matches(devices[j], target)),
{
    lemma_first_match_characterisation(devices, target, 0);
}

proof fn lemma_first_match_characterisation(devices: Seq<DeviceRecord>, target: HidSettings, i: int)
    requires
        0 <= i <= devices.len(),
    ensures
        first_match_from(devices, target, i) matches Some(k) ==> {
            &&& i <= k < devices.len()
            &&& device_matches(devices[k], target)
            &&& forall|j: int| i <= j < k ==> !device_matches(devices[j], target)
        },
        first_match_from(devices, target, i) is None <==> (forall|j: int|
            i <= j < devices.len() ==> !device_matches(devices[j], target)),
    decreases devices.len() - i,
{
    if i < devices.len() && !device_matches(devices[i], target) {
        lemma_first_match_characterisation(devices, target, i + 1);
    }
}

/// Selects the single best-matching device from a fresh enumeration
/// snapshot: the first candidate, in enumeration order, that matches the
/// target; none when no candidate matches. The snapshot must be produced
/// anew for every call, since devices appear and disappear between polls.
pub fn select_device(devices: &Vec<DeviceRecord>, target: &HidSettings) -> (r: Option<usize>)
    ensures
        match r {
            Some(i) => spec_select(devices@, *target) == Some(i as int),
            None => spec_select(devices@, *target) is None,
        },
{
    let n = devices.len();
    let mut k: usize = 0;
    while k < n
        invariant
            n == devices@.len(),
            0 <= k <= n,
            forall|j: int| 0 <= j < k ==> !device_matches(devices@[j], *target),
        decreases n - k,
    {
        let d = &devices[k];
        let usage_ok = if d.usage == 0 && d.usage_page == 0 {
            // Some backends (e.g. Linux hidraw) cannot expose usage
            // information; fall back to a vendor/product match alone.
            true
        } else {
            d.usage == target.usage && d.usage_page == target.usage_page
        };
        if d.vendor_id == target.vendor_id && d.product_id == target.product_id && usage_ok {
            proof {
                lemma_no_match_advance(devices@, *target, 0, k as int);
            }
            return Some(k);
        }
        k = k + 1;
    }
    proof {
        lemma_no_match_advance(devices@, *target, 0, n as int);
    }
    None
}

/// Usage fallback law: a candidate whose backend reports neither usage nor
/// usage page, and whose vendor and product ids equal the target's, matches
/// every such target, whatever usage the target asks for; offered alone, it
/// is always the one selected.
pub proof fn lemma_usage_fallback(d: DeviceRecord, target: HidSettings)
    requires
        d.usage == 0,
        d.usage_page == 0,
        d.vendor_id == target.vendor_id,
        d.product_id == target.product_id,
    ensures
        device_matches(d, target),
        spec_select(seq![d], target) == Some(0int),
{
}

/// The name of a bus kind, as the diagnostic log shows it.
pub open spec fn bus_label(b: BusKind) -> Seq<char> {
    match b {
        BusKind::Unknown => "Unknown"@,
        BusKind::Usb => "Usb"@,
        BusKind::Bluetooth => "Bluetooth"@,
        BusKind::I2c => "I2c"@,
        BusKind::Spi => "Spi"@,
    }
}

impl BusKind {
    /// The bus kind's name for the diagnostic log.
    pub fn name(&self) -> (s: &'static str)
        ensures
            s@ == bus_label(*self),
    {
        match self {
            BusKind::Unknown => "Unknown",
            BusKind::Usb => "Usb",
            BusKind::Bluetooth => "Bluetooth",
            BusKind::I2c => "I2c",
            BusKind::Spi => "Spi",
        }
    }
}

/// The identity line the diagnostic log prints for one enumerated device:
/// its position in the snapshot, vendor and product ids, path, interface,
/// release number, bus, and usage information.
pub open spec fn identity_line_spec(d: DeviceRecord, idx: int) -> Seq<char> {
    "#"@ + dec_rep(idx as nat) + ": "@ + hex4(d.vendor_id as nat) + ":"@ + hex4(
        d.product_id as nat,
    ) + " path:"@ + d.path@ + " iface:"@ + int_rep(d.interface_number as int) + " rel:0x"@ + hex4(
        d.release_number as nat,
    ) + " bus:"@ + bus_label(d.bus) + " usage_page=0x"@ + hex4(d.usage_page as nat)
        + " usage=0x"@ + hex4(d.usage as nat)
}

/// The strings line the diagnostic log prints for one enumerated device:
/// the optional manufacturer, product and serial strings, each with its
/// raw wide-character form.
pub open spec fn strings_line_spec(d: DeviceRecord) -> Seq<char> {
    "mfr:"@ + opt_string_field(d.manufacturer.deep_view()) + " (raw:"@ + wchar_field(
        d.manufacturer_raw.deep_view(),
    ) + ") prod:"@ + opt_string_field(d.product.deep_view()) + " (raw:"@ + wchar_field(
        d.product_raw.deep_view(),
    ) + ") serial:"@ + opt_string_field(d.serial.deep_view()) + " (raw:"@ + wchar_field(
        d.serial_raw.deep_view(),
    ) + ")"@
}

impl DeviceRecord {
    /// Renders the identity line for the diagnostic log's enumeration
    /// snapshot dump.
    pub fn identity_line(&self, idx: usize) -> (s: String)
        ensures
            s@ == identity_line_spec(*self, idx as int),
    {
        let mut s = "#".to_owned();
        let t = u64_to_dec(idx as u64);
        s.append(t.as_str());
        s.append(": ");
        let t = u32_to_hex4(self.vendor_id as u32);
        s.append(t.as_str());
        s.append(":");
        let t = u32_to_hex4(self.product_id as u32);
        s.append(t.as_str());
        s.append(" path:");
        s.append(self.path.as_str());
        s.append(" iface:");
        let t = i32_to_dec(self.interface_number);
        s.append(t.as_str());
        s.append(" rel:0x");
        let t = u32_to_hex4(self.release_number as u32);
        s.append(t.as_str());
        s.append(" bus:");
        s.append(self.bus.name());
        s.append(" usage_page=0x");
        let t = u32_to_hex4(self.usage_page as u32);
        s.append(t.as_str());
        s.append(" usage=0x");
        let t = u32_to_hex4(self.usage as u32);
        s.append(t.as_str());
        proof {
            assert(s@ =~= identity_line_spec(*self, idx as int));
        }
        s
    }

    /// Renders the strings line for the diagnostic log's enumeration
    /// snapshot dump.
    pub fn strings_line(&self) -> (s: String)
        ensures
            s@ == strings_line_spec(*self),
    {
        let mut s = "mfr:".to_owned();
        let t = opt_string_debug(&self.manufacturer);
        s.append(t.as_str());
        s.append(" (raw:");
        let t = format_wchar_raw(self.manufacturer_raw.as_ref());
        s.append(t.as_str());
        s.append(") prod:");
        let t = opt_string_debug(&self.product);
        s.append(t.as_str());
        s.append(" (raw:");
        let t = format_wchar_raw(self.product_raw.as_ref());
        s.append(t.as_str());
        s.append(") serial:");
        let t = opt_string_debug(&self.serial);
        s.append(t.as_str());
        s.append(" (raw:");
        let t = format_wchar_raw(self.serial_raw.as_ref());
        s.append(t.as_str());
        s.append(")");
        proof {
            assert(s@ =~= strings_line_spec(*self));
        }
        s
    }
}

} // verus!
