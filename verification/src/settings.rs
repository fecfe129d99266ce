//! The device-target specification and the shared settings snapshot.

use vstd::prelude::*;
use crate::{DEFAULT_PRODUCT_ID, DEFAULT_USAGE, DEFAULT_USAGE_PAGE, DEFAULT_VENDOR_ID};

verus! {

/// Identity of the HID endpoint the watcher should connect to.
///
/// An immutable value; a changed snapshot is detected purely by equality
/// of all four fields.
#[derive(Clone, Copy, Debug, PartialEq, Eq, Structural)]
pub struct HidSettings {
    pub vendor_id: u16,
    pub product_id: u16,
    pub usage_page: u16,
    pub usage: u16,
}

/// The target watched when no other target has been configured.
pub open spec fn default_settings() -> HidSettings {
    HidSettings {
        vendor_id: DEFAULT_VENDOR_ID,
        product_id: DEFAULT_PRODUCT_ID,
        usage_page: DEFAULT_USAGE_PAGE,
        usage: DEFAULT_USAGE,
    }
}

impl Default for HidSettings {
    fn default() -> (r: Self)
        ensures
            r == default_settings(),
    {
        HidSettings {
            vendor_id: DEFAULT_VENDOR_ID,
            product_id: DEFAULT_PRODUCT_ID,
            usage_page: DEFAULT_USAGE_PAGE,
            usage: DEFAULT_USAGE,
        }
    }
}

/// The settings snapshot shared between the watcher and a settings UI.
///
/// The host keeps one value of this type behind a mutual-exclusion lock and
/// serialises every access, so the watcher never observes a partially
/// updated target; the library itself only reads whole snapshots and
/// replaces whole snapshots.
pub struct AppSettings {
    pub hid: HidSettings,
}

/// Returns the current target snapshot.
pub fn get_hid_settings(app: &AppSettings) -> (r: HidSettings)
    ensures
        r == app.hid,
{
    app.hid
}

/// Returns the current target snapshot for the watcher's own cycle.
pub fn read_hid_settings(app: &AppSettings) -> (r: HidSettings)
    ensures
        r == app.hid,
{
    get_hid_settings(app)
}

/// Replaces the target snapshot as one unit.
pub fn set_hid_settings(app: &mut AppSettings, settings: HidSettings)
    ensures
        final(app).hid == settings,
{
    app.hid = settings;
}

} // verus!
