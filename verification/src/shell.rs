//! Shell-facing state: the tray status line and the settings window.
//!
//! The graphical shell itself is an external collaborator; the library
//! keeps a plain model of the pieces of it the watcher logic touches, and
//! the host mirrors every change of the model onto the real tray icon and
//! window.

use vstd::prelude::*;
use crate::codec::LayerReport;
use crate::format::{dec_rep, layer_list, mask_to_layer_list, u64_to_dec};

verus! {

/// The status-summary line for a report:
/// `layer=<highestLayer> active=[<comma-separated layer indices>]`.
pub open spec fn status_summary(highest: u8, mask: u8) -> Seq<char> {
    "layer="@ + dec_rep(highest as nat) + " active=["@ + layer_list(mask) + "]"@
}

/// Renders the status-summary line for a decoded report.
pub fn status_text(report: &LayerReport) -> (s: String)
    ensures
        s@ == status_summary(report.highest_layer, report.mask),
{
    let mut s = "layer=".to_owned();
    let d = u64_to_dec(report.highest_layer as u64);
    s.append(d.as_str());
    s.append(" active=[");
    let l = mask_to_layer_list(report.mask);
    s.append(l.as_str());
    s.append("]");
    proof {
        assert(s@ =~= status_summary(report.highest_layer, report.mask));
    }
    s
}

/// The tray icon's text state, as the watcher affects it. Both fields are
/// absent until the first report arrives; the host mirrors them onto the
/// real tray icon after every update.
pub struct TrayStatus {
    pub tooltip: Option<String>,
    pub title: Option<String>,
}

/// Pushes a decoded report to the tray: tooltip and title both become the
/// status-summary line.
pub fn update_tray_status(tray: &mut TrayStatus, report: &LayerReport)
    ensures
        final(tray).tooltip matches Some(t) && t@ == status_summary(
            report.highest_layer,
            report.mask,
        ),
        final(tray).title matches Some(t) && t@ == status_summary(
            report.highest_layer,
            report.mask,
        ),
{
    let text = status_text(report);
    tray.tooltip = Some(text.clone());
    tray.title = Some(text);
}

/// The settings window as the shell logic sees it: whether focus was last
/// requested for it, and whether it is shown.
pub struct WindowModel {
    pub visible: bool,
    pub focused: bool,
}

/// The shell's window state: the settings window, once it has been
/// created. A window is created at most once and then shown or hidden.
pub struct ShellState {
    pub settings_window: Option<WindowModel>,
}

/// Opens the settings window: an existing window is shown and focused; a
/// missing one must be built by the host, which the returned flag asks
/// for. Either way the window is visible afterwards.
pub fn open_settings_window(shell: &mut ShellState) -> (create: bool)
    ensures
        create == (old(shell).settings_window is None),
        final(shell).settings_window matches Some(w) && w.visible,
        old(shell).settings_window matches Some(w) ==> final(shell).settings_window
            == Some(WindowModel { visible: true, focused: true }),
{
    match &mut shell.settings_window {
        Some(w) => {
            w.visible = true;
            w.focused = true;
            false
        },
        None => {
            shell.settings_window = Some(WindowModel { visible: true, focused: false });
            true
        },
    }
}

/// Hides the settings window if it exists; without one there is nothing
/// to do.
pub fn hide_settings_window(shell: &mut ShellState)
    ensures
        old(shell).settings_window matches Some(w) ==> final(shell).settings_window
            == Some(WindowModel { visible: false, focused: w.focused }),
        old(shell).settings_window is None ==> *final(shell) == *old(shell),
{
    match &mut shell.settings_window {
        Some(w) => {
            w.visible = false;
        },
        None => {},
    }
}

} // verus!
