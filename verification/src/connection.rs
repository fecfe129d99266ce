//! Connection manager: the state machine that owns the connection
//! lifecycle.
//!
//! The manager never touches a device itself. The host enumerates, opens
//! and reads, and reports every outcome back; the manager decides what to
//! do next. The host must keep its open handle paired with the manager's
//! state: it holds a handle exactly while the state is `Connected`, opens
//! only when told to by [`ConnectionManager::seek`], configures the fresh
//! handle for bounded-timeout reads before using it, and drops the handle
//! whenever the state falls back to `Disconnected`.

use vstd::prelude::*;
use crate::codec::{parse_layer_report, report_shape_ok, LayerReport};
use crate::matcher::{lemma_select_characterisation, select_device, spec_select, DeviceRecord};
use crate::settings::HidSettings;

verus! {

/// Whether a device is currently held open.
#[derive(Clone, Copy, Debug, PartialEq, Eq, Structural)]
pub enum ConnectionState {
    Disconnected,
    Connected,
}

/// What the host should do after a seek.
#[derive(Clone, Copy, Debug, PartialEq, Eq, Structural)]
pub enum SeekAction {
    /// A device is already open; leave it alone.
    AlreadyConnected,
    /// No enumerated device matches the target; sleep a poll interval and
    /// seek again over a fresh snapshot.
    NoMatch,
    /// Try to open the device at this index of the snapshot, then report
    /// the outcome through [`ConnectionManager::open_result`].
    TryOpen(usize),
}

/// What one bounded-timeout read produced, as the host saw it.
pub enum ReadOutcome {
    /// The read returned this many bytes (the non-empty prefix of the
    /// buffer).
    Data(Vec<u8>),
    /// The read timed out with no data: a normal tick.
    Empty,
    /// The read failed: the handle is no longer usable.
    Failure,
}

/// What the host should do with the outcome of one read.
pub enum ReadStep {
    /// A valid layer report was decoded: forward it to the sinks.
    Report(LayerReport),
    /// The bytes were not a layer report: log and discard them; this is
    /// expected on shared endpoints and is not an error.
    Ignored,
    /// No data this tick: read again.
    Idle,
    /// The connection was lost: drop the handle, sleep a poll interval,
    /// then seek again.
    Lost,
}

/// Owns the connection lifecycle: the current state and the target
/// specification the current connection was established against.
pub struct ConnectionManager {
    pub state: ConnectionState,
    /// The target in force; a connection is only ever held to a device
    /// that was selected for this target.
    pub active: HidSettings,
}

impl ConnectionManager {
    /// A fresh manager: no device open, watching the given target.
    pub fn new(initial: HidSettings) -> (r: Self)
        ensures
            r.state is Disconnected,
            r.active == initial,
    {
        ConnectionManager { state: ConnectionState::Disconnected, active: initial }
    }

    pub fn is_connected(&self) -> (r: bool)
        ensures
            r == (self.state is Connected),
    {
        match self.state {
            ConnectionState::Connected => true,
            ConnectionState::Disconnected => false,
        }
    }

    /// Takes note of the latest target snapshot. A changed target discards
    /// the connection at once — even a still-readable device may no longer
    /// match — and makes the new target active; an unchanged target changes
    /// nothing.
    pub fn note_settings(&mut self, current: HidSettings) -> (changed: bool)
        ensures
            changed == (current != old(self).active),
            final(self).active == current,
            changed ==> final(self).state is Disconnected,
            !changed ==> *final(self) == *old(self),
    {
        if current != self.active {
            self.active = current;
            self.state = ConnectionState::Disconnected;
            true
        } else {
            false
        }
    }

    /// The action a seek over this snapshot asks of the host.
    pub open spec fn spec_seek_action(self, devices: Seq<DeviceRecord>) -> SeekAction {
        if self.state is Connected {
            SeekAction::AlreadyConnected
        } else {
            match spec_select(devices, self.active) {
                Some(i) => SeekAction::TryOpen(i as usize),
                None => SeekAction::NoMatch,
            }
        }
    }

    /// Seeks a device for the active target over a fresh enumeration
    /// snapshot. While a device is open and the target unchanged this asks
    /// for nothing and touches nothing, so repeated seeks never reopen;
    /// while disconnected it asks the host to open the first matching
    /// candidate, or to retry later when none matches.
    pub fn seek(&self, devices: &Vec<DeviceRecord>) -> (r: SeekAction)
        ensures
            r == self.spec_seek_action(devices@),
            self.state is Connected ==> r is AlreadyConnected,
            self.state is Disconnected ==> (r is NoMatch <==> spec_select(
                devices@,
                self.active,
            ) is None),
    {
        if self.is_connected() {
            return SeekAction::AlreadyConnected;
        }
        match select_device(devices, &self.active) {
            Some(i) => {
                proof {
                    lemma_select_characterisation(devices@, self.active);
                }
                SeekAction::TryOpen(i)
            },
            None => SeekAction::NoMatch,
        }
    }

    /// Records the outcome of the open the host was asked to try. A failed
    /// open is non-fatal: the state stays `Disconnected` and the host
    /// retries after a poll interval.
    pub fn open_result(&mut self, opened: bool)
        requires
            old(self).state is Disconnected,
        ensures
            final(self).active == old(self).active,
            final(self).state == (if opened {
                ConnectionState::Connected
            } else {
                ConnectionState::Disconnected
            }),
    {
        if opened {
            self.state = ConnectionState::Connected;
        }
    }

    /// Digests the outcome of one bounded-timeout read. A read failure
    /// discards the handle and forces a re-seek; no data is a normal tick;
    /// data is decoded, and either forwarded as a report or discarded.
    pub fn handle_read(&mut self, outcome: ReadOutcome) -> (r: ReadStep)
        requires
            old(self).state is Connected,
        ensures
            final(self).active == old(self).active,
            outcome is Failure ==> final(self).state is Disconnected && r is Lost,
            outcome is Empty ==> *final(self) == *old(self) && r is Idle,
            outcome matches ReadOutcome::Data(d) ==> {
                &&& *final(self) == *old(self)
                &&& (report_shape_ok(d@) ==> (r matches ReadStep::Report(rep) && rep.wf()
                    && rep.raw@ == d@))
                &&& (!report_shape_ok(d@) ==> r is Ignored)
            },
    {
        match outcome {
            ReadOutcome::Data(d) => {
                match parse_layer_report(d.as_slice()) {
                    Some(rep) => ReadStep::Report(rep),
                    None => ReadStep::Ignored,
                }
            },
            ReadOutcome::Empty => ReadStep::Idle,
            ReadOutcome::Failure => {
                self.state = ConnectionState::Disconnected;
                ReadStep::Lost
            },
        }
    }
}

/// Idempotence of seeking while connected: as long as the target is
/// unchanged and a device is open, every further seek asks for no reopen —
/// and since a seek never alters the manager, running it repeatedly leaves
/// both the state and the host's open handle untouched.
pub proof fn lemma_seek_idempotent(m: ConnectionManager, devices: Seq<DeviceRecord>)
    requires
        m.state is Connected,
    ensures
        m.spec_seek_action(devices) is AlreadyConnected,
{
}

} // verus!
