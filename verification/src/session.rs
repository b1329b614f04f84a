//! The device session state machine: discover the keypad among the
//! enumerated HID devices, open it, run the protocol engine, and on any
//! failure go back to searching — forever, since the device may stay
//! unplugged indefinitely.
//!
//! The embedding application drives the machine: it performs the action
//! each step asks for (enumerate, wait, open, run the engine loop) and
//! feeds the outcome back in as the next event.

use vstd::prelude::*;

verus! {

/// Vendor identifier of the accessory.
pub const VENDOR_ID: u16 = 0xDEAF;

/// Product identifier of the accessory.
pub const PRODUCT_ID: u16 = 0x0913;

/// HID interface number of the accessory.
pub const INTERFACE_NUMBER: i32 = 1;

/// Milliseconds to wait before retrying discovery when no device matched.
pub const RECONNECT_BACKOFF_MS: u64 = 2000;

/// The identity triple of one enumerated HID device.
#[derive(Clone, Copy, Debug, PartialEq, Eq, Structural)]
pub struct DeviceId {
    pub vendor_id: u16,
    pub product_id: u16,
    pub interface_number: i32,
}

/// Whether an enumerated device is the accessory: the identity triple
/// matches exactly.
pub open spec fn spec_matches_identity(d: DeviceId) -> bool {
    d.vendor_id == VENDOR_ID && d.product_id == PRODUCT_ID && d.interface_number == INTERFACE_NUMBER
}

/// Test one enumerated device against the fixed accessory identity.
pub fn matches_identity(d: &DeviceId) -> (r: bool)
    ensures
        r == spec_matches_identity(*d),
{
    d.vendor_id == VENDOR_ID && d.product_id == PRODUCT_ID && d.interface_number
        == INTERFACE_NUMBER
}

/// Select the device to open: the first enumerated device whose identity
/// triple matches the accessory, or `None` when no device matches.
pub fn find_device(devices: &Vec<DeviceId>) -> (r: Option<usize>)
    ensures
        match r {
            Some(i) => i < devices@.len() && spec_matches_identity(devices@[i as int]) && forall|
                j: int,
            | 0 <= j < i ==> !spec_matches_identity(devices@[j]),
            None => forall|j: int| 0 <= j < devices@.len() ==> !spec_matches_identity(devices@[j]),
        },
{
    let mut i: usize = 0;
    while i < devices.len()
        invariant
            i <= devices@.len(),
            forall|j: int| 0 <= j < i ==> !spec_matches_identity(devices@[j]),
        decreases devices@.len() - i,
    {
        if matches_identity(&devices[i]) {
            return Some(i);
        }
        i += 1;
    }
    None
}

/// Where the session manager stands.
#[derive(Clone, Copy, Debug, PartialEq, Eq, Structural)]
pub enum SessionState {
    /// Enumerating HID devices, looking for the accessory.
    Searching,
    /// A matching device was found; trying to open an exclusive session.
    Opening,
    /// A session is open and the protocol engine loop is running.
    Connected,
}

/// What the embedding application reports back after carrying out the
/// previous action.
#[derive(Clone, Copy, Debug, PartialEq, Eq, Structural)]
pub enum SessionEvent {
    /// Enumeration found a matching device.
    DeviceFound,
    /// Enumeration found no matching device.
    DeviceNotFound,
    /// The matched device was opened.
    OpenSucceeded,
    /// The matched device could not be opened.
    OpenFailed,
    /// The engine loop returned with a transport error.
    SessionEnded,
}

/// What the embedding application must do next.
#[derive(Clone, Copy, Debug, PartialEq, Eq, Structural)]
pub enum SessionAction {
    /// Wait this many milliseconds, then enumerate again.
    Wait { backoff_ms: u64 },
    /// Enumerate devices now, with no backoff.
    Enumerate,
    /// Try to open the matched device.
    OpenDevice,
    /// Hand the open session to the protocol engine loop.
    RunSession,
}

/// The transition table of the session state machine.
///
/// A fruitless search backs off [`RECONNECT_BACKOFF_MS`] and retries; a
/// failed open or an ended session goes straight back to searching, with no
/// extra backoff since enumeration already paces the loop. An event that
/// does not belong to the current state restarts discovery.
pub open spec fn spec_session_next(state: SessionState, event: SessionEvent) -> (SessionState,
    SessionAction) {
    match (state, event) {
        (SessionState::Searching, SessionEvent::DeviceNotFound) => (
            SessionState::Searching,
            SessionAction::Wait { backoff_ms: RECONNECT_BACKOFF_MS },
        ),
        (SessionState::Searching, SessionEvent::DeviceFound) => (
            SessionState::Opening,
            SessionAction::OpenDevice,
        ),
        (SessionState::Opening, SessionEvent::OpenSucceeded) => (
            SessionState::Connected,
            SessionAction::RunSession,
        ),
        (SessionState::Opening, SessionEvent::OpenFailed) => (
            SessionState::Searching,
            SessionAction::Enumerate,
        ),
        (SessionState::Connected, SessionEvent::SessionEnded) => (
            SessionState::Searching,
            SessionAction::Enumerate,
        ),
        _ => (SessionState::Searching, SessionAction::Enumerate),
    }
}

/// Advance the session state machine by one event.
pub fn session_step(state: SessionState, event: SessionEvent) -> (r: (SessionState, SessionAction))
    ensures
        r == spec_session_next(state, event),
{
    match (state, event) {
        (SessionState::Searching, SessionEvent::DeviceNotFound) => (
            SessionState::Searching,
            SessionAction::Wait { backoff_ms: RECONNECT_BACKOFF_MS },
        ),
        (SessionState::Searching, SessionEvent::DeviceFound) => (
            SessionState::Opening,
            SessionAction::OpenDevice,
        ),
        (SessionState::Opening, SessionEvent::OpenSucceeded) => (
            SessionState::Connected,
            SessionAction::RunSession,
        ),
        (SessionState::Opening, SessionEvent::OpenFailed) => (
            SessionState::Searching,
            SessionAction::Enumerate,
        ),
        (SessionState::Connected, SessionEvent::SessionEnded) => (
            SessionState::Searching,
            SessionAction::Enumerate,
        ),
        _ => (SessionState::Searching, SessionAction::Enumerate),
    }
}

/// The process-wide connectivity flag: true exactly while a session is
/// open. The session manager is its only writer; it sets the flag after
/// every transition.
pub open spec fn spec_connected_flag(state: SessionState) -> bool {
    state == SessionState::Connected
}

/// Compute the connectivity flag the current state calls for.
pub fn connected_flag(state: SessionState) -> (r: bool)
    ensures
        r == spec_connected_flag(state),
{
    match state {
        SessionState::Connected => true,
        _ => false,
    }
}

/// The state after a run of fruitless searches: `n` times in a row, the
/// enumeration reported no matching device.
pub open spec fn spec_state_after_misses(n: nat) -> SessionState
    decreases n,
{
    if n == 0 {
        SessionState::Searching
    } else {
        spec_session_next(spec_state_after_misses((n - 1) as nat), SessionEvent::DeviceNotFound).0
    }
}

/// Reconnection never gives up: however many times in a row enumeration
/// finds no matching device, the machine is still searching — it never
/// terminates — and the next miss is answered by the same fixed backoff.
pub proof fn lemma_search_never_gives_up(n: nat)
    ensures
        spec_state_after_misses(n) == SessionState::Searching,
        spec_session_next(spec_state_after_misses(n), SessionEvent::DeviceNotFound) == (
            SessionState::Searching,
            SessionAction::Wait { backoff_ms: RECONNECT_BACKOFF_MS },
        ),
    decreases n,
{
    if n > 0 {
        lemma_search_never_gives_up((n - 1) as nat);
    }
}

} // verus!
