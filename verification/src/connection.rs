//! Finding the display among the serial endpoints, and the life cycle of the
//! link to it: scan, connect, stream, and back to scanning when the link
//! breaks.
//!
//! The library decides; the caller does the work. In `Scanning` it lists the
//! endpoints and reports whether `find_device` found the display, in
//! `Connecting` it opens the endpoint, in `Streaming` it writes one frame.
//! Each time it reports the outcome to `on_event`, waits as long as the
//! transition says and goes on in the state that the transition names.

use vstd::prelude::*;

verus! {

/// USB vendor id of the display.
pub const VENDOR_ID: u16 = 0x0483;

/// USB product id of the display.
pub const PRODUCT_ID: u16 = 0x5740;

/// Speed of the link in baud.
pub const BAUD_RATE: u32 = 115_200;

/// Time a read or write on the link may take, in milliseconds.
pub const LINK_TIMEOUT_MS: u64 = 1000;

/// Pause before the next scan when the display was not found or the link
/// failed, in milliseconds.
pub const BACKOFF_MS: u64 = 2000;

/// Pause between two frames, in milliseconds.
pub const FRAME_INTERVAL_MS: u64 = 1000;

/// The USB identity of an endpoint.
#[derive(Debug, Clone, Copy, PartialEq, Eq)]
pub struct UsbIds {
    /// Vendor id.
    pub vid: u16,
    /// Product id.
    pub pid: u16,
}

/// One serial endpoint as enumeration lists it.
#[derive(Debug, PartialEq, Eq)]
pub struct Endpoint {
    /// The name under which the endpoint is opened.
    pub name: String,
    /// The USB identity, for an endpoint that is a USB device.
    pub usb: Option<UsbIds>,
}

/// Whether an endpoint is the display: a USB device with exactly the
/// display's vendor and product id.
pub open spec fn is_display(endpoint: Endpoint) -> bool {
    endpoint.usb == Some(UsbIds { vid: VENDOR_ID, pid: PRODUCT_ID })
}

impl Endpoint {
    /// Whether this endpoint is the display.
    pub fn is_display(&self) -> (yes: bool)
        ensures
            yes == is_display(*self),
    {
        match self.usb {
            Some(ids) => ids.vid == VENDOR_ID && ids.pid == PRODUCT_ID,
            None => false,
        }
    }
}

/// Looks for the display among the endpoints, in the order of the list, and
/// gives the index of the first endpoint that is the display.
pub fn find_device(endpoints: &Vec<Endpoint>) -> (found: Option<usize>)
    ensures
        match found {
            Some(i) => {
                &&& i < endpoints.len()
                &&& is_display(endpoints[i as int])
                &&& forall|j: int| 0 <= j < i ==> !is_display(#[trigger] endpoints[j])
            },
            None => forall|j: int|
                0 <= j < endpoints.len() ==> !is_display(#[trigger] endpoints[j]),
        },
{
    let n: usize = endpoints.len();
    let mut i: usize = 0;
    while i < n
        invariant
            n == endpoints.len(),
            i <= n,
            forall|j: int| 0 <= j < i ==> !is_display(#[trigger] endpoints[j]),
        decreases n - i,
    {
        if endpoints[i].is_display() {
            return Some(i);
        }
        i = i + 1;
    }
    None
}

/// Where the connection stands.
#[derive(Debug, Clone, Copy, PartialEq, Eq)]
pub enum ConnectionState {
    /// Looking for the display among the endpoints.
    Scanning,
    /// The display was found and is being opened.
    Connecting,
    /// The link is open and frames are being sent.
    Streaming,
}

/// What the caller reports after doing the work of a state.
#[derive(Debug, Clone, Copy, PartialEq, Eq)]
pub enum Event {
    /// A scan did not find the display.
    NoDevice,
    /// A scan found the display.
    DeviceFound,
    /// The endpoint could not be opened.
    OpenFailed,
    /// The endpoint was opened and configured.
    Opened,
    /// A frame was written.
    FrameSent,
    /// Writing a frame ran into the link's timeout.
    WriteTimedOut,
    /// Writing a frame failed in any other way.
    WriteFailed,
}

/// The state to go on in, after a pause.
#[derive(Debug, Clone, Copy, PartialEq, Eq)]
pub struct Transition {
    /// The state to go on in.
    pub state: ConnectionState,
    /// How long to wait before the work of that state, in milliseconds.
    pub delay_ms: u64,
}

/// The transition that an event causes in a state, and `None` for an event
/// that the work of that state cannot end in.
///
/// A scan that finds nothing is repeated after the backoff; one that finds the
/// display leads to connecting at once. A failed open leads back to scanning
/// after the backoff, a successful one to streaming at once. A frame that was
/// sent, or dropped on a timeout, is followed by the next one after the frame
/// interval; any other write error gives the link up and leads back to
/// scanning after the backoff.
pub open spec fn transition(state: ConnectionState, event: Event) -> Option<Transition> {
    match (state, event) {
        (ConnectionState::Scanning, Event::NoDevice) => Some(
            Transition { state: ConnectionState::Scanning, delay_ms: BACKOFF_MS },
        ),
        (ConnectionState::Scanning, Event::DeviceFound) => Some(
            Transition { state: ConnectionState::Connecting, delay_ms: 0 },
        ),
        (ConnectionState::Connecting, Event::OpenFailed) => Some(
            Transition { state: ConnectionState::Scanning, delay_ms: BACKOFF_MS },
        ),
        (ConnectionState::Connecting, Event::Opened) => Some(
            Transition { state: ConnectionState::Streaming, delay_ms: 0 },
        ),
        (ConnectionState::Streaming, Event::FrameSent) => Some(
            Transition { state: ConnectionState::Streaming, delay_ms: FRAME_INTERVAL_MS },
        ),
        (ConnectionState::Streaming, Event::WriteTimedOut) => Some(
            Transition { state: ConnectionState::Streaming, delay_ms: FRAME_INTERVAL_MS },
        ),
        (ConnectionState::Streaming, Event::WriteFailed) => Some(
            Transition { state: ConnectionState::Scanning, delay_ms: BACKOFF_MS },
        ),
        _ => None,
    }
}

/// Frames are written on an open link only: the connection comes to stream
/// by opening the display's endpoint, which it does only after a scan found
/// it, and stays streaming from frame to frame.
pub proof fn lemma_order_of_work(state: ConnectionState, event: Event)
    requires
        transition(state, event) is Some,
    ensures
        transition(state, event)->0.state == ConnectionState::Streaming ==> state
            == ConnectionState::Streaming || (state == ConnectionState::Connecting && event
            == Event::Opened),
        transition(state, event)->0.state == ConnectionState::Connecting ==> state
            == ConnectionState::Scanning && event == Event::DeviceFound,
{
}

/// Whatever goes wrong leads back to scanning after the backoff, and nothing
/// else does: the display is not found, the endpoint does not open, or a
/// write fails otherwise than by running out of time.
pub proof fn lemma_failures_rescan(state: ConnectionState, event: Event)
    requires
        transition(state, event) is Some,
    ensures
        transition(state, event)->0.state == ConnectionState::Scanning <==> event
            == Event::NoDevice || event == Event::OpenFailed || event == Event::WriteFailed,
        transition(state, event)->0.state == ConnectionState::Scanning ==> transition(
            state,
            event,
        )->0.delay_ms == BACKOFF_MS,
{
}

impl ConnectionState {
    /// The state in which every connection starts.
    pub fn initial() -> (state: ConnectionState)
        ensures
            state == ConnectionState::Scanning,
    {
        ConnectionState::Scanning
    }

    /// Whether the link is open in this state. A transition to any other
    /// state gives the link up.
    pub fn holds_link(self) -> (held: bool)
        ensures
            held == (self == ConnectionState::Streaming),
    {
        match self {
            ConnectionState::Streaming => true,
            _ => false,
        }
    }

    /// The transition that `event` causes in this state.
    pub fn on_event(self, event: Event) -> (next: Option<Transition>)
        ensures
            next == transition(self, event),
    {
        match (self, event) {
            (ConnectionState::Scanning, Event::NoDevice) => Some(
                Transition { state: ConnectionState::Scanning, delay_ms: BACKOFF_MS },
            ),
            (ConnectionState::Scanning, Event::DeviceFound) => Some(
                Transition { state: ConnectionState::Connecting, delay_ms: 0 },
            ),
            (ConnectionState::Connecting, Event::OpenFailed) => Some(
                Transition { state: ConnectionState::Scanning, delay_ms: BACKOFF_MS },
            ),
            (ConnectionState::Connecting, Event::Opened) => Some(
                Transition { state: ConnectionState::Streaming, delay_ms: 0 },
            ),
            (ConnectionState::Streaming, Event::FrameSent) => Some(
                Transition { state: ConnectionState::Streaming, delay_ms: FRAME_INTERVAL_MS },
            ),
            (ConnectionState::Streaming, Event::WriteTimedOut) => Some(
                Transition { state: ConnectionState::Streaming, delay_ms: FRAME_INTERVAL_MS },
            ),
            (ConnectionState::Streaming, Event::WriteFailed) => Some(
                Transition { state: ConnectionState::Scanning, delay_ms: BACKOFF_MS },
            ),
            _ => None,
        }
    }
}

} // verus!
