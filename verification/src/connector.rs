//! The order in which the candidate ports are tried, and how a session ends.
//!
//! Opening a port is the caller's part. A session is therefore a value that
//! is advanced one open attempt at a time: [`connect`] takes what listing the
//! ports returned and says which port to try first; [`Connector::resume`]
//! takes what the attempt returned and says whether the session is over or
//! which port to try next.

use vstd::prelude::*;
use crate::descriptor::{PortDescriptor, PortDescriptorView, views_of};
use crate::matcher::{candidate_set, candidates, is_candidate};

verus! {

/// The baud rate with which every candidate is opened.
pub const BAUD_RATE: u32 = 9600;

/// The read timeout, in seconds, with which every candidate is opened.
pub const TIMEOUT_S: u64 = 1;

/// What a caller may tell its user when no device was found.
pub const NO_DEVICE_DESCRIPTION: &'static str = "Cannot find power supply";

/// Why a session ended without an open port.
#[derive(Debug, Clone, PartialEq, Eq)]
pub enum ConnectError<E> {
    /// The host could not list its ports; the value is what the listing
    /// returned in place of a list.
    EnumerationFailed(E),
    /// No listed port is a candidate, or no candidate could be opened.
    NoDeviceFound,
}

/// How a port is to be opened.
#[derive(Debug, Clone, PartialEq, Eq)]
pub struct OpenRequest {
    /// The name of the port.
    pub port_name: String,
    /// The baud rate of the line.
    pub baud_rate: u32,
    /// How long a read on the opened port may block, in seconds.
    pub timeout_secs: u64,
}

/// The mathematical value of an [`OpenRequest`].
pub struct OpenRequestView {
    pub port_name: Seq<char>,
    pub baud_rate: u32,
    pub timeout_secs: u64,
}

impl View for OpenRequest {
    type V = OpenRequestView;

    open spec fn view(&self) -> OpenRequestView {
        OpenRequestView {
            port_name: self.port_name@,
            baud_rate: self.baud_rate,
            timeout_secs: self.timeout_secs,
        }
    }
}

/// The request with which the port `port` is opened: its own name, and the
/// fixed baud rate and timeout.
pub open spec fn request_for(port: PortDescriptorView) -> OpenRequestView {
    OpenRequestView { port_name: port.port_name, baud_rate: BAUD_RATE, timeout_secs: TIMEOUT_S }
}

/// A session that waits for the outcome of an open attempt.
#[derive(Debug)]
pub struct Connector {
    candidates: Vec<PortDescriptor>,
    cursor: usize,
}

/// The mathematical value of a [`Connector`]: the candidates of the session,
/// in the order in which they are tried, and the index of the one whose
/// attempt is under way. The candidates before it could not be opened.
pub struct ConnectorView {
    pub candidates: Seq<PortDescriptorView>,
    pub cursor: nat,
}

impl View for Connector {
    type V = ConnectorView;

    closed spec fn view(&self) -> ConnectorView {
        ConnectorView { candidates: views_of(self.candidates@), cursor: self.cursor as nat }
    }
}

/// Where a session stands after one of its steps.
#[derive(Debug)]
pub enum Progress<C, E> {
    /// The port of the request is to be opened, and what the attempt returns
    /// is to be given to [`Connector::resume`].
    Attempt(Connector, OpenRequest),
    /// The session is over: this is the port that was opened.
    Connected(C),
    /// The session is over: no port was opened.
    Failed(ConnectError<E>),
}

/// The mathematical value of a [`Progress`].
pub enum ProgressView<C, E> {
    Attempt(ConnectorView, OpenRequestView),
    Connected(C),
    Failed(ConnectError<E>),
}

impl<C, E> View for Progress<C, E> {
    type V = ProgressView<C, E>;

    open spec fn view(&self) -> ProgressView<C, E> {
        match *self {
            Progress::Attempt(connector, request) => ProgressView::Attempt(connector@, request@),
            Progress::Connected(channel) => ProgressView::Connected(channel),
            Progress::Failed(error) => ProgressView::Failed(error),
        }
    }
}

/// What listing the ports returned, with the list taken by its value.
pub open spec fn listing_of<E>(enumeration: Result<Vec<PortDescriptor>, E>) -> Result<
    Seq<PortDescriptorView>,
    E,
> {
    match enumeration {
        Ok(ports) => Ok(views_of(ports@)),
        Err(cause) => Err(cause),
    }
}

/// What an open attempt returned, without the reason of a failure.
pub open spec fn opened_of<C, F>(outcome: Result<C, F>) -> Option<C> {
    match outcome {
        Ok(channel) => Some(channel),
        Err(_) => None,
    }
}

/// The step that tries the candidate at index `cursor`, or, where there is
/// none at that index, the end of the session without a device.
pub open spec fn attempt_at<C, E>(candidates: Seq<PortDescriptorView>, cursor: nat) -> ProgressView<
    C,
    E,
> {
    if cursor < candidates.len() {
        ProgressView::Attempt(
            ConnectorView { candidates, cursor },
            request_for(candidates[cursor as int]),
        )
    } else {
        ProgressView::Failed(ConnectError::NoDeviceFound)
    }
}

/// The first step of a session. A listing that failed ends the session with
/// its failure; a list starts the attempts at the first candidate.
pub open spec fn started<C, E>(listing: Result<Seq<PortDescriptorView>, E>) -> ProgressView<C, E> {
    match listing {
        Ok(ports) => attempt_at(candidate_set(ports), 0),
        Err(cause) => ProgressView::Failed(ConnectError::EnumerationFailed(cause)),
    }
}

/// The step after an open attempt. A port that opened ends the session; after
/// a failure the next candidate is tried.
pub open spec fn resumed<C, E>(connector: ConnectorView, opened: Option<C>) -> ProgressView<C, E> {
    match opened {
        Some(channel) => ProgressView::Connected(channel),
        None => attempt_at(connector.candidates, connector.cursor + 1),
    }
}

impl Connector {
    #[verifier::type_invariant]
    spec fn well_formed(self) -> bool {
        &&& self.cursor < self.candidates.len()
        &&& forall|i: int|
            0 <= i < self.candidates.len() ==> is_candidate(#[trigger] self.candidates[i]@)
    }

    fn attempt<C, E>(candidates: Vec<PortDescriptor>, cursor: usize) -> (progress: Progress<C, E>)
        requires
            forall|i: int| 0 <= i < candidates.len() ==> is_candidate(#[trigger] candidates[i]@),
        ensures
            progress@ == attempt_at::<C, E>(views_of(candidates@), cursor as nat),
    {
        if cursor < candidates.len() {
            let request = OpenRequest {
                port_name: candidates[cursor].port_name.clone(),
                baud_rate: BAUD_RATE,
                timeout_secs: TIMEOUT_S,
            };
            Progress::Attempt(Connector { candidates, cursor }, request)
        } else {
            Progress::Failed(ConnectError::NoDeviceFound)
        }
    }

    /// Takes what the open attempt that this session waits for returned.
    ///
    /// A port that opened is handed back and ends the session: no further
    /// candidate is tried. The reason of a failure is dropped, and the next
    /// candidate is tried; after the last one the session ends with
    /// [`ConnectError::NoDeviceFound`].
    pub fn resume<C, E, F>(self, outcome: Result<C, F>) -> (progress: Progress<C, E>)
        ensures
            progress@ == resumed::<C, E>(self@, opened_of(outcome)),
            // The port that opened is the port of the session.
            outcome matches Ok(channel) ==> progress@ == ProgressView::<C, E>::Connected(channel),
            // After a failure the session goes on or ends without a device.
            outcome is Err ==> !(progress@ is Connected),
    {
        proof {
            use_type_invariant(&self);
        }
        match outcome {
            Ok(channel) => Progress::Connected(channel),
            Err(_) => Connector::attempt(self.candidates, self.cursor + 1),
        }
    }
}

/// Starts a session from what listing the ports of the host returned.
///
/// A listing that failed ends the session at once with
/// [`ConnectError::EnumerationFailed`] and the failure itself. Of a list, the
/// candidates are kept in the order of the list; where there is none the
/// session ends with [`ConnectError::NoDeviceFound`], else the first
/// candidate is to be opened.
pub fn connect<C, E>(enumeration: Result<Vec<PortDescriptor>, E>) -> (progress: Progress<C, E>)
    ensures
        progress@ == started::<C, E>(listing_of(enumeration)),
        // A listing that failed is handed on as such, with its cause.
        enumeration matches Err(cause) ==> progress@ == ProgressView::<C, E>::Failed(
            ConnectError::EnumerationFailed(cause),
        ),
        // A list without a candidate ends the session before any attempt.
        enumeration matches Ok(ports) && candidate_set(views_of(ports@)).len() == 0 ==> progress@
            == ProgressView::<C, E>::Failed(ConnectError::NoDeviceFound),
        // No port is open before one was tried.
        !(progress@ is Connected),
{
    match enumeration {
        Ok(ports) => {
            let kept = candidates(ports);
            Connector::attempt(kept, 0)
        },
        Err(cause) => Progress::Failed(ConnectError::EnumerationFailed(cause)),
    }
}

} // verus!
