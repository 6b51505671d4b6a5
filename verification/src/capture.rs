//! The capture loop: a state machine that decides what is done next, while the
//! code around it opens the device, reads frames, and sends records on.

use vstd::prelude::*;
use vstd::slice::slice_to_vec;
use crate::analyzer::{
    analyze_packet, analyzed, ethernet_layers, tcp_flags_text, tcp_summary, InternetLayer,
    InternetView, Layers, TransportLayer,
};
use crate::text::{has_text, texts};
use crate::ui::{capture_time, PacketInfo, PacketInfoView, Timestamp};

verus! {

/// One frame as the capture device hands it over.
#[derive(Clone, Debug)]
pub struct RawFrame {
    /// The captured bytes, link-layer header included.
    pub data: Vec<u8>,
    /// The seconds of the capture time.
    pub seconds: i64,
    /// The microseconds of the capture time.
    pub microseconds: i64,
    /// The length of the frame on the wire.
    pub length: u32,
}

/// A frame as contracts see it.
#[verifier::ext_equal]
pub struct RawFrameView {
    pub data: Seq<u8>,
    pub seconds: i64,
    pub microseconds: i64,
    pub length: u32,
}

impl View for RawFrame {
    type V = RawFrameView;

    open spec fn view(&self) -> RawFrameView {
        RawFrameView {
            data: self.data@,
            seconds: self.seconds,
            microseconds: self.microseconds,
            length: self.length,
        }
    }
}

/// The record of a frame before anything was decoded: time, length and bytes.
pub open spec fn blank_record(frame: RawFrameView) -> PacketInfoView {
    PacketInfoView {
        timestamp: capture_time(frame.seconds, frame.microseconds),
        protocol: Seq::empty(),
        source: Seq::empty(),
        destination: Seq::empty(),
        length: frame.length as usize,
        info: Seq::empty(),
        raw_data: frame.data,
    }
}

/// The record that a frame is decoded to.
pub open spec fn decoded(frame: RawFrameView) -> PacketInfoView {
    analyzed(blank_record(frame))
}

/// Decodes a frame into a record. Every frame gives a record: one whose headers
/// cannot be read gives a record that says so.
pub fn decode(frame: &RawFrame) -> (record: PacketInfo)
    ensures
        record@ == decoded(frame@),
        record.raw_data@ == frame.data@,
        ethernet_layers(frame.data@) is None ==> record.info@ == "Failed to parse packet"@,
{
    let mut record = PacketInfo {
        timestamp: Timestamp::from_capture(frame.seconds, frame.microseconds),
        protocol: String::new(),
        source: String::new(),
        destination: String::new(),
        length: frame.length as usize,
        info: String::new(),
        raw_data: slice_to_vec(frame.data.as_slice()),
    };
    analyze_packet(&mut record);
    record
}

/// The short name of the deepest layer: that of the transport layer, else that
/// of the network layer, else `Unknown`.
pub open spec fn protocol_name(ip: Option<InternetView>, transport: Option<TransportLayer>) -> Seq<char> {
    match transport {
        Some(TransportLayer::Tcp { .. }) => "TCP"@,
        Some(TransportLayer::Udp { .. }) => "UDP"@,
        Some(TransportLayer::Icmpv4 { .. }) => "ICMPv4"@,
        Some(TransportLayer::Icmpv6 { .. }) => "ICMPv6"@,
        Some(TransportLayer::Unknown(_)) => "Unknown"@,
        None => match ip {
            Some(InternetView::Ipv4 { .. }) => "IPv4"@,
            Some(InternetView::Ipv6 { .. }) => "IPv6"@,
            None => "Unknown"@,
        },
    }
}

/// One line on the transport layer: the set flags of TCP, a fixed word for the
/// others, nothing where there is none.
pub open spec fn transport_note(transport: Option<TransportLayer>) -> Seq<char> {
    match transport {
        Some(TransportLayer::Tcp { syn, ack, fin, rst, psh, urg, .. }) => tcp_summary(
            syn,
            ack,
            fin,
            rst,
            psh,
            urg,
        ),
        Some(TransportLayer::Udp { .. }) => "UDP Datagram"@,
        Some(TransportLayer::Icmpv4 { .. }) => "ICMP Message"@,
        Some(TransportLayer::Icmpv6 { .. }) => "ICMPv6 Message"@,
        Some(TransportLayer::Unknown(_)) => "Unknown Protocol"@,
        None => Seq::empty(),
    }
}

/// The short name of the deepest layer of a frame.
pub fn get_protocol_name(packet: &Layers) -> (name: String)
    ensures
        name@ == protocol_name(packet@.ip, packet.transport),
{
    match &packet.transport {
        Some(TransportLayer::Tcp { .. }) => "TCP".to_string(),
        Some(TransportLayer::Udp { .. }) => "UDP".to_string(),
        Some(TransportLayer::Icmpv4 { .. }) => "ICMPv4".to_string(),
        Some(TransportLayer::Icmpv6 { .. }) => "ICMPv6".to_string(),
        Some(TransportLayer::Unknown(_)) => "Unknown".to_string(),
        None => match &packet.ip {
            Some(InternetLayer::Ipv4 { .. }) => "IPv4".to_string(),
            Some(InternetLayer::Ipv6 { .. }) => "IPv6".to_string(),
            None => "Unknown".to_string(),
        },
    }
}

/// One line on the transport layer of a frame.
pub fn get_packet_info(packet: &Layers) -> (note: String)
    ensures
        note@ == transport_note(packet.transport),
{
    match &packet.transport {
        Some(TransportLayer::Tcp { syn, ack, fin, rst, psh, urg, .. }) => tcp_flags_text(
            *syn,
            *ack,
            *fin,
            *rst,
            *psh,
            *urg,
        ),
        Some(TransportLayer::Udp { .. }) => "UDP Datagram".to_string(),
        Some(TransportLayer::Icmpv4 { .. }) => "ICMP Message".to_string(),
        Some(TransportLayer::Icmpv6 { .. }) => "ICMPv6 Message".to_string(),
        Some(TransportLayer::Unknown(_)) => "Unknown Protocol".to_string(),
        None => String::new(),
    }
}

/// Why a capture ended without success.
#[derive(Clone, Debug)]
pub enum PipelineError {
    /// No device has the name that was asked for.
    DeviceNotFound,
    /// No name was given and the system offers no default device.
    NoDefaultDevice,
    /// The device was found but could not be opened, with the reason.
    OpenFailed(String),
    /// The filter expression was refused, with the compiler's diagnostic.
    InvalidFilter(String),
    /// The output sink could not be flushed and closed at the end, with the reason.
    Sink(String),
    /// The loop was told of something that it was not waiting for.
    UnexpectedEvent,
}

/// An error as contracts see it: its reason as a character sequence.
#[verifier::ext_equal]
pub enum PipelineErrorView {
    DeviceNotFound,
    NoDefaultDevice,
    OpenFailed(Seq<char>),
    InvalidFilter(Seq<char>),
    Sink(Seq<char>),
    UnexpectedEvent,
}

impl View for PipelineError {
    type V = PipelineErrorView;

    open spec fn view(&self) -> PipelineErrorView {
        match *self {
            PipelineError::DeviceNotFound => PipelineErrorView::DeviceNotFound,
            PipelineError::NoDefaultDevice => PipelineErrorView::NoDefaultDevice,
            PipelineError::OpenFailed(reason) => PipelineErrorView::OpenFailed(reason@),
            PipelineError::InvalidFilter(reason) => PipelineErrorView::InvalidFilter(reason@),
            PipelineError::Sink(reason) => PipelineErrorView::Sink(reason@),
            PipelineError::UnexpectedEvent => PipelineErrorView::UnexpectedEvent,
        }
    }
}

/// The diagnostic of an error. It tells which step failed.
pub open spec fn error_text(error: PipelineErrorView) -> Seq<char> {
    match error {
        PipelineErrorView::DeviceNotFound => "Device not found"@,
        PipelineErrorView::NoDefaultDevice => "No default device found"@,
        PipelineErrorView::OpenFailed(reason) => "Cannot open device: "@ + reason,
        PipelineErrorView::InvalidFilter(reason) => "Invalid filter: "@ + reason,
        PipelineErrorView::Sink(reason) => "Cannot close output: "@ + reason,
        PipelineErrorView::UnexpectedEvent => "Unexpected event"@,
    }
}

impl PipelineError {
    /// The diagnostic of the error.
    pub fn message(&self) -> (text: String)
        ensures
            text@ == error_text(self@),
    {
        match self {
            PipelineError::DeviceNotFound => "Device not found".to_string(),
            PipelineError::NoDefaultDevice => "No default device found".to_string(),
            PipelineError::OpenFailed(reason) => {
                let mut text = "Cannot open device: ".to_string();
                text.append(reason.as_str());
                text
            },
            PipelineError::InvalidFilter(reason) => {
                let mut text = "Invalid filter: ".to_string();
                text.append(reason.as_str());
                text
            },
            PipelineError::Sink(reason) => {
                let mut text = "Cannot close output: ".to_string();
                text.append(reason.as_str());
                text
            },
            PipelineError::UnexpectedEvent => "Unexpected event".to_string(),
        }
    }
}

/// The phases of a capture.
#[derive(Clone, Copy, Debug, PartialEq, Eq, Structural)]
pub enum Phase {
    /// The device is being resolved and opened.
    Opening,
    /// The filter expression is being applied.
    Filtering,
    /// Frames are read, decoded and sent on.
    Running,
    /// The output sink is being flushed and closed.
    Draining,
    /// The capture has ended and the device is released.
    Closed,
    /// The capture has ended with an error.
    Failed,
}

/// The state of a capture loop: its phase and, while running, what it waits for.
#[derive(Clone, Debug)]
pub enum CaptureLoop {
    /// Waiting to hear which devices there are, or which one is the default.
    Resolving { wanted: Option<String>, filter: Option<String>, output: Option<String> },
    /// Waiting for the device to be opened.
    Opening { filter: Option<String>, persist: bool },
    /// Waiting for the filter to be applied.
    Filtering { persist: bool },
    /// Running, and waiting to hear whether cancellation was requested.
    Polling { persist: bool },
    /// Running, and waiting for the read to return.
    Reading { persist: bool },
    /// Running, and waiting for the output sink to take the frame of `record`.
    Persisting { record: PacketInfo },
    /// Running, and waiting for the consumer to take a record.
    Delivering { persist: bool },
    /// Waiting for the output sink to be flushed and closed.
    Draining,
    /// Ended in good order.
    Closed,
    /// Ended with an error.
    Failed,
}

/// What the code around the loop is asked to do next.
#[derive(Debug)]
pub enum Action {
    /// Tell the names of the devices that the system offers.
    ListDevices,
    /// Tell the name of the default device, if the system has one.
    FindDefaultDevice,
    /// Open the device of this name; open the output sink where a path is given.
    Open { device: String, output: Option<String> },
    /// Apply the filter expression to the open device.
    ApplyFilter { expression: String },
    /// Tell whether cancellation was requested.
    CheckCancellation,
    /// Read one frame, waiting no longer than the read timeout.
    ReadFrame,
    /// Append the bytes to the output sink and flush it.
    Persist { bytes: Vec<u8> },
    /// Send the record to the consumer, waiting while its channel is full.
    Deliver { record: PacketInfo },
    /// Flush and close the output sink, if there is one.
    Drain,
    /// Release the device and return the result.
    Finish { result: Result<(), PipelineError> },
    /// Nothing: the capture has ended before.
    Nothing,
}

/// What the code around the loop reports back.
#[derive(Clone, Debug)]
pub enum Event {
    /// The names of the devices that the system offers.
    Devices(Vec<String>),
    /// The name of the default device, if the system has one.
    DefaultDevice(Option<String>),
    /// The device is open.
    Opened,
    /// The devices could not be asked for, or the device could not be opened.
    OpenFailed(String),
    /// The filter is in place.
    FilterApplied,
    /// The filter expression was refused.
    FilterRejected(String),
    /// Cancellation was requested.
    Cancelled,
    /// Cancellation was not requested.
    NotCancelled,
    /// The read returned a frame.
    Frame(RawFrame),
    /// The read timed out without a frame.
    TimedOut,
    /// The read failed.
    ReadFailed,
    /// The output sink took the bytes.
    Persisted,
    /// The output sink did not take the bytes.
    PersistFailed,
    /// The consumer took the record.
    Delivered,
    /// The consumer is gone.
    ReceiverClosed,
    /// The output sink is flushed and closed, or there was none.
    Drained,
    /// The output sink could not be flushed and closed.
    DrainFailed(String),
}

/// A state of the capture loop as contracts see it.
#[verifier::ext_equal]
pub enum CaptureLoopView {
    Resolving { wanted: Option<Seq<char>>, filter: Option<Seq<char>>, output: Option<Seq<char>> },
    Opening { filter: Option<Seq<char>>, persist: bool },
    Filtering { persist: bool },
    Polling { persist: bool },
    Reading { persist: bool },
    Persisting { record: PacketInfoView },
    Delivering { persist: bool },
    Draining,
    Closed,
    Failed,
}

/// An action as contracts see it.
#[verifier::ext_equal]
pub enum ActionView {
    ListDevices,
    FindDefaultDevice,
    Open { device: Seq<char>, output: Option<Seq<char>> },
    ApplyFilter { expression: Seq<char> },
    CheckCancellation,
    ReadFrame,
    Persist { bytes: Seq<u8> },
    Deliver { record: PacketInfoView },
    Drain,
    Finish { result: Result<(), PipelineErrorView> },
    Nothing,
}

/// An event as contracts see it.
#[verifier::ext_equal]
pub enum EventView {
    Devices(Seq<Seq<char>>),
    DefaultDevice(Option<Seq<char>>),
    Opened,
    OpenFailed(Seq<char>),
    FilterApplied,
    FilterRejected(Seq<char>),
    Cancelled,
    NotCancelled,
    Frame(RawFrameView),
    TimedOut,
    ReadFailed,
    Persisted,
    PersistFailed,
    Delivered,
    ReceiverClosed,
    Drained,
    DrainFailed(Seq<char>),
}

/// The text of a string that may be absent.
pub open spec fn text_of(s: Option<String>) -> Option<Seq<char>> {
    match s {
        Some(text) => Some(text@),
        None => None,
    }
}

impl View for CaptureLoop {
    type V = CaptureLoopView;

    open spec fn view(&self) -> CaptureLoopView {
        match *self {
            CaptureLoop::Resolving { wanted, filter, output } => CaptureLoopView::Resolving {
                wanted: text_of(wanted),
                filter: text_of(filter),
                output: text_of(output),
            },
            CaptureLoop::Opening { filter, persist } => CaptureLoopView::Opening {
                filter: text_of(filter),
                persist,
            },
            CaptureLoop::Filtering { persist } => CaptureLoopView::Filtering { persist },
            CaptureLoop::Polling { persist } => CaptureLoopView::Polling { persist },
            CaptureLoop::Reading { persist } => CaptureLoopView::Reading { persist },
            CaptureLoop::Persisting { record } => CaptureLoopView::Persisting { record: record@ },
            CaptureLoop::Delivering { persist } => CaptureLoopView::Delivering { persist },
            CaptureLoop::Draining => CaptureLoopView::Draining,
            CaptureLoop::Closed => CaptureLoopView::Closed,
            CaptureLoop::Failed => CaptureLoopView::Failed,
        }
    }
}

impl View for Action {
    type V = ActionView;

    open spec fn view(&self) -> ActionView {
        match *self {
            Action::ListDevices => ActionView::ListDevices,
            Action::FindDefaultDevice => ActionView::FindDefaultDevice,
            Action::Open { device, output } => ActionView::Open {
                device: device@,
                output: text_of(output),
            },
            Action::ApplyFilter { expression } => ActionView::ApplyFilter { expression: expression@ },
            Action::CheckCancellation => ActionView::CheckCancellation,
            Action::ReadFrame => ActionView::ReadFrame,
            Action::Persist { bytes } => ActionView::Persist { bytes: bytes@ },
            Action::Deliver { record } => ActionView::Deliver { record: record@ },
            Action::Drain => ActionView::Drain,
            Action::Finish { result } => ActionView::Finish {
                result: match result {
                    Ok(_) => Ok(()),
                    Err(error) => Err(error@),
                },
            },
            Action::Nothing => ActionView::Nothing,
        }
    }
}

impl View for Event {
    type V = EventView;

    open spec fn view(&self) -> EventView {
        match *self {
            Event::Devices(names) => EventView::Devices(texts(names@)),
            Event::DefaultDevice(name) => EventView::DefaultDevice(text_of(name)),
            Event::Opened => EventView::Opened,
            Event::OpenFailed(reason) => EventView::OpenFailed(reason@),
            Event::FilterApplied => EventView::FilterApplied,
            Event::FilterRejected(reason) => EventView::FilterRejected(reason@),
            Event::Cancelled => EventView::Cancelled,
            Event::NotCancelled => EventView::NotCancelled,
            Event::Frame(frame) => EventView::Frame(frame@),
            Event::TimedOut => EventView::TimedOut,
            Event::ReadFailed => EventView::ReadFailed,
            Event::Persisted => EventView::Persisted,
            Event::PersistFailed => EventView::PersistFailed,
            Event::Delivered => EventView::Delivered,
            Event::ReceiverClosed => EventView::ReceiverClosed,
            Event::Drained => EventView::Drained,
            Event::DrainFailed(reason) => EventView::DrainFailed(reason@),
        }
    }
}

/// The phase that a state belongs to.
pub open spec fn phase_of(state: CaptureLoopView) -> Phase {
    match state {
        CaptureLoopView::Resolving { .. } => Phase::Opening,
        CaptureLoopView::Opening { .. } => Phase::Opening,
        CaptureLoopView::Filtering { .. } => Phase::Filtering,
        CaptureLoopView::Polling { .. } => Phase::Running,
        CaptureLoopView::Reading { .. } => Phase::Running,
        CaptureLoopView::Persisting { .. } => Phase::Running,
        CaptureLoopView::Delivering { .. } => Phase::Running,
        CaptureLoopView::Draining => Phase::Draining,
        CaptureLoopView::Closed => Phase::Closed,
        CaptureLoopView::Failed => Phase::Failed,
    }
}

/// Whether a capture in this state has ended.
pub open spec fn ended(state: CaptureLoopView) -> bool {
    state is Closed || state is Failed
}

/// The end of a capture with an error.
pub open spec fn failure(error: PipelineErrorView) -> (CaptureLoopView, ActionView) {
    (CaptureLoopView::Failed, ActionView::Finish { result: Err(error) })
}

/// The step from a resolved device to its opening.
pub open spec fn opening(
    device: Seq<char>,
    filter: Option<Seq<char>>,
    output: Option<Seq<char>>,
) -> (CaptureLoopView, ActionView) {
    (
        CaptureLoopView::Opening { filter, persist: output is Some },
        ActionView::Open { device, output },
    )
}

/// The start of a read cycle: cancellation is looked at before anything is read.
pub open spec fn read_cycle(persist: bool) -> (CaptureLoopView, ActionView) {
    (CaptureLoopView::Polling { persist }, ActionView::CheckCancellation)
}

/// The way out of the running phase.
pub open spec fn drain() -> (CaptureLoopView, ActionView) {
    (CaptureLoopView::Draining, ActionView::Drain)
}

/// The state that follows `state` on `event`, and what is to be done next.
///
/// An ended capture stays as it is. Elsewhere an event that the state does not
/// wait for ends the capture with an error.
pub open spec fn next(state: CaptureLoopView, event: EventView) -> (CaptureLoopView, ActionView) {
    match state {
        CaptureLoopView::Resolving { wanted, filter, output } => match event {
            EventView::Devices(names) => match wanted {
                Some(name) => if names.contains(name) {
                    opening(name, filter, output)
                } else {
                    failure(PipelineErrorView::DeviceNotFound)
                },
                None => failure(PipelineErrorView::UnexpectedEvent),
            },
            EventView::DefaultDevice(found) => match wanted {
                None => match found {
                    Some(name) => opening(name, filter, output),
                    None => failure(PipelineErrorView::NoDefaultDevice),
                },
                Some(_) => failure(PipelineErrorView::UnexpectedEvent),
            },
            EventView::OpenFailed(reason) => failure(PipelineErrorView::OpenFailed(reason)),
            _ => failure(PipelineErrorView::UnexpectedEvent),
        },
        CaptureLoopView::Opening { filter, persist } => match event {
            EventView::Opened => match filter {
                Some(expression) => (
                    CaptureLoopView::Filtering { persist },
                    ActionView::ApplyFilter { expression },
                ),
                None => read_cycle(persist),
            },
            EventView::OpenFailed(reason) => failure(PipelineErrorView::OpenFailed(reason)),
            _ => failure(PipelineErrorView::UnexpectedEvent),
        },
        CaptureLoopView::Filtering { persist } => match event {
            EventView::FilterApplied => read_cycle(persist),
            EventView::FilterRejected(reason) => failure(PipelineErrorView::InvalidFilter(reason)),
            _ => failure(PipelineErrorView::UnexpectedEvent),
        },
        CaptureLoopView::Polling { persist } => match event {
            EventView::Cancelled => drain(),
            EventView::NotCancelled => (CaptureLoopView::Reading { persist }, ActionView::ReadFrame),
            _ => failure(PipelineErrorView::UnexpectedEvent),
        },
        CaptureLoopView::Reading { persist } => match event {
            EventView::Frame(frame) => if persist {
                (
                    CaptureLoopView::Persisting { record: decoded(frame) },
                    ActionView::Persist { bytes: frame.data },
                )
            } else {
                (
                    CaptureLoopView::Delivering { persist },
                    ActionView::Deliver { record: decoded(frame) },
                )
            },
            EventView::TimedOut => read_cycle(persist),
            EventView::ReadFailed => drain(),
            _ => failure(PipelineErrorView::UnexpectedEvent),
        },
        CaptureLoopView::Persisting { record } => match event {
            EventView::Persisted | EventView::PersistFailed => (
                CaptureLoopView::Delivering { persist: true },
                ActionView::Deliver { record },
            ),
            _ => failure(PipelineErrorView::UnexpectedEvent),
        },
        CaptureLoopView::Delivering { persist } => match event {
            EventView::Delivered => read_cycle(persist),
            EventView::ReceiverClosed => drain(),
            _ => failure(PipelineErrorView::UnexpectedEvent),
        },
        CaptureLoopView::Draining => match event {
            EventView::Drained => (CaptureLoopView::Closed, ActionView::Finish { result: Ok(()) }),
            EventView::DrainFailed(reason) => failure(PipelineErrorView::Sink(reason)),
            _ => failure(PipelineErrorView::UnexpectedEvent),
        },
        CaptureLoopView::Closed => (CaptureLoopView::Closed, ActionView::Nothing),
        CaptureLoopView::Failed => (CaptureLoopView::Failed, ActionView::Nothing),
    }
}

/// The first state of a capture and the first thing to do: to find the device
/// that was named among those that the system offers, or the default device
/// where none was named.
pub open spec fn started(
    interface: Option<Seq<char>>,
    filter: Option<Seq<char>>,
    output: Option<Seq<char>>,
) -> (CaptureLoopView, ActionView) {
    (
        CaptureLoopView::Resolving { wanted: interface, filter, output },
        if interface is Some {
            ActionView::ListDevices
        } else {
            ActionView::FindDefaultDevice
        },
    )
}

/// Begins a capture on the named device, or on the default device where none is
/// named, with a capture filter and a path for the output file if wanted.
pub fn start_capture(
    interface: Option<String>,
    filter: Option<String>,
    output: Option<String>,
) -> (r: (CaptureLoop, Action))
    ensures
        (r.0@, r.1@) == started(text_of(interface), text_of(filter), text_of(output)),
{
    let action = if interface.is_some() {
        Action::ListDevices
    } else {
        Action::FindDefaultDevice
    };
    (CaptureLoop::Resolving { wanted: interface, filter, output }, action)
}

fn open(device: String, filter: Option<String>, output: Option<String>) -> (r: (CaptureLoop, Action))
    ensures
        (r.0@, r.1@) == opening(device@, text_of(filter), text_of(output)),
{
    let persist = output.is_some();
    (CaptureLoop::Opening { filter, persist }, Action::Open { device, output })
}

fn fail(error: PipelineError) -> (r: (CaptureLoop, Action))
    ensures
        (r.0@, r.1@) == failure(error@),
{
    (CaptureLoop::Failed, Action::Finish { result: Err(error) })
}

impl CaptureLoop {
    /// The phase of the capture.
    pub fn phase(&self) -> (phase: Phase)
        ensures
            phase == phase_of(self@),
    {
        match self {
            CaptureLoop::Resolving { .. } => Phase::Opening,
            CaptureLoop::Opening { .. } => Phase::Opening,
            CaptureLoop::Filtering { .. } => Phase::Filtering,
            CaptureLoop::Polling { .. } => Phase::Running,
            CaptureLoop::Reading { .. } => Phase::Running,
            CaptureLoop::Persisting { .. } => Phase::Running,
            CaptureLoop::Delivering { .. } => Phase::Running,
            CaptureLoop::Draining => Phase::Draining,
            CaptureLoop::Closed => Phase::Closed,
            CaptureLoop::Failed => Phase::Failed,
        }
    }

    /// Takes in what was reported and decides what is done next.
    pub fn step(self, event: Event) -> (r: (CaptureLoop, Action))
        ensures
            (r.0@, r.1@) == next(self@, event@),
    {
        match self {
            CaptureLoop::Resolving { wanted, filter, output } => match event {
                Event::Devices(names) => match wanted {
                    Some(name) => {
                        if has_text(&names, name.as_str()) {
                            open(name, filter, output)
                        } else {
                            fail(PipelineError::DeviceNotFound)
                        }
                    },
                    None => fail(PipelineError::UnexpectedEvent),
                },
                Event::DefaultDevice(found) => match wanted {
                    None => match found {
                        Some(name) => open(name, filter, output),
                        None => fail(PipelineError::NoDefaultDevice),
                    },
                    Some(_) => fail(PipelineError::UnexpectedEvent),
                },
                Event::OpenFailed(reason) => fail(PipelineError::OpenFailed(reason)),
                _ => fail(PipelineError::UnexpectedEvent),
            },
            CaptureLoop::Opening { filter, persist } => match event {
                Event::Opened => match filter {
                    Some(expression) => (
                        CaptureLoop::Filtering { persist },
                        Action::ApplyFilter { expression },
                    ),
                    None => (CaptureLoop::Polling { persist }, Action::CheckCancellation),
                },
                Event::OpenFailed(reason) => fail(PipelineError::OpenFailed(reason)),
                _ => fail(PipelineError::UnexpectedEvent),
            },
            CaptureLoop::Filtering { persist } => match event {
                Event::FilterApplied => (CaptureLoop::Polling { persist }, Action::CheckCancellation),
                Event::FilterRejected(reason) => fail(PipelineError::InvalidFilter(reason)),
                _ => fail(PipelineError::UnexpectedEvent),
            },
            CaptureLoop::Polling { persist } => match event {
                Event::Cancelled => (CaptureLoop::Draining, Action::Drain),
                Event::NotCancelled => (CaptureLoop::Reading { persist }, Action::ReadFrame),
                _ => fail(PipelineError::UnexpectedEvent),
            },
            CaptureLoop::Reading { persist } => match event {
                Event::Frame(frame) => {
                    let record = decode(&frame);
                    if persist {
                        (CaptureLoop::Persisting { record }, Action::Persist { bytes: frame.data })
                    } else {
                        (CaptureLoop::Delivering { persist }, Action::Deliver { record })
                    }
                },
                Event::TimedOut => (CaptureLoop::Polling { persist }, Action::CheckCancellation),
                Event::ReadFailed => (CaptureLoop::Draining, Action::Drain),
                _ => fail(PipelineError::UnexpectedEvent),
            },
            CaptureLoop::Persisting { record } => match event {
                Event::Persisted | Event::PersistFailed => (
                    CaptureLoop::Delivering { persist: true },
                    Action::Deliver { record },
                ),
                _ => fail(PipelineError::UnexpectedEvent),
            },
            CaptureLoop::Delivering { persist } => match event {
                Event::Delivered => (CaptureLoop::Polling { persist }, Action::CheckCancellation),
                Event::ReceiverClosed => (CaptureLoop::Draining, Action::Drain),
                _ => fail(PipelineError::UnexpectedEvent),
            },
            CaptureLoop::Draining => match event {
                Event::Drained => (CaptureLoop::Closed, Action::Finish { result: Ok(()) }),
                Event::DrainFailed(reason) => fail(PipelineError::Sink(reason)),
                _ => fail(PipelineError::UnexpectedEvent),
            },
            CaptureLoop::Closed => (CaptureLoop::Closed, Action::Nothing),
            CaptureLoop::Failed => (CaptureLoop::Failed, Action::Nothing),
        }
    }
}

/// The state that a capture is in after the events of a run, in order.
pub open spec fn state_after(state: CaptureLoopView, events: Seq<EventView>) -> CaptureLoopView
    decreases events.len(),
{
    if events.len() == 0 {
        state
    } else {
        next(state_after(state, events.drop_last()), events.last()).0
    }
}

/// The action that answers the event at `index` of a run.
pub open spec fn action_at(state: CaptureLoopView, events: Seq<EventView>, index: int) -> ActionView {
    next(state_after(state, events.take(index)), events[index]).1
}

/// The records that a run hands to the consumer, in order.
pub open spec fn delivered(state: CaptureLoopView, events: Seq<EventView>) -> Seq<PacketInfoView>
    decreases events.len(),
{
    if events.len() == 0 {
        Seq::empty()
    } else {
        let before = delivered(state, events.drop_last());
        match next(state_after(state, events.drop_last()), events.last()).1 {
            ActionView::Deliver { record } => before.push(record),
            _ => before,
        }
    }
}

/// The frames that a run takes from the device, in order: those reported while
/// the loop waits for a read.
pub open spec fn accepted(state: CaptureLoopView, events: Seq<EventView>) -> Seq<RawFrameView>
    decreases events.len(),
{
    if events.len() == 0 {
        Seq::empty()
    } else {
        let before = accepted(state, events.drop_last());
        match (state_after(state, events.drop_last()), events.last()) {
            (CaptureLoopView::Reading { .. }, EventView::Frame(frame)) => before.push(frame),
            _ => before,
        }
    }
}

/// The record that a state holds back for the consumer.
pub open spec fn pending(state: CaptureLoopView) -> Seq<PacketInfoView> {
    match state {
        CaptureLoopView::Persisting { record } => seq![record],
        _ => Seq::empty(),
    }
}

/// Whether `state` waits for `event`. A capture that has ended waits for nothing
/// and takes everything.
pub open spec fn awaited(state: CaptureLoopView, event: EventView) -> bool {
    match state {
        CaptureLoopView::Resolving { wanted, .. } => (wanted is Some && event is Devices) || (
        wanted is None && event is DefaultDevice) || event is OpenFailed,
        CaptureLoopView::Opening { .. } => event is Opened || event is OpenFailed,
        CaptureLoopView::Filtering { .. } => event is FilterApplied || event is FilterRejected,
        CaptureLoopView::Polling { .. } => event is Cancelled || event is NotCancelled,
        CaptureLoopView::Reading { .. } => event is Frame || event is TimedOut || event is ReadFailed,
        CaptureLoopView::Persisting { .. } => event is Persisted || event is PersistFailed,
        CaptureLoopView::Delivering { .. } => event is Delivered || event is ReceiverClosed,
        CaptureLoopView::Draining => event is Drained || event is DrainFailed,
        CaptureLoopView::Closed => true,
        CaptureLoopView::Failed => true,
    }
}

/// Whether every event of a run is one that the loop waited for.
pub open spec fn orderly(state: CaptureLoopView, events: Seq<EventView>) -> bool {
    forall|i: int|
        0 <= i < events.len() ==> awaited(#[trigger] state_after(state, events.take(i)), events[i])
}

/// A capture that is draining or has ended hands out no record, and has ended
/// after the next event.
pub proof fn lemma_winding_down(state: CaptureLoopView, event: EventView)
    requires
        state is Draining || ended(state),
    ensures
        ended(next(state, event).0),
        !(next(state, event).1 is Deliver),
{
}

/// Cancellation is looked at before every read: a read is asked for only in
/// answer to the report that cancellation was not requested.
pub proof fn lemma_read_follows_poll(state: CaptureLoopView, event: EventView)
    requires
        next(state, event).1 is ReadFrame,
    ensures
        state is Polling,
        event is NotCancelled,
{
}

/// While a record waits for the consumer, nothing else is read, stored or sent:
/// the loop goes on to the next read cycle only when the record was taken.
pub proof fn lemma_send_blocks(state: CaptureLoopView, event: EventView)
    requires
        state is Delivering,
    ensures
        !(next(state, event).1 is ReadFrame),
        !(next(state, event).1 is Persist),
        !(next(state, event).1 is Deliver),
        phase_of(next(state, event).0) == Phase::Running ==> event is Delivered && next(
            state,
            event,
        ).0 is Polling,
{
}

proof fn lemma_take_drop_last(events: Seq<EventView>, k: int)
    requires
        0 < k <= events.len(),
    ensures
        events.take(k).drop_last() == events.take(k - 1),
        events.take(k).last() == events[k - 1],
{
    assert(events.take(k).drop_last() =~= events.take(k - 1));
}

/// After cancellation was reported, whatever the state: no record is handed to
/// the consumer any more, the capture is out of its running phase at once, and
/// it has ended one event later, whatever is reported.
pub proof fn lemma_cancellation_stops(state: CaptureLoopView, events: Seq<EventView>, at: int)
    requires
        0 <= at < events.len(),
        events[at] is Cancelled,
    ensures
        forall|i: int| at <= i < events.len() ==> !(action_at(state, events, i) is Deliver),
        forall|i: int|
            at < i <= events.len() ==> {
                let reached = #[trigger] state_after(state, events.take(i));
                reached is Draining || ended(reached)
            },
        forall|i: int| at + 1 < i <= events.len() ==> ended(#[trigger] state_after(state, events.take(i))),
        state_after(state, events.take(at)) is Polling ==> state_after(state, events.take(at + 1))
            is Draining,
{
    lemma_take_drop_last(events, at + 1);
    assert forall|i: int| at < i <= events.len() implies ({
        let reached = #[trigger] state_after(state, events.take(i));
        &&& reached is Draining || ended(reached)
        &&& at + 1 < i ==> ended(reached)
        &&& !(action_at(state, events, i - 1) is Deliver)
    }) by {
        lemma_cancelled_run(state, events, at, i);
    }
    assert forall|i: int| at <= i < events.len() implies !(action_at(state, events, i) is Deliver) by {
        lemma_cancelled_run(state, events, at, i + 1);
    }
}

proof fn lemma_cancelled_run(state: CaptureLoopView, events: Seq<EventView>, at: int, i: int)
    requires
        0 <= at < i <= events.len(),
        events[at] is Cancelled,
    ensures
        state_after(state, events.take(i)) is Draining || ended(state_after(state, events.take(i))),
        at + 1 < i ==> ended(state_after(state, events.take(i))),
        !(action_at(state, events, i - 1) is Deliver),
    decreases i,
{
    lemma_take_drop_last(events, i);
    if i > at + 1 {
        lemma_cancelled_run(state, events, at, i - 1);
        lemma_winding_down(state_after(state, events.take(i - 1)), events[i - 1]);
    }
}

/// In a run whose events are all ones that the loop waited for, every frame
/// that was read gives exactly one record, and the records reach the consumer in
/// the order in which their frames were read: what was handed over, followed by
/// the record still held back, is what was held back at the start followed by
/// the decoded frames.
pub proof fn lemma_records_in_capture_order(state: CaptureLoopView, events: Seq<EventView>)
    requires
        orderly(state, events),
    ensures
        delivered(state, events) + pending(state_after(state, events)) == pending(state) + accepted(
            state,
            events,
        ).map_values(|frame: RawFrameView| decoded(frame)),
    decreases events.len(),
{
    let decode_all = |frame: RawFrameView| decoded(frame);
    if events.len() == 0 {
        assert(accepted(state, events).map_values(decode_all) =~= Seq::empty());
        assert(delivered(state, events) + pending(state) =~= pending(state) + Seq::empty());
    } else {
        let earlier = events.drop_last();
        assert forall|i: int| 0 <= i < earlier.len() implies awaited(
            #[trigger] state_after(state, earlier.take(i)),
            earlier[i],
        ) by {
            assert(earlier.take(i) =~= events.take(i));
        }
        lemma_records_in_capture_order(state, earlier);
        assert(events.take(events.len() - 1) =~= earlier);
        let reached = state_after(state, earlier);
        assert(awaited(reached, events.last()));
        let frames = accepted(state, earlier);
        match (reached, events.last()) {
            (CaptureLoopView::Reading { .. }, EventView::Frame(frame)) => {
                assert(frames.push(frame).map_values(decode_all) =~= frames.map_values(
                    decode_all,
                ).push(decoded(frame)));
            },
            _ => {},
        }
        assert(delivered(state, events) + pending(state_after(state, events)) =~= pending(state)
            + accepted(state, events).map_values(decode_all));
    }
}

proof fn lemma_records_kept_or_cut(state: CaptureLoopView, events: Seq<EventView>)
    ensures
        ({
            let handed = delivered(state, events) + pending(state_after(state, events));
            let read = pending(state) + accepted(state, events).map_values(
                |frame: RawFrameView| decoded(frame),
            );
            handed == read || (state_after(state, events) is Failed && handed.is_prefix_of(read))
        }),
    decreases events.len(),
{
    let decode_all = |frame: RawFrameView| decoded(frame);
    if events.len() == 0 {
        assert(accepted(state, events).map_values(decode_all) =~= Seq::empty());
        assert(delivered(state, events) + pending(state) =~= pending(state) + Seq::empty());
    } else {
        let earlier = events.drop_last();
        lemma_records_kept_or_cut(state, earlier);
        let reached = state_after(state, earlier);
        let frames = accepted(state, earlier);
        let handed = delivered(state, events) + pending(state_after(state, events));
        let read = pending(state) + accepted(state, events).map_values(decode_all);
        let handed_earlier = delivered(state, earlier) + pending(reached);
        let read_earlier = pending(state) + frames.map_values(decode_all);
        match (reached, events.last()) {
            (CaptureLoopView::Reading { .. }, EventView::Frame(frame)) => {
                assert(frames.push(frame).map_values(decode_all) =~= frames.map_values(
                    decode_all,
                ).push(decoded(frame)));
            },
            _ => {},
        }
        if reached is Failed {
            assert(handed =~= handed_earlier);
            assert(read =~= read_earlier);
        } else if awaited(reached, events.last()) {
            assert(handed =~= read);
        } else {
            assert(read =~= read_earlier);
            assert(handed =~= delivered(state, earlier));
            assert(handed.is_prefix_of(handed_earlier));
        }
    }
}

/// In every run, whatever is reported: the records handed to the consumer are
/// the decoded frames in the order in which they were read. None is made up and
/// none overtakes another; only a capture that fails may end on a record that
/// was read and not handed over.
pub proof fn lemma_records_never_reordered(state: CaptureLoopView, events: Seq<EventView>)
    ensures
        (delivered(state, events) + pending(state_after(state, events))).is_prefix_of(
            pending(state) + accepted(state, events).map_values(|frame: RawFrameView| decoded(frame)),
        ),
{
    lemma_records_kept_or_cut(state, events);
}

/// How often a run is told to release the device and to return.
pub open spec fn finishes(state: CaptureLoopView, events: Seq<EventView>) -> nat
    decreases events.len(),
{
    if events.len() == 0 {
        0
    } else {
        let before = finishes(state, events.drop_last());
        if next(state_after(state, events.drop_last()), events.last()).1 is Finish {
            before + 1
        } else {
            before
        }
    }
}

/// The loop tells to release the device and to return exactly at the step on
/// which the capture ends.
pub proof fn lemma_finish_marks_the_end(state: CaptureLoopView, event: EventView)
    ensures
        next(state, event).1 is Finish <==> !ended(state) && ended(next(state, event).0),
        ended(state) ==> next(state, event).0 == state,
        next(state, event).0 is Closed && !ended(state) ==> next(state, event).1
            == (ActionView::Finish { result: Ok(()) }),
        next(state, event).0 is Failed && !ended(state) ==> next(state, event).1 matches ActionView::Finish {
            result: Err(_),
        },
{
}

/// The device is released exactly once: a run from a state in which the capture
/// has not ended is told to finish once if the capture ends in it, and not at
/// all while the capture goes on.
pub proof fn lemma_finished_once(state: CaptureLoopView, events: Seq<EventView>)
    requires
        !ended(state),
    ensures
        finishes(state, events) == (if ended(state_after(state, events)) {
            1nat
        } else {
            0nat
        }),
    decreases events.len(),
{
    if events.len() > 0 {
        lemma_finished_once(state, events.drop_last());
        lemma_finish_marks_the_end(state_after(state, events.drop_last()), events.last());
    }
}

} // verus!
