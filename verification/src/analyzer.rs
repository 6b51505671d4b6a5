//! Dissection of a frame into a record, layer by layer.
//!
//! The headers are cut by `etherparse` and DNS messages are read by `dns_parser`.
//! What they find is held in [`Layers`] and [`DnsMessage`] as plain values, and the
//! rules that turn those into a record are stated and proved here.

use vstd::prelude::*;
use etherparse::{InternetSlice, SlicedPacket, TransportSlice};
use crate::text::{
    decimal_u16, decimal_u8, push_char, push_decimal_u16, push_decimal_u8, texts,
};
use crate::ui::{PacketInfo, PacketInfoView};

verus! {

/// The network layer of a frame.
#[derive(Clone, Debug)]
#[allow(inconsistent_fields)]
pub enum InternetLayer {
    /// IPv4, with the four bytes of each address.
    Ipv4 { source: [u8; 4], destination: [u8; 4] },
    /// IPv6, with each address in the text form that the standard library gives it.
    Ipv6 { source: String, destination: String },
}

/// The transport layer of a frame.
#[derive(Clone, Copy, Debug, PartialEq, Eq, Structural)]
pub enum TransportLayer {
    Tcp {
        source_port: u16,
        destination_port: u16,
        syn: bool,
        ack: bool,
        fin: bool,
        rst: bool,
        psh: bool,
        urg: bool,
    },
    Udp { source_port: u16, destination_port: u16 },
    Icmpv4 { icmp_type: u8, code: u8 },
    Icmpv6 { icmp_type: u8, code: u8 },
    /// A protocol that is not dissected, with its IP protocol number.
    Unknown(u8),
}

/// What a frame holds above its link layer.
#[derive(Clone, Debug)]
pub struct Layers {
    /// The network layer, if the frame carries IPv4 or IPv6.
    pub ip: Option<InternetLayer>,
    /// The transport layer, if there is one that can be told.
    pub transport: Option<TransportLayer>,
    /// What follows the last header that was read.
    pub payload: Vec<u8>,
}

/// A DNS message, as far as a record speaks of it.
#[derive(Clone, Debug)]
pub struct DnsMessage {
    /// Whether the message is a query; otherwise it is a response.
    pub query: bool,
    /// The names asked for, in the order of the question section.
    pub questions: Vec<String>,
}

/// A network layer as contracts see it: addresses as sequences.
#[verifier::ext_equal]
#[allow(inconsistent_fields)]
pub enum InternetView {
    Ipv4 { source: Seq<u8>, destination: Seq<u8> },
    Ipv6 { source: Seq<char>, destination: Seq<char> },
}

/// The layers of a frame as contracts see them.
#[verifier::ext_equal]
pub struct LayersView {
    pub ip: Option<InternetView>,
    pub transport: Option<TransportLayer>,
    pub payload: Seq<u8>,
}

/// A DNS message as contracts see it.
#[verifier::ext_equal]
pub struct DnsMessageView {
    pub query: bool,
    pub questions: Seq<Seq<char>>,
}

impl View for InternetLayer {
    type V = InternetView;

    open spec fn view(&self) -> InternetView {
        match *self {
            InternetLayer::Ipv4 { source, destination } => InternetView::Ipv4 {
                source: source@,
                destination: destination@,
            },
            InternetLayer::Ipv6 { source, destination } => InternetView::Ipv6 {
                source: source@,
                destination: destination@,
            },
        }
    }
}

/// The view of a network layer that may be absent.
pub open spec fn internet_view(ip: Option<InternetLayer>) -> Option<InternetView> {
    match ip {
        Some(layer) => Some(layer@),
        None => None,
    }
}

impl View for Layers {
    type V = LayersView;

    open spec fn view(&self) -> LayersView {
        LayersView {
            ip: internet_view(self.ip),
            transport: self.transport,
            payload: self.payload@,
        }
    }
}

impl View for DnsMessage {
    type V = DnsMessageView;

    open spec fn view(&self) -> DnsMessageView {
        DnsMessageView { query: self.query, questions: texts(self.questions@) }
    }
}

/// What `etherparse::SlicedPacket::from_ethernet` finds in a frame: nothing where
/// it reports an error, else the layers above the link layer.
pub uninterp spec fn ethernet_layers(frame: Seq<u8>) -> Option<LayersView>;

/// What `dns_parser::Packet::parse` finds in a payload: nothing where it reports
/// an error, else the query bit and the names of the question section.
pub uninterp spec fn dns_message(payload: Seq<u8>) -> Option<DnsMessageView>;

/// Slices the frame with `etherparse::SlicedPacket::from_ethernet` and hands out
/// its network layer. The outer `None` stands for a frame that cannot be sliced,
/// the inner one for a frame without IPv4 or IPv6.
#[verifier::external_body]
fn sliced_internet(frame: &[u8]) -> (r: Option<Option<InternetLayer>>)
    ensures
        match ethernet_layers(frame@) {
            Some(layers) => r matches Some(ip) && internet_view(ip) == layers.ip,
            None => r is None,
        },
{
    match SlicedPacket::from_ethernet(frame) {
        Err(_) => None,
        Ok(p) => Some(match p.ip {
            Some(InternetSlice::Ipv4(h, _)) => Some(InternetLayer::Ipv4 { source: h.source(), destination: h.destination() }),
            Some(InternetSlice::Ipv6(h, _)) => Some(InternetLayer::Ipv6 { source: h.source_addr().to_string(), destination: h.destination_addr().to_string() }),
            None => None,
        }),
    }
}

/// Slices the frame with `etherparse::SlicedPacket::from_ethernet` and hands out
/// its transport layer: ports and flags of TCP, ports of UDP, type and code of
/// ICMP. `None` stands for a frame that cannot be sliced or has no transport layer.
#[verifier::external_body]
fn sliced_transport(frame: &[u8]) -> (r: Option<TransportLayer>)
    ensures
        ethernet_layers(frame@) matches Some(layers) ==> r == layers.transport,
{
    Some(match SlicedPacket::from_ethernet(frame).ok()?.transport? {
        TransportSlice::Tcp(t) => TransportLayer::Tcp { source_port: t.source_port(), destination_port: t.destination_port(), syn: t.syn(), ack: t.ack(), fin: t.fin(), rst: t.rst(), psh: t.psh(), urg: t.urg() },
        TransportSlice::Udp(u) => TransportLayer::Udp { source_port: u.source_port(), destination_port: u.destination_port() },
        TransportSlice::Icmpv4(i) => TransportLayer::Icmpv4 { icmp_type: i.type_u8(), code: i.code_u8() },
        TransportSlice::Icmpv6(i) => TransportLayer::Icmpv6 { icmp_type: i.type_u8(), code: i.code_u8() },
        TransportSlice::Unknown(n) => TransportLayer::Unknown(n),
    })
}

/// Slices the frame with `etherparse::SlicedPacket::from_ethernet` and copies
/// what it leaves as payload.
#[verifier::external_body]
fn sliced_payload(frame: &[u8]) -> (r: Vec<u8>)
    ensures
        ethernet_layers(frame@) matches Some(layers) ==> r@ == layers.payload,
{
    match SlicedPacket::from_ethernet(frame) {
        Ok(p) => p.payload.to_vec(),
        Err(_) => Vec::new(),
    }
}

/// The longest payload that is read as a DNS message.
///
/// `dns_parser` writes a name by following its compression pointers, one call
/// inside the other, and a payload can hold a pointer in every two bytes. The
/// limit keeps that nesting to about a thousand calls.
pub const DNS_PAYLOAD_LIMIT: usize = 2048;

/// Reads a payload with `dns_parser::Packet::parse` and hands out the query bit
/// and the question names, each in the text form that the parser gives it.
/// Longer payloads are left out: on a long chain of compression pointers the
/// parser runs out of stack while it writes a name.
#[verifier::external_body]
fn parsed_dns(payload: &[u8]) -> (r: Option<DnsMessage>)
    requires
        payload@.len() <= DNS_PAYLOAD_LIMIT,
    ensures
        match dns_message(payload@) {
            Some(message) => r matches Some(found) && found@ == message,
            None => r is None,
        },
{
    match dns_parser::Packet::parse(payload) {
        Ok(dns) => Some(DnsMessage { query: dns.header.query, questions: dns.questions.iter().map(|q| q.qname.to_string()).collect() }),
        Err(_) => None,
    }
}

/// The layers of a frame above its link layer, or `None` for a frame whose
/// headers cannot be read.
pub fn slice_ethernet(frame: &[u8]) -> (r: Option<Layers>)
    ensures
        match ethernet_layers(frame@) {
            Some(layers) => r matches Some(found) && found@ == layers,
            None => r is None,
        },
{
    match sliced_internet(frame) {
        None => None,
        Some(ip) => {
            let transport = sliced_transport(frame);
            let payload = sliced_payload(frame);
            Some(Layers { ip, transport, payload })
        },
    }
}

/// The dotted form of an IPv4 address: its four bytes as decimal numerals.
pub open spec fn ipv4_text(address: Seq<u8>) -> Seq<char> {
    decimal_u8(address[0]) + seq!['.'] + decimal_u8(address[1]) + seq!['.'] + decimal_u8(
        address[2],
    ) + seq!['.'] + decimal_u8(address[3])
}

/// The parts in order, with `separator` between each two neighbours.
pub open spec fn joined(parts: Seq<Seq<char>>, separator: Seq<char>) -> Seq<char>
    decreases parts.len(),
{
    if parts.len() == 0 {
        Seq::empty()
    } else if parts.len() == 1 {
        parts[0]
    } else {
        joined(parts.drop_last(), separator) + separator + parts.last()
    }
}

/// The names of the TCP flags that are set, in the order SYN, ACK, FIN, RST, PSH, URG.
pub open spec fn flag_names(
    syn: bool,
    ack: bool,
    fin: bool,
    rst: bool,
    psh: bool,
    urg: bool,
) -> Seq<Seq<char>> {
    (if syn { seq!["SYN"@] } else { Seq::empty() })
        + (if ack { seq!["ACK"@] } else { Seq::empty() })
        + (if fin { seq!["FIN"@] } else { Seq::empty() })
        + (if rst { seq!["RST"@] } else { Seq::empty() })
        + (if psh { seq!["PSH"@] } else { Seq::empty() })
        + (if urg { seq!["URG"@] } else { Seq::empty() })
}

/// The summary of a TCP segment: the names of its set flags with one space
/// between them, and the empty text where none is set.
pub open spec fn tcp_summary(syn: bool, ack: bool, fin: bool, rst: bool, psh: bool, urg: bool) -> Seq<char> {
    joined(flag_names(syn, ack, fin, rst, psh, urg), " "@)
}

/// The summary of an ICMP message.
pub open spec fn icmp_summary(icmp_type: u8, code: u8) -> Seq<char> {
    "Type: "@ + decimal_u8(icmp_type) + ", Code: "@ + decimal_u8(code)
}

/// The summary of a DNS message: its kind, then the names asked for.
pub open spec fn dns_summary(message: DnsMessageView) -> Seq<char> {
    (if message.query { "Query"@ } else { "Response"@ }) + ": "@ + joined(message.questions, ", "@)
}

/// An address with a port behind it.
pub open spec fn endpoint(address: Seq<char>, port: u16) -> Seq<char> {
    address + ":"@ + decimal_u16(port)
}

/// The text of an IPv4 address.
pub fn ipv4_string(address: &[u8; 4]) -> (s: String)
    ensures
        s@ == ipv4_text(address@),
{
    let mut s = String::new();
    push_decimal_u8(&mut s, address[0]);
    push_char(&mut s, '.');
    push_decimal_u8(&mut s, address[1]);
    push_char(&mut s, '.');
    push_decimal_u8(&mut s, address[2]);
    push_char(&mut s, '.');
    push_decimal_u8(&mut s, address[3]);
    proof {
        assert(s@ =~= ipv4_text(address@));
    }
    s
}

/// Joins texts with a separator between each two neighbours.
pub fn join_texts(parts: &Vec<String>, separator: &str) -> (s: String)
    ensures
        s@ == joined(texts(parts@), separator@),
{
    let mut s = String::new();
    let mut i: usize = 0;
    while i < parts.len()
        invariant
            i <= parts.len(),
            s@ == joined(texts(parts@).take(i as int), separator@),
        decreases parts.len() - i,
    {
        proof {
            let before = texts(parts@).take(i as int);
            let after = texts(parts@).take(i + 1);
            assert(after.drop_last() =~= before);
            assert(after.last() == parts@[i as int]@);
        }
        if i > 0 {
            s.append(separator);
        }
        s.append(parts[i].as_str());
        i += 1;
    }
    proof {
        assert(texts(parts@).take(parts.len() as int) =~= texts(parts@));
    }
    s
}

/// The text of the set TCP flags.
pub fn tcp_flags_text(syn: bool, ack: bool, fin: bool, rst: bool, psh: bool, urg: bool) -> (s: String)
    ensures
        s@ == tcp_summary(syn, ack, fin, rst, psh, urg),
{
    let mut names: Vec<String> = Vec::new();
    if syn {
        names.push("SYN".to_string());
    }
    if ack {
        names.push("ACK".to_string());
    }
    if fin {
        names.push("FIN".to_string());
    }
    if rst {
        names.push("RST".to_string());
    }
    if psh {
        names.push("PSH".to_string());
    }
    if urg {
        names.push("URG".to_string());
    }
    proof {
        assert(texts(names@) =~= flag_names(syn, ack, fin, rst, psh, urg));
    }
    join_texts(&names, " ")
}

/// The text that tells the type and the code of an ICMP message.
pub fn icmp_text(icmp_type: u8, code: u8) -> (s: String)
    ensures
        s@ == icmp_summary(icmp_type, code),
{
    let mut s = "Type: ".to_string();
    push_decimal_u8(&mut s, icmp_type);
    s.append(", Code: ");
    push_decimal_u8(&mut s, code);
    s
}

/// Puts `:` and the port behind an address.
pub fn push_port(address: &mut String, port: u16)
    ensures
        final(address)@ == endpoint(old(address)@, port),
{
    address.append(":");
    push_decimal_u16(address, port);
}

/// Whether a transport layer is UDP with the DNS port at either end.
pub open spec fn carries_dns(transport: Option<TransportLayer>) -> bool {
    transport matches Some(TransportLayer::Udp { source_port, destination_port })
        && (source_port == 53 || destination_port == 53)
}

/// The record after its transport layer was looked at.
///
/// `dns` is what reading the payload as a DNS message gave; it counts only where
/// the transport layer [`carries_dns`].
pub open spec fn with_transport(
    record: PacketInfoView,
    transport: Option<TransportLayer>,
    dns: Option<DnsMessageView>,
) -> PacketInfoView {
    match transport {
        Some(TransportLayer::Tcp { source_port, destination_port, syn, ack, fin, rst, psh, urg }) => PacketInfoView {
            protocol: "TCP"@,
            source: endpoint(record.source, source_port),
            destination: endpoint(record.destination, destination_port),
            info: tcp_summary(syn, ack, fin, rst, psh, urg),
            ..record
        },
        Some(TransportLayer::Udp { source_port, destination_port }) => PacketInfoView {
            protocol: if carries_dns(transport) { "DNS"@ } else { "UDP"@ },
            source: endpoint(record.source, source_port),
            destination: endpoint(record.destination, destination_port),
            info: match dns {
                Some(message) if carries_dns(transport) => dns_summary(message),
                _ => record.info,
            },
            ..record
        },
        Some(TransportLayer::Icmpv4 { icmp_type, code }) => PacketInfoView {
            protocol: "ICMPv4"@,
            info: icmp_summary(icmp_type, code),
            ..record
        },
        Some(TransportLayer::Icmpv6 { icmp_type, code }) => PacketInfoView {
            protocol: "ICMPv6"@,
            info: icmp_summary(icmp_type, code),
            ..record
        },
        Some(TransportLayer::Unknown(_)) => PacketInfoView {
            protocol: "Unknown Transport"@,
            info: "Unknown transport protocol"@,
            ..record
        },
        None => PacketInfoView { info: "No transport protocol"@, ..record },
    }
}

/// The label of a network layer.
pub open spec fn internet_label(ip: InternetView) -> Seq<char> {
    match ip {
        InternetView::Ipv4 { .. } => "IPv4"@,
        InternetView::Ipv6 { .. } => "IPv6"@,
    }
}

/// The text of the address that a network layer names as the sender.
pub open spec fn source_text(ip: InternetView) -> Seq<char> {
    match ip {
        InternetView::Ipv4 { source, .. } => ipv4_text(source),
        InternetView::Ipv6 { source, .. } => source,
    }
}

/// The text of the address that a network layer names as the receiver.
pub open spec fn destination_text(ip: InternetView) -> Seq<char> {
    match ip {
        InternetView::Ipv4 { destination, .. } => ipv4_text(destination),
        InternetView::Ipv6 { destination, .. } => destination,
    }
}

/// The record after the layers of its frame were looked at.
///
/// Without a network layer the record is labelled with the link layer and keeps
/// its endpoints. With one, the label and the endpoints come from it, and the
/// transport layer refines them.
pub open spec fn with_layers(
    record: PacketInfoView,
    layers: LayersView,
    dns: Option<DnsMessageView>,
) -> PacketInfoView {
    match layers.ip {
        None => PacketInfoView { protocol: "Ethernet"@, info: "Non-IP packet"@, ..record },
        Some(ip) => with_transport(
            PacketInfoView {
                protocol: internet_label(ip),
                source: source_text(ip),
                destination: destination_text(ip),
                ..record
            },
            layers.transport,
            dns,
        ),
    }
}

/// The record after an attempt to slice its frame: a frame that cannot be sliced
/// changes nothing but the summary.
pub open spec fn with_slicing(
    record: PacketInfoView,
    layers: Option<LayersView>,
    dns: Option<DnsMessageView>,
) -> PacketInfoView {
    match layers {
        None => PacketInfoView { info: "Failed to parse packet"@, ..record },
        Some(found) => with_layers(record, found, dns),
    }
}

/// What reading the payload of these layers as a DNS message gives, where the
/// layers call for it: the transport layer carries DNS, and the payload is no
/// longer than [`DNS_PAYLOAD_LIMIT`].
pub open spec fn dns_of(layers: LayersView) -> Option<DnsMessageView> {
    if carries_dns(layers.transport) && layers.payload.len() <= DNS_PAYLOAD_LIMIT {
        dns_message(layers.payload)
    } else {
        None
    }
}

/// The record that dissecting its own bytes makes of a record.
pub open spec fn analyzed(record: PacketInfoView) -> PacketInfoView {
    match ethernet_layers(record.raw_data) {
        None => with_slicing(record, None, None),
        Some(layers) => with_slicing(record, Some(layers), dns_of(layers)),
    }
}

/// Writes the summary of a DNS message into the record.
pub fn analyze_dns(packet_info: &mut PacketInfo, dns: &DnsMessage)
    ensures
        final(packet_info)@ == (PacketInfoView { info: dns_summary(dns@), ..old(packet_info)@ }),
{
    let mut summary = if dns.query {
        "Query".to_string()
    } else {
        "Response".to_string()
    };
    summary.append(": ");
    let names = join_texts(&dns.questions, ", ");
    summary.append(names.as_str());
    packet_info.info = summary;
}

/// Refines the record by a transport layer, given what reading the payload as a
/// DNS message gave.
pub fn describe_transport(
    packet_info: &mut PacketInfo,
    transport: &Option<TransportLayer>,
    dns: &Option<DnsMessage>,
)
    ensures
        final(packet_info)@ == with_transport(
            old(packet_info)@,
            *transport,
            match *dns {
                Some(message) => Some(message@),
                None => None,
            },
        ),
{
    match transport {
        Some(TransportLayer::Tcp { source_port, destination_port, syn, ack, fin, rst, psh, urg }) => {
            packet_info.protocol = "TCP".to_string();
            push_port(&mut packet_info.source, *source_port);
            push_port(&mut packet_info.destination, *destination_port);
            packet_info.info = tcp_flags_text(*syn, *ack, *fin, *rst, *psh, *urg);
        },
        Some(TransportLayer::Udp { source_port, destination_port }) => {
            packet_info.protocol = "UDP".to_string();
            push_port(&mut packet_info.source, *source_port);
            push_port(&mut packet_info.destination, *destination_port);
            if *destination_port == 53 || *source_port == 53 {
                packet_info.protocol = "DNS".to_string();
                if let Some(message) = dns {
                    analyze_dns(packet_info, message);
                }
            }
        },
        Some(TransportLayer::Icmpv4 { icmp_type, code }) => {
            packet_info.protocol = "ICMPv4".to_string();
            packet_info.info = icmp_text(*icmp_type, *code);
        },
        Some(TransportLayer::Icmpv6 { icmp_type, code }) => {
            packet_info.protocol = "ICMPv6".to_string();
            packet_info.info = icmp_text(*icmp_type, *code);
        },
        Some(TransportLayer::Unknown(_)) => {
            packet_info.protocol = "Unknown Transport".to_string();
            packet_info.info = "Unknown transport protocol".to_string();
        },
        None => {
            packet_info.info = "No transport protocol".to_string();
        },
    }
}

/// Refines the record by the transport layer of `packet`. Where that is UDP with
/// the DNS port at either end, the payload is read as a DNS message, unless it
/// is longer than [`DNS_PAYLOAD_LIMIT`].
pub fn analyze_transport(packet_info: &mut PacketInfo, packet: &Layers)
    ensures
        final(packet_info)@ == with_transport(old(packet_info)@, packet.transport, dns_of(packet@)),
{
    let dns = match packet.transport {
        Some(TransportLayer::Udp { source_port, destination_port }) => {
            if (destination_port == 53 || source_port == 53) && packet.payload.len()
                <= DNS_PAYLOAD_LIMIT {
                parsed_dns(packet.payload.as_slice())
            } else {
                None
            }
        },
        _ => None,
    };
    describe_transport(packet_info, &packet.transport, &dns);
}

/// Writes into the record what an attempt to slice its frame gave.
pub fn analyze_layers(packet_info: &mut PacketInfo, sliced: &Option<Layers>)
    ensures
        final(packet_info)@ == with_slicing(
            old(packet_info)@,
            match *sliced {
                Some(layers) => Some(layers@),
                None => None,
            },
            match *sliced {
                Some(layers) => dns_of(layers@),
                None => None,
            },
        ),
{
    let layers = match sliced {
        Some(layers) => layers,
        None => {
            packet_info.info = "Failed to parse packet".to_string();
            return ;
        },
    };
    packet_info.protocol = "Ethernet".to_string();
    match &layers.ip {
        Some(InternetLayer::Ipv4 { source, destination }) => {
            packet_info.protocol = "IPv4".to_string();
            packet_info.source = ipv4_string(source);
            packet_info.destination = ipv4_string(destination);
        },
        Some(InternetLayer::Ipv6 { source, destination }) => {
            packet_info.protocol = "IPv6".to_string();
            packet_info.source = source.clone();
            packet_info.destination = destination.clone();
        },
        None => {
            packet_info.info = "Non-IP packet".to_string();
            return ;
        },
    }
    analyze_transport(packet_info, layers);
}

/// Dissects the bytes of the record and fills in its label, endpoints and summary.
///
/// Nothing makes this fail: a frame that cannot be read leaves a record that says so.
pub fn analyze_packet(packet_info: &mut PacketInfo)
    ensures
        final(packet_info)@ == analyzed(old(packet_info)@),
        ethernet_layers(old(packet_info).raw_data@) is None ==> final(packet_info).info@
            == "Failed to parse packet"@,
{
    let sliced = slice_ethernet(packet_info.raw_data.as_slice());
    analyze_layers(packet_info, &sliced);
}

/// A record whose frame cannot be sliced says so, and keeps everything else.
pub proof fn lemma_unreadable_frame(record: PacketInfoView)
    requires
        ethernet_layers(record.raw_data) is None,
    ensures
        analyzed(record) == (PacketInfoView { info: "Failed to parse packet"@, ..record }),
{
}

/// A record whose frame carries a TCP segment over IPv4 or IPv6 is labelled
/// `TCP`, has the ports of the segment behind the addresses, and is summarised
/// by the names of the flags that are set, in the order SYN, ACK, FIN, RST, PSH, URG.
pub proof fn lemma_tcp_frame(record: PacketInfoView)
    requires
        ethernet_layers(record.raw_data) matches Some(layers) && layers.ip is Some
            && layers.transport matches Some(TransportLayer::Tcp { .. }),
    ensures
        ({
            let layers = ethernet_layers(record.raw_data)->0;
            let ip = layers.ip->0;
            &&& layers.transport matches Some(
                TransportLayer::Tcp { source_port, destination_port, syn, ack, fin, rst, psh, urg },
            )
            &&& analyzed(record).protocol == "TCP"@
            &&& analyzed(record).source == source_text(ip) + ":"@ + decimal_u16(source_port)
            &&& analyzed(record).destination == destination_text(ip) + ":"@ + decimal_u16(
                destination_port,
            )
            &&& analyzed(record).info == joined(flag_names(syn, ack, fin, rst, psh, urg), " "@)
        }),
{
}

/// The place of a flag name in the order SYN, ACK, FIN, RST, PSH, URG.
pub open spec fn flag_rank(name: Seq<char>) -> int {
    if name == "SYN"@ {
        0
    } else if name == "ACK"@ {
        1
    } else if name == "FIN"@ {
        2
    } else if name == "RST"@ {
        3
    } else if name == "PSH"@ {
        4
    } else {
        5
    }
}

/// The names lie in ranks from `low` up to but not `high`, in rising order.
pub open spec fn rising(names: Seq<Seq<char>>, low: int, high: int) -> bool {
    &&& forall|i: int| 0 <= i < names.len() ==> low <= flag_rank(#[trigger] names[i]) < high
    &&& forall|i: int, j: int|
        0 <= i < j < names.len() ==> flag_rank(#[trigger] names[i]) < flag_rank(#[trigger] names[j])
}

proof fn lemma_rising_append(
    front: Seq<Seq<char>>,
    set: bool,
    name: Seq<char>,
    low: int,
    rank: int,
)
    requires
        rising(front, low, rank),
        flag_rank(name) == rank,
        low <= rank,
    ensures
        rising(front + (if set { seq![name] } else { Seq::empty() }), low, rank + 1),
        forall|other: Seq<char>|
            (front + (if set { seq![name] } else { Seq::empty() })).contains(other) <==> front.contains(
                other,
            ) || (set && other == name),
{
    let whole = front + (if set { seq![name] } else { Seq::empty() });
    assert forall|other: Seq<char>| whole.contains(other) <==> front.contains(other) || (set
        && other == name) by {
        if front.contains(other) {
            let i = choose|i: int| 0 <= i < front.len() && front[i] == other;
            assert(whole[i] == other);
        }
        if set && other == name {
            assert(whole[front.len() as int] == other);
        }
    }
}

/// The names of a TCP summary are exactly those of the flags that are set, and
/// they stand in the order SYN, ACK, FIN, RST, PSH, URG.
pub proof fn lemma_flag_names_exact(syn: bool, ack: bool, fin: bool, rst: bool, psh: bool, urg: bool)
    ensures
        flag_names(syn, ack, fin, rst, psh, urg).contains("SYN"@) <==> syn,
        flag_names(syn, ack, fin, rst, psh, urg).contains("ACK"@) <==> ack,
        flag_names(syn, ack, fin, rst, psh, urg).contains("FIN"@) <==> fin,
        flag_names(syn, ack, fin, rst, psh, urg).contains("RST"@) <==> rst,
        flag_names(syn, ack, fin, rst, psh, urg).contains("PSH"@) <==> psh,
        flag_names(syn, ack, fin, rst, psh, urg).contains("URG"@) <==> urg,
        rising(flag_names(syn, ack, fin, rst, psh, urg), 0, 6),
{
    reveal_strlit("SYN");
    reveal_strlit("ACK");
    reveal_strlit("FIN");
    reveal_strlit("RST");
    reveal_strlit("PSH");
    reveal_strlit("URG");
    assert("SYN"@[0] == 'S' && "ACK"@[0] == 'A' && "FIN"@[0] == 'F' && "RST"@[0] == 'R' && "PSH"@[0]
        == 'P' && "URG"@[0] == 'U');
    let none = Seq::<Seq<char>>::empty();
    let s0 = none + (if syn { seq!["SYN"@] } else { Seq::empty() });
    let s1 = s0 + (if ack { seq!["ACK"@] } else { Seq::empty() });
    let s2 = s1 + (if fin { seq!["FIN"@] } else { Seq::empty() });
    let s3 = s2 + (if rst { seq!["RST"@] } else { Seq::empty() });
    let s4 = s3 + (if psh { seq!["PSH"@] } else { Seq::empty() });
    let s5 = s4 + (if urg { seq!["URG"@] } else { Seq::empty() });
    lemma_rising_append(none, syn, "SYN"@, 0, 0);
    lemma_rising_append(s0, ack, "ACK"@, 0, 1);
    lemma_rising_append(s1, fin, "FIN"@, 0, 2);
    lemma_rising_append(s2, rst, "RST"@, 0, 3);
    lemma_rising_append(s3, psh, "PSH"@, 0, 4);
    lemma_rising_append(s4, urg, "URG"@, 0, 5);
    assert(flag_names(syn, ack, fin, rst, psh, urg) =~= s5);
    assert forall|name: Seq<char>| #[trigger]
        s5.contains(name) <==> (syn && name == "SYN"@) || (ack && name == "ACK"@) || (fin && name
            == "FIN"@) || (rst && name == "RST"@) || (psh && name == "PSH"@) || (urg && name
            == "URG"@) by {
        assert(!none.contains(name));
        assert(s0.contains(name) <==> none.contains(name) || (syn && name == "SYN"@));
        assert(s1.contains(name) <==> s0.contains(name) || (ack && name == "ACK"@));
        assert(s2.contains(name) <==> s1.contains(name) || (fin && name == "FIN"@));
        assert(s3.contains(name) <==> s2.contains(name) || (rst && name == "RST"@));
        assert(s4.contains(name) <==> s3.contains(name) || (psh && name == "PSH"@));
        assert(s5.contains(name) <==> s4.contains(name) || (urg && name == "URG"@));
    }
}

/// A record whose frame carries a UDP datagram with the DNS port at either end
/// is labelled `DNS`. Where the payload is within [`DNS_PAYLOAD_LIMIT`] and reads
/// as a DNS message, the summary is the kind of the message, `Query` or
/// `Response` by its query bit, then the names of its question section. Where
/// it does not, the summary stays.
pub proof fn lemma_dns_frame(record: PacketInfoView)
    requires
        ethernet_layers(record.raw_data) matches Some(layers) && layers.ip is Some && carries_dns(
            layers.transport,
        ),
    ensures
        analyzed(record).protocol == "DNS"@,
        ({
            let layers = ethernet_layers(record.raw_data)->0;
            if layers.payload.len() <= DNS_PAYLOAD_LIMIT {
                match dns_message(layers.payload) {
                    Some(message) => analyzed(record).info == (if message.query {
                        "Query"@
                    } else {
                        "Response"@
                    }) + ": "@ + joined(message.questions, ", "@),
                    None => analyzed(record).info == record.info,
                }
            } else {
                analyzed(record).info == record.info
            }
        }),
{
}

} // verus!
