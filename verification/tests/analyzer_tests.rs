use ferriscope::analyzer::{
    analyze_dns, analyze_layers, analyze_packet, analyze_transport, describe_transport,
    ipv4_string, join_texts, slice_ethernet, tcp_flags_text, DnsMessage, InternetLayer, Layers,
    TransportLayer, DNS_PAYLOAD_LIMIT,
};
use ferriscope::ui::{PacketInfo, Timestamp};

fn create_basic_packet_info() -> PacketInfo {
    PacketInfo {
        raw_data: Vec::new(),
        protocol: String::new(),
        source: String::new(),
        destination: String::new(),
        info: String::new(),
        length: 0,
        timestamp: Timestamp::default(),
    }
}

fn record_of(raw_data: Vec<u8>) -> PacketInfo {
    let mut packet_info = create_basic_packet_info();
    packet_info.raw_data = raw_data;
    packet_info
}

fn ipv4_layer(header: &[u8]) -> Option<InternetLayer> {
    let header = etherparse::Ipv4HeaderSlice::from_slice(header).unwrap();
    Some(InternetLayer::Ipv4 { source: header.source(), destination: header.destination() })
}

fn tcp_layer(header: &[u8]) -> Option<TransportLayer> {
    let tcp = etherparse::TcpHeaderSlice::from_slice(header).unwrap();
    Some(TransportLayer::Tcp {
        source_port: tcp.source_port(),
        destination_port: tcp.destination_port(),
        syn: tcp.syn(),
        ack: tcp.ack(),
        fin: tcp.fin(),
        rst: tcp.rst(),
        psh: tcp.psh(),
        urg: tcp.urg(),
    })
}

fn ethernet(ether_type: [u8; 2]) -> Vec<u8> {
    let mut frame = vec![0x02, 0x00, 0x00, 0x00, 0x00, 0x02, 0x02, 0x00, 0x00, 0x00, 0x00, 0x01];
    frame.extend_from_slice(&ether_type);
    frame
}

fn ipv4_header(protocol: u8, payload_len: usize, fragment: [u8; 2]) -> Vec<u8> {
    let total = (20 + payload_len) as u16;
    vec![
        0x45, 0x00, (total >> 8) as u8, total as u8, 0x00, 0x00, fragment[0], fragment[1], 0x40,
        protocol, 0x00, 0x00, 192, 168, 1, 1, 192, 168, 1, 2,
    ]
}

fn tcp_header(source_port: u16, destination_port: u16, flags: u8) -> Vec<u8> {
    vec![
        (source_port >> 8) as u8, source_port as u8, (destination_port >> 8) as u8,
        destination_port as u8, 0, 0, 0, 0, 0, 0, 0, 0, 0x50, flags, 0x20, 0x00, 0, 0, 0, 0,
    ]
}

fn udp_header(source_port: u16, destination_port: u16, payload_len: usize) -> Vec<u8> {
    let len = (8 + payload_len) as u16;
    vec![
        (source_port >> 8) as u8, source_port as u8, (destination_port >> 8) as u8,
        destination_port as u8, (len >> 8) as u8, len as u8, 0, 0,
    ]
}

fn ipv4_frame(protocol: u8, transport: Vec<u8>) -> Vec<u8> {
    let mut frame = ethernet([0x08, 0x00]);
    frame.extend(ipv4_header(protocol, transport.len(), [0x40, 0x00]));
    frame.extend(transport);
    frame
}

fn udp_frame(source_port: u16, destination_port: u16, payload: &[u8]) -> Vec<u8> {
    let mut datagram = udp_header(source_port, destination_port, payload.len());
    datagram.extend_from_slice(payload);
    ipv4_frame(17, datagram)
}

fn dns_question(flags: [u8; 2]) -> Vec<u8> {
    let mut message = vec![0x06, 0x25, flags[0], flags[1], 0, 1, 0, 0, 0, 0, 0, 0];
    message.extend_from_slice(b"\x07example\x03com\x00\x00\x01\x00\x01");
    message
}

fn dns_two_questions() -> Vec<u8> {
    let mut message = vec![0x00, 0x01, 0x01, 0x00, 0, 2, 0, 0, 0, 0, 0, 0];
    message.extend_from_slice(b"\x07example\x03com\x00\x00\x01\x00\x01");
    message.extend_from_slice(b"\x04rust\x04lang\x03org\x00\x00\x1c\x00\x01");
    message
}

#[test]
fn test_tcp_packet_analysis() {
    let mut packet_info = create_basic_packet_info();

    let tcp_packet = Layers {
        ip: ipv4_layer(&[
            0x45, 0x00, 0x00, 0x28, 0x00, 0x00, 0x40, 0x00, 0x40, 0x06, 0x00, 0x00, 192, 168, 1,
            1, // Source IP
            192, 168, 1, 2, // Dest IP
        ]),
        transport: tcp_layer(&[
            0x1f, 0x90, 0x01, 0xbb, // Source port 8080, dest port 443
            0x00, 0x00, 0x00, 0x00, // Sequence number
            0x00, 0x00, 0x00, 0x00, // Ack number
            0x50, 0x12, 0x20, 0x00, // Flags (SYN + ACK)
            0x00, 0x00, 0x00, 0x00, // Rest of header
        ]),
        payload: Vec::new(),
    };

    analyze_transport(&mut packet_info, &tcp_packet);

    assert_eq!(packet_info.protocol, "TCP");
    assert!(packet_info.source.contains("8080"));
    assert!(packet_info.destination.contains("443"));
    assert!(packet_info.info.contains("SYN"));
    assert!(packet_info.info.contains("ACK"));
}

#[test]
fn test_udp_dns_packet_analysis() {
    let mut packet_info = create_basic_packet_info();

    let udp = etherparse::UdpHeaderSlice::from_slice(&[
        0x00, 0x35, 0x30, 0x39, // Source port 53, dest port 12345
        0x00, 0x08, 0x00, 0x00, // Length and checksum
    ])
    .unwrap();
    let udp_packet = Layers {
        ip: ipv4_layer(&[
            0x45, 0x00, 0x00, 0x28, 0x00, 0x00, 0x40, 0x00, 0x40, 0x11, 0x00, 0x00, 8, 8, 8,
            8, // Source IP (8.8.8.8)
            192, 168, 1, 1, // Dest IP
        ]),
        transport: Some(TransportLayer::Udp {
            source_port: udp.source_port(),
            destination_port: udp.destination_port(),
        }),
        payload: Vec::new(),
    };

    analyze_transport(&mut packet_info, &udp_packet);

    assert_eq!(packet_info.protocol, "DNS");
    assert!(packet_info.source.contains("53"));
    assert!(packet_info.destination.contains("12345"));
}

#[test]
fn test_icmpv4_packet_analysis() {
    let mut packet_info = create_basic_packet_info();

    let raw_data = vec![
        // Ethernet header (14 bytes)
        0x00, 0x00, 0x00, 0x00, 0x00, 0x00, // Destination MAC
        0x00, 0x00, 0x00, 0x00, 0x00, 0x00, // Source MAC
        0x08, 0x00, // EtherType (IPv4)
        // IPv4 header
        0x45, 0x00, 0x00, 0x28, 0x00, 0x00, 0x40, 0x00, 0x40, 0x01, 0x00, 0x00, 192, 168, 1,
        1, // Source IP
        192, 168, 1, 2, // Dest IP
        // ICMP header (8 bytes required)
        0x08, 0x00, // Type (8 = echo request), Code (0)
        0x00, 0x00, // Checksum
        0x00, 0x00, // Identifier
        0x00, 0x00, // Sequence number
    ];

    packet_info.raw_data = raw_data.clone();

    let icmp = etherparse::Icmpv4Slice::from_slice(&raw_data[34..42]).unwrap();
    let icmp_packet = Layers {
        ip: ipv4_layer(&raw_data[14..34]),
        transport: Some(TransportLayer::Icmpv4 { icmp_type: icmp.type_u8(), code: icmp.code_u8() }),
        payload: Vec::new(),
    };

    analyze_transport(&mut packet_info, &icmp_packet);

    assert_eq!(packet_info.protocol, "ICMPv4");
    assert!(packet_info.info.contains("Type: 8"));
    assert!(packet_info.info.contains("Code: 0"));
}

#[test]
fn test_ipv6_packet_analysis() {
    let mut packet_info = create_basic_packet_info();

    let raw_data = vec![
        // Ethernet header (14 bytes)
        0x00, 0x00, 0x00, 0x00, 0x00, 0x00, // Destination MAC
        0x00, 0x00, 0x00, 0x00, 0x00, 0x00, // Source MAC
        0x86, 0xDD, // EtherType (IPv6)
        // IPv6 header (40 bytes)
        0x60, 0x00, 0x00, 0x00, 0x00, 0x20, 0x06,
        0x40, // Ver, TC, Flow Label, Payload Len, Next Header (6=TCP), Hop Limit
        0x20, 0x01, 0x0d, 0xb8, 0x00, 0x00, 0x00, 0x00, // Source IP (2001:db8::1)
        0x00, 0x00, 0x00, 0x00, 0x00, 0x00, 0x00, 0x01, 0x20, 0x01, 0x0d, 0xb8, 0x00, 0x00,
        0x00, 0x00, // Dest IP (2001:db8::2)
        0x00, 0x00, 0x00, 0x00, 0x00, 0x00, 0x00, 0x02, // TCP header (20 bytes)
        0x1f, 0x90, 0x01, 0xbb, // Source port 8080, dest port 443
        0x00, 0x00, 0x00, 0x00, // Sequence number
        0x00, 0x00, 0x00, 0x00, // Ack number
        0x50, 0x02, 0x20, 0x00, // Header length, flags (SYN)
        0x00, 0x00, 0x00, 0x00, // Checksum, Urgent pointer
    ];

    packet_info.raw_data = raw_data;

    analyze_packet(&mut packet_info);

    assert_eq!(packet_info.protocol, "TCP");
    assert!(packet_info.source.contains("2001:db8"));
    assert!(packet_info.destination.contains("2001:db8"));
    assert!(packet_info.source.contains("8080"));
    assert!(packet_info.destination.contains("443"));
    assert!(packet_info.info.contains("SYN"));
}

#[test]
fn ipv6_endpoints_are_address_and_port() {
    let mut frame = ethernet([0x86, 0xdd]);
    frame.extend_from_slice(&[0x60, 0, 0, 0, 0, 20, 6, 64]);
    frame.extend_from_slice(&[0x20, 0x01, 0x0d, 0xb8, 0, 0, 0, 0, 0, 0, 0, 0, 0, 0, 0, 1]);
    frame.extend_from_slice(&[0x20, 0x01, 0x0d, 0xb8, 0, 0, 0, 0, 0, 0, 0, 0, 0, 0, 0, 2]);
    frame.extend(tcp_header(8080, 443, 0x02));
    let mut packet_info = record_of(frame);
    analyze_packet(&mut packet_info);
    assert_eq!(packet_info.protocol, "TCP");
    assert_eq!(packet_info.source, "2001:db8::1:8080");
    assert_eq!(packet_info.destination, "2001:db8::2:443");
    assert_eq!(packet_info.info, "SYN");
}

#[test]
fn end_to_end_tcp_syn_ack() {
    let mut packet_info = record_of(ipv4_frame(6, tcp_header(8080, 443, 0x12)));
    analyze_packet(&mut packet_info);
    assert_eq!(packet_info.protocol, "TCP");
    assert!(packet_info.source.contains("8080"));
    assert!(packet_info.destination.contains("443"));
    assert!(packet_info.info.contains("SYN"));
    assert!(packet_info.info.contains("ACK"));
    assert_eq!(packet_info.source, "192.168.1.1:8080");
    assert_eq!(packet_info.destination, "192.168.1.2:443");
    assert_eq!(packet_info.info, "SYN ACK");
}

#[test]
fn unreadable_frames_say_so() {
    let frames: Vec<Vec<u8>> = vec![
        Vec::new(),
        vec![0x00],
        vec![0xff; 13],
        // an IPv4 frame that ends inside its header
        {
            let mut frame = ethernet([0x08, 0x00]);
            frame.extend_from_slice(&[0x45, 0x00, 0x00, 0x28]);
            frame
        },
        // a TCP segment that ends inside its header
        ipv4_frame(6, vec![0x1f, 0x90, 0x01, 0xbb]),
    ];
    for frame in frames {
        assert!(slice_ethernet(&frame).is_none());
        let mut packet_info = record_of(frame.clone());
        packet_info.protocol = "before".to_string();
        packet_info.source = "here".to_string();
        analyze_packet(&mut packet_info);
        assert_eq!(packet_info.info, "Failed to parse packet");
        assert_eq!(packet_info.protocol, "before");
        assert_eq!(packet_info.source, "here");
        assert_eq!(packet_info.raw_data, frame);
    }
}

#[test]
fn frame_without_network_layer_is_ethernet() {
    let mut frame = ethernet([0x08, 0x06]);
    frame.extend_from_slice(&[0u8; 28]);
    let mut packet_info = record_of(frame);
    analyze_packet(&mut packet_info);
    assert_eq!(packet_info.protocol, "Ethernet");
    assert_eq!(packet_info.info, "Non-IP packet");
    assert_eq!(packet_info.source, "");
    assert_eq!(packet_info.destination, "");
}

#[test]
fn tcp_summary_lists_set_flags_in_fixed_order() {
    assert_eq!(tcp_flags_text(false, false, false, false, false, false), "");
    assert_eq!(tcp_flags_text(true, false, false, false, false, false), "SYN");
    assert_eq!(tcp_flags_text(false, true, true, false, false, false), "ACK FIN");
    assert_eq!(tcp_flags_text(false, false, false, true, false, true), "RST URG");
    assert_eq!(tcp_flags_text(true, true, true, true, true, true), "SYN ACK FIN RST PSH URG");
}

#[test]
fn tcp_flags_come_from_the_header_bits() {
    // FIN 0x01, SYN 0x02, RST 0x04, PSH 0x08, ACK 0x10, URG 0x20
    let cases: Vec<(u8, &str)> = vec![
        (0x00, ""),
        (0x01, "FIN"),
        (0x02, "SYN"),
        (0x04, "RST"),
        (0x08, "PSH"),
        (0x10, "ACK"),
        (0x20, "URG"),
        (0x18, "ACK PSH"),
        (0x11, "ACK FIN"),
        (0x3f, "SYN ACK FIN RST PSH URG"),
    ];
    for (bits, summary) in cases {
        let mut packet_info = record_of(ipv4_frame(6, tcp_header(1, 65535, bits)));
        analyze_packet(&mut packet_info);
        assert_eq!(packet_info.protocol, "TCP");
        assert_eq!(packet_info.source, "192.168.1.1:1");
        assert_eq!(packet_info.destination, "192.168.1.2:65535");
        assert_eq!(packet_info.info, summary);
    }
}

#[test]
fn udp_without_dns_port_keeps_summary() {
    let mut packet_info = record_of(udp_frame(5000, 6000, &dns_question([0x01, 0x00])));
    packet_info.info = "kept".to_string();
    analyze_packet(&mut packet_info);
    assert_eq!(packet_info.protocol, "UDP");
    assert_eq!(packet_info.source, "192.168.1.1:5000");
    assert_eq!(packet_info.destination, "192.168.1.2:6000");
    assert_eq!(packet_info.info, "kept");
}

#[test]
fn dns_query_is_summarised() {
    let mut packet_info = record_of(udp_frame(12345, 53, &dns_question([0x01, 0x00])));
    analyze_packet(&mut packet_info);
    assert_eq!(packet_info.protocol, "DNS");
    assert_eq!(packet_info.source, "192.168.1.1:12345");
    assert_eq!(packet_info.destination, "192.168.1.2:53");
    assert_eq!(packet_info.info, "Query: example.com");
}

#[test]
fn dns_response_is_summarised() {
    let mut packet_info = record_of(udp_frame(53, 12345, &dns_question([0x81, 0x80])));
    analyze_packet(&mut packet_info);
    assert_eq!(packet_info.protocol, "DNS");
    assert_eq!(packet_info.info, "Response: example.com");
}

#[test]
fn dns_names_are_joined_in_message_order() {
    let mut packet_info = record_of(udp_frame(12345, 53, &dns_two_questions()));
    analyze_packet(&mut packet_info);
    assert_eq!(packet_info.protocol, "DNS");
    assert_eq!(packet_info.info, "Query: example.com, rust.lang.org");
}

#[test]
fn malformed_dns_keeps_summary() {
    let mut packet_info = record_of(udp_frame(12345, 53, &[0x01, 0x02, 0x03]));
    packet_info.info = "kept".to_string();
    analyze_packet(&mut packet_info);
    assert_eq!(packet_info.protocol, "DNS");
    assert_eq!(packet_info.info, "kept");
}

#[test]
fn icmpv4_echo_request_from_frame() {
    let mut packet_info = record_of(ipv4_frame(1, vec![8, 0, 0, 0, 0, 0, 0, 0]));
    analyze_packet(&mut packet_info);
    assert_eq!(packet_info.protocol, "ICMPv4");
    assert_eq!(packet_info.info, "Type: 8, Code: 0");
    assert_eq!(packet_info.source, "192.168.1.1");
    assert_eq!(packet_info.destination, "192.168.1.2");
}

#[test]
fn icmpv6_from_frame() {
    let mut frame = ethernet([0x86, 0xdd]);
    frame.extend_from_slice(&[0x60, 0, 0, 0, 0, 8, 58, 64]);
    frame.extend_from_slice(&[0xfe, 0x80, 0, 0, 0, 0, 0, 0, 0, 0, 0, 0, 0, 0, 0, 1]);
    frame.extend_from_slice(&[0xff, 0x02, 0, 0, 0, 0, 0, 0, 0, 0, 0, 0, 0, 0, 0, 1]);
    frame.extend_from_slice(&[128, 0, 0, 0, 0, 1, 0, 1]);
    let mut packet_info = record_of(frame);
    analyze_packet(&mut packet_info);
    assert_eq!(packet_info.protocol, "ICMPv6");
    assert_eq!(packet_info.info, "Type: 128, Code: 0");
    assert_eq!(packet_info.source, "fe80::1");
    assert_eq!(packet_info.destination, "ff02::1");
}

#[test]
fn unknown_transport_is_labelled() {
    let mut packet_info = record_of(ipv4_frame(47, vec![0, 0, 0, 0]));
    analyze_packet(&mut packet_info);
    assert_eq!(packet_info.protocol, "Unknown Transport");
    assert_eq!(packet_info.info, "Unknown transport protocol");
    assert_eq!(packet_info.source, "192.168.1.1");
}

#[test]
fn fragment_has_no_transport() {
    let mut frame = ethernet([0x08, 0x00]);
    // more fragments follow
    frame.extend(ipv4_header(6, 20, [0x20, 0x00]));
    frame.extend(tcp_header(8080, 443, 0x02));
    let mut packet_info = record_of(frame);
    analyze_packet(&mut packet_info);
    assert_eq!(packet_info.protocol, "IPv4");
    assert_eq!(packet_info.info, "No transport protocol");
    assert_eq!(packet_info.source, "192.168.1.1");
    assert_eq!(packet_info.destination, "192.168.1.2");
}

#[test]
fn slicing_hands_out_all_layers() {
    let payload = dns_question([0x01, 0x00]);
    let layers = slice_ethernet(&udp_frame(40000, 53, &payload)).unwrap();
    match layers.ip {
        Some(InternetLayer::Ipv4 { source, destination }) => {
            assert_eq!(source, [192, 168, 1, 1]);
            assert_eq!(destination, [192, 168, 1, 2]);
        }
        _ => panic!("IPv4 expected"),
    }
    assert_eq!(
        layers.transport,
        Some(TransportLayer::Udp { source_port: 40000, destination_port: 53 })
    );
    assert_eq!(layers.payload, payload);
}

#[test]
fn analyze_layers_on_given_layers() {
    let mut packet_info = create_basic_packet_info();
    packet_info.source = "old".to_string();
    let layers = Layers {
        ip: Some(InternetLayer::Ipv6 {
            source: "::1".to_string(),
            destination: "::2".to_string(),
        }),
        transport: Some(TransportLayer::Unknown(99)),
        payload: vec![1, 2, 3],
    };
    analyze_layers(&mut packet_info, &Some(layers));
    assert_eq!(packet_info.protocol, "Unknown Transport");
    assert_eq!(packet_info.source, "::1");
    assert_eq!(packet_info.destination, "::2");

    let mut unread = create_basic_packet_info();
    analyze_layers(&mut unread, &None);
    assert_eq!(unread.info, "Failed to parse packet");
    assert_eq!(unread.protocol, "");
}

#[test]
fn describe_transport_with_given_dns_result() {
    let udp = Some(TransportLayer::Udp { source_port: 53, destination_port: 4000 });
    let message = DnsMessage { query: false, questions: vec!["a.example".to_string()] };

    let mut answered = create_basic_packet_info();
    answered.source = "10.0.0.1".to_string();
    answered.destination = "10.0.0.2".to_string();
    describe_transport(&mut answered, &udp, &Some(message.clone()));
    assert_eq!(answered.protocol, "DNS");
    assert_eq!(answered.source, "10.0.0.1:53");
    assert_eq!(answered.destination, "10.0.0.2:4000");
    assert_eq!(answered.info, "Response: a.example");

    // a message counts only where the DNS port is at one end
    let mut plain = create_basic_packet_info();
    plain.info = "kept".to_string();
    let other = Some(TransportLayer::Udp { source_port: 54, destination_port: 4000 });
    describe_transport(&mut plain, &other, &Some(message));
    assert_eq!(plain.protocol, "UDP");
    assert_eq!(plain.info, "kept");

    let mut none = create_basic_packet_info();
    none.protocol = "IPv4".to_string();
    describe_transport(&mut none, &None, &None);
    assert_eq!(none.protocol, "IPv4");
    assert_eq!(none.info, "No transport protocol");
}

#[test]
fn analyze_dns_writes_kind_and_names() {
    let mut packet_info = create_basic_packet_info();
    packet_info.protocol = "DNS".to_string();
    analyze_dns(&mut packet_info, &DnsMessage { query: true, questions: Vec::new() });
    assert_eq!(packet_info.info, "Query: ");
    analyze_dns(
        &mut packet_info,
        &DnsMessage {
            query: false,
            questions: vec!["a".to_string(), "b".to_string(), "c".to_string()],
        },
    );
    assert_eq!(packet_info.info, "Response: a, b, c");
    assert_eq!(packet_info.protocol, "DNS");
}

#[test]
fn texts_are_joined_and_addresses_dotted() {
    assert_eq!(join_texts(&Vec::new(), ", "), "");
    assert_eq!(join_texts(&vec!["one".to_string()], ", "), "one");
    assert_eq!(join_texts(&vec!["one".to_string(), "two".to_string()], " - "), "one - two");
    assert_eq!(ipv4_string(&[0, 0, 0, 0]), "0.0.0.0");
    assert_eq!(ipv4_string(&[255, 100, 10, 9]), "255.100.10.9");
}

#[test]
fn dns_payload_is_read_up_to_the_limit() {
    let mut payload = dns_question([0x01, 0x00]);
    payload.resize(DNS_PAYLOAD_LIMIT, 0);
    let mut at_limit = record_of(udp_frame(12345, 53, &payload));
    at_limit.info = "kept".to_string();
    analyze_packet(&mut at_limit);
    assert_eq!(at_limit.protocol, "DNS");
    assert_eq!(at_limit.info, "Query: example.com");

    payload.push(0);
    let mut beyond = record_of(udp_frame(12345, 53, &payload));
    beyond.info = "kept".to_string();
    analyze_packet(&mut beyond);
    assert_eq!(beyond.protocol, "DNS");
    assert_eq!(beyond.source, "192.168.1.1:12345");
    assert_eq!(beyond.info, "kept");
}

#[test]
fn dns_name_of_nested_pointers_is_read() {
    // a question whose name is a pointer to a pointer, and so on down the payload
    let mut payload = vec![0u8; DNS_PAYLOAD_LIMIT];
    payload[2] = 0x01;
    payload[5] = 1;
    let top = DNS_PAYLOAD_LIMIT - 2;
    payload[12] = 0xc0 | ((top >> 8) as u8);
    payload[13] = top as u8;
    payload[15] = 1;
    payload[17] = 1;
    let mut at = 20;
    while at <= top {
        let to = at - 2;
        payload[at] = 0xc0 | ((to >> 8) as u8);
        payload[at + 1] = to as u8;
        at += 2;
    }
    let mut packet_info = create_basic_packet_info();
    let layers = Layers {
        ip: None,
        transport: Some(TransportLayer::Udp { source_port: 53, destination_port: 40000 }),
        payload,
    };
    analyze_transport(&mut packet_info, &layers);
    assert_eq!(packet_info.protocol, "DNS");
    assert_eq!(packet_info.info, "Query: ");
}
