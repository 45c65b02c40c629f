use bytes::Bytes;
use crossbeam_channel::{bounded, unbounded};
use xbtun::addr::{IpAddress, XB_BROADCAST};
use xbtun::channel::{make_job, SendOutcome, TransmitJob};
use xbtun::packet::{extract_ip, extract_source_ip, InternetSlice, Ipv4Endpoints, Ipv6Endpoints, SlicedPacket};
use xbtun::tun::{Learning, TunOutcome, XBTun};

const HOUR: u64 = 3_600_000_000_000;

fn gateway(broadcast_everything: bool) -> XBTun {
    XBTun::new_tap(1, broadcast_everything, String::from("xbnet0"), HOUR)
}

/// An IPv4 header without options and without payload; the protocol number is
/// one that no transport parser claims.
fn ipv4_packet(source: [u8; 4], destination: [u8; 4]) -> Vec<u8> {
    let mut packet = vec![0x45, 0, 0, 20, 0, 0, 0, 0, 64, 253, 0, 0];
    packet.extend_from_slice(&source);
    packet.extend_from_slice(&destination);
    packet
}

/// An IPv6 header that announces no next header.
fn ipv6_packet(source: [u8; 16], destination: [u8; 16]) -> Vec<u8> {
    let mut packet = vec![0x60, 0, 0, 0, 0, 0, 59, 64];
    packet.extend_from_slice(&source);
    packet.extend_from_slice(&destination);
    packet
}

fn heard(g: &mut XBTun, payload: &[u8]) -> Learning {
    g.frames_from_xb_processor(0x77, payload).learning
}

fn sent(g: &XBTun, packet: &[u8]) -> TunOutcome {
    let (sender, _receiver) = unbounded();
    g.frames_from_tun_processor(packet, &sender)
}

fn unparsable_detail(outcome: TunOutcome) -> String {
    match outcome {
        TunOutcome::Unparsable(e) => e.detail,
        other => panic!("unexpected outcome {:?}", other),
    }
}

#[test]
fn both_addresses_of_an_ipv4_header_are_read() {
    let mut g = gateway(false);
    let packet = ipv4_packet([10, 0, 0, 5], [192, 168, 1, 2]);
    assert_eq!(heard(&mut g, &packet), Learning::Learned(IpAddress::V4(0x0a00_0005)));
    assert_eq!(
        sent(&g, &packet),
        TunOutcome::Queued { destination: IpAddress::V4(0xc0a8_0102), destxbmac: XB_BROADCAST }
    );
}

#[test]
fn both_addresses_of_an_ipv6_header_are_read() {
    let mut source = [0u8; 16];
    source[0] = 0xfe;
    source[1] = 0x80;
    source[15] = 1;
    let mut destination = [0u8; 16];
    destination[0] = 0x20;
    destination[1] = 0x01;
    destination[15] = 0x99;
    let packet = ipv6_packet(source, destination);
    let source_number: u128 = 0xfe80 << 112 | 1;
    let destination_number: u128 = 0x2001 << 112 | 0x99;
    let mut g = gateway(false);
    assert_eq!(heard(&mut g, &packet), Learning::Learned(IpAddress::V6(source_number)));
    assert_eq!(
        sent(&g, &packet),
        TunOutcome::Queued { destination: IpAddress::V6(destination_number), destxbmac: XB_BROADCAST }
    );
    assert_eq!(g.get_xb_dest_mac(&IpAddress::V6(source_number)), 0x77);
}

#[test]
fn udp_packet_is_accepted() {
    let mut packet = ipv4_packet([10, 0, 0, 5], [10, 0, 0, 9]);
    packet[3] = 28;
    packet[9] = 17;
    packet.extend_from_slice(&[0, 53, 0, 53, 0, 8, 0, 0]);
    assert_eq!(
        sent(&gateway(false), &packet),
        TunOutcome::Queued { destination: IpAddress::V4(0x0a00_0009), destxbmac: XB_BROADCAST }
    );
}

#[test]
fn empty_slice_is_refused() {
    assert_eq!(unparsable_detail(sent(&gateway(false), &[])), "UnexpectedEndOfSlice(1)");
}

#[test]
fn unknown_version_is_refused() {
    assert_eq!(
        unparsable_detail(sent(&gateway(false), &[0x15, 2, 3, 4, 5])),
        "IpUnsupportedVersion(1)"
    );
    let mut g = gateway(false);
    match heard(&mut g, b"\x7fELF is no packet at all") {
        Learning::Unparsable(e) => assert_eq!(e.detail, "IpUnsupportedVersion(7)"),
        other => panic!("unexpected learning {:?}", other),
    }
}

#[test]
fn truncated_header_is_refused() {
    let packet = ipv4_packet([10, 0, 0, 5], [10, 0, 0, 9]);
    assert_eq!(unparsable_detail(sent(&gateway(false), &packet[..19])), "UnexpectedEndOfSlice(20)");
    let six = ipv6_packet([0; 16], [1; 16]);
    assert!(matches!(sent(&gateway(false), &six[..39]), TunOutcome::Unparsable(_)));
}

#[test]
fn truncated_udp_header_is_refused() {
    let mut packet = ipv4_packet([10, 0, 0, 5], [10, 0, 0, 9]);
    packet[9] = 17;
    packet.extend_from_slice(&[0, 53, 0, 53]);
    assert!(matches!(sent(&gateway(false), &packet), TunOutcome::Unparsable(_)));
    let mut g = gateway(false);
    assert!(matches!(heard(&mut g, &packet), Learning::Unparsable(_)));
    assert_eq!(g.dests.get(&IpAddress::V4(0x0a00_0005)), None);
}

#[test]
fn extract_ip_gives_the_destination() {
    let sliced = SlicedPacket {
        ip: Some(InternetSlice::Ipv4(Ipv4Endpoints { source: 1, destination: 2 })),
    };
    assert_eq!(extract_ip(&sliced), Some(IpAddress::V4(2)));
    assert_eq!(extract_source_ip(&sliced), Some(IpAddress::V4(1)));
    let six = SlicedPacket {
        ip: Some(InternetSlice::Ipv6(Ipv6Endpoints { source: 3, destination: 4 })),
    };
    assert_eq!(extract_ip(&six), Some(IpAddress::V6(4)));
    assert_eq!(extract_source_ip(&six), Some(IpAddress::V6(3)));
}

#[test]
fn extract_ip_of_a_packet_without_ip_layer() {
    let sliced = SlicedPacket { ip: None };
    assert_eq!(extract_ip(&sliced), None);
    assert_eq!(extract_source_ip(&sliced), None);
}

#[test]
fn make_job_copies_the_bytes() {
    let mut data = vec![1u8, 2, 3];
    let job = make_job(0x1234, &data);
    data[0] = 9;
    assert_eq!(job, TransmitJob { dest: 0x1234, payload: Bytes::from_static(&[1, 2, 3]) });
}

#[test]
fn after_send_names_each_outcome() {
    let d = IpAddress::V4(5);
    assert_eq!(
        TunOutcome::after_send(d, 7, SendOutcome::Sent),
        TunOutcome::Queued { destination: d, destxbmac: 7 }
    );
    assert_eq!(
        TunOutcome::after_send(d, 7, SendOutcome::Full(make_job(7, &[1]))),
        TunOutcome::QueueFull { destination: d, job: make_job(7, &[1]) }
    );
    assert_eq!(
        TunOutcome::after_send(d, 7, SendOutcome::Disconnected(make_job(7, &[2]))),
        TunOutcome::Disconnected { destination: d, job: make_job(7, &[2]) }
    );
}

#[test]
fn only_a_disconnected_queue_is_fatal() {
    let d = IpAddress::V4(5);
    assert!(TunOutcome::Disconnected { destination: d, job: make_job(7, &[]) }.is_fatal());
    assert!(!TunOutcome::Queued { destination: d, destxbmac: 7 }.is_fatal());
    assert!(!TunOutcome::QueueFull { destination: d, job: make_job(7, &[]) }.is_fatal());
    assert!(!TunOutcome::NoIpHeader.is_fatal());
    assert!(!sent(&gateway(false), &[]).is_fatal());
}

#[test]
fn packet_for_an_unknown_address_is_queued_for_broadcast() {
    let g = gateway(false);
    let (sender, receiver) = unbounded();
    let packet = ipv4_packet([10, 0, 0, 1], [10, 0, 0, 5]);
    let outcome = g.frames_from_tun_processor(&packet, &sender);
    assert_eq!(
        outcome,
        TunOutcome::Queued { destination: IpAddress::V4(0x0a00_0005), destxbmac: XB_BROADCAST }
    );
    let job = receiver.try_recv().unwrap();
    assert_eq!(job.dest, XB_BROADCAST);
    assert_eq!(&job.payload[..], &packet[..]);
    assert!(receiver.try_recv().is_err());
}

#[test]
fn packet_for_a_learned_address_is_queued_for_its_node() {
    let mut g = gateway(false);
    let (sender, receiver) = unbounded();
    let heard = ipv4_packet([10, 0, 0, 5], [10, 0, 0, 1]);
    let step = g.frames_from_xb_processor(0x0013_a200_1234_5678, &heard);
    assert_eq!(step.learning, Learning::Learned(IpAddress::V4(0x0a00_0005)));
    assert_eq!(step.to_tun, &heard[..]);
    let reply = ipv4_packet([10, 0, 0, 1], [10, 0, 0, 5]);
    let outcome = g.frames_from_tun_processor(&reply, &sender);
    assert_eq!(
        outcome,
        TunOutcome::Queued {
            destination: IpAddress::V4(0x0a00_0005),
            destxbmac: 0x0013_a200_1234_5678
        }
    );
    let job = receiver.try_recv().unwrap();
    assert_eq!(job.dest, 0x0013_a200_1234_5678);
    assert_eq!(&job.payload[..], &reply[..]);
    let elsewhere = ipv4_packet([10, 0, 0, 5], [10, 0, 0, 1]);
    assert_eq!(
        g.frames_from_tun_processor(&elsewhere, &sender),
        TunOutcome::Queued { destination: IpAddress::V4(0x0a00_0001), destxbmac: XB_BROADCAST }
    );
}

#[test]
fn broadcast_override_neither_learns_nor_resolves() {
    let mut g = gateway(true);
    let (sender, receiver) = unbounded();
    let heard = ipv4_packet([10, 0, 0, 5], [10, 0, 0, 1]);
    let step = g.frames_from_xb_processor(0x1234, &heard);
    assert_eq!(step.learning, Learning::Disabled(IpAddress::V4(0x0a00_0005)));
    assert_eq!(step.to_tun, &heard[..]);
    assert_eq!(g.dests.get(&IpAddress::V4(0x0a00_0005)), None);
    let reply = ipv4_packet([10, 0, 0, 1], [10, 0, 0, 5]);
    g.frames_from_tun_processor(&reply, &sender);
    assert_eq!(receiver.try_recv().unwrap().dest, XB_BROADCAST);
}

#[test]
fn full_queue_drops_the_packet_and_goes_on() {
    let g = gateway(false);
    let (sender, receiver) = bounded(1);
    let first = ipv4_packet([10, 0, 0, 1], [10, 0, 0, 5]);
    let second = ipv4_packet([10, 0, 0, 1], [10, 0, 0, 6]);
    assert!(matches!(g.frames_from_tun_processor(&first, &sender), TunOutcome::Queued { .. }));
    let outcome = g.frames_from_tun_processor(&second, &sender);
    assert_eq!(
        outcome,
        TunOutcome::QueueFull {
            destination: IpAddress::V4(0x0a00_0006),
            job: make_job(XB_BROADCAST, &second)
        }
    );
    assert!(!outcome.is_fatal());
    assert_eq!(receiver.len(), 1);
    assert_eq!(&receiver.try_recv().unwrap().payload[..], &first[..]);
    assert!(receiver.try_recv().is_err());
    let third = ipv4_packet([10, 0, 0, 1], [10, 0, 0, 7]);
    assert!(matches!(g.frames_from_tun_processor(&third, &sender), TunOutcome::Queued { .. }));
    assert_eq!(&receiver.try_recv().unwrap().payload[..], &third[..]);
}

#[test]
fn disconnected_queue_is_fatal() {
    let g = gateway(false);
    let (sender, receiver) = bounded(1);
    drop(receiver);
    let packet = ipv4_packet([10, 0, 0, 1], [10, 0, 0, 5]);
    let outcome = g.frames_from_tun_processor(&packet, &sender);
    assert_eq!(
        outcome,
        TunOutcome::Disconnected {
            destination: IpAddress::V4(0x0a00_0005),
            job: make_job(XB_BROADCAST, &packet)
        }
    );
    assert!(outcome.is_fatal());
}

#[test]
fn non_ip_bytes_from_the_host_produce_no_job() {
    let g = gateway(false);
    let (sender, receiver) = unbounded();
    let outcome = g.frames_from_tun_processor(b"not an ip packet", &sender);
    assert!(matches!(outcome, TunOutcome::Unparsable(_)));
    assert!(!outcome.is_fatal());
    assert!(receiver.try_recv().is_err());
    assert!(matches!(g.frames_from_tun_processor(&[], &sender), TunOutcome::Unparsable(_)));
    assert!(receiver.is_empty());
}

#[test]
fn non_ip_bytes_from_the_radio_pass_through_and_teach_nothing() {
    let mut g = gateway(false);
    g.record_at(IpAddress::V4(0x0a00_0005), 0x1234, 0);
    let payload = b"not an ip packet".to_vec();
    let step = g.frames_from_xb_processor(0x9999, &payload);
    assert!(matches!(step.learning, Learning::Unparsable(_)));
    assert_eq!(step.to_tun, &b"not an ip packet"[..]);
    assert_eq!(g.resolve_at(&IpAddress::V4(0x0a00_0005), 1), 0x1234);
    assert_eq!(g.dests.get(&IpAddress::V4(0x6e6f_7420)), None);
    let empty = g.frames_from_xb_processor(0x9999, &[]);
    assert!(matches!(empty.learning, Learning::Unparsable(_)));
    assert!(empty.to_tun.is_empty());
}

#[test]
fn frame_from_the_radio_refreshes_the_sender() {
    let mut g = gateway(false);
    let heard = ipv4_packet([10, 0, 0, 5], [10, 0, 0, 1]);
    g.frames_from_xb_processor(0xaaaa, &heard);
    g.frames_from_xb_processor(0xbbbb, &heard);
    assert_eq!(g.get_xb_dest_mac(&IpAddress::V4(0x0a00_0005)), 0xbbbb);
}
