use led_matrix::artnet::{encode_output, frame_packets, OutputError};
use led_matrix::frame::{DmxFrame, Rgb};
use led_matrix::mapping::DmxAddress;

const HEADER: [u8; 8] = [0x41, 0x72, 0x74, 0x2d, 0x4e, 0x65, 0x74, 0x00];

#[test]
fn output_packet_bytes() {
    let packet = encode_output(3, vec![1, 2, 3]).unwrap();
    let mut expected = HEADER.to_vec();
    expected.extend_from_slice(&[0x00, 0x50, 0x00, 14, 0x00, 0x00, 3, 0x00, 0x00, 4, 1, 2, 3, 0]);
    assert_eq!(packet, expected);
}

#[test]
fn full_universe_packet() {
    let data: Vec<u8> = (0..512).map(|i| (i % 256) as u8).collect();
    let packet = encode_output(200, data.clone()).unwrap();
    assert_eq!(packet.len(), 18 + 512);
    assert_eq!(&packet[0..8], &HEADER);
    assert_eq!(&packet[14..18], &[200, 0x00, 0x02, 0x00]);
    assert_eq!(&packet[18..], &data[..]);
}

#[test]
fn invalid_payload_lengths() {
    assert_eq!(encode_output(0, Vec::new()), Err(OutputError::InvalidLength));
    assert_eq!(encode_output(0, vec![0; 513]), Err(OutputError::InvalidLength));
    assert!(encode_output(0, vec![0; 1]).is_ok());
}

#[test]
fn one_packet_per_used_universe_in_order() {
    let mut frame = DmxFrame::new();
    frame.write_pixel(DmxAddress { universe: 9, channel: 0 }, Rgb { r: 1, g: 2, b: 3 });
    frame.write_pixel(DmxAddress { universe: 2, channel: 507 }, Rgb { r: 4, g: 5, b: 6 });
    let packets = frame_packets(&frame);
    assert_eq!(packets.len(), 2);
    assert_eq!(packets[0].0, 2);
    assert_eq!(packets[1].0, 9);
    assert_eq!(packets[0].1[14], 2);
    assert_eq!(&packets[0].1[18 + 507..18 + 510], &[4, 5, 6]);
    assert_eq!(&packets[1].1[18..21], &[1, 2, 3]);
    assert!(frame_packets(&DmxFrame::new()).is_empty());
}
