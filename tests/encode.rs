use programer::frame::{encode_frame, split_nibbles, xor_checksum};
use programer::{Command, Ping, Quit, Read, Verify, Write};

fn rejoin(body: &[u8]) -> Vec<u8> {
    body.chunks(2).map(|pair| (pair[0] << 4) | pair[1]).collect()
}

fn all_commands() -> Vec<Box<dyn Command>> {
    vec![
        Box::new(Ping {}),
        Box::new(Write { page_no: 0x7f, page_data: vec![0x00, 0xff, 0x5a, 0xa5, 0x10] }),
        Box::new(Write { page_no: 0x03, page_data: vec![] }),
        Box::new(Read { page_no: 0xff }),
        Box::new(Verify { page_no: 0x80 }),
        Box::new(Quit {}),
    ]
}

#[test]
fn ping_frame() {
    let ping = Ping {};
    assert_eq!(ping.payload(), vec![0x10]);
    assert_eq!(ping.to_sysex(), vec![0xf0, 0x00, 0x70, 0x01, 0x01, 0x00, 0x01, 0x00, 0xf7]);
}

#[test]
fn quit_frame() {
    let quit = Quit {};
    assert_eq!(quit.payload(), vec![0x14]);
    assert_eq!(quit.to_sysex(), vec![0xf0, 0x00, 0x70, 0x01, 0x01, 0x04, 0x01, 0x04, 0xf7]);
}

#[test]
fn read_frame() {
    let read = Read { page_no: 0x05 };
    assert_eq!(read.payload(), vec![0x12, 0x05]);
    assert_eq!(
        read.to_sysex(),
        vec![0xf0, 0x00, 0x70, 0x01, 0x01, 0x02, 0x00, 0x05, 0x01, 0x07, 0xf7]
    );
}

#[test]
fn verify_frame() {
    let verify = Verify { page_no: 0x05 };
    assert_eq!(verify.payload(), vec![0x13, 0x05]);
    // checksum 0x13 ^ 0x05 = 0x16
    assert_eq!(
        verify.to_sysex(),
        vec![0xf0, 0x00, 0x70, 0x01, 0x01, 0x03, 0x00, 0x05, 0x01, 0x06, 0xf7]
    );
}

#[test]
fn write_frame() {
    let write = Write { page_no: 0x00, page_data: vec![0xab] };
    assert_eq!(write.payload(), vec![0x11, 0x00, 0xab]);
    assert_eq!(
        write.to_sysex(),
        vec![0xf0, 0x00, 0x70, 0x01, 0x01, 0x01, 0x00, 0x00, 0x0a, 0x0b, 0x0b, 0x0a, 0xf7]
    );
}

#[test]
fn write_empty_page_data() {
    let write = Write { page_no: 0x42, page_data: vec![] };
    assert_eq!(write.payload(), vec![0x11, 0x42]);
    // checksum 0x11 ^ 0x42 = 0x53
    assert_eq!(
        write.to_sysex(),
        vec![0xf0, 0x00, 0x70, 0x01, 0x01, 0x01, 0x04, 0x02, 0x05, 0x03, 0xf7]
    );
}

#[test]
fn write_payload_keeps_data_order() {
    let write = Write { page_no: 0x09, page_data: vec![0x01, 0x02, 0x03] };
    assert_eq!(write.payload(), vec![0x11, 0x09, 0x01, 0x02, 0x03]);
}

#[test]
fn write_full_page_length() {
    let data: Vec<u8> = (0..=255u8).collect();
    let write = Write { page_no: 0x01, page_data: data };
    let message = write.to_sysex();
    assert_eq!(message.len(), 4 + 2 * (258 + 1) + 1);
    // XOR of 0..=255 is 0, so the checksum is 0x11 ^ 0x01 = 0x10.
    let n = message.len();
    assert_eq!(&message[n - 3..], &[0x01, 0x00, 0xf7]);
}

#[test]
fn encoded_length_for_all_commands() {
    for c in all_commands() {
        let payload = c.payload();
        assert_eq!(c.to_sysex().len(), 4 + 2 * (payload.len() + 1) + 1);
    }
}

#[test]
fn encoded_delimiters_for_all_commands() {
    for c in all_commands() {
        let message = c.to_sysex();
        assert_eq!(&message[0..4], &[0xf0, 0x00, 0x70, 0x01]);
        assert_eq!(*message.last().unwrap(), 0xf7);
    }
}

#[test]
fn encoded_body_is_nibbles_for_all_commands() {
    for c in all_commands() {
        let message = c.to_sysex();
        let n = message.len();
        assert!(message[4..n - 1].iter().all(|&b| b <= 15));
    }
}

#[test]
fn encoded_round_trip_for_all_commands() {
    for c in all_commands() {
        let message = c.to_sysex();
        let n = message.len();
        let mut joined = rejoin(&message[4..n - 1]);
        joined.pop();
        assert_eq!(joined, c.payload());
    }
}

#[test]
fn encoded_checksum_for_all_commands() {
    for c in all_commands() {
        let message = c.to_sysex();
        let n = message.len();
        let mut joined = rejoin(&message[4..n - 1]);
        let checksum = joined.pop().unwrap();
        assert_eq!(checksum, joined.iter().fold(0u8, |acc, b| acc ^ b));
    }
}

#[test]
fn to_nibbles_splits_each_byte() {
    let ping = Ping {};
    assert_eq!(ping.to_nibbles(vec![0xab, 0x0f, 0xf0]), vec![0x0a, 0x0b, 0x00, 0x0f, 0x0f, 0x00]);
    assert_eq!(ping.to_nibbles(vec![]), Vec::<u8>::new());
}

#[test]
fn split_nibbles_high_first() {
    assert_eq!(split_nibbles(&vec![0x12, 0xff, 0x00]), vec![0x01, 0x02, 0x0f, 0x0f, 0x00, 0x00]);
}

#[test]
fn checksum_is_xor_of_bytes() {
    assert_eq!(xor_checksum(&vec![]), 0x00);
    assert_eq!(xor_checksum(&vec![0x10]), 0x10);
    assert_eq!(xor_checksum(&vec![0x11, 0x00, 0xab]), 0xba);
    assert_eq!(xor_checksum(&vec![0x55, 0x55]), 0x00);
}

#[test]
fn encode_frame_of_empty_payload() {
    assert_eq!(encode_frame(vec![]), vec![0xf0, 0x00, 0x70, 0x01, 0x00, 0x00, 0xf7]);
}

#[test]
fn encode_frame_of_payload() {
    assert_eq!(
        encode_frame(vec![0x12, 0x05]),
        vec![0xf0, 0x00, 0x70, 0x01, 0x01, 0x02, 0x00, 0x05, 0x01, 0x07, 0xf7]
    );
}
