use os3000_reader::protocol::{
    classify_reply, default_request, handshake_probe, request_command, ConnectionParams,
    ReplyClass,
};

#[test]
fn ack_byte_is_ready() {
    assert_eq!(classify_reply(0x41), ReplyClass::Ready);
}

#[test]
fn busy_byte_is_busy() {
    assert_eq!(classify_reply(0x61), ReplyClass::Busy);
}

#[test]
fn every_other_byte_is_unrecognized() {
    for b in 0..=255u8 {
        if b != 0x41 && b != 0x61 {
            assert_eq!(classify_reply(b), ReplyClass::Unrecognized);
        }
    }
}

#[test]
fn probe_is_s1_then_carriage_return() {
    assert_eq!(handshake_probe(), b"S1\r".to_vec());
}

#[test]
fn default_request_is_the_fixed_command() {
    assert_eq!(default_request(), b"R1(0000,1000,B)\r".to_vec());
}

#[test]
fn request_command_lays_out_all_four_parts() {
    let cmd = request_command(b'2', &b"0010".to_vec(), &b"500".to_vec(), b'A');
    assert_eq!(cmd, b"R2(0010,500,A)\r".to_vec());
}

#[test]
fn supplied_baud_is_kept() {
    let p = ConnectionParams::new(String::from("COM3"), Some(115200));
    assert_eq!(p.port, String::from("COM3"));
    assert_eq!(p.baud, 115200);
}

#[test]
fn missing_baud_falls_back_to_default() {
    let p = ConnectionParams::new(String::from("/dev/ttyUSB0"), None);
    assert_eq!(p.baud, 9600);
}
