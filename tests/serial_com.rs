use serial_com::config::{DataBits, FlowControl, Parity, SerialCom, StopBits};
use serial_com::crc::calculate_crc;
use serial_com::framing::{
    append_crc, check_crc, frame_hex_response, frame_string_request, parse_string_response,
    HEX_FRAME_LEN,
};
use serial_com::session::{SerialError, SerialStatus};
use std::sync::Arc;
use std::time::Duration;

fn config() -> SerialCom {
    SerialCom {
        port: Arc::new(String::from("COM9")),
        baud: 9_600,
        data_bits: DataBits::Eight,
        stop_bits: StopBits::One,
        parity: Parity::Off,
        flow_control: FlowControl::Off,
        timeout: Duration::from_millis(100),
    }
}

/// A stand-in line handle that answers every request with fixed bytes.
struct Loopback {
    answer: Vec<u8>,
}

impl Loopback {
    fn exchange(&self, _request: &[u8], buffer: &mut [u8]) -> usize {
        let n = self.answer.len().min(buffer.len());
        buffer[..n].copy_from_slice(&self.answer[..n]);
        n
    }
}

#[test]
fn crc_matches_modbus_reference_vectors() {
    assert_eq!(calculate_crc(&[0x01, 0x03, 0x24, 0x02, 0x00, 0x02]), [0x6F, 0x3B]);
    assert_eq!(calculate_crc(b"123456789"), [0x37, 0x4B]);
    assert_eq!(calculate_crc(&[]), [0xFF, 0xFF]);
    assert_eq!(calculate_crc(&[0x01, 0x03, 0x00, 0x00, 0x00, 0x01]), [0x84, 0x0A]);
}

#[test]
fn crc_is_deterministic() {
    let data: Vec<u8> = (0u8..=255).collect();
    assert_eq!(calculate_crc(&data), calculate_crc(&data.clone()));
}

#[test]
fn crc_changes_on_every_single_bit_flip() {
    let data = [0x01u8, 0x03, 0x24, 0x02, 0x00, 0x02];
    let reference = calculate_crc(&data);
    for i in 0..data.len() {
        for bit in 0..8 {
            let mut flipped = data;
            flipped[i] ^= 1 << bit;
            assert_ne!(calculate_crc(&flipped), reference, "byte {} bit {}", i, bit);
        }
    }
}

#[test]
fn append_and_check_crc() {
    let mut command: Vec<u8> = vec![0x01, 0x03, 0x24, 0x02, 0x00, 0x02];
    append_crc(&mut command);
    assert_eq!(command, vec![0x01, 0x03, 0x24, 0x02, 0x00, 0x02, 0x6F, 0x3B]);
    assert!(check_crc(&command, command.len()));
    assert!(!check_crc(&command, command.len() - 1));
    assert!(!check_crc(&command, 1));
    assert!(!check_crc(&command, command.len() + 1));
    command[2] ^= 0x10;
    assert!(!check_crc(&command, command.len()));
}

#[test]
fn check_crc_on_a_padded_frame() {
    let mut reply: Vec<u8> = vec![0x01, 0x03, 0x04, 0x00, 0xFA, 0x01, 0x02];
    append_crc(&mut reply);
    let mut frame = frame_hex_response(&reply);
    assert!(check_crc(&frame, 9));
    frame[4] ^= 0x01;
    assert!(!check_crc(&frame, 9));
}

#[test]
fn session_lifecycle() {
    let session: SerialStatus<Loopback> = SerialStatus::new(config());
    assert!(!session.is_connected());
    let opened: Result<Loopback, String> = Ok(Loopback { answer: vec![] });
    let session = match session.connect(opened) {
        Ok(s) => s,
        Err(_) => panic!("connect refused a line that opened"),
    };
    assert!(session.is_connected());
    assert_eq!(session.info.baud, 9_600);
    let session = session.disconnect();
    assert!(!session.is_connected());
    assert!(session.port.is_none());
    assert_eq!(*session.info.port, "COM9");
}

#[test]
fn failed_connect_returns_the_open_error() {
    let session: SerialStatus<Loopback> = SerialStatus::new(config());
    let opened: Result<Loopback, String> = Err(String::from("device busy"));
    match session.connect(opened) {
        Ok(_) => panic!("connect accepted a line that failed to open"),
        Err(e) => assert_eq!(e, "device busy"),
    }
}

#[test]
fn exchanges_without_a_line_report_no_device() {
    let session: SerialStatus<Loopback> = SerialStatus::new(config());
    assert!(matches!(session.line(), Err(SerialError::NoDevice)));
    let opened: Result<Loopback, ()> = Ok(Loopback { answer: vec![] });
    let session = session.connect(opened).ok().unwrap().disconnect();
    assert!(matches!(session.line(), Err(SerialError::NoDevice)));
}

#[test]
fn string_exchange_over_loopback() {
    let opened: Result<Loopback, ()> = Ok(Loopback { answer: b"OK\r\n".to_vec() });
    let session = SerialStatus::new(config()).connect(opened).ok().unwrap();
    let line = session.line().ok().unwrap();
    let request = frame_string_request("*IDN?");
    assert_eq!(request, b"*IDN?\r\n".to_vec());
    let mut buffer = [0u8; 128];
    let n = line.exchange(&request, &mut buffer);
    assert_eq!(parse_string_response(&buffer[..n]), Ok(String::from("OK")));
}

#[test]
fn string_request_keeps_utf8_bytes() {
    assert_eq!(frame_string_request(""), vec![13, 10]);
    assert_eq!(frame_string_request("é"), vec![0xC3, 0xA9, 13, 10]);
}

#[test]
fn string_response_edge_cases() {
    assert_eq!(parse_string_response(b""), Err(SerialError::ShortResponse));
    assert_eq!(parse_string_response(b"K"), Err(SerialError::ShortResponse));
    assert_eq!(parse_string_response(b"\r\n"), Ok(String::new()));
    assert_eq!(parse_string_response(b"1.25E-3\r\n"), Ok(String::from("1.25E-3")));
    assert_eq!(parse_string_response(&[0x41, 0xFF, 0x42, 13, 10]), Ok(String::from("A\u{FFFD}B")));
    assert_eq!(parse_string_response(&[0xC3, 0xA9, 13, 10]), Ok(String::from("é")));
}

#[test]
fn hex_exchange_returns_a_full_frame_unchanged() {
    let answer: Vec<u8> = (1u8..=32).collect();
    let opened: Result<Loopback, ()> = Ok(Loopback { answer: answer.clone() });
    let session = SerialStatus::new(config()).connect(opened).ok().unwrap();
    let line = session.line().ok().unwrap();
    let mut buffer = [0u8; HEX_FRAME_LEN];
    let n = line.exchange(&[0x01, 0x03], &mut buffer);
    let frame = frame_hex_response(&buffer[..n]);
    assert_eq!(frame.to_vec(), answer);
}

#[test]
fn hex_exchange_zero_fills_a_short_response() {
    let answer: Vec<u8> = vec![0x01, 0x03, 0x02, 0x00, 0x64, 0xB9, 0xAF];
    let opened: Result<Loopback, ()> = Ok(Loopback { answer: answer.clone() });
    let session = SerialStatus::new(config()).connect(opened).ok().unwrap();
    let line = session.line().ok().unwrap();
    let mut buffer = [0u8; HEX_FRAME_LEN];
    let n = line.exchange(&[0x01, 0x03], &mut buffer);
    assert_eq!(n, 7);
    let frame = frame_hex_response(&buffer[..n]);
    assert_eq!(&frame[..7], &answer[..]);
    assert!(frame[7..].iter().all(|b| *b == 0));
}

#[test]
fn hex_frame_keeps_only_the_first_bytes_of_a_long_response() {
    let answer: Vec<u8> = (0u8..40).collect();
    let frame = frame_hex_response(&answer);
    assert_eq!(frame.to_vec(), answer[..32].to_vec());
    assert_eq!(frame_hex_response(&[]), [0u8; 32]);
}

#[test]
fn status_reads_agree() {
    let opened: Result<Loopback, ()> = Ok(Loopback { answer: vec![] });
    let session = SerialStatus::new(config()).connect(opened).ok().unwrap();
    let readers: Vec<&SerialStatus<Loopback>> = vec![&session; 8];
    assert!(readers.iter().all(|s| s.is_connected()));
}
