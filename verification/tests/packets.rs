use data_rw::DataOwnedReader;
use netx::client::packets::{call_header, frame, get_result_buff, get_session_id_buff, get_verify_buff};
use netx::client::reading::{read_server_message, ServerMessage};
use netx::client::result::RetResult as ClientRetResult;
use netx::protocol::payload_len;
use netx::server::handshake::read_verify_request;
use netx::server::packets::{call_peer_header, get_result_buff as server_result_buff, key_verify_buff, seal, session_id_buff};
use netx::server::reading::{read_client_message, ClientMessage};
use netx::server::result::RetResult as ServerRetResult;

fn bytes_of(d: data_rw::Data) -> Vec<u8> {
    d.into_inner()
}

#[test]
fn length_field_below_four_is_no_packet() {
    assert_eq!(payload_len(3), None);
    assert_eq!(payload_len(4), Some(0));
    assert_eq!(payload_len(12), Some(8));
}

#[test]
fn verify_buff_layout() {
    let b = bytes_of(get_verify_buff("ab", "k", 5));
    assert_eq!(
        b,
        vec![0xe8, 3, 0, 0, 2, 0, 0, 0, b'a', b'b', 1, 0, 0, 0, b'k', 5, 0, 0, 0, 0, 0, 0, 0]
    );
}

#[test]
fn session_id_buff_in_both_modes() {
    assert_eq!(bytes_of(get_session_id_buff(0)), vec![0xd0, 7, 0, 0]);
    assert_eq!(bytes_of(get_session_id_buff(1)), vec![8, 0, 0, 0, 0xd0, 7, 0, 0]);
}

#[test]
fn frame_adds_length_only_outside_mode_zero() {
    let mut d = data_rw::Data::new();
    d.write_buf(&[9, 9]);
    assert_eq!(bytes_of(frame(0, d)), vec![9, 9]);
    let mut d = data_rw::Data::new();
    d.write_buf(&[9, 9]);
    assert_eq!(bytes_of(frame(3, d)), vec![6, 0, 0, 0, 9, 9]);
}

#[test]
fn call_header_layout() {
    let b = bytes_of(call_header(2, 1000, 7, 2));
    assert_eq!(
        b,
        vec![0x60, 9, 0, 0, 2, 0xe8, 3, 0, 0, 7, 0, 0, 0, 0, 0, 0, 0, 2, 0, 0, 0]
    );
}

#[test]
fn client_answer_read_by_server() {
    let mut r = ClientRetResult::success();
    r.push_argument(vec![1, 2, 3]);
    r.push_argument(vec![]);
    let b = bytes_of(get_result_buff(42, r, 1));
    assert_eq!(&b[0..4], &(b.len() as u32).to_le_bytes());
    let len = u32::from_le_bytes([b[0], b[1], b[2], b[3]]);
    let body = b[4..4 + payload_len(len).unwrap()].to_vec();
    let mut dr = DataOwnedReader::new(body);
    match read_client_message(&mut dr).unwrap() {
        ClientMessage::Reply { serial } => assert_eq!(serial, 42),
        _ => panic!("expected a reply"),
    }
    let back = ServerRetResult::from(&mut dr).ok().unwrap();
    assert!(!back.is_error);
    assert_eq!(back.msg, "success");
    assert_eq!(back.arguments, vec![vec![1, 2, 3], vec![]]);
}

#[test]
fn server_error_answer_read_by_client() {
    let r = ServerRetResult::error(-1, "boom".to_string());
    let b = bytes_of(netx::server::packets::get_result_buff(9, r));
    assert_eq!(u32::from_le_bytes([b[0], b[1], b[2], b[3]]) as usize, b.len());
    let mut dr = DataOwnedReader::new(b[4..].to_vec());
    match read_server_message(&mut dr).ok().unwrap() {
        ServerMessage::Reply { serial } => assert_eq!(serial, 9),
        _ => panic!("expected a reply"),
    }
    let back = ClientRetResult::from(&mut dr).ok().unwrap();
    assert!(back.is_error);
    assert_eq!(back.error_id, -1);
    assert_eq!(back.msg, "boom");
    assert!(back.arguments.is_empty());
}

#[test]
fn handshake_answer_asks_for_mode_one() {
    let b = bytes_of(key_verify_buff(false, "verify success"));
    assert_eq!(u32::from_le_bytes([b[0], b[1], b[2], b[3]]) as usize, b.len());
    let mut dr = DataOwnedReader::new(b[4..].to_vec());
    match read_server_message(&mut dr).ok().unwrap() {
        ServerMessage::Verified { msg, mode_one } => {
            assert_eq!(msg, "verify success");
            assert!(mode_one);
        }
        _ => panic!("expected an acceptance"),
    }
    let b = bytes_of(key_verify_buff(true, "service name error"));
    let mut dr = DataOwnedReader::new(b[4..].to_vec());
    match read_server_message(&mut dr).ok().unwrap() {
        ServerMessage::Refused { msg } => assert_eq!(msg, "service name error"),
        _ => panic!("expected a refusal"),
    }
}

#[test]
fn session_id_read_by_client() {
    let b = bytes_of(session_id_buff(123456789));
    assert_eq!(b.len(), 16);
    assert_eq!(&b[0..4], &[16, 0, 0, 0]);
    let mut dr = DataOwnedReader::new(b[4..].to_vec());
    match read_server_message(&mut dr).ok().unwrap() {
        ServerMessage::SessionId(id) => assert_eq!(id, 123456789),
        _ => panic!("expected a session id"),
    }
}

#[test]
fn peer_call_sealed_and_read_by_client() {
    let mut d = call_peer_header(1, 5000, 77, 1);
    d.write_buf(&[4, 0, 0, 0, 1, 2, 3, 4]);
    seal(&mut d);
    let b = bytes_of(d);
    assert_eq!(u32::from_le_bytes([b[0], b[1], b[2], b[3]]) as usize, b.len());
    let mut dr = DataOwnedReader::new(b[4..].to_vec());
    match read_server_message(&mut dr).ok().unwrap() {
        ServerMessage::Call { tt, cmd, serial } => {
            assert_eq!((tt, cmd, serial), (1, 5000, 77));
        }
        _ => panic!("expected a call"),
    }
    assert_eq!(dr.get_offset(), 17);
}

#[test]
fn unknown_commands_are_reported() {
    let mut dr = DataOwnedReader::new(vec![1, 0, 0, 0]);
    match read_client_message(&mut dr).unwrap() {
        ClientMessage::Unknown(c) => assert_eq!(c, 1),
        _ => panic!("expected unknown"),
    }
    let mut dr = DataOwnedReader::new(vec![0xd0, 7, 0, 0]);
    assert!(matches!(read_client_message(&mut dr).unwrap(), ClientMessage::SessionRequest));
}

#[test]
fn truncated_packets_are_errors() {
    let mut dr = DataOwnedReader::new(vec![0xc4, 9, 0, 0, 1, 2]);
    assert!(read_client_message(&mut dr).is_err());
    let mut dr = DataOwnedReader::new(vec![0xe8, 3]);
    assert!(read_server_message(&mut dr).is_err());
}

#[test]
fn outcome_with_negative_count_is_an_error() {
    let mut dr = DataOwnedReader::new(vec![0, 0xff, 0xff, 0xff, 0xff]);
    assert!(ClientRetResult::from(&mut dr).is_err());
    let mut dr = DataOwnedReader::new(vec![0, 0xff, 0xff, 0xff, 0xff]);
    assert!(ServerRetResult::from(&mut dr).is_err());
}

#[test]
fn outcome_with_missing_argument_is_an_error() {
    let mut dr = DataOwnedReader::new(vec![0, 2, 0, 0, 0, 1, 0, 0, 0, 7]);
    assert!(ClientRetResult::from(&mut dr).is_err());
}

#[test]
fn outcome_with_bad_text_is_an_error() {
    let mut dr = DataOwnedReader::new(vec![1, 1, 0, 0, 0, 1, 0, 0, 0, 0xff]);
    assert!(ServerRetResult::from(&mut dr).is_err());
}

#[test]
fn handshake_read_back_by_server() {
    let mut dr = DataOwnedReader::new(bytes_of(get_verify_buff("svc", "key", 77)));
    let v = read_verify_request(&mut dr).ok().unwrap();
    assert_eq!((v.cmd, v.service_name.as_str(), v.verify_key.as_str(), v.session_id), (1000, "svc", "key", 77));
    let mut short = DataOwnedReader::new(vec![0xe8, 3, 0, 0, 9, 0, 0, 0, b'a']);
    assert!(read_verify_request(&mut short).is_err());
}

#[test]
fn client_and_server_answers_are_the_same_bytes() {
    let mut c = ClientRetResult::success();
    c.push_argument(vec![5, 6]);
    let mut s = ServerRetResult::success();
    s.push_argument(vec![5, 6]);
    assert_eq!(bytes_of(get_result_buff(9, c, 1)), bytes_of(server_result_buff(9, s)));
}
