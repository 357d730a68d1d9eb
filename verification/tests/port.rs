use sidecar_supervisor::errors::HandshakeError;
use sidecar_supervisor::errors::PortReadError;
use sidecar_supervisor::port::get_port;
use sidecar_supervisor::port::parse_port;
use sidecar_supervisor::port::port_file_name;

#[test]
fn parse_simple() {
    assert_eq!(parse_port(b"5555"), Ok(5555));
}

#[test]
fn parse_trailing_newline() {
    assert_eq!(parse_port(b"8080\n"), Ok(8080));
}

#[test]
fn parse_surrounding_whitespace() {
    assert_eq!(parse_port(b"  443 \r\n"), Ok(443));
    assert_eq!(parse_port(b"\t9\t"), Ok(9));
}

#[test]
fn parse_zero() {
    assert_eq!(parse_port(b"0"), Ok(0));
}

#[test]
fn parse_largest_port() {
    assert_eq!(parse_port(b"65535"), Ok(65535));
}

#[test]
fn parse_leading_zeros() {
    assert_eq!(parse_port(b"0080"), Ok(80));
}

#[test]
fn parse_out_of_range() {
    assert_eq!(parse_port(b"65536"), Err(HandshakeError::Parse));
    assert_eq!(parse_port(b"99999"), Err(HandshakeError::Parse));
}

#[test]
fn parse_huge_number() {
    assert_eq!(parse_port(b"99999999999999999999999"), Err(HandshakeError::Parse));
}

#[test]
fn parse_empty() {
    assert_eq!(parse_port(b""), Err(HandshakeError::Parse));
}

#[test]
fn parse_whitespace_only() {
    assert_eq!(parse_port(b"   \n\t"), Err(HandshakeError::Parse));
}

#[test]
fn parse_non_numeric() {
    assert_eq!(parse_port(b"port"), Err(HandshakeError::Parse));
    assert_eq!(parse_port(b"55a5"), Err(HandshakeError::Parse));
    assert_eq!(parse_port(b"-1"), Err(HandshakeError::Parse));
    assert_eq!(parse_port(b"+1"), Err(HandshakeError::Parse));
    assert_eq!(parse_port(b"55 55"), Err(HandshakeError::Parse));
}

#[test]
fn parse_round_trips_every_written_port() {
    let mut n: u32 = 0;
    while n <= 65535 {
        let text = format!("{}", n);
        assert_eq!(parse_port(text.as_bytes()), Ok(n as u16));
        let padded = format!(" {}\n", n);
        assert_eq!(parse_port(padded.as_bytes()), Ok(n as u16));
        n += 997;
    }
    assert_eq!(parse_port(b"65535"), Ok(65535));
}

#[test]
fn handshake_file_name() {
    assert_eq!(port_file_name(), "backend_port.txt");
}

#[test]
fn get_port_without_file() {
    assert_eq!(get_port(None), Err(PortReadError::Unavailable));
}

#[test]
fn get_port_malformed() {
    assert_eq!(get_port(Some(b"backend")), Err(PortReadError::Parse));
    assert_eq!(get_port(Some(b"")), Err(PortReadError::Parse));
    assert_eq!(get_port(Some(b"70000")), Err(PortReadError::Parse));
}

#[test]
fn get_port_reads_fresh_value() {
    assert_eq!(get_port(Some(b"5555\n")), Ok(5555));
}
