use rsocx::Addr;
use rsocx::build_reply;
use rsocx::makeword;
use rsocx::parse_reply;

#[test]
fn build_reply_v4_exact() {
    let addr = Addr::V4([127, 0, 0, 1]);
    let reply = build_reply(&addr, 8080);
    assert_eq!(reply, vec![5, 0, 0, 1, 127, 0, 0, 1, 31, 144]);
}

#[test]
fn build_reply_v6_exact() {
    let bytes = [
        0x20, 0x01, 0x0d, 0xb8, 0, 0, 0, 0, 0, 0, 0, 0, 0, 0, 0, 1,
    ];
    let addr = Addr::V6(bytes);
    let reply = build_reply(&addr, 443);
    let mut expected = vec![5, 0, 0, 4];
    expected.extend_from_slice(&bytes);
    expected.push(1);
    expected.push(187);
    assert_eq!(reply, expected);
}

#[test]
fn build_reply_domain_exact() {
    let addr = Addr::Domain(b"example.com".to_vec());
    let reply = build_reply(&addr, 80);
    let mut expected = vec![5, 0, 0, 3, 11];
    expected.extend_from_slice(b"example.com");
    expected.push(0);
    expected.push(80);
    assert_eq!(reply, expected);
}

#[test]
fn build_reply_empty_domain() {
    let addr = Addr::Domain(Vec::new());
    let reply = build_reply(&addr, 1);
    assert_eq!(reply, vec![5, 0, 0, 3, 0, 0, 1]);
}

#[test]
fn round_trip_v4() {
    let addr = Addr::V4([10, 1, 2, 3]);
    let reply = build_reply(&addr, 65535);
    let parsed = parse_reply(&reply);
    match parsed {
        Some((Addr::V4(b), port)) => {
            assert_eq!(b, [10, 1, 2, 3]);
            assert_eq!(port, 65535);
        }
        _ => panic!("expected a V4 round trip"),
    }
}

#[test]
fn round_trip_v6() {
    let bytes = [
        1, 2, 3, 4, 5, 6, 7, 8, 9, 10, 11, 12, 13, 14, 15, 16,
    ];
    let addr = Addr::V6(bytes);
    let reply = build_reply(&addr, 0);
    let parsed = parse_reply(&reply);
    match parsed {
        Some((Addr::V6(b), port)) => {
            assert_eq!(b, bytes);
            assert_eq!(port, 0);
        }
        _ => panic!("expected a V6 round trip"),
    }
}

#[test]
fn round_trip_domain() {
    let addr = Addr::Domain(b"verus.example".to_vec());
    let reply = build_reply(&addr, 1080);
    let parsed = parse_reply(&reply);
    match parsed {
        Some((Addr::Domain(d), port)) => {
            assert_eq!(d, b"verus.example".to_vec());
            assert_eq!(port, 1080);
        }
        _ => panic!("expected a domain round trip"),
    }
}

#[test]
fn round_trip_longest_domain() {
    let dom: Vec<u8> = vec![b'a'; 255];
    let addr = Addr::Domain(dom.clone());
    let reply = build_reply(&addr, 53);
    assert_eq!(reply.len(), 7 + 255);
    let parsed = parse_reply(&reply);
    match parsed {
        Some((Addr::Domain(d), port)) => {
            assert_eq!(d, dom);
            assert_eq!(port, 53);
        }
        _ => panic!("expected a domain round trip"),
    }
}

#[test]
fn parse_rejects_wrong_version() {
    assert!(parse_reply(&[4, 0, 0, 1, 127, 0, 0, 1, 0, 80]).is_none());
}

#[test]
fn parse_rejects_nonzero_status_or_reserved() {
    assert!(parse_reply(&[5, 1, 0, 1, 127, 0, 0, 1, 0, 80]).is_none());
    assert!(parse_reply(&[5, 0, 1, 1, 127, 0, 0, 1, 0, 80]).is_none());
}

#[test]
fn parse_rejects_unknown_address_type() {
    assert!(parse_reply(&[5, 0, 0, 2, 127, 0, 0, 1, 0, 80]).is_none());
}

#[test]
fn parse_rejects_truncated() {
    assert!(parse_reply(&[]).is_none());
    assert!(parse_reply(&[5, 0, 0, 1]).is_none());
    assert!(parse_reply(&[5, 0, 0, 1, 127, 0, 0, 1, 0]).is_none());
    assert!(parse_reply(&[5, 0, 0, 3, 5, b'a', b'b', 0, 80]).is_none());
}

#[test]
fn parse_rejects_trailing_bytes() {
    assert!(parse_reply(&[5, 0, 0, 1, 127, 0, 0, 1, 0, 80, 99]).is_none());
}

#[test]
fn makeword_is_big_endian() {
    assert_eq!(makeword(0, 0), 0);
    assert_eq!(makeword(1, 0), 256);
    assert_eq!(makeword(31, 144), 8080);
    assert_eq!(makeword(255, 255), 65535);
}
