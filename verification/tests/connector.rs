use rsocx::Addr;
use rsocx::ConnectTarget;
use rsocx::ConnectorAction;
use rsocx::after_connect;
use rsocx::build_reply;
use rsocx::connect_target;

#[test]
fn v4_and_domain_dial_textual_address() {
    let address = String::from("203.0.113.9:80");
    let t = connect_target(&Addr::V4([203, 0, 113, 9]), &address, 80);
    assert!(matches!(t, ConnectTarget::Textual(s) if s == address));

    let address = String::from("example.com:443");
    let t = connect_target(&Addr::Domain(b"example.com".to_vec()), &address, 443);
    assert!(matches!(t, ConnectTarget::Textual(s) if s == address));
}

#[test]
fn v6_dials_explicit_socket_words() {
    let bytes = [
        0x20, 0x01, 0x0d, 0xb8, 0, 0, 0, 0, 0, 0, 0, 0, 0, 0, 0, 1,
    ];
    let address = String::from("unused");
    let t = connect_target(&Addr::V6(bytes), &address, 8443);
    match t {
        ConnectTarget::V6Socket { words, port } => {
            assert_eq!(words, [8193, 3512, 0, 0, 0, 0, 0, 1]);
            assert_eq!(port, 8443);
        }
        _ => panic!("expected an explicit IPv6 socket target"),
    }
}

#[test]
fn unreachable_target_writes_no_reply() {
    // outbound connect failed: the client is dropped with no bytes written
    let act = after_connect(&Addr::V4([192, 0, 2, 1]), None);
    assert!(matches!(act, ConnectorAction::Abandon));
}

#[test]
fn successful_connect_sends_exact_reply() {
    let addr = Addr::Domain(b"example.com".to_vec());
    let act = after_connect(&addr, Some(49152));
    match act {
        ConnectorAction::SendReply(reply) => {
            assert_eq!(reply, build_reply(&addr, 49152));
            assert_eq!(&reply[..3], &[5, 0, 0]);
        }
        ConnectorAction::Abandon => panic!("expected a reply"),
    }
}
