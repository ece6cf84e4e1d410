use j4i2prs::base64::{encode, is_valid_b64};
use j4i2prs::error::{EngineError, J4I2PRSError};
use j4i2prs::staging::StagingArea;
use j4i2prs::tunnel_control::{generate_steps, IdentityStep, KeyPair, Tunnel, TunnelType};

fn server_identity() -> KeyPair {
    let sk = encode(&[10u8, 20, 30, 40, 50, 60]);
    KeyPair::new(sk, String::from("example.b32.i2p")).unwrap()
}

#[test]
fn keypair_parts_are_validated() {
    // A generated identity always has a non-empty valid-base64 secret
    // and an address under the fixed domain suffix.
    let kp = server_identity();
    assert!(!kp.sk().is_empty());
    assert!(is_valid_b64(kp.sk()));
    assert!(kp.b32_dest().ends_with(".b32.i2p"));
}

#[test]
fn keypair_rejects_empty_secret() {
    let r = KeyPair::new(String::new(), String::from("example.b32.i2p"));
    assert_eq!(
        r.unwrap_err(),
        J4I2PRSError::Engine(EngineError::MarshallingFailed)
    );
}

#[test]
fn keypair_rejects_invalid_secret() {
    let r = KeyPair::new(String::from("***"), String::from("example.b32.i2p"));
    assert_eq!(
        r.unwrap_err(),
        J4I2PRSError::Engine(EngineError::MarshallingFailed)
    );
}

#[test]
fn keypair_rejects_bad_address() {
    let sk = encode(&[1u8, 2, 3]);
    let r = KeyPair::new(sk, String::from("example.onion"));
    assert_eq!(
        r.unwrap_err(),
        J4I2PRSError::Engine(EngineError::MarshallingFailed)
    );
}

#[test]
fn tunnel_type_values() {
    assert_eq!(TunnelType::Http.value(), "http");
    assert_eq!(TunnelType::Server.value(), "server");
    assert_eq!(TunnelType::Socks.value(), "socks");
}

#[test]
fn identity_present_exactly_for_servers() {
    let http = Tunnel::new(String::new(), 4444, TunnelType::Http, None).unwrap();
    assert!(http.get_destination().is_none());
    let socks = Tunnel::new(String::new(), 1080, TunnelType::Socks, None).unwrap();
    assert!(socks.get_destination().is_none());
    let server = Tunnel::new(
        String::from("127.0.0.1"),
        8080,
        TunnelType::Server,
        Some(server_identity()),
    )
    .unwrap();
    assert_eq!(server.get_destination().unwrap(), "example.b32.i2p");
}

#[test]
fn port_is_kept() {
    let t = Tunnel::new(String::new(), 1080, TunnelType::Socks, None).unwrap();
    assert_eq!(t.get_port(), 1080);
}

#[test]
fn socks_start_arguments() {
    let t = Tunnel::new(String::new(), 1080, TunnelType::Socks, None).unwrap();
    let mut area = StagingArea::new();
    let plan = t.start(&mut area, "/work").unwrap();
    assert_eq!(plan.class, "net.i2p.i2ptunnel.I2PTunnel");
    assert_eq!(plan.args, vec!["-die", "-nocli", "-e", "sockstunnel 1080"]);
    assert!(plan.staged.is_none());
    assert_eq!(area.len(), 0);
}

#[test]
fn http_start_arguments() {
    let t = Tunnel::new(String::new(), 4444, TunnelType::Http, None).unwrap();
    let mut area = StagingArea::new();
    let plan = t.start(&mut area, "/work").unwrap();
    assert_eq!(plan.class, "net.i2p.i2ptunnel.I2PTunnel");
    assert_eq!(
        plan.args,
        vec!["-die", "-nocli", "-e", "config localhost 7654", "-e", "httpclient 4444"]
    );
    assert!(plan.staged.is_none());
    assert_eq!(area.len(), 0);
}

#[test]
fn server_start_arguments() {
    let raw = vec![10u8, 20, 30, 40, 50, 60];
    let kp = server_identity();
    let t = Tunnel::new(String::from("127.0.0.1"), 8080, TunnelType::Server, Some(kp)).unwrap();
    let mut area = StagingArea::new();
    let plan = t.start(&mut area, "/work").unwrap();
    assert_eq!(plan.class, "net.i2p.i2ptunnel.I2PTunnel");
    let name = plan.staged.clone().unwrap();
    assert!(name.starts_with("sk."));
    assert!(name.ends_with(".dat"));
    assert_eq!(name.len(), 39);
    assert_eq!(plan.args.len(), 4);
    assert_eq!(&plan.args[0..3], &["-die", "-nocli", "-e"]);
    assert_eq!(
        plan.args[3],
        format!("server 127.0.0.1 8080 /work/{}", name)
    );
    // The staged content is the fully decoded secret.
    assert_eq!(area.read_back(&name).unwrap(), raw);
}

#[test]
fn generate_steps_order() {
    assert_eq!(
        generate_steps(),
        vec![
            IdentityStep::CreateSkStream,
            IdentityStep::CreateClient,
            IdentityStep::CreateDestination,
            IdentityStep::GetSk,
            IdentityStep::EncodeSk,
            IdentityStep::ToBase32,
        ]
    );
}
