use j4i2prs::error::{EngineError, J4I2PRSError};
use j4i2prs::jvm::{new, EngineClass, EngineMethod};
use j4i2prs::router_wrapper::{RouterMethod, RouterState, Wrapper};

#[test]
fn create_router_states() {
    let w = Wrapper::create_router(true).unwrap();
    assert_eq!(w.state, RouterState::Created);
    let e = Wrapper::create_router(false).unwrap_err();
    assert_eq!(e, J4I2PRSError::Engine(EngineError::ConstructionFailed));
}

#[test]
fn run_moves_to_running() {
    let mut w = Wrapper::create_router(true).unwrap();
    w.invoke_router(RouterMethod::RunRouter, true).unwrap();
    assert_eq!(w.state, RouterState::Running);
}

#[test]
fn failed_invocation_keeps_state() {
    let mut w = Wrapper::create_router(true).unwrap();
    let e = w.invoke_router(RouterMethod::RunRouter, false).unwrap_err();
    assert_eq!(e, J4I2PRSError::Engine(EngineError::InvocationFailed));
    assert_eq!(w.state, RouterState::Created);
}

#[test]
fn probes_do_not_change_state() {
    let mut w = Wrapper::create_router(true).unwrap();
    w.invoke_router(RouterMethod::RunRouter, true).unwrap();
    w.invoke_router(RouterMethod::IsAlive, true).unwrap();
    assert_eq!(w.state, RouterState::Running);
    assert_eq!(w.is_running(Some(true)).unwrap(), true);
    assert_eq!(w.is_running(Some(false)).unwrap(), false);
    assert_eq!(
        w.is_running(None).unwrap_err(),
        J4I2PRSError::Engine(EngineError::InvocationFailed)
    );
    assert_eq!(w.state, RouterState::Running);
}

#[test]
fn shutdown_twice_is_deterministic() {
    // A second shutdown neither panics nor corrupts the handle; each
    // call's outcome mirrors the engine's answer exactly.
    let mut w = Wrapper::create_router(true).unwrap();
    w.invoke_router(RouterMethod::RunRouter, true).unwrap();
    assert!(w.invoke_router(RouterMethod::ShutdownGracefully, true).is_ok());
    assert_eq!(w.state, RouterState::Terminated);
    assert!(w.invoke_router(RouterMethod::ShutdownGracefully, true).is_ok());
    assert_eq!(w.state, RouterState::Terminated);
    // An engine-reported error on the repeat call is surfaced, not
    // suppressed, and still leaves the handle terminated.
    let e = w
        .invoke_router(RouterMethod::ShutdownGracefully, false)
        .unwrap_err();
    assert_eq!(e, J4I2PRSError::Engine(EngineError::InvocationFailed));
    assert_eq!(w.state, RouterState::Terminated);
}

#[test]
fn shutdown_before_run_is_permitted() {
    let mut w = Wrapper::create_router(true).unwrap();
    assert!(w.invoke_router(RouterMethod::ShutdownGracefully, true).is_ok());
    assert_eq!(w.state, RouterState::Terminated);
}

#[test]
fn router_method_names() {
    assert_eq!(RouterMethod::RunRouter.name(), "runRouter");
    assert_eq!(RouterMethod::IsAlive.name(), "isAlive");
    assert_eq!(RouterMethod::ShutdownGracefully.name(), "shutdownGracefully");
}

#[test]
fn engine_class_names() {
    assert_eq!(EngineClass::Router.name(), "net.i2p.router.Router");
    assert_eq!(EngineClass::I2PTunnel.name(), "net.i2p.i2ptunnel.I2PTunnel");
    assert_eq!(
        EngineClass::ByteArrayOutputStream.name(),
        "java.io.ByteArrayOutputStream"
    );
    assert_eq!(EngineClass::FileOutputStream.name(), "java.io.FileOutputStream");
    assert_eq!(
        EngineClass::I2PClientFactory.name(),
        "net.i2p.client.I2PClientFactory"
    );
    assert_eq!(EngineClass::Base64.name(), "net.i2p.data.Base64");
}

#[test]
fn engine_method_names() {
    assert_eq!(EngineMethod::CreateClient.name(), "createClient");
    assert_eq!(EngineMethod::CreateDestination.name(), "createDestination");
    assert_eq!(EngineMethod::GetSk.name(), "getSk");
    assert_eq!(EngineMethod::Encode.name(), "encode");
    assert_eq!(EngineMethod::Decode.name(), "decode");
    assert_eq!(EngineMethod::ToBase32.name(), "toBase32");
    assert_eq!(EngineMethod::Close.name(), "close");
    assert_eq!(EngineMethod::Write.name(), "write");
}

#[test]
fn jvm_config_base_path() {
    assert_eq!(new(None).base_path, "opt/j4-i2p-rs");
    assert_eq!(new(Some(String::from("/custom/path"))).base_path, "/custom/path");
}
