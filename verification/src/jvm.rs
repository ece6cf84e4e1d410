//! The surface of the external router engine.
//!
//! The engine is driven through a small, closed set of classes and
//! methods, named here in one place so the calls the controller can
//! make are centrally auditable, instead of free-form strings spread
//! over call sites. The engine runtime itself is configured by a base
//! path pointing at its runtime assets.

use vstd::prelude::*;

verus! {

/// Configuration for the external engine runtime.
pub struct JvmConfig {
    /// Directory holding the engine's runtime assets.
    pub base_path: String,
}

/// Builds the engine configuration. The caller reads the process
/// environment and passes any override; when none is set the fixed
/// fallback path is used.
pub fn new(base_override: Option<String>) -> (c: JvmConfig)
    ensures
        match base_override {
            Some(b) => c.base_path == b,
            None => c.base_path@ == "opt/j4-i2p-rs"@,
        },
{
    match base_override {
        Some(b) => JvmConfig { base_path: b },
        None => JvmConfig { base_path: String::from_str("opt/j4-i2p-rs") },
    }
}

/// The engine classes the controller constructs or calls into.
#[derive(Clone, Copy, Debug, PartialEq, Eq, Structural)]
pub enum EngineClass {
    /// The router runtime.
    Router,
    /// The tunnel launcher.
    I2PTunnel,
    /// Scratch byte sink handed to identity construction.
    ByteArrayOutputStream,
    /// Output stream used to materialize a staged secret.
    FileOutputStream,
    /// Factory producing identity clients.
    I2PClientFactory,
    /// The engine's base64 codec for secret material.
    Base64,
}

impl EngineClass {
    /// The fully qualified class name handed to the engine.
    pub fn name(&self) -> (r: String)
        ensures
            match self {
                EngineClass::Router => r@ == "net.i2p.router.Router"@,
                EngineClass::I2PTunnel => r@ == "net.i2p.i2ptunnel.I2PTunnel"@,
                EngineClass::ByteArrayOutputStream => r@ == "java.io.ByteArrayOutputStream"@,
                EngineClass::FileOutputStream => r@ == "java.io.FileOutputStream"@,
                EngineClass::I2PClientFactory => r@ == "net.i2p.client.I2PClientFactory"@,
                EngineClass::Base64 => r@ == "net.i2p.data.Base64"@,
            },
    {
        match self {
            EngineClass::Router => String::from_str("net.i2p.router.Router"),
            EngineClass::I2PTunnel => String::from_str("net.i2p.i2ptunnel.I2PTunnel"),
            EngineClass::ByteArrayOutputStream => String::from_str("java.io.ByteArrayOutputStream"),
            EngineClass::FileOutputStream => String::from_str("java.io.FileOutputStream"),
            EngineClass::I2PClientFactory => String::from_str("net.i2p.client.I2PClientFactory"),
            EngineClass::Base64 => String::from_str("net.i2p.data.Base64"),
        }
    }
}

/// The engine methods used while generating and staging an identity.
#[derive(Clone, Copy, Debug, PartialEq, Eq, Structural)]
pub enum EngineMethod {
    /// Static: build an identity client.
    CreateClient,
    /// Construct a fresh destination, writing its key material.
    CreateDestination,
    /// Extract the private secret of a destination.
    GetSk,
    /// Static: base64-encode secret bytes.
    Encode,
    /// Static: base64-decode secret text.
    Decode,
    /// Derive the base-32 public address of a destination.
    ToBase32,
    /// Close a stream.
    Close,
    /// Write bytes to a stream.
    Write,
}

impl EngineMethod {
    /// The engine-side method name.
    pub fn name(&self) -> (r: String)
        ensures
            match self {
                EngineMethod::CreateClient => r@ == "createClient"@,
                EngineMethod::CreateDestination => r@ == "createDestination"@,
                EngineMethod::GetSk => r@ == "getSk"@,
                EngineMethod::Encode => r@ == "encode"@,
                EngineMethod::Decode => r@ == "decode"@,
                EngineMethod::ToBase32 => r@ == "toBase32"@,
                EngineMethod::Close => r@ == "close"@,
                EngineMethod::Write => r@ == "write"@,
            },
    {
        match self {
            EngineMethod::CreateClient => String::from_str("createClient"),
            EngineMethod::CreateDestination => String::from_str("createDestination"),
            EngineMethod::GetSk => String::from_str("getSk"),
            EngineMethod::Encode => String::from_str("encode"),
            EngineMethod::Decode => String::from_str("decode"),
            EngineMethod::ToBase32 => String::from_str("toBase32"),
            EngineMethod::Close => String::from_str("close"),
            EngineMethod::Write => String::from_str("write"),
        }
    }
}

} // verus!
