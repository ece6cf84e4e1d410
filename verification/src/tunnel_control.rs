//! Tunnel identities and per-tunnel start configuration.
//!
//! A tunnel is a proxy (`Http`, `Socks`) or a published service
//! (`Server`). Server tunnels carry an identity — a base64 secret and
//! its derived base-32 public address, always produced together by one
//! engine destination. Starting a tunnel assembles the exact launcher
//! invocation the engine expects; either the whole configuration is
//! built (staging the secret first for servers), or the engine is not
//! invoked at all.

use vstd::prelude::*;
use vstd::pervasive::unreached;

use crate::base64::{is_valid_b64, spec_decode, valid_b64};
use crate::error::{EngineError, J4I2PRSError};
use crate::jvm::EngineClass;
use crate::staging::{is_token, spec_staged_name, StagingArea};
use crate::text::{copy_string, push_dec_u16, spec_dec, spec_ends_with};

verus! {

/// Whether `s` ends with the fixed public-address suffix `.b32.i2p`.
fn has_b32_suffix(s: &str) -> (r: bool)
    ensures
        r == spec_ends_with(s@, ".b32.i2p"@),
{
    proof {
        reveal_strlit(".b32.i2p");
    }
    let n = s.unicode_len();
    if n < 8 {
        return false;
    }
    let ok = s.get_char(n - 8) == '.' && s.get_char(n - 7) == 'b' && s.get_char(n - 6) == '3'
        && s.get_char(n - 5) == '2' && s.get_char(n - 4) == '.' && s.get_char(n - 3) == 'i'
        && s.get_char(n - 2) == '2' && s.get_char(n - 1) == 'p';
    proof {
        let suf = ".b32.i2p"@;
        let tail = s@.skip(n - 8);
        assert(tail.len() == 8);
        assert forall|i: int| 0 <= i < 8 implies tail[i] == s@[n - 8 + i] by {}
        if ok {
            assert(tail =~= suf);
        } else {
            if tail == suf {
                assert(s@[n - 8] == suf[0]);
                assert(s@[n - 7] == suf[1]);
                assert(s@[n - 6] == suf[2]);
                assert(s@[n - 5] == suf[3]);
                assert(s@[n - 4] == suf[4]);
                assert(s@[n - 3] == suf[5]);
                assert(s@[n - 2] == suf[6]);
                assert(s@[n - 1] == suf[7]);
            }
        }
    }
    ok
}

/// A tunnel identity: the private secret and the public address the
/// anonymity network routes to. The two are always produced together
/// by a single engine generation call; no mismatched pair exists.
#[derive(Debug)]
pub struct KeyPair {
    sk: String,
    b32_dest: String,
}

impl KeyPair {
    /// The base64 text of the private secret.
    pub closed spec fn spec_sk(&self) -> Seq<char> {
        self.sk@
    }

    /// The base-32 public address.
    pub closed spec fn spec_b32_dest(&self) -> Seq<char> {
        self.b32_dest@
    }

    /// A well-formed identity: a non-empty, valid-base64 secret, and a
    /// public address bearing the fixed domain suffix.
    pub open spec fn wf(&self) -> bool {
        &&& self.spec_sk().len() > 0
        &&& valid_b64(self.spec_sk())
        &&& spec_ends_with(self.spec_b32_dest(), ".b32.i2p"@)
    }

    /// Assembles an identity from the secret and address the engine
    /// handed back for one freshly created destination. The parts are
    /// validated: generation succeeds exactly when the secret is
    /// non-empty valid base64 and the address carries the `.b32.i2p`
    /// suffix; otherwise the engine's answer could not be marshalled
    /// and no partial identity is returned.
    pub fn new(sk: String, b32_dest: String) -> (r: Result<KeyPair, J4I2PRSError>)
        ensures
            match r {
                Ok(kp) => {
                    &&& kp.spec_sk() == sk@
                    &&& kp.spec_b32_dest() == b32_dest@
                    &&& kp.wf()
                },
                Err(e) => {
                    &&& e == J4I2PRSError::Engine(EngineError::MarshallingFailed)
                    &&& !(sk@.len() > 0 && valid_b64(sk@) && spec_ends_with(
                        b32_dest@,
                        ".b32.i2p"@,
                    ))
                },
            },
    {
        if sk.as_str().unicode_len() > 0 && is_valid_b64(sk.as_str()) && has_b32_suffix(
            b32_dest.as_str(),
        ) {
            Ok(KeyPair { sk, b32_dest })
        } else {
            Err(J4I2PRSError::Engine(EngineError::MarshallingFailed))
        }
    }

    /// The base64 secret.
    pub fn sk(&self) -> (r: &String)
        ensures
            r@ == self.spec_sk(),
    {
        &self.sk
    }

    /// The public address.
    pub fn b32_dest(&self) -> (r: &String)
        ensures
            r@ == self.spec_b32_dest(),
    {
        &self.b32_dest
    }
}

/// The engine calls that generate a fresh identity, in the one order
/// that is correct: every later step operates on the destination made
/// by the third step — extraction and derivation are never mixed
/// across two destinations.
#[derive(Clone, Copy, Debug, PartialEq, Eq, Structural)]
pub enum IdentityStep {
    /// Construct the byte sink the destination writes key material to.
    CreateSkStream,
    /// Build the identity client (static factory call).
    CreateClient,
    /// Create the fresh destination, filling the byte sink.
    CreateDestination,
    /// Extract the destination's private secret bytes.
    GetSk,
    /// Base64-encode the secret bytes (static codec call).
    EncodeSk,
    /// Derive the destination's base-32 public address.
    ToBase32,
}

/// The ordered engine plan for generating one identity.
pub fn generate_steps() -> (v: Vec<IdentityStep>)
    ensures
        v@ == seq![
            IdentityStep::CreateSkStream,
            IdentityStep::CreateClient,
            IdentityStep::CreateDestination,
            IdentityStep::GetSk,
            IdentityStep::EncodeSk,
            IdentityStep::ToBase32,
        ],
{
    let mut v: Vec<IdentityStep> = Vec::new();
    v.push(IdentityStep::CreateSkStream);
    v.push(IdentityStep::CreateClient);
    v.push(IdentityStep::CreateDestination);
    v.push(IdentityStep::GetSk);
    v.push(IdentityStep::EncodeSk);
    v.push(IdentityStep::ToBase32);
    proof {
        assert(v@ =~= seq![
            IdentityStep::CreateSkStream,
            IdentityStep::CreateClient,
            IdentityStep::CreateDestination,
            IdentityStep::GetSk,
            IdentityStep::EncodeSk,
            IdentityStep::ToBase32,
        ]);
    }
    v
}

/// Tunnel kinds.
///
/// `Http` — local HTTP proxy; `Server` — inbound published service;
/// `Socks` — local SOCKS proxy. Only `Server` requires an identity.
#[derive(Clone, Copy, Debug, PartialEq, Eq, Structural)]
pub enum TunnelType {
    Http,
    Server,
    Socks,
}

impl TunnelType {
    /// The lowercase name of the tunnel kind.
    pub fn value(&self) -> (v: String)
        ensures
            match self {
                TunnelType::Http => v@ == "http"@,
                TunnelType::Server => v@ == "server"@,
                TunnelType::Socks => v@ == "socks"@,
            },
    {
        match self {
            TunnelType::Http => String::from_str("http"),
            TunnelType::Server => String::from_str("server"),
            TunnelType::Socks => String::from_str("socks"),
        }
    }
}

/// A tunnel: the local address it exposes or binds, its kind, and —
/// for server tunnels only — its identity.
#[derive(Debug)]
pub struct Tunnel {
    host: String,
    keypair: Option<KeyPair>,
    port: u16,
    tunnel_type: TunnelType,
}

impl Tunnel {
    /// The local host value.
    pub closed spec fn spec_host(&self) -> Seq<char> {
        self.host@
    }

    /// The local port.
    pub closed spec fn spec_port(&self) -> u16 {
        self.port
    }

    /// The tunnel kind.
    pub closed spec fn spec_kind(&self) -> TunnelType {
        self.tunnel_type
    }

    /// The identity, present exactly for server tunnels.
    pub closed spec fn spec_identity(&self) -> Option<KeyPair> {
        self.keypair
    }

    /// The tunnel invariant: an identity is present exactly for server
    /// tunnels, and any identity present is well-formed.
    pub open spec fn wf(&self) -> bool {
        &&& self.spec_identity() is Some <==> self.spec_kind() is Server
        &&& match self.spec_identity() {
            Some(kp) => kp.wf(),
            None => true,
        }
    }

    /// Creates a tunnel. A server tunnel takes the identity freshly
    /// generated for it; proxy tunnels take none. The host value is
    /// taken as supplied — tokens are joined with single spaces later,
    /// so the caller is responsible for a well-formed host.
    pub fn new(host: String, port: u16, tunnel_type: TunnelType, keypair: Option<KeyPair>) -> (r:
        Result<Tunnel, J4I2PRSError>)
        requires
            tunnel_type is Server <==> keypair is Some,
            keypair matches Some(kp) ==> kp.wf(),
        ensures
            match r {
                Ok(t) => {
                    &&& t.wf()
                    &&& t.spec_host() == host@
                    &&& t.spec_port() == port
                    &&& t.spec_kind() == tunnel_type
                    &&& t.spec_identity() == keypair
                    &&& (t.spec_identity() is Some <==> tunnel_type is Server)
                },
                Err(_) => false,
            },
    {
        Ok(Tunnel { host, keypair, port, tunnel_type })
    }

    /// The base-32 public address of a server tunnel, absent for proxy
    /// tunnels.
    pub fn get_destination(&self) -> (r: Option<String>)
        ensures
            match self.spec_identity() {
                Some(kp) => r matches Some(d) && d@ == kp.spec_b32_dest(),
                None => r is None,
            },
    {
        match &self.keypair {
            Some(kp) => Some(copy_string(&kp.b32_dest)),
            None => None,
        }
    }

    /// The tunnel's local port.
    pub fn get_port(&self) -> (r: u16)
        ensures
            r == self.spec_port(),
    {
        self.port
    }

    /// Assembles the start configuration for this tunnel. A server
    /// tunnel first stages its secret in `area`; proxy tunnels leave
    /// `area` untouched. The engine is handed a complete plan or
    /// nothing: on a well-formed tunnel assembly always succeeds.
    pub fn start(&self, area: &mut StagingArea, cwd: &str) -> (r: Result<StartPlan, J4I2PRSError>)
        requires
            self.wf(),
        ensures
            match self.spec_kind() {
                TunnelType::Http => r matches Ok(p) && http_plan(p, self.spec_port())
                    && *final(area) == *old(area),
                TunnelType::Socks => r matches Ok(p) && socks_plan(p, self.spec_port())
                    && *final(area) == *old(area),
                TunnelType::Server => r matches Ok(p) && server_plan(
                    p,
                    self.spec_host(),
                    self.spec_port(),
                    cwd@,
                ) && staged_in(old(area), final(area), p, self.spec_identity()->Some_0.spec_sk()),
            },
    {
        match self.tunnel_type {
            TunnelType::Http => Ok(self.start_http()),
            TunnelType::Server => self.start_server(area, cwd),
            TunnelType::Socks => Ok(self.start_socks()),
        }
    }

    /// Assembles the HTTP proxy start plan: point the local proxy at
    /// the well-known loopback control endpoint, then start an HTTP
    /// client tunnel bound to the port.
    pub fn start_http(&self) -> (p: StartPlan)
        ensures
            http_plan(p, self.spec_port()),
    {
        let mut args = base_args();
        args.push(String::from_str("config localhost 7654"));
        args.push(String::from_str("-e"));
        let mut cmd = String::from_str("httpclient ");
        push_dec_u16(&mut cmd, self.port);
        args.push(cmd);
        StartPlan { class: EngineClass::I2PTunnel.name(), args, staged: None }
    }

    /// Assembles the SOCKS proxy start plan: a SOCKS tunnel bound to
    /// the port, with no control-endpoint step.
    pub fn start_socks(&self) -> (p: StartPlan)
        ensures
            socks_plan(p, self.spec_port()),
    {
        let mut args = base_args();
        let mut cmd = String::from_str("sockstunnel ");
        push_dec_u16(&mut cmd, self.port);
        args.push(cmd);
        StartPlan { class: EngineClass::I2PTunnel.name(), args, staged: None }
    }

    /// Assembles a server tunnel start plan: stages the identity's
    /// secret under a fresh unique name, then builds the launcher
    /// invocation `server <host> <port> <absolute staged path>` — the
    /// absolute path, because the engine resolves relative paths
    /// against its own working directory. The staged bytes are fully
    /// prepared before the plan is handed out.
    pub fn start_server(&self, area: &mut StagingArea, cwd: &str) -> (r: Result<
        StartPlan,
        J4I2PRSError,
    >)
        requires
            self.wf(),
            self.spec_kind() is Server,
        ensures
            r matches Ok(p) && server_plan(p, self.spec_host(), self.spec_port(), cwd@)
                && staged_in(old(area), final(area), p, self.spec_identity()->Some_0.spec_sk()),
    {
        let kp = match &self.keypair {
            Some(kp) => kp,
            None => unreached(),
        };
        let name = match area.stage(kp.sk.as_str()) {
            Ok(n) => n,
            Err(_) => unreached(),
        };
        let mut path = String::from_str(cwd);
        path.append("/");
        path.append(name.as_str());
        let mut cmd = String::from_str("server ");
        cmd.append(self.host.as_str());
        cmd.append(" ");
        push_dec_u16(&mut cmd, self.port);
        cmd.append(" ");
        cmd.append(path.as_str());
        proof {
            assert(path@ =~= spec_abs_path(cwd@, name@));
            assert(cmd@ =~= spec_server_cmd(self.spec_host(), self.spec_port(), path@));
        }
        let mut args = base_args();
        args.push(cmd);
        Ok(StartPlan { class: EngineClass::I2PTunnel.name(), args, staged: Some(name) })
    }
}

/// A fully assembled engine invocation: the launcher class, its
/// arguments in exact order, and — for server tunnels — the name of
/// the staged secret the configuration points at.
pub struct StartPlan {
    /// The engine class to construct: the tunnel launcher.
    pub class: String,
    /// The launcher's arguments: non-interactive, terminate with the
    /// parent, then the per-kind commands.
    pub args: Vec<String>,
    /// The staged secret's file name, for server tunnels.
    pub staged: Option<String>,
}

/// The control-endpoint command an HTTP proxy tunnel runs first.
pub open spec fn spec_config_cmd() -> Seq<char> {
    "config localhost 7654"@
}

/// The command starting an HTTP client tunnel on a port.
pub open spec fn spec_http_cmd(port: u16) -> Seq<char> {
    "httpclient "@ + spec_dec(port as int)
}

/// The command starting a SOCKS tunnel on a port.
pub open spec fn spec_socks_cmd(port: u16) -> Seq<char> {
    "sockstunnel "@ + spec_dec(port as int)
}

/// The absolute staged-secret path: the working directory joined with
/// the staged file name.
pub open spec fn spec_abs_path(cwd: Seq<char>, name: Seq<char>) -> Seq<char> {
    cwd + "/"@ + name
}

/// The command publishing a server tunnel: host, port and the absolute
/// staged path, joined with single spaces in this fixed order.
pub open spec fn spec_server_cmd(host: Seq<char>, port: u16, path: Seq<char>) -> Seq<char> {
    "server "@ + host + " "@ + spec_dec(port as int) + " "@ + path
}

/// The three leading launcher arguments shared by every tunnel kind:
/// non-interactive, terminate with the parent, execute a command.
pub open spec fn base_plan_args(args: Seq<String>) -> bool {
    &&& args.len() >= 3
    &&& args[0]@ == "-die"@
    &&& args[1]@ == "-nocli"@
    &&& args[2]@ == "-e"@
}

/// The exact HTTP proxy start plan for a port.
pub open spec fn http_plan(p: StartPlan, port: u16) -> bool {
    &&& p.class@ == "net.i2p.i2ptunnel.I2PTunnel"@
    &&& p.staged is None
    &&& p.args@.len() == 6
    &&& base_plan_args(p.args@)
    &&& p.args@[3]@ == spec_config_cmd()
    &&& p.args@[4]@ == "-e"@
    &&& p.args@[5]@ == spec_http_cmd(port)
}

/// The exact SOCKS proxy start plan for a port.
pub open spec fn socks_plan(p: StartPlan, port: u16) -> bool {
    &&& p.class@ == "net.i2p.i2ptunnel.I2PTunnel"@
    &&& p.staged is None
    &&& p.args@.len() == 4
    &&& base_plan_args(p.args@)
    &&& p.args@[3]@ == spec_socks_cmd(port)
}

/// The exact server start plan: its one command names the host, the
/// port and the absolute path of the staged secret the plan carries.
pub open spec fn server_plan(p: StartPlan, host: Seq<char>, port: u16, cwd: Seq<char>) -> bool {
    &&& p.class@ == "net.i2p.i2ptunnel.I2PTunnel"@
    &&& p.staged matches Some(nm) && (exists|t: Seq<char>|
        is_token(t) && nm@ == spec_staged_name(t))
    &&& p.args@.len() == 4
    &&& base_plan_args(p.args@)
    &&& p.args@[3]@ == spec_server_cmd(host, port, spec_abs_path(cwd, p.staged->Some_0@))
}

/// The staging effect of a server start: exactly one new entry, named
/// as the plan says, holding the fully decoded secret; everything
/// previously staged is untouched.
pub open spec fn staged_in(
    before: &StagingArea,
    after: &StagingArea,
    p: StartPlan,
    sk: Seq<char>,
) -> bool {
    &&& valid_b64(sk)
    &&& after.files@.len() == before.files@.len() + 1
    &&& after.files@.take(before.files@.len() as int) == before.files@
    &&& after.files@.last().name@ == p.staged->Some_0@
    &&& after.files@.last().bytes@ == spec_decode(sk)->Some_0
    &&& after.has_name(p.staged->Some_0@)
}

/// The three leading launcher arguments.
fn base_args() -> (v: Vec<String>)
    ensures
        v@.len() == 3,
        base_plan_args(v@),
{
    let mut v: Vec<String> = Vec::new();
    v.push(String::from_str("-die"));
    v.push(String::from_str("-nocli"));
    v.push(String::from_str("-e"));
    v
}

} // verus!
