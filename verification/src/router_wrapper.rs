//! Lifecycle of one external router engine instance.
//!
//! A `Wrapper` owns exactly one engine router instance: the connection
//! is created once and reused by every operation, never reconstructed
//! per call. The controller's decisions form a small state machine —
//! `Created`, `Running`, `Terminated` — while the engine performs the
//! actual work; each call takes the engine's verdict as an argument and
//! surfaces failures untouched, with no retry.
//!
//! Running the router blocks inside the engine, so the caller should
//! dedicate a thread to it; probes are read-only and may be polled from
//! anywhere, but a shutdown must not race a run on the same handle —
//! the exclusive borrow on mutating operations serializes them.

use vstd::prelude::*;

use crate::error::{EngineError, J4I2PRSError};

verus! {

/// The router operations the controller may invoke.
#[derive(Clone, Copy, Debug, PartialEq, Eq, Structural)]
pub enum RouterMethod {
    /// Start the router; blocks until the engine finishes initializing.
    RunRouter,
    /// Liveness probe; read-only.
    IsAlive,
    /// Request graceful termination.
    ShutdownGracefully,
}

impl RouterMethod {
    /// The engine-side method name.
    pub fn name(&self) -> (r: String)
        ensures
            match self {
                RouterMethod::RunRouter => r@ == "runRouter"@,
                RouterMethod::IsAlive => r@ == "isAlive"@,
                RouterMethod::ShutdownGracefully => r@ == "shutdownGracefully"@,
            },
    {
        match self {
            RouterMethod::RunRouter => String::from_str("runRouter"),
            RouterMethod::IsAlive => String::from_str("isAlive"),
            RouterMethod::ShutdownGracefully => String::from_str("shutdownGracefully"),
        }
    }
}

/// Lifecycle states a router handle drives its engine instance through.
#[derive(Clone, Copy, Debug, PartialEq, Eq, Structural)]
pub enum RouterState {
    /// Instance constructed, not yet run.
    Created,
    /// Run has been invoked.
    Running,
    /// Shutdown has been invoked.
    Terminated,
}

/// The state a handle reaches when `method` is invoked in state `s`
/// and the engine answers with success (`engine_ok`). A failed
/// invocation leaves the state unchanged; probes never change it.
pub open spec fn next_state(s: RouterState, method: RouterMethod, engine_ok: bool) -> RouterState {
    if !engine_ok {
        s
    } else {
        match method {
            RouterMethod::RunRouter => RouterState::Running,
            RouterMethod::IsAlive => s,
            RouterMethod::ShutdownGracefully => RouterState::Terminated,
        }
    }
}

/// Handle for one external router engine instance.
#[derive(Debug)]
pub struct Wrapper {
    /// The lifecycle state the controller has driven the engine to.
    pub state: RouterState,
}

impl Wrapper {
    /// Wraps a router instance the caller asked the engine to
    /// construct; `engine_constructed` reports whether that
    /// construction succeeded. Fails with `ConstructionFailed` exactly
    /// when it did not, and then owns nothing.
    pub fn create_router(engine_constructed: bool) -> (r: Result<Wrapper, J4I2PRSError>)
        ensures
            match r {
                Ok(w) => engine_constructed && w.state is Created,
                Err(e) => !engine_constructed && e == J4I2PRSError::Engine(
                    EngineError::ConstructionFailed,
                ),
            },
    {
        if engine_constructed {
            Ok(Wrapper { state: RouterState::Created })
        } else {
            Err(J4I2PRSError::Engine(EngineError::ConstructionFailed))
        }
    }

    /// Invokes one router method on the wrapped instance; the engine's
    /// verdict is handed back as `engine_ok`. Succeeds exactly when the
    /// engine did; an engine error is surfaced untouched — never
    /// suppressed, never retried — and leaves the state unchanged.
    pub fn invoke_router(&mut self, method: RouterMethod, engine_ok: bool) -> (r: Result<
        (),
        J4I2PRSError,
    >)
        ensures
            final(self).state == next_state(old(self).state, method, engine_ok),
            r is Ok <==> engine_ok,
            !engine_ok ==> r == Err::<(), J4I2PRSError>(
                J4I2PRSError::Engine(EngineError::InvocationFailed),
            ),
    {
        if engine_ok {
            match method {
                RouterMethod::RunRouter => {
                    self.state = RouterState::Running;
                },
                RouterMethod::IsAlive => {},
                RouterMethod::ShutdownGracefully => {
                    self.state = RouterState::Terminated;
                },
            }
            Ok(())
        } else {
            Err(J4I2PRSError::Engine(EngineError::InvocationFailed))
        }
    }

    /// Read-only pre-check that the router is running before tunnel
    /// operations begin; surfaces the engine's answer untouched and
    /// never changes the handle's state.
    pub fn is_running(&self, engine_answer: Option<bool>) -> (r: Result<bool, J4I2PRSError>)
        ensures
            match engine_answer {
                Some(b) => r == Ok::<bool, J4I2PRSError>(b),
                None => r == Err::<bool, J4I2PRSError>(
                    J4I2PRSError::Engine(EngineError::InvocationFailed),
                ),
            },
    {
        match engine_answer {
            Some(b) => Ok(b),
            None => Err(J4I2PRSError::Engine(EngineError::InvocationFailed)),
        }
    }
}

/// Shutting down twice is harmless: starting from any state, two
/// shutdown invocations leave the handle `Terminated` as soon as either
/// one succeeds, and each call's outcome is fixed by the engine's
/// answer alone — the second call can neither panic nor corrupt the
/// state.
pub proof fn lemma_shutdown_twice(s: RouterState, e1: bool, e2: bool)
    ensures
        next_state(
            next_state(s, RouterMethod::ShutdownGracefully, e1),
            RouterMethod::ShutdownGracefully,
            e2,
        ) == (if e1 || e2 {
            RouterState::Terminated
        } else {
            s
        }),
{
}

} // verus!
