use vstd::prelude::*;
use crate::errors::SupervisorError;
use crate::paths::ConnectionString;

verus! {

/// An opaque, exclusively-owned reference to the running backend
/// process. Created by a successful spawn; consumed (moved out of the
/// state slot) the instant termination is requested — no further
/// operation is valid on a consumed handle.
#[derive(PartialEq, Eq, Structural, Debug)]
pub struct ProcessHandle {
    /// The identity under which the process can be queried or signalled.
    pub pid: u32,
}

/// What a `stop` call asks its caller to do next.
#[derive(PartialEq, Eq, Structural, Debug)]
pub enum StopAction {
    /// A handle was held: request termination of exactly this process.
    Terminate(ProcessHandle),
    /// No handle was held — never started, or already stopped. A no-op,
    /// not an error: callers may stop unconditionally on shutdown.
    AlreadyStopped,
}

/// The single mutable slot owning the backend's handle. At most one
/// handle exists at any time; the slot is empty both before the first
/// start and after a stop completes. The application host keeps the
/// one value of this type under its mutual-exclusion lock.
pub struct SupervisorState {
    /// The handle of the running backend, if one was started.
    pub handle: Option<ProcessHandle>,
}

/// State and answer after recording a spawn outcome: a successful
/// spawn stores the new handle; a failed spawn reports `Spawn` and
/// leaves the state exactly as it was.
pub open spec fn spawn_transition(s: SupervisorState, outcome: Option<ProcessHandle>) -> (
    SupervisorState,
    Result<(), SupervisorError>,
) {
    match outcome {
        Option::Some(h) => (SupervisorState { handle: Option::Some(h) }, Ok(())),
        Option::None => (s, Err(SupervisorError::Spawn)),
    }
}

/// State and action after a stop: the slot is empty afterwards, and
/// the held handle — if any — is the one to terminate.
pub open spec fn stop_transition(s: SupervisorState) -> (SupervisorState, StopAction) {
    (
        SupervisorState { handle: Option::None },
        match s.handle {
            Option::Some(h) => StopAction::Terminate(h),
            Option::None => StopAction::AlreadyStopped,
        },
    )
}

impl SupervisorState {
    /// Whether no handle is held.
    pub open spec fn is_empty(&self) -> bool {
        self.handle is None
    }

    /// A supervisor holding no handle: the state before the first start.
    pub fn new() -> (s: SupervisorState)
        ensures
            s.is_empty(),
    {
        SupervisorState { handle: Option::None }
    }

    /// Whether a handle is currently held.
    pub fn holds_handle(&self) -> (b: bool)
        ensures
            b == !self.is_empty(),
    {
        self.handle.is_some()
    }

    /// Record the platform's answer to the spawn request. A successful
    /// spawn stores the handle; a failed one is `Spawn` and leaves the
    /// state untouched, so the host can continue in degraded mode.
    pub fn record_spawn(&mut self, outcome: Option<ProcessHandle>) -> (r: Result<
        (),
        SupervisorError,
    >)
        ensures
            (*final(self), r) == spawn_transition(*old(self), outcome),
    {
        match outcome {
            Option::Some(h) => {
                self.handle = Option::Some(h);
                Ok(())
            },
            Option::None => Err(SupervisorError::Spawn),
        }
    }

    /// Empty the slot and say what to do with its content. Stopping
    /// with no handle held is a no-op that still succeeds: callers may
    /// call this unconditionally on shutdown.
    pub fn stop(&mut self) -> (a: StopAction)
        ensures
            (*final(self), a) == stop_transition(*old(self)),
    {
        match self.handle.take() {
            Option::Some(h) => StopAction::Terminate(h),
            Option::None => StopAction::AlreadyStopped,
        }
    }
}

/// Classify the platform's answer to a termination request: a running
/// process that could not be signalled is `Termination`. The caller
/// logs it and does not escalate — the outcome that matters is that
/// the process is no longer running.
pub fn termination_outcome(signalled: bool) -> (r: Result<(), SupervisorError>)
    ensures
        r == (if signalled {
            Ok::<(), SupervisorError>(())
        } else {
            Err::<(), SupervisorError>(SupervisorError::Termination)
        }),
{
    if signalled {
        Ok(())
    } else {
        Err(SupervisorError::Termination)
    }
}

/// A start request: the registry name of the bundled backend binary —
/// a name resolved against the bundled-binary registry, never an
/// arbitrary filesystem path — and the environment entries merged over
/// the inherited environment at launch.
pub struct SpawnRequest {
    /// Registry name of the executable to launch.
    pub program: String,
    /// Environment overrides, as name–value pairs with distinct names.
    pub env: Vec<(String, String)>,
}

/// Build the start request for the backend: the bundled binary's name
/// and the exact environment it depends on — its database connection
/// string, its listening port, and the shared secret for its own
/// internal authentication (a development default; not for production).
pub fn plan_start(conn: &ConnectionString) -> (req: SpawnRequest)
    ensures
        req.program@ == "desktop-backend"@,
        req.env@.len() == 3,
        req.env@[0].0@ == "DATABASE_URL"@ && req.env@[0].1@ == conn@,
        req.env@[1].0@ == "PORT"@ && req.env@[1].1@ == "3002"@,
        req.env@[2].0@ == "JWT_SECRET"@ && req.env@[2].1@
            == "desktop-app-secret-key-change-in-production"@,
        req.env@[0].0@ != req.env@[1].0@,
        req.env@[0].0@ != req.env@[2].0@,
        req.env@[1].0@ != req.env@[2].0@,
{
    proof {
        reveal_strlit("DATABASE_URL");
        reveal_strlit("PORT");
        reveal_strlit("JWT_SECRET");
        assert("DATABASE_URL"@.len() == 12);
        assert("PORT"@.len() == 4);
        assert("JWT_SECRET"@.len() == 10);
    }
    let mut env: Vec<(String, String)> = Vec::new();
    env.push((String::from_str("DATABASE_URL"), String::from_str(conn.as_str())));
    env.push((String::from_str("PORT"), String::from_str("3002")));
    env.push(
        (
            String::from_str("JWT_SECRET"),
            String::from_str("desktop-app-secret-key-change-in-production"),
        ),
    );
    SpawnRequest { program: String::from_str("desktop-backend"), env }
}

/// Stopping when no handle is held — before any start ever happened,
/// or after a stop already emptied the slot — changes nothing and
/// requests no termination, and is success, not an error.
pub proof fn lemma_stop_when_empty_is_noop(s: SupervisorState)
    requires
        s.is_empty(),
    ensures
        stop_transition(s).0 == s,
        stop_transition(s).1 == StopAction::AlreadyStopped,
{
}

/// Stopping twice in a row: whatever the first stop found, the second
/// finds the slot already empty, changes nothing, and requests no
/// termination.
pub proof fn lemma_stop_twice_is_noop(s: SupervisorState)
    ensures
        stop_transition(stop_transition(s).0).0 == stop_transition(s).0,
        stop_transition(stop_transition(s).0).1 == StopAction::AlreadyStopped,
{
}

/// After a successful start the supervisor holds exactly the returned
/// handle; the matching stop empties the slot and requests termination
/// of exactly that handle.
pub proof fn lemma_start_then_stop(s: SupervisorState, h: ProcessHandle)
    ensures
        spawn_transition(s, Option::Some(h)).0.handle == Option::Some(h),
        spawn_transition(s, Option::Some(h)).1 == Ok::<(), SupervisorError>(()),
        stop_transition(spawn_transition(s, Option::Some(h)).0).0.is_empty(),
        stop_transition(spawn_transition(s, Option::Some(h)).0).1 == StopAction::Terminate(h),
{
}

/// A failed start reports `Spawn` and leaves the supervisor exactly as
/// it was: started from empty it stays empty, and the stop that
/// follows attempts no termination.
pub proof fn lemma_failed_start_leaves_state(s: SupervisorState)
    ensures
        spawn_transition(s, Option::None).0 == s,
        spawn_transition(s, Option::None).1 == Err::<(), SupervisorError>(SupervisorError::Spawn),
        s.is_empty() ==> stop_transition(spawn_transition(s, Option::None).0).1
            == StopAction::AlreadyStopped,
{
}

} // verus!
