use vstd::prelude::*;

use crate::error::AppError;

verus! {

/// The MyWallpaper application registered with Discord.
pub const DISCORD_APP_ID: &'static str = "1307092087033782272";

/// Seconds between two attempts to reach a Discord client that is not running yet.
pub const RETRY_INTERVAL_SECS: u64 = 30;

/// The Rich Presence activity shown in Discord.
pub struct PresenceActivity {
    pub details: String,
    pub state: String,
    /// The asset key of the large image.
    pub large_image: String,
    /// The tooltip of the large image.
    pub large_text: String,
}

/// The life cycle of the Rich Presence connection: whether the retry loop should keep
/// running, and whether a client is connected.
pub struct PresenceState {
    pub running: bool,
    pub connected: bool,
}

/// What the retry loop does after waking up.
pub enum RetryAction {
    /// Leave the loop: presence was shut down, or a client is already connected.
    Stop,
    /// Try to connect to Discord now.
    TryConnect,
}

/// The activity showing `details` and `state` under the MyWallpaper logo.
pub fn build_activity(details: &str, state: &str) -> (a: PresenceActivity)
    ensures
        a.details@ == details@,
        a.state@ == state@,
        a.large_image@ == "logo"@,
        a.large_text@ == "MyWallpaper Desktop"@,
{
    PresenceActivity {
        details: String::from_str(details),
        state: String::from_str(state),
        large_image: String::from_str("logo"),
        large_text: String::from_str("MyWallpaper Desktop"),
    }
}

impl PresenceState {
    /// Presence before `init`: not running, not connected.
    pub fn new() -> (s: Self)
        ensures
            !s.running,
            !s.connected,
    {
        PresenceState { running: false, connected: false }
    }
}

/// Starts the presence life cycle: the retry loop may run.
pub fn init(state: &mut PresenceState)
    ensures
        final(state).running,
        final(state).connected == old(state).connected,
{
    state.running = true;
}

/// Records the outcome of a connection attempt.
pub fn record_connection(state: &mut PresenceState, connected: bool)
    ensures
        final(state).running == old(state).running,
        final(state).connected == (old(state).connected || connected),
{
    state.connected = state.connected || connected;
}

/// The retry loop stops in state `s`: presence was shut down or a client is connected.
pub open spec fn retry_stops(s: PresenceState) -> bool {
    !s.running || s.connected
}

/// The state after a shutdown: nothing runs and nothing is connected.
pub open spec fn shut_down(s: PresenceState) -> PresenceState {
    PresenceState { running: false, connected: false }
}

/// What the retry loop does after waking up in state `state`.
pub fn next_retry_action(state: &PresenceState) -> (a: RetryAction)
    ensures
        a is Stop <==> retry_stops(*state),
{
    if !state.running || state.connected {
        RetryAction::Stop
    } else {
        RetryAction::TryConnect
    }
}

/// Stops the retry loop and drops the connection. Returns whether a connected client has
/// to be closed.
pub fn shutdown(state: &mut PresenceState) -> (close_client: bool)
    ensures
        *final(state) == shut_down(*old(state)),
        close_client == old(state).connected,
{
    let close_client = state.connected;
    state.running = false;
    state.connected = false;
    close_client
}

/// The outcome of updating the activity: without a connected client there is nothing to
/// update; a refusal by the client is reported with its message.
pub fn presence_update_result(sent: Option<Result<(), String>>) -> (r: Result<(), AppError>)
    ensures
        match sent {
            None => r is Ok,
            Some(Ok(())) => r is Ok,
            Some(Err(m)) => r matches Err(AppError::Discord(e)) && e == m,
        },
{
    match sent {
        None => Ok(()),
        Some(Ok(())) => Ok(()),
        Some(Err(m)) => Err(AppError::Discord(m)),
    }
}

// ---------------------------------------------------------------------------
// Laws of the presence life cycle
// ---------------------------------------------------------------------------

/// After `shutdown` the retry loop stops at its next wake-up, whatever the state was.
pub proof fn law_shutdown_stops_retry(s: PresenceState)
    ensures
        retry_stops(shut_down(s)),
{
}

/// Shutting down twice is the same as shutting down once, and the second shutdown has
/// no client to close.
pub proof fn law_shutdown_idempotent(s: PresenceState)
    ensures
        shut_down(shut_down(s)) == shut_down(s),
        !shut_down(s).connected,
{
}

} // verus!
