//! The fixed user-facing texts of the supervisor: the health endpoint,
//! failure messages and dialog titles.

use vstd::prelude::*;

verus! {

/// The health endpoint polled by the readiness prober; any 2xx answer
/// counts as success.
pub const BACKEND_HEALTH_URL: &'static str = "http://127.0.0.1:8080/healthz";

/// The message surfaced when the OS refused to start the sidecar, built
/// around the OS's own error text.
pub fn spawn_error_message(err: &str) -> (m: String)
    ensures
        m@ == "Failed to spawn dmx-backend: "@ + err@,
{
    String::from_str("Failed to spawn dmx-backend: ").concat(err)
}

/// The message surfaced when the sidecar executable cannot be located.
pub fn sidecar_missing_message() -> (m: String)
    ensures
        m@ == "dmx-backend sidecar not found. Build it via scripts\\build-server-exe.bat"@,
{
    String::from_str("dmx-backend sidecar not found. Build it via scripts\\build-server-exe.bat")
}

/// The message surfaced when the attempt budget ran out without the
/// health endpoint ever answering with success.
pub fn readiness_timeout_message() -> (m: String)
    ensures
        m@ == "Backend did not respond on "@ + BACKEND_HEALTH_URL@
            + ".\nCheck dmx-backend logs or restart the desktop app."@,
{
    String::from_str("Backend did not respond on ").concat(BACKEND_HEALTH_URL).concat(
        ".\nCheck dmx-backend logs or restart the desktop app.",
    )
}

/// The title of the one-time notification shown when the backend turns
/// ready.
pub fn ready_notification_title() -> (t: &'static str)
    ensures
        t@ == "Desktop backend připraven"@,
{
    "Desktop backend připraven"
}

/// The body of the one-time readiness notification.
pub fn ready_notification_body() -> (b: &'static str)
    ensures
        b@ == "Backend běží a je připraven."@,
{
    "Backend běží a je připraven."
}

/// The title of the notification shown when spawning fails or the
/// readiness budget runs out; the failure message itself is the body.
pub fn failure_notification_title() -> (t: &'static str)
    ensures
        t@ == "Desktop backend selhal"@,
{
    "Desktop backend selhal"
}

/// The title of the blocking dialog shown on a spawn failure.
pub fn spawn_error_dialog_title() -> (t: &'static str)
    ensures
        t@ == "Failed to start backend"@,
{
    "Failed to start backend"
}

/// The title of the blocking dialog shown on a readiness timeout.
pub fn timeout_dialog_title() -> (t: &'static str)
    ensures
        t@ == "Backend startup failed"@,
{
    "Backend startup failed"
}

} // verus!
