//! Permission requests: which platforms need a probe by a system utility,
//! and the answer for each outcome of that probe.
use vstd::prelude::*;

verus! {

/// What became of the permission probe.
#[derive(Debug, PartialEq, Eq)]
pub enum ProbeOutcome {
    /// The platform needs no probe: nothing was run.
    NotRequired,
    /// The system utility could not be started, with the reason.
    SpawnFailed(String),
    /// The utility ran; whether it exited successfully.
    Exited(bool),
}

/// Only macOS asks for these permissions.
pub open spec fn needs_probe(platform: Seq<char>) -> bool {
    platform == "macos"@
}

/// Whether `r` answers a permission request whose probe had `probe` as its
/// outcome, with `spawn_prefix` before a start failure's reason and `refusal`
/// as the text for an unsuccessful exit.
pub open spec fn permission_reply(
    probe: ProbeOutcome,
    r: Result<bool, String>,
    spawn_prefix: Seq<char>,
    refusal: Seq<char>,
) -> bool {
    match probe {
        ProbeOutcome::NotRequired => r == Ok::<bool, String>(true),
        ProbeOutcome::Exited(ok) => if ok {
            r == Ok::<bool, String>(true)
        } else {
            r is Err && r->Err_0@ == refusal
        },
        ProbeOutcome::SpawnFailed(e) => r is Err && r->Err_0@ == spawn_prefix + e@,
    }
}

/// The answer to a screen recording permission request.
pub open spec fn recording_reply(probe: ProbeOutcome, r: Result<bool, String>) -> bool {
    permission_reply(probe, r, "Failed to check permission: "@, "Failed to check screen recording permission"@)
}

/// The answer to an accessibility permission request.
pub open spec fn accessibility_reply(probe: ProbeOutcome, r: Result<bool, String>) -> bool {
    permission_reply(
        probe,
        r,
        "Failed to open accessibility settings: "@,
        "Failed to open accessibility settings"@,
    )
}

/// Whether a permission request on `platform` runs a system utility.
pub fn probe_required(platform: &String) -> (r: bool)
    ensures
        r == needs_probe(platform@),
{
    *platform == String::from_str("macos")
}

fn reply(probe: ProbeOutcome, spawn_prefix: &str, refusal: &str) -> (r: Result<bool, String>)
    ensures
        permission_reply(probe, r, spawn_prefix@, refusal@),
{
    match probe {
        ProbeOutcome::NotRequired => Ok(true),
        ProbeOutcome::Exited(ok) => if ok {
            Ok(true)
        } else {
            Err(String::from_str(refusal))
        },
        ProbeOutcome::SpawnFailed(e) => Err(String::from_str(spawn_prefix).concat(e.as_str())),
    }
}

/// The answer to a screen recording permission request, from its probe.
pub fn request_screen_recording_permission(probe: ProbeOutcome) -> (r: Result<bool, String>)
    ensures
        recording_reply(probe, r),
{
    reply(probe, "Failed to check permission: ", "Failed to check screen recording permission")
}

/// The answer to an accessibility permission request, from its probe.
pub fn request_accessibility_permission(probe: ProbeOutcome) -> (r: Result<bool, String>)
    ensures
        accessibility_reply(probe, r),
{
    reply(probe, "Failed to open accessibility settings: ", "Failed to open accessibility settings")
}

/// Off macOS no utility is run, and both requests answer that the
/// permission is granted.
pub proof fn lemma_granted_off_macos(
    platform: Seq<char>,
    recording: Result<bool, String>,
    accessibility: Result<bool, String>,
)
    requires
        platform != "macos"@,
        recording_reply(ProbeOutcome::NotRequired, recording),
        accessibility_reply(ProbeOutcome::NotRequired, accessibility),
    ensures
        !needs_probe(platform),
        recording == Ok::<bool, String>(true),
        accessibility == Ok::<bool, String>(true),
{
}

} // verus!
