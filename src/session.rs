//! The process-wide initialization flag and the availability status.
use vstd::prelude::*;

verus! {

/// State shared by all commands: whether initialization was requested.
#[derive(Debug, PartialEq, Eq)]
pub struct AppState {
    pub initialized: bool,
}

/// The state after an initialization request.
pub open spec fn after_init(s: AppState) -> AppState {
    AppState { initialized: true }
}

/// The fixed availability text.
pub open spec fn status_text() -> Seq<char> {
    "Desktop environment is available"@
}

/// The fixed reply to an initialization request.
pub open spec fn init_text() -> Seq<char> {
    "Desktop environment initialized"@
}

impl AppState {
    /// A fresh state: not initialized.
    pub fn new() -> (r: AppState)
        ensures
            !r.initialized,
    {
        AppState { initialized: false }
    }
}

/// Reports that the desktop environment is available; it never fails.
pub fn desktop_env_status() -> (r: Result<String, String>)
    ensures
        r is Ok && r->Ok_0@ == status_text(),
{
    Ok(String::from_str("Desktop environment is available"))
}

/// Marks the state initialized; it never fails.
pub fn desktop_env_init(state: &mut AppState) -> (r: Result<String, String>)
    ensures
        *final(state) == after_init(*old(state)),
        r is Ok && r->Ok_0@ == init_text(),
{
    state.initialized = true;
    Ok(String::from_str("Desktop environment initialized"))
}

/// A second initialization request changes nothing, and the flag stays set.
pub proof fn lemma_init_idempotent(s: AppState)
    ensures
        after_init(after_init(s)) == after_init(s),
        after_init(after_init(s)).initialized,
{
}

} // verus!
