//! The retry rule for bringing the software store forward to show pending
//! updates: ask it over the bus; on the first failure restart it and ask
//! once more; on the second failure launch it directly and stop trying.
//! The bus calls and process handling are the caller's job.

use vstd::prelude::*;

verus! {

/// How long to wait after restarting the store before asking again, in
/// seconds.
pub const STORE_RESTART_WAIT_SECS: u64 = 3;

/// Where the show-updates flow stands.
#[derive(Clone, Copy, Debug, PartialEq, Eq, Structural)]
pub enum AppcenterState {
    /// A show-updates request is to be made; `restarted` records whether
    /// the store was already restarted once.
    TryShow { restarted: bool },
    /// The flow ended.
    Done,
}

/// What the caller must do next.
#[derive(Clone, Copy, Debug, PartialEq, Eq, Structural)]
pub enum AppcenterAction {
    /// Ask the store over the bus to show its updates view.
    ShowViaBus,
    /// Kill and relaunch the store silently, then wait this many seconds.
    RestartService { wait_secs: u64 },
    /// Launch the store directly with its show-updates flag.
    SpawnDirect,
}

/// Start the flow: ask over the bus first.
pub fn appcenter_begin() -> (r: (AppcenterState, AppcenterAction))
    ensures
        r.0 == (AppcenterState::TryShow { restarted: false }),
        r.1 == AppcenterAction::ShowViaBus,
{
    (AppcenterState::TryShow { restarted: false }, AppcenterAction::ShowViaBus)
}

/// Feed in the outcome of the bus request: success ends the flow; the
/// first failure restarts the store and asks again; the second gives up on
/// the bus and launches the store directly.
pub fn appcenter_on_result(s: AppcenterState, ok: bool) -> (r: (
    AppcenterState,
    Vec<AppcenterAction>,
))
    requires
        s matches AppcenterState::TryShow { .. },
    ensures
        ok ==> r.0 == AppcenterState::Done && r.1@ =~= Seq::<AppcenterAction>::empty(),
        !ok && s == (AppcenterState::TryShow { restarted: false }) ==> r.0 == (
        AppcenterState::TryShow { restarted: true }) && r.1@ =~= seq![
            AppcenterAction::RestartService { wait_secs: STORE_RESTART_WAIT_SECS },
            AppcenterAction::ShowViaBus,
        ],
        !ok && s == (AppcenterState::TryShow { restarted: true }) ==> r.0 == AppcenterState::Done
            && r.1@ =~= seq![AppcenterAction::SpawnDirect],
{
    let mut actions: Vec<AppcenterAction> = Vec::new();
    if ok {
        return (AppcenterState::Done, actions);
    }
    match s {
        AppcenterState::TryShow { restarted: false } => {
            actions.push(AppcenterAction::RestartService { wait_secs: STORE_RESTART_WAIT_SECS });
            actions.push(AppcenterAction::ShowViaBus);
            (AppcenterState::TryShow { restarted: true }, actions)
        },
        _ => {
            actions.push(AppcenterAction::SpawnDirect);
            (AppcenterState::Done, actions)
        },
    }
}

} // verus!
