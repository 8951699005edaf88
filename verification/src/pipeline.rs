//! The update pipeline's primary-ecosystem flow: run the update, and on
//! failure alternate repair and retry, giving up after a bounded number of
//! repair attempts with a single error report. The pipeline runner performs
//! the package-manager commands and feeds their outcomes back in.

use vstd::prelude::*;

verus! {

/// How many repair attempts the flow makes before giving up.
pub const MAX_REPAIR_ATTEMPTS: u8 = 3;

/// What the pipeline runner must do next.
#[derive(Clone, Copy, Debug, PartialEq, Eq, Structural)]
pub enum PipelineAction {
    /// Run the primary ecosystem's update.
    RunUpdate,
    /// Run the primary ecosystem's repair routine.
    RunRepair,
    /// Emit one adapter-error signal: the flow gave up.
    ReportError,
}

/// Where the primary-ecosystem flow stands. `repairs` counts the repair
/// attempts made so far.
#[derive(Clone, Copy, Debug, PartialEq, Eq, Structural)]
pub enum FlowState {
    /// An update run is in flight.
    Updating { repairs: u8 },
    /// A repair run is in flight.
    Repairing { repairs: u8 },
    /// The flow ended, successfully or not.
    Done { success: bool },
}

/// The state invariant: repair attempts never exceed the cap, and a repair
/// is only in flight while an attempt is left.
pub open spec fn flow_wf(s: FlowState) -> bool {
    match s {
        FlowState::Updating { repairs } => repairs <= MAX_REPAIR_ATTEMPTS,
        FlowState::Repairing { repairs } => repairs < MAX_REPAIR_ATTEMPTS,
        FlowState::Done { .. } => true,
    }
}

/// One transition of the flow on the outcome of the command in flight:
/// a successful update ends the flow; a failed update asks for a repair,
/// or gives up with one error report once the attempts are spent; a
/// successful repair retries the update; a failed repair counts the
/// attempt and asks for the next one, or gives up the same way.
pub open spec fn spec_flow_step(s: FlowState, ok: bool) -> (FlowState, Option<PipelineAction>) {
    match s {
        FlowState::Updating { repairs } => {
            if ok {
                (FlowState::Done { success: true }, None)
            } else if repairs < MAX_REPAIR_ATTEMPTS {
                (FlowState::Repairing { repairs }, Some(PipelineAction::RunRepair))
            } else {
                (FlowState::Done { success: false }, Some(PipelineAction::ReportError))
            }
        },
        FlowState::Repairing { repairs } => {
            if ok {
                (FlowState::Updating { repairs: (repairs + 1) as u8 }, Some(
                    PipelineAction::RunUpdate,
                ))
            } else if repairs + 1 < MAX_REPAIR_ATTEMPTS {
                (FlowState::Repairing { repairs: (repairs + 1) as u8 }, Some(
                    PipelineAction::RunRepair,
                ))
            } else {
                (FlowState::Done { success: false }, Some(PipelineAction::ReportError))
            }
        },
        FlowState::Done { .. } => (s, None),
    }
}

/// Start the flow: no repairs yet, run the update.
pub fn flow_begin() -> (r: (FlowState, PipelineAction))
    ensures
        r.0 == (FlowState::Updating { repairs: 0 }),
        flow_wf(r.0),
        r.1 == PipelineAction::RunUpdate,
{
    (FlowState::Updating { repairs: 0 }, PipelineAction::RunUpdate)
}

/// Feed the outcome of the command in flight into the flow.
pub fn flow_step(s: FlowState, ok: bool) -> (r: (FlowState, Option<PipelineAction>))
    requires
        flow_wf(s),
    ensures
        r == spec_flow_step(s, ok),
        flow_wf(r.0),
{
    match s {
        FlowState::Updating { repairs } => {
            if ok {
                (FlowState::Done { success: true }, None)
            } else if repairs < MAX_REPAIR_ATTEMPTS {
                (FlowState::Repairing { repairs }, Some(PipelineAction::RunRepair))
            } else {
                (FlowState::Done { success: false }, Some(PipelineAction::ReportError))
            }
        },
        FlowState::Repairing { repairs } => {
            if ok {
                (FlowState::Updating { repairs: repairs + 1 }, Some(PipelineAction::RunUpdate))
            } else if repairs + 1 < MAX_REPAIR_ATTEMPTS {
                (FlowState::Repairing { repairs: repairs + 1 }, Some(PipelineAction::RunRepair))
            } else {
                (FlowState::Done { success: false }, Some(PipelineAction::ReportError))
            }
        },
        FlowState::Done { success } => (FlowState::Done { success }, None),
    }
}

/// The flow state after feeding in a whole sequence of outcomes.
pub open spec fn flow_run(s: FlowState, outcomes: Seq<bool>) -> FlowState
    decreases outcomes.len(),
{
    if outcomes.len() == 0 {
        s
    } else {
        flow_run(spec_flow_step(s, outcomes.first()).0, outcomes.drop_first())
    }
}

/// How many error reports a run of the flow emits.
pub open spec fn flow_errors(s: FlowState, outcomes: Seq<bool>) -> int
    decreases outcomes.len(),
{
    if outcomes.len() == 0 {
        0
    } else {
        (if spec_flow_step(s, outcomes.first()).1 == Some(PipelineAction::ReportError) {
            1int
        } else {
            0int
        }) + flow_errors(spec_flow_step(s, outcomes.first()).0, outcomes.drop_first())
    }
}

/// How many repair runs a run of the flow asks for.
pub open spec fn flow_repairs(s: FlowState, outcomes: Seq<bool>) -> int
    decreases outcomes.len(),
{
    if outcomes.len() == 0 {
        0
    } else {
        (if spec_flow_step(s, outcomes.first()).1 == Some(PipelineAction::RunRepair) {
            1int
        } else {
            0int
        }) + flow_repairs(spec_flow_step(s, outcomes.first()).0, outcomes.drop_first())
    }
}

/// A finished flow stays finished and emits nothing further.
pub proof fn lemma_done_absorbs(s: FlowState, outcomes: Seq<bool>)
    requires
        s is Done,
    ensures
        flow_run(s, outcomes) == s,
        flow_errors(s, outcomes) == 0,
        flow_repairs(s, outcomes) == 0,
    decreases outcomes.len(),
{
    if outcomes.len() > 0 {
        lemma_done_absorbs(s, outcomes.drop_first());
    }
}

/// Law: a run of the flow emits exactly one error report when it ends in
/// failure, and none otherwise — in particular, never more than one.
pub proof fn lemma_one_error_report(s: FlowState, outcomes: Seq<bool>)
    requires
        flow_wf(s),
        !(s is Done),
    ensures
        flow_errors(s, outcomes) == (if flow_run(s, outcomes) == (FlowState::Done {
            success: false,
        }) {
            1int
        } else {
            0int
        }),
    decreases outcomes.len(),
{
    if outcomes.len() > 0 {
        let (s1, action) = spec_flow_step(s, outcomes.first());
        if s1 is Done {
            lemma_done_absorbs(s1, outcomes.drop_first());
        } else {
            lemma_one_error_report(s1, outcomes.drop_first());
        }
    }
}

/// The repair attempts a state may still ask for.
pub open spec fn repair_budget(s: FlowState) -> int {
    match s {
        FlowState::Updating { repairs } => MAX_REPAIR_ATTEMPTS - repairs,
        FlowState::Repairing { repairs } => MAX_REPAIR_ATTEMPTS - repairs - 1,
        FlowState::Done { .. } => 0,
    }
}

/// Law: the flow asks for at most `MAX_REPAIR_ATTEMPTS` repairs in any run
/// — retries are bounded, whatever the outcomes.
pub proof fn lemma_repairs_bounded(s: FlowState, outcomes: Seq<bool>)
    requires
        flow_wf(s),
    ensures
        flow_repairs(s, outcomes) <= repair_budget(s),
        flow_repairs(s, outcomes) <= MAX_REPAIR_ATTEMPTS,
    decreases outcomes.len(),
{
    if outcomes.len() > 0 {
        let (s1, action) = spec_flow_step(s, outcomes.first());
        lemma_repairs_bounded(s1, outcomes.drop_first());
    }
}

/// Updates are available exactly when the pending-package list is
/// nonempty.
pub fn updates_are_available(packages: &Vec<String>) -> (r: bool)
    ensures
        r == (packages@.len() > 0),
{
    packages.len() > 0
}

/// Remove this service's own package from an update list, reporting
/// whether it was present (the service then needs a restart after the
/// update). Mirrors a swap-removal: when the package is found at the first
/// position holding it, the last entry takes its place.
pub fn extract_self_update(packages: &mut Vec<String>) -> (found: bool)
    ensures
        found <==> exists|k: int|
            0 <= k < old(packages)@.len() && old(packages)@[k]@ == "pop-system-updater"@,
        !found ==> final(packages)@ == old(packages)@,
        found ==> {
            let i = choose|i: int|
                0 <= i < old(packages)@.len() && old(packages)@[i]@ == "pop-system-updater"@
                    && forall|k: int| 0 <= k < i ==> old(packages)@[k]@ != "pop-system-updater"@;
            final(packages)@ == old(packages)@.update(
                i,
                old(packages)@.last(),
            ).drop_last()
        },
{
    let target: &str = "pop-system-updater";
    let n = packages.len();
    let mut i: usize = 0;
    while i < n
        invariant
            target@ == "pop-system-updater"@,
            n == packages@.len(),
            i <= n,
            packages@ == old(packages)@,
            forall|k: int| 0 <= k < i ==> old(packages)@[k]@ != "pop-system-updater"@,
        decreases n - i,
    {
        if str_equal(packages[i].as_str(), target) {
            let ghost found_at = i as int;
            let _removed = packages.swap_remove(i);
            proof {
                assert(old(packages)@[found_at]@ == "pop-system-updater"@);
                assert(forall|k: int|
                    0 <= k < found_at ==> old(packages)@[k]@ != "pop-system-updater"@);
                let j = choose|j: int|
                    0 <= j < old(packages)@.len() && old(packages)@[j]@ == "pop-system-updater"@
                        && forall|k: int|
                        0 <= k < j ==> old(packages)@[k]@ != "pop-system-updater"@;
                assert(j == found_at);
            }
            return true;
        }
        i = i + 1;
    }
    false
}

/// Whether `c` is ASCII whitespace, as the token splitting understands it.
pub open spec fn is_ascii_space(c: char) -> bool {
    c == ' ' || c == '\t' || c == '\n' || c == '\r' || c == '\u{c}'
}

/// The first position at or after `i` holding a non-space (the length when
/// none does).
pub open spec fn skip_spaces(s: Seq<char>, i: int) -> int
    decreases s.len() - i,
{
    if i < 0 || i >= s.len() {
        s.len() as int
    } else if is_ascii_space(s[i]) {
        skip_spaces(s, i + 1)
    } else {
        i
    }
}

/// The first position at or after `i` holding a space (the length when
/// none does).
pub open spec fn token_end(s: Seq<char>, i: int) -> int
    decreases s.len() - i,
{
    if i < 0 || i >= s.len() {
        s.len() as int
    } else if !is_ascii_space(s[i]) {
        token_end(s, i + 1)
    } else {
        i
    }
}

/// What one line of the upgrade dry-run reports: the package name when the
/// line's first whitespace-separated token is `Inst` and a second token
/// follows, nothing otherwise.
pub open spec fn spec_parse_upgradable(s: Seq<char>) -> Option<Seq<char>> {
    let a = skip_spaces(s, 0);
    let b = token_end(s, a);
    if s.subrange(a, b) == "Inst"@ {
        let c = skip_spaces(s, b);
        let d = token_end(s, c);
        if c < d {
            Some(s.subrange(c, d))
        } else {
            None
        }
    } else {
        None
    }
}

/// Whether `c` is ASCII whitespace.
fn is_space_char(c: char) -> (r: bool)
    ensures
        r == is_ascii_space(c),
{
    c == ' ' || c == '\t' || c == '\n' || c == '\r' || c == '\u{c}'
}

/// Parse one line of the upgrade dry-run output: `Inst <package> ...`
/// names a package to upgrade; any other line names none.
pub fn parse_upgradable_line(line: &str) -> (r: Option<String>)
    ensures
        r matches Some(p) ==> spec_parse_upgradable(line@) == Some(p@),
        r is None ==> spec_parse_upgradable(line@) is None,
{
    let n = line.unicode_len();
    let mut a: usize = 0;
    while a < n && is_space_char(line.get_char(a))
        invariant
            n == line@.len(),
            a <= n,
            skip_spaces(line@, 0) == skip_spaces(line@, a as int),
        decreases n - a,
    {
        a = a + 1;
    }
    proof {
        assert(skip_spaces(line@, 0) == a as int);
    }
    let mut b: usize = a;
    while b < n && !is_space_char(line.get_char(b))
        invariant
            n == line@.len(),
            a <= b <= n,
            token_end(line@, a as int) == token_end(line@, b as int),
        decreases n - b,
    {
        b = b + 1;
    }
    proof {
        assert(token_end(line@, a as int) == b as int);
    }
    let first = line.substring_char(a, b);
    if !str_equal(first, "Inst") {
        return None;
    }
    let mut c: usize = b;
    while c < n && is_space_char(line.get_char(c))
        invariant
            n == line@.len(),
            b <= c <= n,
            skip_spaces(line@, b as int) == skip_spaces(line@, c as int),
        decreases n - c,
    {
        c = c + 1;
    }
    proof {
        assert(skip_spaces(line@, b as int) == c as int);
    }
    let mut d: usize = c;
    while d < n && !is_space_char(line.get_char(d))
        invariant
            n == line@.len(),
            c <= d <= n,
            token_end(line@, c as int) == token_end(line@, d as int),
        decreases n - d,
    {
        d = d + 1;
    }
    proof {
        assert(token_end(line@, c as int) == d as int);
    }
    if c < d {
        Some(line.substring_char(c, d).to_owned())
    } else {
        None
    }
}

/// Compare two strings character for character.
pub(crate) fn str_equal(a: &str, b: &str) -> (r: bool)
    ensures
        r == (a@ == b@),
{
    let a_owned = a.to_owned();
    let b_owned = b.to_owned();
    let r = a_owned == b_owned;
    proof {
        if a@ == b@ {
            assert(a_owned@ =~= b_owned@);
        }
    }
    r
}

} // verus!
