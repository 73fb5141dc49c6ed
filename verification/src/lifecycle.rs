//! The window-lifecycle state machine: what can happen to the single main
//! window, and how each display-affecting effect moves it between states.

use vstd::prelude::*;

verus! {

/// The lifecycle state of the single main window, as the controller models it.
///
/// `Absent` means the window registry holds no live window (it was never
/// created, or the windowing subsystem destroyed it).  `Destroyed` is the
/// terminal state of the whole application: it is reachable only through the
/// tray's quit action, never through the window's own close affordance.
#[derive(Clone, Copy, Debug, PartialEq, Eq, Structural)]
pub enum LifecycleState {
    Absent,
    Visible,
    Hidden,
    Destroyed,
}

/// One display-affecting or lifecycle-affecting action the host shell is asked
/// to perform.  Effects that touch the window (`EmitFetch`, `Show`, `Focus`,
/// `Hide`) are best-effort: when the window is absent they are skipped, never
/// raised as errors.
#[derive(Clone, Copy, Debug, PartialEq, Eq, Structural)]
pub enum Effect {
    /// Deliver the fetch notification to the main window's UI layer.
    EmitFetch,
    /// Make the main window visible.
    Show,
    /// Request input focus for the main window.
    Focus,
    /// Make the main window invisible without destroying it.
    Hide,
    /// Terminate the application with exit status `QUIT_EXIT_CODE`.
    Exit,
}

/// The exit status the quit action terminates the process with.
pub const QUIT_EXIT_CODE: i32 = 0;

/// How one effect moves the window between lifecycle states.  Showing or
/// hiding an absent window is skipped; nothing leaves `Destroyed` because the
/// process is gone; focus requests and notifications never change visibility.
pub open spec fn apply_effect(s: LifecycleState, e: Effect) -> LifecycleState {
    match e {
        Effect::Show => match s {
            LifecycleState::Visible => LifecycleState::Visible,
            LifecycleState::Hidden => LifecycleState::Visible,
            LifecycleState::Absent => LifecycleState::Absent,
            LifecycleState::Destroyed => LifecycleState::Destroyed,
        },
        Effect::Hide => match s {
            LifecycleState::Visible => LifecycleState::Hidden,
            LifecycleState::Hidden => LifecycleState::Hidden,
            LifecycleState::Absent => LifecycleState::Absent,
            LifecycleState::Destroyed => LifecycleState::Destroyed,
        },
        Effect::Focus => s,
        Effect::EmitFetch => s,
        Effect::Exit => LifecycleState::Destroyed,
    }
}

/// Folds `apply_effect` over a whole effect sequence, in order.
pub open spec fn apply_effects(s: LifecycleState, effs: Seq<Effect>) -> LifecycleState
    decreases effs.len(),
{
    if effs.len() == 0 {
        s
    } else {
        apply_effect(apply_effects(s, effs.drop_last()), effs.last())
    }
}

/// Running a single-effect list is one step.
pub proof fn lemma_apply_one(s: LifecycleState, a: Effect)
    ensures
        apply_effects(s, seq![a]) == apply_effect(s, a),
{
    assert(seq![a].drop_last() =~= Seq::<Effect>::empty());
    assert(apply_effects(s, Seq::<Effect>::empty()) == s);
}

/// Running a two-effect list is two steps, in order.
pub proof fn lemma_apply_two(s: LifecycleState, a: Effect, b: Effect)
    ensures
        apply_effects(s, seq![a, b]) == apply_effect(apply_effect(s, a), b),
{
    assert(seq![a, b].drop_last() =~= seq![a]);
    lemma_apply_one(s, a);
}

/// Running a three-effect list is three steps, in order.
pub proof fn lemma_apply_three(s: LifecycleState, a: Effect, b: Effect, c: Effect)
    ensures
        apply_effects(s, seq![a, b, c]) == apply_effect(
            apply_effect(apply_effect(s, a), b),
            c,
        ),
{
    assert(seq![a, b, c].drop_last() =~= seq![a, b]);
    lemma_apply_two(s, a, b);
}

/// Executable counterpart of `apply_effect`.
pub fn step(s: LifecycleState, e: Effect) -> (r: LifecycleState)
    ensures
        r == apply_effect(s, e),
{
    match e {
        Effect::Show => match s {
            LifecycleState::Visible => LifecycleState::Visible,
            LifecycleState::Hidden => LifecycleState::Visible,
            LifecycleState::Absent => LifecycleState::Absent,
            LifecycleState::Destroyed => LifecycleState::Destroyed,
        },
        Effect::Hide => match s {
            LifecycleState::Visible => LifecycleState::Hidden,
            LifecycleState::Hidden => LifecycleState::Hidden,
            LifecycleState::Absent => LifecycleState::Absent,
            LifecycleState::Destroyed => LifecycleState::Destroyed,
        },
        Effect::Focus => s,
        Effect::EmitFetch => s,
        Effect::Exit => LifecycleState::Destroyed,
    }
}

/// Executable counterpart of `apply_effects`: runs a whole effect list.
pub fn run_effects(s: LifecycleState, effs: &Vec<Effect>) -> (r: LifecycleState)
    ensures
        r == apply_effects(s, effs@),
{
    let mut acc: LifecycleState = s;
    let mut i: usize = 0;
    while i < effs.len()
        invariant
            i <= effs.len(),
            acc == apply_effects(s, effs@.take(i as int)),
        decreases effs.len() - i,
    {
        proof {
            assert(effs@.take(i + 1).drop_last() =~= effs@.take(i as int));
        }
        acc = step(acc, effs[i]);
        i = i + 1;
    }
    proof {
        assert(effs@.take(effs@.len() as int) =~= effs@);
    }
    acc
}

} // verus!
