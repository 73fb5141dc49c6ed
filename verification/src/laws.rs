//! The lifecycle laws of the controller, proved once and for all: what whole
//! runs of menu selections, pointer events and close requests do to the
//! window, independent of any particular host event loop.

use vstd::prelude::*;

verus! {

use crate::dispatch::{
    close_effects, fetch_id, is_known_id, lemma_ids_distinct, menu_effects_of, pointer_effects_of,
    quit_id, show_id,
};
use crate::events::PointerEvent;
use crate::lifecycle::{
    apply_effects, lemma_apply_one, lemma_apply_three, lemma_apply_two, Effect, LifecycleState,
    QUIT_EXIT_CODE,
};

/// The lifecycle state after a whole run of menu selections, handled
/// strictly in arrival order.
pub open spec fn run_menu_selections(s: LifecycleState, ids: Seq<Seq<char>>) -> LifecycleState
    decreases ids.len(),
{
    if ids.len() == 0 {
        s
    } else {
        run_menu_selections(apply_effects(s, menu_effects_of(ids[0])), ids.drop_first())
    }
}

/// The lifecycle state after `n` consecutive window close requests.
pub open spec fn run_close_requests(s: LifecycleState, n: nat) -> LifecycleState
    decreases n,
{
    if n == 0 {
        s
    } else {
        run_close_requests(apply_effects(s, close_effects()), (n - 1) as nat)
    }
}

/// While the main window is absent, any sequence of `show` menu selections
/// leaves it absent: the action is skipped each time and no window is ever
/// created.
pub proof fn lemma_show_selections_leave_absent_window_absent(ids: Seq<Seq<char>>)
    requires
        forall|i: int| 0 <= i < ids.len() ==> ids[i] == show_id(),
    ensures
        run_menu_selections(LifecycleState::Absent, ids) == LifecycleState::Absent,
    decreases ids.len(),
{
    if ids.len() > 0 {
        lemma_apply_two(LifecycleState::Absent, Effect::Show, Effect::Focus);
        assert(apply_effects(LifecycleState::Absent, menu_effects_of(ids[0]))
            == LifecycleState::Absent);
        assert(forall|i: int|
            0 <= i < ids.drop_first().len() ==> ids.drop_first()[i] == show_id());
        lemma_show_selections_leave_absent_window_absent(ids.drop_first());
    }
}

/// Any number of consecutive close requests never destroys the window: from
/// `Visible` the first one lands in `Hidden` and every further one stays
/// there, and no state other than `Destroyed` ever reaches `Destroyed`.
pub proof fn lemma_close_requests_never_destroy(s: LifecycleState, n: nat)
    requires
        s != LifecycleState::Destroyed,
    ensures
        run_close_requests(s, n) != LifecycleState::Destroyed,
        s == LifecycleState::Visible && n >= 1 ==> run_close_requests(s, n)
            == LifecycleState::Hidden,
        s == LifecycleState::Hidden && n >= 1 ==> run_close_requests(s, n)
            == LifecycleState::Hidden,
    decreases n,
{
    if n > 0 {
        lemma_apply_one(s, Effect::Hide);
        lemma_close_requests_never_destroy(apply_effects(s, close_effects()), (n - 1) as nat);
    }
}

/// From `Hidden`, a `show` menu selection and a left-click-up pointer event
/// each bring the window back to `Visible`, with focus requested.
pub proof fn lemma_show_restores_hidden_window(id: Seq<char>, ev: PointerEvent)
    requires
        id == show_id(),
        ev.is_left_click_up(),
    ensures
        apply_effects(LifecycleState::Hidden, menu_effects_of(id)) == LifecycleState::Visible,
        menu_effects_of(id).contains(Effect::Focus),
        apply_effects(LifecycleState::Hidden, pointer_effects_of(ev)) == LifecycleState::Visible,
        pointer_effects_of(ev).contains(Effect::Focus),
{
    lemma_apply_two(LifecycleState::Hidden, Effect::Show, Effect::Focus);
    assert(menu_effects_of(id)[1] == Effect::Focus);
    assert(pointer_effects_of(ev)[1] == Effect::Focus);
}

/// The fetch action orders its effects so that the notification is delivered
/// before the window is shown: wherever `Show` stands in the fetch effect
/// sequence, an `EmitFetch` stands earlier.  Like the show action, it brings
/// a hidden window back to visible, with focus requested.
pub proof fn lemma_fetch_emits_before_show(id: Seq<char>)
    requires
        id == fetch_id(),
    ensures
        forall|j: int|
            0 <= j < menu_effects_of(id).len() && menu_effects_of(id)[j] == Effect::Show
                ==> exists|i: int|
                0 <= i < j && menu_effects_of(id)[i] == Effect::EmitFetch,
        apply_effects(LifecycleState::Hidden, menu_effects_of(id)) == LifecycleState::Visible,
        menu_effects_of(id).contains(Effect::Focus),
{
    lemma_ids_distinct();
    lemma_apply_three(LifecycleState::Hidden, Effect::EmitFetch, Effect::Show, Effect::Focus);
    assert(menu_effects_of(id)[2] == Effect::Focus);
    assert forall|j: int|
        0 <= j < menu_effects_of(id).len() && menu_effects_of(id)[j]
            == Effect::Show implies exists|i: int|
        0 <= i < j && menu_effects_of(id)[i] == Effect::EmitFetch by {
        assert(menu_effects_of(id)[0] == Effect::EmitFetch);
        assert(j == 1);
    }
}

/// The quit action terminates the application with exit status zero from
/// either visibility state: its one effect is `Exit`, which lands in
/// `Destroyed` whether the window was visible or hidden.
pub proof fn lemma_quit_terminates_from_any_visibility(s: LifecycleState, id: Seq<char>)
    requires
        id == quit_id(),
        s == LifecycleState::Visible || s == LifecycleState::Hidden,
    ensures
        menu_effects_of(id) == seq![Effect::Exit],
        apply_effects(s, menu_effects_of(id)) == LifecycleState::Destroyed,
        QUIT_EXIT_CODE == 0,
{
    lemma_ids_distinct();
    lemma_apply_one(s, Effect::Exit);
}

/// Pointer events of any other shape - not a click, a button other than
/// left, or a press rather than a release - ask for nothing and change no
/// visibility.
pub proof fn lemma_other_pointer_events_ignored(s: LifecycleState, ev: PointerEvent)
    requires
        !ev.is_left_click_up(),
    ensures
        pointer_effects_of(ev) == Seq::<Effect>::empty(),
        apply_effects(s, pointer_effects_of(ev)) == s,
{
}

/// A menu selection whose identifier lies outside the recognized set asks
/// for nothing: no state change and no notification.
pub proof fn lemma_unknown_menu_id_ignored(s: LifecycleState, id: Seq<char>)
    requires
        !is_known_id(id),
    ensures
        menu_effects_of(id) == Seq::<Effect>::empty(),
        apply_effects(s, menu_effects_of(id)) == s,
        !menu_effects_of(id).contains(Effect::EmitFetch),
{
}

} // verus!
