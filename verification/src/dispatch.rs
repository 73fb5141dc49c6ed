//! Event dispatch: the mapping from tray menu selections, tray-icon pointer
//! events and window close requests to the effects the host shell performs.
//!
//! Each dispatcher is a pure function of the event alone; the
//! `TrayController` additionally tracks the model state the effects produce.

use vstd::prelude::*;

verus! {

use crate::events::{CloseDecision, PointerButton, PointerButtonState, PointerEvent, PointerKind};
use crate::lifecycle::{apply_effects, lemma_apply_one, Effect, LifecycleState};

/// The menu-entry identifier that shows and focuses the main window.
pub open spec fn show_id() -> Seq<char> {
    "show"@
}

/// The menu-entry identifier that asks the UI layer to fetch, then shows the
/// main window.
pub open spec fn fetch_id() -> Seq<char> {
    "fetch"@
}

/// The menu-entry identifier that terminates the application.
pub open spec fn quit_id() -> Seq<char> {
    "quit"@
}

/// The three recognized menu identifiers are pairwise distinct.
pub proof fn lemma_ids_distinct()
    ensures
        show_id() != fetch_id(),
        show_id() != quit_id(),
        fetch_id() != quit_id(),
{
    reveal_strlit("show");
    reveal_strlit("fetch");
    reveal_strlit("quit");
    assert(show_id().len() == 4 && fetch_id().len() == 5 && quit_id().len() == 4);
    assert(show_id()[0] == 's' && quit_id()[0] == 'q');
}

/// Whether `id` belongs to the closed set of recognized menu identifiers.
pub open spec fn is_known_id(id: Seq<char>) -> bool {
    id == show_id() || id == fetch_id() || id == quit_id()
}

/// The effects a menu selection carrying `id` asks for.
///
/// The show action makes the window visible and then requests focus; the
/// fetch action first delivers the notification, so the UI has been signaled
/// by the time the window is shown; the quit action terminates the
/// application unconditionally; any other identifier is silently ignored.
pub open spec fn menu_effects_of(id: Seq<char>) -> Seq<Effect> {
    if id == show_id() {
        seq![Effect::Show, Effect::Focus]
    } else if id == fetch_id() {
        seq![Effect::EmitFetch, Effect::Show, Effect::Focus]
    } else if id == quit_id() {
        seq![Effect::Exit]
    } else {
        Seq::empty()
    }
}

/// The effects a raw tray-icon pointer event asks for: only a left-click
/// release shows and focuses the window, every other shape is discarded.
pub open spec fn pointer_effects_of(ev: PointerEvent) -> Seq<Effect> {
    if ev.is_left_click_up() {
        seq![Effect::Show, Effect::Focus]
    } else {
        Seq::empty()
    }
}

/// The effects a window close request is converted into: hide, never destroy.
pub open spec fn close_effects() -> Seq<Effect> {
    seq![Effect::Hide]
}

/// Maps a menu selection to its effects.
pub fn dispatch_menu_selection(id: &str) -> (effs: Vec<Effect>)
    ensures
        effs@ == menu_effects_of(id@),
{
    let id_owned: String = id.to_owned();
    let mut effs: Vec<Effect> = Vec::new();
    if id_owned == ("show").to_owned() {
        effs.push(Effect::Show);
        effs.push(Effect::Focus);
        proof {
            assert(effs@ =~= menu_effects_of(id@));
        }
    } else if id_owned == ("fetch").to_owned() {
        effs.push(Effect::EmitFetch);
        effs.push(Effect::Show);
        effs.push(Effect::Focus);
        proof {
            assert(effs@ =~= menu_effects_of(id@));
        }
    } else if id_owned == ("quit").to_owned() {
        effs.push(Effect::Exit);
        proof {
            assert(effs@ =~= menu_effects_of(id@));
        }
    } else {
        proof {
            assert(effs@ =~= menu_effects_of(id@));
        }
    }
    effs
}

/// Maps a raw tray-icon pointer event to its effects.
pub fn dispatch_pointer_event(ev: &PointerEvent) -> (effs: Vec<Effect>)
    ensures
        effs@ == pointer_effects_of(*ev),
{
    let mut effs: Vec<Effect> = Vec::new();
    if ev.kind == PointerKind::Click && ev.button == PointerButton::Left && ev.button_state
        == PointerButtonState::Up {
        effs.push(Effect::Show);
        effs.push(Effect::Focus);
        proof {
            assert(effs@ =~= pointer_effects_of(*ev));
        }
    } else {
        proof {
            assert(effs@ =~= pointer_effects_of(*ev));
        }
    }
    effs
}

/// Answers a window close request: suppress the default destroy and hide the
/// window instead.
pub fn dispatch_close_request() -> (d: CloseDecision)
    ensures
        d.prevent_default,
        d.effects@ == close_effects(),
{
    let mut effs: Vec<Effect> = Vec::new();
    effs.push(Effect::Hide);
    proof {
        assert(effs@ =~= close_effects());
    }
    CloseDecision { prevent_default: true, effects: effs }
}

/// The lifecycle controller: dispatches each event and tracks the lifecycle
/// state that performing the returned effects on the real window produces.
pub struct TrayController {
    pub state: LifecycleState,
}

impl TrayController {
    /// A controller for a window currently in `initial` state.  A controller
    /// only runs while the application does, so it never starts `Destroyed`.
    pub fn new(initial: LifecycleState) -> (c: TrayController)
        requires
            initial != LifecycleState::Destroyed,
        ensures
            c.state == initial,
    {
        TrayController { state: initial }
    }

    /// Handles a menu selection: returns the effects to perform, and advances
    /// the model state as the real window will advance once they are done.
    pub fn handle_menu_selection(&mut self, id: &str) -> (effs: Vec<Effect>)
        ensures
            effs@ == menu_effects_of(id@),
            final(self).state == apply_effects(old(self).state, effs@),
    {
        let effs = dispatch_menu_selection(id);
        self.state = crate::lifecycle::run_effects(self.state, &effs);
        effs
    }

    /// Handles a raw tray-icon pointer event.
    pub fn handle_pointer_event(&mut self, ev: &PointerEvent) -> (effs: Vec<Effect>)
        ensures
            effs@ == pointer_effects_of(*ev),
            final(self).state == apply_effects(old(self).state, effs@),
    {
        let effs = dispatch_pointer_event(ev);
        self.state = crate::lifecycle::run_effects(self.state, &effs);
        effs
    }

    /// Handles a window close request: the default destroy is suppressed and
    /// the window is hidden instead, so no close request ever destroys it.
    pub fn handle_close_request(&mut self) -> (d: CloseDecision)
        ensures
            d.prevent_default,
            d.effects@ == close_effects(),
            final(self).state == apply_effects(old(self).state, d.effects@),
            old(self).state != LifecycleState::Destroyed ==> final(self).state
                != LifecycleState::Destroyed,
    {
        let d = dispatch_close_request();
        self.state = crate::lifecycle::run_effects(self.state, &d.effects);
        proof {
            lemma_apply_one(old(self).state, Effect::Hide);
        }
        d
    }
}

} // verus!
