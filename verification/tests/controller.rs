use tray_lifecycle::dispatch::{
    dispatch_close_request, dispatch_menu_selection, dispatch_pointer_event, TrayController,
};
use tray_lifecycle::events::{PointerButton, PointerButtonState, PointerEvent, PointerKind};
use tray_lifecycle::lifecycle::{run_effects, step, Effect, LifecycleState, QUIT_EXIT_CODE};

fn click(button: PointerButton, button_state: PointerButtonState) -> PointerEvent {
    PointerEvent { kind: PointerKind::Click, button, button_state }
}

#[test]
fn show_selection_shows_then_focuses() {
    let effs = dispatch_menu_selection("show");
    assert_eq!(effs, vec![Effect::Show, Effect::Focus]);
}

#[test]
fn fetch_selection_emits_before_show() {
    let effs = dispatch_menu_selection("fetch");
    assert_eq!(effs, vec![Effect::EmitFetch, Effect::Show, Effect::Focus]);
    let emit_pos = effs.iter().position(|e| *e == Effect::EmitFetch).unwrap();
    let show_pos = effs.iter().position(|e| *e == Effect::Show).unwrap();
    assert!(emit_pos < show_pos);
}

#[test]
fn quit_selection_exits_with_code_zero() {
    let effs = dispatch_menu_selection("quit");
    assert_eq!(effs, vec![Effect::Exit]);
    assert_eq!(QUIT_EXIT_CODE, 0);
}

#[test]
fn quit_terminates_from_visible_and_from_hidden() {
    for initial in [LifecycleState::Visible, LifecycleState::Hidden] {
        let mut c = TrayController::new(initial);
        c.handle_menu_selection("quit");
        assert_eq!(c.state, LifecycleState::Destroyed);
    }
}

#[test]
fn unknown_menu_ids_are_ignored() {
    for id in ["", "fetch ", "Show", "restart", "quit2", "tray-fetch-codes"] {
        let effs = dispatch_menu_selection(id);
        assert!(effs.is_empty());
        let mut c = TrayController::new(LifecycleState::Visible);
        c.handle_menu_selection(id);
        assert_eq!(c.state, LifecycleState::Visible);
    }
}

#[test]
fn show_selections_on_absent_window_create_nothing() {
    let mut c = TrayController::new(LifecycleState::Absent);
    for _ in 0..5 {
        let effs = c.handle_menu_selection("show");
        assert_eq!(effs, vec![Effect::Show, Effect::Focus]);
        assert_eq!(c.state, LifecycleState::Absent);
    }
}

#[test]
fn close_request_hides_and_never_destroys() {
    let mut c = TrayController::new(LifecycleState::Visible);
    for _ in 0..4 {
        let d = c.handle_close_request();
        assert!(d.prevent_default);
        assert_eq!(d.effects, vec![Effect::Hide]);
        assert_eq!(c.state, LifecycleState::Hidden);
    }
}

#[test]
fn show_restores_hidden_window() {
    let mut c = TrayController::new(LifecycleState::Visible);
    c.handle_close_request();
    assert_eq!(c.state, LifecycleState::Hidden);
    let effs = c.handle_menu_selection("show");
    assert!(effs.contains(&Effect::Focus));
    assert_eq!(c.state, LifecycleState::Visible);
}

#[test]
fn left_click_up_restores_hidden_window() {
    let mut c = TrayController::new(LifecycleState::Hidden);
    let effs = c.handle_pointer_event(&click(PointerButton::Left, PointerButtonState::Up));
    assert_eq!(effs, vec![Effect::Show, Effect::Focus]);
    assert_eq!(c.state, LifecycleState::Visible);
}

#[test]
fn other_pointer_shapes_change_nothing() {
    let ignored = [
        click(PointerButton::Right, PointerButtonState::Up),
        click(PointerButton::Right, PointerButtonState::Down),
        click(PointerButton::Middle, PointerButtonState::Up),
        click(PointerButton::Middle, PointerButtonState::Down),
        click(PointerButton::Left, PointerButtonState::Down),
        click(PointerButton::Other, PointerButtonState::Up),
        PointerEvent {
            kind: PointerKind::Other,
            button: PointerButton::Left,
            button_state: PointerButtonState::Up,
        },
    ];
    for (i, ev) in ignored.iter().enumerate() {
        let initial = if i % 2 == 0 { LifecycleState::Visible } else { LifecycleState::Hidden };
        let mut c = TrayController::new(initial);
        let effs = c.handle_pointer_event(ev);
        assert!(effs.is_empty());
        assert_eq!(c.state, initial);
    }
}

#[test]
fn close_decision_is_state_independent() {
    let d = dispatch_close_request();
    assert!(d.prevent_default);
    assert_eq!(d.effects, vec![Effect::Hide]);
}

#[test]
fn pointer_dispatch_matches_controller() {
    let ev = click(PointerButton::Left, PointerButtonState::Up);
    assert_eq!(dispatch_pointer_event(&ev), vec![Effect::Show, Effect::Focus]);
}

#[test]
fn step_moves_between_states() {
    assert_eq!(step(LifecycleState::Hidden, Effect::Show), LifecycleState::Visible);
    assert_eq!(step(LifecycleState::Visible, Effect::Hide), LifecycleState::Hidden);
    assert_eq!(step(LifecycleState::Absent, Effect::Show), LifecycleState::Absent);
    assert_eq!(step(LifecycleState::Absent, Effect::Hide), LifecycleState::Absent);
    assert_eq!(step(LifecycleState::Visible, Effect::Focus), LifecycleState::Visible);
    assert_eq!(step(LifecycleState::Hidden, Effect::EmitFetch), LifecycleState::Hidden);
    assert_eq!(step(LifecycleState::Visible, Effect::Exit), LifecycleState::Destroyed);
    assert_eq!(step(LifecycleState::Hidden, Effect::Exit), LifecycleState::Destroyed);
}

#[test]
fn run_effects_folds_in_order() {
    let effs = vec![Effect::EmitFetch, Effect::Show, Effect::Focus];
    assert_eq!(run_effects(LifecycleState::Hidden, &effs), LifecycleState::Visible);
    assert_eq!(run_effects(LifecycleState::Absent, &effs), LifecycleState::Absent);
    let none: Vec<Effect> = Vec::new();
    assert_eq!(run_effects(LifecycleState::Hidden, &none), LifecycleState::Hidden);
}
