//! The tray menu model and the tray configuration: an ordered, fixed set of
//! menu entries built once at startup, the icon/tooltip configuration the
//! tray icon is bound with, and the fatal setup errors.

use vstd::prelude::*;

verus! {

use crate::dispatch::{fetch_id, quit_id, show_id};

/// One tray menu entry: a stable identifier, a human label and an enabled
/// flag.  Immutable after menu construction.
pub struct MenuEntry {
    pub id: String,
    pub label: String,
    pub enabled: bool,
}

/// The ordered tray menu.  Insertion order is the display order and is
/// significant; entry identifiers are unique.
pub struct TrayMenuModel {
    pub entries: Vec<MenuEntry>,
}

impl TrayMenuModel {
    /// Well-formedness: no two entries share an identifier.
    pub open spec fn wf(self) -> bool {
        forall|i: int, j: int|
            0 <= i < j < self.entries@.len() ==> self.entries@[i].id@ != self.entries@[j].id@
    }
}

/// The tray configuration the icon is bound with.  `show_menu_on_left_click`
/// is false: left-click is reserved for the show action, so the native menu
/// must not open on it.
pub struct TrayConfig {
    pub tray_id: String,
    pub tooltip: String,
    pub show_menu_on_left_click: bool,
}

/// A fatal setup error: there is no degraded mode without a tray, so either
/// of these aborts application startup entirely.
#[derive(Clone, Copy, Debug, PartialEq, Eq, Structural)]
pub enum SetupError {
    /// The host tray subsystem is unavailable (no system tray present, or
    /// tray construction failed).
    TrayUnavailable,
    /// No icon resource could be loaded and the application has no default
    /// window icon to fall back to.
    IconUnavailable,
}

/// Decides whether tray setup may proceed, from what the host reports:
/// whether the tray subsystem is usable and whether an icon resource (or the
/// default window icon fallback) is available.  Setup succeeds exactly when
/// both are there.
pub fn check_setup(tray_available: bool, icon_available: bool) -> (r: Result<(), SetupError>)
    ensures
        r is Ok <==> tray_available && icon_available,
        !icon_available ==> r == Result::<(), SetupError>::Err(SetupError::IconUnavailable),
        icon_available && !tray_available ==> r == Result::<(), SetupError>::Err(
            SetupError::TrayUnavailable,
        ),
{
    if !icon_available {
        Err(SetupError::IconUnavailable)
    } else if !tray_available {
        Err(SetupError::TrayUnavailable)
    } else {
        Ok(())
    }
}

/// Builds the menu model from an ordered sequence of (identifier, label)
/// pairs, every entry enabled, keeping the given order.
pub fn build_menu(items: Vec<(String, String)>) -> (m: TrayMenuModel)
    ensures
        m.entries@.len() == items@.len(),
        forall|i: int|
            0 <= i < items@.len() ==> m.entries@[i].id@ == items@[i].0@ && m.entries@[i].label@
                == items@[i].1@ && m.entries@[i].enabled,
{
    let mut entries: Vec<MenuEntry> = Vec::new();
    let mut k: usize = 0;
    while k < items.len()
        invariant
            k <= items.len(),
            entries@.len() == k,
            forall|i: int|
                0 <= i < k ==> entries@[i].id@ == items@[i].0@ && entries@[i].label@
                    == items@[i].1@ && entries@[i].enabled,
        decreases items.len() - k,
    {
        let id = items[k].0.clone();
        let label = items[k].1.clone();
        entries.push(MenuEntry { id, label, enabled: true });
        k = k + 1;
    }
    TrayMenuModel { entries }
}

/// The application's standard tray menu: show, fetch and quit, in that
/// order, all enabled, with their display labels.
pub fn standard_menu() -> (m: TrayMenuModel)
    ensures
        m.entries@.len() == 3,
        m.entries@[0].id@ == show_id(),
        m.entries@[1].id@ == fetch_id(),
        m.entries@[2].id@ == quit_id(),
        m.entries@[0].label@ == "Show YASCAR"@,
        m.entries@[1].label@ == "Sync Shift Codes"@,
        m.entries@[2].label@ == "Quit"@,
        forall|i: int| 0 <= i < 3 ==> m.entries@[i].enabled,
        m.wf(),
{
    let mut items: Vec<(String, String)> = Vec::new();
    items.push((("show").to_owned(), ("Show YASCAR").to_owned()));
    items.push((("fetch").to_owned(), ("Sync Shift Codes").to_owned()));
    items.push((("quit").to_owned(), ("Quit").to_owned()));
    let m = build_menu(items);
    proof {
        crate::dispatch::lemma_ids_distinct();
        assert forall|i: int, j: int|
            0 <= i < j < m.entries@.len() implies m.entries@[i].id@ != m.entries@[j].id@ by {
            assert(m.entries@[0].id@ == show_id());
            assert(m.entries@[1].id@ == fetch_id());
            assert(m.entries@[2].id@ == quit_id());
        }
    }
    m
}

/// The standard tray configuration: the fixed tray identifier and tooltip,
/// with menu-on-left-click disabled so that pointer routing takes effect.
pub fn standard_config() -> (c: TrayConfig)
    ensures
        c.tray_id@ == "main-tray"@,
        c.tooltip@ == "YASCAR - Shift Code Redeemer"@,
        !c.show_menu_on_left_click,
{
    TrayConfig {
        tray_id: ("main-tray").to_owned(),
        tooltip: ("YASCAR - Shift Code Redeemer").to_owned(),
        show_menu_on_left_click: false,
    }
}

/// The name of the one frontend notification this controller emits, asking
/// the UI layer to begin a refresh.
pub fn fetch_event_name() -> (s: String)
    ensures
        s@ == "tray-fetch-codes"@,
{
    ("tray-fetch-codes").to_owned()
}

} // verus!
