//! Decisions of the overlay window and its tray menu.

use vstd::prelude::*;

use crate::json::{
    distinct_plain_keys, field_value, is_plain_key, json_i64_field, json_i64_field_of, pretty_int_object,
};
use crate::text::str_eq;

verus! {

/// Where the overlay opens, and where "Reset Position" puts it.
pub const DEFAULT_X: i32 = 20;
pub const DEFAULT_Y: i32 = 20;

/// Size of the overlay window, in physical pixels.
pub const OVERLAY_WIDTH: u32 = 200;
pub const OVERLAY_HEIGHT: u32 = 110;

/// Pixels moved by one nudge.
pub const NUDGE_STEP: i32 = 10;

/// Tray menu item ids.
pub const MENU_MOVE: &'static str = "move";
pub const MENU_NUDGE_LEFT: &'static str = "nudge-left";
pub const MENU_NUDGE_RIGHT: &'static str = "nudge-right";
pub const MENU_NUDGE_UP: &'static str = "nudge-up";
pub const MENU_NUDGE_DOWN: &'static str = "nudge-down";
pub const MENU_RESET: &'static str = "reset";
pub const MENU_QUIT: &'static str = "quit";

/// A window position in physical pixels.
#[derive(Clone, Copy, Debug, PartialEq, Eq, Structural)]
pub struct OverlayPosition {
    pub x: i32,
    pub y: i32,
}

/// The default position, `(20, 20)`.
pub open spec fn default_position_spec() -> OverlayPosition {
    OverlayPosition { x: DEFAULT_X, y: DEFAULT_Y }
}

/// The overlay's default position, `(20, 20)`.
pub fn default_position() -> (res: OverlayPosition)
    ensures
        res == default_position_spec(),
{
    OverlayPosition { x: DEFAULT_X, y: DEFAULT_Y }
}

/// `pos` moved by `(dx, dy)`.
pub fn nudged(pos: OverlayPosition, dx: i32, dy: i32) -> (res: OverlayPosition)
    requires
        i32::MIN <= pos.x + dx <= i32::MAX,
        i32::MIN <= pos.y + dy <= i32::MAX,
    ensures
        res.x == pos.x + dx,
        res.y == pos.y + dy,
{
    OverlayPosition { x: pos.x + dx, y: pos.y + dy }
}

/// The text of the position file for `pos`: `serde_json::to_string_pretty` of
/// `{"x": pos.x, "y": pos.y}`.
pub open spec fn saved_position_text(pos: OverlayPosition) -> Seq<char> {
    pretty_int_object(seq![(seq!['x'], pos.x as i64), (seq!['y'], pos.y as i64)])
}

/// A saved position read back from the text of its file, a JSON object with integer
/// fields `x` and `y` (each cut to 32 bits); `None` when either cannot be read.
pub fn position_from_text(text: &str) -> (res: Option<OverlayPosition>)
    ensures
        res == match (json_i64_field(text@, "x"@), json_i64_field(text@, "y"@)) {
            (Some(x), Some(y)) => Some(OverlayPosition { x: x as i32, y: y as i32 }),
            _ => None,
        },
        forall|pos: OverlayPosition| text@ == #[trigger] saved_position_text(pos) ==> res == Some(
            pos,
        ),
{
    let x = json_i64_field_of(text, "x");
    let y = json_i64_field_of(text, "y");
    proof {
        reveal_strlit("x");
        reveal_strlit("y");
        assert forall|pos: OverlayPosition| text@ == #[trigger] saved_position_text(
            pos,
        ) implies x == Some(pos.x as i64) && y == Some(pos.y as i64) by {
            let fields = seq![(seq!['x'], pos.x as i64), (seq!['y'], pos.y as i64)];
            assert("x"@ =~= seq!['x']);
            assert("y"@ =~= seq!['y']);
            assert(text@ == pretty_int_object(fields));
            assert(seq!['x'][0] == 'x' && seq!['y'][0] == 'y');
            assert(seq!['x'] != seq!['y']);
            assert(is_plain_key(seq!['x']));
            assert(is_plain_key(seq!['y']));
            assert(fields[0].0 != fields[1].0);
            assert(distinct_plain_keys(fields));
            assert(field_value(fields, "x"@) == Some(pos.x as i64));
            assert(fields.drop_first()[0].0 == seq!['y']);
            assert(fields[0].0 != "y"@);
            assert(fields.drop_first()[0].0 == "y"@);
            assert(field_value(fields.drop_first(), "y"@) == Some(pos.y as i64));
            assert(field_value(fields, "y"@) == Some(pos.y as i64));
        }
    }
    match (x, y) {
        (Some(x), Some(y)) => Some(position_from_stored(x, y)),
        _ => None,
    }
}

/// A saved position read back from its stored integers, each cut to 32 bits (as
/// `i64 as i32`).
pub fn position_from_stored(x: i64, y: i64) -> (res: OverlayPosition)
    ensures
        res.x == x as i32,
        res.y == y as i32,
{
    OverlayPosition { x: x as i32, y: y as i32 }
}

/// What toggling move mode does to the window.
#[derive(Clone, Copy, Debug, PartialEq, Eq, Structural)]
pub struct MoveModeChange {
    /// Whether move mode is on afterwards; also the value of the `move-mode` event.
    pub now_active: bool,
    /// Save the window's current position first.
    pub save_position: bool,
    /// Let mouse clicks pass through the window.
    pub ignore_cursor_events: bool,
    /// Give the window focus.
    pub focus: bool,
}

/// Leaving move mode saves the position and makes the window click-through again;
/// entering it makes the window clickable and focuses it.
pub open spec fn move_mode_change_of(was_active: bool) -> MoveModeChange {
    MoveModeChange {
        now_active: !was_active,
        save_position: was_active,
        ignore_cursor_events: was_active,
        focus: !was_active,
    }
}

/// Toggles move mode; `was_active` is the mode before the toggle.
pub fn move_mode_change(was_active: bool) -> (res: MoveModeChange)
    ensures
        res == move_mode_change_of(was_active),
        res.now_active == !was_active,
        res.save_position == was_active,
        res.ignore_cursor_events == was_active,
        res.focus == !was_active,
{
    if was_active {
        MoveModeChange {
            now_active: false,
            save_position: true,
            ignore_cursor_events: true,
            focus: false,
        }
    } else {
        MoveModeChange {
            now_active: true,
            save_position: false,
            ignore_cursor_events: false,
            focus: true,
        }
    }
}

/// What a tray menu item asks for.
#[derive(Clone, Copy, Debug, PartialEq, Eq, Structural)]
pub enum TrayCommand {
    ToggleMove,
    Nudge { dx: i32, dy: i32 },
    ResetPosition,
    Quit,
}

/// The command of the menu item with id `id`, if it is one of the tray's items.
pub open spec fn tray_command_of(id: Seq<char>) -> Option<TrayCommand> {
    if id == MENU_MOVE@ {
        Some(TrayCommand::ToggleMove)
    } else if id == MENU_NUDGE_LEFT@ {
        Some(TrayCommand::Nudge { dx: (-NUDGE_STEP) as i32, dy: 0 })
    } else if id == MENU_NUDGE_RIGHT@ {
        Some(TrayCommand::Nudge { dx: NUDGE_STEP, dy: 0 })
    } else if id == MENU_NUDGE_UP@ {
        Some(TrayCommand::Nudge { dx: 0, dy: (-NUDGE_STEP) as i32 })
    } else if id == MENU_NUDGE_DOWN@ {
        Some(TrayCommand::Nudge { dx: 0, dy: NUDGE_STEP })
    } else if id == MENU_RESET@ {
        Some(TrayCommand::ResetPosition)
    } else if id == MENU_QUIT@ {
        Some(TrayCommand::Quit)
    } else {
        None
    }
}

/// The tray's item ids are all different.
proof fn lemma_tray_ids_distinct()
    ensures
        MENU_MOVE@ == "move"@,
        MENU_NUDGE_LEFT@ == "nudge-left"@,
        MENU_NUDGE_RIGHT@ == "nudge-right"@,
        MENU_NUDGE_UP@ == "nudge-up"@,
        MENU_NUDGE_DOWN@ == "nudge-down"@,
        MENU_RESET@ == "reset"@,
        MENU_QUIT@ == "quit"@,
        "move"@ != "nudge-left"@ && "move"@ != "nudge-right"@ && "move"@ != "nudge-up"@
            && "move"@ != "nudge-down"@ && "move"@ != "reset"@ && "move"@ != "quit"@,
        "nudge-left"@ != "nudge-right"@ && "nudge-left"@ != "nudge-up"@ && "nudge-left"@
            != "nudge-down"@ && "nudge-left"@ != "reset"@ && "nudge-left"@ != "quit"@,
        "nudge-right"@ != "nudge-up"@ && "nudge-right"@ != "nudge-down"@ && "nudge-right"@
            != "reset"@ && "nudge-right"@ != "quit"@,
        "nudge-up"@ != "nudge-down"@ && "nudge-up"@ != "reset"@ && "nudge-up"@ != "quit"@,
        "nudge-down"@ != "reset"@ && "nudge-down"@ != "quit"@,
        "reset"@ != "quit"@,
{
    reveal_strlit("move");
    reveal_strlit("nudge-left");
    reveal_strlit("nudge-right");
    reveal_strlit("nudge-up");
    reveal_strlit("nudge-down");
    reveal_strlit("reset");
    reveal_strlit("quit");
    assert("move"@[0] != "quit"@[0]);
    assert("nudge-left"@[6] != "nudge-down"@[6]);
    assert("move"@.len() != "nudge-left"@.len());
    assert("move"@.len() != "nudge-right"@.len());
    assert("move"@.len() != "nudge-up"@.len());
    assert("move"@.len() != "reset"@.len());
    assert("nudge-left"@.len() != "nudge-right"@.len());
    assert("nudge-left"@.len() != "nudge-up"@.len());
    assert("nudge-left"@.len() != "reset"@.len());
    assert("nudge-left"@.len() != "quit"@.len());
    assert("nudge-right"@.len() != "nudge-up"@.len());
    assert("nudge-right"@.len() != "nudge-down"@.len());
    assert("nudge-right"@.len() != "reset"@.len());
    assert("nudge-right"@.len() != "quit"@.len());
    assert("nudge-up"@.len() != "nudge-down"@.len());
    assert("nudge-up"@.len() != "reset"@.len());
    assert("nudge-up"@.len() != "quit"@.len());
    assert("nudge-down"@.len() != "reset"@.len());
    assert("nudge-down"@.len() != "quit"@.len());
    assert("reset"@.len() != "quit"@.len());
}

/// Maps a tray menu item id to its command.
pub fn tray_command(id: &str) -> (res: Option<TrayCommand>)
    ensures
        res == tray_command_of(id@),
        res == Some(TrayCommand::ToggleMove) <==> id@ == "move"@,
        res == Some(TrayCommand::Nudge { dx: -10i32, dy: 0 }) <==> id@ == "nudge-left"@,
        res == Some(TrayCommand::Nudge { dx: 10, dy: 0 }) <==> id@ == "nudge-right"@,
        res == Some(TrayCommand::Nudge { dx: 0, dy: -10i32 }) <==> id@ == "nudge-up"@,
        res == Some(TrayCommand::Nudge { dx: 0, dy: 10 }) <==> id@ == "nudge-down"@,
        res == Some(TrayCommand::ResetPosition) <==> id@ == "reset"@,
        res == Some(TrayCommand::Quit) <==> id@ == "quit"@,
{
    proof {
        lemma_tray_ids_distinct();
    }
    if str_eq(id, MENU_MOVE) {
        Some(TrayCommand::ToggleMove)
    } else if str_eq(id, MENU_NUDGE_LEFT) {
        Some(TrayCommand::Nudge { dx: -NUDGE_STEP, dy: 0 })
    } else if str_eq(id, MENU_NUDGE_RIGHT) {
        Some(TrayCommand::Nudge { dx: NUDGE_STEP, dy: 0 })
    } else if str_eq(id, MENU_NUDGE_UP) {
        Some(TrayCommand::Nudge { dx: 0, dy: -NUDGE_STEP })
    } else if str_eq(id, MENU_NUDGE_DOWN) {
        Some(TrayCommand::Nudge { dx: 0, dy: NUDGE_STEP })
    } else if str_eq(id, MENU_RESET) {
        Some(TrayCommand::ResetPosition)
    } else if str_eq(id, MENU_QUIT) {
        Some(TrayCommand::Quit)
    } else {
        None
    }
}

/// Whether move mode is on, as the tray menu tracks it.
#[derive(Clone, Copy, Debug, PartialEq, Eq, Structural)]
pub struct TrayState {
    pub move_active: bool,
}

impl TrayState {
    /// Move mode off.
    pub fn new() -> (res: Self)
        ensures
            !res.move_active,
    {
        TrayState { move_active: false }
    }

    /// The "Move Overlay" check item was clicked and now reads `is_checked`, so the mode
    /// before the click was `!is_checked`.
    pub fn on_move_clicked(&mut self, is_checked: bool) -> (res: MoveModeChange)
        ensures
            res == move_mode_change_of(!is_checked),
            final(self).move_active == res.now_active,
    {
        let change = move_mode_change(!is_checked);
        self.move_active = change.now_active;
        change
    }

    /// "Reset Position" was clicked; returns whether move mode has to be left (make the
    /// window click-through, send `move-mode` false and uncheck the item).
    pub fn on_reset(&mut self) -> (res: bool)
        ensures
            res == old(self).move_active,
            !final(self).move_active,
    {
        let leave = self.move_active;
        self.move_active = false;
        leave
    }
}

/// Toggling move mode twice comes back to the mode started from.
pub proof fn lemma_toggle_twice(was_active: bool)
    ensures
        move_mode_change_of(move_mode_change_of(was_active).now_active).now_active == was_active,
{
}

/// Nudging one way and then back restores the position.
pub proof fn lemma_nudge_back(pos: OverlayPosition, dx: i32, dy: i32)
    requires
        i32::MIN <= pos.x + dx <= i32::MAX,
        i32::MIN <= pos.y + dy <= i32::MAX,
        dx > i32::MIN,
        dy > i32::MIN,
    ensures
        ({
            let there = OverlayPosition { x: (pos.x + dx) as i32, y: (pos.y + dy) as i32 };
            &&& i32::MIN <= there.x + (-dx) <= i32::MAX
            &&& i32::MIN <= there.y + (-dy) <= i32::MAX
            &&& OverlayPosition { x: (there.x - dx) as i32, y: (there.y - dy) as i32 } == pos
        }),
{
}

} // verus!
