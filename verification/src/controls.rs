//! The client's controls: which held keys make up a tick of ship input.

use vstd::prelude::*;
use crate::protocol::ShipInput;

verus! {

/// The keys and buttons read for one tick.
#[derive(Debug, Clone, Copy, PartialEq, Eq, Structural)]
pub struct HeldKeys {
    pub w: bool,
    pub up: bool,
    pub s: bool,
    pub down: bool,
    pub a: bool,
    pub left: bool,
    pub d: bool,
    pub right: bool,
    pub shift_left: bool,
    pub shift_right: bool,
    pub space: bool,
    pub mouse_left: bool,
}

/// The input a player at the keyboard sends: W/Up thrust, S/Down brake,
/// A/Left and D/Right turn, Shift the ability, Space, the left mouse button
/// or a tap since the last tick fire; aim and cursor ride along.
pub open spec fn spec_keyboard_input(keys: HeldKeys, tapped: bool, aim: u16, cursor: (i16, i16)) -> ShipInput {
    ShipInput {
        thrust: keys.w || keys.up,
        brake: keys.s || keys.down,
        turn_left: keys.a || keys.left,
        turn_right: keys.d || keys.right,
        fire: keys.space || keys.mouse_left || tapped,
        ability: keys.shift_left || keys.shift_right,
        aim,
        cursor_x: cursor.0,
        cursor_y: cursor.1,
    }
}

/// The documented controls: Space, the left mouse button or a tap fire;
/// W or Up thrust; S or Down brake; A or Left turn left; D or Right turn
/// right; either Shift uses the ability; a key not held does nothing.
pub proof fn lemma_keys_drive_the_ship(keys: HeldKeys, tapped: bool, aim: u16, cursor: (i16, i16))
    ensures
        ({
            let r = spec_keyboard_input(keys, tapped, aim, cursor);
            &&& keys.space ==> r.fire
            &&& keys.mouse_left ==> r.fire
            &&& tapped ==> r.fire
            &&& !keys.space && !keys.mouse_left && !tapped ==> !r.fire
            &&& (keys.w || keys.up) ==> r.thrust
            &&& !keys.w && !keys.up ==> !r.thrust
            &&& (keys.s || keys.down) ==> r.brake
            &&& !keys.s && !keys.down ==> !r.brake
            &&& (keys.a || keys.left) ==> r.turn_left
            &&& !keys.a && !keys.left ==> !r.turn_left
            &&& (keys.d || keys.right) ==> r.turn_right
            &&& !keys.d && !keys.right ==> !r.turn_right
            &&& (keys.shift_left || keys.shift_right) ==> r.ability
            &&& !keys.shift_left && !keys.shift_right ==> !r.ability
            &&& r.aim == aim && r.cursor_x == cursor.0 && r.cursor_y == cursor.1
        }),
{
}

/// This tick's input: a scripted input wins, then the bot's, then the
/// keyboard (all released when there is no keyboard). A fire tap is
/// consumed by the keyboard input that reads it. `aim` and `cursor` are
/// already quantized.
pub fn buffer_input(
    scripted: Option<ShipInput>,
    bot: bool,
    keys: Option<HeldKeys>,
    tapped: &mut bool,
    aim: u16,
    cursor: (i16, i16),
) -> (r: ShipInput)
    ensures
        scripted matches Some(s) ==> r == s && *final(tapped) == *old(tapped),
        scripted is None && bot ==> r == (ShipInput {
            thrust: true,
            brake: false,
            turn_left: true,
            turn_right: false,
            fire: true,
            ability: false,
            aim: 0,
            cursor_x: 0,
            cursor_y: 0,
        }) && *final(tapped) == *old(tapped),
        scripted is None && !bot && keys is None ==> r == (ShipInput {
            thrust: false,
            brake: false,
            turn_left: false,
            turn_right: false,
            fire: false,
            ability: false,
            aim: 0,
            cursor_x: 0,
            cursor_y: 0,
        }) && *final(tapped) == *old(tapped),
        scripted is None && !bot ==> (keys matches Some(k) ==> r == spec_keyboard_input(
            k,
            *old(tapped),
            aim,
            cursor,
        ) && *final(tapped) == false),
        scripted is None && !bot ==> (keys matches Some(k) ==> {
            &&& r.fire <==> (k.space || k.mouse_left || *old(tapped))
            &&& r.thrust <==> (k.w || k.up)
            &&& r.brake <==> (k.s || k.down)
            &&& r.turn_left <==> (k.a || k.left)
            &&& r.turn_right <==> (k.d || k.right)
            &&& r.ability <==> (k.shift_left || k.shift_right)
            &&& r.aim == aim && r.cursor_x == cursor.0 && r.cursor_y == cursor.1
        }),
{
    proof {
        if let Some(k) = keys {
            lemma_keys_drive_the_ship(k, *old(tapped), aim, cursor);
        }
    }
    if let Some(s) = scripted {
        return s;
    }
    if bot {
        return ShipInput::bot();
    }
    let k = match keys {
        Some(k) => k,
        None => return ShipInput::default(),
    };
    let input = ShipInput {
        thrust: k.w || k.up,
        brake: k.s || k.down,
        turn_left: k.a || k.left,
        turn_right: k.d || k.right,
        fire: k.space || k.mouse_left || *tapped,
        ability: k.shift_left || k.shift_right,
        aim,
        cursor_x: cursor.0,
        cursor_y: cursor.1,
    };
    *tapped = false;
    input
}

} // verus!
