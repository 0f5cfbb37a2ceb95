use vstd::prelude::*;

verus! {

/// What the player can do, whatever device it comes from.
#[derive(Clone, Copy, Debug, PartialEq, Eq, Hash, Structural)]
pub enum InputAction {
    Move,
    Look,
    Select,
}

/// The device that the player is using.
#[derive(Clone, Copy, Debug, PartialEq, Eq, Hash, Structural)]
pub enum ActiveInput {
    MouseKeyboard,
    Gamepad,
}

impl Default for ActiveInput {
    fn default() -> (r: ActiveInput)
        ensures
            r == ActiveInput::MouseKeyboard,
    {
        ActiveInput::MouseKeyboard
    }
}

/// A physical input that an action can be bound to.
#[derive(Clone, Copy, Debug, PartialEq, Eq, Hash, Structural)]
pub enum InputBinding {
    LeftStick,
    RightStick,
    RightTrigger,
    Wasd,
    ArrowKeys,
    Space,
}

/// One binding of an action to an input.
#[derive(Clone, Copy, Debug, PartialEq, Eq, Hash, Structural)]
pub struct ActionBinding {
    pub action: InputAction,
    pub binding: InputBinding,
}

pub open spec fn bind(action: InputAction, binding: InputBinding) -> ActionBinding {
    ActionBinding { action, binding }
}

/// The default bindings: gamepad first, then mouse and keyboard.
pub open spec fn default_bindings() -> Seq<ActionBinding> {
    seq![
        bind(InputAction::Move, InputBinding::LeftStick),
        bind(InputAction::Look, InputBinding::RightStick),
        bind(InputAction::Select, InputBinding::RightTrigger),
        bind(InputAction::Move, InputBinding::Wasd),
        bind(InputAction::Look, InputBinding::ArrowKeys),
        bind(InputAction::Select, InputBinding::Space),
    ]
}

impl InputAction {
    /// The bindings every player starts with.
    pub fn default_input_map() -> (r: Vec<ActionBinding>)
        ensures
            r@ == default_bindings(),
    {
        let r = vec![
            ActionBinding { action: InputAction::Move, binding: InputBinding::LeftStick },
            ActionBinding { action: InputAction::Look, binding: InputBinding::RightStick },
            ActionBinding { action: InputAction::Select, binding: InputBinding::RightTrigger },
            ActionBinding { action: InputAction::Move, binding: InputBinding::Wasd },
            ActionBinding { action: InputAction::Look, binding: InputBinding::ArrowKeys },
            ActionBinding { action: InputAction::Select, binding: InputBinding::Space },
        ];
        assert(r@ =~= default_bindings());
        r
    }
}

/// The kinds of gamepad event.
#[derive(Clone, Copy, Debug, PartialEq, Eq, Hash, Structural)]
pub enum GamepadEventKind {
    Connection,
    Button,
    Axis,
}

pub open spec fn is_gamepad_use(event: GamepadEventKind) -> bool {
    event == GamepadEventKind::Button || event == GamepadEventKind::Axis
}

/// While mouse and keyboard are active, a press or a stick movement on a
/// gamepad makes the gamepad the active device; connections do not.
pub fn activate_gamepad(next_input_state: &mut Option<ActiveInput>, events: &Vec<GamepadEventKind>)
    ensures
        *final(next_input_state) == (if exists|i: int|
            0 <= i < events@.len() && is_gamepad_use(#[trigger] events@[i]) {
            Some(ActiveInput::Gamepad)
        } else {
            *old(next_input_state)
        }),
{
    let mut i: usize = 0;
    while i < events.len()
        invariant
            i <= events@.len(),
            *next_input_state == *old(next_input_state),
            forall|j: int| 0 <= j < i ==> !is_gamepad_use(#[trigger] events@[j]),
        decreases events.len() - i,
    {
        if events[i] == GamepadEventKind::Button || events[i] == GamepadEventKind::Axis {
            *next_input_state = Some(ActiveInput::Gamepad);
            return;
        }
        i = i + 1;
    }
}

/// While a gamepad is active, any keyboard event makes mouse and keyboard
/// the active device.
pub fn activate_mkb(next_input_state: &mut Option<ActiveInput>, keyboard_events: usize)
    ensures
        *final(next_input_state) == (if keyboard_events > 0 {
            Some(ActiveInput::MouseKeyboard)
        } else {
            *old(next_input_state)
        }),
{
    let mut i: usize = 0;
    while i < keyboard_events
        invariant
            i <= keyboard_events,
            *next_input_state == (if i > 0 {
                Some(ActiveInput::MouseKeyboard)
            } else {
                *old(next_input_state)
            }),
        decreases keyboard_events - i,
    {
        *next_input_state = Some(ActiveInput::MouseKeyboard);
        i = i + 1;
    }
}

} // verus!
