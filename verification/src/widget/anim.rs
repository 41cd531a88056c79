//! The decisions of the hover and press micro-interactions: when a widget
//! counts as pressed or hovered, when its press message is sent, when the
//! springs' clocks restart, and which target each spring is given. The
//! springs themselves run outside the library.
use vstd::prelude::*;

verus! {

/// The pointer events the micro-interactions react to.
#[derive(Debug, Clone, Copy, PartialEq, Eq, Structural)]
pub enum PointerEvent {
    /// The left button went down, or a finger touched.
    Pressed,
    /// The left button went up, or a finger lifted.
    Released,
    /// The cursor left the window.
    CursorLeft,
    /// A frame is about to be drawn.
    Redraw,
}

/// Whether the widget is pressed and whether the cursor is over it.
#[derive(Debug, Clone, Copy, PartialEq, Eq, Structural)]
pub struct PointerState {
    pub pressed: bool,
    pub hovered: bool,
}

/// The outcome of one event: the new state, whether the widget's press
/// message is sent, and whether the springs' clocks restart.
#[derive(Debug, Clone, Copy, PartialEq, Eq, Structural)]
pub struct PointerStep {
    pub state: PointerState,
    pub publish: bool,
    pub restart_springs: bool,
}

/// A press holds the widget down; a release lets it go and sends its message
/// when it was held and the cursor is over it; leaving the window ends the
/// hover; each frame takes the hover from the cursor. The clocks restart
/// whenever the state changes.
pub open spec fn pointer_step_spec(s: PointerState, e: PointerEvent, cursor_over: bool) -> PointerStep {
    match e {
        PointerEvent::Pressed => PointerStep {
            state: PointerState { pressed: true, ..s },
            publish: false,
            restart_springs: !s.pressed,
        },
        PointerEvent::Released => PointerStep {
            state: PointerState { pressed: false, ..s },
            publish: s.pressed && cursor_over,
            restart_springs: s.pressed,
        },
        PointerEvent::CursorLeft => PointerStep {
            state: PointerState { hovered: false, ..s },
            publish: false,
            restart_springs: s.hovered,
        },
        PointerEvent::Redraw => PointerStep {
            state: PointerState { hovered: cursor_over, ..s },
            publish: false,
            restart_springs: s.hovered != cursor_over,
        },
    }
}

/// A widget at rest: neither pressed nor hovered.
pub fn pointer_rest() -> (r: PointerState)
    ensures
        !r.pressed,
        !r.hovered,
{
    PointerState { pressed: false, hovered: false }
}

/// The next state of a widget after an event, with `cursor_over` telling
/// whether the cursor is over the widget.
pub fn pointer_step(s: PointerState, e: PointerEvent, cursor_over: bool) -> (r: PointerStep)
    ensures
        r == pointer_step_spec(s, e, cursor_over),
{
    match e {
        PointerEvent::Pressed => PointerStep {
            state: PointerState { pressed: true, hovered: s.hovered },
            publish: false,
            restart_springs: !s.pressed,
        },
        PointerEvent::Released => PointerStep {
            state: PointerState { pressed: false, hovered: s.hovered },
            publish: s.pressed && cursor_over,
            restart_springs: s.pressed,
        },
        PointerEvent::CursorLeft => PointerStep {
            state: PointerState { pressed: s.pressed, hovered: false },
            publish: false,
            restart_springs: s.hovered,
        },
        PointerEvent::Redraw => PointerStep {
            state: PointerState { pressed: s.pressed, hovered: cursor_over },
            publish: false,
            restart_springs: s.hovered != cursor_over,
        },
    }
}

/// A press message is sent at most once per press: only a release sends it,
/// only over the widget, and only after a press; the release ends the press,
/// so a second release sends nothing until the widget is pressed again.
pub proof fn lemma_one_message_per_press(s: PointerState, over1: bool, e: PointerEvent, over2: bool)
    requires
        e != PointerEvent::Pressed,
    ensures
        pointer_step_spec(s, PointerEvent::Released, over1).publish ==> s.pressed && over1,
        !pointer_step_spec(pointer_step_spec(s, PointerEvent::Released, over1).state, e, over2).publish,
{
}

/// The clocks restart exactly when the state changes.
pub proof fn lemma_restart_iff_changed(s: PointerState, e: PointerEvent, cursor_over: bool)
    ensures
        pointer_step_spec(s, e, cursor_over).restart_springs <==> pointer_step_spec(s, e, cursor_over).state != s,
{
}

/// The kinds of micro-interaction.
#[derive(Debug, Clone, Copy, PartialEq, Eq, Structural)]
pub enum PresetKind {
    /// Scale up and lift on hover, press in on click, with its own amounts.
    Lift,
    /// Scale and lift by fixed amounts, on a spring of one's choosing.
    Spring,
    /// A glow on hover; no movement.
    Glow,
    /// A fade; no movement.
    Fade,
}

/// The value a spring is sent to: the pressed one, the hovered one, or the
/// resting one.
#[derive(Debug, Clone, Copy, PartialEq, Eq, Structural)]
pub enum TargetLevel {
    Press,
    Hover,
    Rest,
}

pub open spec fn scale_level(kind: PresetKind, hovered: bool, pressed: bool) -> TargetLevel {
    if kind == PresetKind::Glow || kind == PresetKind::Fade {
        TargetLevel::Rest
    } else if pressed {
        TargetLevel::Press
    } else if hovered {
        TargetLevel::Hover
    } else {
        TargetLevel::Rest
    }
}

pub open spec fn lift_level(kind: PresetKind, hovered: bool, pressed: bool) -> TargetLevel {
    if kind == PresetKind::Glow || kind == PresetKind::Fade {
        TargetLevel::Rest
    } else if hovered && !pressed {
        TargetLevel::Hover
    } else {
        TargetLevel::Rest
    }
}

/// The targets of the scale spring and of the lift spring: a press wins
/// over a hover for the scale, the lift rises only on a hover without a
/// press, and a glow or a fade keeps both at rest.
pub fn spring_targets(kind: PresetKind, hovered: bool, pressed: bool) -> (r: (TargetLevel, TargetLevel))
    ensures
        r == (scale_level(kind, hovered, pressed), lift_level(kind, hovered, pressed)),
{
    match kind {
        PresetKind::Lift | PresetKind::Spring => {
            let scale = if pressed {
                TargetLevel::Press
            } else if hovered {
                TargetLevel::Hover
            } else {
                TargetLevel::Rest
            };
            let lift = if hovered && !pressed { TargetLevel::Hover } else { TargetLevel::Rest };
            (scale, lift)
        },
        PresetKind::Glow | PresetKind::Fade => (TargetLevel::Rest, TargetLevel::Rest),
    }
}

} // verus!
