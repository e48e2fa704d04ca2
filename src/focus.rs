//! Keyboard focus among the text inputs of the side panel.
//!
//! When a widget is pressed, the text input that was pressed becomes the one
//! active input and every other input turns inactive. Hovering or leaving a
//! widget changes nothing.
use vstd::prelude::*;

verus! {

/// What the pointer did to a widget during the last frame.
#[derive(Clone, Copy, Debug, PartialEq, Eq, Structural)]
pub enum InteractionKind {
    Pressed,
    Hovered,
    Idle,
}

/// A text input, named by its entity id, and whether it ignores typing.
#[derive(Clone, Copy, Debug, PartialEq, Eq, Structural)]
pub struct InputFocus {
    pub entity: u64,
    pub inactive: bool,
}

/// The entity of the last press among `events`, if any widget was pressed.
pub open spec fn last_press(events: Seq<(u64, InteractionKind)>) -> Option<u64>
    decreases events.len(),
{
    if events.len() == 0 {
        None
    } else if events.last().1 == InteractionKind::Pressed {
        Some(events.last().0)
    } else {
        last_press(events.drop_last())
    }
}

/// The inputs after a press on `pressed`: only the pressed one stays active.
pub open spec fn focused_on(inputs: Seq<InputFocus>, pressed: u64) -> Seq<InputFocus> {
    Seq::new(
        inputs.len(),
        |i: int| InputFocus { entity: inputs[i].entity, inactive: inputs[i].entity != pressed },
    )
}

/// The inputs after the interactions `events` of one frame.
pub open spec fn after_events(
    events: Seq<(u64, InteractionKind)>,
    inputs: Seq<InputFocus>,
) -> Seq<InputFocus> {
    match last_press(events) {
        Some(p) => focused_on(inputs, p),
        None => inputs,
    }
}

/// Hands the focus to the pressed input. Returns whether anything was pressed,
/// that is, whether the inputs were rewritten.
pub fn focus(events: &Vec<(u64, InteractionKind)>, inputs: &mut Vec<InputFocus>) -> (pressed: bool)
    ensures
        pressed == (last_press(events@) is Some),
        final(inputs)@ == after_events(events@, old(inputs)@),
{
    let mut pressed = false;
    let mut k: usize = 0;
    while k < events.len()
        invariant
            0 <= k <= events.len(),
            pressed == (last_press(events@.take(k as int)) is Some),
            inputs@ == after_events(events@.take(k as int), old(inputs)@),
        decreases events.len() - k,
    {
        let (pressed_entity, kind) = events[k];
        proof {
            assert(events@.take(k + 1).drop_last() == events@.take(k as int));
        }
        if kind == InteractionKind::Pressed {
            let ghost before = inputs@;
            let mut j: usize = 0;
            while j < inputs.len()
                invariant
                    0 <= j <= inputs.len(),
                    inputs@.len() == before.len(),
                    forall|i: int|
                        0 <= i < j ==> inputs@[i] == focused_on(before, pressed_entity)[i],
                    forall|i: int| j <= i < inputs@.len() ==> inputs@[i] == before[i],
                decreases inputs.len() - j,
            {
                let entity = inputs[j].entity;
                inputs.set(j, InputFocus { entity, inactive: entity != pressed_entity });
                j += 1;
            }
            proof {
                lemma_refocus(before, old(inputs)@, events@.take(k as int), pressed_entity);
                assert(inputs@ =~= focused_on(before, pressed_entity));
            }
            pressed = true;
        }
        k += 1;
    }
    proof {
        assert(events@.take(events.len() as int) =~= events@);
    }
    pressed
}

/// Focusing twice is focusing on the later press: which input held the focus
/// before does not matter.
proof fn lemma_refocus(
    before: Seq<InputFocus>,
    start: Seq<InputFocus>,
    events: Seq<(u64, InteractionKind)>,
    p: u64,
)
    requires
        before == after_events(events, start),
    ensures
        focused_on(before, p) =~= focused_on(start, p),
{
}

/// Running the focus stage a second time with the same interactions leaves
/// the inputs as the first run left them.
pub proof fn focus_is_idempotent(events: Seq<(u64, InteractionKind)>, inputs: Seq<InputFocus>)
    ensures
        after_events(events, after_events(events, inputs)) == after_events(events, inputs),
{
    match last_press(events) {
        Some(p) => {
            assert(focused_on(focused_on(inputs, p), p) =~= focused_on(inputs, p));
        },
        None => {},
    }
}

} // verus!
