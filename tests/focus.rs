use gr_playground::focus::{focus, InputFocus, InteractionKind};

fn inputs(ids: &[u64]) -> Vec<InputFocus> {
    ids.iter().map(|&entity| InputFocus { entity, inactive: true }).collect()
}

#[test]
fn press_activates_only_the_pressed_input() {
    let mut fields = inputs(&[3, 7, 9]);
    let pressed = focus(&vec![(7, InteractionKind::Pressed)], &mut fields);
    assert!(pressed);
    assert_eq!(fields.iter().map(|f| f.inactive).collect::<Vec<_>>(), vec![true, false, true]);
    assert_eq!(fields.iter().map(|f| f.entity).collect::<Vec<_>>(), vec![3, 7, 9]);
}

#[test]
fn hover_and_idle_change_nothing() {
    let mut fields = vec![
        InputFocus { entity: 1, inactive: false },
        InputFocus { entity: 2, inactive: true },
    ];
    let before = fields.clone();
    let pressed = focus(
        &vec![(2, InteractionKind::Hovered), (1, InteractionKind::Idle)],
        &mut fields,
    );
    assert!(!pressed);
    assert_eq!(fields, before);
}

#[test]
fn press_outside_the_inputs_deactivates_all() {
    let mut fields = vec![
        InputFocus { entity: 1, inactive: false },
        InputFocus { entity: 2, inactive: true },
    ];
    assert!(focus(&vec![(42, InteractionKind::Pressed)], &mut fields));
    assert!(fields.iter().all(|f| f.inactive));
}

#[test]
fn last_press_of_the_frame_wins() {
    let mut fields = inputs(&[1, 2, 3]);
    let events = vec![
        (1, InteractionKind::Pressed),
        (3, InteractionKind::Pressed),
        (2, InteractionKind::Hovered),
    ];
    assert!(focus(&events, &mut fields));
    assert_eq!(fields.iter().map(|f| f.inactive).collect::<Vec<_>>(), vec![true, true, false]);
}

#[test]
fn focusing_twice_is_focusing_once() {
    let events = vec![(2, InteractionKind::Pressed)];
    let mut fields = vec![
        InputFocus { entity: 1, inactive: false },
        InputFocus { entity: 2, inactive: true },
    ];
    focus(&events, &mut fields);
    let once = fields.clone();
    focus(&events, &mut fields);
    assert_eq!(fields, once);
}

#[test]
fn no_events_no_inputs() {
    let mut fields: Vec<InputFocus> = Vec::new();
    assert!(!focus(&Vec::new(), &mut fields));
    assert!(fields.is_empty());
}
