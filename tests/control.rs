use zeal::cursor_control::{CursorControl, InputMode};
use zeal::forces::ActiveForces;
use zeal::history::ControlHistory;
use zeal::input::arrow_keys_to_vec;
use zeal::text::capitalize;

#[test]
fn transient_forces_are_taken_once() {
    let mut forces = ActiveForces::new();
    forces.add_force(1.5f32);
    forces.add_force(-2.0f32);
    assert_eq!(forces.len(), 2);
    assert_eq!(forces.take_for_tick(), vec![1.5f32, -2.0f32]);
    assert_eq!(forces.len(), 0);
    assert!(forces.take_for_tick().is_empty());
    forces.add_force(3.0f32);
    assert_eq!(forces.take_for_tick(), vec![3.0f32]);
}

#[test]
fn history_drops_oldest_beyond_bound() {
    let mut h = ControlHistory::with_capacity(3);
    h.extend(vec![1, 2]);
    assert_eq!(h.events().iter().copied().collect::<Vec<i32>>(), vec![1, 2]);
    h.extend(vec![3, 4]);
    assert_eq!(h.events().iter().copied().collect::<Vec<i32>>(), vec![2, 3, 4]);
    h.extend(vec![5, 6, 7, 8]);
    assert_eq!(h.events().iter().copied().collect::<Vec<i32>>(), vec![5, 6, 7, 8]);
}

#[test]
fn history_extend_with_len_makes_room_for_len() {
    let mut h = ControlHistory::with_capacity(4);
    h.extend(vec![1, 2, 3]);
    h.extend_with_len(vec![9], 2);
    assert_eq!(h.events().iter().copied().collect::<Vec<i32>>(), vec![2, 3, 9]);
    let d: ControlHistory<u8> = ControlHistory::default();
    assert!(d.events().is_empty());
}

#[test]
fn arrow_keys_decode_to_direction() {
    assert_eq!(arrow_keys_to_vec(false, true, false, false), Some((1, 0)));
    assert_eq!(arrow_keys_to_vec(true, false, true, false), Some((-1, -1)));
    assert_eq!(arrow_keys_to_vec(false, false, false, true), Some((0, 1)));
    assert_eq!(arrow_keys_to_vec(true, true, false, false), None);
    assert_eq!(arrow_keys_to_vec(false, false, false, false), None);
    assert_eq!(arrow_keys_to_vec(true, true, true, false), Some((0, -1)));
}

#[test]
fn input_mode_names() {
    assert_eq!(InputMode::Travel.as_str(), "travel");
    assert_eq!(InputMode::Edit(3).as_str(), "edit");
    assert_eq!(InputMode::default(), InputMode::Travel);
    let mut c = CursorControl::default();
    c.selected = Some(2);
    c.change_mode(InputMode::Edit(2));
    assert_eq!(c.input_mode, InputMode::Edit(2));
    assert_eq!(c.selected, Some(2));
}

#[test]
fn capitalize_first_character() {
    assert_eq!(capitalize("travel"), "Travel");
    assert_eq!(capitalize("edit mode"), "Edit mode");
    assert_eq!(capitalize(""), "");
    assert_eq!(capitalize("ßa"), "SSa");
    assert_eq!(capitalize("Already"), "Already");
}
