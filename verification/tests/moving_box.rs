use timesteps::moving_box::Input;

#[test]
fn input_from_single_keys() {
    assert_eq!(Input::default(), Input::Neutral);
    assert_eq!(Input::left(true), Input::Left);
    assert_eq!(Input::left(false), Input::Neutral);
    assert_eq!(Input::right(true), Input::Right);
    assert_eq!(Input::right(false), Input::Neutral);
}

#[test]
fn input_from_both_keys() {
    assert_eq!(Input::xor(true, false), Input::Left);
    assert_eq!(Input::xor(false, true), Input::Right);
    assert_eq!(Input::xor(true, true), Input::Neutral);
    assert_eq!(Input::xor(false, false), Input::Neutral);
}

#[test]
fn held_direction_wins_until_its_key_is_let_go() {
    assert_eq!(Input::Left.handle_input(true, true), Input::Left);
    assert_eq!(Input::Left.handle_input(true, false), Input::Left);
    assert_eq!(Input::Left.handle_input(false, true), Input::Right);
    assert_eq!(Input::Left.handle_input(false, false), Input::Neutral);
    assert_eq!(Input::Right.handle_input(true, true), Input::Right);
    assert_eq!(Input::Right.handle_input(false, true), Input::Right);
    assert_eq!(Input::Right.handle_input(true, false), Input::Left);
    assert_eq!(Input::Right.handle_input(false, false), Input::Neutral);
    assert_eq!(Input::Neutral.handle_input(true, false), Input::Left);
    assert_eq!(Input::Neutral.handle_input(false, true), Input::Right);
    assert_eq!(Input::Neutral.handle_input(true, true), Input::Neutral);
    assert_eq!(Input::Neutral.handle_input(false, false), Input::Neutral);
}
