use escape_room::puzzle::{
    advance_index, dial_solved, press_digit, puzzle_char, retreat_index, NUM_PUZZLE_CHARACTERS,
};

#[test]
fn alphabet_is_the_fixed_twelve_characters() {
    let expected = ['A', 'B', 'D', 'E', 'H', 'I', 'N', 'O', 'S', 'R', 'P', 'U'];
    for (i, c) in expected.iter().enumerate() {
        assert_eq!(puzzle_char(i), *c);
    }
}

#[test]
fn twelve_advances_return_every_slot_to_its_character() {
    for start in 0..NUM_PUZZLE_CHARACTERS {
        let mut slot = start;
        for _ in 0..NUM_PUZZLE_CHARACTERS {
            slot = advance_index(slot);
        }
        assert_eq!(slot, start);
        assert_eq!(puzzle_char(slot), puzzle_char(start));
    }
}

#[test]
fn advance_wraps_at_the_end_of_the_alphabet() {
    assert_eq!(advance_index(0), 1);
    assert_eq!(advance_index(10), 11);
    assert_eq!(advance_index(11), 0);
}

#[test]
fn retreat_wraps_at_the_start_of_the_alphabet() {
    assert_eq!(retreat_index(1), 0);
    assert_eq!(retreat_index(0), 11);
    assert_eq!(retreat_index(11), 10);
}

#[test]
fn retreat_undoes_advance() {
    for i in 0..NUM_PUZZLE_CHARACTERS {
        assert_eq!(retreat_index(advance_index(i)), i);
        assert_eq!(advance_index(retreat_index(i)), i);
    }
}

#[test]
fn dialing_the_target_number_solves_the_phone() {
    let mut history: Vec<usize> = Vec::new();
    for d in [8, 5, 3, 1, 7, 6, 0, 2, 5] {
        press_digit(&mut history, d);
    }
    assert!(dial_solved(&history));
}

#[test]
fn a_tenth_press_evicts_the_oldest_digit() {
    let mut history: Vec<usize> = Vec::new();
    for d in [4, 8, 5, 3, 1, 7, 6, 0, 2, 5] {
        press_digit(&mut history, d);
    }
    assert_eq!(history.len(), 9);
    assert!(dial_solved(&history));
}

#[test]
fn one_wrong_digit_leaves_the_phone_unsolved() {
    let mut history: Vec<usize> = Vec::new();
    for d in [8, 5, 3, 1, 7, 6, 0, 2, 9] {
        press_digit(&mut history, d);
    }
    assert!(!dial_solved(&history));
}

#[test]
fn a_short_history_is_never_solved() {
    let mut history: Vec<usize> = Vec::new();
    for d in [8, 5, 3, 1, 7, 6, 0, 2] {
        press_digit(&mut history, d);
    }
    assert!(!dial_solved(&history));
}
