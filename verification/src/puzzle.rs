//! Puzzle models: rotating letter wheels over a fixed twelve-character
//! alphabet, and the rotary-phone dial history.
//!
//! A wheel slot stores an index into the alphabet; advancing or retreating a
//! slot steps the index modulo the alphabet length. The three-slot keypad
//! puzzle is solved when its wheels spell "SEE". The dial history is a bounded
//! window of the most recent nine pressed digits, solved when the whole
//! window matches a fixed nine-digit number.

use vstd::prelude::*;

verus! {

/// Number of characters a wheel can show.
pub const NUM_PUZZLE_CHARACTERS: usize = 12;

/// Most recent digit presses the dial history keeps.
pub const DIAL_HISTORY_LIMIT: usize = 9;

/// The fixed, ordered wheel alphabet.
pub open spec fn spec_puzzle_char(i: int) -> char {
    if i == 0 {
        'A'
    } else if i == 1 {
        'B'
    } else if i == 2 {
        'D'
    } else if i == 3 {
        'E'
    } else if i == 4 {
        'H'
    } else if i == 5 {
        'I'
    } else if i == 6 {
        'N'
    } else if i == 7 {
        'O'
    } else if i == 8 {
        'S'
    } else if i == 9 {
        'R'
    } else if i == 10 {
        'P'
    } else {
        'U'
    }
}

/// The character a wheel slot with the given alphabet index shows.
pub fn puzzle_char(index: usize) -> (c: char)
    requires
        index < NUM_PUZZLE_CHARACTERS,
    ensures
        c == spec_puzzle_char(index as int),
{
    match index {
        0 => 'A',
        1 => 'B',
        2 => 'D',
        3 => 'E',
        4 => 'H',
        5 => 'I',
        6 => 'N',
        7 => 'O',
        8 => 'S',
        9 => 'R',
        10 => 'P',
        _ => 'U',
    }
}

/// Index reached by turning a wheel one step forward.
pub open spec fn spec_advance_index(i: int) -> int {
    (i + 1) % (NUM_PUZZLE_CHARACTERS as int)
}

/// Index reached by turning a wheel one step backward.
pub open spec fn spec_retreat_index(i: int) -> int {
    (i + 11) % (NUM_PUZZLE_CHARACTERS as int)
}

/// Turn a wheel slot one step forward, wrapping at the end of the alphabet.
pub fn advance_index(i: usize) -> (r: usize)
    requires
        i < NUM_PUZZLE_CHARACTERS,
    ensures
        r < NUM_PUZZLE_CHARACTERS,
        r == spec_advance_index(i as int),
{
    if i + 1 == NUM_PUZZLE_CHARACTERS {
        0
    } else {
        i + 1
    }
}

/// Turn a wheel slot one step backward, wrapping at the start of the alphabet.
pub fn retreat_index(i: usize) -> (r: usize)
    requires
        i < NUM_PUZZLE_CHARACTERS,
    ensures
        r < NUM_PUZZLE_CHARACTERS,
        r == spec_retreat_index(i as int),
{
    if i == 0 {
        NUM_PUZZLE_CHARACTERS - 1
    } else {
        i - 1
    }
}

/// The index a wheel shows after `n` forward steps.
pub open spec fn spec_advance_times(i: int, n: nat) -> int
    decreases n,
{
    if n == 0 {
        i
    } else {
        spec_advance_index(spec_advance_times(i, (n - 1) as nat))
    }
}

/// Stepping a wheel forward `n` times lands on the start plus `n`, modulo the
/// alphabet length.
proof fn lemma_advance_times_mod(i: int, n: nat)
    requires
        0 <= i < NUM_PUZZLE_CHARACTERS,
    ensures
        spec_advance_times(i, n) == (i + n) % (NUM_PUZZLE_CHARACTERS as int),
    decreases n,
{
    if n > 0 {
        lemma_advance_times_mod(i, (n - 1) as nat);
    }
}

/// A full period of twelve forward steps returns a wheel slot to its original
/// index, and so to its original character.
pub proof fn lemma_wheel_full_period(i: int)
    requires
        0 <= i < NUM_PUZZLE_CHARACTERS,
    ensures
        spec_advance_times(i, NUM_PUZZLE_CHARACTERS as nat) == i,
        spec_puzzle_char(spec_advance_times(i, NUM_PUZZLE_CHARACTERS as nat))
            == spec_puzzle_char(i),
{
    lemma_advance_times_mod(i, NUM_PUZZLE_CHARACTERS as nat);
}

/// Whether a three-slot wheel state spells "SEE".
pub open spec fn spec_keypad_solved(slots: Seq<usize>) -> bool {
    slots.len() == 3 && slots[0] < NUM_PUZZLE_CHARACTERS && slots[1] < NUM_PUZZLE_CHARACTERS
        && slots[2] < NUM_PUZZLE_CHARACTERS && spec_puzzle_char(slots[0] as int) == 'S'
        && spec_puzzle_char(slots[1] as int) == 'E' && spec_puzzle_char(slots[2] as int) == 'E'
}

/// Whether the three keypad wheels spell "SEE".
pub fn keypad_solved(slots: &Vec<usize>) -> (r: bool)
    requires
        slots@.len() == 3,
        forall|i: int| 0 <= i < 3 ==> slots@[i] < NUM_PUZZLE_CHARACTERS,
    ensures
        r == spec_keypad_solved(slots@),
{
    let c0 = puzzle_char(slots[0]);
    let c1 = puzzle_char(slots[1]);
    let c2 = puzzle_char(slots[2]);
    c0 == 'S' && c1 == 'E' && c2 == 'E'
}

/// The nine-digit number that solves the phone puzzle.
pub open spec fn spec_dial_target() -> Seq<usize> {
    seq![8usize, 5usize, 3usize, 1usize, 7usize, 6usize, 0usize, 2usize, 5usize]
}

/// Digit at each position of the phone puzzle's target number.
pub fn dial_target_digit(i: usize) -> (d: usize)
    requires
        i < DIAL_HISTORY_LIMIT,
    ensures
        d == spec_dial_target()[i as int],
{
    match i {
        0 => 8,
        1 => 5,
        2 => 3,
        3 => 1,
        4 => 7,
        5 => 6,
        6 => 0,
        7 => 2,
        _ => 5,
    }
}

/// Dial history after one more press: the digit is appended, and once the
/// window passes its limit the oldest press is evicted from the front.
pub open spec fn spec_press_digit(history: Seq<usize>, digit: usize) -> Seq<usize> {
    let grown = history.push(digit);
    if grown.len() > DIAL_HISTORY_LIMIT {
        grown.subrange(1, grown.len() as int)
    } else {
        grown
    }
}

/// Append a pressed digit to the dial history, evicting the oldest press once
/// the window holds more than its limit.
pub fn press_digit(history: &mut Vec<usize>, digit: usize)
    requires
        old(history)@.len() <= DIAL_HISTORY_LIMIT,
    ensures
        final(history)@ == spec_press_digit(old(history)@, digit),
        final(history)@.len() <= DIAL_HISTORY_LIMIT,
{
    history.push(digit);
    if history.len() > DIAL_HISTORY_LIMIT {
        history.remove(0);
        assert(history@ =~= old(history)@.push(digit).subrange(
            1,
            old(history)@.push(digit).len() as int,
        ));
    }
}

/// Whether the dial history window matches the target number at every one of
/// its nine positions.
pub open spec fn spec_dial_solved(history: Seq<usize>) -> bool {
    history == spec_dial_target()
}

/// Whether the most recent nine presses spell the phone puzzle's target
/// number, element for element.
pub fn dial_solved(history: &Vec<usize>) -> (r: bool)
    requires
        history@.len() <= DIAL_HISTORY_LIMIT,
    ensures
        r == spec_dial_solved(history@),
{
    if history.len() != DIAL_HISTORY_LIMIT {
        return false;
    }
    let mut i: usize = 0;
    while i < DIAL_HISTORY_LIMIT
        invariant
            i <= DIAL_HISTORY_LIMIT,
            history@.len() == DIAL_HISTORY_LIMIT,
            forall|j: int| 0 <= j < i ==> history@[j] == spec_dial_target()[j],
        decreases DIAL_HISTORY_LIMIT - i,
    {
        if history[i] != dial_target_digit(i) {
            return false;
        }
        i += 1;
    }
    proof {
        assert(history@ =~= spec_dial_target());
    }
    true
}

} // verus!
