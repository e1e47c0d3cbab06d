//! Key identifiers, key events and the one-octave frequency table.

use vstd::prelude::*;

verus! {

/// A physical key. The thirteen note keys and the exit key have a variant
/// of their own; any other key is told apart by its code.
#[derive(Clone, Copy, Debug, PartialEq, Eq, Structural)]
pub enum Key {
    Z,
    S,
    X,
    D,
    C,
    V,
    G,
    B,
    H,
    N,
    J,
    M,
    Comma,
    Escape,
    Other(u32),
}

/// A key went down (`pressed`) or came up.
#[derive(Clone, Copy, Debug, PartialEq, Eq, Structural)]
pub struct KeyEvent {
    pub key: Key,
    pub pressed: bool,
}

/// The fundamental of each note key in hundredths of a hertz, from C4 up
/// to C5; `None` for a key that plays no note.
pub open spec fn frequency_of(key: Key) -> Option<u32> {
    match key {
        Key::Z => Some(26163u32),
        Key::S => Some(27718u32),
        Key::X => Some(29366u32),
        Key::D => Some(31113u32),
        Key::C => Some(32963u32),
        Key::V => Some(34923u32),
        Key::G => Some(36999u32),
        Key::B => Some(39299u32),
        Key::H => Some(41530u32),
        Key::N => Some(44000u32),
        Key::J => Some(46616u32),
        Key::M => Some(49388u32),
        Key::Comma => Some(52325u32),
        Key::Escape => None,
        Key::Other(_) => None,
    }
}

/// The rows of the frequency table, lowest note first.
pub open spec fn table() -> Seq<(Key, u32)> {
    seq![
        (Key::Z, 26163u32),
        (Key::S, 27718u32),
        (Key::X, 29366u32),
        (Key::D, 31113u32),
        (Key::C, 32963u32),
        (Key::V, 34923u32),
        (Key::G, 36999u32),
        (Key::B, 39299u32),
        (Key::H, 41530u32),
        (Key::N, 44000u32),
        (Key::J, 46616u32),
        (Key::M, 49388u32),
        (Key::Comma, 52325u32),
    ]
}

/// Builds the frequency table: thirteen rows, one per note key.
pub fn create_key_frequency_map() -> (rows: Vec<(Key, u32)>)
    ensures
        rows@ == table(),
{
    let mut rows: Vec<(Key, u32)> = Vec::new();
    rows.push((Key::Z, 26163u32));
    rows.push((Key::S, 27718u32));
    rows.push((Key::X, 29366u32));
    rows.push((Key::D, 31113u32));
    rows.push((Key::C, 32963u32));
    rows.push((Key::V, 34923u32));
    rows.push((Key::G, 36999u32));
    rows.push((Key::B, 39299u32));
    rows.push((Key::H, 41530u32));
    rows.push((Key::N, 44000u32));
    rows.push((Key::J, 46616u32));
    rows.push((Key::M, 49388u32));
    rows.push((Key::Comma, 52325u32));
    assert(rows@ =~= table());
    rows
}

/// The frequency that `key` plays, if it plays one: the entry of the first
/// row of the table that holds `key`.
pub fn key_frequency(key: Key) -> (frequency: Option<u32>)
    ensures
        frequency == frequency_of(key),
        frequency is Some <==> exists|i: int|
            0 <= i < table().len() && table()[i] == (key, frequency.unwrap()),
{
    let rows = create_key_frequency_map();
    let mut i: usize = 0;
    while i < rows.len()
        invariant
            i <= rows.len(),
            rows@ == table(),
            forall|j: int| 0 <= j < i ==> (#[trigger] table()[j]).0 != key,
        decreases rows.len() - i,
    {
        let row = rows[i];
        if row.0 == key {
            return Some(row.1);
        }
        i += 1;
    }
    None
}

} // verus!
