//! Key presses, as far as the dashboard looks at them.
use vstd::prelude::*;

verus! {

/// The bit that stands for a held Control key.
pub const CONTROL: u8 = 0b0000_0010;

/// The bit that stands for a held Alt key.
pub const ALT: u8 = 0b0000_0100;

/// The keys that the dashboard tells apart.
#[derive(Debug, Clone, Copy, PartialEq, Eq, Structural)]
pub enum KeyCode {
    /// The right arrow.
    Right,
    /// A character.
    Char(char),
    /// Any other key: the dashboard leaves it to the list.
    Other,
}

/// A key press: the key, and the set of held modifiers as terminal flag bits.
#[derive(Debug, Clone, Copy, PartialEq, Eq, Structural)]
pub struct KeyEvent {
    pub code: KeyCode,
    pub modifiers: u8,
}

/// Every flag of `flags` is in `modifiers`.
pub open spec fn holds(modifiers: u8, flags: u8) -> bool {
    modifiers & flags == flags
}

/// `crossterm::event::KeyModifiers::contains`, on the bits of the two flag sets: whether the first
/// set has every flag of the second.
#[verifier::external_body]
fn modifiers_contain(modifiers: u8, flags: u8) -> (held: bool)
    ensures
        held == holds(modifiers, flags),
{
    crossterm::event::KeyModifiers::from_bits_retain(modifiers)
        .contains(crossterm::event::KeyModifiers::from_bits_retain(flags))
}

/// `crossterm::event::KeyModifiers::is_empty`, on the bits of the flag set: whether no bit is set.
#[verifier::external_body]
fn modifiers_are_empty(modifiers: u8) -> (empty: bool)
    ensures
        empty == (modifiers == 0),
{
    crossterm::event::KeyModifiers::from_bits_retain(modifiers).is_empty()
}

/// Control and `x`, without Alt; the other modifiers do not matter.
pub open spec fn delete_key(key: KeyEvent) -> bool {
    &&& holds(key.modifiers, CONTROL)
    &&& !holds(key.modifiers, ALT)
    &&& key.code == KeyCode::Char('x')
}

/// The right arrow with no modifier held.
pub open spec fn open_key(key: KeyEvent) -> bool {
    &&& key.code == KeyCode::Right
    &&& key.modifiers == 0
}

/// Whether the press asks to delete the highlighted session.
pub fn is_delete_key(key: &KeyEvent) -> (r: bool)
    ensures
        r == delete_key(*key),
{
    modifiers_contain(key.modifiers, CONTROL) && !modifiers_contain(key.modifiers, ALT)
        && key.code == KeyCode::Char('x')
}

/// Whether the press asks to open the highlighted session.
pub fn is_open_key(key: &KeyEvent) -> (r: bool)
    ensures
        r == open_key(*key),
{
    key.code == KeyCode::Right && modifiers_are_empty(key.modifiers)
}

} // verus!
