//! Keys the interface reacts to.

use vstd::prelude::*;

verus! {

/// A key of the keyboard, as far as the interface tells keys apart.
#[derive(Debug, Clone, Copy, PartialEq, Eq, Structural)]
pub enum Key {
    Char(char),
    Esc,
    Enter,
    Left,
    Right,
    Up,
    Down,
    PageUp,
    PageDown,
    Other,
}

/// What a key press means to a page: either the page handled it or it is
/// left to the enclosing screen.
#[derive(Debug, Clone, Copy, PartialEq, Eq, Structural)]
pub enum Handled {
    Consumed,
    NotConsumed,
}

/// Whether `key` moves a selection up (`Up` or `k`).
pub open spec fn is_up(key: Key) -> bool {
    key == Key::Up || key == Key::Char('k')
}

/// Whether `key` moves a selection down (`Down` or `j`).
pub open spec fn is_down(key: Key) -> bool {
    key == Key::Down || key == Key::Char('j')
}

/// Whether `key` enters the selection (`Enter`, `Right` or `l`).
pub open spec fn is_enter(key: Key) -> bool {
    key == Key::Enter || key == Key::Right || key == Key::Char('l')
}

/// `Up` or `k`.
pub fn key_is_up(key: Key) -> (b: bool)
    ensures
        b == is_up(key),
{
    key == Key::Up || key == Key::Char('k')
}

/// `Down` or `j`.
pub fn key_is_down(key: Key) -> (b: bool)
    ensures
        b == is_down(key),
{
    key == Key::Down || key == Key::Char('j')
}

/// `Enter`, `Right` or `l`.
pub fn key_is_enter(key: Key) -> (b: bool)
    ensures
        b == is_enter(key),
{
    key == Key::Enter || key == Key::Right || key == Key::Char('l')
}

} // verus!
