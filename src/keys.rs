//! Keys, and the lookup of a key by its name.
use vstd::prelude::*;

verus! {

/// A keyboard key: one of the named modifier and editing keys, the key that
/// types a given character, or a key chosen by the host's own key index.
#[derive(Clone, Copy, Debug, PartialEq, Eq, Structural)]
pub enum Key {
    Alt,
    CapsLock,
    Control,
    Delete,
    Meta,
    Shift,
    Unicode(char),
    Index(i32),
}

/// Whether two strings hold the same characters.
pub fn same_text(a: &str, b: &str) -> (r: bool)
    ensures
        r == (a@ == b@),
{
    let n = a.unicode_len();
    if n != b.unicode_len() {
        return false;
    }
    let mut i: usize = 0;
    while i < n
        invariant
            n == a@.len(),
            n == b@.len(),
            i <= n,
            a@.subrange(0, i as int) == b@.subrange(0, i as int),
        decreases n - i,
    {
        if a.get_char(i) != b.get_char(i) {
            assert(a@[i as int] != b@[i as int]);
            return false;
        }
        assert(a@.subrange(0, i + 1) =~= a@.subrange(0, i as int).push(a@[i as int]));
        assert(b@.subrange(0, i + 1) =~= b@.subrange(0, i as int).push(b@[i as int]));
        i = i + 1;
    }
    assert(a@ =~= a@.subrange(0, n as int));
    assert(b@ =~= b@.subrange(0, n as int));
    true
}

/// The key that a name stands for, among "Control", "Shift", "Alt", "Meta",
/// "Delete" and "CapsLock"; no other name stands for a key.
pub open spec fn key_of_name(name: Seq<char>) -> Option<Key> {
    if name == "Control"@ {
        Some(Key::Control)
    } else if name == "Shift"@ {
        Some(Key::Shift)
    } else if name == "Alt"@ {
        Some(Key::Alt)
    } else if name == "Meta"@ {
        Some(Key::Meta)
    } else if name == "Delete"@ {
        Some(Key::Delete)
    } else if name == "CapsLock"@ {
        Some(Key::CapsLock)
    } else {
        None
    }
}

/// Looks a key up by its name.
pub fn key_by_name(name: &str) -> (r: Option<Key>)
    ensures
        r == key_of_name(name@),
{
    if same_text(name, "Control") {
        Some(Key::Control)
    } else if same_text(name, "Shift") {
        Some(Key::Shift)
    } else if same_text(name, "Alt") {
        Some(Key::Alt)
    } else if same_text(name, "Meta") {
        Some(Key::Meta)
    } else if same_text(name, "Delete") {
        Some(Key::Delete)
    } else if same_text(name, "CapsLock") {
        Some(Key::CapsLock)
    } else {
        None
    }
}

} // verus!
