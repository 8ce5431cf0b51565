use vstd::prelude::*;
use vstd::string::*;

use std::cmp::Ordering;

use crate::text::{decimal, push_char, push_decimal};

verus! {

/// The four directions (left, right, up, down).
#[derive(Clone, Copy, Debug, PartialEq, Eq, Structural, Hash, Ord)]
pub enum Direction {
    Left,
    Right,
    Up,
    Down,
}

/// How two integers compare.
pub open spec fn cmp_int(a: int, b: int) -> Ordering {
    if a < b {
        Ordering::Less
    } else if a == b {
        Ordering::Equal
    } else {
        Ordering::Greater
    }
}

fn cmp_u32(a: u32, b: u32) -> (r: Ordering)
    ensures
        r == cmp_int(a as int, b as int),
{
    if a < b {
        Ordering::Less
    } else if a == b {
        Ordering::Equal
    } else {
        Ordering::Greater
    }
}

/// The position of a direction in declaration order.
pub open spec fn direction_rank(d: Direction) -> int {
    match d {
        Direction::Left => 0,
        Direction::Right => 1,
        Direction::Up => 2,
        Direction::Down => 3,
    }
}

impl Direction {
    fn rank(&self) -> (r: u32)
        ensures
            r as int == direction_rank(*self),
    {
        match self {
            Direction::Left => 0,
            Direction::Right => 1,
            Direction::Up => 2,
            Direction::Down => 3,
        }
    }
}

/// Directions are ordered as declared: left, right, up, down.
impl PartialOrd for Direction {
    fn partial_cmp(&self, o: &Direction) -> Option<Ordering> {
        Some(cmp_u32(self.rank(), o.rank()))
    }
}

impl vstd::std_specs::cmp::PartialOrdSpecImpl for Direction {
    open spec fn obeys_partial_cmp_spec() -> bool {
        true
    }

    open spec fn partial_cmp_spec(&self, o: &Direction) -> Option<Ordering> {
        Some(cmp_int(direction_rank(*self), direction_rank(*o)))
    }
}

/// The arrow glyph of a direction.
pub open spec fn direction_label(d: Direction) -> Seq<char> {
    match d {
        Direction::Left => "←"@,
        Direction::Right => "→"@,
        Direction::Up => "↑"@,
        Direction::Down => "↓"@,
    }
}

impl Direction {
    /// Appends the arrow glyph of this direction.
    pub fn push_label(&self, s: &mut String)
        ensures
            final(s)@ == old(s)@ + direction_label(*self),
    {
        match self {
            Direction::Left => s.append("←"),
            Direction::Right => s.append("→"),
            Direction::Up => s.append("↑"),
            Direction::Down => s.append("↓"),
        }
    }

    /// The arrow glyph of this direction.
    pub fn to_string(&self) -> (r: String)
        ensures
            r@ == direction_label(*self),
    {
        let mut s = String::new();
        self.push_label(&mut s);
        assert(s@ =~= direction_label(*self));
        s
    }
}

/// The label of a typed character: whitespace keys by name, anything else as itself.
pub open spec fn char_label(c: char) -> Seq<char> {
    if c == '\n' {
        "ENTER"@
    } else if c == '\t' {
        "TAB"@
    } else if c == ' ' {
        "SPACE"@
    } else {
        seq![c]
    }
}

/// Appends the label of a typed character.
pub fn push_char_label(s: &mut String, c: char)
    ensures
        final(s)@ == old(s)@ + char_label(c),
{
    let ghost s0 = s@;
    if c == '\n' {
        s.append("ENTER");
    } else if c == '\t' {
        s.append("TAB");
    } else if c == ' ' {
        s.append("SPACE");
    } else {
        push_char(s, c);
        assert(s@ =~= s0 + seq![c]);
    }
}

/// A character or an arrow, as carried by an `Alt` key.
#[derive(Clone, Copy, Debug, PartialEq, Eq, Structural, Hash, Ord)]
pub enum CharOrArrow {
    Char(char),
    Direction(Direction),
}

/// Characters come before arrows; characters compare by code point, arrows
/// in declaration order.
pub open spec fn char_or_arrow_cmp(a: CharOrArrow, b: CharOrArrow) -> Ordering {
    match (a, b) {
        (CharOrArrow::Char(x), CharOrArrow::Char(y)) => cmp_int(x as int, y as int),
        (CharOrArrow::Char(_), CharOrArrow::Direction(_)) => Ordering::Less,
        (CharOrArrow::Direction(_), CharOrArrow::Char(_)) => Ordering::Greater,
        (CharOrArrow::Direction(x), CharOrArrow::Direction(y)) => cmp_int(
            direction_rank(x),
            direction_rank(y),
        ),
    }
}

fn char_or_arrow_compare(a: &CharOrArrow, b: &CharOrArrow) -> (r: Ordering)
    ensures
        r == char_or_arrow_cmp(*a, *b),
{
    match (a, b) {
        (CharOrArrow::Char(x), CharOrArrow::Char(y)) => cmp_u32(*x as u32, *y as u32),
        (CharOrArrow::Char(_), CharOrArrow::Direction(_)) => Ordering::Less,
        (CharOrArrow::Direction(_), CharOrArrow::Char(_)) => Ordering::Greater,
        (CharOrArrow::Direction(x), CharOrArrow::Direction(y)) => cmp_u32(x.rank(), y.rank()),
    }
}

impl PartialOrd for CharOrArrow {
    fn partial_cmp(&self, o: &CharOrArrow) -> Option<Ordering> {
        Some(char_or_arrow_compare(self, o))
    }
}

impl vstd::std_specs::cmp::PartialOrdSpecImpl for CharOrArrow {
    open spec fn obeys_partial_cmp_spec() -> bool {
        true
    }

    open spec fn partial_cmp_spec(&self, o: &CharOrArrow) -> Option<Ordering> {
        Some(char_or_arrow_cmp(*self, *o))
    }
}

pub open spec fn char_or_arrow_label(x: CharOrArrow) -> Seq<char> {
    match x {
        CharOrArrow::Char(c) => char_label(c),
        CharOrArrow::Direction(d) => direction_label(d),
    }
}

impl CharOrArrow {
    /// Appends the label of the character or arrow.
    pub fn push_label(&self, s: &mut String)
        ensures
            final(s)@ == old(s)@ + char_or_arrow_label(*self),
    {
        match self {
            CharOrArrow::Char(c) => push_char_label(s, *c),
            CharOrArrow::Direction(d) => d.push_label(s),
        }
    }

    /// The label of the character or arrow.
    pub fn to_string(&self) -> (r: String)
        ensures
            r@ == char_or_arrow_label(*self),
    {
        let mut s = String::new();
        self.push_label(&mut s);
        assert(s@ =~= char_or_arrow_label(*self));
        s
    }
}

/// A key press. The order of the variants is significant: it gives the
/// derived ordering that consumers sort keys by.
#[derive(Clone, Copy, Debug, PartialEq, Eq, Structural, Hash, Ord)]
pub enum Key {
    PageDown,
    PageUp,
    Left,
    Down,
    Up,
    Right,
    Home,
    End,
    Backspace,
    Delete,
    Insert,
    F(u8),
    Char(char),
    Alt(CharOrArrow),
    Ctrl(char),
    BackTab,
    Null,
    Esc,
}

/// The position of a key's variant in declaration order.
pub open spec fn key_rank(k: Key) -> int {
    match k {
        Key::PageDown => 0,
        Key::PageUp => 1,
        Key::Left => 2,
        Key::Down => 3,
        Key::Up => 4,
        Key::Right => 5,
        Key::Home => 6,
        Key::End => 7,
        Key::Backspace => 8,
        Key::Delete => 9,
        Key::Insert => 10,
        Key::F(_) => 11,
        Key::Char(_) => 12,
        Key::Alt(_) => 13,
        Key::Ctrl(_) => 14,
        Key::BackTab => 15,
        Key::Null => 16,
        Key::Esc => 17,
    }
}

/// Keys compare by variant in declaration order, then by payload: function
/// keys by number, characters by code point, `Alt` keys by what they carry.
pub open spec fn key_cmp(a: Key, b: Key) -> Ordering {
    if key_rank(a) != key_rank(b) {
        cmp_int(key_rank(a), key_rank(b))
    } else {
        match (a, b) {
            (Key::F(x), Key::F(y)) => cmp_int(x as int, y as int),
            (Key::Char(x), Key::Char(y)) => cmp_int(x as int, y as int),
            (Key::Alt(x), Key::Alt(y)) => char_or_arrow_cmp(x, y),
            (Key::Ctrl(x), Key::Ctrl(y)) => cmp_int(x as int, y as int),
            _ => Ordering::Equal,
        }
    }
}

/// Key comparison is consistent: two keys compare equal exactly when they are
/// the same key, and swapping them reverses the result.
pub proof fn law_key_cmp_consistent(a: Key, b: Key)
    ensures
        (key_cmp(a, b) == Ordering::Equal) == (a == b),
        key_cmp(a, b) == Ordering::Less <==> key_cmp(b, a) == Ordering::Greater,
{
    match (a, b) {
        (Key::Char(x), Key::Char(y)) => {
            assert(x as int == y as int ==> x == y);
        },
        (Key::Ctrl(x), Key::Ctrl(y)) => {
            assert(x as int == y as int ==> x == y);
        },
        (Key::Alt(x), Key::Alt(y)) => {
            match (x, y) {
                (CharOrArrow::Char(c), CharOrArrow::Char(d)) => {
                    assert(c as int == d as int ==> c == d);
                },
                _ => {},
            }
        },
        _ => {},
    }
}

/// The short human-readable label of a key.
pub open spec fn key_label(k: Key) -> Seq<char> {
    match k {
        Key::Backspace => "BACKSPACE"@,
        Key::Left => direction_label(Direction::Left),
        Key::Right => direction_label(Direction::Right),
        Key::Up => direction_label(Direction::Up),
        Key::Down => direction_label(Direction::Down),
        Key::Home => "HOME"@,
        Key::End => "END"@,
        Key::PageUp => "PgUp"@,
        Key::PageDown => "PgDn"@,
        Key::BackTab => "TAB"@,
        Key::Delete => "DEL"@,
        Key::Insert => "INS"@,
        Key::F(n) => "F"@ + decimal(n as nat),
        Key::Char(c) => char_label(c),
        Key::Alt(x) => "Alt+"@ + char_or_arrow_label(x),
        Key::Ctrl(c) => "Ctrl+"@ + char_label(c),
        Key::Null => "NULL"@,
        Key::Esc => "ESC"@,
    }
}

impl PartialOrd for Key {
    fn partial_cmp(&self, o: &Key) -> Option<Ordering> {
        Some(self.compare(o))
    }
}

impl vstd::std_specs::cmp::PartialOrdSpecImpl for Key {
    open spec fn obeys_partial_cmp_spec() -> bool {
        true
    }

    open spec fn partial_cmp_spec(&self, o: &Key) -> Option<Ordering> {
        Some(key_cmp(*self, *o))
    }
}

impl Key {
    fn rank(&self) -> (r: u32)
        ensures
            r as int == key_rank(*self),
    {
        match self {
            Key::PageDown => 0,
            Key::PageUp => 1,
            Key::Left => 2,
            Key::Down => 3,
            Key::Up => 4,
            Key::Right => 5,
            Key::Home => 6,
            Key::End => 7,
            Key::Backspace => 8,
            Key::Delete => 9,
            Key::Insert => 10,
            Key::F(_) => 11,
            Key::Char(_) => 12,
            Key::Alt(_) => 13,
            Key::Ctrl(_) => 14,
            Key::BackTab => 15,
            Key::Null => 16,
            Key::Esc => 17,
        }
    }

    /// How this key orders against another.
    pub fn compare(&self, o: &Key) -> (r: Ordering)
        ensures
            r == key_cmp(*self, *o),
    {
        let a = self.rank();
        let b = o.rank();
        if a != b {
            return cmp_u32(a, b);
        }
        match (self, o) {
            (Key::F(x), Key::F(y)) => cmp_u32(*x as u32, *y as u32),
            (Key::Char(x), Key::Char(y)) => cmp_u32(*x as u32, *y as u32),
            (Key::Alt(x), Key::Alt(y)) => char_or_arrow_compare(x, y),
            (Key::Ctrl(x), Key::Ctrl(y)) => cmp_u32(*x as u32, *y as u32),
            _ => Ordering::Equal,
        }
    }

    /// Appends the label of this key.
    pub fn push_label(&self, s: &mut String)
        ensures
            final(s)@ == old(s)@ + key_label(*self),
    {
        let ghost s0 = s@;
        match self {
            Key::Backspace => s.append("BACKSPACE"),
            Key::Left => Direction::Left.push_label(s),
            Key::Right => Direction::Right.push_label(s),
            Key::Up => Direction::Up.push_label(s),
            Key::Down => Direction::Down.push_label(s),
            Key::Home => s.append("HOME"),
            Key::End => s.append("END"),
            Key::PageUp => s.append("PgUp"),
            Key::PageDown => s.append("PgDn"),
            Key::BackTab => s.append("TAB"),
            Key::Delete => s.append("DEL"),
            Key::Insert => s.append("INS"),
            Key::F(n) => {
                s.append("F");
                push_decimal(s, *n);
                assert(s@ =~= s0 + key_label(*self));
            },
            Key::Char(c) => push_char_label(s, *c),
            Key::Alt(x) => {
                s.append("Alt+");
                x.push_label(s);
                assert(s@ =~= s0 + key_label(*self));
            },
            Key::Ctrl(c) => {
                s.append("Ctrl+");
                push_char_label(s, *c);
                assert(s@ =~= s0 + key_label(*self));
            },
            Key::Null => s.append("NULL"),
            Key::Esc => s.append("ESC"),
        }
    }

    /// The short human-readable label of this key, as shown in a status bar.
    pub fn to_string(&self) -> (r: String)
        ensures
            r@ == key_label(*self),
    {
        let mut s = String::new();
        self.push_label(&mut s);
        assert(s@ =~= key_label(*self));
        s
    }
}

/// A mouse event. Lines are signed (a negative line lies above the
/// viewport), columns unsigned.
#[derive(Clone, Copy, Debug, PartialEq, Eq, Structural, Hash)]
pub enum Mouse {
    /// Scroll up by a number of lines.
    ScrollUp(usize),
    /// Scroll down by a number of lines.
    ScrollDown(usize),
    /// Line and column.
    LeftClick(isize, usize),
    /// Line and column.
    RightClick(isize, usize),
    /// Line and column.
    Hold(isize, usize),
    /// Line and column.
    Release(isize, usize),
}

} // verus!
