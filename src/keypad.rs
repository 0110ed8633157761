use vstd::prelude::*;

verus! {

/// Raw scan bit of each labelled key: one bit per row within each column nibble.
pub const KEY_0: u16 = 0x80;
pub const KEY_1: u16 = 0x1;
pub const KEY_2: u16 = 0x10;
pub const KEY_3: u16 = 0x100;
pub const KEY_4: u16 = 0x2;
pub const KEY_5: u16 = 0x20;
pub const KEY_6: u16 = 0x200;
pub const KEY_7: u16 = 0x4;
pub const KEY_8: u16 = 0x40;

/// Value that `convert` gives for a scan that is not exactly one known key.
pub const NO_DIGIT: i16 = -10;

/// The digit that a raw scan value stands for, or `NO_DIGIT`.
pub open spec fn digit_of(value: u16) -> int {
    if value == KEY_0 {
        0
    } else if value == KEY_1 {
        1
    } else if value == KEY_2 {
        2
    } else if value == KEY_3 {
        3
    } else if value == KEY_4 {
        4
    } else if value == KEY_5 {
        5
    } else if value == KEY_6 {
        6
    } else if value == KEY_7 {
        7
    } else if value == KEY_8 {
        8
    } else {
        NO_DIGIT as int
    }
}

/// The character of the key that a raw scan value stands for; `None` when no
/// key is down or the scan is not a single known key.
pub open spec fn key_of(value: u16) -> Option<char> {
    if 0 <= digit_of(value) {
        Some(digit_char(digit_of(value)))
    } else {
        None
    }
}

/// The decimal digit character of `d`, for `0 <= d <= 9`.
pub open spec fn digit_char(d: int) -> char {
    (d + '0' as int) as char
}

/// The bit pattern that one column contributes, from its three row levels
/// (`true` where the row reads low, i.e. the key is down).
pub open spec fn column_value(r0: bool, r1: bool, r2: bool) -> int {
    (if r0 { 1int } else { 0 }) + (if r1 { 2int } else { 0 }) + (if r2 { 4int } else { 0 })
}

/// A 3x3 matrix keypad: three input rows and three output columns.
pub struct Keypad<R0, R1, R2, C0, C1, C2> {
    pub rows: (R0, R1, R2),
    pub columns: (C0, C1, C2),
}

impl<R0, R1, R2, C0, C1, C2> Keypad<R0, R1, R2, C0, C1, C2> {
    pub fn new(rows: (R0, R1, R2), columns: (C0, C1, C2)) -> (r: Self)
        ensures
            r.rows == rows,
            r.columns == columns,
    {
        Keypad { rows, columns }
    }

    /// Maps a raw scan value to the digit printed on the key, or `NO_DIGIT`.
    pub fn convert(&self, value: u16) -> (r: i16)
        ensures
            r as int == digit_of(value),
    {
        match value {
            KEY_0 => 0,
            KEY_1 => 1,
            KEY_2 => 2,
            KEY_3 => 3,
            KEY_4 => 4,
            KEY_5 => 5,
            KEY_6 => 6,
            KEY_7 => 7,
            KEY_8 => 8,
            _ => NO_DIGIT,
        }
    }

    /// The key character for a raw scan value: `None` when nothing is pressed
    /// or the scan matches no single key.
    pub fn char_of(&self, raw: u16) -> (r: Option<char>)
        ensures
            r == key_of(raw),
            raw == 0 ==> r is None,
    {
        let d = self.convert(raw);
        if d < 0 {
            None
        } else {
            Some(((d as u8) + ('0' as u8)) as char)
        }
    }
}

/// Bits read from one column: bit `k` is set where row `k` reads low.
pub fn column_bits(r0: bool, r1: bool, r2: bool) -> (r: u16)
    ensures
        r as int == column_value(r0, r1, r2),
{
    let mut res: u16 = 0;
    if r0 {
        res = res + 1;
    }
    if r1 {
        res = res + 2;
    }
    if r2 {
        res = res + 4;
    }
    res
}

/// Joins the three column readings into one raw scan value, one nibble per column.
pub fn merge_columns(c0: u16, c1: u16, c2: u16) -> (r: u16)
    requires
        c0 < 8,
        c1 < 8,
        c2 < 8,
    ensures
        r as int == c0 + 16 * c1 + 256 * c2,
{
    c0 + 16 * c1 + 256 * c2
}

} // verus!
