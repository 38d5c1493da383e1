//! Text building blocks for the disassembler: decimal register names
//! and uppercase hexadecimal renderings of machine words.

use vstd::prelude::*;
use vstd::string::StringExecFns;

verus! {

/// The uppercase hexadecimal digit of a value below sixteen.
pub open spec fn spec_hex_nibble(n: u8) -> Seq<char> {
    if n == 0 {
        "0"@
    } else if n == 1 {
        "1"@
    } else if n == 2 {
        "2"@
    } else if n == 3 {
        "3"@
    } else if n == 4 {
        "4"@
    } else if n == 5 {
        "5"@
    } else if n == 6 {
        "6"@
    } else if n == 7 {
        "7"@
    } else if n == 8 {
        "8"@
    } else if n == 9 {
        "9"@
    } else if n == 10 {
        "A"@
    } else if n == 11 {
        "B"@
    } else if n == 12 {
        "C"@
    } else if n == 13 {
        "D"@
    } else if n == 14 {
        "E"@
    } else {
        "F"@
    }
}

/// The shortest uppercase hexadecimal rendering of a word.
pub open spec fn spec_hex(value: u32) -> Seq<char>
    decreases value,
{
    if value < 16 {
        spec_hex_nibble(value as u8)
    } else {
        spec_hex(value / 16) + spec_hex_nibble((value % 16) as u8)
    }
}

/// The zero-padded uppercase hexadecimal rendering of a word, with the
/// given number of digits.
pub open spec fn spec_hex_padded(value: u32, digits: u8) -> Seq<char>
    decreases digits,
{
    if digits == 0 {
        Seq::empty()
    } else {
        spec_hex_padded(value / 16, (digits - 1) as u8) + spec_hex_nibble((value % 16) as u8)
    }
}

/// The decimal name of a register number.
pub open spec fn spec_decimal(n: u8) -> Seq<char> {
    if n < 10 {
        spec_hex_nibble(n)
    } else {
        spec_hex_nibble(1) + spec_hex_nibble((n - 10) as u8)
    }
}

/// The uppercase hexadecimal digit of a value below sixteen.
pub fn hex_nibble(n: u8) -> (s: &'static str)
    requires
        n < 16,
    ensures
        s@ == spec_hex_nibble(n),
{
    if n == 0 {
        "0"
    } else if n == 1 {
        "1"
    } else if n == 2 {
        "2"
    } else if n == 3 {
        "3"
    } else if n == 4 {
        "4"
    } else if n == 5 {
        "5"
    } else if n == 6 {
        "6"
    } else if n == 7 {
        "7"
    } else if n == 8 {
        "8"
    } else if n == 9 {
        "9"
    } else if n == 10 {
        "A"
    } else if n == 11 {
        "B"
    } else if n == 12 {
        "C"
    } else if n == 13 {
        "D"
    } else if n == 14 {
        "E"
    } else {
        "F"
    }
}

/// The shortest uppercase hexadecimal rendering of a word.
pub fn hex_string(value: u32) -> (s: String)
    ensures
        s@ == spec_hex(value),
    decreases value,
{
    if value < 16 {
        hex_nibble(value as u8).to_owned()
    } else {
        let mut s = hex_string(value / 16);
        s.append(hex_nibble((value % 16) as u8));
        s
    }
}

/// The zero-padded uppercase hexadecimal rendering of a word.
pub fn hex_string_padded(value: u32, digits: u8) -> (s: String)
    ensures
        s@ == spec_hex_padded(value, digits),
    decreases digits,
{
    if digits == 0 {
        String::new()
    } else {
        let mut s = hex_string_padded(value / 16, digits - 1);
        s.append(hex_nibble((value % 16) as u8));
        s
    }
}

/// The decimal rendering of a number below twenty, enough for register
/// names.
pub fn decimal(n: u8) -> (s: String)
    requires
        n < 20,
    ensures
        s@ == spec_decimal(n),
{
    if n < 10 {
        hex_nibble(n).to_owned()
    } else {
        let mut s = hex_nibble(1).to_owned();
        s.append(hex_nibble(n - 10));
        s
    }
}

} // verus!
