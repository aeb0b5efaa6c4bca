//! Control bytes and opcodes of the ESC/POS wire protocol.

use vstd::prelude::*;

verus! {

/// Escape: the prefix of most commands.
pub const ESC: u8 = 0x1b;

/// Group separator: the prefix of the remaining commands.
pub const GS: u8 = 0x1d;

/// Line feed: prints the line buffer and advances one line.
pub const LF: u8 = 0x0a;

/// `@` after ESC: initialize printer.
pub const OP_INITIALIZE: u8 = 0x40;

/// `!` after ESC: select print mode.
pub const OP_PRINT_MODE: u8 = 0x21;

/// `-` after ESC: select underline mode.
pub const OP_UNDERLINE: u8 = 0x2d;

/// `E` after ESC: select emphasized printing.
pub const OP_EMPHASIZED: u8 = 0x45;

/// `G` after ESC: select double-strike printing.
pub const OP_DOUBLE_STRIKE: u8 = 0x47;

/// `M` after ESC: select font.
pub const OP_FONT: u8 = 0x4d;

/// `a` after ESC: select justification.
pub const OP_JUSTIFICATION: u8 = 0x61;

/// `d` after ESC: print and feed lines.
pub const OP_FEED_LINES: u8 = 0x64;

/// `e` after ESC: print and reverse-feed lines.
pub const OP_REVERSE_FEED_LINES: u8 = 0x65;

/// `t` after ESC: select character code table.
pub const OP_CHAR_CODE_TABLE: u8 = 0x74;

/// `r` after GS: select print color.
pub const OP_PRINT_COLOR: u8 = 0x72;

/// `B` after GS: select white-on-black reverse printing.
pub const OP_REVERSE_PRINTING: u8 = 0x42;

/// `V` after GS: cut paper.
pub const OP_CUT_PAPER: u8 = 0x56;

/// `h` after GS: select bar code height.
pub const OP_BAR_CODE_HEIGHT: u8 = 0x68;

/// `0`: the first of the ASCII digits that spell small parameters.
pub const DIGIT_ZERO: u8 = 0x30;

/// The parameter byte that spells `code` as an ASCII digit.
pub open spec fn digit_spec(code: u8) -> u8
    recommends
        code <= 9,
{
    (DIGIT_ZERO + code) as u8
}

/// The parameter byte that spells `code` as an ASCII digit.
#[verifier::when_used_as_spec(digit_spec)]
pub(crate) fn digit(code: u8) -> (byte: u8)
    requires
        code <= 9,
    ensures
        byte == digit_spec(code),
{
    DIGIT_ZERO + code
}

/// The parameter byte that spells a switch: `1` for on, `0` for off.
pub open spec fn switch_spec(on: bool) -> u8 {
    if on {
        0x31
    } else {
        0x30
    }
}

/// The parameter byte that spells a switch: `1` for on, `0` for off.
#[verifier::when_used_as_spec(switch_spec)]
pub(crate) fn switch(on: bool) -> (byte: u8)
    ensures
        byte == switch_spec(on),
{
    if on {
        digit(1)
    } else {
        digit(0)
    }
}

} // verus!
