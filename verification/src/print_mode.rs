//! The flag set carried by the "select print mode" command.

use vstd::prelude::*;

verus! {

/// One attribute that the "select print mode" command can switch on.
#[derive(Clone, Copy, Debug, PartialEq, Eq, Structural)]
pub enum PrintFlag {
    /// The alternate, condensed font.
    FontB,
    Emphasized,
    DoubleHeight,
    DoubleWidth,
    Underline,
}

impl PrintFlag {
    /// The weight of the flag in the parameter byte. The device assigns bits
    /// 0, 3, 4, 5 and 7; bits 1, 2 and 6 carry no meaning.
    pub open spec fn weight_spec(self) -> u8 {
        match self {
            PrintFlag::FontB => 0x01,
            PrintFlag::Emphasized => 0x08,
            PrintFlag::DoubleHeight => 0x10,
            PrintFlag::DoubleWidth => 0x20,
            PrintFlag::Underline => 0x80,
        }
    }

    #[verifier::when_used_as_spec(weight_spec)]
    pub fn weight(self) -> (w: u8)
        ensures
            w == self.weight_spec(),
    {
        match self {
            PrintFlag::FontB => 0x01,
            PrintFlag::Emphasized => 0x08,
            PrintFlag::DoubleHeight => 0x10,
            PrintFlag::DoubleWidth => 0x20,
            PrintFlag::Underline => 0x80,
        }
    }
}

/// A set of print-mode flags. All thirty-two combinations are legal on the
/// device, so every value of this type can be sent.
#[derive(Clone, Copy, Debug, PartialEq, Eq, Structural)]
pub struct PrintMode {
    pub font_b: bool,
    pub emphasized: bool,
    pub double_height: bool,
    pub double_width: bool,
    pub underline: bool,
}

impl PrintMode {
    /// Whether `flag` is a member of the set.
    pub open spec fn has_spec(self, flag: PrintFlag) -> bool {
        match flag {
            PrintFlag::FontB => self.font_b,
            PrintFlag::Emphasized => self.emphasized,
            PrintFlag::DoubleHeight => self.double_height,
            PrintFlag::DoubleWidth => self.double_width,
            PrintFlag::Underline => self.underline,
        }
    }

    /// The set with `flag` added.
    pub open spec fn with_spec(self, flag: PrintFlag) -> PrintMode {
        match flag {
            PrintFlag::FontB => PrintMode { font_b: true, ..self },
            PrintFlag::Emphasized => PrintMode { emphasized: true, ..self },
            PrintFlag::DoubleHeight => PrintMode { double_height: true, ..self },
            PrintFlag::DoubleWidth => PrintMode { double_width: true, ..self },
            PrintFlag::Underline => PrintMode { underline: true, ..self },
        }
    }

    /// The set that holds the flags of `self` and those of `other`.
    pub open spec fn union_spec(self, other: PrintMode) -> PrintMode {
        PrintMode {
            font_b: self.font_b || other.font_b,
            emphasized: self.emphasized || other.emphasized,
            double_height: self.double_height || other.double_height,
            double_width: self.double_width || other.double_width,
            underline: self.underline || other.underline,
        }
    }

    /// The set without any flag.
    pub open spec fn empty_spec() -> PrintMode {
        PrintMode {
            font_b: false,
            emphasized: false,
            double_height: false,
            double_width: false,
            underline: false,
        }
    }

    /// The parameter byte of the set: the sum of the weights of its members,
    /// which is their bitwise OR, since no two weights share a bit.
    pub open spec fn byte_value(self) -> u8 {
        ((if self.font_b { 0x01int } else { 0 })
            + (if self.emphasized { 0x08int } else { 0 })
            + (if self.double_height { 0x10int } else { 0 })
            + (if self.double_width { 0x20int } else { 0 })
            + (if self.underline { 0x80int } else { 0 })) as u8
    }

    /// Whether `byte` sets only bits that carry a flag.
    pub open spec fn is_mode_byte(byte: u8) -> bool {
        exists|mode: PrintMode| mode.byte_value() == byte
    }

    #[verifier::when_used_as_spec(empty_spec)]
    pub fn empty() -> (mode: PrintMode)
        ensures
            mode == PrintMode::empty_spec(),
    {
        PrintMode {
            font_b: false,
            emphasized: false,
            double_height: false,
            double_width: false,
            underline: false,
        }
    }

    #[verifier::when_used_as_spec(has_spec)]
    pub fn has(self, flag: PrintFlag) -> (member: bool)
        ensures
            member == self.has_spec(flag),
    {
        match flag {
            PrintFlag::FontB => self.font_b,
            PrintFlag::Emphasized => self.emphasized,
            PrintFlag::DoubleHeight => self.double_height,
            PrintFlag::DoubleWidth => self.double_width,
            PrintFlag::Underline => self.underline,
        }
    }

    #[verifier::when_used_as_spec(with_spec)]
    pub fn with(self, flag: PrintFlag) -> (mode: PrintMode)
        ensures
            mode == self.with_spec(flag),
    {
        let mut mode = self;
        match flag {
            PrintFlag::FontB => {
                mode.font_b = true;
            },
            PrintFlag::Emphasized => {
                mode.emphasized = true;
            },
            PrintFlag::DoubleHeight => {
                mode.double_height = true;
            },
            PrintFlag::DoubleWidth => {
                mode.double_width = true;
            },
            PrintFlag::Underline => {
                mode.underline = true;
            },
        }
        mode
    }

    #[verifier::when_used_as_spec(union_spec)]
    pub fn union(self, other: PrintMode) -> (mode: PrintMode)
        ensures
            mode == self.union_spec(other),
    {
        PrintMode {
            font_b: self.font_b || other.font_b,
            emphasized: self.emphasized || other.emphasized,
            double_height: self.double_height || other.double_height,
            double_width: self.double_width || other.double_width,
            underline: self.underline || other.underline,
        }
    }

    /// Encodes the set as the parameter byte of "select print mode".
    pub fn to_byte(&self) -> (byte: u8)
        ensures
            byte == self.byte_value(),
    {
        let mut byte: u8 = 0;
        if self.font_b {
            byte = byte | PrintFlag::FontB.weight();
        }
        if self.emphasized {
            byte = byte | PrintFlag::Emphasized.weight();
        }
        if self.double_height {
            byte = byte | PrintFlag::DoubleHeight.weight();
        }
        if self.double_width {
            byte = byte | PrintFlag::DoubleWidth.weight();
        }
        if self.underline {
            byte = byte | PrintFlag::Underline.weight();
        }
        proof {
            lemma_or_of_weights(
                self.font_b,
                self.emphasized,
                self.double_height,
                self.double_width,
                self.underline,
            );
        }
        byte
    }

    /// Decodes a parameter byte. A byte that sets bit 1, 2 or 6 names no set.
    pub fn from_byte(byte: u8) -> (decoded: Option<PrintMode>)
        ensures
            decoded is Some <==> PrintMode::is_mode_byte(byte),
            decoded matches Some(mode) ==> mode.byte_value() == byte,
    {
        let mode = PrintMode {
            font_b: byte & 0x01 != 0,
            emphasized: byte & 0x08 != 0,
            double_height: byte & 0x10 != 0,
            double_width: byte & 0x20 != 0,
            underline: byte & 0x80 != 0,
        };
        if byte & 0x46 == 0 {
            proof {
                lemma_byte_of_bits(byte);
                assert(mode.byte_value() == byte);
            }
            Some(mode)
        } else {
            proof {
                assert forall|other: PrintMode| #[trigger] other.byte_value() != byte by {
                    lemma_mode_byte_has_no_stray_bit(other);
                }
            }
            None
        }
    }
}

/// Two sets with the same parameter byte are the same set: the byte names
/// the set.
pub proof fn byte_names_the_set(first: PrintMode, second: PrintMode)
    requires
        first.byte_value() == second.byte_value(),
    ensures
        first == second,
{
}

/// OR-ing the weights of the chosen flags gives the sum of those weights.
proof fn lemma_or_of_weights(f: bool, e: bool, h: bool, w: bool, u: bool)
    ensures
        ({
            let b0 = 0u8;
            let b1 = if f { b0 | 0x01u8 } else { b0 };
            let b2 = if e { b1 | 0x08u8 } else { b1 };
            let b3 = if h { b2 | 0x10u8 } else { b2 };
            let b4 = if w { b3 | 0x20u8 } else { b3 };
            let b5 = if u { b4 | 0x80u8 } else { b4 };
            b5 == (if f { 0x01int } else { 0 }) + (if e { 0x08int } else { 0 }) + (if h {
                0x10int
            } else {
                0
            }) + (if w { 0x20int } else { 0 }) + (if u { 0x80int } else { 0 })
        }),
{
    assert(0u8 | 0x01u8 == 0x01u8) by (bit_vector);
    assert(forall|b: u8| b <= 0x01 ==> #[trigger] (b | 0x08u8) == b + 0x08) by (bit_vector);
    assert(forall|b: u8| b <= 0x09 ==> #[trigger] (b | 0x10u8) == b + 0x10) by (bit_vector);
    assert(forall|b: u8| b <= 0x19 ==> #[trigger] (b | 0x20u8) == b + 0x20) by (bit_vector);
    assert(forall|b: u8| b <= 0x39 ==> #[trigger] (b | 0x80u8) == b + 0x80) by (bit_vector);
}

/// A byte without stray bits is the sum of the weights of the bits it sets.
proof fn lemma_byte_of_bits(byte: u8)
    ensures
        byte & 0x46 == 0 ==> byte == (if byte & 0x01 != 0 { 0x01int } else { 0 }) + (if byte & 0x08
            != 0 { 0x08int } else { 0 }) + (if byte & 0x10 != 0 { 0x10int } else { 0 }) + (if byte
            & 0x20 != 0 { 0x20int } else { 0 }) + (if byte & 0x80 != 0 { 0x80int } else { 0 }),
{
    assert(byte & 0x46 == 0 ==> byte == (byte & 0x01) + (byte & 0x08) + (byte & 0x10) + (byte
        & 0x20) + (byte & 0x80)) by (bit_vector);
    assert(byte & 0x01 == 0 || byte & 0x01 == 0x01) by (bit_vector);
    assert(byte & 0x08 == 0 || byte & 0x08 == 0x08) by (bit_vector);
    assert(byte & 0x10 == 0 || byte & 0x10 == 0x10) by (bit_vector);
    assert(byte & 0x20 == 0 || byte & 0x20 == 0x20) by (bit_vector);
    assert(byte & 0x80 == 0 || byte & 0x80 == 0x80) by (bit_vector);
}

/// The byte of a set never sets bit 1, 2 or 6.
proof fn lemma_mode_byte_has_no_stray_bit(mode: PrintMode)
    ensures
        mode.byte_value() & 0x46 == 0,
{
    let byte = mode.byte_value();
    let low = ((if mode.font_b { 0x01int } else { 0 }) + (if mode.emphasized {
        0x08int
    } else {
        0
    })) as u8;
    let high = ((if mode.double_height { 0x10int } else { 0 }) + (if mode.double_width {
        0x20int
    } else {
        0
    }) + (if mode.underline { 0x80int } else { 0 })) as u8;
    assert(byte == low + high);
    assert((low == 0x00 || low == 0x01 || low == 0x08 || low == 0x09) && (high == 0x00 || high
        == 0x10 || high == 0x20 || high == 0x30 || high == 0x80 || high == 0x90 || high == 0xa0
        || high == 0xb0));
    assert(byte & 0x46 == 0) by (bit_vector)
        requires
            byte == low + high,
            low == 0x00 || low == 0x01 || low == 0x08 || low == 0x09,
            high == 0x00 || high == 0x10 || high == 0x20 || high == 0x30 || high == 0x80 || high
                == 0x90 || high == 0xa0 || high == 0xb0,
    ;
}

} // verus!
