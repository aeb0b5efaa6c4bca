//! The print commands and their byte encodings.

use vstd::prelude::*;
use vstd::string::StrSliceExecFns;
use vstd::utf8::encode_utf8;
use crate::error::PrinterError;
use crate::print_mode::PrintMode;
use crate::protocol::{
    digit, digit_spec, switch, switch_spec, ESC, GS, LF, OP_BAR_CODE_HEIGHT, OP_CHAR_CODE_TABLE,
    OP_CUT_PAPER, OP_DOUBLE_STRIKE, OP_EMPHASIZED, OP_FEED_LINES, OP_FONT, OP_INITIALIZE,
    OP_JUSTIFICATION, OP_PRINT_COLOR, OP_PRINT_MODE, OP_REVERSE_FEED_LINES, OP_REVERSE_PRINTING,
    OP_UNDERLINE,
};

verus! {

/// How the paper is cut.
#[derive(Clone, Copy, Debug, PartialEq, Eq, Structural)]
pub enum CutMode {
    Partial,
    Full,
}

impl CutMode {
    /// The number that the protocol gives the mode.
    pub open spec fn code_spec(self) -> u8 {
        match self {
            CutMode::Full => 0,
            CutMode::Partial => 1,
        }
    }

    #[verifier::when_used_as_spec(code_spec)]
    pub fn code(self) -> (code: u8)
        ensures
            code == self.code_spec(),
    {
        match self {
            CutMode::Full => 0,
            CutMode::Partial => 1,
        }
    }
}

/// The character code table that maps the bytes of a text to glyphs.
#[derive(Clone, Copy, Debug, PartialEq, Eq, Structural)]
pub enum CharCodeTable {
    /// USA, standard Europe.
    PC437,
    Katakana,
    /// Multilingual.
    PC850,
    /// Portuguese.
    PC860,
    /// Canadian-French.
    PC863,
    /// Nordic.
    PC865,
    WPC1252,
    /// Cyrillic #2.
    PC866,
    /// Latin 2.
    PC852,
    /// Euro.
    PC858,
    ThaiCharCode42,
    ThaiCharCode11,
    ThaiCharCode13,
    ThaiCharCode14,
    ThaiCharCode16,
    ThaiCharCode17,
    ThaiCharCode18,
    UserDefined1,
    UserDefined2,
}

impl CharCodeTable {
    /// The number that the device's published table gives the code page.
    /// The numbers are not contiguous.
    pub open spec fn code_spec(self) -> u8 {
        match self {
            CharCodeTable::PC437 => 0,
            CharCodeTable::Katakana => 1,
            CharCodeTable::PC850 => 2,
            CharCodeTable::PC860 => 3,
            CharCodeTable::PC863 => 4,
            CharCodeTable::PC865 => 5,
            CharCodeTable::WPC1252 => 16,
            CharCodeTable::PC866 => 17,
            CharCodeTable::PC852 => 18,
            CharCodeTable::PC858 => 19,
            CharCodeTable::ThaiCharCode42 => 20,
            CharCodeTable::ThaiCharCode11 => 21,
            CharCodeTable::ThaiCharCode13 => 22,
            CharCodeTable::ThaiCharCode14 => 23,
            CharCodeTable::ThaiCharCode16 => 24,
            CharCodeTable::ThaiCharCode17 => 25,
            CharCodeTable::ThaiCharCode18 => 26,
            CharCodeTable::UserDefined1 => 254,
            CharCodeTable::UserDefined2 => 255,
        }
    }

    /// Every code table, in the order of the device's published table.
    pub open spec fn all_spec() -> Seq<CharCodeTable> {
        seq![
            CharCodeTable::PC437,
            CharCodeTable::Katakana,
            CharCodeTable::PC850,
            CharCodeTable::PC860,
            CharCodeTable::PC863,
            CharCodeTable::PC865,
            CharCodeTable::WPC1252,
            CharCodeTable::PC866,
            CharCodeTable::PC852,
            CharCodeTable::PC858,
            CharCodeTable::ThaiCharCode42,
            CharCodeTable::ThaiCharCode11,
            CharCodeTable::ThaiCharCode13,
            CharCodeTable::ThaiCharCode14,
            CharCodeTable::ThaiCharCode16,
            CharCodeTable::ThaiCharCode17,
            CharCodeTable::ThaiCharCode18,
            CharCodeTable::UserDefined1,
            CharCodeTable::UserDefined2,
        ]
    }

    /// Every code table, in the order of the device's published table.
    pub fn all() -> (tables: Vec<CharCodeTable>)
        ensures
            tables@ == CharCodeTable::all_spec(),
    {
        let mut tables: Vec<CharCodeTable> = Vec::with_capacity(19);
        tables.push(CharCodeTable::PC437);
        tables.push(CharCodeTable::Katakana);
        tables.push(CharCodeTable::PC850);
        tables.push(CharCodeTable::PC860);
        tables.push(CharCodeTable::PC863);
        tables.push(CharCodeTable::PC865);
        tables.push(CharCodeTable::WPC1252);
        tables.push(CharCodeTable::PC866);
        tables.push(CharCodeTable::PC852);
        tables.push(CharCodeTable::PC858);
        tables.push(CharCodeTable::ThaiCharCode42);
        tables.push(CharCodeTable::ThaiCharCode11);
        tables.push(CharCodeTable::ThaiCharCode13);
        tables.push(CharCodeTable::ThaiCharCode14);
        tables.push(CharCodeTable::ThaiCharCode16);
        tables.push(CharCodeTable::ThaiCharCode17);
        tables.push(CharCodeTable::ThaiCharCode18);
        tables.push(CharCodeTable::UserDefined1);
        tables.push(CharCodeTable::UserDefined2);
        tables
    }

    #[verifier::when_used_as_spec(code_spec)]
    pub fn code(self) -> (code: u8)
        ensures
            code == self.code_spec(),
    {
        match self {
            CharCodeTable::PC437 => 0,
            CharCodeTable::Katakana => 1,
            CharCodeTable::PC850 => 2,
            CharCodeTable::PC860 => 3,
            CharCodeTable::PC863 => 4,
            CharCodeTable::PC865 => 5,
            CharCodeTable::WPC1252 => 16,
            CharCodeTable::PC866 => 17,
            CharCodeTable::PC852 => 18,
            CharCodeTable::PC858 => 19,
            CharCodeTable::ThaiCharCode42 => 20,
            CharCodeTable::ThaiCharCode11 => 21,
            CharCodeTable::ThaiCharCode13 => 22,
            CharCodeTable::ThaiCharCode14 => 23,
            CharCodeTable::ThaiCharCode16 => 24,
            CharCodeTable::ThaiCharCode17 => 25,
            CharCodeTable::ThaiCharCode18 => 26,
            CharCodeTable::UserDefined1 => 254,
            CharCodeTable::UserDefined2 => 255,
        }
    }
}

/// The parameter of the reserved "select paper sensor mode" command.
#[derive(Clone, Copy, Debug, PartialEq, Eq, Structural)]
pub struct PaperSensorMode {
    pub raw: u8,
}

/// Where a line stands between the margins.
#[derive(Clone, Copy, Debug, PartialEq, Eq, Structural)]
pub enum Justification {
    Left,
    Center,
    Right,
}

impl Justification {
    /// The number that the protocol gives the justification.
    pub open spec fn code_spec(self) -> u8 {
        match self {
            Justification::Left => 0,
            Justification::Center => 1,
            Justification::Right => 2,
        }
    }

    #[verifier::when_used_as_spec(code_spec)]
    pub fn code(self) -> (code: u8)
        ensures
            code == self.code_spec(),
    {
        match self {
            Justification::Left => 0,
            Justification::Center => 1,
            Justification::Right => 2,
        }
    }
}

/// The character font.
#[derive(Clone, Copy, Debug, PartialEq, Eq, Structural)]
pub enum Font {
    A,
    B,
    /// Not every model has a third font.
    C,
}

impl Font {
    /// The number that the protocol gives the font.
    pub open spec fn code_spec(self) -> u8 {
        match self {
            Font::A => 0,
            Font::B => 1,
            Font::C => 2,
        }
    }

    #[verifier::when_used_as_spec(code_spec)]
    pub fn code(self) -> (code: u8)
        ensures
            code == self.code_spec(),
    {
        match self {
            Font::A => 0,
            Font::B => 1,
            Font::C => 2,
        }
    }
}

/// The thickness of the underline.
#[derive(Clone, Copy, Debug, PartialEq, Eq, Structural)]
pub enum UnderlineMode {
    Off,
    OneDot,
    TwoDot,
}

impl UnderlineMode {
    /// The number that the protocol gives the mode.
    pub open spec fn code_spec(self) -> u8 {
        match self {
            UnderlineMode::Off => 0,
            UnderlineMode::OneDot => 1,
            UnderlineMode::TwoDot => 2,
        }
    }

    #[verifier::when_used_as_spec(code_spec)]
    pub fn code(self) -> (code: u8)
        ensures
            code == self.code_spec(),
    {
        match self {
            UnderlineMode::Off => 0,
            UnderlineMode::OneDot => 1,
            UnderlineMode::TwoDot => 2,
        }
    }
}

/// The name of a command without its parameter.
#[derive(Clone, Copy, Debug, PartialEq, Eq, Structural)]
pub enum CommandKind {
    InitializePrinter,
    PrintAndLineFeed,
    SelectPrintMode,
    SelectUnderlineMode,
    SelectEmphasized,
    SelectDoubleStrike,
    SelectFont,
    SelectJustification,
    SelectPaperSensorMode,
    PrintAndFeedLines,
    PrintAndReverseFeedLines,
    GeneratePulse,
    SelectPrintColor,
    SelectCharCodeTable,
    SelectReversePrinting,
    CutPaper,
    SelectBarCodeHeight,
    PrintBarCode,
    Text,
}

impl CommandKind {
    /// Whether the protocol names the command while this library has no
    /// encoding for it.
    pub open spec fn is_reserved_spec(self) -> bool {
        self == CommandKind::SelectPaperSensorMode || self == CommandKind::GeneratePulse || self
            == CommandKind::PrintBarCode
    }

    #[verifier::when_used_as_spec(is_reserved_spec)]
    pub fn is_reserved(self) -> (reserved: bool)
        ensures
            reserved == self.is_reserved_spec(),
    {
        match self {
            CommandKind::SelectPaperSensorMode
            | CommandKind::GeneratePulse
            | CommandKind::PrintBarCode => true,
            _ => false,
        }
    }
}

/// One print directive. Each has a single canonical encoding, except the
/// reserved ones, which have none.
#[derive(Clone, Copy, Debug, PartialEq, Eq)]
pub enum EscPosCmd<'s> {
    InitializePrinter,
    PrintAndLineFeed,
    SelectPrintMode(PrintMode),
    SelectUnderlineMode(UnderlineMode),
    SelectEmphasized(bool),
    SelectDoubleStrike(bool),
    SelectFont(Font),
    SelectJustification(Justification),
    /// Reserved.
    SelectPaperSensorMode(PaperSensorMode),
    PrintAndFeedLines(u8),
    PrintAndReverseFeedLines(u8),
    /// Reserved.
    GeneratePulse(bool),
    /// `true` selects the second color.
    SelectPrintColor(bool),
    SelectCharCodeTable(CharCodeTable),
    SelectReversePrinting(bool),
    CutPaper(CutMode),
    SelectBarCodeHeight(u8),
    /// Reserved.
    PrintBarCode(u8),
    /// Text, sent as its UTF-8 bytes.
    Text(&'s str),
}

/// A prefix, an opcode and one parameter byte.
pub open spec fn frame_spec(prefix: u8, opcode: u8, parameter: u8) -> Seq<u8> {
    seq![prefix, opcode, parameter]
}

/// Builds the three bytes of a command with one parameter.
fn frame(prefix: u8, opcode: u8, parameter: u8) -> (bytes: Vec<u8>)
    ensures
        bytes@ == frame_spec(prefix, opcode, parameter),
{
    let mut bytes: Vec<u8> = Vec::with_capacity(3);
    bytes.push(prefix);
    bytes.push(opcode);
    bytes.push(parameter);
    bytes
}

impl<'s> EscPosCmd<'s> {
    /// The name of the command, without its parameter.
    pub open spec fn kind_spec(&self) -> CommandKind {
        match *self {
            EscPosCmd::InitializePrinter => CommandKind::InitializePrinter,
            EscPosCmd::PrintAndLineFeed => CommandKind::PrintAndLineFeed,
            EscPosCmd::SelectPrintMode(_) => CommandKind::SelectPrintMode,
            EscPosCmd::SelectUnderlineMode(_) => CommandKind::SelectUnderlineMode,
            EscPosCmd::SelectEmphasized(_) => CommandKind::SelectEmphasized,
            EscPosCmd::SelectDoubleStrike(_) => CommandKind::SelectDoubleStrike,
            EscPosCmd::SelectFont(_) => CommandKind::SelectFont,
            EscPosCmd::SelectJustification(_) => CommandKind::SelectJustification,
            EscPosCmd::SelectPaperSensorMode(_) => CommandKind::SelectPaperSensorMode,
            EscPosCmd::PrintAndFeedLines(_) => CommandKind::PrintAndFeedLines,
            EscPosCmd::PrintAndReverseFeedLines(_) => CommandKind::PrintAndReverseFeedLines,
            EscPosCmd::GeneratePulse(_) => CommandKind::GeneratePulse,
            EscPosCmd::SelectPrintColor(_) => CommandKind::SelectPrintColor,
            EscPosCmd::SelectCharCodeTable(_) => CommandKind::SelectCharCodeTable,
            EscPosCmd::SelectReversePrinting(_) => CommandKind::SelectReversePrinting,
            EscPosCmd::CutPaper(_) => CommandKind::CutPaper,
            EscPosCmd::SelectBarCodeHeight(_) => CommandKind::SelectBarCodeHeight,
            EscPosCmd::PrintBarCode(_) => CommandKind::PrintBarCode,
            EscPosCmd::Text(_) => CommandKind::Text,
        }
    }

    /// The bytes that stand for the command on the wire, byte for byte as
    /// the device expects them; `None` for a reserved command.
    pub open spec fn encoding(self) -> Option<Seq<u8>> {
        match self {
            EscPosCmd::InitializePrinter => Some(seq![ESC, OP_INITIALIZE]),
            EscPosCmd::PrintAndLineFeed => Some(seq![LF]),
            EscPosCmd::SelectPrintMode(mode) => Some(
                frame_spec(ESC, OP_PRINT_MODE, mode.byte_value()),
            ),
            EscPosCmd::SelectUnderlineMode(mode) => Some(
                frame_spec(ESC, OP_UNDERLINE, digit_spec(mode.code_spec())),
            ),
            EscPosCmd::SelectEmphasized(on) => Some(frame_spec(ESC, OP_EMPHASIZED, switch_spec(on))),
            EscPosCmd::SelectDoubleStrike(on) => Some(
                frame_spec(ESC, OP_DOUBLE_STRIKE, switch_spec(on)),
            ),
            EscPosCmd::SelectFont(font) => Some(
                frame_spec(ESC, OP_FONT, digit_spec(font.code_spec())),
            ),
            EscPosCmd::SelectJustification(justification) => Some(
                frame_spec(ESC, OP_JUSTIFICATION, digit_spec(justification.code_spec())),
            ),
            EscPosCmd::SelectPaperSensorMode(_) => None,
            EscPosCmd::PrintAndFeedLines(lines) => Some(frame_spec(ESC, OP_FEED_LINES, lines)),
            EscPosCmd::PrintAndReverseFeedLines(lines) => Some(
                frame_spec(ESC, OP_REVERSE_FEED_LINES, lines),
            ),
            EscPosCmd::GeneratePulse(_) => None,
            EscPosCmd::SelectPrintColor(second) => Some(
                frame_spec(GS, OP_PRINT_COLOR, switch_spec(second)),
            ),
            EscPosCmd::SelectCharCodeTable(table) => Some(
                frame_spec(ESC, OP_CHAR_CODE_TABLE, table.code_spec()),
            ),
            EscPosCmd::SelectReversePrinting(on) => Some(
                frame_spec(GS, OP_REVERSE_PRINTING, switch_spec(on)),
            ),
            EscPosCmd::CutPaper(mode) => Some(
                frame_spec(GS, OP_CUT_PAPER, digit_spec(mode.code_spec())),
            ),
            EscPosCmd::SelectBarCodeHeight(height) => Some(
                frame_spec(GS, OP_BAR_CODE_HEIGHT, height),
            ),
            EscPosCmd::PrintBarCode(_) => None,
            EscPosCmd::Text(text) => Some(encode_utf8(text@)),
        }
    }

    /// The encoding of a command that has one.
    pub open spec fn wire_bytes(self) -> Seq<u8>
        recommends
            self.encoding() is Some,
    {
        self.encoding()->Some_0
    }

    #[verifier::when_used_as_spec(kind_spec)]
    pub fn kind(&self) -> (kind: CommandKind)
        ensures
            kind == self.kind_spec(),
    {
        match self {
            EscPosCmd::InitializePrinter => CommandKind::InitializePrinter,
            EscPosCmd::PrintAndLineFeed => CommandKind::PrintAndLineFeed,
            EscPosCmd::SelectPrintMode(_) => CommandKind::SelectPrintMode,
            EscPosCmd::SelectUnderlineMode(_) => CommandKind::SelectUnderlineMode,
            EscPosCmd::SelectEmphasized(_) => CommandKind::SelectEmphasized,
            EscPosCmd::SelectDoubleStrike(_) => CommandKind::SelectDoubleStrike,
            EscPosCmd::SelectFont(_) => CommandKind::SelectFont,
            EscPosCmd::SelectJustification(_) => CommandKind::SelectJustification,
            EscPosCmd::SelectPaperSensorMode(_) => CommandKind::SelectPaperSensorMode,
            EscPosCmd::PrintAndFeedLines(_) => CommandKind::PrintAndFeedLines,
            EscPosCmd::PrintAndReverseFeedLines(_) => CommandKind::PrintAndReverseFeedLines,
            EscPosCmd::GeneratePulse(_) => CommandKind::GeneratePulse,
            EscPosCmd::SelectPrintColor(_) => CommandKind::SelectPrintColor,
            EscPosCmd::SelectCharCodeTable(_) => CommandKind::SelectCharCodeTable,
            EscPosCmd::SelectReversePrinting(_) => CommandKind::SelectReversePrinting,
            EscPosCmd::CutPaper(_) => CommandKind::CutPaper,
            EscPosCmd::SelectBarCodeHeight(_) => CommandKind::SelectBarCodeHeight,
            EscPosCmd::PrintBarCode(_) => CommandKind::PrintBarCode,
            EscPosCmd::Text(_) => CommandKind::Text,
        }
    }

    /// Encodes the command. A reserved command fails with `Unsupported` and
    /// yields no byte at all; every other command succeeds.
    pub fn encode(&self) -> (encoded: Result<Vec<u8>, PrinterError>)
        ensures
            encoded is Err <==> self.kind().is_reserved(),
            match encoded {
                Ok(bytes) => self.encoding() == Some(bytes@),
                Err(error) => self.encoding() is None && error == PrinterError::Unsupported(
                    self.kind(),
                ),
            },
    {
        match *self {
            EscPosCmd::InitializePrinter => {
                let mut bytes: Vec<u8> = Vec::with_capacity(2);
                bytes.push(ESC);
                bytes.push(OP_INITIALIZE);
                Ok(bytes)
            },
            EscPosCmd::PrintAndLineFeed => {
                let mut bytes: Vec<u8> = Vec::with_capacity(1);
                bytes.push(LF);
                Ok(bytes)
            },
            EscPosCmd::SelectPrintMode(mode) => Ok(frame(ESC, OP_PRINT_MODE, mode.to_byte())),
            EscPosCmd::SelectUnderlineMode(mode) => Ok(frame(ESC, OP_UNDERLINE, digit(mode.code()))),
            EscPosCmd::SelectEmphasized(on) => Ok(frame(ESC, OP_EMPHASIZED, switch(on))),
            EscPosCmd::SelectDoubleStrike(on) => Ok(frame(ESC, OP_DOUBLE_STRIKE, switch(on))),
            EscPosCmd::SelectFont(font) => Ok(frame(ESC, OP_FONT, digit(font.code()))),
            EscPosCmd::SelectJustification(justification) => Ok(
                frame(ESC, OP_JUSTIFICATION, digit(justification.code())),
            ),
            EscPosCmd::PrintAndFeedLines(lines) => Ok(frame(ESC, OP_FEED_LINES, lines)),
            EscPosCmd::PrintAndReverseFeedLines(lines) => Ok(
                frame(ESC, OP_REVERSE_FEED_LINES, lines),
            ),
            EscPosCmd::SelectPrintColor(second) => Ok(frame(GS, OP_PRINT_COLOR, switch(second))),
            EscPosCmd::SelectCharCodeTable(table) => Ok(
                frame(ESC, OP_CHAR_CODE_TABLE, table.code()),
            ),
            EscPosCmd::SelectReversePrinting(on) => Ok(frame(GS, OP_REVERSE_PRINTING, switch(on))),
            EscPosCmd::CutPaper(mode) => Ok(frame(GS, OP_CUT_PAPER, digit(mode.code()))),
            EscPosCmd::SelectBarCodeHeight(height) => Ok(frame(GS, OP_BAR_CODE_HEIGHT, height)),
            EscPosCmd::Text(text) => Ok(text.as_bytes_vec()),
            EscPosCmd::SelectPaperSensorMode(_)
            | EscPosCmd::GeneratePulse(_)
            | EscPosCmd::PrintBarCode(_) => Err(PrinterError::Unsupported(self.kind())),
        }
    }

    /// "Print and feed lines" for a count that is yet to be checked: a count
    /// above 255 does not fit the parameter byte and is rejected.
    pub fn feed_lines(lines: usize) -> (command: Result<EscPosCmd<'static>, PrinterError>)
        ensures
            lines <= u8::MAX ==> command == Ok::<EscPosCmd<'static>, PrinterError>(
                EscPosCmd::PrintAndFeedLines(lines as u8),
            ),
            lines > u8::MAX ==> command == Err::<EscPosCmd<'static>, PrinterError>(
                PrinterError::InvalidParameter {
                    kind: CommandKind::PrintAndFeedLines,
                    value: lines,
                },
            ),
    {
        if lines <= 255 {
            Ok(EscPosCmd::PrintAndFeedLines(lines as u8))
        } else {
            Err(PrinterError::InvalidParameter { kind: CommandKind::PrintAndFeedLines, value: lines })
        }
    }

    /// "Print and reverse-feed lines" for a count that is yet to be checked:
    /// a count above 255 does not fit the parameter byte and is rejected.
    pub fn reverse_feed_lines(lines: usize) -> (command: Result<EscPosCmd<'static>, PrinterError>)
        ensures
            lines <= u8::MAX ==> command == Ok::<EscPosCmd<'static>, PrinterError>(
                EscPosCmd::PrintAndReverseFeedLines(lines as u8),
            ),
            lines > u8::MAX ==> command == Err::<EscPosCmd<'static>, PrinterError>(
                PrinterError::InvalidParameter {
                    kind: CommandKind::PrintAndReverseFeedLines,
                    value: lines,
                },
            ),
    {
        if lines <= 255 {
            Ok(EscPosCmd::PrintAndReverseFeedLines(lines as u8))
        } else {
            Err(
                PrinterError::InvalidParameter {
                    kind: CommandKind::PrintAndReverseFeedLines,
                    value: lines,
                },
            )
        }
    }

    /// "Select bar code height" for a height that is yet to be checked: a
    /// height above 255 does not fit the parameter byte and is rejected.
    pub fn bar_code_height(height: usize) -> (command: Result<EscPosCmd<'static>, PrinterError>)
        ensures
            height <= u8::MAX ==> command == Ok::<EscPosCmd<'static>, PrinterError>(
                EscPosCmd::SelectBarCodeHeight(height as u8),
            ),
            height > u8::MAX ==> command == Err::<EscPosCmd<'static>, PrinterError>(
                PrinterError::InvalidParameter {
                    kind: CommandKind::SelectBarCodeHeight,
                    value: height,
                },
            ),
    {
        if height <= 255 {
            Ok(EscPosCmd::SelectBarCodeHeight(height as u8))
        } else {
            Err(
                PrinterError::InvalidParameter {
                    kind: CommandKind::SelectBarCodeHeight,
                    value: height,
                },
            )
        }
    }
}

} // verus!
