//! Text with formatting attributes layered on it, rendered as properly
//! nested enable and disable commands.
//!
//! The device keeps its formatting state between writes. Whatever a span
//! switches on, it therefore switches off again, in the opposite order.

use vstd::prelude::*;
use vstd::string::StrSliceExecFns;
use vstd::utf8::encode_utf8;
use crate::command::{EscPosCmd, UnderlineMode};
use crate::print_mode::{PrintFlag, PrintMode};

verus! {

/// One formatting attribute that can be layered on a span of text.
#[derive(Clone, Copy, Debug, PartialEq, Eq, Structural)]
pub enum TextAttribute {
    Emphasize,
    EnlargeHeight,
    EnlargeWidth,
    Underline,
    ReverseVideo,
    ShrinkFont,
}

/// The number of bytes in every enable and every disable marker.
pub const MARKER_LEN: usize = 3;

impl TextAttribute {
    /// The print-mode flag behind the attribute, for the attributes that
    /// are switched through "select print mode". The others have a command
    /// of their own and are layered independently of the print mode.
    pub open spec fn mode_flag_spec(self) -> Option<PrintFlag> {
        match self {
            TextAttribute::EnlargeHeight => Some(PrintFlag::DoubleHeight),
            TextAttribute::EnlargeWidth => Some(PrintFlag::DoubleWidth),
            TextAttribute::ShrinkFont => Some(PrintFlag::FontB),
            TextAttribute::Emphasize => None,
            TextAttribute::Underline => None,
            TextAttribute::ReverseVideo => None,
        }
    }

    /// The print mode that is active inside the attribute, where `active`
    /// is the print mode around it.
    pub open spec fn mode_inside_spec(self, active: PrintMode) -> PrintMode {
        match self.mode_flag_spec() {
            Some(flag) => active.with_spec(flag),
            None => active,
        }
    }

    /// The command that switches the attribute on. "Select print mode"
    /// overwrites the whole flag set, so it carries the flags that are
    /// active already together with the new one.
    pub open spec fn enable_command(self, active: PrintMode) -> EscPosCmd<'static> {
        match self {
            TextAttribute::Emphasize => EscPosCmd::SelectEmphasized(true),
            TextAttribute::Underline => EscPosCmd::SelectUnderlineMode(UnderlineMode::OneDot),
            TextAttribute::ReverseVideo => EscPosCmd::SelectReversePrinting(true),
            TextAttribute::EnlargeHeight | TextAttribute::EnlargeWidth | TextAttribute::ShrinkFont =>
                EscPosCmd::SelectPrintMode(self.mode_inside_spec(active)),
        }
    }

    /// The command that switches the attribute off again: for a print-mode
    /// attribute, the one that puts back the flag set that was active
    /// around it.
    pub open spec fn disable_command(self, active: PrintMode) -> EscPosCmd<'static> {
        match self {
            TextAttribute::Emphasize => EscPosCmd::SelectEmphasized(false),
            TextAttribute::Underline => EscPosCmd::SelectUnderlineMode(UnderlineMode::Off),
            TextAttribute::ReverseVideo => EscPosCmd::SelectReversePrinting(false),
            TextAttribute::EnlargeHeight | TextAttribute::EnlargeWidth | TextAttribute::ShrinkFont =>
                EscPosCmd::SelectPrintMode(active),
        }
    }

    /// The enable marker: the encoding of the enable command.
    pub open spec fn enable_bytes(self, active: PrintMode) -> Seq<u8> {
        self.enable_command(active).wire_bytes()
    }

    /// The disable marker: the encoding of the disable command.
    pub open spec fn disable_bytes(self, active: PrintMode) -> Seq<u8> {
        self.disable_command(active).wire_bytes()
    }

    /// Every attribute.
    pub open spec fn all_spec() -> Seq<TextAttribute> {
        seq![
            TextAttribute::Emphasize,
            TextAttribute::EnlargeHeight,
            TextAttribute::EnlargeWidth,
            TextAttribute::Underline,
            TextAttribute::ReverseVideo,
            TextAttribute::ShrinkFont,
        ]
    }

    /// Every attribute.
    pub fn all() -> (attributes: Vec<TextAttribute>)
        ensures
            attributes@ == TextAttribute::all_spec(),
    {
        let mut attributes: Vec<TextAttribute> = Vec::with_capacity(6);
        attributes.push(TextAttribute::Emphasize);
        attributes.push(TextAttribute::EnlargeHeight);
        attributes.push(TextAttribute::EnlargeWidth);
        attributes.push(TextAttribute::Underline);
        attributes.push(TextAttribute::ReverseVideo);
        attributes.push(TextAttribute::ShrinkFont);
        attributes
    }

    #[verifier::when_used_as_spec(mode_flag_spec)]
    pub fn mode_flag(self) -> (flag: Option<PrintFlag>)
        ensures
            flag == self.mode_flag_spec(),
    {
        match self {
            TextAttribute::EnlargeHeight => Some(PrintFlag::DoubleHeight),
            TextAttribute::EnlargeWidth => Some(PrintFlag::DoubleWidth),
            TextAttribute::ShrinkFont => Some(PrintFlag::FontB),
            _ => None,
        }
    }

    #[verifier::when_used_as_spec(mode_inside_spec)]
    pub fn mode_inside(self, active: PrintMode) -> (inside: PrintMode)
        ensures
            inside == self.mode_inside_spec(active),
    {
        match self.mode_flag() {
            Some(flag) => active.with(flag),
            None => active,
        }
    }

    /// The command that switches the attribute on inside print mode `active`.
    pub fn enable(self, active: PrintMode) -> (command: EscPosCmd<'static>)
        ensures
            command == self.enable_command(active),
    {
        match self {
            TextAttribute::Emphasize => EscPosCmd::SelectEmphasized(true),
            TextAttribute::Underline => EscPosCmd::SelectUnderlineMode(UnderlineMode::OneDot),
            TextAttribute::ReverseVideo => EscPosCmd::SelectReversePrinting(true),
            _ => EscPosCmd::SelectPrintMode(self.mode_inside(active)),
        }
    }

    /// The command that switches the attribute off inside print mode `active`.
    pub fn disable(self, active: PrintMode) -> (command: EscPosCmd<'static>)
        ensures
            command == self.disable_command(active),
    {
        match self {
            TextAttribute::Emphasize => EscPosCmd::SelectEmphasized(false),
            TextAttribute::Underline => EscPosCmd::SelectUnderlineMode(UnderlineMode::Off),
            TextAttribute::ReverseVideo => EscPosCmd::SelectReversePrinting(false),
            _ => EscPosCmd::SelectPrintMode(active),
        }
    }
}

/// The print mode that is active in front of the attribute at `index`: the
/// flags of the print-mode attributes that were applied before it.
pub open spec fn mode_before(attributes: Seq<TextAttribute>, index: int) -> PrintMode
    decreases index,
{
    if index <= 0 {
        PrintMode::empty_spec()
    } else {
        attributes[index - 1].mode_inside_spec(mode_before(attributes, index - 1))
    }
}

/// The enable marker of the attribute at `index`.
pub open spec fn enable_marker(attributes: Seq<TextAttribute>, index: int) -> Seq<u8> {
    attributes[index].enable_bytes(mode_before(attributes, index))
}

/// The disable marker of the attribute at `index`.
pub open spec fn disable_marker(attributes: Seq<TextAttribute>, index: int) -> Seq<u8> {
    attributes[index].disable_bytes(mode_before(attributes, index))
}

/// The enable markers of the first `count` attributes, in the order in
/// which the attributes were applied.
pub open spec fn enable_run(attributes: Seq<TextAttribute>, count: int) -> Seq<u8>
    decreases count,
{
    if count <= 0 {
        Seq::empty()
    } else {
        enable_run(attributes, count - 1) + enable_marker(attributes, count - 1)
    }
}

/// The disable markers of the first `count` attributes, the one that was
/// applied last coming first.
pub open spec fn disable_run(attributes: Seq<TextAttribute>, count: int) -> Seq<u8>
    decreases count,
{
    if count <= 0 {
        Seq::empty()
    } else {
        disable_marker(attributes, count - 1) + disable_run(attributes, count - 1)
    }
}

/// What a span renders to: every enable marker in order of application,
/// the body, and every disable marker in the opposite order.
pub open spec fn rendering(attributes: Seq<TextAttribute>, body: Seq<u8>) -> Seq<u8> {
    enable_run(attributes, attributes.len() as int) + body + disable_run(
        attributes,
        attributes.len() as int,
    )
}

/// The abstract value of a formatted string.
pub struct FmtStrView {
    pub text: Seq<char>,
    /// The attributes, the one that was applied first standing first.
    pub attributes: Seq<TextAttribute>,
}

impl FmtStrView {
    /// The bytes that the formatted string renders to.
    pub open spec fn rendering(self) -> Seq<u8> {
        rendering(self.attributes, encode_utf8(self.text))
    }

    /// The same text with `attribute` applied on top.
    pub open spec fn with(self, attribute: TextAttribute) -> FmtStrView {
        FmtStrView { text: self.text, attributes: self.attributes.push(attribute) }
    }
}

/// A span of text with a stack of formatting attributes.
#[derive(Clone, Debug, PartialEq, Eq)]
pub struct FmtStr {
    text: String,
    attributes: Vec<TextAttribute>,
}

impl View for FmtStr {
    type V = FmtStrView;

    closed spec fn view(&self) -> FmtStrView {
        FmtStrView { text: self.text@, attributes: self.attributes@ }
    }
}

impl FmtStr {
    /// Plain text, without any attribute.
    pub fn new(text: &str) -> (plain: FmtStr)
        ensures
            plain@ == (FmtStrView { text: text@, attributes: Seq::empty() }),
    {
        FmtStr { text: text.to_owned(), attributes: Vec::new() }
    }

    /// The text of the span.
    pub fn text(&self) -> (text: &str)
        ensures
            text@ == self@.text,
    {
        self.text.as_str()
    }

    /// The number of attributes on the span.
    pub fn depth(&self) -> (depth: usize)
        ensures
            depth == self@.attributes.len(),
    {
        self.attributes.len()
    }

    /// Applies `attribute` on top of those that the span has already.
    pub fn with(self, attribute: TextAttribute) -> (formatted: FmtStr)
        ensures
            formatted@ == self@.with(attribute),
    {
        let mut formatted = self;
        formatted.attributes.push(attribute);
        formatted
    }

    /// Bold print.
    pub fn emphasize(self) -> (formatted: FmtStr)
        ensures
            formatted@ == self@.with(TextAttribute::Emphasize),
    {
        self.with(TextAttribute::Emphasize)
    }

    /// Characters of double height.
    pub fn enlarge_height(self) -> (formatted: FmtStr)
        ensures
            formatted@ == self@.with(TextAttribute::EnlargeHeight),
    {
        self.with(TextAttribute::EnlargeHeight)
    }

    /// Characters of double width.
    pub fn enlarge_width(self) -> (formatted: FmtStr)
        ensures
            formatted@ == self@.with(TextAttribute::EnlargeWidth),
    {
        self.with(TextAttribute::EnlargeWidth)
    }

    /// A one-dot underline.
    pub fn underline(self) -> (formatted: FmtStr)
        ensures
            formatted@ == self@.with(TextAttribute::Underline),
    {
        self.with(TextAttribute::Underline)
    }

    /// White on black.
    pub fn reverse_video(self) -> (formatted: FmtStr)
        ensures
            formatted@ == self@.with(TextAttribute::ReverseVideo),
    {
        self.with(TextAttribute::ReverseVideo)
    }

    /// The alternate, condensed font.
    pub fn shrink_font(self) -> (formatted: FmtStr)
        ensures
            formatted@ == self@.with(TextAttribute::ShrinkFont),
    {
        self.with(TextAttribute::ShrinkFont)
    }

    /// Renders the span: enable markers, the text as it is, disable markers.
    pub fn render(&self) -> (bytes: Vec<u8>)
        ensures
            bytes@ == self@.rendering(),
    {
        self.render_around(self.text.as_str().as_bytes_vec())
    }

    /// Renders the attributes of the span around `body` in place of its text.
    pub fn render_around(&self, body: Vec<u8>) -> (bytes: Vec<u8>)
        ensures
            bytes@ == rendering(self@.attributes, body@),
    {
        let ghost attributes = self.attributes@;
        let count = self.attributes.len();
        let mut body = body;
        let mut bytes: Vec<u8> = Vec::new();
        let mut modes: Vec<PrintMode> = Vec::new();
        let mut active = PrintMode::empty();
        let mut index: usize = 0;
        while index < count
            invariant
                attributes == self.attributes@,
                count == attributes.len(),
                index <= count,
                active == mode_before(attributes, index as int),
                modes@.len() == index,
                forall|k: int| 0 <= k < index ==> #[trigger] modes@[k] == mode_before(attributes, k),
                bytes@ == enable_run(attributes, index as int),
            decreases count - index,
        {
            let attribute = self.attributes[index];
            let mut marker = encode_enable(attribute, active);
            bytes.append(&mut marker);
            modes.push(active);
            active = attribute.mode_inside(active);
            index += 1;
        }
        bytes.append(&mut body);
        let ghost enabled = bytes@;
        while index > 0
            invariant
                attributes == self.attributes@,
                count == attributes.len(),
                index <= count,
                modes@.len() == count,
                forall|k: int| 0 <= k < count ==> #[trigger] modes@[k] == mode_before(attributes, k),
                bytes@ + disable_run(attributes, index as int) == enabled + disable_run(
                    attributes,
                    count as int,
                ),
            decreases index,
        {
            index -= 1;
            let attribute = self.attributes[index];
            let mut marker = encode_disable(attribute, modes[index]);
            proof {
                assert(disable_run(attributes, index + 1) == marker@ + disable_run(
                    attributes,
                    index as int,
                ));
                assert((bytes@ + marker@) + disable_run(attributes, index as int) == bytes@ + (
                marker@ + disable_run(attributes, index as int)));
            }
            bytes.append(&mut marker);
        }
        bytes
    }
}

/// Every marker is one command with one parameter byte.
pub proof fn marker_has_three_bytes(attribute: TextAttribute, active: PrintMode)
    ensures
        attribute.enable_bytes(active).len() == MARKER_LEN,
        attribute.disable_bytes(active).len() == MARKER_LEN,
{
}

/// Where the markers stand inside a run of `count` markers.
proof fn lemma_runs(attributes: Seq<TextAttribute>, count: int)
    requires
        0 <= count <= attributes.len(),
    ensures
        enable_run(attributes, count).len() == MARKER_LEN * count,
        disable_run(attributes, count).len() == MARKER_LEN * count,
        forall|i: int|
            0 <= i < count ==> enable_run(attributes, count).subrange(
                MARKER_LEN * i,
                MARKER_LEN * i + MARKER_LEN,
            ) == #[trigger] enable_marker(attributes, i),
        forall|i: int|
            0 <= i < count ==> disable_run(attributes, count).subrange(
                MARKER_LEN * (count - 1 - i),
                MARKER_LEN * (count - i),
            ) == #[trigger] disable_marker(attributes, i),
    decreases count,
{
    if count > 0 {
        lemma_runs(attributes, count - 1);
        let last = count - 1;
        marker_has_three_bytes(attributes[last], mode_before(attributes, last));
        let enables = enable_run(attributes, count);
        let disables = disable_run(attributes, count);
        assert forall|i: int| 0 <= i < count implies enables.subrange(
            MARKER_LEN * i,
            MARKER_LEN * i + MARKER_LEN,
        ) == #[trigger] enable_marker(attributes, i) by {
            if i < last {
                assert(enables.subrange(MARKER_LEN * i, MARKER_LEN * i + MARKER_LEN)
                    =~= enable_run(attributes, last).subrange(
                    MARKER_LEN * i,
                    MARKER_LEN * i + MARKER_LEN,
                ));
            } else {
                assert(enables.subrange(MARKER_LEN * i, MARKER_LEN * i + MARKER_LEN)
                    =~= enable_marker(attributes, last));
            }
        }
        assert forall|i: int| 0 <= i < count implies disables.subrange(
            MARKER_LEN * (count - 1 - i),
            MARKER_LEN * (count - i),
        ) == #[trigger] disable_marker(attributes, i) by {
            if i < last {
                assert(disables.subrange(MARKER_LEN * (count - 1 - i), MARKER_LEN * (count - i))
                    =~= disable_run(attributes, last).subrange(
                    MARKER_LEN * (last - 1 - i),
                    MARKER_LEN * (last - i),
                ));
            } else {
                assert(disables.subrange(MARKER_LEN * (count - 1 - i), MARKER_LEN * (count - i))
                    =~= disable_marker(attributes, last));
            }
        }
    }
}

/// Text without attributes renders to itself.
pub proof fn plain_text_renders_unchanged(body: Seq<u8>)
    ensures
        rendering(Seq::empty(), body) == body,
{
    assert(rendering(Seq::empty(), body) =~= body);
}

/// The last attribute in is the first one out. A span with N attributes
/// renders to N enable markers, the body and N disable markers, and nothing
/// else. The enable marker of the attribute at `i` starts `3 * i` bytes
/// after the front; its disable marker ends `3 * i` bytes before the end.
pub proof fn rendering_is_lifo(attributes: Seq<TextAttribute>, body: Seq<u8>)
    ensures
        ({
            let out = rendering(attributes, body);
            let n = attributes.len() as int;
            &&& out.len() == MARKER_LEN * n + body.len() + MARKER_LEN * n
            &&& forall|i: int|
                0 <= i < n ==> out.subrange(MARKER_LEN * i, MARKER_LEN * i + MARKER_LEN)
                    == #[trigger] enable_marker(attributes, i)
            &&& out.subrange(MARKER_LEN * n, MARKER_LEN * n + body.len()) == body
            &&& forall|i: int|
                0 <= i < n ==> out.subrange(
                    out.len() - MARKER_LEN * i - MARKER_LEN,
                    out.len() - MARKER_LEN * i,
                ) == #[trigger] disable_marker(attributes, i)
        }),
{
    let out = rendering(attributes, body);
    let n = attributes.len() as int;
    let enables = enable_run(attributes, n);
    let disables = disable_run(attributes, n);
    lemma_runs(attributes, n);
    assert(out.subrange(MARKER_LEN * n, MARKER_LEN * n + body.len()) =~= body);
    assert forall|i: int| 0 <= i < n implies out.subrange(
        MARKER_LEN * i,
        MARKER_LEN * i + MARKER_LEN,
    ) == #[trigger] enable_marker(attributes, i) by {
        assert(out.subrange(MARKER_LEN * i, MARKER_LEN * i + MARKER_LEN) =~= enables.subrange(
            MARKER_LEN * i,
            MARKER_LEN * i + MARKER_LEN,
        ));
    }
    assert forall|i: int| 0 <= i < n implies out.subrange(
        out.len() - MARKER_LEN * i - MARKER_LEN,
        out.len() - MARKER_LEN * i,
    ) == #[trigger] disable_marker(attributes, i) by {
        assert(out.subrange(out.len() - MARKER_LEN * i - MARKER_LEN, out.len() - MARKER_LEN * i)
            =~= disables.subrange(MARKER_LEN * (n - 1 - i), MARKER_LEN * (n - i)));
    }
}

/// What stands in front of and at an index does not depend on what is
/// applied later.
proof fn lemma_later_attribute_changes_nothing(
    attributes: Seq<TextAttribute>,
    attribute: TextAttribute,
    count: int,
)
    requires
        0 <= count <= attributes.len(),
    ensures
        mode_before(attributes.push(attribute), count) == mode_before(attributes, count),
        enable_run(attributes.push(attribute), count) == enable_run(attributes, count),
        disable_run(attributes.push(attribute), count) == disable_run(attributes, count),
    decreases count,
{
    if count > 0 {
        lemma_later_attribute_changes_nothing(attributes, attribute, count - 1);
        assert(attributes.push(attribute)[count - 1] == attributes[count - 1]);
    }
}

/// Applying one more attribute wraps its two markers around the body and
/// leaves every other marker as it was: the new attribute is the innermost.
pub proof fn rendering_nests(
    attributes: Seq<TextAttribute>,
    attribute: TextAttribute,
    body: Seq<u8>,
)
    ensures
        ({
            let active = mode_before(attributes, attributes.len() as int);
            rendering(attributes.push(attribute), body) == rendering(
                attributes,
                attribute.enable_bytes(active) + body + attribute.disable_bytes(active),
            )
        }),
{
    let n = attributes.len() as int;
    let longer = attributes.push(attribute);
    let active = mode_before(attributes, n);
    lemma_later_attribute_changes_nothing(attributes, attribute, n);
    assert(longer[n] == attribute);
    assert(enable_run(longer, n + 1) == enable_run(attributes, n) + attribute.enable_bytes(active));
    assert(disable_run(longer, n + 1) == attribute.disable_bytes(active) + disable_run(
        attributes,
        n,
    ));
    assert(rendering(longer, body) =~= rendering(
        attributes,
        attribute.enable_bytes(active) + body + attribute.disable_bytes(active),
    ));
}

/// Encodes the enable marker of `attribute`. No enable command is reserved.
fn encode_enable(attribute: TextAttribute, active: PrintMode) -> (bytes: Vec<u8>)
    ensures
        bytes@ == attribute.enable_bytes(active),
        bytes@.len() == MARKER_LEN,
{
    match attribute.enable(active).encode() {
        Ok(bytes) => bytes,
        Err(_) => Vec::new(),
    }
}

/// Encodes the disable marker of `attribute`. No disable command is reserved.
fn encode_disable(attribute: TextAttribute, active: PrintMode) -> (bytes: Vec<u8>)
    ensures
        bytes@ == attribute.disable_bytes(active),
        bytes@.len() == MARKER_LEN,
{
    match attribute.disable(active).encode() {
        Ok(bytes) => bytes,
        Err(_) => Vec::new(),
    }
}

} // verus!
