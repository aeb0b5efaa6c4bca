//! The printer session: commands go in, the bytes for the transport come out.
//!
//! The session performs no I/O. It queues the bytes of every directive in the
//! order of the calls; whoever owns the transport reads the queue with
//! [`Printer::pending_bytes`], writes it out and reports with [`Printer::settle`].

use vstd::prelude::*;
use vstd::utf8::encode_utf8;
use vstd::string::StrSliceExecFns;
use crate::command::{CharCodeTable, CutMode, EscPosCmd};
use crate::error::PrinterError;
use crate::format::{rendering, FmtStr, TextAttribute};
use crate::protocol::{ESC, LF, OP_INITIALIZE};
use crate::text::{escape, escape_spec};

verus! {

/// Whether `stream` begins with the encoding of "initialize printer".
pub open spec fn starts_with_initialize(stream: Seq<u8>) -> bool {
    stream.len() >= 2 && stream[0] == ESC && stream[1] == OP_INITIALIZE
}

/// The bytes that `text` is sent as: its UTF-8 encoding after escaping.
pub open spec fn safe_bytes(text: Seq<char>) -> Seq<u8> {
    encode_utf8(escape_spec(text))
}

/// `bytes` as a line of its own.
pub open spec fn line(bytes: Seq<u8>) -> Seq<u8> {
    bytes + seq![LF]
}

/// The sentence that the test page repeats.
pub open spec fn test_sentence() -> Seq<char> {
    "Dies ist ein Test"@
}

/// The first part of the test page: the sentence once with each attribute
/// alone, for the first `count` attributes.
pub open spec fn single_attribute_lines(count: int) -> Seq<u8>
    decreases count,
{
    if count <= 0 {
        Seq::empty()
    } else {
        single_attribute_lines(count - 1) + line(
            rendering(seq![TextAttribute::all_spec()[count - 1]], safe_bytes(test_sentence())),
        )
    }
}

/// The second part of the test page: the sentence with the first two
/// attributes on top of each other, then with the first three, and so on up
/// to the first `count`.
pub open spec fn stacked_attribute_lines(count: int) -> Seq<u8>
    decreases count,
{
    if count <= 1 {
        Seq::empty()
    } else {
        stacked_attribute_lines(count - 1) + line(
            rendering(TextAttribute::all_spec().take(count), safe_bytes(test_sentence())),
        )
    }
}

/// The third part of the test page: the sentence once under each of the
/// first `count` character code tables.
pub open spec fn code_table_lines(count: int) -> Seq<u8>
    decreases count,
{
    if count <= 0 {
        Seq::empty()
    } else {
        code_table_lines(count - 1) + EscPosCmd::SelectCharCodeTable(
            CharCodeTable::all_spec()[count - 1],
        ).wire_bytes() + line(safe_bytes(test_sentence()))
    }
}

/// The whole test page: the plain sentence, the three parts above, the
/// first code table selected again, ten lines of feed and a full cut.
pub open spec fn test_page() -> Seq<u8> {
    line(safe_bytes(test_sentence())) + single_attribute_lines(
        TextAttribute::all_spec().len() as int,
    ) + stacked_attribute_lines(TextAttribute::all_spec().len() as int) + code_table_lines(
        CharCodeTable::all_spec().len() as int,
    ) + EscPosCmd::SelectCharCodeTable(CharCodeTable::PC437).wire_bytes()
        + EscPosCmd::PrintAndFeedLines(10).wire_bytes() + EscPosCmd::CutPaper(
        CutMode::Full,
    ).wire_bytes()
}

/// A session with one printer.
pub struct Printer {
    pending: Vec<u8>,
    collected: Ghost<Seq<u8>>,
}

impl Printer {
    /// Every byte that the session has issued since it was opened.
    pub closed spec fn issued(&self) -> Seq<u8> {
        self.collected@ + self.pending@
    }

    /// The issued bytes that the transport has not collected yet.
    pub closed spec fn pending(&self) -> Seq<u8> {
        self.pending@
    }

    #[verifier::type_invariant]
    spec fn opened_with_initialize(&self) -> bool {
        starts_with_initialize(self.issued())
    }

    /// Whether `self` comes from `before` by issuing `bytes` and nothing else.
    pub open spec fn follows(&self, before: &Printer, bytes: Seq<u8>) -> bool {
        &&& self.issued() == before.issued() + bytes
        &&& self.pending() == before.pending() + bytes
        &&& starts_with_initialize(self.issued())
    }

    /// Opens a session. The first thing it issues is "initialize printer".
    pub fn new() -> (printer: Printer)
        ensures
            printer.issued() == EscPosCmd::InitializePrinter.wire_bytes(),
            printer.pending() == printer.issued(),
    {
        let mut pending: Vec<u8> = Vec::new();
        pending.push(ESC);
        pending.push(OP_INITIALIZE);
        Printer { pending, collected: Ghost(Seq::empty()) }
    }

    /// Queues `bytes` behind what is pending.
    fn issue(&mut self, bytes: Vec<u8>)
        ensures
            final(self).follows(old(self), bytes@),
    {
        proof {
            use_type_invariant(&*self);
        }
        let ghost issued = bytes@;
        let mut bytes = bytes;
        let mut session = Printer { pending: Vec::new(), collected: Ghost(self.issued()) };
        core::mem::swap(self, &mut session);
        let Printer { pending, collected } = session;
        let mut pending = pending;
        pending.append(&mut bytes);
        *self = Printer { pending, collected };
        proof {
            let before = old(self);
            assert(self.issued() =~= before.issued() + issued);
        }
    }

    /// Encodes one command and issues its bytes. A reserved command fails
    /// and issues nothing.
    pub fn exec(&mut self, cmd: EscPosCmd) -> (done: Result<(), PrinterError>)
        ensures
            done is Err <==> cmd.kind().is_reserved(),
            match done {
                Ok(()) => cmd.encoding() is Some && final(self).follows(
                    old(self),
                    cmd.wire_bytes(),
                ),
                Err(error) => cmd.encoding() is None && error == PrinterError::Unsupported(
                    cmd.kind(),
                ) && *final(self) == *old(self),
            },
    {
        match cmd.encode() {
            Ok(bytes) => {
                self.issue(bytes);
                Ok(())
            },
            Err(error) => Err(error),
        }
    }

    /// Escapes `text` and issues it.
    pub fn write(&mut self, text: &str)
        ensures
            final(self).follows(old(self), safe_bytes(text@)),
    {
        let escaped = escape(text);
        let _ = self.exec(EscPosCmd::Text(escaped.as_str()));
    }

    /// Escapes the text of `span` and issues it between the markers of its
    /// attributes.
    pub fn write_formatted(&mut self, span: &FmtStr)
        ensures
            final(self).follows(old(self), rendering(span@.attributes, safe_bytes(span@.text))),
    {
        let escaped = escape(span.text());
        self.issue(span.render_around(escaped.as_str().as_bytes_vec()));
    }

    /// Issues `text`, four lines of feed and a full cut. The three go out in
    /// this order and as three commands: nothing makes them atomic.
    pub fn write_and_cut(&mut self, text: &str)
        ensures
            final(self).follows(
                old(self),
                safe_bytes(text@) + EscPosCmd::PrintAndFeedLines(4).wire_bytes()
                    + EscPosCmd::CutPaper(CutMode::Full).wire_bytes(),
            ),
    {
        let ghost start = *self;
        self.write(text);
        let ghost written = *self;
        let _ = self.exec(EscPosCmd::PrintAndFeedLines(4));
        proof {
            follows_composes(
                start,
                written,
                *self,
                safe_bytes(text@),
                EscPosCmd::PrintAndFeedLines(4).wire_bytes(),
            );
        }
        let ghost fed = *self;
        let _ = self.exec(EscPosCmd::CutPaper(CutMode::Full));
        proof {
            follows_composes(
                start,
                fed,
                *self,
                safe_bytes(text@) + EscPosCmd::PrintAndFeedLines(4).wire_bytes(),
                EscPosCmd::CutPaper(CutMode::Full).wire_bytes(),
            );
        }
    }

    /// Escapes `text` and issues it as a line of its own.
    fn write_line(&mut self, text: &str)
        ensures
            final(self).follows(old(self), line(safe_bytes(text@))),
    {
        let ghost start = *self;
        self.write(text);
        let ghost written = *self;
        let _ = self.exec(EscPosCmd::PrintAndLineFeed);
        proof {
            follows_composes(start, written, *self, safe_bytes(text@), seq![LF]);
        }
    }

    /// Issues `span` as a line of its own.
    fn write_formatted_line(&mut self, span: &FmtStr)
        ensures
            final(self).follows(
                old(self),
                line(rendering(span@.attributes, safe_bytes(span@.text))),
            ),
    {
        let ghost start = *self;
        self.write_formatted(span);
        let ghost written = *self;
        let _ = self.exec(EscPosCmd::PrintAndLineFeed);
        proof {
            follows_composes(
                start,
                written,
                *self,
                rendering(span@.attributes, safe_bytes(span@.text)),
                seq![LF],
            );
        }
    }

    /// Issues a page that shows what the printer can do: a sentence plain,
    /// under every attribute, under growing stacks of attributes and under
    /// every character code table, then ten lines of feed and a full cut.
    pub fn print_test_page(&mut self)
        ensures
            final(self).follows(old(self), test_page()),
    {
        let ghost start = *self;
        let sentence = "Dies ist ein Test";
        let attributes = TextAttribute::all();
        let tables = CharCodeTable::all();
        self.write_line(sentence);
        let ghost head = line(safe_bytes(test_sentence()));

        let mut index: usize = 0;
        while index < attributes.len()
            invariant
                attributes@ == TextAttribute::all_spec(),
                sentence@ == test_sentence(),
                index <= attributes.len(),
                self.follows(&start, head + single_attribute_lines(index as int)),
            decreases attributes.len() - index,
        {
            let ghost before = *self;
            let span = FmtStr::new(sentence).with(attributes[index]);
            assert(span@.attributes == seq![TextAttribute::all_spec()[index as int]]);
            self.write_formatted_line(&span);
            proof {
                follows_composes(
                    start,
                    before,
                    *self,
                    head + single_attribute_lines(index as int),
                    line(rendering(span@.attributes, safe_bytes(span@.text))),
                );
                assert(head + single_attribute_lines(index + 1) == head + single_attribute_lines(
                    index as int,
                ) + line(rendering(span@.attributes, safe_bytes(span@.text))));
            }
            index += 1;
        }
        let ghost singles = head + single_attribute_lines(attributes.len() as int);

        let mut stacked = FmtStr::new(sentence);
        let mut index: usize = 0;
        while index < attributes.len()
            invariant
                attributes@ == TextAttribute::all_spec(),
                sentence@ == test_sentence(),
                index <= attributes.len(),
                stacked@.text == test_sentence(),
                stacked@.attributes == TextAttribute::all_spec().take(index as int),
                self.follows(&start, singles + stacked_attribute_lines(index as int)),
            decreases attributes.len() - index,
        {
            let ghost before = *self;
            stacked = stacked.with(attributes[index]);
            index += 1;
            assert(stacked@.attributes == TextAttribute::all_spec().take(index as int));
            if index >= 2 {
                self.write_formatted_line(&stacked);
                proof {
                    follows_composes(
                        start,
                        before,
                        *self,
                        singles + stacked_attribute_lines(index - 1),
                        line(rendering(stacked@.attributes, safe_bytes(stacked@.text))),
                    );
                    assert(singles + stacked_attribute_lines(index as int) == singles
                        + stacked_attribute_lines(index - 1) + line(
                        rendering(stacked@.attributes, safe_bytes(stacked@.text)),
                    ));
                }
            }
        }
        let ghost stacks = singles + stacked_attribute_lines(attributes.len() as int);

        let mut index: usize = 0;
        while index < tables.len()
            invariant
                tables@ == CharCodeTable::all_spec(),
                sentence@ == test_sentence(),
                index <= tables.len(),
                self.follows(&start, stacks + code_table_lines(index as int)),
            decreases tables.len() - index,
        {
            let ghost before = *self;
            let select = EscPosCmd::SelectCharCodeTable(tables[index]);
            let _ = self.exec(select);
            let ghost selected = *self;
            self.write_line(sentence);
            proof {
                follows_composes(
                    before,
                    selected,
                    *self,
                    select.wire_bytes(),
                    line(safe_bytes(test_sentence())),
                );
                follows_composes(
                    start,
                    before,
                    *self,
                    stacks + code_table_lines(index as int),
                    select.wire_bytes() + line(safe_bytes(test_sentence())),
                );
                assert(stacks + code_table_lines(index + 1) == stacks + code_table_lines(
                    index as int,
                ) + (select.wire_bytes() + line(safe_bytes(test_sentence()))));
            }
            index += 1;
        }
        let ghost listed = stacks + code_table_lines(tables.len() as int);

        let ghost before = *self;
        let _ = self.exec(EscPosCmd::SelectCharCodeTable(CharCodeTable::PC437));
        proof {
            follows_composes(
                start,
                before,
                *self,
                listed,
                EscPosCmd::SelectCharCodeTable(CharCodeTable::PC437).wire_bytes(),
            );
        }
        let ghost before = *self;
        let _ = self.exec(EscPosCmd::PrintAndFeedLines(10));
        proof {
            follows_composes(
                start,
                before,
                *self,
                listed + EscPosCmd::SelectCharCodeTable(CharCodeTable::PC437).wire_bytes(),
                EscPosCmd::PrintAndFeedLines(10).wire_bytes(),
            );
        }
        let ghost before = *self;
        let _ = self.exec(EscPosCmd::CutPaper(CutMode::Full));
        proof {
            follows_composes(
                start,
                before,
                *self,
                listed + EscPosCmd::SelectCharCodeTable(CharCodeTable::PC437).wire_bytes()
                    + EscPosCmd::PrintAndFeedLines(10).wire_bytes(),
                EscPosCmd::CutPaper(CutMode::Full).wire_bytes(),
            );
        }
    }

    /// The bytes that wait for the transport, in the order in which they
    /// were issued.
    pub fn pending_bytes(&self) -> (bytes: &[u8])
        ensures
            bytes@ == self.pending(),
            starts_with_initialize(self.issued()),
    {
        proof {
            use_type_invariant(self);
        }
        self.pending.as_slice()
    }

    /// Takes note of what became of the pending bytes: `delivered` says
    /// whether the transport took them. Either way they stop being pending;
    /// bytes that the transport refused are reported with `IoFailure` and
    /// are not sent again.
    pub fn settle(&mut self, delivered: bool) -> (done: Result<(), PrinterError>)
        ensures
            final(self).pending() == Seq::<u8>::empty(),
            final(self).issued() == old(self).issued(),
            starts_with_initialize(final(self).issued()),
            done == if delivered {
                Ok::<(), PrinterError>(())
            } else {
                Err::<(), PrinterError>(PrinterError::IoFailure)
            },
    {
        proof {
            use_type_invariant(&*self);
        }
        let mut settled = Printer { pending: Vec::new(), collected: Ghost(self.issued()) };
        core::mem::swap(self, &mut settled);
        if delivered {
            Ok(())
        } else {
            Err(PrinterError::IoFailure)
        }
    }
}

/// "Initialize printer" is the first thing that a session issues, and
/// nothing that is issued later displaces it.
pub proof fn initialize_stays_first(before: Printer, after: Printer, bytes: Seq<u8>)
    requires
        starts_with_initialize(before.issued()),
        after.issued() == before.issued() + bytes,
    ensures
        starts_with_initialize(after.issued()),
        after.issued().subrange(0, 2) == EscPosCmd::InitializePrinter.wire_bytes(),
{
    assert(after.issued().subrange(0, 2) =~= EscPosCmd::InitializePrinter.wire_bytes());
}

/// What a session issues in two steps, it has issued in one: the bytes of
/// the second step follow those of the first, and nothing comes between.
pub proof fn follows_composes(
    first: Printer,
    second: Printer,
    third: Printer,
    early: Seq<u8>,
    late: Seq<u8>,
)
    requires
        second.follows(&first, early),
        third.follows(&second, late),
    ensures
        third.follows(&first, early + late),
{
    assert(first.issued() + early + late =~= first.issued() + (early + late));
    assert(first.pending() + early + late =~= first.pending() + (early + late));
}

} // verus!
