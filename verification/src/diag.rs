//! The diagnostic formatter: turns what the compiler reports into text that
//! points at the place in the main source.
//!
//! Lines and columns are counted by `typst`'s `Source`. Verus does not see
//! that code: the six items at the top of this file state what this crate
//! relies on. Each of the three functions builds a `Source` of the text it is
//! given, since nothing but the text can be said of a `Source` to Verus.

use vstd::prelude::*;
use vstd::string::*;
use crate::text::{
    blank, count_leading_whitespace, decimal, decimal_digits, leading_whitespace,
    lemma_leading_whitespace_bound, lemma_trailing_whitespace_bound, slice, spaces, text_between,
    texts, trailing_whitespace, trim, trimmed,
};

verus! {

/// The index of the line of `text` that holds the byte offset `byte_idx`, as
/// `typst::syntax::Source::byte_to_line` gives it.
pub uninterp spec fn line_of_byte(text: Seq<char>, byte_idx: usize) -> Option<usize>;

/// The number of characters between the start of its line and the byte offset
/// `byte_idx` of `text`, as `typst::syntax::Source::byte_to_column` gives it.
pub uninterp spec fn column_of_byte(text: Seq<char>, byte_idx: usize) -> Option<usize>;

/// The byte offsets at which the line `line_idx` of `text` starts and ends, as
/// `typst::syntax::Source::line_to_range` gives them.
pub uninterp spec fn range_of_line(text: Seq<char>, line_idx: usize) -> Option<(usize, usize)>;

/// Calls `typst::syntax::Source::byte_to_line` on a detached source made of
/// `text`. The contract claims that the answer is a function of the text and
/// the offset alone, named [`line_of_byte`].
#[verifier::external_body]
fn byte_to_line(text: &str, byte_idx: usize) -> (line: Option<usize>)
    ensures
        line == line_of_byte(text@, byte_idx),
{
    typst::syntax::Source::detached(text).byte_to_line(byte_idx)
}

/// Calls `typst::syntax::Source::byte_to_column` on a detached source made of
/// `text`. The contract claims that the answer is a function of the text and
/// the offset alone, named [`column_of_byte`].
#[verifier::external_body]
fn byte_to_column(text: &str, byte_idx: usize) -> (column: Option<usize>)
    ensures
        column == column_of_byte(text@, byte_idx),
{
    typst::syntax::Source::detached(text).byte_to_column(byte_idx)
}

/// Calls `typst::syntax::Source::line_to_range` on a detached source made of
/// `text`. The contract claims that the answer is a function of the text and
/// the line index alone, named [`range_of_line`].
#[verifier::external_body]
fn line_to_range(text: &str, line_idx: usize) -> (range: Option<(usize, usize)>)
    ensures
        range == range_of_line(text@, line_idx),
{
    typst::syntax::Source::detached(text).line_to_range(line_idx).map(|r| (r.start, r.end))
}

/// One diagnostic of the compiler.
#[derive(Debug, PartialEq, Eq)]
pub struct Diagnostic {
    /// What went wrong.
    pub message: String,
    /// The byte offset in the main source at which the diagnostic starts, if
    /// it points into the main source.
    pub offset: Option<usize>,
    /// Advice on how to mend it.
    pub hints: Vec<String>,
}

/// The mathematical value of a [`Diagnostic`].
pub struct DiagnosticView {
    pub message: Seq<char>,
    pub offset: Option<usize>,
    pub hints: Seq<Seq<char>>,
}

impl View for Diagnostic {
    type V = DiagnosticView;

    open spec fn view(&self) -> DiagnosticView {
        DiagnosticView { message: self.message@, offset: self.offset, hints: texts(self.hints@) }
    }
}

/// The byte offset at which a diagnostic starts in the main source: the start
/// of its span's range, where the span is attached to a file and that file is
/// the main source, and `None` otherwise.
pub open spec fn main_offset(attached: bool, in_main: bool, start: Option<usize>) -> Option<
    usize,
> {
    if attached && in_main {
        start
    } else {
        None
    }
}

/// Decides where a diagnostic starts in the main source. `attached` says
/// whether its span is attached to a file, `in_main` whether that file is the
/// main source, and `start` is where the span's range starts, if the source
/// holds the span.
pub fn offset_in_main(attached: bool, in_main: bool, start: Option<usize>) -> (offset: Option<
    usize,
>)
    ensures
        offset == main_offset(attached, in_main, start),
{
    if attached && in_main {
        start
    } else {
        None
    }
}

/// A place in the main source. Line and column count from zero.
#[derive(Debug, PartialEq, Eq)]
pub struct Location {
    pub line: usize,
    pub column: usize,
    /// The text of the line, where it could be cut out of the source.
    pub source_line: Option<String>,
}

/// The mathematical value of a [`Location`].
pub struct LocationView {
    pub line: usize,
    pub column: usize,
    pub source_line: Option<Seq<char>>,
}

impl View for Location {
    type V = LocationView;

    open spec fn view(&self) -> LocationView {
        LocationView {
            line: self.line,
            column: self.column,
            source_line: match self.source_line {
                Some(line) => Some(line@),
                None => None,
            },
        }
    }
}

/// The place of the byte offset `offset` in `text`. An offset that the line
/// counter does not place counts as line zero, column zero.
pub open spec fn location_at(text: Seq<char>, offset: usize) -> LocationView {
    let line = match line_of_byte(text, offset) {
        Some(line) => line,
        None => 0,
    };
    let column = match column_of_byte(text, offset) {
        Some(column) => column,
        None => 0,
    };
    LocationView {
        line,
        column,
        source_line: match range_of_line(text, line) {
            Some((start, end)) => text_between(text, start as int, end as int),
            None => None,
        },
    }
}

/// The place of a diagnostic in the main source `text`, if it has one.
pub open spec fn located(text: Seq<char>, offset: Option<usize>) -> Option<LocationView> {
    match offset {
        Some(offset) => Some(location_at(text, offset)),
        None => None,
    }
}

/// The first line of a diagnostic: the message, after its line and column
/// counted from one where it has a place, after `Error:` where it has none.
pub open spec fn headline(message: Seq<char>, location: Option<LocationView>) -> Seq<char> {
    match location {
        Some(l) => "[line "@ + decimal_digits((l.line + 1) as nat) + ":"@ + decimal_digits(
            (l.column + 1) as nat,
        ) + "] "@ + message,
        None => "Error: "@ + message,
    }
}

/// The number of spaces before the caret: the column less the whitespace at
/// the start of the line, and zero where that would be negative.
pub open spec fn caret_indent(column: usize, line: Seq<char>) -> nat {
    if column >= leading_whitespace(line) {
        (column - leading_whitespace(line)) as nat
    } else {
        0
    }
}

/// The label before the source line, on a line of its own.
pub open spec fn source_label() -> Seq<char> {
    "\n  Source: "@
}

/// The margin of the caret line: a new line, and as many spaces as the label
/// before the source line is wide.
pub open spec fn caret_margin() -> Seq<char> {
    "\n          "@
}

/// The two lines that show the source: the trimmed line after its label, and
/// below it a caret under the character at which the diagnostic starts.
pub open spec fn source_context(location: Option<LocationView>) -> Seq<char> {
    match location {
        Some(LocationView { column, source_line: Some(line), .. }) => source_label() + trimmed(
            line,
        ) + caret_margin() + spaces(caret_indent(column, line)) + "^"@,
        _ => Seq::empty(),
    }
}

/// The label and the margin put the source line and the caret line on one
/// grid: both are a line feed followed by ten characters, so the caret, after
/// its indent, stands under the character of the trimmed line with the same
/// index.
pub proof fn law_caret_margin_is_label_wide()
    ensures
        source_label().len() == 11,
        caret_margin().len() == source_label().len(),
        source_label()[0] == '\n',
        caret_margin()[0] == '\n',
        forall|i: int| 1 <= i < caret_margin().len() ==> caret_margin()[i] == ' ',
{
    reveal_strlit("\n  Source: ");
    reveal_strlit("\n          ");
}

/// The caret points at the column. Where the diagnostic starts at a character
/// that the trimmed line shows, the character of the trimmed line at the
/// caret's indent is the character of the line at the column. With
/// [`law_caret_margin_is_label_wide`], the caret stands under it.
pub proof fn law_caret_points_at_column(column: usize, line: Seq<char>)
    requires
        leading_whitespace(line) <= column,
        column < line.len() - trailing_whitespace(line.skip(leading_whitespace(line) as int)),
    ensures
        caret_indent(column, line) == column - leading_whitespace(line),
        caret_indent(column, line) < trimmed(line).len(),
        trimmed(line)[caret_indent(column, line) as int] == line[column as int],
{
    lemma_leading_whitespace_bound(line);
    lemma_trailing_whitespace_bound(line.skip(leading_whitespace(line) as int));
}

/// One indented line for each hint.
pub open spec fn hint_lines(hints: Seq<Seq<char>>) -> Seq<char>
    decreases hints.len(),
{
    if hints.len() == 0 {
        Seq::empty()
    } else {
        hint_lines(hints.drop_last()) + "\n  Hint: "@ + hints.last()
    }
}

/// The text of one diagnostic.
pub open spec fn diagnostic_text(
    message: Seq<char>,
    location: Option<LocationView>,
    hints: Seq<Seq<char>>,
) -> Seq<char> {
    headline(message, location) + source_context(location) + hint_lines(hints)
}

/// The blocks, with an empty line between each two of them.
pub open spec fn joined(blocks: Seq<Seq<char>>) -> Seq<char>
    decreases blocks.len(),
{
    if blocks.len() == 0 {
        Seq::empty()
    } else if blocks.len() == 1 {
        blocks[0]
    } else {
        joined(blocks.drop_last()) + "\n\n"@ + blocks.last()
    }
}

/// The text of each diagnostic, with its place in the main source `text`.
pub open spec fn blocks_of(errors: Seq<Diagnostic>, text: Seq<char>) -> Seq<Seq<char>> {
    errors.map_values(
        |d: Diagnostic| diagnostic_text(d@.message, located(text, d@.offset), d@.hints),
    )
}

/// The whole report on `errors`, with the main source `text`.
pub open spec fn report_text(errors: Seq<Diagnostic>, text: Seq<char>) -> Seq<char> {
    joined(blocks_of(errors, text))
}

/// Finds the line, the column and the text of the line of the byte offset
/// `offset` in `text`.
pub fn locate(text: &str, offset: usize) -> (location: Location)
    ensures
        location@ == location_at(text@, offset),
{
    let line = match byte_to_line(text, offset) {
        Some(line) => line,
        None => 0,
    };
    let column = match byte_to_column(text, offset) {
        Some(column) => column,
        None => 0,
    };
    let source_line = match line_to_range(text, line) {
        Some((start, end)) => match slice(text, start, end) {
            Some(part) => Some(String::from_str(part)),
            None => None,
        },
        None => None,
    };
    Location { line, column, source_line }
}

fn write_source_context(out: &mut String, location: &Location)
    ensures
        final(out)@ == old(out)@ + source_context(Some(location@)),
{
    match &location.source_line {
        Some(line) => {
            let leading = count_leading_whitespace(line.as_str());
            let indent = if location.column >= leading {
                location.column - leading
            } else {
                0
            };
            out.append("\n  Source: ");
            out.append(trim(line.as_str()));
            out.append("\n          ");
            out.append(blank(indent).as_str());
            out.append("^");
            assert(out@ =~= old(out)@ + source_context(Some(location@)));
        },
        None => {
            assert(out@ =~= old(out)@ + source_context(Some(location@)));
        },
    }
}

fn write_hints(out: &mut String, hints: &Vec<String>)
    ensures
        final(out)@ == old(out)@ + hint_lines(texts(hints@)),
{
    let mut i: usize = 0;
    assert(texts(hints@).take(0) =~= Seq::<Seq<char>>::empty());
    assert(out@ =~= old(out)@ + hint_lines(texts(hints@).take(0)));
    while i < hints.len()
        invariant
            i <= hints.len(),
            out@ == old(out)@ + hint_lines(texts(hints@).take(i as int)),
        decreases hints.len() - i,
    {
        out.append("\n  Hint: ");
        out.append(hints[i].as_str());
        proof {
            let all = texts(hints@);
            assert(all.take(i + 1).drop_last() =~= all.take(i as int));
            assert(all.take(i + 1).last() == hints@[i as int]@);
            assert(out@ =~= old(out)@ + hint_lines(all.take(i + 1)));
        }
        i += 1;
    }
    assert(texts(hints@).take(i as int) =~= texts(hints@));
}

/// Formats one diagnostic: its first line, the source line with a caret
/// under the column where the place and the line are known, and its hints.
pub fn format_diagnostic(message: &str, location: Option<&Location>, hints: &Vec<String>) -> (out:
    String)
    ensures
        out@ == diagnostic_text(
            message@,
            match location {
                Some(l) => Some(l@),
                None => None,
            },
            texts(hints@),
        ),
{
    let mut out = String::new();
    match location {
        Some(l) => {
            out.append("[line ");
            out.append(decimal(l.line as u128 + 1).as_str());
            out.append(":");
            out.append(decimal(l.column as u128 + 1).as_str());
            out.append("] ");
            out.append(message);
            assert(out@ =~= headline(message@, Some(l@)));
            write_source_context(&mut out, l);
        },
        None => {
            out.append("Error: ");
            out.append(message);
            assert(out@ =~= headline(message@, None));
            assert(out@ =~= headline(message@, None) + source_context(None));
        },
    }
    write_hints(&mut out, hints);
    out
}

/// Formats all diagnostics of a failed compilation into one text: a block for
/// each, in their order, with an empty line between blocks. `source` is the
/// text of the main source.
pub fn collect_typst_errors(errors: &Vec<Diagnostic>, source: &str) -> (report: String)
    ensures
        report@ == report_text(errors@, source@),
{
    let mut report = String::new();
    let mut i: usize = 0;
    assert(blocks_of(errors@, source@).take(0) =~= Seq::<Seq<char>>::empty());
    assert(report@ =~= joined(blocks_of(errors@, source@).take(0)));
    while i < errors.len()
        invariant
            i <= errors.len(),
            report@ == joined(blocks_of(errors@, source@).take(i as int)),
        decreases errors.len() - i,
    {
        let error = &errors[i];
        let block = match error.offset {
            Some(offset) => {
                let location = locate(source, offset);
                format_diagnostic(error.message.as_str(), Some(&location), &error.hints)
            },
            None => format_diagnostic(error.message.as_str(), None, &error.hints),
        };
        if i > 0 {
            report.append("\n\n");
        }
        report.append(block.as_str());
        proof {
            let all = blocks_of(errors@, source@);
            assert(block@ == all[i as int]);
            assert(all.take(i + 1).drop_last() =~= all.take(i as int));
            assert(all.take(i + 1).last() == all[i as int]);
            assert(report@ =~= joined(all.take(i + 1)));
        }
        i += 1;
    }
    assert(blocks_of(errors@, source@).take(i as int) =~= blocks_of(errors@, source@));
    report
}

} // verus!
