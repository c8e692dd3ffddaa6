use crate::text::utf8;
use vstd::prelude::*;
use vstd::utf8::{is_char_boundary, valid_utf8};

verus! {

/// The role that the language server gives a suggestion.
#[derive(Clone, Copy, Debug, PartialEq, Eq, Structural)]
pub enum CompletionKind {
    Method,
    Constructor,
    Variable,
    Field,
    Constant,
    Class,
    Interface,
    Enum,
    Keyword,
    EnumMember,
    Other,
}

/// A suggestion as the language server sends it: a label whose layout depends
/// on the kind, and the kind, where the server gave one.
#[derive(Clone, Debug, PartialEq, Eq)]
pub struct Completion {
    pub label: String,
    pub kind: Option<CompletionKind>,
}

/// The bytes from `start` up to, not including, `end`.
#[derive(Clone, Copy, Debug, PartialEq, Eq, Structural)]
pub struct Range {
    pub start: usize,
    pub end: usize,
}

/// Text that is shown as it stands, under a highlight where one is named.
#[derive(Clone, Debug, PartialEq, Eq)]
pub struct CodeLabelSpanLiteral {
    pub text: String,
    pub highlight_name: Option<String>,
}

/// One piece of a label as it is shown.
#[derive(Clone, Debug, PartialEq, Eq)]
pub enum CodeLabelSpan {
    /// The bytes of the label's code from `start` up to `end`, coloured as code.
    CodeRange(Range),
    /// Text of its own.
    Literal(CodeLabelSpanLiteral),
}

/// A label ready for the editor: code for the syntax highlighter, the pieces
/// to show in order, and the part of the shown text that is matched against
/// what the user typed.
#[derive(Clone, Debug, PartialEq, Eq)]
pub struct CodeLabel {
    pub code: String,
    pub spans: Vec<CodeLabelSpan>,
    pub filter_range: Range,
}

/// The model of a span. Text is held as UTF-8 bytes, a highlight by its name.
pub enum SpanModel {
    CodeRange { start: nat, end: nat },
    Literal { text: Seq<u8>, highlight: Option<Seq<char>> },
}

/// The model of a label. `code` is held as UTF-8 bytes; the ranges of the
/// spans are byte offsets into it, and the filter range is a pair of byte
/// offsets into the text that the spans show.
pub struct LabelModel {
    pub code: Seq<u8>,
    pub spans: Seq<SpanModel>,
    pub filter_start: nat,
    pub filter_end: nat,
}

impl SpanModel {
    /// The text that this span shows of a label with the given code.
    pub open spec fn shown(self, code: Seq<u8>) -> Seq<u8> {
        match self {
            SpanModel::CodeRange { start, end } => code.subrange(start as int, end as int),
            SpanModel::Literal { text, .. } => text,
        }
    }

    /// A code range lies inside the code.
    pub open spec fn within(self, code: Seq<u8>) -> bool {
        match self {
            SpanModel::CodeRange { start, end } => start <= end <= code.len(),
            SpanModel::Literal { .. } => true,
        }
    }

    /// A code range begins and ends between characters of the code.
    pub open spec fn on_boundaries(self, code: Seq<u8>) -> bool {
        match self {
            SpanModel::CodeRange { start, end } => {
                &&& is_char_boundary(code, start as int)
                &&& is_char_boundary(code, end as int)
            },
            SpanModel::Literal { .. } => true,
        }
    }
}

/// The text that `spans` show, one after the other, of a label with the given
/// code.
pub open spec fn shown_text(code: Seq<u8>, spans: Seq<SpanModel>) -> Seq<u8>
    decreases spans.len(),
{
    if spans.len() == 0 {
        Seq::empty()
    } else {
        shown_text(code, spans.drop_last()) + spans.last().shown(code)
    }
}

impl LabelModel {
    /// The text that the editor shows for this label.
    pub open spec fn shown(self) -> Seq<u8> {
        shown_text(self.code, self.spans)
    }

    /// The part of the shown text that is matched against what the user typed.
    pub open spec fn filter_text(self) -> Seq<u8> {
        self.shown().subrange(self.filter_start as int, self.filter_end as int)
    }

    /// Every code range lies inside the code, and the filter range inside the
    /// shown text and inside the code.
    pub open spec fn wf(self) -> bool {
        &&& forall|i: int| 0 <= i < self.spans.len() ==> (#[trigger] self.spans[i]).within(self.code)
        &&& self.filter_start <= self.filter_end <= self.shown().len()
        &&& self.filter_end <= self.code.len()
    }

    /// No range of the label cuts a character in two: the code and the shown
    /// text are well-formed UTF-8, each code range begins and ends between
    /// characters of the code, and the filter range between characters of
    /// the shown text.
    pub open spec fn cuts_no_character(self) -> bool {
        &&& valid_utf8(self.code)
        &&& valid_utf8(self.shown())
        &&& forall|i: int|
            0 <= i < self.spans.len() ==> (#[trigger] self.spans[i]).on_boundaries(self.code)
        &&& is_char_boundary(self.shown(), self.filter_start as int)
        &&& is_char_boundary(self.shown(), self.filter_end as int)
    }
}

impl View for CodeLabelSpan {
    type V = SpanModel;

    open spec fn view(&self) -> SpanModel {
        match *self {
            CodeLabelSpan::CodeRange(range) => SpanModel::CodeRange {
                start: range.start as nat,
                end: range.end as nat,
            },
            CodeLabelSpan::Literal(literal) => SpanModel::Literal {
                text: utf8(literal.text@),
                highlight: match literal.highlight_name {
                    Some(name) => Some(name@),
                    None => None,
                },
            },
        }
    }
}

impl View for CodeLabel {
    type V = LabelModel;

    open spec fn view(&self) -> LabelModel {
        LabelModel {
            code: utf8(self.code@),
            spans: self.spans@.map_values(|span: CodeLabelSpan| span@),
            filter_start: self.filter_range.start as nat,
            filter_end: self.filter_range.end as nat,
        }
    }
}

impl CodeLabelSpan {
    /// A span that shows the code in `range`.
    pub fn code_range(range: Range) -> (span: CodeLabelSpan)
        ensures
            span@ == (SpanModel::CodeRange { start: range.start as nat, end: range.end as nat }),
    {
        CodeLabelSpan::CodeRange(range)
    }

    /// A span that shows `text`, under the highlight named.
    pub fn literal(text: String, highlight_name: Option<String>) -> (span: CodeLabelSpan)
        ensures
            span@ == (SpanModel::Literal {
                text: utf8(text@),
                highlight: match highlight_name {
                    Some(name) => Some(name@),
                    None => None,
                },
            }),
    {
        CodeLabelSpan::Literal(CodeLabelSpanLiteral { text, highlight_name })
    }
}

} // verus!
