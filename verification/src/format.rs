use crate::format_laws::{law_labels_are_wf, law_labels_cut_no_character};
use crate::label::{
    CodeLabel, CodeLabelSpan, Completion, CompletionKind, LabelModel, Range, SpanModel,
};
use crate::strings::{byte_len, first_piece, join, join3, split_once};
use crate::text::{head_before, split_at_first, utf8};
use vstd::prelude::*;
use vstd::utf8::*;

verus! {

/// The bytes of `" : "`, which stands between a name and its type.
pub open spec fn type_sep() -> Seq<u8> {
    seq![0x20u8, 0x3au8, 0x20u8]
}

/// The bytes of `" - "`, which stands between a type's name and its namespace.
pub open spec fn namespace_sep() -> Seq<u8> {
    seq![0x20u8, 0x2du8, 0x20u8]
}

/// The byte of `"("`, which ends the name of a method or constructor.
pub open spec fn params_open() -> Seq<u8> {
    seq![0x28u8]
}

/// The byte of `" "`.
pub open spec fn blank() -> Seq<u8> {
    seq![0x20u8]
}

/// The bytes of `"new "`, which stands before a constructor.
pub open spec fn new_prefix() -> Seq<u8> {
    seq![0x6eu8, 0x65u8, 0x77u8, 0x20u8]
}

/// The bytes of `" ("`, which opens a type's namespace.
pub open spec fn namespace_open() -> Seq<u8> {
    seq![0x20u8, 0x28u8]
}

/// The byte of `")"`, which closes a type's namespace.
pub open spec fn namespace_close() -> Seq<u8> {
    seq![0x29u8]
}

/// The highlight of the name of a variable, field or constant.
pub open spec fn name_highlight(kind: CompletionKind) -> Option<Seq<char>> {
    match kind {
        CompletionKind::Field => Some("property"@),
        CompletionKind::Constant => Some("constant"@),
        _ => None,
    }
}

/// The name of a method or constructor: what stands before its parameters.
pub open spec fn callable_name(name_and_params: Seq<u8>) -> Seq<u8> {
    head_before(name_and_params, params_open())
}

/// The label of a method `name(params) : return_type`: the code reads
/// `return_type name(params)`, and the spans show the label as it came.
pub open spec fn method_model(name_and_params: Seq<u8>, return_type: Seq<u8>) -> LabelModel {
    let code = return_type + blank() + name_and_params;
    LabelModel {
        code,
        spans: seq![
            SpanModel::CodeRange { start: return_type.len() + 1, end: code.len() },
            SpanModel::Literal { text: type_sep(), highlight: None },
            SpanModel::CodeRange { start: 0, end: return_type.len() },
        ],
        filter_start: 0,
        filter_end: callable_name(name_and_params).len(),
    }
}

/// The label of a constructor `name(params)`: the code reads
/// `new name(params)`, and the one span shows what follows `new `.
pub open spec fn constructor_model(label: Seq<u8>) -> LabelModel {
    let code = new_prefix() + label;
    LabelModel {
        code,
        spans: seq![
            SpanModel::CodeRange { start: new_prefix().len(), end: code.len() },
        ],
        filter_start: 0,
        filter_end: callable_name(label).len(),
    }
}

/// The label of a variable, field or constant `name : type`: the code reads
/// `type name`, the name is shown as text under `highlight`, the type as code.
pub open spec fn value_model(
    name: Seq<u8>,
    value_type: Seq<u8>,
    highlight: Option<Seq<char>>,
) -> LabelModel {
    LabelModel {
        code: value_type + blank() + name,
        spans: seq![
            SpanModel::Literal { text: name, highlight },
            SpanModel::Literal { text: type_sep(), highlight: None },
            SpanModel::CodeRange { start: 0, end: value_type.len() },
        ],
        filter_start: 0,
        filter_end: name.len(),
    }
}

/// The label of a class, interface or enum `name - namespace`: code and shown
/// text read `name (namespace)`, the name under the highlight `type`.
pub open spec fn type_model(name: Seq<u8>, namespace: Seq<u8>) -> LabelModel {
    let hint = namespace_open() + namespace + namespace_close();
    LabelModel {
        code: name + hint,
        spans: seq![
            SpanModel::Literal { text: name, highlight: Some("type"@) },
            SpanModel::Literal { text: hint, highlight: None },
        ],
        filter_start: 0,
        filter_end: name.len(),
    }
}

/// The label of a keyword, and of an enum member's name: the text is the
/// code, shown whole and matched whole.
pub open spec fn plain_model(text: Seq<u8>) -> LabelModel {
    LabelModel {
        code: text,
        spans: seq![SpanModel::CodeRange { start: 0, end: text.len() }],
        filter_start: 0,
        filter_end: text.len(),
    }
}

/// The label of a suggestion, from the UTF-8 bytes of its raw label and its
/// kind. `None` where the kind is absent or has no rule, and where the raw
/// label lacks the separator that the kind's rule parts it at.
pub open spec fn label_model(label: Seq<u8>, kind: Option<CompletionKind>) -> Option<LabelModel> {
    match kind {
        None => None,
        Some(kind) => match kind {
            CompletionKind::Method => match split_at_first(label, type_sep()) {
                Some((name_and_params, return_type)) => Some(
                    method_model(name_and_params, return_type),
                ),
                None => None,
            },
            CompletionKind::Constructor => Some(constructor_model(label)),
            CompletionKind::Variable | CompletionKind::Field | CompletionKind::Constant => {
                match split_at_first(label, type_sep()) {
                    Some((name, value_type)) => Some(
                        value_model(name, value_type, name_highlight(kind)),
                    ),
                    None => None,
                }
            },
            CompletionKind::Class | CompletionKind::Interface | CompletionKind::Enum => {
                match split_at_first(label, namespace_sep()) {
                    Some((name, namespace)) => Some(type_model(name, namespace)),
                    None => None,
                }
            },
            CompletionKind::Keyword => Some(plain_model(label)),
            CompletionKind::EnumMember => Some(plain_model(head_before(label, type_sep()))),
            CompletionKind::Other => None,
        },
    }
}

/// What the string literals of this module hold, as bytes.
pub proof fn lemma_literal_bytes()
    ensures
        utf8(" : "@) == type_sep(),
        utf8(" - "@) == namespace_sep(),
        utf8("("@) == params_open(),
        utf8(" "@) == blank(),
        utf8("new "@) == new_prefix(),
        utf8(" ("@) == namespace_open(),
        utf8(")"@) == namespace_close(),
{
    reveal_strlit(" : ");
    reveal_strlit(" - ");
    reveal_strlit("(");
    reveal_strlit(" ");
    reveal_strlit("new ");
    reveal_strlit(" (");
    reveal_strlit(")");
    is_ascii_chars_encode_utf8(" : "@);
    is_ascii_chars_encode_utf8(" - "@);
    is_ascii_chars_encode_utf8("("@);
    is_ascii_chars_encode_utf8(" "@);
    is_ascii_chars_encode_utf8("new "@);
    is_ascii_chars_encode_utf8(" ("@);
    is_ascii_chars_encode_utf8(")"@);
    assert(utf8(" : "@) =~= type_sep());
    assert(utf8(" - "@) =~= namespace_sep());
    assert(utf8("("@) =~= params_open());
    assert(utf8(" "@) =~= blank());
    assert(utf8("new "@) =~= new_prefix());
    assert(utf8(" ("@) =~= namespace_open());
    assert(utf8(")"@) =~= namespace_close());
}

/// The label of a method, from its raw label `name(params) : return_type`.
/// `None` where the raw label holds no `" : "`.
pub fn method_label(label: &str) -> (r: Option<CodeLabel>)
    ensures
        match split_at_first(utf8(label@), type_sep()) {
            Some((name_and_params, return_type)) => r is Some && r->Some_0@ == method_model(
                name_and_params,
                return_type,
            ),
            None => r is None,
        },
{
    proof {
        lemma_literal_bytes();
    }
    match split_once(label, " : ") {
        None => None,
        Some((name_and_params, return_type)) => {
            let name = first_piece(name_and_params, "(");
            let code = join3(return_type, " ", name_and_params);
            let return_len: usize = byte_len(return_type);
            let code_len: usize = byte_len(code.as_str());
            let spans = vec![
                CodeLabelSpan::code_range(Range { start: return_len + 1, end: code_len }),
                CodeLabelSpan::literal(" : ".to_owned(), None),
                CodeLabelSpan::code_range(Range { start: 0, end: return_len }),
            ];
            let result = CodeLabel {
                spans,
                filter_range: Range { start: 0, end: byte_len(name) },
                code,
            };
            assert(result@.spans =~= method_model(utf8(name_and_params@), utf8(return_type@)).spans);
            Some(result)
        },
    }
}

/// The label of a constructor, from its raw label `name(params)`.
pub fn constructor_label(label: &str) -> (r: CodeLabel)
    ensures
        r@ == constructor_model(utf8(label@)),
{
    proof {
        lemma_literal_bytes();
    }
    let prefix = "new ";
    let code = join(prefix, label);
    let name = first_piece(label, "(");
    let code_len: usize = byte_len(code.as_str());
    let spans = vec![
        CodeLabelSpan::code_range(Range { start: byte_len(prefix), end: code_len }),
    ];
    let result = CodeLabel { spans, filter_range: Range { start: 0, end: byte_len(name) }, code };
    assert(result@.spans =~= constructor_model(utf8(label@)).spans);
    result
}

/// The highlight under which the name of a variable, field or constant is
/// shown.
pub fn highlight_name(kind: CompletionKind) -> (r: Option<String>)
    ensures
        match name_highlight(kind) {
            Some(name) => r is Some && r->Some_0@ == name,
            None => r is None,
        },
{
    match kind {
        CompletionKind::Field => Some("property".to_owned()),
        CompletionKind::Constant => Some("constant".to_owned()),
        _ => None,
    }
}

/// The label of a variable, field or constant, from its raw label
/// `name : type`. `None` where the raw label holds no `" : "`.
pub fn value_label(label: &str, kind: CompletionKind) -> (r: Option<CodeLabel>)
    ensures
        match split_at_first(utf8(label@), type_sep()) {
            Some((name, value_type)) => r is Some && r->Some_0@ == value_model(
                name,
                value_type,
                name_highlight(kind),
            ),
            None => r is None,
        },
{
    proof {
        lemma_literal_bytes();
    }
    match split_once(label, " : ") {
        None => None,
        Some((name, value_type)) => {
            let code = join3(value_type, " ", name);
            let spans = vec![
                CodeLabelSpan::literal(name.to_owned(), highlight_name(kind)),
                CodeLabelSpan::literal(" : ".to_owned(), None),
                CodeLabelSpan::code_range(Range { start: 0, end: byte_len(value_type) }),
            ];
            let result = CodeLabel {
                spans,
                filter_range: Range { start: 0, end: byte_len(name) },
                code,
            };
            assert(result@.spans =~= value_model(
                utf8(name@),
                utf8(value_type@),
                name_highlight(kind),
            ).spans);
            Some(result)
        },
    }
}

/// The label of a class, interface or enum, from its raw label
/// `name - namespace`. `None` where the raw label holds no `" - "`.
pub fn type_label(label: &str) -> (r: Option<CodeLabel>)
    ensures
        match split_at_first(utf8(label@), namespace_sep()) {
            Some((name, namespace)) => r is Some && r->Some_0@ == type_model(name, namespace),
            None => r is None,
        },
{
    proof {
        lemma_literal_bytes();
    }
    match split_once(label, " - ") {
        None => None,
        Some((name, namespace)) => {
            let hint = join3(" (", namespace, ")");
            let code = join(name, hint.as_str());
            let filter_range = Range { start: 0, end: byte_len(name) };
            let spans = vec![
                CodeLabelSpan::literal(name.to_owned(), Some("type".to_owned())),
                CodeLabelSpan::literal(hint, None),
            ];
            let result = CodeLabel { spans, filter_range, code };
            assert(result@.spans =~= type_model(utf8(name@), utf8(namespace@)).spans);
            Some(result)
        },
    }
}

/// The label of text that is code as it stands: shown whole, matched whole.
pub fn plain_label(text: String) -> (r: CodeLabel)
    ensures
        r@ == plain_model(utf8(text@)),
{
    let len: usize = byte_len(text.as_str());
    let spans = vec![CodeLabelSpan::code_range(Range { start: 0, end: len })];
    let result = CodeLabel { spans, filter_range: Range { start: 0, end: len }, code: text };
    assert(result@.spans =~= plain_model(utf8(text@)).spans);
    result
}

/// The label of an enum member, from its raw label `name : rest`: the name
/// alone, which is the whole raw label where it holds no `" : "`.
pub fn enum_member_label(label: &str) -> (r: CodeLabel)
    ensures
        r@ == plain_model(head_before(utf8(label@), type_sep())),
{
    proof {
        lemma_literal_bytes();
    }
    plain_label(first_piece(label, " : ").to_owned())
}

/// The label under which the editor shows a suggestion. `None` where the
/// suggestion has no kind or a kind without a rule, and where its raw label
/// lacks the separator that the kind's rule parts it at. The ranges of the
/// label count bytes, and none of them cuts a character in two.
pub fn format(completion: Completion) -> (r: Option<CodeLabel>)
    ensures
        match label_model(utf8(completion.label@), completion.kind) {
            Some(model) => r is Some && r->Some_0@ == model,
            None => r is None,
        },
        r matches Some(label) ==> label@.wf() && label@.cuts_no_character(),
{
    proof {
        law_labels_are_wf(utf8(completion.label@), completion.kind);
        law_labels_cut_no_character(completion.label@, completion.kind);
    }
    match completion.kind {
        None => None,
        Some(kind) => match kind {
            CompletionKind::Method => method_label(completion.label.as_str()),
            CompletionKind::Constructor => Some(constructor_label(completion.label.as_str())),
            CompletionKind::Variable | CompletionKind::Field | CompletionKind::Constant => {
                value_label(completion.label.as_str(), kind)
            },
            CompletionKind::Class | CompletionKind::Interface | CompletionKind::Enum => {
                type_label(completion.label.as_str())
            },
            CompletionKind::Keyword => Some(plain_label(completion.label)),
            CompletionKind::EnumMember => Some(enum_member_label(completion.label.as_str())),
            CompletionKind::Other => None,
        },
    }
}

} // verus!
