use crate::format::{
    blank, callable_name, constructor_model, label_model, lemma_literal_bytes, method_model,
    name_highlight, namespace_close, namespace_open, namespace_sep, new_prefix, params_open,
    plain_model, type_model, type_sep, value_model,
};
use crate::label::{shown_text, CompletionKind, SpanModel};
use crate::text::{
    contains, head_before, lemma_head_is_prefix, lemma_split_rejoins, occurs_at, split_at_first,
    utf8,
};
use crate::text_laws::{
    law_split_commutes_with_utf8, lemma_boundary_of_prefix, lemma_join_is_boundary,
    lemma_prefix_ends_on_boundary,
};
use vstd::prelude::*;
use vstd::utf8::*;

verus! {

/// The kinds whose rule parts the raw label at `" : "`.
pub open spec fn parts_at_type_sep(kind: CompletionKind) -> bool {
    kind is Method || kind is Variable || kind is Field || kind is Constant
}

/// The kinds whose rule parts the raw label at `" - "`.
pub open spec fn parts_at_namespace_sep(kind: CompletionKind) -> bool {
    kind is Class || kind is Interface || kind is Enum
}

/// One span shows its own text.
pub proof fn lemma_shown_one(code: Seq<u8>, a: SpanModel)
    ensures
        shown_text(code, seq![a]) == a.shown(code),
{
    reveal_with_fuel(shown_text, 2);
    assert(seq![a].drop_last() =~= Seq::<SpanModel>::empty());
    assert(Seq::<u8>::empty() + a.shown(code) =~= a.shown(code));
}

/// Two spans show their texts one after the other.
pub proof fn lemma_shown_two(code: Seq<u8>, a: SpanModel, b: SpanModel)
    ensures
        shown_text(code, seq![a, b]) == a.shown(code) + b.shown(code),
{
    lemma_shown_one(code, a);
    assert(seq![a, b].drop_last() =~= seq![a]);
}

/// Three spans show their texts one after the other.
pub proof fn lemma_shown_three(code: Seq<u8>, a: SpanModel, b: SpanModel, c: SpanModel)
    ensures
        shown_text(code, seq![a, b, c]) == a.shown(code) + b.shown(code) + c.shown(code),
{
    lemma_shown_two(code, a, b);
    assert(seq![a, b, c].drop_last() =~= seq![a, b]);
}

/// The rules part a raw label at the same places whether it is read as
/// characters or as bytes, and the parts that they take are the same text.
pub proof fn law_parts_by_characters(label: Seq<char>)
    ensures
        split_at_first(utf8(label), type_sep()) == match split_at_first(label, " : "@) {
            Some((head, tail)) => Some((utf8(head), utf8(tail))),
            None => None,
        },
        split_at_first(utf8(label), namespace_sep()) == match split_at_first(label, " - "@) {
            Some((head, tail)) => Some((utf8(head), utf8(tail))),
            None => None,
        },
        head_before(utf8(label), type_sep()) == utf8(head_before(label, " : "@)),
        callable_name(utf8(label)) == utf8(head_before(label, "("@)),
{
    lemma_literal_bytes();
    law_split_commutes_with_utf8(label, " : "@);
    law_split_commutes_with_utf8(label, " - "@);
    law_split_commutes_with_utf8(label, "("@);
}

/// A method's label shows the raw label as it came, and its filter range cuts
/// the method's name out of the shown text: the bytes before the first `(` of
/// what stands before `" : "`. The same range cuts the name out of the code
/// where the code begins with the name and nowhere else: the code begins with
/// the return type.
pub proof fn law_method_filter_is_name(label: Seq<u8>)
    requires
        contains(label, type_sep()),
    ensures
        label_model(label, Some(CompletionKind::Method)) matches Some(model)
            && split_at_first(label, type_sep()) matches Some((name_and_params, return_type))
            && model == method_model(name_and_params, return_type)
            && model.code == return_type + blank() + name_and_params
            && model.shown() == label
            && model.filter_text() == callable_name(name_and_params)
            && (model.code.subrange(model.filter_start as int, model.filter_end as int)
            == callable_name(name_and_params) <==> occurs_at(
            model.code,
            callable_name(name_and_params),
            0,
        ))
            && model.wf(),
{
    lemma_split_rejoins(label, type_sep());
    let (name_and_params, return_type) = split_at_first(label, type_sep())->Some_0;
    let model = method_model(name_and_params, return_type);
    lemma_shown_three(model.code, model.spans[0], model.spans[1], model.spans[2]);
    assert(model.spans =~= seq![model.spans[0], model.spans[1], model.spans[2]]);
    assert(model.spans[0].shown(model.code) =~= name_and_params);
    assert(model.spans[2].shown(model.code) =~= return_type);
    lemma_head_is_prefix(name_and_params, params_open());
    let name = callable_name(name_and_params);
    assert(model.filter_text() =~= name) by {
        assert(name =~= name_and_params.subrange(0, name.len() as int));
        assert(label.subrange(0, name.len() as int) =~= name_and_params.subrange(
            0,
            name.len() as int,
        ));
    }
}

/// Where the code of a method's label begins with the method's name, the
/// filter range cuts that name out of the code as well.
pub proof fn law_method_filter_in_code(label: Seq<u8>)
    requires
        contains(label, type_sep()),
        split_at_first(label, type_sep()) matches Some((name_and_params, return_type))
            && occurs_at(
            return_type + blank() + name_and_params,
            callable_name(name_and_params),
            0,
        ),
    ensures
        label_model(label, Some(CompletionKind::Method)) matches Some(model)
            && split_at_first(label, type_sep()) matches Some((name_and_params, _))
            && model.code.subrange(model.filter_start as int, model.filter_end as int)
            == callable_name(name_and_params),
{
}

/// A constructor always has a label. Its code is `new ` and the raw label;
/// its one span is a code range that begins where `new ` ends and shows the
/// raw label; its filter range cuts the constructor's name out of the shown
/// text.
pub proof fn law_constructor_skips_new(label: Seq<u8>)
    ensures
        label_model(label, Some(CompletionKind::Constructor)) matches Some(model)
            && model.code == new_prefix() + label
            && occurs_at(model.code, new_prefix(), 0)
            && model.spans == seq![
                SpanModel::CodeRange { start: new_prefix().len(), end: model.code.len() },
            ]
            && model.shown() == label
            && model.filter_text() == callable_name(label)
            && model.wf(),
{
    let model = constructor_model(label);
    lemma_shown_one(model.code, model.spans[0]);
    assert(model.spans =~= seq![model.spans[0]]);
    assert(model.code.subrange(0, new_prefix().len() as int) =~= new_prefix());
    assert(model.spans[0].shown(model.code) =~= label);
    lemma_head_is_prefix(label, params_open());
    let name = callable_name(label);
    assert(model.filter_text() =~= name) by {
        assert(name =~= label.subrange(0, name.len() as int));
    }
}

/// The name of a field is shown under the highlight `property`, that of a
/// constant under `constant`, that of a variable under none. In each case the
/// name is the first span, a literal; the label shows the raw label as it
/// came, and its filter range cuts the name out of the shown text.
pub proof fn law_value_name_highlight(label: Seq<u8>, kind: CompletionKind)
    requires
        kind is Variable || kind is Field || kind is Constant,
        contains(label, type_sep()),
    ensures
        label_model(label, Some(kind)) matches Some(model)
            && split_at_first(label, type_sep()) matches Some((name, value_type))
            && model == value_model(name, value_type, name_highlight(kind))
            && model.code == value_type + blank() + name
            && model.spans[0] == (SpanModel::Literal { text: name, highlight: name_highlight(kind) })
            && model.shown() == label
            && model.filter_text() == name
            && model.wf(),
        name_highlight(CompletionKind::Field) == Some("property"@),
        name_highlight(CompletionKind::Constant) == Some("constant"@),
        name_highlight(CompletionKind::Variable) == None::<Seq<char>>,
{
    lemma_split_rejoins(label, type_sep());
    let (name, value_type) = split_at_first(label, type_sep())->Some_0;
    let model = value_model(name, value_type, name_highlight(kind));
    lemma_shown_three(model.code, model.spans[0], model.spans[1], model.spans[2]);
    assert(model.spans =~= seq![model.spans[0], model.spans[1], model.spans[2]]);
    assert(model.spans[2].shown(model.code) =~= value_type);
    assert(model.filter_text() =~= name);
}

/// The label of a class, interface or enum `name - namespace` has the code
/// `name (namespace)`, which is also the text that it shows, with the name
/// under the highlight `type`; its filter range covers the name and no more, in
/// the code as in the shown text.
pub proof fn law_type_filter_is_name(label: Seq<u8>, kind: CompletionKind)
    requires
        parts_at_namespace_sep(kind),
        contains(label, namespace_sep()),
    ensures
        label_model(label, Some(kind)) matches Some(model)
            && split_at_first(label, namespace_sep()) matches Some((name, namespace))
            && model == type_model(name, namespace)
            && model.code == name + namespace_open() + namespace + namespace_close()
            && model.spans[0] == (SpanModel::Literal { text: name, highlight: Some("type"@) })
            && model.shown() == model.code
            && model.filter_start == 0
            && model.filter_end == name.len()
            && model.code.subrange(model.filter_start as int, model.filter_end as int) == name
            && model.filter_text() == name
            && model.wf(),
{
    let (name, namespace) = split_at_first(label, namespace_sep())->Some_0;
    let model = type_model(name, namespace);
    lemma_shown_two(model.code, model.spans[0], model.spans[1]);
    assert(model.spans =~= seq![model.spans[0], model.spans[1]]);
    assert(model.code =~= name + namespace_open() + namespace + namespace_close());
    assert(model.code.subrange(0, name.len() as int) =~= name);
}

/// A keyword always has a label: the raw label is the code, shown whole and
/// matched whole.
pub proof fn law_keyword_is_whole(label: Seq<u8>)
    ensures
        label_model(label, Some(CompletionKind::Keyword)) matches Some(model)
            && model.code == label
            && model.shown() == label
            && model.filter_text() == label
            && model.wf(),
{
    let model = plain_model(label);
    lemma_shown_one(model.code, model.spans[0]);
    assert(model.spans =~= seq![model.spans[0]]);
    assert(label.subrange(0, label.len() as int) =~= label);
}

/// An enum member always has a label: what stands before the first `" : "` of
/// the raw label, or all of it where there is none, is the code, shown whole
/// and matched whole.
pub proof fn law_enum_member_is_name(label: Seq<u8>)
    ensures
        label_model(label, Some(CompletionKind::EnumMember)) matches Some(model)
            && model.code == head_before(label, type_sep())
            && model.shown() == model.code
            && model.filter_text() == model.code
            && model.wf(),
{
    law_keyword_is_whole(head_before(label, type_sep()));
}

/// A suggestion gets no label in these cases and in no other: it has no kind;
/// its kind has no rule; its kind's rule parts the raw label at a separator
/// that the raw label does not hold.
pub proof fn law_no_label_iff(label: Seq<u8>, kind: Option<CompletionKind>)
    ensures
        label_model(label, kind) is None <==> {
            ||| kind is None
            ||| kind == Some(CompletionKind::Other)
            ||| kind matches Some(k) && parts_at_type_sep(k) && !contains(label, type_sep())
            ||| kind matches Some(k) && parts_at_namespace_sep(k) && !contains(
                label,
                namespace_sep(),
            )
        },
{
}

/// Every label that a suggestion gets is well formed: each code range lies
/// inside the code, and the filter range inside the shown text and inside the
/// code.
pub proof fn law_labels_are_wf(label: Seq<u8>, kind: Option<CompletionKind>)
    ensures
        label_model(label, kind) matches Some(model) ==> model.wf(),
{
    match kind {
        None => {},
        Some(kind) => match kind {
            CompletionKind::Method => {
                if contains(label, type_sep()) {
                    law_method_filter_is_name(label);
                }
            },
            CompletionKind::Constructor => {
                law_constructor_skips_new(label);
            },
            CompletionKind::Variable | CompletionKind::Field | CompletionKind::Constant => {
                if contains(label, type_sep()) {
                    law_value_name_highlight(label, kind);
                }
            },
            CompletionKind::Class | CompletionKind::Interface | CompletionKind::Enum => {
                if contains(label, namespace_sep()) {
                    law_type_filter_is_name(label, kind);
                }
            },
            CompletionKind::Keyword => {
                law_keyword_is_whole(label);
            },
            CompletionKind::EnumMember => {
                law_enum_member_is_name(label);
            },
            CompletionKind::Other => {},
        },
    }
}

/// The separators and the other text that the rules put into a label are
/// well-formed UTF-8.
proof fn lemma_separators_are_valid()
    ensures
        valid_utf8(blank()),
        valid_utf8(type_sep()),
        valid_utf8(namespace_sep()),
        valid_utf8(new_prefix()),
        valid_utf8(namespace_open()),
        valid_utf8(namespace_close()),
{
    lemma_literal_bytes();
    encode_utf8_valid_utf8(" "@);
    encode_utf8_valid_utf8(" : "@);
    encode_utf8_valid_utf8(" - "@);
    encode_utf8_valid_utf8("new "@);
    encode_utf8_valid_utf8(" ("@);
    encode_utf8_valid_utf8(")"@);
}

/// The label of a method whose parts are well-formed UTF-8 cuts no character
/// in two, where the method's name ends between characters.
proof fn lemma_method_cuts_no_character(name_and_params: Seq<u8>, return_type: Seq<u8>)
    requires
        valid_utf8(name_and_params),
        valid_utf8(return_type),
        is_char_boundary(name_and_params, callable_name(name_and_params).len() as int),
    ensures
        method_model(name_and_params, return_type).cuts_no_character(),
{
    let model = method_model(name_and_params, return_type);
    let shown = name_and_params + (type_sep() + return_type);
    assert(model.shown() == shown) by {
        lemma_shown_three(model.code, model.spans[0], model.spans[1], model.spans[2]);
        assert(model.spans =~= seq![model.spans[0], model.spans[1], model.spans[2]]);
        assert(model.spans[0].shown(model.code) =~= name_and_params);
        assert(model.spans[2].shown(model.code) =~= return_type);
        assert(name_and_params + type_sep() + return_type =~= shown);
    }
    assert(model.code == return_type + (blank() + name_and_params)) by {
        assert(return_type + (blank() + name_and_params) =~= model.code);
    }
    lemma_separators_are_valid();
    lemma_join_is_boundary(return_type, blank());
    lemma_join_is_boundary(return_type + blank(), name_and_params);
    lemma_join_is_boundary(blank(), name_and_params);
    lemma_join_is_boundary(return_type, blank() + name_and_params);
    lemma_join_is_boundary(type_sep(), return_type);
    lemma_join_is_boundary(name_and_params, type_sep() + return_type);
    assert(is_char_boundary(shown, model.filter_end as int)) by {
        assert(shown.subrange(0, name_and_params.len() as int) =~= name_and_params);
        lemma_boundary_of_prefix(shown, name_and_params, model.filter_end as int);
    }
}

/// The label of a constructor whose raw label is well-formed UTF-8 cuts no
/// character in two, where the constructor's name ends between characters.
proof fn lemma_constructor_cuts_no_character(label: Seq<u8>)
    requires
        valid_utf8(label),
        is_char_boundary(label, callable_name(label).len() as int),
    ensures
        constructor_model(label).cuts_no_character(),
{
    let model = constructor_model(label);
    assert(model.shown() == label) by {
        lemma_shown_one(model.code, model.spans[0]);
        assert(model.spans =~= seq![model.spans[0]]);
        assert(model.spans[0].shown(model.code) =~= label);
    }
    lemma_separators_are_valid();
    lemma_join_is_boundary(new_prefix(), label);
    is_char_boundary_start_end_of_seq(label);
}

/// The label of a variable, field or constant whose parts are well-formed
/// UTF-8 cuts no character in two.
proof fn lemma_value_cuts_no_character(
    name: Seq<u8>,
    value_type: Seq<u8>,
    highlight: Option<Seq<char>>,
)
    requires
        valid_utf8(name),
        valid_utf8(value_type),
    ensures
        value_model(name, value_type, highlight).cuts_no_character(),
{
    let model = value_model(name, value_type, highlight);
    let shown = name + (type_sep() + value_type);
    assert(model.shown() == shown) by {
        lemma_shown_three(model.code, model.spans[0], model.spans[1], model.spans[2]);
        assert(model.spans =~= seq![model.spans[0], model.spans[1], model.spans[2]]);
        assert(model.spans[2].shown(model.code) =~= value_type);
        assert(name + type_sep() + value_type =~= shown);
    }
    assert(model.code == value_type + (blank() + name)) by {
        assert(value_type + (blank() + name) =~= model.code);
    }
    lemma_separators_are_valid();
    lemma_join_is_boundary(blank(), name);
    lemma_join_is_boundary(value_type, blank() + name);
    lemma_join_is_boundary(type_sep(), value_type);
    lemma_join_is_boundary(name, type_sep() + value_type);
}

/// The label of a class, interface or enum whose parts are well-formed UTF-8
/// cuts no character in two.
proof fn lemma_type_cuts_no_character(name: Seq<u8>, namespace: Seq<u8>)
    requires
        valid_utf8(name),
        valid_utf8(namespace),
    ensures
        type_model(name, namespace).cuts_no_character(),
{
    let model = type_model(name, namespace);
    assert(model.shown() == model.code) by {
        lemma_shown_two(model.code, model.spans[0], model.spans[1]);
        assert(model.spans =~= seq![model.spans[0], model.spans[1]]);
    }
    lemma_separators_are_valid();
    lemma_join_is_boundary(namespace_open(), namespace);
    lemma_join_is_boundary(namespace_open() + namespace, namespace_close());
    lemma_join_is_boundary(name, namespace_open() + namespace + namespace_close());
}

/// A label that is its text, whole, cuts no character in two where the text
/// is well-formed UTF-8.
proof fn lemma_plain_cuts_no_character(text: Seq<u8>)
    requires
        valid_utf8(text),
    ensures
        plain_model(text).cuts_no_character(),
{
    let model = plain_model(text);
    assert(model.shown() == text) by {
        lemma_shown_one(model.code, model.spans[0]);
        assert(model.spans =~= seq![model.spans[0]]);
        assert(text.subrange(0, text.len() as int) =~= text);
    }
    is_char_boundary_start_end_of_seq(text);
}

/// The name of a method or constructor ends between characters of what it is
/// the name in.
proof fn lemma_name_is_boundary(text: Seq<char>)
    ensures
        is_char_boundary(utf8(text), callable_name(utf8(text)).len() as int),
{
    lemma_literal_bytes();
    law_split_commutes_with_utf8(text, "("@);
    encode_utf8_valid_utf8(text);
    encode_utf8_valid_utf8(head_before(text, "("@));
    lemma_head_is_prefix(utf8(text), params_open());
    lemma_prefix_ends_on_boundary(utf8(text), callable_name(utf8(text)));
}

/// The label of a raw label that is a string cuts no character in two,
/// whatever characters the raw label holds.
pub proof fn law_labels_cut_no_character(label: Seq<char>, kind: Option<CompletionKind>)
    ensures
        label_model(utf8(label), kind) matches Some(model) ==> model.cuts_no_character(),
{
    let bytes = utf8(label);
    law_parts_by_characters(label);
    match kind {
        None => {},
        Some(kind) => match kind {
            CompletionKind::Method => {
                if let Some((head, tail)) = split_at_first(label, " : "@) {
                    encode_utf8_valid_utf8(head);
                    encode_utf8_valid_utf8(tail);
                    lemma_name_is_boundary(head);
                    lemma_method_cuts_no_character(utf8(head), utf8(tail));
                }
            },
            CompletionKind::Constructor => {
                encode_utf8_valid_utf8(label);
                lemma_name_is_boundary(label);
                lemma_constructor_cuts_no_character(bytes);
            },
            CompletionKind::Variable | CompletionKind::Field | CompletionKind::Constant => {
                if let Some((head, tail)) = split_at_first(label, " : "@) {
                    encode_utf8_valid_utf8(head);
                    encode_utf8_valid_utf8(tail);
                    lemma_value_cuts_no_character(utf8(head), utf8(tail), name_highlight(kind));
                }
            },
            CompletionKind::Class | CompletionKind::Interface | CompletionKind::Enum => {
                if let Some((head, tail)) = split_at_first(label, " - "@) {
                    encode_utf8_valid_utf8(head);
                    encode_utf8_valid_utf8(tail);
                    lemma_type_cuts_no_character(utf8(head), utf8(tail));
                }
            },
            CompletionKind::Keyword => {
                encode_utf8_valid_utf8(label);
                lemma_plain_cuts_no_character(bytes);
            },
            CompletionKind::EnumMember => {
                let name = head_before(label, " : "@);
                encode_utf8_valid_utf8(name);
                lemma_plain_cuts_no_character(utf8(name));
            },
            CompletionKind::Other => {},
        },
    }
}

} // verus!
