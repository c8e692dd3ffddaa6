use zed_apex::extension::ApexExtension;
use zed_apex::label::{
    CodeLabel, CodeLabelSpan, CodeLabelSpanLiteral, Completion, CompletionKind, Range,
};

fn completion(label: &str, kind: Option<CompletionKind>) -> Completion {
    Completion { label: label.to_string(), kind }
}

fn label_of(label: &str, kind: CompletionKind) -> Option<CodeLabel> {
    zed_apex::format::format(completion(label, Some(kind)))
}

fn code_range(start: usize, end: usize) -> CodeLabelSpan {
    CodeLabelSpan::CodeRange(Range { start, end })
}

fn literal(text: &str, highlight: Option<&str>) -> CodeLabelSpan {
    CodeLabelSpan::Literal(CodeLabelSpanLiteral {
        text: text.to_string(),
        highlight_name: highlight.map(|name| name.to_string()),
    })
}

/// The text that the spans of `label` show, one after the other.
fn shown(label: &CodeLabel) -> String {
    let mut text = String::new();
    for span in &label.spans {
        match span {
            CodeLabelSpan::CodeRange(range) => text.push_str(&label.code[range.start..range.end]),
            CodeLabelSpan::Literal(literal) => text.push_str(&literal.text),
        }
    }
    text
}

/// The part of the shown text that the filter range cuts out.
fn filter_text(label: &CodeLabel) -> String {
    shown(label)[label.filter_range.start..label.filter_range.end].to_string()
}

#[test]
fn method_label_puts_return_type_first() {
    let label = label_of("foo(x: Integer) : String", CompletionKind::Method).unwrap();
    assert_eq!(label.code, "String foo(x: Integer)");
    assert_eq!(label.code.len(), 22);
    assert_eq!(label.spans, vec![code_range(7, 22), literal(" : ", None), code_range(0, 6)]);
    assert_eq!(label.filter_range, Range { start: 0, end: 3 });
}

#[test]
fn method_label_shows_the_raw_label() {
    let label = label_of("foo(x: Integer) : String", CompletionKind::Method).unwrap();
    assert_eq!(shown(&label), "foo(x: Integer) : String");
    assert_eq!(filter_text(&label), "foo");
    assert_eq!(&label.code[7..22], "foo(x: Integer)");
    assert_eq!(&label.code[0..6], "String");
}

#[test]
fn method_filter_range_cuts_return_type_out_of_code() {
    let label = label_of("foo(x: Integer) : String", CompletionKind::Method).unwrap();
    assert_eq!(&label.code[label.filter_range.start..label.filter_range.end], "Str");
}

#[test]
fn method_filter_range_cuts_name_out_of_code_where_code_begins_with_it() {
    let label = label_of("a(x) : a b", CompletionKind::Method).unwrap();
    assert_eq!(label.code, "a b a(x)");
    assert_eq!(&label.code[label.filter_range.start..label.filter_range.end], "a");
}

#[test]
fn method_label_parts_at_first_separator() {
    let label = label_of("foo(x : Integer) : String", CompletionKind::Method).unwrap();
    assert_eq!(label.code, "Integer) : String foo(x");
    assert_eq!(label.spans, vec![code_range(18, 23), literal(" : ", None), code_range(0, 17)]);
    assert_eq!(label.filter_range, Range { start: 0, end: 3 });
    assert_eq!(shown(&label), "foo(x : Integer) : String");
    assert_eq!(filter_text(&label), "foo");
}

#[test]
fn method_label_without_parameters_is_matched_whole() {
    let label = label_of("size : Integer", CompletionKind::Method).unwrap();
    assert_eq!(label.code, "Integer size");
    assert_eq!(label.spans, vec![code_range(8, 12), literal(" : ", None), code_range(0, 7)]);
    assert_eq!(label.filter_range, Range { start: 0, end: 4 });
}

#[test]
fn method_label_without_separator_is_none() {
    assert_eq!(label_of("foo", CompletionKind::Method), None);
    assert_eq!(label_of("foo(x: Integer)", CompletionKind::Method), None);
    assert_eq!(label_of("foo() :String", CompletionKind::Method), None);
    assert_eq!(label_of("", CompletionKind::Method), None);
}

#[test]
fn method_label_of_bare_separator_is_empty_on_both_sides() {
    let label = label_of(" : ", CompletionKind::Method).unwrap();
    assert_eq!(label.code, " ");
    assert_eq!(label.spans, vec![code_range(1, 1), literal(" : ", None), code_range(0, 0)]);
    assert_eq!(label.filter_range, Range { start: 0, end: 0 });
}

#[test]
fn method_label_counts_bytes() {
    let label = label_of("gr\u{fc}\u{df}e(x) : \u{c4}rger", CompletionKind::Method).unwrap();
    assert_eq!(label.code, "\u{c4}rger gr\u{fc}\u{df}e(x)");
    assert_eq!(label.spans, vec![code_range(7, 17), literal(" : ", None), code_range(0, 6)]);
    assert_eq!(label.filter_range, Range { start: 0, end: 7 });
    assert_eq!(shown(&label), "gr\u{fc}\u{df}e(x) : \u{c4}rger");
    assert_eq!(filter_text(&label), "gr\u{fc}\u{df}e");
}

#[test]
fn constructor_label_starts_with_new() {
    let label = label_of("Account(String name)", CompletionKind::Constructor).unwrap();
    assert_eq!(label.code, "new Account(String name)");
    assert!(label.code.starts_with("new "));
    assert_eq!(label.spans, vec![code_range(4, 24)]);
    assert_eq!(label.filter_range, Range { start: 0, end: 7 });
    assert_eq!(shown(&label), "Account(String name)");
    assert_eq!(filter_text(&label), "Account");
}

#[test]
fn constructor_label_without_parameters_is_matched_whole() {
    let label = label_of("Account", CompletionKind::Constructor).unwrap();
    assert_eq!(label.code, "new Account");
    assert_eq!(label.spans, vec![code_range(4, 11)]);
    assert_eq!(label.filter_range, Range { start: 0, end: 7 });
}

#[test]
fn constructor_label_of_empty_text() {
    let label = label_of("", CompletionKind::Constructor).unwrap();
    assert_eq!(label.code, "new ");
    assert_eq!(label.spans, vec![code_range(4, 4)]);
    assert_eq!(label.filter_range, Range { start: 0, end: 0 });
}

#[test]
fn field_name_is_highlighted_as_property() {
    let label = label_of("Name : String", CompletionKind::Field).unwrap();
    assert_eq!(label.code, "String Name");
    assert_eq!(
        label.spans,
        vec![literal("Name", Some("property")), literal(" : ", None), code_range(0, 6)]
    );
    assert_eq!(label.filter_range, Range { start: 0, end: 4 });
    assert_eq!(shown(&label), "Name : String");
    assert_eq!(filter_text(&label), "Name");
}

#[test]
fn constant_name_is_highlighted_as_constant() {
    let label = label_of("MAX_SIZE : Integer", CompletionKind::Constant).unwrap();
    assert_eq!(label.code, "Integer MAX_SIZE");
    assert_eq!(
        label.spans,
        vec![literal("MAX_SIZE", Some("constant")), literal(" : ", None), code_range(0, 7)]
    );
    assert_eq!(label.filter_range, Range { start: 0, end: 8 });
}

#[test]
fn variable_name_has_no_highlight() {
    let label = label_of("count : Integer", CompletionKind::Variable).unwrap();
    assert_eq!(label.code, "Integer count");
    assert_eq!(
        label.spans,
        vec![literal("count", None), literal(" : ", None), code_range(0, 7)]
    );
    assert_eq!(label.filter_range, Range { start: 0, end: 5 });
}

#[test]
fn value_label_without_separator_is_none() {
    assert_eq!(label_of("count", CompletionKind::Variable), None);
    assert_eq!(label_of("Name: String", CompletionKind::Field), None);
    assert_eq!(label_of("MAX_SIZE - Integer", CompletionKind::Constant), None);
}

#[test]
fn value_label_parts_at_first_separator() {
    let label = label_of("m : Map<String : Integer>", CompletionKind::Variable).unwrap();
    assert_eq!(label.code, "Map<String : Integer> m");
    assert_eq!(label.spans, vec![literal("m", None), literal(" : ", None), code_range(0, 21)]);
    assert_eq!(label.filter_range, Range { start: 0, end: 1 });
}

#[test]
fn class_label_puts_namespace_in_brackets() {
    let label = label_of("Account - Schema", CompletionKind::Class).unwrap();
    assert_eq!(label.code, "Account (Schema)");
    assert_eq!(label.spans, vec![literal("Account", Some("type")), literal(" (Schema)", None)]);
    assert_eq!(label.filter_range, Range { start: 0, end: 7 });
    assert_eq!(shown(&label), "Account (Schema)");
    assert_eq!(&label.code[0..7], "Account");
    assert_eq!(filter_text(&label), "Account");
}

#[test]
fn interface_and_enum_labels_follow_the_class_rule() {
    let interface = label_of("Comparable - System", CompletionKind::Interface).unwrap();
    assert_eq!(interface.code, "Comparable (System)");
    assert_eq!(
        interface.spans,
        vec![literal("Comparable", Some("type")), literal(" (System)", None)]
    );
    assert_eq!(interface.filter_range, Range { start: 0, end: 10 });
    let enumeration = label_of("Season - MyApp", CompletionKind::Enum).unwrap();
    assert_eq!(enumeration.code, "Season (MyApp)");
    assert_eq!(enumeration.filter_range, Range { start: 0, end: 6 });
}

#[test]
fn type_label_without_separator_is_none() {
    assert_eq!(label_of("Account", CompletionKind::Class), None);
    assert_eq!(label_of("Account : Schema", CompletionKind::Interface), None);
    assert_eq!(label_of("Account-Schema", CompletionKind::Enum), None);
}

#[test]
fn type_label_parts_at_first_separator() {
    let label = label_of("A - B - C", CompletionKind::Class).unwrap();
    assert_eq!(label.code, "A (B - C)");
    assert_eq!(label.filter_range, Range { start: 0, end: 1 });
}

#[test]
fn keyword_label_is_the_text() {
    let label = label_of("global", CompletionKind::Keyword).unwrap();
    assert_eq!(label.code, "global");
    assert_eq!(label.spans, vec![code_range(0, 6)]);
    assert_eq!(label.filter_range, Range { start: 0, end: 6 });
    assert_eq!(shown(&label), "global");
}

#[test]
fn keyword_label_keeps_separators() {
    let label = label_of("a : b - c(", CompletionKind::Keyword).unwrap();
    assert_eq!(label.code, "a : b - c(");
    assert_eq!(label.spans, vec![code_range(0, 10)]);
    assert_eq!(label.filter_range, Range { start: 0, end: 10 });
}

#[test]
fn enum_member_label_drops_what_follows_the_name() {
    let label = label_of("WINTER : Season", CompletionKind::EnumMember).unwrap();
    assert_eq!(label.code, "WINTER");
    assert_eq!(label.spans, vec![code_range(0, 6)]);
    assert_eq!(label.filter_range, Range { start: 0, end: 6 });
}

#[test]
fn enum_member_label_without_separator_is_the_text() {
    let label = label_of("WINTER", CompletionKind::EnumMember).unwrap();
    assert_eq!(label.code, "WINTER");
    assert_eq!(label.spans, vec![code_range(0, 6)]);
    assert_eq!(label.filter_range, Range { start: 0, end: 6 });
}

#[test]
fn other_kind_has_no_label() {
    assert_eq!(label_of("foo(x: Integer) : String", CompletionKind::Other), None);
    assert_eq!(label_of("Account - Schema", CompletionKind::Other), None);
}

#[test]
fn missing_kind_has_no_label() {
    assert_eq!(zed_apex::format::format(completion("foo(x: Integer) : String", None)), None);
    assert_eq!(zed_apex::format::format(completion("global", None)), None);
}

#[test]
fn extension_labels_completions_as_format_does() {
    let extension = ApexExtension::new();
    let kinds = [
        CompletionKind::Method,
        CompletionKind::Constructor,
        CompletionKind::Variable,
        CompletionKind::Field,
        CompletionKind::Constant,
        CompletionKind::Class,
        CompletionKind::Interface,
        CompletionKind::Enum,
        CompletionKind::Keyword,
        CompletionKind::EnumMember,
        CompletionKind::Other,
    ];
    for raw in ["foo(x: Integer) : String", "Account - Schema", "plain", ""] {
        for kind in kinds {
            assert_eq!(
                extension.label_for_completion(completion(raw, Some(kind))),
                zed_apex::format::format(completion(raw, Some(kind)))
            );
        }
        assert_eq!(extension.label_for_completion(completion(raw, None)), None);
    }
}

#[test]
fn every_label_keeps_its_ranges_in_bounds() {
    let kinds = [
        CompletionKind::Method,
        CompletionKind::Constructor,
        CompletionKind::Variable,
        CompletionKind::Field,
        CompletionKind::Constant,
        CompletionKind::Class,
        CompletionKind::Interface,
        CompletionKind::Enum,
        CompletionKind::Keyword,
        CompletionKind::EnumMember,
    ];
    let raws = [
        "foo(x: Integer) : String",
        "foo(x : Integer) : String",
        "Account - Schema",
        "a : b - c(d) : e - f",
        " : ",
        " - ",
        "(",
        "",
        "na\u{ef}ve(\u{e9}) : \u{fc}ber - \u{df}",
    ];
    for raw in raws {
        for kind in kinds {
            if let Some(label) = label_of(raw, kind) {
                for span in &label.spans {
                    if let CodeLabelSpan::CodeRange(range) = span {
                        assert!(range.start <= range.end);
                        assert!(range.end <= label.code.len());
                        assert!(label.code.is_char_boundary(range.start));
                        assert!(label.code.is_char_boundary(range.end));
                    }
                }
                let text = shown(&label);
                assert!(label.filter_range.start <= label.filter_range.end);
                assert!(label.filter_range.end <= text.len());
                assert!(text.is_char_boundary(label.filter_range.end));
            }
        }
    }
}

#[test]
fn span_constructors_build_the_variants() {
    assert_eq!(CodeLabelSpan::code_range(Range { start: 2, end: 5 }), code_range(2, 5));
    assert_eq!(
        CodeLabelSpan::literal("Name".to_string(), Some("property".to_string())),
        literal("Name", Some("property"))
    );
    assert_eq!(CodeLabelSpan::literal(" : ".to_string(), None), literal(" : ", None));
}

#[test]
fn highlight_name_depends_on_the_kind() {
    assert_eq!(
        zed_apex::format::highlight_name(CompletionKind::Field),
        Some("property".to_string())
    );
    assert_eq!(
        zed_apex::format::highlight_name(CompletionKind::Constant),
        Some("constant".to_string())
    );
    assert_eq!(zed_apex::format::highlight_name(CompletionKind::Variable), None);
    assert_eq!(zed_apex::format::highlight_name(CompletionKind::Method), None);
}
