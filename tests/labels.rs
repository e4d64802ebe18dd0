use zed_scala::labels::{
    label_for_completion, label_for_symbol, CompletionKind, LabelParts, SymbolKind,
};

fn parts(code: &str, code_start: usize, code_end: usize, filter_end: usize) -> LabelParts {
    LabelParts { code: code.to_string(), code_start, code_end, filter_end }
}

#[test]
fn completion_labels_by_kind() {
    assert_eq!(
        label_for_completion(Some(CompletionKind::Method), "foo(x: Int)"),
        Some(parts("def foo(x: Int)", 4, 15, 11))
    );
    assert_eq!(
        label_for_completion(Some(CompletionKind::Module), "Seq"),
        Some(parts("class Seq", 6, 9, 3))
    );
    assert_eq!(
        label_for_completion(Some(CompletionKind::Enum), "Color"),
        Some(parts("enum Color", 5, 10, 5))
    );
    assert_eq!(
        label_for_completion(Some(CompletionKind::Keyword), "match"),
        Some(parts("match", 0, 5, 5))
    );
    assert_eq!(label_for_completion(Some(CompletionKind::Text), "x"), None);
    assert_eq!(label_for_completion(Some(CompletionKind::Other(3)), "x"), None);
    assert_eq!(label_for_completion(None, "x"), None);
}

#[test]
fn completion_label_cleans_name() {
    assert_eq!(
        label_for_completion(Some(CompletionKind::Value), "a  b\nc"),
        Some(parts("val a bc", 4, 8, 4))
    );
    assert_eq!(
        label_for_completion(Some(CompletionKind::Variable), "a   b"),
        Some(parts("var a  b", 4, 8, 4))
    );
    assert_eq!(
        label_for_completion(Some(CompletionKind::Field), "\u{e9}t\u{e9}"),
        Some(parts("val \u{e9}t\u{e9}", 4, 9, 5))
    );
}

#[test]
fn symbol_labels_by_kind() {
    assert_eq!(label_for_symbol(SymbolKind::Class, "Foo"), parts("class Foo", 6, 9, 3));
    assert_eq!(label_for_symbol(SymbolKind::Function, "run"), parts("def run", 4, 7, 3));
    assert_eq!(label_for_symbol(SymbolKind::Constant, "Pi"), parts("val Pi", 4, 6, 2));
    assert_eq!(label_for_symbol(SymbolKind::Package, "a.b"), parts("a.b", 0, 3, 3));
}
