//! How completions and symbols from the language server are shown: a Scala
//! keyword chosen by the item's kind, followed by its name, with the name as
//! the part that filtering matches.

use vstd::prelude::*;
use vstd::utf8::encode_utf8;

verus! {

/// The kind of a completion item.
#[derive(Clone, Copy, Debug, PartialEq, Eq)]
pub enum CompletionKind {
    Text,
    Method,
    Function,
    Constructor,
    Field,
    Variable,
    Class,
    Interface,
    Module,
    Property,
    Unit,
    Value,
    Enum,
    Keyword,
    Snippet,
    Color,
    File,
    Reference,
    Folder,
    EnumMember,
    Constant,
    Struct,
    Event,
    Operator,
    TypeParameter,
    Other(i32),
}

/// The kind of a workspace symbol.
#[derive(Clone, Copy, Debug, PartialEq, Eq)]
pub enum SymbolKind {
    File,
    Module,
    Namespace,
    Package,
    Class,
    Method,
    Property,
    Field,
    Constructor,
    Enum,
    Interface,
    Function,
    Variable,
    Constant,
    String,
    Number,
    Boolean,
    Array,
    Object,
    Key,
    Null,
    EnumMember,
    Struct,
    Event,
    Operator,
    TypeParameter,
    Other(i32),
}

/// A label: its text, the byte range of `code` that is highlighted as code,
/// and the byte range `0..filter_end` of the name that filtering matches.
/// Byte lengths are those of the UTF-8 encoding.
#[derive(Clone, Debug, PartialEq, Eq)]
pub struct LabelParts {
    pub code: String,
    pub code_start: usize,
    pub code_end: usize,
    pub filter_end: usize,
}

/// The keyword shown before a completion of this kind; `None` for the kinds
/// that get no label.
pub open spec fn completion_prefix_spec(kind: CompletionKind) -> Option<Seq<char>> {
    match kind {
        CompletionKind::Method | CompletionKind::Function => Some("def "@),
        CompletionKind::Constructor
        | CompletionKind::Class
        | CompletionKind::Interface
        | CompletionKind::Module => Some("class "@),
        CompletionKind::Variable => Some("var "@),
        CompletionKind::Field
        | CompletionKind::Constant
        | CompletionKind::Value
        | CompletionKind::Property => Some("val "@),
        CompletionKind::Enum => Some("enum "@),
        CompletionKind::Keyword => Some(""@),
        _ => None,
    }
}

/// The keyword shown before a symbol of this kind.
pub open spec fn symbol_prefix_spec(kind: SymbolKind) -> Seq<char> {
    match kind {
        SymbolKind::Module
        | SymbolKind::Class
        | SymbolKind::Interface
        | SymbolKind::Constructor => "class "@,
        SymbolKind::Method | SymbolKind::Function => "def "@,
        SymbolKind::Variable => "var "@,
        SymbolKind::Property | SymbolKind::Field | SymbolKind::Constant => "val "@,
        _ => ""@,
    }
}

/// `s` with each run of two spaces, taken from the left, made one.
pub open spec fn collapse_double_spaces(s: Seq<char>) -> Seq<char>
    decreases s.len(),
{
    if s.len() == 0 {
        s
    } else if s.len() >= 2 && s[0] == ' ' && s[1] == ' ' {
        seq![' '] + collapse_double_spaces(s.subrange(2, s.len() as int))
    } else {
        seq![s[0]] + collapse_double_spaces(s.subrange(1, s.len() as int))
    }
}

/// `s` without its line feeds.
pub open spec fn without_newlines(s: Seq<char>) -> Seq<char>
    decreases s.len(),
{
    if s.len() == 0 {
        s
    } else if s[0] == '\n' {
        without_newlines(s.subrange(1, s.len() as int))
    } else {
        seq![s[0]] + without_newlines(s.subrange(1, s.len() as int))
    }
}

/// The label for `prefix` and `name`.
pub open spec fn label_of(prefix: Seq<char>, name: Seq<char>, l: LabelParts) -> bool {
    &&& l.code@ == prefix + name
    &&& l.code_start == encode_utf8(prefix).len() as usize
    &&& l.code_end == encode_utf8(prefix + name).len() as usize
    &&& l.filter_end == encode_utf8(name).len() as usize
}

/// The keyword for a completion kind.
pub fn completion_prefix(kind: CompletionKind) -> (r: Option<&'static str>)
    ensures
        match r {
            Some(p) => completion_prefix_spec(kind) == Some(p@),
            None => completion_prefix_spec(kind) is None,
        },
{
    match kind {
        CompletionKind::Method | CompletionKind::Function => Some("def "),
        CompletionKind::Constructor
        | CompletionKind::Class
        | CompletionKind::Interface
        | CompletionKind::Module => Some("class "),
        CompletionKind::Variable => Some("var "),
        CompletionKind::Field
        | CompletionKind::Constant
        | CompletionKind::Value
        | CompletionKind::Property => Some("val "),
        CompletionKind::Enum => Some("enum "),
        CompletionKind::Keyword => Some(""),
        _ => None,
    }
}

/// The keyword for a symbol kind.
pub fn symbol_prefix(kind: SymbolKind) -> (r: &'static str)
    ensures
        r@ == symbol_prefix_spec(kind),
{
    match kind {
        SymbolKind::Module
        | SymbolKind::Class
        | SymbolKind::Interface
        | SymbolKind::Constructor => "class ",
        SymbolKind::Method | SymbolKind::Function => "def ",
        SymbolKind::Variable => "var ",
        SymbolKind::Property | SymbolKind::Field | SymbolKind::Constant => "val ",
        _ => "",
    }
}

/// `s` with double spaces collapsed, as `collapse_double_spaces` describes.
pub fn collapse_spaces(s: &str) -> (r: String)
    ensures
        r@ == collapse_double_spaces(s@),
{
    let n = s.unicode_len();
    let space = " ";
    proof {
        reveal_strlit(" ");
    }
    let mut out = String::new();
    let mut i: usize = 0;
    assert(s@.subrange(0, n as int) =~= s@);
    while i < n
        invariant
            i <= n == s@.len(),
            space@ == seq![' '],
            out@ + collapse_double_spaces(s@.subrange(i as int, n as int)) == collapse_double_spaces(
                s@,
            ),
        decreases n - i,
    {
        let ghost rest = s@.subrange(i as int, n as int);
        if i + 1 < n && s.get_char(i) == ' ' && s.get_char(i + 1) == ' ' {
            assert(rest.subrange(2, rest.len() as int) =~= s@.subrange(i + 2, n as int));
            out.append(space);
            i = i + 2;
        } else {
            assert(rest.subrange(1, rest.len() as int) =~= s@.subrange(i + 1, n as int));
            let c = s.substring_char(i, i + 1);
            assert(c@ =~= seq![rest[0]]);
            out.append(c);
            i = i + 1;
        }
        assert(out@ + collapse_double_spaces(s@.subrange(i as int, n as int)) =~= collapse_double_spaces(
            s@,
        ));
    }
    assert(s@.subrange(n as int, n as int) =~= Seq::<char>::empty());
    assert(out@ =~= out@ + collapse_double_spaces(s@.subrange(n as int, n as int)));
    out
}

/// `s` without line feeds, as `without_newlines` describes.
pub fn strip_newlines(s: &str) -> (r: String)
    ensures
        r@ == without_newlines(s@),
{
    let n = s.unicode_len();
    let mut out = String::new();
    let mut i: usize = 0;
    assert(s@.subrange(0, n as int) =~= s@);
    while i < n
        invariant
            i <= n == s@.len(),
            out@ + without_newlines(s@.subrange(i as int, n as int)) == without_newlines(s@),
        decreases n - i,
    {
        let ghost rest = s@.subrange(i as int, n as int);
        assert(rest.subrange(1, rest.len() as int) =~= s@.subrange(i + 1, n as int));
        if s.get_char(i) != '\n' {
            let c = s.substring_char(i, i + 1);
            assert(c@ =~= seq![rest[0]]);
            out.append(c);
        }
        i = i + 1;
        assert(out@ + without_newlines(s@.subrange(i as int, n as int)) =~= without_newlines(s@));
    }
    assert(s@.subrange(n as int, n as int) =~= Seq::<char>::empty());
    assert(out@ =~= out@ + without_newlines(s@.subrange(n as int, n as int)));
    out
}

/// Lays out `prefix` followed by `name`.
pub fn code_label(prefix: &str, name: &str) -> (r: LabelParts)
    ensures
        label_of(prefix@, name@, r),
{
    let mut code = String::from_str(prefix);
    code.append(name);
    let code_end = code.as_str().len();
    LabelParts { code, code_start: prefix.len(), code_end, filter_end: name.len() }
}

/// The label of a completion: its kind's keyword before its label, with
/// double spaces collapsed and line feeds removed; none for a completion
/// without a kind or of a kind that gets no keyword.
pub fn label_for_completion(kind: Option<CompletionKind>, label: &str) -> (r: Option<LabelParts>)
    ensures
        match kind {
            None => r is None,
            Some(k) => match completion_prefix_spec(k) {
                None => r is None,
                Some(p) => r matches Some(l) && label_of(
                    p,
                    without_newlines(collapse_double_spaces(label@)),
                    l,
                ),
            },
        },
{
    let kind = match kind {
        Some(k) => k,
        None => return None,
    };
    let prefix = match completion_prefix(kind) {
        Some(p) => p,
        None => return None,
    };
    let collapsed = collapse_spaces(label);
    let name = strip_newlines(collapsed.as_str());
    Some(code_label(prefix, name.as_str()))
}

/// The label of a symbol: its kind's keyword before its name.
pub fn label_for_symbol(kind: SymbolKind, name: &str) -> (r: LabelParts)
    ensures
        label_of(symbol_prefix_spec(kind), name@, r),
{
    code_label(symbol_prefix(kind), name)
}

} // verus!
