//! Rust source files as the `syn` parser reads them and `prettyplease` prints
//! them. A parsed file is known to verified code by its text; every fact about
//! its items is a named result of that text, obtained through one call each.
//! Whether `prettyplease` can print a tree is decided here, in verified code,
//! from the raw nodes and macro items that a walk of the tree finds.
use vstd::prelude::*;
use proc_macro2::{Spacing, TokenTree};
use quote::ToTokens;
use syn::spanned::Spanned;
use syn::visit::Visit;
use syn::Item;

verus! {

/// The kinds of top-level items, one per variant of `syn::Item`.
#[derive(Clone, Copy, Debug, PartialEq, Eq, Structural)]
pub enum ItemKind {
    Function,
    Struct,
    Enum,
    Module,
    Trait,
    Macro,
    Impl,
    Use,
    Const,
    Static,
    TypeAlias,
    Union,
    ExternCrate,
    ForeignMod,
    TraitAlias,
    /// Syntax that `syn` parses but keeps as raw tokens (such as `fn f();`).
    Verbatim,
    /// A variant added to `syn::Item` after this library was written.
    Other,
}

/// `syn::File`, the syntax tree of a whole source file, carried through opaquely.
#[verifier::external_type_specification]
#[verifier::external_body]
pub struct ExSynFile(syn::File);

/// A Rust source text together with its syntax tree.
pub struct SourceFile {
    text: String,
    syntax: syn::File,
}

impl View for SourceFile {
    type V = Seq<char>;

    closed spec fn view(&self) -> Seq<char> {
        self.text@
    }
}

/// Whether `syn::parse_file` accepts the text.
pub uninterp spec fn parses_as_rust_file(text: Seq<char>) -> bool;

/// The message (`Display`) of the error `syn::parse_file` reports on the text.
pub uninterp spec fn rust_parse_error(text: Seq<char>) -> Seq<char>;

/// The number of top-level items of the parsed text.
pub uninterp spec fn item_count_of(text: Seq<char>) -> nat;

/// The kind of top-level item `i`.
pub uninterp spec fn item_kind_of(text: Seq<char>, i: int) -> ItemKind;

/// The name (`Ident::to_string`) of top-level item `i`, for the kinds that
/// carry one (a macro invocation may have none).
pub uninterp spec fn item_ident_of(text: Seq<char>, i: int) -> Option<Seq<char>>;

/// The line (counted from 1) on which the span of top-level item `i` starts.
pub uninterp spec fn item_start_line_of(text: Seq<char>, i: int) -> nat;

/// The line on which the span of top-level item `i` ends.
pub uninterp spec fn item_end_line_of(text: Seq<char>, i: int) -> nat;

/// The token text (`to_token_stream().to_string()`) of each outer attribute
/// of top-level item `i`, doc comments included, in order.
pub uninterp spec fn item_attr_texts_of(text: Seq<char>, i: int) -> Seq<Seq<char>>;

/// What `prettyplease::unparse` prints for a file holding only item `i`.
pub uninterp spec fn rendered_item_of(text: Seq<char>, i: int) -> Seq<char>;

/// What `prettyplease::unparse` prints for the whole parsed file.
pub uninterp spec fn rendered_file_of(text: Seq<char>) -> Seq<char>;

/// `out` is the pretty `Debug` text (`{:#?}`) of item `i` of the parsed text,
/// for some placement of the file in the per-thread span map.
pub uninterp spec fn is_item_debug_text(text: Seq<char>, i: int, out: Seq<char>) -> bool;

/// `out` is the pretty `Debug` text of the whole parsed file, for some
/// placement of the file in the per-thread span map.
pub uninterp spec fn is_file_debug_text(text: Seq<char>, out: Seq<char>) -> bool;

/// The kinds that a lookup by name considers.
pub open spec fn is_named_kind(k: ItemKind) -> bool {
    k == ItemKind::Function || k == ItemKind::Struct || k == ItemKind::Enum || k == ItemKind::Module
        || k == ItemKind::Trait || k == ItemKind::Macro
}

/// The kinds whose `syn` item holds an `Ident` (an optional one for macros).
pub open spec fn has_ident_kind(k: ItemKind) -> bool {
    is_named_kind(k) || k == ItemKind::Const || k == ItemKind::Static || k == ItemKind::TypeAlias
        || k == ItemKind::Union || k == ItemKind::ExternCrate || k == ItemKind::TraitAlias
}

/// The kinds whose `syn` item holds outer attributes apart from its tokens.
pub open spec fn has_attrs_kind(k: ItemKind) -> bool {
    k != ItemKind::Verbatim && k != ItemKind::Other
}

/// Trusted: `syn::parse_file`. Claimed: it succeeds exactly on the texts that
/// parse, keeps the text it was given, and reports the parser's message otherwise.
#[verifier::external_body]
pub(crate) fn parse_source(text: &str) -> (r: Result<SourceFile, String>)
    ensures
        r is Ok <==> parses_as_rust_file(text@),
        r is Ok ==> r->Ok_0@ == text@,
        r is Err ==> r->Err_0@ == rust_parse_error(text@),
{
    match syn::parse_file(text) {
        Ok(syntax) => Ok(SourceFile { text: text.to_string(), syntax }),
        Err(e) => Err(e.to_string()),
    }
}

/// Trusted: the length of the file's item list, as `syn` parsed it.
#[verifier::external_body]
pub(crate) fn item_count(f: &SourceFile) -> (r: usize)
    ensures
        r == item_count_of(f@),
{
    f.syntax.items.len()
}

/// Trusted: tells apart the variants of `syn::Item` for item `i`.
#[verifier::external_body]
pub(crate) fn item_kind(f: &SourceFile, i: usize) -> (r: ItemKind)
    requires
        i < item_count_of(f@),
    ensures
        r == item_kind_of(f@, i as int),
{
    match &f.syntax.items[i] {
        Item::Fn(_) => ItemKind::Function, Item::Struct(_) => ItemKind::Struct,
        Item::Enum(_) => ItemKind::Enum, Item::Mod(_) => ItemKind::Module,
        Item::Trait(_) => ItemKind::Trait, Item::Macro(_) => ItemKind::Macro,
        Item::Impl(_) => ItemKind::Impl, Item::Use(_) => ItemKind::Use,
        Item::Const(_) => ItemKind::Const, Item::Static(_) => ItemKind::Static,
        Item::Type(_) => ItemKind::TypeAlias, Item::Union(_) => ItemKind::Union,
        Item::ExternCrate(_) => ItemKind::ExternCrate, Item::ForeignMod(_) => ItemKind::ForeignMod,
        Item::TraitAlias(_) => ItemKind::TraitAlias, Item::Verbatim(_) => ItemKind::Verbatim,
        _ => ItemKind::Other,
    }
}

/// Trusted: `Ident::to_string` on the name of item `i`. Claimed: only a macro
/// invocation may lack a name (the other kinds' `syn` structs hold an `Ident`).
#[verifier::external_body]
pub(crate) fn item_ident(f: &SourceFile, i: usize) -> (r: Option<String>)
    requires
        i < item_count_of(f@),
        has_ident_kind(item_kind_of(f@, i as int)),
    ensures
        r is Some <==> item_ident_of(f@, i as int) is Some,
        r is Some ==> item_ident_of(f@, i as int) == Some(r->0@),
        item_kind_of(f@, i as int) != ItemKind::Macro ==> r is Some,
{
    let ident = match &f.syntax.items[i] {
        Item::Fn(x) => &x.sig.ident, Item::Struct(x) => &x.ident, Item::Enum(x) => &x.ident,
        Item::Mod(x) => &x.ident, Item::Trait(x) => &x.ident, Item::Const(x) => &x.ident,
        Item::Static(x) => &x.ident, Item::Type(x) => &x.ident, Item::Union(x) => &x.ident,
        Item::ExternCrate(x) => &x.ident, Item::TraitAlias(x) => &x.ident,
        Item::Macro(x) => return x.ident.as_ref().map(ToString::to_string),
        _ => return None,
    };
    Some(ident.to_string())
}

/// Trusted: `Spanned::span` and `Span::start` of item `i`.
#[verifier::external_body]
pub(crate) fn item_start_line(f: &SourceFile, i: usize) -> (r: usize)
    requires
        i < item_count_of(f@),
    ensures
        r == item_start_line_of(f@, i as int),
{
    f.syntax.items[i].span().start().line
}

/// Trusted: `Spanned::span` and `Span::end` of item `i`.
#[verifier::external_body]
pub(crate) fn item_end_line(f: &SourceFile, i: usize) -> (r: usize)
    requires
        i < item_count_of(f@),
    ensures
        r == item_end_line_of(f@, i as int),
{
    f.syntax.items[i].span().end().line
}

/// Trusted: `ToTokens::to_token_stream` and `TokenStream::to_string` on each
/// outer attribute of item `i`, for the kinds a lookup by name considers and
/// for `impl` and `use` items.
#[verifier::external_body]
pub(crate) fn item_attr_texts(f: &SourceFile, i: usize) -> (r: Vec<String>)
    requires
        i < item_count_of(f@),
        is_named_kind(item_kind_of(f@, i as int)) || item_kind_of(f@, i as int) == ItemKind::Impl
            || item_kind_of(f@, i as int) == ItemKind::Use,
    ensures
        r@.map_values(|a: String| a@) == item_attr_texts_of(f@, i as int),
{
    let attrs = match &f.syntax.items[i] {
        Item::Fn(x) => &x.attrs, Item::Struct(x) => &x.attrs, Item::Enum(x) => &x.attrs,
        Item::Mod(x) => &x.attrs, Item::Trait(x) => &x.attrs, Item::Macro(x) => &x.attrs,
        Item::Impl(x) => &x.attrs, Item::Use(x) => &x.attrs,
        _ => return Vec::new(),
    };
    attrs.iter().map(|a| a.to_token_stream().to_string()).collect()
}

/// Trusted: as `item_attr_texts`, for the remaining kinds that hold attributes
/// (the item structs differ, so the two are read apart).
#[verifier::external_body]
pub(crate) fn item_attr_texts_other(f: &SourceFile, i: usize) -> (r: Vec<String>)
    requires
        i < item_count_of(f@),
        has_attrs_kind(item_kind_of(f@, i as int)),
        !is_named_kind(item_kind_of(f@, i as int)),
        item_kind_of(f@, i as int) != ItemKind::Impl,
        item_kind_of(f@, i as int) != ItemKind::Use,
    ensures
        r@.map_values(|a: String| a@) == item_attr_texts_of(f@, i as int),
{
    let attrs = match &f.syntax.items[i] {
        Item::Const(x) => &x.attrs, Item::Static(x) => &x.attrs, Item::Type(x) => &x.attrs,
        Item::Union(x) => &x.attrs, Item::ExternCrate(x) => &x.attrs,
        Item::ForeignMod(x) => &x.attrs, Item::TraitAlias(x) => &x.attrs,
        _ => return Vec::new(),
    };
    attrs.iter().map(|a| a.to_token_stream().to_string()).collect()
}

/// The kinds of syntax node that `syn` may keep as raw tokens (`Verbatim`)
/// when it parses syntax it does not model.
#[derive(Clone, Copy, Debug, PartialEq, Eq, Structural)]
pub enum RawNodeKind {
    Expr,
    Type,
    Pat,
    Bound,
    Item,
    ForeignItem,
    TraitItem,
    ImplItem,
}

/// A `Verbatim` node: its kind, and whether its token stream is empty.
#[derive(Clone, Copy, Debug, PartialEq, Eq, Structural)]
pub struct RawNode {
    pub kind: RawNodeKind,
    pub empty: bool,
}

/// A token of a macro body at its top level: a delimited group, a punctuation
/// character (with whether it is joined to the next one), or a word (an
/// identifier or a literal).
#[derive(Clone, Copy, Debug, PartialEq, Eq, Structural)]
pub enum RuleToken {
    Group,
    Punct(char, bool),
    Word,
}

/// A macro item (`path! name { body }`): the path when it is a single plain
/// identifier, whether the item names what it defines, and its body tokens.
pub struct MacroItem {
    pub path_ident: Option<String>,
    pub named: bool,
    pub body: Vec<RuleToken>,
}

pub struct MacroItemView {
    pub path_ident: Option<Seq<char>>,
    pub named: bool,
    pub body: Seq<RuleToken>,
}

impl View for MacroItem {
    type V = MacroItemView;

    open spec fn view(&self) -> MacroItemView {
        MacroItemView {
            path_ident: match self.path_ident {
                Some(p) => Some(p@),
                None => None,
            },
            named: self.named,
            body: self.body@,
        }
    }
}

/// What a walk over a syntax tree finds that decides whether `prettyplease`
/// can print it: every `Verbatim` node and every macro item, in the order of
/// the walk.
pub struct PrintFacts {
    pub raw_nodes: Vec<RawNode>,
    pub macro_items: Vec<MacroItem>,
}

pub struct PrintFactsView {
    pub raw_nodes: Seq<RawNode>,
    pub macro_items: Seq<MacroItemView>,
}

impl View for PrintFacts {
    type V = PrintFactsView;

    open spec fn view(&self) -> PrintFactsView {
        PrintFactsView {
            raw_nodes: self.raw_nodes@,
            macro_items: self.macro_items@.map_values(|m: MacroItem| m@),
        }
    }
}

/// The facts that the walk of `syn::visit` finds in top-level item `i`.
pub uninterp spec fn item_print_facts_of(text: Seq<char>, i: int) -> PrintFactsView;

/// The facts that the walk of `syn::visit` finds in the whole parsed file.
pub uninterp spec fn file_print_facts_of(text: Seq<char>) -> PrintFactsView;

/// `prettyplease` prints a `Verbatim` node only when it is an empty one of an
/// expression or of an item of some kind; a type, pattern or bound kept raw
/// stops it, and so does any non-empty raw node.
pub open spec fn raw_node_prints(n: RawNode) -> bool {
    match n.kind {
        RawNodeKind::Type | RawNodeKind::Pat | RawNodeKind::Bound => false,
        _ => n.empty,
    }
}

/// Where `prettyplease` stands in the rules of a `macro_rules!` definition.
#[derive(Clone, Copy, Debug, PartialEq, Eq, Structural)]
pub enum RuleState {
    Start,
    Matcher,
    Equal,
    Greater,
    Expander,
}

/// One step over the rules `(matcher) => {expander};`: `None` where a token
/// does not fit.
pub open spec fn rule_step(s: RuleState, t: RuleToken) -> Option<RuleState> {
    match (s, t) {
        (RuleState::Start, RuleToken::Group) => Some(RuleState::Matcher),
        (RuleState::Matcher, RuleToken::Punct('=', true)) => Some(RuleState::Equal),
        (RuleState::Equal, RuleToken::Punct('>', false)) => Some(RuleState::Greater),
        (RuleState::Greater, RuleToken::Group) => Some(RuleState::Expander),
        (RuleState::Expander, RuleToken::Punct(';', false)) => Some(RuleState::Start),
        _ => None,
    }
}

/// The state after the whole body, or `None` once a token did not fit.
pub open spec fn rules_run(body: Seq<RuleToken>) -> Option<RuleState>
    decreases body.len(),
{
    if body.len() == 0 {
        Some(RuleState::Start)
    } else {
        match rules_run(body.drop_last()) {
            Some(s) => rule_step(s, body.last()),
            None => None,
        }
    }
}

/// A named `macro_rules!` item is printed rule by rule, and only when its
/// body is a run of rules; any other macro item is printed token by token.
pub open spec fn macro_item_prints(m: MacroItemView) -> bool {
    m.named && m.path_ident == Some("macro_rules"@) ==> rules_run(m.body) is Some
}

/// The token at position `p` (counted from 0) of a rule written
/// `(matcher) => {expander};`: a group, `=` joined to the next token, `>`,
/// a group, then `;`.
pub open spec fn rule_pattern_token(p: int) -> RuleToken {
    if p == 0 {
        RuleToken::Group
    } else if p == 1 {
        RuleToken::Punct('=', true)
    } else if p == 2 {
        RuleToken::Punct('>', false)
    } else if p == 3 {
        RuleToken::Group
    } else {
        RuleToken::Punct(';', false)
    }
}

/// `prettyplease` prints a named `macro_rules!` item exactly when its body
/// follows, token by token, rules `(matcher) => {expander}` separated by `;`:
/// the body may end after any token of a rule, so a last rule with or without
/// its `;` is printed (and so is an empty body). Any other macro item is
/// printed whatever its body holds.
pub proof fn lemma_macro_rules_printable_iff_rules(m: MacroItemView)
    ensures
        macro_item_prints(m) <==> (m.named && m.path_ident == Some("macro_rules"@) ==> forall|k: int|
            0 <= k < m.body.len() ==> m.body[k] == rule_pattern_token(k % 5)),
        m.named && m.path_ident == Some("macro_rules"@) && m.body.len() % 5 == 4 && (forall|k: int|
            0 <= k < m.body.len() ==> m.body[k] == rule_pattern_token(k % 5)) ==> macro_item_prints(m),
        !(m.named && m.path_ident == Some("macro_rules"@)) ==> macro_item_prints(m),
{
    lemma_rules_run_follows_pattern(m.body);
}

/// `prettyplease` prints a raw node only when it is empty and stands for an
/// expression, an item, a foreign item, a trait item or an impl item; a raw
/// type, pattern or bound is never printed.
pub proof fn lemma_raw_node_prints_iff(n: RawNode)
    ensures
        raw_node_prints(n) <==> n.empty && (n.kind == RawNodeKind::Expr || n.kind == RawNodeKind::Item
            || n.kind == RawNodeKind::ForeignItem || n.kind == RawNodeKind::TraitItem || n.kind
            == RawNodeKind::ImplItem),
{
}

/// The state that the rules reach after `p` tokens of a rule.
spec fn rule_state_at(p: int) -> RuleState {
    if p == 0 {
        RuleState::Start
    } else if p == 1 {
        RuleState::Matcher
    } else if p == 2 {
        RuleState::Equal
    } else if p == 3 {
        RuleState::Greater
    } else {
        RuleState::Expander
    }
}

proof fn lemma_rules_run_follows_pattern(body: Seq<RuleToken>)
    ensures
        rules_run(body) is Some <==> forall|k: int| 0 <= k < body.len() ==> body[k] == rule_pattern_token(k % 5),
        rules_run(body) is Some ==> rules_run(body) == Some(rule_state_at((body.len() % 5) as int)),
    decreases body.len(),
{
    if body.len() > 0 {
        let prefix = body.drop_last();
        let n = body.len() - 1;
        lemma_rules_run_follows_pattern(prefix);
        assert forall|k: int| 0 <= k < n implies prefix[k] == body[k] by {}
        if rules_run(prefix) is Some {
            assert(forall|k: int| 0 <= k < n ==> body[k] == rule_pattern_token(k % 5));
            let r = n % 5;
            assert(body.len() % 5 == if r == 4 { 0 } else { r + 1 });
            assert(rule_step(rule_state_at(r), body.last()) is Some <==> body.last() == rule_pattern_token(r));
            assert(body.last() == body[n]);
        } else {
            let k0 = choose|k: int| 0 <= k < n && prefix[k] != rule_pattern_token(k % 5);
            assert(body[k0] != rule_pattern_token(k0 % 5));
        }
    }
}

/// Nothing that a walk found stops `prettyplease`.
pub open spec fn facts_printable(f: PrintFactsView) -> bool {
    &&& forall|k: int| 0 <= k < f.raw_nodes.len() ==> raw_node_prints(#[trigger] f.raw_nodes[k])
    &&& forall|k: int| 0 <= k < f.macro_items.len() ==> macro_item_prints(#[trigger] f.macro_items[k])
}

/// `prettyplease` can print top-level item `i`.
pub open spec fn item_printable(text: Seq<char>, i: int) -> bool {
    facts_printable(item_print_facts_of(text, i))
}

/// `prettyplease` can print the whole parsed file.
pub open spec fn file_printable(text: Seq<char>) -> bool {
    facts_printable(file_print_facts_of(text))
}

/// `syn::Expr`, carried through opaquely.
#[verifier::external_type_specification]
#[verifier::external_body]
pub struct ExSynExpr(syn::Expr);

/// `syn::Type`, carried through opaquely.
#[verifier::external_type_specification]
#[verifier::external_body]
pub struct ExSynType(syn::Type);

/// `syn::Pat`, carried through opaquely.
#[verifier::external_type_specification]
#[verifier::external_body]
pub struct ExSynPat(syn::Pat);

/// `syn::TypeParamBound`, carried through opaquely.
#[verifier::external_type_specification]
#[verifier::external_body]
pub struct ExSynTypeParamBound(syn::TypeParamBound);

/// `syn::Item`, carried through opaquely.
#[verifier::external_type_specification]
#[verifier::external_body]
pub struct ExSynItem(syn::Item);

/// `syn::ForeignItem`, carried through opaquely.
#[verifier::external_type_specification]
#[verifier::external_body]
pub struct ExSynForeignItem(syn::ForeignItem);

/// `syn::TraitItem`, carried through opaquely.
#[verifier::external_type_specification]
#[verifier::external_body]
pub struct ExSynTraitItem(syn::TraitItem);

/// `syn::ImplItem`, carried through opaquely.
#[verifier::external_type_specification]
#[verifier::external_body]
pub struct ExSynImplItem(syn::ImplItem);

/// `syn::ItemMacro`, carried through opaquely.
#[verifier::external_type_specification]
#[verifier::external_body]
pub struct ExSynItemMacro(syn::ItemMacro);

/// Trusted: the walk that `syn::visit` drives. At each node of the kinds that
/// `syn` may keep raw, a `Verbatim` variant is recorded with its kind and
/// whether its tokens are empty (`TokenStream::is_empty`); at each macro item,
/// its path (`Path::get_ident`, as text), whether it is named, and its body's
/// top-level tokens are recorded, each token told apart by its `TokenTree`
/// variant (and a punctuation by its `Spacing`). Every method then hands the
/// node back to `syn::visit`'s own walk, which goes on into its children, so
/// that every node of the tree is met once, attributes included.
impl<'ast> Visit<'ast> for PrintFacts {
    #[verifier::external_body]
    fn visit_expr(&mut self, i: &'ast syn::Expr) {
        if let syn::Expr::Verbatim(t) = i {
            self.raw_nodes.push(RawNode { kind: RawNodeKind::Expr, empty: t.is_empty() });
        }
        syn::visit::visit_expr(self, i);
    }

    #[verifier::external_body]
    fn visit_type(&mut self, i: &'ast syn::Type) {
        if let syn::Type::Verbatim(t) = i {
            self.raw_nodes.push(RawNode { kind: RawNodeKind::Type, empty: t.is_empty() });
        }
        syn::visit::visit_type(self, i);
    }

    #[verifier::external_body]
    fn visit_pat(&mut self, i: &'ast syn::Pat) {
        if let syn::Pat::Verbatim(t) = i {
            self.raw_nodes.push(RawNode { kind: RawNodeKind::Pat, empty: t.is_empty() });
        }
        syn::visit::visit_pat(self, i);
    }

    #[verifier::external_body]
    fn visit_type_param_bound(&mut self, i: &'ast syn::TypeParamBound) {
        if let syn::TypeParamBound::Verbatim(t) = i {
            self.raw_nodes.push(RawNode { kind: RawNodeKind::Bound, empty: t.is_empty() });
        }
        syn::visit::visit_type_param_bound(self, i);
    }

    #[verifier::external_body]
    fn visit_item(&mut self, i: &'ast syn::Item) {
        if let syn::Item::Verbatim(t) = i {
            self.raw_nodes.push(RawNode { kind: RawNodeKind::Item, empty: t.is_empty() });
        }
        syn::visit::visit_item(self, i);
    }

    #[verifier::external_body]
    fn visit_foreign_item(&mut self, i: &'ast syn::ForeignItem) {
        if let syn::ForeignItem::Verbatim(t) = i {
            self.raw_nodes.push(RawNode { kind: RawNodeKind::ForeignItem, empty: t.is_empty() });
        }
        syn::visit::visit_foreign_item(self, i);
    }

    #[verifier::external_body]
    fn visit_trait_item(&mut self, i: &'ast syn::TraitItem) {
        if let syn::TraitItem::Verbatim(t) = i {
            self.raw_nodes.push(RawNode { kind: RawNodeKind::TraitItem, empty: t.is_empty() });
        }
        syn::visit::visit_trait_item(self, i);
    }

    #[verifier::external_body]
    fn visit_impl_item(&mut self, i: &'ast syn::ImplItem) {
        if let syn::ImplItem::Verbatim(t) = i {
            self.raw_nodes.push(RawNode { kind: RawNodeKind::ImplItem, empty: t.is_empty() });
        }
        syn::visit::visit_impl_item(self, i);
    }

    #[verifier::external_body]
    fn visit_item_macro(&mut self, i: &'ast syn::ItemMacro) {
        let body = i.mac.tokens.clone().into_iter().map(|t| match t {
            TokenTree::Group(_) => RuleToken::Group,
            TokenTree::Punct(p) => RuleToken::Punct(p.as_char(), p.spacing() == Spacing::Joint),
            _ => RuleToken::Word,
        }).collect();
        let path_ident = i.mac.path.get_ident().map(|id| id.to_string());
        self.macro_items.push(MacroItem { path_ident, named: i.ident.is_some(), body });
        syn::visit::visit_item_macro(self, i);
    }
}

/// Trusted: walks item `i` with `syn::visit::Visit::visit_item` and the walk
/// above. Claimed: the facts are a function of the parsed text and the item.
#[verifier::external_body]
pub(crate) fn item_print_facts(f: &SourceFile, i: usize) -> (r: PrintFacts)
    requires
        i < item_count_of(f@),
    ensures
        r@ == item_print_facts_of(f@, i as int),
{
    let mut facts = PrintFacts { raw_nodes: Vec::new(), macro_items: Vec::new() };
    facts.visit_item(&f.syntax.items[i]);
    facts
}

/// Trusted: walks the whole file with `syn::visit::Visit::visit_file` and the
/// walk above.
#[verifier::external_body]
pub(crate) fn file_print_facts(f: &SourceFile) -> (r: PrintFacts)
    ensures
        r@ == file_print_facts_of(f@),
{
    let mut facts = PrintFacts { raw_nodes: Vec::new(), macro_items: Vec::new() };
    facts.visit_file(&f.syntax);
    facts
}

fn rule_step_exec(s: RuleState, t: RuleToken) -> (r: Option<RuleState>)
    ensures
        r == rule_step(s, t),
{
    match (s, t) {
        (RuleState::Start, RuleToken::Group) => Some(RuleState::Matcher),
        (RuleState::Matcher, RuleToken::Punct('=', true)) => Some(RuleState::Equal),
        (RuleState::Equal, RuleToken::Punct('>', false)) => Some(RuleState::Greater),
        (RuleState::Greater, RuleToken::Group) => Some(RuleState::Expander),
        (RuleState::Expander, RuleToken::Punct(';', false)) => Some(RuleState::Start),
        _ => None,
    }
}

/// Whether a macro body is a run of rules `(matcher) => {expander};`.
fn rules_fit(body: &Vec<RuleToken>) -> (r: bool)
    ensures
        r == (rules_run(body@) is Some),
{
    let mut state = RuleState::Start;
    let mut k: usize = 0;
    while k < body.len()
        invariant
            k <= body@.len(),
            rules_run(body@.take(k as int)) == Some(state),
        decreases body@.len() - k,
    {
        assert(body@.take(k + 1).drop_last() =~= body@.take(k as int));
        match rule_step_exec(state, body[k]) {
            Some(next) => {
                state = next;
            },
            None => {
                proof {
                    lemma_rules_run_stuck(body@, k + 1);
                }
                return false;
            },
        }
        k = k + 1;
    }
    assert(body@.take(body@.len() as int) =~= body@);
    true
}

/// Once a token does not fit, the run stays stuck.
proof fn lemma_rules_run_stuck(body: Seq<RuleToken>, k: int)
    requires
        0 <= k <= body.len(),
        rules_run(body.take(k)) is None,
    ensures
        rules_run(body) is None,
    decreases body.len() - k,
{
    if k < body.len() {
        assert(body.take(k + 1).drop_last() =~= body.take(k));
        lemma_rules_run_stuck(body, k + 1);
    } else {
        assert(body.take(k) =~= body);
    }
}

fn macro_item_fits(m: &MacroItem) -> (r: bool)
    ensures
        r == macro_item_prints(m@),
{
    let defines_rules = match &m.path_ident {
        Some(p) => {
            let wanted = String::from_str("macro_rules");
            proof {
                reveal_strlit("macro_rules");
            }
            *p == wanted
        },
        None => false,
    };
    if m.named && defines_rules {
        rules_fit(&m.body)
    } else {
        true
    }
}

/// Whether nothing that a walk found stops `prettyplease`.
pub(crate) fn check_facts(f: &PrintFacts) -> (r: bool)
    ensures
        r == facts_printable(f@),
{
    let mut k: usize = 0;
    while k < f.raw_nodes.len()
        invariant
            k <= f.raw_nodes@.len(),
            forall|j: int| 0 <= j < k ==> raw_node_prints(#[trigger] f.raw_nodes@[j]),
        decreases f.raw_nodes@.len() - k,
    {
        let n = f.raw_nodes[k];
        let prints = match n.kind {
            RawNodeKind::Type | RawNodeKind::Pat | RawNodeKind::Bound => false,
            _ => n.empty,
        };
        if !prints {
            assert(!raw_node_prints(f@.raw_nodes[k as int]));
            return false;
        }
        k = k + 1;
    }
    let mut m: usize = 0;
    while m < f.macro_items.len()
        invariant
            m <= f.macro_items@.len(),
            forall|j: int| 0 <= j < f.raw_nodes@.len() ==> raw_node_prints(#[trigger] f.raw_nodes@[j]),
            forall|j: int| 0 <= j < m ==> macro_item_prints(#[trigger] f@.macro_items[j]),
        decreases f.macro_items@.len() - m,
    {
        if !macro_item_fits(&f.macro_items[m]) {
            assert(f@.macro_items[m as int] == f.macro_items@[m as int]@);
            return false;
        }
        m = m + 1;
    }
    true
}

/// Whether `prettyplease` can print top-level item `i`.
pub(crate) fn check_item_printable(f: &SourceFile, i: usize) -> (r: bool)
    requires
        i < item_count_of(f@),
    ensures
        r == item_printable(f@, i as int),
{
    let facts = item_print_facts(f, i);
    check_facts(&facts)
}

/// Whether `prettyplease` can print the whole parsed file.
pub(crate) fn check_file_printable(f: &SourceFile) -> (r: bool)
    ensures
        r == file_printable(f@),
{
    let facts = file_print_facts(f);
    check_facts(&facts)
}

/// Trusted: `prettyplease::unparse` of a file that holds only item `i` (no
/// shebang, no inner attributes). In its source (built without its `verbatim`
/// feature) `prettyplease` stops with a panic at a `Verbatim` type, pattern or
/// bound, at a non-empty `Verbatim` expression or item of any kind, and at a
/// named `macro_rules!` item whose body is not a run of rules; its other
/// panics are on variants and shapes that `syn`'s parser does not produce.
/// `item_printable` rules those out through the facts of the walk.
#[verifier::external_body]
pub(crate) fn render_item(f: &SourceFile, i: usize) -> (r: String)
    requires
        i < item_count_of(f@),
        item_printable(f@, i as int),
    ensures
        r@ == rendered_item_of(f@, i as int),
{
    prettyplease::unparse(&syn::File { shebang: None, attrs: vec![], items: vec![f.syntax.items[i].clone()] })
}

/// Trusted: `prettyplease::unparse` of the whole file, with the condition
/// stated at `render_item`.
#[verifier::external_body]
pub(crate) fn render_file(f: &SourceFile) -> (r: String)
    requires
        file_printable(f@),
    ensures
        r@ == rendered_file_of(f@),
{
    prettyplease::unparse(&f.syntax)
}

/// Trusted: the pretty `Debug` text of item `i`. Claimed: it is that item's
/// `Debug` text; its span numbers depend on where the per-thread span map
/// placed the file, so it is not a function of the text alone.
#[verifier::external_body]
pub(crate) fn item_debug_text(f: &SourceFile, i: usize) -> (r: String)
    requires
        i < item_count_of(f@),
    ensures
        is_item_debug_text(f@, i as int, r@),
{
    format!("{:#?}", f.syntax.items[i])
}

/// Trusted: the pretty `Debug` text of the whole syntax tree, with the claim
/// made at `item_debug_text`.
#[verifier::external_body]
pub(crate) fn file_debug_text(f: &SourceFile) -> (r: String)
    ensures
        is_file_debug_text(f@, r@),
{
    format!("{:#?}", f.syntax)
}

} // verus!
