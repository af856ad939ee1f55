//! The statement-level model of one ECMAScript module.
//!
//! A module is an ordered sequence of top-level statements.  Statements
//! carry exactly what the two passes read: the import/export structure,
//! the names a statement binds at module top level, and — for opaque
//! parts such as function bodies and initializer expressions — the
//! source text together with the referenced names that the semantic
//! analysis resolved to module-top-level bindings.
//!
//! Every model type has a mathematical view (`…V`) in which strings are
//! `Seq<char>` and vectors are `Seq`; all contracts are stated over
//! these views.

use vstd::prelude::*;

verus! {

/// An opaque expression or body: its source text, and the identifier
/// names referenced inside it that resolve to bindings of the module's
/// top-level scope.  References that resolve to an inner scope or to
/// nothing at all are not listed.
#[derive(Debug, PartialEq, Eq)]
pub struct Expr {
    pub code: String,
    pub refs: Vec<String>,
}

/// View of [`Expr`].
#[verifier::ext_equal]
pub struct ExprV {
    pub code: Seq<char>,
    pub refs: Seq<Seq<char>>,
}

impl View for Expr {
    type V = ExprV;

    open spec fn view(&self) -> ExprV {
        ExprV { code: self.code@, refs: self.refs.deep_view() }
    }
}

impl DeepView for Expr {
    type V = ExprV;

    open spec fn deep_view(&self) -> ExprV {
        self.view()
    }
}

/// One specifier of an import statement.
#[derive(Debug, PartialEq, Eq)]
pub enum ImportSpecifier {
    /// `import { imported as local }` (printed `import { imported }`
    /// when the two names coincide).
    Named { imported: String, local: String },
    /// `import local` — the default import shorthand.
    Default { local: String },
    /// `import * as local` — the whole namespace object as one binding.
    Namespace { local: String },
}

/// View of [`ImportSpecifier`].
#[verifier::ext_equal]
pub enum ImportSpecifierV {
    Named { imported: Seq<char>, local: Seq<char> },
    Default { local: Seq<char> },
    Namespace { local: Seq<char> },
}

impl View for ImportSpecifier {
    type V = ImportSpecifierV;

    open spec fn view(&self) -> ImportSpecifierV {
        match self {
            ImportSpecifier::Named { imported, local } => ImportSpecifierV::Named {
                imported: imported@,
                local: local@,
            },
            ImportSpecifier::Default { local } => ImportSpecifierV::Default { local: local@ },
            ImportSpecifier::Namespace { local } => ImportSpecifierV::Namespace { local: local@ },
        }
    }
}

impl DeepView for ImportSpecifier {
    type V = ImportSpecifierV;

    open spec fn deep_view(&self) -> ImportSpecifierV {
        self.view()
    }
}

/// One specifier of an `export { local as exported }` statement
/// (printed `export { local }` when the two names coincide).
#[derive(Debug, PartialEq, Eq)]
pub struct ExportSpecifier {
    pub local: String,
    pub exported: String,
}

/// View of [`ExportSpecifier`].
#[verifier::ext_equal]
pub struct ExportSpecifierV {
    pub local: Seq<char>,
    pub exported: Seq<char>,
}

impl View for ExportSpecifier {
    type V = ExportSpecifierV;

    open spec fn view(&self) -> ExportSpecifierV {
        ExportSpecifierV { local: self.local@, exported: self.exported@ }
    }
}

impl DeepView for ExportSpecifier {
    type V = ExportSpecifierV;

    open spec fn deep_view(&self) -> ExportSpecifierV {
        self.view()
    }
}

/// The keyword of a variable declaration.
#[derive(Debug, Clone, Copy, PartialEq, Eq, Structural)]
pub enum VarKind {
    Var,
    Let,
    Const,
}

impl View for VarKind {
    type V = VarKind;

    open spec fn view(&self) -> VarKind {
        *self
    }
}

impl DeepView for VarKind {
    type V = VarKind;

    open spec fn deep_view(&self) -> VarKind {
        *self
    }
}

/// One property of an object destructuring pattern, `key: binding`.
/// `binding` is `None` when the property's value is not a plain
/// identifier (a nested pattern, a default value, …); exporting such a
/// declaration is unsupported and fails fast.
#[derive(Debug, PartialEq, Eq)]
pub struct PatternProp {
    pub key: String,
    pub binding: Option<String>,
}

/// View of [`PatternProp`].
#[verifier::ext_equal]
pub struct PatternPropV {
    pub key: Seq<char>,
    pub binding: Option<Seq<char>>,
}

impl View for PatternProp {
    type V = PatternPropV;

    open spec fn view(&self) -> PatternPropV {
        PatternPropV { key: self.key@, binding: self.binding.deep_view() }
    }
}

impl DeepView for PatternProp {
    type V = PatternPropV;

    open spec fn deep_view(&self) -> PatternPropV {
        self.view()
    }
}

/// The binding pattern of one variable declarator.
#[derive(Debug, PartialEq, Eq)]
pub enum Pattern {
    /// A single identifier, `const name = …`.
    Ident { name: String },
    /// An object destructuring pattern, `const { a: x, b: y } = …`,
    /// in source property order.
    Object { props: Vec<PatternProp> },
    /// Any other pattern shape (array, nested, rest, …), kept only as
    /// source text; its bindings are not separately addressable, and
    /// exporting such a declaration is unsupported and fails fast.
    Other { code: String },
}

/// View of [`Pattern`].
#[verifier::ext_equal]
pub enum PatternV {
    Ident { name: Seq<char> },
    Object { props: Seq<PatternPropV> },
    Other { code: Seq<char> },
}

impl View for Pattern {
    type V = PatternV;

    open spec fn view(&self) -> PatternV {
        match self {
            Pattern::Ident { name } => PatternV::Ident { name: name@ },
            Pattern::Object { props } => PatternV::Object { props: props.deep_view() },
            Pattern::Other { code } => PatternV::Other { code: code@ },
        }
    }
}

impl DeepView for Pattern {
    type V = PatternV;

    open spec fn deep_view(&self) -> PatternV {
        self.view()
    }
}

/// One declarator of a variable declaration: a pattern and an optional
/// initializer expression.
#[derive(Debug, PartialEq, Eq)]
pub struct Declarator {
    pub pattern: Pattern,
    pub init: Option<Expr>,
}

/// View of [`Declarator`].
#[verifier::ext_equal]
pub struct DeclaratorV {
    pub pattern: PatternV,
    pub init: Option<ExprV>,
}

impl View for Declarator {
    type V = DeclaratorV;

    open spec fn view(&self) -> DeclaratorV {
        DeclaratorV { pattern: self.pattern@, init: self.init.deep_view() }
    }
}

impl DeepView for Declarator {
    type V = DeclaratorV;

    open spec fn deep_view(&self) -> DeclaratorV {
        self.view()
    }
}

/// A top-level declaration.
#[derive(Debug, PartialEq, Eq)]
pub enum Decl {
    /// `function name(…) { … }`
    Func { name: String, body: Expr },
    /// `class name { … }`
    Class { name: String, body: Expr },
    /// `var/let/const declarator, …`
    Var { kind: VarKind, declarators: Vec<Declarator> },
}

/// View of [`Decl`].
#[verifier::ext_equal]
pub enum DeclV {
    Func { name: Seq<char>, body: ExprV },
    Class { name: Seq<char>, body: ExprV },
    Var { kind: VarKind, declarators: Seq<DeclaratorV> },
}

impl View for Decl {
    type V = DeclV;

    open spec fn view(&self) -> DeclV {
        match self {
            Decl::Func { name, body } => DeclV::Func { name: name@, body: body@ },
            Decl::Class { name, body } => DeclV::Class { name: name@, body: body@ },
            Decl::Var { kind, declarators } => DeclV::Var {
                kind: *kind,
                declarators: declarators.deep_view(),
            },
        }
    }
}

impl DeepView for Decl {
    type V = DeclV;

    open spec fn deep_view(&self) -> DeclV {
        self.view()
    }
}

/// What follows `export default`.
#[derive(Debug, PartialEq, Eq)]
pub enum DefaultDecl {
    /// `export default function [name](…) { … }`
    Func { name: Option<String>, body: Expr },
    /// `export default class [name] { … }`
    Class { name: Option<String>, body: Expr },
    /// `export default { … }` — an object literal expression.
    ObjectLit { value: Expr },
    /// Any other default-exported expression (an arrow function, a
    /// call, …); unsupported, the canonicalizer fails fast on it.
    Other { value: Expr },
}

/// View of [`DefaultDecl`].
#[verifier::ext_equal]
pub enum DefaultDeclV {
    Func { name: Option<Seq<char>>, body: ExprV },
    Class { name: Option<Seq<char>>, body: ExprV },
    ObjectLit { value: ExprV },
    Other { value: ExprV },
}

impl View for DefaultDecl {
    type V = DefaultDeclV;

    open spec fn view(&self) -> DefaultDeclV {
        match self {
            DefaultDecl::Func { name, body } => DefaultDeclV::Func {
                name: name.deep_view(),
                body: body@,
            },
            DefaultDecl::Class { name, body } => DefaultDeclV::Class {
                name: name.deep_view(),
                body: body@,
            },
            DefaultDecl::ObjectLit { value } => DefaultDeclV::ObjectLit { value: value@ },
            DefaultDecl::Other { value } => DefaultDeclV::Other { value: value@ },
        }
    }
}

impl DeepView for DefaultDecl {
    type V = DefaultDeclV;

    open spec fn deep_view(&self) -> DefaultDeclV {
        self.view()
    }
}

/// One top-level statement.
#[derive(Debug, PartialEq, Eq)]
pub enum Stmt {
    /// `import … from "source"`; an empty specifier list is a
    /// side-effect-only import, `import "source"`.
    Import { specifiers: Vec<ImportSpecifier>, source: String },
    /// `export default …`
    ExportDefault { decl: DefaultDecl },
    /// `export { … } [from "source"]`, or `export <decl>` when `decl`
    /// is present (the specifier list is then empty).
    ExportNamed { decl: Option<Decl>, specifiers: Vec<ExportSpecifier>, source: Option<String> },
    /// `export * from "source"`
    ExportAll { source: String },
    /// A plain top-level declaration.
    Decl { decl: Decl },
    /// Any other statement (an expression statement, control flow, …),
    /// kept as opaque text with its resolved references.
    Other { expr: Expr },
}

/// View of [`Stmt`].
#[verifier::ext_equal]
pub enum StmtV {
    Import { specifiers: Seq<ImportSpecifierV>, source: Seq<char> },
    ExportDefault { decl: DefaultDeclV },
    ExportNamed { decl: Option<DeclV>, specifiers: Seq<ExportSpecifierV>, source: Option<Seq<char>> },
    ExportAll { source: Seq<char> },
    Decl { decl: DeclV },
    Other { expr: ExprV },
}

impl View for Stmt {
    type V = StmtV;

    open spec fn view(&self) -> StmtV {
        match self {
            Stmt::Import { specifiers, source } => StmtV::Import {
                specifiers: specifiers.deep_view(),
                source: source@,
            },
            Stmt::ExportDefault { decl } => StmtV::ExportDefault { decl: decl@ },
            Stmt::ExportNamed { decl, specifiers, source } => StmtV::ExportNamed {
                decl: decl.deep_view(),
                specifiers: specifiers.deep_view(),
                source: source.deep_view(),
            },
            Stmt::ExportAll { source } => StmtV::ExportAll { source: source@ },
            Stmt::Decl { decl } => StmtV::Decl { decl: decl@ },
            Stmt::Other { expr } => StmtV::Other { expr: expr@ },
        }
    }
}

impl DeepView for Stmt {
    type V = StmtV;

    open spec fn deep_view(&self) -> StmtV {
        self.view()
    }
}

/// A module: an ordered sequence of top-level statements.
#[derive(Debug, PartialEq, Eq)]
pub struct Module {
    pub body: Vec<Stmt>,
}

/// View of [`Module`].
#[verifier::ext_equal]
pub struct ModuleV {
    pub body: Seq<StmtV>,
}

impl View for Module {
    type V = ModuleV;

    open spec fn view(&self) -> ModuleV {
        ModuleV { body: self.body.deep_view() }
    }
}

impl DeepView for Module {
    type V = ModuleV;

    open spec fn deep_view(&self) -> ModuleV {
        self.view()
    }
}

/// The statement or expression shapes the transformation does not
/// recognize; hitting one aborts the pipeline.
#[derive(Debug, Clone, Copy, PartialEq, Eq, Structural)]
pub enum UnsupportedConstruct {
    /// `export default <expr>` where the expression is neither a
    /// function, a class, nor an object literal.
    DefaultExportExpression,
    /// `export <var-decl>` whose pattern is neither a single identifier
    /// nor an object destructuring pattern.
    ExportedBindingPattern,
    /// `export <var-decl>` with an object pattern one of whose property
    /// values is not a plain identifier.
    ExportedPatternProperty,
}

/// A fatal transformation error: the file being transformed and the
/// unhandled construct found in it.
#[derive(Debug, PartialEq, Eq)]
pub struct TransformError {
    pub filename: String,
    pub construct: UnsupportedConstruct,
}

/// View of [`TransformError`].
#[verifier::ext_equal]
pub struct TransformErrorV {
    pub filename: Seq<char>,
    pub construct: UnsupportedConstruct,
}

impl View for TransformError {
    type V = TransformErrorV;

    open spec fn view(&self) -> TransformErrorV {
        TransformErrorV { filename: self.filename@, construct: self.construct }
    }
}

impl DeepView for TransformError {
    type V = TransformErrorV;

    open spec fn deep_view(&self) -> TransformErrorV {
        self.view()
    }
}

// ---------------------------------------------------------------------------
// Binding names, references, and export flags of a statement.
//
// These spec functions define the symbol information the passes rely on:
// which names a top-level statement binds, which top-level names it
// references, and which names it marks as exported.
// ---------------------------------------------------------------------------
/// The local name an import specifier binds.
pub open spec fn import_specifier_local(s: ImportSpecifierV) -> Seq<char> {
    match s {
        ImportSpecifierV::Named { local, .. } => local,
        ImportSpecifierV::Default { local } => local,
        ImportSpecifierV::Namespace { local } => local,
    }
}

/// The local names bound by the import specifiers from index `k` on.
pub open spec fn import_locals_from(specs: Seq<ImportSpecifierV>, k: int) -> Seq<Seq<char>>
    decreases specs.len() - k,
{
    if k < 0 || k >= specs.len() {
        Seq::<Seq<char>>::empty()
    } else {
        seq![import_specifier_local(specs[k])] + import_locals_from(specs, k + 1)
    }
}

/// The local names referenced by the export specifiers from index `k` on.
pub open spec fn export_locals_from(specs: Seq<ExportSpecifierV>, k: int) -> Seq<Seq<char>>
    decreases specs.len() - k,
{
    if k < 0 || k >= specs.len() {
        Seq::<Seq<char>>::empty()
    } else {
        seq![specs[k].local] + export_locals_from(specs, k + 1)
    }
}

/// The names bound by the object-pattern properties from index `k` on.
pub open spec fn prop_names_from(props: Seq<PatternPropV>, k: int) -> Seq<Seq<char>>
    decreases props.len() - k,
{
    if k < 0 || k >= props.len() {
        Seq::<Seq<char>>::empty()
    } else {
        (match props[k].binding {
            Some(b) => seq![b],
            None => Seq::<Seq<char>>::empty(),
        }) + prop_names_from(props, k + 1)
    }
}

/// The separately addressable names a binding pattern introduces.
pub open spec fn pattern_names(p: PatternV) -> Seq<Seq<char>> {
    match p {
        PatternV::Ident { name } => seq![name],
        PatternV::Object { props } => prop_names_from(props, 0),
        PatternV::Other { .. } => Seq::<Seq<char>>::empty(),
    }
}

/// The names bound by the declarators from index `k` on.
pub open spec fn declarator_names_from(ds: Seq<DeclaratorV>, k: int) -> Seq<Seq<char>>
    decreases ds.len() - k,
{
    if k < 0 || k >= ds.len() {
        Seq::<Seq<char>>::empty()
    } else {
        pattern_names(ds[k].pattern) + declarator_names_from(ds, k + 1)
    }
}

/// The top-level names a declaration binds.
pub open spec fn decl_names(d: DeclV) -> Seq<Seq<char>> {
    match d {
        DeclV::Func { name, .. } => seq![name],
        DeclV::Class { name, .. } => seq![name],
        DeclV::Var { declarators, .. } => declarator_names_from(declarators, 0),
    }
}

/// The top-level names a statement binds.
pub open spec fn stmt_decl_names(s: StmtV) -> Seq<Seq<char>> {
    match s {
        StmtV::Import { specifiers, .. } => import_locals_from(specifiers, 0),
        StmtV::Decl { decl } => decl_names(decl),
        StmtV::ExportNamed { decl: Some(d), .. } => decl_names(d),
        StmtV::ExportNamed { decl: None, .. } => Seq::<Seq<char>>::empty(),
        StmtV::ExportDefault { decl: DefaultDeclV::Func { name: Some(n), .. } } => seq![n],
        StmtV::ExportDefault { decl: DefaultDeclV::Class { name: Some(n), .. } } => seq![n],
        StmtV::ExportDefault { .. } => Seq::<Seq<char>>::empty(),
        StmtV::ExportAll { .. } => Seq::<Seq<char>>::empty(),
        StmtV::Other { .. } => Seq::<Seq<char>>::empty(),
    }
}

/// All top-level binding names of the statements from index `k` on.
pub open spec fn module_decl_names_from(body: Seq<StmtV>, k: int) -> Seq<Seq<char>>
    decreases body.len() - k,
{
    if k < 0 || k >= body.len() {
        Seq::<Seq<char>>::empty()
    } else {
        stmt_decl_names(body[k]) + module_decl_names_from(body, k + 1)
    }
}

/// All top-level binding names of a module, in statement order.
pub open spec fn module_decl_names(body: Seq<StmtV>) -> Seq<Seq<char>> {
    module_decl_names_from(body, 0)
}

/// The references of the initializers of the declarators from index `k` on.
pub open spec fn declarator_refs_from(ds: Seq<DeclaratorV>, k: int) -> Seq<Seq<char>>
    decreases ds.len() - k,
{
    if k < 0 || k >= ds.len() {
        Seq::<Seq<char>>::empty()
    } else {
        (match ds[k].init {
            Some(e) => e.refs,
            None => Seq::<Seq<char>>::empty(),
        }) + declarator_refs_from(ds, k + 1)
    }
}

/// The top-level names a declaration references.
pub open spec fn decl_refs(d: DeclV) -> Seq<Seq<char>> {
    match d {
        DeclV::Func { body, .. } => body.refs,
        DeclV::Class { body, .. } => body.refs,
        DeclV::Var { declarators, .. } => declarator_refs_from(declarators, 0),
    }
}

/// The top-level names a statement references.  The local names of a
/// plain `export { … }` statement are references to the bindings it
/// exports; the names of a re-export (`export { … } from "…"`) refer
/// to the foreign module and resolve to no local binding.
pub open spec fn stmt_refs(s: StmtV) -> Seq<Seq<char>> {
    match s {
        StmtV::Import { .. } => Seq::<Seq<char>>::empty(),
        StmtV::Decl { decl } => decl_refs(decl),
        StmtV::ExportNamed { decl: Some(d), .. } => decl_refs(d),
        StmtV::ExportNamed { decl: None, specifiers, source: None } => export_locals_from(
            specifiers,
            0,
        ),
        StmtV::ExportNamed { decl: None, source: Some(_), .. } => Seq::<Seq<char>>::empty(),
        StmtV::ExportDefault { decl: DefaultDeclV::Func { body, .. } } => body.refs,
        StmtV::ExportDefault { decl: DefaultDeclV::Class { body, .. } } => body.refs,
        StmtV::ExportDefault { decl: DefaultDeclV::ObjectLit { value } } => value.refs,
        StmtV::ExportDefault { decl: DefaultDeclV::Other { value } } => value.refs,
        StmtV::ExportAll { .. } => Seq::<Seq<char>>::empty(),
        StmtV::Other { expr } => expr.refs,
    }
}

/// The names a statement marks as exported: the local names of a plain
/// `export { … }` statement, the names bound by an inline
/// `export <decl>`, and the name of a named `export default` function
/// or class.  A re-export names nothing local.
pub open spec fn stmt_exported_names(s: StmtV) -> Seq<Seq<char>> {
    match s {
        StmtV::ExportNamed { decl: Some(d), .. } => decl_names(d),
        StmtV::ExportNamed { decl: None, specifiers, source: None } => export_locals_from(
            specifiers,
            0,
        ),
        StmtV::ExportNamed { decl: None, source: Some(_), .. } => Seq::<Seq<char>>::empty(),
        StmtV::ExportDefault { decl: DefaultDeclV::Func { name: Some(n), .. } } => seq![n],
        StmtV::ExportDefault { decl: DefaultDeclV::Class { name: Some(n), .. } } => seq![n],
        _ => Seq::<Seq<char>>::empty(),
    }
}

/// Whether `name` carries the export flag: some statement marks it as
/// exported.
pub open spec fn is_exported(body: Seq<StmtV>, name: Seq<char>) -> bool {
    exists|i: int| 0 <= i < body.len() && stmt_exported_names(#[trigger] body[i]).contains(name)
}

/// The index of the first statement that binds `name`, if any: the
/// statement a reference to `name` resolves to.
pub open spec fn first_decl_index_from(body: Seq<StmtV>, name: Seq<char>, k: int) -> Option<int>
    decreases body.len() - k,
{
    if k < 0 || k >= body.len() {
        None
    } else if stmt_decl_names(body[k]).contains(name) {
        Some(k)
    } else {
        first_decl_index_from(body, name, k + 1)
    }
}

/// The declaring statement of `name`: the first statement that binds it.
pub open spec fn first_decl_index(body: Seq<StmtV>, name: Seq<char>) -> Option<int> {
    first_decl_index_from(body, name, 0)
}

/// A declaring index is in range and its statement binds the name.
pub proof fn lemma_first_decl_index_in_range(body: Seq<StmtV>, name: Seq<char>, k: int)
    ensures
        first_decl_index_from(body, name, k) matches Some(j) ==> k <= j < body.len()
            && stmt_decl_names(body[j]).contains(name),
    decreases body.len() - k,
{
    if 0 <= k < body.len() {
        if !stmt_decl_names(body[k]).contains(name) {
            lemma_first_decl_index_in_range(body, name, k + 1);
        }
    }
}

// ---------------------------------------------------------------------------
// Deep copies.
//
// The passes assemble their output from copies of the input statements;
// each copy is proved to have the same view as its original.
// ---------------------------------------------------------------------------
/// Copies a vector of names.
pub fn clone_strings(v: &Vec<String>) -> (r: Vec<String>)
    ensures
        r.deep_view() == v.deep_view(),
{
    let mut r: Vec<String> = Vec::new();
    let n = v.len();
    let mut i: usize = 0;
    while i < n
        invariant
            n == v@.len(),
            i <= n,
            r@.len() == i,
            forall|j: int| 0 <= j < i ==> r@[j] == v@[j],
        decreases n - i,
    {
        r.push(v[i].clone());
        i = i + 1;
    }
    proof {
        assert(r@ =~= v@);
        assert(r.deep_view() =~= v.deep_view());
    }
    r
}

/// Copies an optional name.
pub fn clone_opt_string(v: &Option<String>) -> (r: Option<String>)
    ensures
        r.deep_view() == v.deep_view(),
{
    match v {
        Some(s) => Some(s.clone()),
        None => None,
    }
}

/// Copies an opaque expression.
pub fn clone_expr(e: &Expr) -> (r: Expr)
    ensures
        r@ == e@,
{
    Expr { code: e.code.clone(), refs: clone_strings(&e.refs) }
}

/// Copies an import specifier.
pub fn clone_import_specifier(s: &ImportSpecifier) -> (r: ImportSpecifier)
    ensures
        r@ == s@,
{
    match s {
        ImportSpecifier::Named { imported, local } => ImportSpecifier::Named {
            imported: imported.clone(),
            local: local.clone(),
        },
        ImportSpecifier::Default { local } => ImportSpecifier::Default { local: local.clone() },
        ImportSpecifier::Namespace { local } => ImportSpecifier::Namespace {
            local: local.clone(),
        },
    }
}

/// Copies an export specifier.
pub fn clone_export_specifier(s: &ExportSpecifier) -> (r: ExportSpecifier)
    ensures
        r@ == s@,
{
    ExportSpecifier { local: s.local.clone(), exported: s.exported.clone() }
}

/// Copies an object-pattern property.
pub fn clone_pattern_prop(p: &PatternProp) -> (r: PatternProp)
    ensures
        r@ == p@,
{
    PatternProp { key: p.key.clone(), binding: clone_opt_string(&p.binding) }
}

/// Copies a binding pattern.
pub fn clone_pattern(p: &Pattern) -> (r: Pattern)
    ensures
        r@ == p@,
{
    match p {
        Pattern::Ident { name } => Pattern::Ident { name: name.clone() },
        Pattern::Object { props } => {
            let mut ps: Vec<PatternProp> = Vec::new();
            let n = props.len();
            let mut i: usize = 0;
            while i < n
                invariant
                    n == props@.len(),
                    i <= n,
                    ps@.len() == i,
                    forall|j: int| 0 <= j < i ==> ps.deep_view()[j] == props.deep_view()[j],
                decreases n - i,
            {
                ps.push(clone_pattern_prop(&props[i]));
                i = i + 1;
            }
            proof {
                assert(ps.deep_view() =~= props.deep_view());
            }
            Pattern::Object { props: ps }
        },
        Pattern::Other { code } => Pattern::Other { code: code.clone() },
    }
}

/// Copies a variable declarator.
pub fn clone_declarator(d: &Declarator) -> (r: Declarator)
    ensures
        r@ == d@,
{
    let init = match &d.init {
        Some(e) => Some(clone_expr(e)),
        None => None,
    };
    Declarator { pattern: clone_pattern(&d.pattern), init }
}

/// Copies a declaration.
pub fn clone_decl(d: &Decl) -> (r: Decl)
    ensures
        r@ == d@,
{
    match d {
        Decl::Func { name, body } => Decl::Func { name: name.clone(), body: clone_expr(body) },
        Decl::Class { name, body } => Decl::Class { name: name.clone(), body: clone_expr(body) },
        Decl::Var { kind, declarators } => {
            let mut ds: Vec<Declarator> = Vec::new();
            let n = declarators.len();
            let mut i: usize = 0;
            while i < n
                invariant
                    n == declarators@.len(),
                    i <= n,
                    ds@.len() == i,
                    forall|j: int|
                        0 <= j < i ==> ds.deep_view()[j] == declarators.deep_view()[j],
                decreases n - i,
            {
                ds.push(clone_declarator(&declarators[i]));
                i = i + 1;
            }
            proof {
                assert(ds.deep_view() =~= declarators.deep_view());
            }
            Decl::Var { kind: *kind, declarators: ds }
        },
    }
}

/// Copies what follows `export default`.
pub fn clone_default_decl(d: &DefaultDecl) -> (r: DefaultDecl)
    ensures
        r@ == d@,
{
    match d {
        DefaultDecl::Func { name, body } => DefaultDecl::Func {
            name: clone_opt_string(name),
            body: clone_expr(body),
        },
        DefaultDecl::Class { name, body } => DefaultDecl::Class {
            name: clone_opt_string(name),
            body: clone_expr(body),
        },
        DefaultDecl::ObjectLit { value } => DefaultDecl::ObjectLit { value: clone_expr(value) },
        DefaultDecl::Other { value } => DefaultDecl::Other { value: clone_expr(value) },
    }
}

/// Copies a statement.
pub fn clone_stmt(s: &Stmt) -> (r: Stmt)
    ensures
        r@ == s@,
{
    match s {
        Stmt::Import { specifiers, source } => {
            let mut sp: Vec<ImportSpecifier> = Vec::new();
            let n = specifiers.len();
            let mut i: usize = 0;
            while i < n
                invariant
                    n == specifiers@.len(),
                    i <= n,
                    sp@.len() == i,
                    forall|j: int|
                        0 <= j < i ==> sp.deep_view()[j] == specifiers.deep_view()[j],
                decreases n - i,
            {
                sp.push(clone_import_specifier(&specifiers[i]));
                i = i + 1;
            }
            proof {
                assert(sp.deep_view() =~= specifiers.deep_view());
            }
            Stmt::Import { specifiers: sp, source: source.clone() }
        },
        Stmt::ExportDefault { decl } => Stmt::ExportDefault { decl: clone_default_decl(decl) },
        Stmt::ExportNamed { decl, specifiers, source } => {
            let d = match decl {
                Some(d) => Some(clone_decl(d)),
                None => None,
            };
            let mut sp: Vec<ExportSpecifier> = Vec::new();
            let n = specifiers.len();
            let mut i: usize = 0;
            while i < n
                invariant
                    n == specifiers@.len(),
                    i <= n,
                    sp@.len() == i,
                    forall|j: int|
                        0 <= j < i ==> sp.deep_view()[j] == specifiers.deep_view()[j],
                decreases n - i,
            {
                sp.push(clone_export_specifier(&specifiers[i]));
                i = i + 1;
            }
            proof {
                assert(sp.deep_view() =~= specifiers.deep_view());
            }
            Stmt::ExportNamed { decl: d, specifiers: sp, source: clone_opt_string(source) }
        },
        Stmt::ExportAll { source } => Stmt::ExportAll { source: source.clone() },
        Stmt::Decl { decl } => Stmt::Decl { decl: clone_decl(decl) },
        Stmt::Other { expr } => Stmt::Other { expr: clone_expr(expr) },
    }
}

/// Copies a module.
pub fn clone_module(m: &Module) -> (r: Module)
    ensures
        r@ == m@,
{
    let mut body: Vec<Stmt> = Vec::new();
    let n = m.body.len();
    let mut i: usize = 0;
    while i < n
        invariant
            n == m.body@.len(),
            i <= n,
            body@.len() == i,
            forall|j: int| 0 <= j < i ==> body@[j]@ == m.body@[j]@,
        decreases n - i,
    {
        let s2 = clone_stmt(&m.body[i]);
        body.push(s2);
        i = i + 1;
    }
    proof {
        assert forall|j: int| 0 <= j < body@.len() implies body.deep_view()[j]
            == m.body.deep_view()[j] by {
            assert(body@[j]@ == m.body@[j]@);
        }
        assert(body.deep_view() =~= m.body.deep_view());
    }
    Module { body }
}

// ---------------------------------------------------------------------------
// Executable symbol information.
//
// The passes query binding names, references and export flags of the
// statements they walk; these functions compute them, each proved equal
// to its spec-level counterpart.
// ---------------------------------------------------------------------------
/// Whether `names` contains `name`.
pub fn contains_name(names: &Vec<String>, name: &String) -> (r: bool)
    ensures
        r == names.deep_view().contains(name@),
{
    let n = names.len();
    let mut i: usize = 0;
    while i < n
        invariant
            n == names@.len(),
            i <= n,
            forall|j: int| 0 <= j < i ==> names.deep_view()[j] != name@,
        decreases n - i,
    {
        if names[i] == *name {
            proof {
                assert(names.deep_view()[i as int] == name@);
            }
            return true;
        }
        i = i + 1;
    }
    proof {
        assert(forall|j: int|
            0 <= j < names.deep_view().len() ==> names.deep_view()[j] != name@);
    }
    false
}

/// Appends the names a binding pattern introduces.
pub fn collect_pattern_names(p: &Pattern, out: &mut Vec<String>)
    ensures
        final(out).deep_view() == old(out).deep_view() + pattern_names(p@),
{
    match p {
        Pattern::Ident { name } => {
            let ghost pre = out.deep_view();
            out.push(name.clone());
            proof {
                assert(out.deep_view() =~= pre + pattern_names(p@));
            }
        },
        Pattern::Object { props } => {
            let n = props.len();
            let mut i: usize = 0;
            while i < n
                invariant
                    n == props@.len(),
                    i <= n,
                    out.deep_view() + prop_names_from(props.deep_view(), i as int) == old(out).deep_view() + prop_names_from(props.deep_view(), 0),
                decreases n - i,
            {
                let ghost pv = props.deep_view();
                match &props[i].binding {
                    Some(b) => {
                        let ghost pre = out.deep_view();
                        out.push(b.clone());
                        proof {
                            assert(pv[i as int] == props@[i as int]@);
                            assert(out.deep_view() =~= pre.push(b@));
                            assert(pre.push(b@) + prop_names_from(pv, i + 1) =~= pre + (seq![b@]
                                + prop_names_from(pv, i + 1)));
                        }
                    },
                    None => {
                        proof {
                            assert(pv[i as int] == props@[i as int]@);
                            assert(out.deep_view() + (Seq::<Seq<char>>::empty()
                                + prop_names_from(pv, i + 1)) =~= out.deep_view()
                                + prop_names_from(pv, i + 1));
                        }
                    },
                }
                i = i + 1;
            }
            proof {
                assert(out.deep_view() + prop_names_from(props.deep_view(), n as int)
                    =~= out.deep_view());
            }
        },
        Pattern::Other { .. } => {
            proof {
                assert(out.deep_view() + pattern_names(p@) =~= out.deep_view());
            }
        },
    }
}

/// Appends the names bound by a list of declarators.
pub fn collect_declarator_names(ds: &Vec<Declarator>, out: &mut Vec<String>)
    ensures
        final(out).deep_view() == old(out).deep_view() + declarator_names_from(ds.deep_view(), 0),
{
    let n = ds.len();
    let mut i: usize = 0;
    while i < n
        invariant
            n == ds@.len(),
            i <= n,
            out.deep_view() + declarator_names_from(ds.deep_view(), i as int) == old(out).deep_view() + declarator_names_from(ds.deep_view(), 0),
        decreases n - i,
    {
        let ghost dv = ds.deep_view();
        let ghost pre = out.deep_view();
        collect_pattern_names(&ds[i].pattern, out);
        proof {
            assert(dv[i as int] == ds@[i as int]@);
            assert((pre + pattern_names(dv[i as int].pattern)) + declarator_names_from(dv, i + 1)
                =~= pre + (pattern_names(dv[i as int].pattern) + declarator_names_from(
                dv,
                i + 1,
            )));
        }
        i = i + 1;
    }
    proof {
        assert(out.deep_view() + declarator_names_from(ds.deep_view(), n as int)
            =~= out.deep_view());
    }
}

/// Appends the top-level names a declaration binds.
pub fn collect_decl_names(d: &Decl, out: &mut Vec<String>)
    ensures
        final(out).deep_view() == old(out).deep_view() + decl_names(d@),
{
    match d {
        Decl::Func { name, .. } => {
            let ghost pre = out.deep_view();
            out.push(name.clone());
            proof {
                assert(out.deep_view() =~= pre + decl_names(d@));
            }
        },
        Decl::Class { name, .. } => {
            let ghost pre = out.deep_view();
            out.push(name.clone());
            proof {
                assert(out.deep_view() =~= pre + decl_names(d@));
            }
        },
        Decl::Var { declarators, .. } => {
            collect_declarator_names(declarators, out);
        },
    }
}

/// Appends the top-level names a statement binds.
pub fn collect_stmt_decl_names(s: &Stmt, out: &mut Vec<String>)
    ensures
        final(out).deep_view() == old(out).deep_view() + stmt_decl_names(s@),
{
    match s {
        Stmt::Import { specifiers, .. } => {
            let n = specifiers.len();
            let mut i: usize = 0;
            while i < n
                invariant
                    n == specifiers@.len(),
                    i <= n,
                    out.deep_view() + import_locals_from(specifiers.deep_view(), i as int)
                        == old(out).deep_view() + import_locals_from(
                        specifiers.deep_view(),
                        0,
                    ),
                decreases n - i,
            {
                let ghost sv = specifiers.deep_view();
                let ghost pre = out.deep_view();
                let local = match &specifiers[i] {
                    ImportSpecifier::Named { local, .. } => local.clone(),
                    ImportSpecifier::Default { local } => local.clone(),
                    ImportSpecifier::Namespace { local } => local.clone(),
                };
                out.push(local);
                proof {
                    assert(sv[i as int] == specifiers@[i as int]@);
                    assert(out.deep_view() =~= pre.push(import_specifier_local(sv[i as int])));
                    assert(pre.push(import_specifier_local(sv[i as int])) + import_locals_from(
                        sv,
                        i + 1,
                    ) =~= pre + (seq![import_specifier_local(sv[i as int])] + import_locals_from(
                        sv,
                        i + 1,
                    )));
                }
                i = i + 1;
            }
            proof {
                assert(out.deep_view() + import_locals_from(specifiers.deep_view(), n as int)
                    =~= out.deep_view());
            }
        },
        Stmt::Decl { decl } => {
            collect_decl_names(decl, out);
        },
        Stmt::ExportNamed { decl: Some(d), .. } => {
            collect_decl_names(d, out);
        },
        Stmt::ExportDefault { decl: DefaultDecl::Func { name: Some(n), .. } } => {
            let ghost pre = out.deep_view();
            out.push(n.clone());
            proof {
                assert(out.deep_view() =~= pre + stmt_decl_names(s@));
            }
        },
        Stmt::ExportDefault { decl: DefaultDecl::Class { name: Some(n), .. } } => {
            let ghost pre = out.deep_view();
            out.push(n.clone());
            proof {
                assert(out.deep_view() =~= pre + stmt_decl_names(s@));
            }
        },
        _ => {
            proof {
                assert(out.deep_view() + stmt_decl_names(s@) =~= out.deep_view());
            }
        },
    }
}

/// All top-level binding names of a module, in statement order: the
/// name set the canonicalizer's fresh names must avoid.
pub fn collect_module_decl_names(body: &Vec<Stmt>) -> (r: Vec<String>)
    ensures
        r.deep_view() == module_decl_names(body.deep_view()),
{
    let mut out: Vec<String> = Vec::new();
    let n = body.len();
    let mut i: usize = 0;
    while i < n
        invariant
            n == body@.len(),
            i <= n,
            out.deep_view() + module_decl_names_from(body.deep_view(), i as int)
                == module_decl_names_from(body.deep_view(), 0),
        decreases n - i,
    {
        let ghost bv = body.deep_view();
        let ghost pre = out.deep_view();
        collect_stmt_decl_names(&body[i], &mut out);
        proof {
            assert(bv[i as int] == body@[i as int]@);
            assert((pre + stmt_decl_names(bv[i as int])) + module_decl_names_from(bv, i + 1)
                =~= pre + (stmt_decl_names(bv[i as int]) + module_decl_names_from(bv, i + 1)));
        }
        i = i + 1;
    }
    proof {
        assert(out.deep_view() + module_decl_names_from(body.deep_view(), n as int)
            =~= out.deep_view());
    }
    out
}

/// Appends the references of an opaque expression.
pub fn collect_expr_refs(e: &Expr, out: &mut Vec<String>)
    ensures
        final(out).deep_view() == old(out).deep_view() + e@.refs,
{
    let n = e.refs.len();
    let mut i: usize = 0;
    while i < n
        invariant
            n == e.refs@.len(),
            i <= n,
            out.deep_view() == old(out).deep_view() + e.refs.deep_view().take(i as int),
        decreases n - i,
    {
        let ghost pre = out.deep_view();
        out.push(e.refs[i].clone());
        proof {
            assert(out.deep_view() =~= pre.push(e.refs.deep_view()[i as int]));
            assert(pre.push(e.refs.deep_view()[i as int]) =~= old(out).deep_view()
                + e.refs.deep_view().take(i + 1));
        }
        i = i + 1;
    }
    proof {
        assert(e.refs.deep_view().take(n as int) =~= e.refs.deep_view());
    }
}

/// Appends the references of the initializers of a list of declarators.
pub fn collect_declarator_refs(ds: &Vec<Declarator>, out: &mut Vec<String>)
    ensures
        final(out).deep_view() == old(out).deep_view() + declarator_refs_from(ds.deep_view(), 0),
{
    let n = ds.len();
    let mut i: usize = 0;
    while i < n
        invariant
            n == ds@.len(),
            i <= n,
            out.deep_view() + declarator_refs_from(ds.deep_view(), i as int) == old(out).deep_view() + declarator_refs_from(ds.deep_view(), 0),
        decreases n - i,
    {
        let ghost dv = ds.deep_view();
        let ghost pre = out.deep_view();
        match &ds[i].init {
            Some(e) => {
                collect_expr_refs(e, out);
                proof {
                    assert(dv[i as int] == ds@[i as int]@);
                    assert((pre + e@.refs) + declarator_refs_from(dv, i + 1) =~= pre + (e@.refs
                        + declarator_refs_from(dv, i + 1)));
                }
            },
            None => {
                proof {
                    assert(dv[i as int] == ds@[i as int]@);
                    assert(pre + (Seq::<Seq<char>>::empty() + declarator_refs_from(dv, i + 1))
                        =~= pre + declarator_refs_from(dv, i + 1));
                }
            },
        }
        i = i + 1;
    }
    proof {
        assert(out.deep_view() + declarator_refs_from(ds.deep_view(), n as int)
            =~= out.deep_view());
    }
}

/// Appends the local names of a list of export specifiers.
pub fn collect_export_locals(specs: &Vec<ExportSpecifier>, out: &mut Vec<String>)
    ensures
        final(out).deep_view() == old(out).deep_view() + export_locals_from(specs.deep_view(), 0),
{
    let n = specs.len();
    let mut i: usize = 0;
    while i < n
        invariant
            n == specs@.len(),
            i <= n,
            out.deep_view() + export_locals_from(specs.deep_view(), i as int) == old(out).deep_view() + export_locals_from(specs.deep_view(), 0),
        decreases n - i,
    {
        let ghost sv = specs.deep_view();
        let ghost pre = out.deep_view();
        out.push(specs[i].local.clone());
        proof {
            assert(sv[i as int] == specs@[i as int]@);
            assert(out.deep_view() =~= pre.push(sv[i as int].local));
            assert(pre.push(sv[i as int].local) + export_locals_from(sv, i + 1) =~= pre + (seq![
                sv[i as int].local,
            ] + export_locals_from(sv, i + 1)));
        }
        i = i + 1;
    }
    proof {
        assert(out.deep_view() + export_locals_from(specs.deep_view(), n as int)
            =~= out.deep_view());
    }
}

/// The top-level names a statement references.
pub fn collect_stmt_refs(s: &Stmt) -> (r: Vec<String>)
    ensures
        r.deep_view() == stmt_refs(s@),
{
    let mut out: Vec<String> = Vec::new();
    match s {
        Stmt::Import { .. } => {},
        Stmt::Decl { decl } => match decl {
            Decl::Func { body, .. } => collect_expr_refs(body, &mut out),
            Decl::Class { body, .. } => collect_expr_refs(body, &mut out),
            Decl::Var { declarators, .. } => collect_declarator_refs(declarators, &mut out),
        },
        Stmt::ExportNamed { decl: Some(d), .. } => match d {
            Decl::Func { body, .. } => collect_expr_refs(body, &mut out),
            Decl::Class { body, .. } => collect_expr_refs(body, &mut out),
            Decl::Var { declarators, .. } => collect_declarator_refs(declarators, &mut out),
        },
        Stmt::ExportNamed { decl: None, specifiers, source: None } => collect_export_locals(
            specifiers,
            &mut out,
        ),
        Stmt::ExportNamed { decl: None, source: Some(_), .. } => {},
        Stmt::ExportDefault { decl } => match decl {
            DefaultDecl::Func { body, .. } => collect_expr_refs(body, &mut out),
            DefaultDecl::Class { body, .. } => collect_expr_refs(body, &mut out),
            DefaultDecl::ObjectLit { value } => collect_expr_refs(value, &mut out),
            DefaultDecl::Other { value } => collect_expr_refs(value, &mut out),
        },
        Stmt::ExportAll { .. } => {},
        Stmt::Other { expr } => collect_expr_refs(expr, &mut out),
    }
    proof {
        assert(Seq::<Seq<char>>::empty() + stmt_refs(s@) =~= stmt_refs(s@));
    }
    out
}

/// The names a statement marks as exported.
pub fn collect_stmt_exported_names(s: &Stmt) -> (r: Vec<String>)
    ensures
        r.deep_view() == stmt_exported_names(s@),
{
    let mut out: Vec<String> = Vec::new();
    match s {
        Stmt::ExportNamed { decl: Some(d), .. } => collect_decl_names(d, &mut out),
        Stmt::ExportNamed { decl: None, specifiers, source: None } => collect_export_locals(
            specifiers,
            &mut out,
        ),
        Stmt::ExportDefault { decl: DefaultDecl::Func { name: Some(n), .. } } => out.push(
            n.clone(),
        ),
        Stmt::ExportDefault { decl: DefaultDecl::Class { name: Some(n), .. } } => out.push(
            n.clone(),
        ),
        _ => {},
    }
    proof {
        assert(Seq::<Seq<char>>::empty() + stmt_exported_names(s@) =~= stmt_exported_names(s@));
        assert(out.deep_view() =~= stmt_exported_names(s@));
    }
    out
}

/// Pushing one statement extends the deep view by its view.
pub proof fn lemma_deep_push_stmt(a: Vec<Stmt>, b: Vec<Stmt>, x: Stmt)
    requires
        b@ == a@.push(x),
    ensures
        b.deep_view() == a.deep_view().push(x@),
{
    assert forall|q: int| 0 <= q < b.deep_view().len() implies b.deep_view()[q]
        == a.deep_view().push(x@)[q] by {
        assert(b.deep_view()[q] == b@[q]@);
        if q < a@.len() {
            assert(b@[q] == a@[q]);
            assert(a.deep_view()[q] == a@[q]@);
        }
    }
    assert(b.deep_view() =~= a.deep_view().push(x@));
}

/// Pushing one name extends the deep view by its view.
pub proof fn lemma_deep_push_name(a: Vec<String>, b: Vec<String>, x: String)
    requires
        b@ == a@.push(x),
    ensures
        b.deep_view() == a.deep_view().push(x@),
{
    assert forall|q: int| 0 <= q < b.deep_view().len() implies b.deep_view()[q]
        == a.deep_view().push(x@)[q] by {
        assert(b.deep_view()[q] == b@[q]@);
        if q < a@.len() {
            assert(b@[q] == a@[q]);
            assert(a.deep_view()[q] == a@[q]@);
        }
    }
    assert(b.deep_view() =~= a.deep_view().push(x@));
}

} // verus!
