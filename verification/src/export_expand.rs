//! The canonicalizer: one top-to-bottom rewrite of a module's statement
//! list into normal form.
//!
//! After the rewrite, every exported binding is its own top-level
//! `export { … }` statement separate from the binding's declaration,
//! and every import specifier is its own single-specifier import
//! statement (namespace imports excepted).  Statements the rewrite does
//! not recognize abort it with an error naming the file and the
//! construct; nothing is silently dropped except side-effect-only
//! imports, which carry no bindings.
//!
//! The rewrite of each statement is defined by [`expand_stmt_v`]; the
//! whole pass by [`canonicalize_spec`].  [`lemma_canonicalize_idempotent`]
//! shows that the pass is idempotent: its output is canonical, and on
//! canonical input it is the identity.

use vstd::prelude::*;

use crate::ast::{
    clone_decl, clone_expr, clone_export_specifier, clone_stmt, collect_module_decl_names,
    contains_name, lemma_deep_push_name, lemma_deep_push_stmt, module_decl_names, Decl, DeclV,
    Declarator, DeclaratorV, DefaultDecl, DefaultDeclV, ExportSpecifier, ExportSpecifierV,
    ImportSpecifier, ImportSpecifierV, Module, ModuleV, Pattern, PatternPropV, PatternV, Stmt,
    StmtV, TransformError, TransformErrorV, UnsupportedConstruct, VarKind,
};

verus! {

// ---------------------------------------------------------------------------
// Fresh names.
//
// A generated binding name must not collide with any existing top-level
// binding.  The allocator starts from `_export` and extends the
// candidate until it is free; the result is collision-free because a
// candidate longer than every used name cannot be in use.
// ---------------------------------------------------------------------------
/// The longest length among the names from index `k` on.
pub open spec fn max_name_len_from(names: Seq<Seq<char>>, k: int) -> int
    decreases names.len() - k,
{
    if k < 0 || k >= names.len() {
        0
    } else {
        let rest = max_name_len_from(names, k + 1);
        if names[k].len() > rest {
            names[k].len() as int
        } else {
            rest
        }
    }
}

/// Every listed name is at most `max_name_len_from(names, 0)` long.
pub proof fn lemma_name_len_le_max(names: Seq<Seq<char>>, k: int, i: int)
    requires
        0 <= k <= i < names.len(),
    ensures
        names[i].len() <= max_name_len_from(names, k),
    decreases i - k,
{
    if k < i {
        lemma_name_len_le_max(names, k + 1, i);
    }
}

/// The first name in the sequence `cand`, `cand + "_"`, `cand + "__"`, …
/// that is not in `used`.
pub open spec fn fresh_name_spec(used: Seq<Seq<char>>, cand: Seq<char>) -> Seq<char>
    decreases max_name_len_from(used, 0) + 1 - cand.len()
        via fresh_name_spec_decreases
{
    if used.contains(cand) {
        fresh_name_spec(used, cand.push('_'))
    } else {
        cand
    }
}

#[via_fn]
proof fn fresh_name_spec_decreases(used: Seq<Seq<char>>, cand: Seq<char>) {
    if used.contains(cand) {
        let i = choose|i: int| 0 <= i < used.len() && used[i] == cand;
        lemma_name_len_le_max(used, 0, i);
    }
}

/// The seed all generated names start from.
pub open spec fn fresh_name_seed() -> Seq<char> {
    "_export"@
}

/// Generates a binding name that collides with none of `used`, the
/// explicit replacement for a symbol-table-backed unique-id generator.
pub fn fresh_name(used: &Vec<String>) -> (r: String)
    ensures
        r@ == fresh_name_spec(used.deep_view(), fresh_name_seed()),
        !used.deep_view().contains(r@),
{
    let mut cand: String = "_export".to_owned();
    loop
        invariant
            fresh_name_spec(used.deep_view(), fresh_name_seed()) == fresh_name_spec(
                used.deep_view(),
                cand@,
            ),
        decreases max_name_len_from(used.deep_view(), 0) + 1 - cand@.len(),
    {
        if !contains_name(used, &cand) {
            proof {
                assert(fresh_name_spec(used.deep_view(), cand@) == cand@);
            }
            return cand;
        }
        proof {
            let uv = used.deep_view();
            let i = choose|i: int| 0 <= i < uv.len() && uv[i] == cand@;
            lemma_name_len_le_max(uv, 0, i);
        }
        let ghost prev = cand@;
        cand.append("_");
        proof {
            reveal_strlit("_");
            assert(cand@ =~= prev.push('_'));
        }
    }
}

// ---------------------------------------------------------------------------
// The rewrite, statement by statement.
// ---------------------------------------------------------------------------
/// A canonical `export { local as exported }` statement.
pub open spec fn export_stmt_v(local: Seq<char>, exported: Seq<char>) -> StmtV {
    StmtV::ExportNamed {
        decl: None,
        specifiers: seq![ExportSpecifierV { local, exported }],
        source: None,
    }
}

/// A canonical single-specifier `import { imported as local } from source`.
pub open spec fn single_import_v(imported: Seq<char>, local: Seq<char>, source: Seq<char>) -> StmtV {
    StmtV::Import {
        specifiers: seq![ImportSpecifierV::Named { imported, local }],
        source,
    }
}

/// A canonical `import * as local from source`.
pub open spec fn namespace_import_v(local: Seq<char>, source: Seq<char>) -> StmtV {
    StmtV::Import { specifiers: seq![ImportSpecifierV::Namespace { local }], source }
}

/// Splits an import statement: one single-specifier import per
/// specifier, a default specifier becoming a named specifier importing
/// the synthetic name `default`, a namespace specifier staying whole.
pub open spec fn expand_import_from(
    specs: Seq<ImportSpecifierV>,
    source: Seq<char>,
    k: int,
) -> Seq<StmtV>
    decreases specs.len() - k,
{
    if k < 0 || k >= specs.len() {
        Seq::<StmtV>::empty()
    } else {
        (match specs[k] {
            ImportSpecifierV::Named { imported, local } => seq![
                single_import_v(imported, local, source),
            ],
            ImportSpecifierV::Default { local } => seq![
                single_import_v("default"@, local, source),
            ],
            ImportSpecifierV::Namespace { local } => seq![namespace_import_v(local, source)],
        }) + expand_import_from(specs, source, k + 1)
    }
}

/// The `export { … }` statements for the object-pattern properties from
/// index `k` on: one per property, in property order; a property whose
/// value is not a plain identifier is unsupported.
pub open spec fn expand_export_props_from(props: Seq<PatternPropV>, k: int) -> Result<
    Seq<StmtV>,
    UnsupportedConstruct,
>
    decreases props.len() - k,
{
    if k < 0 || k >= props.len() {
        Ok(Seq::<StmtV>::empty())
    } else {
        match props[k].binding {
            Some(b) => match expand_export_props_from(props, k + 1) {
                Ok(rest) => Ok(seq![export_stmt_v(b, b)] + rest),
                Err(c) => Err(c),
            },
            None => Err(UnsupportedConstruct::ExportedPatternProperty),
        }
    }
}

/// The `export { … }` statements for one declarator's pattern: one for
/// a single identifier, one per property for an object pattern, and an
/// error for any other pattern shape.
pub open spec fn expand_export_pattern(p: PatternV) -> Result<Seq<StmtV>, UnsupportedConstruct> {
    match p {
        PatternV::Ident { name } => Ok(seq![export_stmt_v(name, name)]),
        PatternV::Object { props } => expand_export_props_from(props, 0),
        PatternV::Other { .. } => Err(UnsupportedConstruct::ExportedBindingPattern),
    }
}

/// Rewrites `export <var-decl>` declarator by declarator: the hoisted
/// bare declaration followed by the pattern's export statements.  A
/// declaration with several declarators is re-emitted whole once per
/// declarator, each copy followed by that declarator's exports.
pub open spec fn expand_export_var_from(
    kind: VarKind,
    declarators: Seq<DeclaratorV>,
    k: int,
) -> Result<Seq<StmtV>, UnsupportedConstruct>
    decreases declarators.len() - k,
{
    if k < 0 || k >= declarators.len() {
        Ok(Seq::<StmtV>::empty())
    } else {
        match expand_export_pattern(declarators[k].pattern) {
            Err(c) => Err(c),
            Ok(exports) => match expand_export_var_from(kind, declarators, k + 1) {
                Err(c) => Err(c),
                Ok(rest) => Ok(
                    seq![StmtV::Decl { decl: DeclV::Var { kind, declarators } }] + exports + rest,
                ),
            },
        }
    }
}

/// Rewrites a re-export `export { a as b } from "src"`: for each
/// specifier, an import binding the foreign name `a` to the local alias
/// `b`, followed by `export { b }`.
pub open spec fn expand_reexport_from(
    specs: Seq<ExportSpecifierV>,
    source: Seq<char>,
    k: int,
) -> Seq<StmtV>
    decreases specs.len() - k,
{
    if k < 0 || k >= specs.len() {
        Seq::<StmtV>::empty()
    } else {
        seq![
            single_import_v(specs[k].local, specs[k].exported, source),
            export_stmt_v(specs[k].exported, specs[k].exported),
        ] + expand_reexport_from(specs, source, k + 1)
    }
}

/// Splits a plain `export { a, b as c }` into one export statement per
/// specifier, names unchanged.
pub open spec fn split_exports_from(specs: Seq<ExportSpecifierV>, k: int) -> Seq<StmtV>
    decreases specs.len() - k,
{
    if k < 0 || k >= specs.len() {
        Seq::<StmtV>::empty()
    } else {
        seq![
            StmtV::ExportNamed { decl: None, specifiers: seq![specs[k]], source: None },
        ] + split_exports_from(specs, k + 1)
    }
}

/// The rewrite of one statement: the statements that replace it, and
/// the used-name set extended by any freshly generated name.  Every
/// statement kind maps to exactly one output form; the unsupported
/// shapes are errors.
pub open spec fn expand_stmt_v(s: StmtV, used: Seq<Seq<char>>) -> Result<
    (Seq<StmtV>, Seq<Seq<char>>),
    UnsupportedConstruct,
> {
    match s {
        StmtV::Import { specifiers, source } => Ok((expand_import_from(specifiers, source, 0), used)),
        StmtV::ExportDefault { decl } => match decl {
            DefaultDeclV::Func { name: Some(n), body } => Ok(
                (
                    seq![
                        StmtV::Decl { decl: DeclV::Func { name: n, body } },
                        export_stmt_v(n, "default"@),
                    ],
                    used,
                ),
            ),
            DefaultDeclV::Func { name: None, body } => {
                let f = fresh_name_spec(used, fresh_name_seed());
                Ok(
                    (
                        seq![
                            StmtV::Decl { decl: DeclV::Func { name: f, body } },
                            export_stmt_v(f, "default"@),
                        ],
                        used.push(f),
                    ),
                )
            },
            DefaultDeclV::Class { name: Some(n), body } => Ok(
                (
                    seq![
                        StmtV::Decl { decl: DeclV::Class { name: n, body } },
                        export_stmt_v(n, "default"@),
                    ],
                    used,
                ),
            ),
            DefaultDeclV::Class { name: None, body } => {
                let f = fresh_name_spec(used, fresh_name_seed());
                Ok(
                    (
                        seq![
                            StmtV::Decl { decl: DeclV::Class { name: f, body } },
                            export_stmt_v(f, "default"@),
                        ],
                        used.push(f),
                    ),
                )
            },
            DefaultDeclV::ObjectLit { value } => {
                let f = fresh_name_spec(used, fresh_name_seed());
                Ok(
                    (
                        seq![
                            StmtV::Decl {
                                decl: DeclV::Var {
                                    kind: VarKind::Const,
                                    declarators: seq![
                                        DeclaratorV {
                                            pattern: PatternV::Ident { name: f },
                                            init: Some(value),
                                        },
                                    ],
                                },
                            },
                            export_stmt_v(f, "default"@),
                        ],
                        used.push(f),
                    ),
                )
            },
            DefaultDeclV::Other { .. } => Err(UnsupportedConstruct::DefaultExportExpression),
        },
        StmtV::ExportNamed { decl: Some(d), .. } => match d {
            DeclV::Func { name, body } => Ok(
                (
                    seq![
                        StmtV::Decl { decl: DeclV::Func { name, body } },
                        export_stmt_v(name, name),
                    ],
                    used,
                ),
            ),
            DeclV::Class { name, body } => Ok(
                (
                    seq![
                        StmtV::Decl { decl: DeclV::Class { name, body } },
                        export_stmt_v(name, name),
                    ],
                    used,
                ),
            ),
            DeclV::Var { kind, declarators } => match expand_export_var_from(kind, declarators, 0) {
                Ok(sts) => Ok((sts, used)),
                Err(c) => Err(c),
            },
        },
        StmtV::ExportNamed { decl: None, specifiers, source: Some(src) } => Ok(
            (expand_reexport_from(specifiers, src, 0), used),
        ),
        StmtV::ExportNamed { decl: None, specifiers, source: None } => Ok(
            (split_exports_from(specifiers, 0), used),
        ),
        StmtV::ExportAll { .. } => Ok((seq![s], used)),
        StmtV::Decl { .. } => Ok((seq![s], used)),
        StmtV::Other { .. } => Ok((seq![s], used)),
    }
}

/// The rewrite of the statements from index `k` on, threading the
/// used-name set, stopping at the first unsupported construct.
pub open spec fn canon_from(body: Seq<StmtV>, k: int, used: Seq<Seq<char>>) -> Result<
    (Seq<StmtV>, Seq<Seq<char>>),
    UnsupportedConstruct,
>
    decreases body.len() - k,
{
    if k < 0 || k >= body.len() {
        Ok((Seq::<StmtV>::empty(), used))
    } else {
        match expand_stmt_v(body[k], used) {
            Err(c) => Err(c),
            Ok(p) => match canon_from(body, k + 1, p.1) {
                Err(c) => Err(c),
                Ok(rest) => Ok((p.0 + rest.0, rest.1)),
            },
        }
    }
}

/// The whole canonicalization pass: the per-statement rewrites in
/// original order, starting from the module's own binding names as the
/// used-name set; an unsupported construct aborts the pass with an
/// error naming the file.
pub open spec fn canonicalize_spec(m: ModuleV, filename: Seq<char>) -> Result<
    ModuleV,
    TransformErrorV,
> {
    match canon_from(m.body, 0, module_decl_names(m.body)) {
        Ok(p) => Ok(ModuleV { body: p.0 }),
        Err(c) => Err(TransformErrorV { filename, construct: c }),
    }
}

// ---------------------------------------------------------------------------
// Canonical form.
// ---------------------------------------------------------------------------
/// A statement in canonical form: a single-specifier import (named or
/// namespace), a single-specifier plain export, or a statement the
/// rewrite passes through unchanged.
pub open spec fn stmt_canonical(s: StmtV) -> bool {
    match s {
        StmtV::Import { specifiers, .. } => specifiers.len() == 1 && (specifiers[0] is Named
            || specifiers[0] is Namespace),
        StmtV::ExportNamed { decl, specifiers, source } => decl is None && source is None
            && specifiers.len() == 1,
        StmtV::ExportDefault { .. } => false,
        StmtV::ExportAll { .. } => true,
        StmtV::Decl { .. } => true,
        StmtV::Other { .. } => true,
    }
}

/// A statement list in canonical form: every statement is.
pub open spec fn stmts_canonical(sts: Seq<StmtV>) -> bool {
    forall|i: int| 0 <= i < sts.len() ==> stmt_canonical(#[trigger] sts[i])
}

/// A module in canonical form: every statement is.
pub open spec fn module_canonical(m: ModuleV) -> bool {
    stmts_canonical(m.body)
}

// ---------------------------------------------------------------------------
// The executable pass.
// ---------------------------------------------------------------------------
/// `r` prefixed by the statements `pre`, errors unchanged.
pub open spec fn prepend_result(
    pre: Seq<StmtV>,
    r: Result<(Seq<StmtV>, Seq<Seq<char>>), UnsupportedConstruct>,
) -> Result<(Seq<StmtV>, Seq<Seq<char>>), UnsupportedConstruct> {
    match r {
        Ok(p) => Ok((pre + p.0, p.1)),
        Err(c) => Err(c),
    }
}

proof fn lemma_prepend_assoc(
    a: Seq<StmtV>,
    b: Seq<StmtV>,
    r: Result<(Seq<StmtV>, Seq<Seq<char>>), UnsupportedConstruct>,
)
    ensures
        prepend_result(a, prepend_result(b, r)) == prepend_result(a + b, r),
{
    match r {
        Ok(p) => {
            assert((a + b) + p.0 =~= a + (b + p.0));
        },
        Err(_) => {},
    }
}

/// `r` prefixed by the statements `pre`, errors unchanged.
pub open spec fn prepend_exports(
    pre: Seq<StmtV>,
    r: Result<Seq<StmtV>, UnsupportedConstruct>,
) -> Result<Seq<StmtV>, UnsupportedConstruct> {
    match r {
        Ok(s) => Ok(pre + s),
        Err(c) => Err(c),
    }
}

proof fn lemma_prepend_exports_assoc(
    a: Seq<StmtV>,
    b: Seq<StmtV>,
    r: Result<Seq<StmtV>, UnsupportedConstruct>,
)
    ensures
        prepend_exports(a, prepend_exports(b, r)) == prepend_exports(a + b, r),
{
    match r {
        Ok(s) => {
            assert((a + b) + s =~= a + (b + s));
        },
        Err(_) => {},
    }
}

/// Builds a canonical `export { local as exported }` statement.
fn export_stmt(local: String, exported: String) -> (r: Stmt)
    ensures
        r@ == export_stmt_v(local@, exported@),
{
    let ghost lv = local@;
    let ghost ev = exported@;
    let mut specifiers: Vec<ExportSpecifier> = Vec::new();
    specifiers.push(ExportSpecifier { local, exported });
    let r = Stmt::ExportNamed { decl: None, specifiers, source: None };
    proof {
        assert(r@->ExportNamed_specifiers =~= seq![ExportSpecifierV { local: lv, exported: ev }]);
    }
    r
}

/// Builds a canonical single-specifier named import.
fn single_import(imported: String, local: String, source: String) -> (r: Stmt)
    ensures
        r@ == single_import_v(imported@, local@, source@),
{
    let ghost iv = imported@;
    let ghost lv = local@;
    let mut specifiers: Vec<ImportSpecifier> = Vec::new();
    specifiers.push(ImportSpecifier::Named { imported, local });
    let r = Stmt::Import { specifiers, source };
    proof {
        assert(r@->Import_specifiers =~= seq![ImportSpecifierV::Named { imported: iv, local: lv }]);
    }
    r
}

/// Builds a canonical namespace import.
fn namespace_import(local: String, source: String) -> (r: Stmt)
    ensures
        r@ == namespace_import_v(local@, source@),
{
    let ghost lv = local@;
    let mut specifiers: Vec<ImportSpecifier> = Vec::new();
    specifiers.push(ImportSpecifier::Namespace { local });
    let r = Stmt::Import { specifiers, source };
    proof {
        assert(r@->Import_specifiers =~= seq![ImportSpecifierV::Namespace { local: lv }]);
    }
    r
}


/// Splits one import statement into `out`.
#[verifier::loop_isolation(false)]
fn expand_import_exec(specifiers: &Vec<ImportSpecifier>, source: &String, out: &mut Vec<Stmt>)
    ensures
        final(out).deep_view() == old(out).deep_view() + expand_import_from(
            specifiers.deep_view(),
            source@,
            0,
        ),
{
    let ghost sv = specifiers.deep_view();
    let ghost base = out.deep_view();
    let ghost mut emitted = Seq::<StmtV>::empty();
    let n = specifiers.len();
    let mut i: usize = 0;
    proof {
        assert(out.deep_view() =~= base + emitted);
    }
    while i < n
        invariant
            i <= n,
            out.deep_view() == base + emitted,
            expand_import_from(sv, source@, 0) == emitted + expand_import_from(
                sv,
                source@,
                i as int,
            ),
        decreases n - i,
    {
        let st = match &specifiers[i] {
            ImportSpecifier::Named { imported, local } => single_import(
                imported.clone(),
                local.clone(),
                source.clone(),
            ),
            ImportSpecifier::Default { local } => single_import(
                "default".to_owned(),
                local.clone(),
                source.clone(),
            ),
            ImportSpecifier::Namespace { local } => namespace_import(local.clone(), source.clone()),
        };
        let ghost stg = st;
        let ghost prev = emitted;
        let ghost pre_vec = *out;
        out.push(st);
        proof {
            lemma_deep_push_stmt(pre_vec, *out, stg);
            emitted = prev.push(stg@);
            assert(sv[i as int] == specifiers@[i as int]@);
            assert(expand_import_from(sv, source@, i as int) == seq![stg@] + expand_import_from(
                sv,
                source@,
                i + 1,
            ));
            assert(prev + (seq![stg@] + expand_import_from(sv, source@, i + 1)) =~= emitted
                + expand_import_from(sv, source@, i + 1));
        }
        i = i + 1;
    }
    proof {
        assert(emitted + expand_import_from(sv, source@, n as int) =~= emitted);
    }
}

/// Splits a re-export statement into `out`.
#[verifier::loop_isolation(false)]
fn expand_reexport_exec(specifiers: &Vec<ExportSpecifier>, src: &String, out: &mut Vec<Stmt>)
    ensures
        final(out).deep_view() == old(out).deep_view() + expand_reexport_from(
            specifiers.deep_view(),
            src@,
            0,
        ),
{
    let ghost sv = specifiers.deep_view();
    let ghost base = out.deep_view();
    let ghost mut emitted = Seq::<StmtV>::empty();
    let n = specifiers.len();
    let mut i: usize = 0;
    proof {
        assert(out.deep_view() =~= base + emitted);
    }
    while i < n
        invariant
            i <= n,
            out.deep_view() == base + emitted,
            expand_reexport_from(sv, src@, 0) == emitted + expand_reexport_from(sv, src@, i as int),
        decreases n - i,
    {
        let im = single_import(
            specifiers[i].local.clone(),
            specifiers[i].exported.clone(),
            src.clone(),
        );
        let ex = export_stmt(specifiers[i].exported.clone(), specifiers[i].exported.clone());
        let ghost img = im;
        let ghost exg = ex;
        let ghost prev = emitted;
        let ghost pre_vec1 = *out;
        out.push(im);
        let ghost pre_vec2 = *out;
        out.push(ex);
        proof {
            lemma_deep_push_stmt(pre_vec1, pre_vec2, img);
            lemma_deep_push_stmt(pre_vec2, *out, exg);
            emitted = prev + seq![img@, exg@];
            assert(sv[i as int] == specifiers@[i as int]@);
            assert(out.deep_view() =~= base + emitted);
            assert(expand_reexport_from(sv, src@, i as int) == seq![img@, exg@]
                + expand_reexport_from(sv, src@, i + 1));
            assert(prev + (seq![img@, exg@] + expand_reexport_from(sv, src@, i + 1)) =~= emitted
                + expand_reexport_from(sv, src@, i + 1));
        }
        i = i + 1;
    }
    proof {
        assert(emitted + expand_reexport_from(sv, src@, n as int) =~= emitted);
    }
}

/// Splits a plain export statement into `out`.
#[verifier::loop_isolation(false)]
fn split_exports_exec(specifiers: &Vec<ExportSpecifier>, out: &mut Vec<Stmt>)
    ensures
        final(out).deep_view() == old(out).deep_view() + split_exports_from(
            specifiers.deep_view(),
            0,
        ),
{
    let ghost sv = specifiers.deep_view();
    let ghost base = out.deep_view();
    let ghost mut emitted = Seq::<StmtV>::empty();
    let n = specifiers.len();
    let mut i: usize = 0;
    proof {
        assert(out.deep_view() =~= base + emitted);
    }
    while i < n
        invariant
            i <= n,
            out.deep_view() == base + emitted,
            split_exports_from(sv, 0) == emitted + split_exports_from(sv, i as int),
        decreases n - i,
    {
        let mut one: Vec<ExportSpecifier> = Vec::new();
        one.push(clone_export_specifier(&specifiers[i]));
        let st = Stmt::ExportNamed { decl: None, specifiers: one, source: None };
        proof {
            assert(sv[i as int] == specifiers@[i as int]@);
            assert(st@->ExportNamed_specifiers =~= seq![sv[i as int]]);
        }
        let ghost stg = st;
        let ghost prev = emitted;
        let ghost pre_vec = *out;
        out.push(st);
        proof {
            lemma_deep_push_stmt(pre_vec, *out, stg);
            emitted = prev.push(stg@);
            assert(split_exports_from(sv, i as int) == seq![stg@] + split_exports_from(sv, i + 1));
            assert(prev + (seq![stg@] + split_exports_from(sv, i + 1)) =~= emitted
                + split_exports_from(sv, i + 1));
        }
        i = i + 1;
    }
    proof {
        assert(emitted + split_exports_from(sv, n as int) =~= emitted);
    }
}

/// Rewrites `export <var-decl>` declarator by declarator: the hoisted
/// bare declaration followed by one export statement per bound name.
#[verifier::loop_isolation(false)]
fn expand_export_var_exec(d: &Decl, out: &mut Vec<Stmt>) -> (r: Result<(), UnsupportedConstruct>)
    requires
        d@ matches DeclV::Var { .. },
    ensures
        ({
            let spec_r = match d@ {
                DeclV::Var { kind, declarators } => expand_export_var_from(kind, declarators, 0),
                _ => Err(UnsupportedConstruct::ExportedBindingPattern),
            };
            &&& (r is Ok ==> (spec_r matches Ok(sts) && final(out).deep_view() == old(out).deep_view() + sts))
            &&& (r matches Err(c) ==> spec_r == Err::<Seq<StmtV>, UnsupportedConstruct>(c))
        }),
{
    match d {
        Decl::Var { kind, declarators } => {
            let ghost kv = *kind;
            let ghost dv = declarators.deep_view();
            let ghost base = out.deep_view();
            let ghost mut emitted = Seq::<StmtV>::empty();
            let n = declarators.len();
            let mut i: usize = 0;
            proof {
                assert(out.deep_view() =~= base + emitted);
                match expand_export_var_from(kv, dv, 0) {
                    Ok(s0) => {
                        assert(Seq::<StmtV>::empty() + s0 =~= s0);
                    },
                    Err(_) => {},
                }
            }
            while i < n
                invariant
                    i <= n,
                    out.deep_view() == base + emitted,
                    expand_export_var_from(kv, dv, 0) == prepend_exports(
                        emitted,
                        expand_export_var_from(kv, dv, i as int),
                    ),
                decreases n - i,
            {
                let ghost entry_emitted = emitted;
                let ghost declstmt = StmtV::Decl { decl: DeclV::Var { kind: kv, declarators: dv } };
                let hoisted = Stmt::Decl { decl: clone_decl(d) };
                let ghost hg = hoisted;
                let ghost pre_vec0 = *out;
                out.push(hoisted);
                proof {
                    lemma_deep_push_stmt(pre_vec0, *out, hg);
                    assert(hg@ == declstmt);
                    emitted = entry_emitted.push(declstmt);
                    assert(out.deep_view() =~= base + emitted);
                }
                match &declarators[i].pattern {
                    Pattern::Ident { name } => {
                        let ex = export_stmt(name.clone(), name.clone());
                        let ghost exg = ex;
                        let ghost pre_vec = *out;
                        out.push(ex);
                        proof {
                            lemma_deep_push_stmt(pre_vec, *out, exg);
                            emitted = emitted.push(exg@);
                            assert(out.deep_view() =~= base + emitted);
                            assert(dv[i as int] == declarators@[i as int]@);
                            let exports = seq![export_stmt_v(name@, name@)];
                            assert(expand_export_pattern(dv[i as int].pattern) == Ok::<
                                Seq<StmtV>,
                                UnsupportedConstruct,
                            >(exports));
                            assert(expand_export_var_from(kv, dv, i as int) == prepend_exports(
                                seq![declstmt] + exports,
                                expand_export_var_from(kv, dv, i + 1),
                            ));
                            lemma_prepend_exports_assoc(
                                entry_emitted,
                                seq![declstmt] + exports,
                                expand_export_var_from(kv, dv, i + 1),
                            );
                            assert(entry_emitted + (seq![declstmt] + exports) =~= emitted);
                        }
                    },
                    Pattern::Object { props } => {
                        let ghost pv = props.deep_view();
                        let ghost base_emitted = emitted;
                        let ghost mut emitted_props = Seq::<StmtV>::empty();
                        let np = props.len();
                        let mut j: usize = 0;
                        proof {
                            assert(base_emitted + emitted_props =~= base_emitted);
                            match expand_export_props_from(pv, 0) {
                                Ok(s0) => {
                                    assert(Seq::<StmtV>::empty() + s0 =~= s0);
                                },
                                Err(_) => {},
                            }
                        }
                        while j < np
                            invariant
                                j <= np,
                                emitted == base_emitted + emitted_props,
                                out.deep_view() == base + emitted,
                                expand_export_props_from(pv, 0) == prepend_exports(
                                    emitted_props,
                                    expand_export_props_from(pv, j as int),
                                ),
                            decreases np - j,
                        {
                            match &props[j].binding {
                                Some(b) => {
                                    let ghost prev_props = emitted_props;
                                    let ex = export_stmt(b.clone(), b.clone());
                                    let ghost exg = ex;
                                    let ghost pre_vec = *out;
                                    out.push(ex);
                                    proof {
                                        lemma_deep_push_stmt(pre_vec, *out, exg);
                                        assert(pv[j as int] == props@[j as int]@);
                                        emitted_props = prev_props.push(exg@);
                                        emitted = base_emitted + emitted_props;
                                        assert(base_emitted + prev_props.push(exg@) =~= (
                                        base_emitted + prev_props).push(exg@));
                                        assert(out.deep_view() =~= base + emitted);
                                        assert(expand_export_props_from(pv, j as int)
                                            == prepend_exports(
                                            seq![export_stmt_v(b@, b@)],
                                            expand_export_props_from(pv, j + 1),
                                        ));
                                        lemma_prepend_exports_assoc(
                                            prev_props,
                                            seq![export_stmt_v(b@, b@)],
                                            expand_export_props_from(pv, j + 1),
                                        );
                                        assert(prev_props + seq![export_stmt_v(b@, b@)]
                                            =~= emitted_props);
                                    }
                                },
                                None => {
                                    proof {
                                        assert(pv[j as int] == props@[j as int]@);
                                        assert(expand_export_props_from(pv, j as int) == Err::<
                                            Seq<StmtV>,
                                            UnsupportedConstruct,
                                        >(UnsupportedConstruct::ExportedPatternProperty));
                                        assert(expand_export_props_from(pv, 0) == Err::<
                                            Seq<StmtV>,
                                            UnsupportedConstruct,
                                        >(UnsupportedConstruct::ExportedPatternProperty));
                                        assert(dv[i as int].pattern == PatternV::Object {
                                            props: pv,
                                        });
                                        assert(expand_export_pattern(dv[i as int].pattern) == Err::<
                                            Seq<StmtV>,
                                            UnsupportedConstruct,
                                        >(UnsupportedConstruct::ExportedPatternProperty));
                                        assert(expand_export_var_from(kv, dv, i as int) == Err::<
                                            Seq<StmtV>,
                                            UnsupportedConstruct,
                                        >(UnsupportedConstruct::ExportedPatternProperty));
                                        assert(expand_export_var_from(kv, dv, 0) == Err::<
                                            Seq<StmtV>,
                                            UnsupportedConstruct,
                                        >(UnsupportedConstruct::ExportedPatternProperty));
                                    }
                                    return Err(UnsupportedConstruct::ExportedPatternProperty);
                                },
                            }
                            j = j + 1;
                        }
                        proof {
                            assert(expand_export_props_from(pv, np as int) == Ok::<
                                Seq<StmtV>,
                                UnsupportedConstruct,
                            >(Seq::<StmtV>::empty()));
                            assert(emitted_props + Seq::<StmtV>::empty() =~= emitted_props);
                            assert(expand_export_props_from(pv, 0) == Ok::<
                                Seq<StmtV>,
                                UnsupportedConstruct,
                            >(emitted_props));
                            assert(dv[i as int] == declarators@[i as int]@);
                            assert(dv[i as int].pattern == PatternV::Object { props: pv });
                            assert(expand_export_pattern(dv[i as int].pattern) == Ok::<
                                Seq<StmtV>,
                                UnsupportedConstruct,
                            >(emitted_props));
                            assert(expand_export_var_from(kv, dv, i as int) == prepend_exports(
                                seq![declstmt] + emitted_props,
                                expand_export_var_from(kv, dv, i + 1),
                            ));
                            lemma_prepend_exports_assoc(
                                entry_emitted,
                                seq![declstmt] + emitted_props,
                                expand_export_var_from(kv, dv, i + 1),
                            );
                            assert(entry_emitted + (seq![declstmt] + emitted_props) =~= emitted);
                        }
                    },
                    Pattern::Other { .. } => {
                        proof {
                            assert(dv[i as int] == declarators@[i as int]@);
                            assert(expand_export_pattern(dv[i as int].pattern) == Err::<
                                Seq<StmtV>,
                                UnsupportedConstruct,
                            >(UnsupportedConstruct::ExportedBindingPattern));
                            assert(expand_export_var_from(kv, dv, i as int) == Err::<
                                Seq<StmtV>,
                                UnsupportedConstruct,
                            >(UnsupportedConstruct::ExportedBindingPattern));
                            assert(expand_export_var_from(kv, dv, 0) == Err::<
                                Seq<StmtV>,
                                UnsupportedConstruct,
                            >(UnsupportedConstruct::ExportedBindingPattern));
                        }
                        return Err(UnsupportedConstruct::ExportedBindingPattern);
                    },
                }
                i = i + 1;
            }
            proof {
                assert(expand_export_var_from(kv, dv, n as int) == Ok::<
                    Seq<StmtV>,
                    UnsupportedConstruct,
                >(Seq::<StmtV>::empty()));
                assert(emitted + Seq::<StmtV>::empty() =~= emitted);
                assert(expand_export_var_from(kv, dv, 0) == Ok::<
                    Seq<StmtV>,
                    UnsupportedConstruct,
                >(emitted));
            }
            Ok(())
        },
        _ => {
            proof {
                assert(false);
            }
            Err(UnsupportedConstruct::ExportedBindingPattern)
        },
    }
}

/// Rewrites `export default …`: the hoisted (and if need be freshly
/// named) declaration, followed by `export { name as default }`.
fn expand_export_default_exec(
    decl: &DefaultDecl,
    used: &mut Vec<String>,
    out: &mut Vec<Stmt>,
) -> (r: Result<(), UnsupportedConstruct>)
    ensures
        r is Ok ==> (expand_stmt_v(StmtV::ExportDefault { decl: decl@ }, old(used).deep_view())
            matches Ok(p) && final(out).deep_view() == old(out).deep_view() + p.0
            && final(used).deep_view() == p.1),
        r matches Err(c) ==> expand_stmt_v(
            StmtV::ExportDefault { decl: decl@ },
            old(used).deep_view(),
        ) == Err::<(Seq<StmtV>, Seq<Seq<char>>), UnsupportedConstruct>(c),
{
    match decl {
        DefaultDecl::Func { name: Some(n), body } => {
            let hoisted = Stmt::Decl { decl: Decl::Func { name: n.clone(), body: clone_expr(body) } };
            let ex = export_stmt(n.clone(), "default".to_owned());
            let ghost hg = hoisted;
            let ghost exg = ex;
            let ghost pre1 = *out;
            out.push(hoisted);
            let ghost pre2 = *out;
            out.push(ex);
            proof {
                lemma_deep_push_stmt(pre1, pre2, hg);
                lemma_deep_push_stmt(pre2, *out, exg);
                assert(out.deep_view() =~= old(out).deep_view() + seq![hg@, exg@]);
            }
            Ok(())
        },
        DefaultDecl::Func { name: None, body } => {
            let f = fresh_name(used);
            let cl = f.clone();
            let ghost clg = cl;
            let ghost pre_used = *used;
            used.push(cl);
            let hoisted = Stmt::Decl { decl: Decl::Func { name: f.clone(), body: clone_expr(body) } };
            let ex = export_stmt(f, "default".to_owned());
            let ghost hg = hoisted;
            let ghost exg = ex;
            let ghost pre1 = *out;
            out.push(hoisted);
            let ghost pre2 = *out;
            out.push(ex);
            proof {
                lemma_deep_push_name(pre_used, *used, clg);
                lemma_deep_push_stmt(pre1, pre2, hg);
                lemma_deep_push_stmt(pre2, *out, exg);
                assert(out.deep_view() =~= old(out).deep_view() + seq![hg@, exg@]);
            }
            Ok(())
        },
        DefaultDecl::Class { name: Some(n), body } => {
            let hoisted = Stmt::Decl {
                decl: Decl::Class { name: n.clone(), body: clone_expr(body) },
            };
            let ex = export_stmt(n.clone(), "default".to_owned());
            let ghost hg = hoisted;
            let ghost exg = ex;
            let ghost pre1 = *out;
            out.push(hoisted);
            let ghost pre2 = *out;
            out.push(ex);
            proof {
                lemma_deep_push_stmt(pre1, pre2, hg);
                lemma_deep_push_stmt(pre2, *out, exg);
                assert(out.deep_view() =~= old(out).deep_view() + seq![hg@, exg@]);
            }
            Ok(())
        },
        DefaultDecl::Class { name: None, body } => {
            let f = fresh_name(used);
            let cl = f.clone();
            let ghost clg = cl;
            let ghost pre_used = *used;
            used.push(cl);
            let hoisted = Stmt::Decl {
                decl: Decl::Class { name: f.clone(), body: clone_expr(body) },
            };
            let ex = export_stmt(f, "default".to_owned());
            let ghost hg = hoisted;
            let ghost exg = ex;
            let ghost pre1 = *out;
            out.push(hoisted);
            let ghost pre2 = *out;
            out.push(ex);
            proof {
                lemma_deep_push_name(pre_used, *used, clg);
                lemma_deep_push_stmt(pre1, pre2, hg);
                lemma_deep_push_stmt(pre2, *out, exg);
                assert(out.deep_view() =~= old(out).deep_view() + seq![hg@, exg@]);
            }
            Ok(())
        },
        DefaultDecl::ObjectLit { value } => {
            let f = fresh_name(used);
            let cl = f.clone();
            let ghost clg = cl;
            let ghost pre_used = *used;
            used.push(cl);
            let mut declarators: Vec<Declarator> = Vec::new();
            declarators.push(
                Declarator {
                    pattern: Pattern::Ident { name: f.clone() },
                    init: Some(clone_expr(value)),
                },
            );
            let hoisted = Stmt::Decl { decl: Decl::Var { kind: VarKind::Const, declarators } };
            let ex = export_stmt(f, "default".to_owned());
            let ghost hg = hoisted;
            let ghost exg = ex;
            let ghost pre1 = *out;
            out.push(hoisted);
            let ghost pre2 = *out;
            out.push(ex);
            proof {
                lemma_deep_push_name(pre_used, *used, clg);
                lemma_deep_push_stmt(pre1, pre2, hg);
                lemma_deep_push_stmt(pre2, *out, exg);
                let fv = fresh_name_spec(old(used).deep_view(), fresh_name_seed());
                assert(hg@->Decl_decl->Var_declarators =~= seq![
                    DeclaratorV { pattern: PatternV::Ident { name: fv }, init: Some(value@) },
                ]);
                assert(out.deep_view() =~= old(out).deep_view() + seq![hg@, exg@]);
            }
            Ok(())
        },
        DefaultDecl::Other { .. } => Err(UnsupportedConstruct::DefaultExportExpression),
    }
}

/// Rewrites one statement, appending its replacement to `out` and any
/// freshly generated name to `used`.
fn expand_stmt_exec(s: &Stmt, used: &mut Vec<String>, out: &mut Vec<Stmt>) -> (r: Result<
    (),
    UnsupportedConstruct,
>)
    ensures
        r is Ok ==> (expand_stmt_v(s@, old(used).deep_view()) matches Ok(p)
            && final(out).deep_view() == old(out).deep_view() + p.0
            && final(used).deep_view() == p.1),
        r matches Err(c) ==> expand_stmt_v(s@, old(used).deep_view()) == Err::<
            (Seq<StmtV>, Seq<Seq<char>>),
            UnsupportedConstruct,
        >(c),
{
    match s {
        Stmt::Import { specifiers, source } => {
            expand_import_exec(specifiers, source, out);
            Ok(())
        },
        Stmt::ExportDefault { decl } => {
            let r = expand_export_default_exec(decl, used, out);
            proof {
                assert(s@ == StmtV::ExportDefault { decl: decl@ });
            }
            r
        },
        Stmt::ExportNamed { decl: Some(d), .. } => match d {
            Decl::Func { name, body } => {
                let hoisted = Stmt::Decl {
                    decl: Decl::Func { name: name.clone(), body: clone_expr(body) },
                };
                let ex = export_stmt(name.clone(), name.clone());
                let ghost hg = hoisted;
                let ghost exg = ex;
                let ghost pre1 = *out;
                out.push(hoisted);
                let ghost pre2 = *out;
                out.push(ex);
                proof {
                    lemma_deep_push_stmt(pre1, pre2, hg);
                    lemma_deep_push_stmt(pre2, *out, exg);
                    assert(out.deep_view() =~= old(out).deep_view() + seq![hg@, exg@]);
                }
                Ok(())
            },
            Decl::Class { name, body } => {
                let hoisted = Stmt::Decl {
                    decl: Decl::Class { name: name.clone(), body: clone_expr(body) },
                };
                let ex = export_stmt(name.clone(), name.clone());
                let ghost hg = hoisted;
                let ghost exg = ex;
                let ghost pre1 = *out;
                out.push(hoisted);
                let ghost pre2 = *out;
                out.push(ex);
                proof {
                    lemma_deep_push_stmt(pre1, pre2, hg);
                    lemma_deep_push_stmt(pre2, *out, exg);
                    assert(out.deep_view() =~= old(out).deep_view() + seq![hg@, exg@]);
                }
                Ok(())
            },
            Decl::Var { .. } => {
                let r = expand_export_var_exec(d, out);
                match r {
                    Ok(()) => Ok(()),
                    Err(c) => Err(c),
                }
            },
        },
        Stmt::ExportNamed { decl: None, specifiers, source: Some(src) } => {
            expand_reexport_exec(specifiers, src, out);
            Ok(())
        },
        Stmt::ExportNamed { decl: None, specifiers, source: None } => {
            split_exports_exec(specifiers, out);
            Ok(())
        },
        Stmt::ExportAll { .. } => {
            let cp = clone_stmt(s);
            let ghost cg = cp;
            let ghost pre = *out;
            out.push(cp);
            proof {
                lemma_deep_push_stmt(pre, *out, cg);
                assert(out.deep_view() =~= old(out).deep_view() + seq![s@]);
            }
            Ok(())
        },
        Stmt::Decl { .. } => {
            let cp = clone_stmt(s);
            let ghost cg = cp;
            let ghost pre = *out;
            out.push(cp);
            proof {
                lemma_deep_push_stmt(pre, *out, cg);
                assert(out.deep_view() =~= old(out).deep_view() + seq![s@]);
            }
            Ok(())
        },
        Stmt::Other { .. } => {
            let cp = clone_stmt(s);
            let ghost cg = cp;
            let ghost pre = *out;
            out.push(cp);
            proof {
                lemma_deep_push_stmt(pre, *out, cg);
                assert(out.deep_view() =~= old(out).deep_view() + seq![s@]);
            }
            Ok(())
        },
    }
}

/// The canonicalizer: rewrites a module's statement list into normal
/// form, one statement at a time, in place.
pub struct ExportReplacer {
    /// The file being transformed, named in any error.
    pub filename: String,
}

impl ExportReplacer {
    /// A canonicalizer for the named file.
    pub fn new(filename: String) -> (r: Self)
        ensures
            r.filename@ == filename@,
    {
        ExportReplacer { filename }
    }

    /// Replaces the module's statement list by its canonical form, or
    /// returns the error for the first unsupported construct, leaving
    /// the module unchanged.
    #[verifier::loop_isolation(false)]
    pub fn build(&self, program: &mut Module) -> (r: Result<(), TransformError>)
        ensures
            canonicalize_spec(old(program)@, self.filename@) matches Ok(c) ==> (r is Ok
                && final(program)@ == c),
            canonicalize_spec(old(program)@, self.filename@) matches Err(e) ==> (r matches Err(e2)
                && e2@ == e && *final(program) == *old(program)),
    {
        let ghost bv = program.body.deep_view();
        let mut used = collect_module_decl_names(&program.body);
        let ghost u0 = used.deep_view();
        let mut out: Vec<Stmt> = Vec::new();
        let ghost mut emitted = Seq::<StmtV>::empty();
        let n = program.body.len();
        let mut i: usize = 0;
        proof {
            match canon_from(bv, 0, u0) {
                Ok(p0) => {
                    assert(Seq::<StmtV>::empty() + p0.0 =~= p0.0);
                },
                Err(_) => {},
            }
        }
        while i < n
            invariant
                i <= n,
                out.deep_view() == emitted,
                canon_from(bv, 0, u0) == prepend_result(
                    emitted,
                    canon_from(bv, i as int, used.deep_view()),
                ),
            decreases n - i,
        {
            let ghost entry_emitted = emitted;
            let ghost entry_used = used.deep_view();
            let step = expand_stmt_exec(&program.body[i], &mut used, &mut out);
            match step {
                Ok(()) => {
                    proof {
                        assert(bv[i as int] == program.body@[i as int]@);
                        let p = expand_stmt_v(bv[i as int], entry_used)->Ok_0;
                        emitted = entry_emitted + p.0;
                        assert(canon_from(bv, i as int, entry_used) == prepend_result(
                            p.0,
                            canon_from(bv, i + 1, p.1),
                        ));
                        lemma_prepend_assoc(entry_emitted, p.0, canon_from(bv, i + 1, p.1));
                    }
                },
                Err(c) => {
                    proof {
                        assert(bv[i as int] == program.body@[i as int]@);
                        assert(canon_from(bv, i as int, entry_used) == Err::<
                            (Seq<StmtV>, Seq<Seq<char>>),
                            UnsupportedConstruct,
                        >(c));
                        assert(canon_from(bv, 0, u0) == Err::<
                            (Seq<StmtV>, Seq<Seq<char>>),
                            UnsupportedConstruct,
                        >(c));
                    }
                    return Err(TransformError { filename: self.filename.clone(), construct: c });
                },
            }
            i = i + 1;
        }
        proof {
            assert(canon_from(bv, n as int, used.deep_view()) == Ok::<
                (Seq<StmtV>, Seq<Seq<char>>),
                UnsupportedConstruct,
            >((Seq::<StmtV>::empty(), used.deep_view())));
            let p = canon_from(bv, n as int, used.deep_view())->Ok_0;
            assert(emitted + p.0 =~= emitted);
            assert(canon_from(bv, 0, u0) == Ok::<
                (Seq<StmtV>, Seq<Seq<char>>),
                UnsupportedConstruct,
            >((emitted, p.1)));
        }
        program.body = out;
        proof {
            assert(old(program)@.body == bv);
            assert(final(program)@.body == emitted);
        }
        Ok(())
    }
}

// ---------------------------------------------------------------------------
// Idempotence.
//
// The rewrite's output is canonical, and on canonical input the
// rewrite is the identity; running it twice therefore changes nothing
// after the first run.
// ---------------------------------------------------------------------------
proof fn lemma_stmts_canonical_concat(a: Seq<StmtV>, b: Seq<StmtV>)
    requires
        stmts_canonical(a),
        stmts_canonical(b),
    ensures
        stmts_canonical(a + b),
{
    assert forall|i: int| 0 <= i < (a + b).len() implies stmt_canonical(#[trigger] (a + b)[i]) by {
        if i < a.len() {
            assert((a + b)[i] == a[i]);
        } else {
            assert((a + b)[i] == b[i - a.len()]);
        }
    }
}

proof fn lemma_expand_import_canonical(specs: Seq<ImportSpecifierV>, source: Seq<char>, k: int)
    ensures
        stmts_canonical(expand_import_from(specs, source, k)),
    decreases specs.len() - k,
{
    if 0 <= k < specs.len() {
        lemma_expand_import_canonical(specs, source, k + 1);
        let head = match specs[k] {
            ImportSpecifierV::Named { imported, local } => seq![
                single_import_v(imported, local, source),
            ],
            ImportSpecifierV::Default { local } => seq![single_import_v("default"@, local, source)],
            ImportSpecifierV::Namespace { local } => seq![namespace_import_v(local, source)],
        };
        assert(stmts_canonical(head));
        lemma_stmts_canonical_concat(head, expand_import_from(specs, source, k + 1));
    }
}

proof fn lemma_expand_reexport_canonical(specs: Seq<ExportSpecifierV>, source: Seq<char>, k: int)
    ensures
        stmts_canonical(expand_reexport_from(specs, source, k)),
    decreases specs.len() - k,
{
    if 0 <= k < specs.len() {
        lemma_expand_reexport_canonical(specs, source, k + 1);
        let head = seq![
            single_import_v(specs[k].local, specs[k].exported, source),
            export_stmt_v(specs[k].exported, specs[k].exported),
        ];
        assert(stmts_canonical(head));
        lemma_stmts_canonical_concat(head, expand_reexport_from(specs, source, k + 1));
    }
}

proof fn lemma_split_exports_canonical(specs: Seq<ExportSpecifierV>, k: int)
    ensures
        stmts_canonical(split_exports_from(specs, k)),
    decreases specs.len() - k,
{
    if 0 <= k < specs.len() {
        lemma_split_exports_canonical(specs, k + 1);
        let head = seq![
            StmtV::ExportNamed { decl: None, specifiers: seq![specs[k]], source: None },
        ];
        assert(stmts_canonical(head));
        lemma_stmts_canonical_concat(head, split_exports_from(specs, k + 1));
    }
}

proof fn lemma_expand_props_canonical(props: Seq<PatternPropV>, k: int)
    ensures
        expand_export_props_from(props, k) matches Ok(sts) ==> stmts_canonical(sts),
    decreases props.len() - k,
{
    if 0 <= k < props.len() {
        lemma_expand_props_canonical(props, k + 1);
        match props[k].binding {
            Some(b) => {
                match expand_export_props_from(props, k + 1) {
                    Ok(rest) => {
                        assert(stmts_canonical(seq![export_stmt_v(b, b)]));
                        lemma_stmts_canonical_concat(seq![export_stmt_v(b, b)], rest);
                    },
                    Err(_) => {},
                }
            },
            None => {},
        }
    }
}

proof fn lemma_expand_export_var_canonical(kind: VarKind, ds: Seq<DeclaratorV>, k: int)
    ensures
        expand_export_var_from(kind, ds, k) matches Ok(sts) ==> stmts_canonical(sts),
    decreases ds.len() - k,
{
    if 0 <= k < ds.len() {
        lemma_expand_export_var_canonical(kind, ds, k + 1);
        match expand_export_pattern(ds[k].pattern) {
            Ok(exports) => {
                match ds[k].pattern {
                    PatternV::Ident { name } => {
                        assert(stmts_canonical(exports));
                    },
                    PatternV::Object { props } => {
                        lemma_expand_props_canonical(props, 0);
                        assert(stmts_canonical(exports));
                    },
                    PatternV::Other { .. } => {},
                }
                match expand_export_var_from(kind, ds, k + 1) {
                    Ok(rest) => {
                        let declstmt = StmtV::Decl { decl: DeclV::Var { kind, declarators: ds } };
                        assert(stmts_canonical(seq![declstmt]));
                        lemma_stmts_canonical_concat(seq![declstmt], exports);
                        lemma_stmts_canonical_concat(seq![declstmt] + exports, rest);
                    },
                    Err(_) => {},
                }
            },
            Err(_) => {},
        }
    }
}

proof fn lemma_expand_stmt_canonical(s: StmtV, used: Seq<Seq<char>>)
    ensures
        expand_stmt_v(s, used) matches Ok(p) ==> stmts_canonical(p.0),
{
    match s {
        StmtV::Import { specifiers, source } => {
            lemma_expand_import_canonical(specifiers, source, 0);
        },
        StmtV::ExportDefault { decl } => {
            match expand_stmt_v(s, used) {
                Ok(p) => {
                    assert(stmts_canonical(p.0));
                },
                Err(_) => {},
            }
        },
        StmtV::ExportNamed { decl: Some(d), .. } => {
            match d {
                DeclV::Var { kind, declarators } => {
                    lemma_expand_export_var_canonical(kind, declarators, 0);
                },
                _ => {
                    match expand_stmt_v(s, used) {
                        Ok(p) => {
                            assert(stmts_canonical(p.0));
                        },
                        Err(_) => {},
                    }
                },
            }
        },
        StmtV::ExportNamed { decl: None, specifiers, source: Some(src) } => {
            lemma_expand_reexport_canonical(specifiers, src, 0);
        },
        StmtV::ExportNamed { decl: None, specifiers, source: None } => {
            lemma_split_exports_canonical(specifiers, 0);
        },
        StmtV::ExportAll { .. } => {
            assert(stmts_canonical(seq![s]));
        },
        StmtV::Decl { .. } => {
            assert(stmts_canonical(seq![s]));
        },
        StmtV::Other { .. } => {
            assert(stmts_canonical(seq![s]));
        },
    }
}

proof fn lemma_canon_from_canonical(body: Seq<StmtV>, k: int, used: Seq<Seq<char>>)
    ensures
        canon_from(body, k, used) matches Ok(p) ==> stmts_canonical(p.0),
    decreases body.len() - k,
{
    if 0 <= k < body.len() {
        match expand_stmt_v(body[k], used) {
            Ok(p1) => {
                lemma_expand_stmt_canonical(body[k], used);
                lemma_canon_from_canonical(body, k + 1, p1.1);
                match canon_from(body, k + 1, p1.1) {
                    Ok(rest) => {
                        lemma_stmts_canonical_concat(p1.0, rest.0);
                    },
                    Err(_) => {},
                }
            },
            Err(_) => {},
        }
    }
}

/// What the canonicalizer produces is in canonical form.
pub proof fn lemma_canonicalize_canonical(m: ModuleV, filename: Seq<char>)
    ensures
        canonicalize_spec(m, filename) matches Ok(c) ==> module_canonical(c),
{
    lemma_canon_from_canonical(m.body, 0, module_decl_names(m.body));
}

proof fn lemma_expand_stmt_fixpoint(s: StmtV, used: Seq<Seq<char>>)
    requires
        stmt_canonical(s),
    ensures
        expand_stmt_v(s, used) == Ok::<(Seq<StmtV>, Seq<Seq<char>>), UnsupportedConstruct>(
            (seq![s], used),
        ),
{
    match s {
        StmtV::Import { specifiers, source } => {
            assert(specifiers =~= seq![specifiers[0]]);
            match specifiers[0] {
                ImportSpecifierV::Named { imported, local } => {
                    assert(single_import_v(imported, local, source) =~= s);
                    assert(expand_import_from(specifiers, source, 1) == Seq::<StmtV>::empty());
                    assert(seq![single_import_v(imported, local, source)] + Seq::<StmtV>::empty()
                        =~= seq![s]);
                },
                ImportSpecifierV::Default { .. } => {
                    assert(false);
                },
                ImportSpecifierV::Namespace { local } => {
                    assert(namespace_import_v(local, source) =~= s);
                    assert(expand_import_from(specifiers, source, 1) == Seq::<StmtV>::empty());
                    assert(seq![namespace_import_v(local, source)] + Seq::<StmtV>::empty() =~= seq![
                        s,
                    ]);
                },
            }
        },
        StmtV::ExportNamed { decl: None, specifiers, source: None } => {
            assert(specifiers =~= seq![specifiers[0]]);
            let one = StmtV::ExportNamed {
                decl: None,
                specifiers: seq![specifiers[0]],
                source: None,
            };
            assert(one =~= s);
            assert(split_exports_from(specifiers, 1) == Seq::<StmtV>::empty());
            assert(seq![one] + Seq::<StmtV>::empty() =~= seq![s]);
        },
        _ => {},
    }
}

proof fn lemma_canon_from_fixpoint(body: Seq<StmtV>, k: int, used: Seq<Seq<char>>)
    requires
        stmts_canonical(body),
        0 <= k <= body.len(),
    ensures
        canon_from(body, k, used) == Ok::<(Seq<StmtV>, Seq<Seq<char>>), UnsupportedConstruct>(
            (body.subrange(k, body.len() as int), used),
        ),
    decreases body.len() - k,
{
    if k == body.len() {
        assert(body.subrange(k, body.len() as int) =~= Seq::<StmtV>::empty());
    } else {
        lemma_expand_stmt_fixpoint(body[k], used);
        lemma_canon_from_fixpoint(body, k + 1, used);
        assert(seq![body[k]] + body.subrange(k + 1, body.len() as int) =~= body.subrange(
            k,
            body.len() as int,
        ));
    }
}

/// On a canonical module the canonicalizer is the identity, whatever
/// the filename.
pub proof fn lemma_canonicalize_fixpoint(m: ModuleV, filename: Seq<char>)
    requires
        module_canonical(m),
    ensures
        canonicalize_spec(m, filename) == Ok::<ModuleV, TransformErrorV>(m),
{
    lemma_canon_from_fixpoint(m.body, 0, module_decl_names(m.body));
    assert(m.body.subrange(0, m.body.len() as int) =~= m.body);
    assert(ModuleV { body: m.body } =~= m);
}

/// Law: canonicalization is idempotent.  A successful run yields a
/// canonical module, and a second run — under any filename — returns
/// that module unchanged.
pub proof fn lemma_canonicalize_idempotent(m: ModuleV, f1: Seq<char>, f2: Seq<char>)
    ensures
        canonicalize_spec(m, f1) matches Ok(c) ==> canonicalize_spec(c, f2) == Ok::<
            ModuleV,
            TransformErrorV,
        >(c),
{
    match canonicalize_spec(m, f1) {
        Ok(c) => {
            lemma_canonicalize_canonical(m, f1);
            lemma_canonicalize_fixpoint(c, f2);
        },
        Err(_) => {},
    }
}

// ---------------------------------------------------------------------------
// When success is owed.
// ---------------------------------------------------------------------------
/// A declarator whose pattern the rewrite cannot export: not a single
/// identifier, and not an object pattern of plain identifiers.
pub open spec fn declarator_unsupported(d: DeclaratorV) -> bool {
    match d.pattern {
        PatternV::Ident { .. } => false,
        PatternV::Object { props } => exists|k: int|
            0 <= k < props.len() && (#[trigger] props[k].binding) is None,
        PatternV::Other { .. } => true,
    }
}

/// A statement the rewrite does not recognize: a default export that is
/// neither function, class nor object literal, or an inline variable
/// export with an unsupported pattern.
pub open spec fn stmt_unsupported(s: StmtV) -> bool {
    match s {
        StmtV::ExportDefault { decl: DefaultDeclV::Other { .. } } => true,
        StmtV::ExportNamed { decl: Some(DeclV::Var { declarators, .. }), .. } => exists|k: int|
            0 <= k < declarators.len() && declarator_unsupported(#[trigger] declarators[k]),
        _ => false,
    }
}

proof fn lemma_props_success(props: Seq<PatternPropV>, k: int)
    requires
        0 <= k,
    ensures
        expand_export_props_from(props, k) is Ok <==> (forall|j: int|
            k <= j < props.len() ==> (#[trigger] props[j].binding) is Some),
    decreases props.len() - k,
{
    if 0 <= k < props.len() {
        lemma_props_success(props, k + 1);
        assert((forall|j: int| k <= j < props.len() ==> (#[trigger] props[j].binding) is Some)
            ==> (forall|j: int| k + 1 <= j < props.len() ==> (#[trigger] props[j].binding)
            is Some));
        match props[k].binding {
            Some(_) => {
                if expand_export_props_from(props, k + 1) is Ok {
                    assert forall|j: int| k <= j < props.len() implies (#[trigger] props[j].binding)
                        is Some by {
                        if j > k {
                            assert(props[j].binding is Some);
                        }
                    }
                }
            },
            None => {
                assert((props[k].binding) is None);
                assert(!(forall|j: int|
                    k <= j < props.len() ==> (#[trigger] props[j].binding) is Some));
            },
        }
    }
}

proof fn lemma_export_var_success(kind: VarKind, ds: Seq<DeclaratorV>, k: int)
    requires
        0 <= k,
    ensures
        expand_export_var_from(kind, ds, k) is Ok <==> (forall|j: int|
            k <= j < ds.len() ==> !declarator_unsupported(#[trigger] ds[j])),
    decreases ds.len() - k,
{
    if 0 <= k < ds.len() {
        lemma_export_var_success(kind, ds, k + 1);
        assert((forall|j: int| k <= j < ds.len() ==> !declarator_unsupported(#[trigger] ds[j]))
            ==> (forall|j: int| k + 1 <= j < ds.len() ==> !declarator_unsupported(
            #[trigger] ds[j],
        )));
        match ds[k].pattern {
            PatternV::Object { props } => {
                lemma_props_success(props, 0);
            },
            _ => {},
        }
        assert(expand_export_pattern(ds[k].pattern) is Ok <==> !declarator_unsupported(ds[k]));
        if !declarator_unsupported(ds[k]) {
            if expand_export_var_from(kind, ds, k + 1) is Ok {
                assert forall|j: int| k <= j < ds.len() implies !declarator_unsupported(
                    #[trigger] ds[j],
                ) by {
                    if j > k {
                        assert(!declarator_unsupported(ds[j]));
                    }
                }
            }
        } else {
            assert(!(forall|j: int|
                k <= j < ds.len() ==> !declarator_unsupported(#[trigger] ds[j])));
        }
    }
}

proof fn lemma_expand_stmt_success(s: StmtV, used: Seq<Seq<char>>)
    ensures
        expand_stmt_v(s, used) is Ok <==> !stmt_unsupported(s),
{
    match s {
        StmtV::ExportNamed { decl: Some(DeclV::Var { kind, declarators }), .. } => {
            lemma_export_var_success(kind, declarators, 0);
        },
        _ => {},
    }
}

proof fn lemma_canon_from_success(body: Seq<StmtV>, k: int, used: Seq<Seq<char>>)
    requires
        0 <= k,
    ensures
        canon_from(body, k, used) is Ok <==> (forall|i: int|
            k <= i < body.len() ==> !stmt_unsupported(#[trigger] body[i])),
    decreases body.len() - k,
{
    if 0 <= k < body.len() {
        lemma_expand_stmt_success(body[k], used);
        match expand_stmt_v(body[k], used) {
            Ok(p) => {
                lemma_canon_from_success(body, k + 1, p.1);
                if canon_from(body, k + 1, p.1) is Ok {
                    assert forall|i: int| k <= i < body.len() implies !stmt_unsupported(
                        #[trigger] body[i],
                    ) by {
                        if i > k {
                            assert(!stmt_unsupported(body[i]));
                        }
                    }
                } else {
                    assert((forall|i: int|
                        k <= i < body.len() ==> !stmt_unsupported(#[trigger] body[i])) ==> (
                    forall|i: int| k + 1 <= i < body.len() ==> !stmt_unsupported(
                        #[trigger] body[i],
                    )));
                }
            },
            Err(_) => {
                assert(stmt_unsupported(body[k]));
                assert(!(forall|i: int|
                    k <= i < body.len() ==> !stmt_unsupported(#[trigger] body[i])));
            },
        }
    }
}

/// Law: the canonicalizer succeeds exactly on the modules none of whose
/// statements holds an unsupported shape; every other module is
/// rejected with a fatal error, never silently truncated.
pub proof fn lemma_canonicalize_success(m: ModuleV, filename: Seq<char>)
    ensures
        canonicalize_spec(m, filename) is Ok <==> (forall|i: int|
            0 <= i < m.body.len() ==> !stmt_unsupported(#[trigger] m.body[i])),
{
    lemma_canon_from_success(m.body, 0, module_decl_names(m.body));
}

} // verus!
