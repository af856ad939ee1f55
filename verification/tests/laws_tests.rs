//! Concrete checks of the library's general laws: monotonicity of the
//! keep-set, and cycle safety of the reachability closure.

use native_shaker::ast::{
    Decl, Declarator, Expr, ExportSpecifier, Module, Pattern, Stmt, VarKind,
};
use native_shaker::shake::shake;
use native_shaker::transformer::transform_inner;

fn s(x: &str) -> String {
    x.to_string()
}

fn names(xs: &[&str]) -> Vec<String> {
    xs.iter().map(|x| x.to_string()).collect()
}

fn expr(code: &str, refs: &[&str]) -> Expr {
    Expr { code: s(code), refs: names(refs) }
}

fn const_var(name: &str, init: &str, refs: &[&str]) -> Stmt {
    Stmt::Decl {
        decl: Decl::Var {
            kind: VarKind::Const,
            declarators: vec![Declarator {
                pattern: Pattern::Ident { name: s(name) },
                init: Some(expr(init, refs)),
            }],
        },
    }
}

fn func(name: &str, body: &str, refs: &[&str]) -> Stmt {
    Stmt::Decl { decl: Decl::Func { name: s(name), body: expr(body, refs) } }
}

fn export_one(local: &str, exported: &str) -> Stmt {
    Stmt::ExportNamed {
        decl: None,
        specifiers: vec![ExportSpecifier { local: s(local), exported: s(exported) }],
        source: None,
    }
}

fn module(body: Vec<Stmt>) -> Module {
    Module { body }
}

// A canonical module with two independent exported bindings and a
// shared helper.
fn sample_canonical_module() -> Module {
    module(vec![
        const_var("shared", "1", &[]),
        const_var("foo", "shared + 1", &["shared"]),
        const_var("bar", "2", &[]),
        const_var("unused", "3", &[]),
        export_one("foo", "foo"),
        export_one("bar", "bar"),
    ])
}

// Monotonicity of reachability: every statement the shaker keeps for a
// requested set is kept for any larger requested set.
#[test]
fn test_keep_set_monotonic() {
    let small = shake(&sample_canonical_module(), &names(&["bar"]));
    let large = shake(&sample_canonical_module(), &names(&["bar", "foo"]));
    for stmt in &small.body {
        assert!(large.body.contains(stmt));
    }
    assert_eq!(small.body.len(), 2);
    assert_eq!(large.body.len(), 5);
}

// Mutual recursion: two top-level functions that call each other, with
// only one requested for export, are both retained — once each, in
// order, and the traversal terminates.
#[test]
fn test_mutual_recursion_kept_whole() {
    let input = module(vec![
        Stmt::ExportNamed {
            decl: Some(Decl::Func { name: s("even"), body: expr("{ return odd(n - 1); }", &["odd"]) }),
            specifiers: vec![],
            source: None,
        },
        func("odd", "{ return even(n - 1); }", &["even"]),
        const_var("unrelated", "0", &[]),
    ]);
    let expected = module(vec![
        func("even", "{ return odd(n - 1); }", &["odd"]),
        export_one("even", "even"),
        func("odd", "{ return even(n - 1); }", &["even"]),
    ]);
    assert_eq!(transform_inner(&s("source.js"), &input, &names(&["even"])).unwrap(), expected);
}

// A self-recursive function is likewise safe.
#[test]
fn test_self_recursion() {
    let input = module(vec![
        func("loop_fn", "{ return loop_fn(); }", &["loop_fn"]),
        export_one("loop_fn", "loop_fn"),
    ]);
    let expected = module(vec![
        func("loop_fn", "{ return loop_fn(); }", &["loop_fn"]),
        export_one("loop_fn", "loop_fn"),
    ]);
    assert_eq!(transform_inner(&s("source.js"), &input, &names(&["loop_fn"])).unwrap(), expected);
}

// Requesting `default` follows the `export { x as default }` aliasing
// to the local binding.
#[test]
fn test_default_resolution() {
    let input = module(vec![
        const_var("value", "42", &[]),
        const_var("noise", "0", &[]),
        export_one("value", "default"),
    ]);
    let expected = module(vec![
        const_var("value", "42", &[]),
        export_one("value", "default"),
    ]);
    assert_eq!(transform_inner(&s("source.js"), &input, &names(&["default"])).unwrap(), expected);
}
