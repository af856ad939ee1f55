//! Pipeline tests: canonicalize → shake, on module models of source
//! snippets, compared against the model of the expected source.

use native_shaker::ast::{
    Decl, Declarator, DefaultDecl, Expr, ExportSpecifier, ImportSpecifier, Module, Pattern, Stmt,
    TransformError, UnsupportedConstruct, VarKind,
};
use native_shaker::transformer::transform_inner;

fn s(x: &str) -> String {
    x.to_string()
}

fn names(xs: &[&str]) -> Vec<String> {
    xs.iter().map(|x| x.to_string()).collect()
}

fn expr(code: &str, refs: &[&str]) -> Expr {
    Expr { code: s(code), refs: names(refs) }
}

fn const_var(name: &str, init: &str, refs: &[&str]) -> Stmt {
    Stmt::Decl {
        decl: Decl::Var {
            kind: VarKind::Const,
            declarators: vec![Declarator {
                pattern: Pattern::Ident { name: s(name) },
                init: Some(expr(init, refs)),
            }],
        },
    }
}

fn export_const(name: &str, init: &str, refs: &[&str]) -> Stmt {
    Stmt::ExportNamed {
        decl: Some(Decl::Var {
            kind: VarKind::Const,
            declarators: vec![Declarator {
                pattern: Pattern::Ident { name: s(name) },
                init: Some(expr(init, refs)),
            }],
        }),
        specifiers: vec![],
        source: None,
    }
}

fn func(name: &str, body: &str, refs: &[&str]) -> Stmt {
    Stmt::Decl { decl: Decl::Func { name: s(name), body: expr(body, refs) } }
}

fn export_func(name: &str, body: &str, refs: &[&str]) -> Stmt {
    Stmt::ExportNamed {
        decl: Some(Decl::Func { name: s(name), body: expr(body, refs) }),
        specifiers: vec![],
        source: None,
    }
}

fn export_one(local: &str, exported: &str) -> Stmt {
    Stmt::ExportNamed {
        decl: None,
        specifiers: vec![ExportSpecifier { local: s(local), exported: s(exported) }],
        source: None,
    }
}

fn export_from(specs: &[(&str, &str)], source: &str) -> Stmt {
    Stmt::ExportNamed {
        decl: None,
        specifiers: specs
            .iter()
            .map(|(l, e)| ExportSpecifier { local: s(l), exported: s(e) })
            .collect(),
        source: Some(s(source)),
    }
}

fn import_one(imported: &str, local: &str, source: &str) -> Stmt {
    Stmt::Import {
        specifiers: vec![ImportSpecifier::Named { imported: s(imported), local: s(local) }],
        source: s(source),
    }
}

fn other(code: &str, refs: &[&str]) -> Stmt {
    Stmt::Other { expr: expr(code, refs) }
}

fn export_all(source: &str) -> Stmt {
    Stmt::ExportAll { source: s(source) }
}

fn module(body: Vec<Stmt>) -> Module {
    Module { body }
}

fn run(input: &Module, req: &[&str]) -> Module {
    transform_inner(&s("source.js"), input, &names(req)).unwrap()
}

fn run_err(input: &Module, req: &[&str]) -> TransformError {
    transform_inner(&s("source.js"), input, &names(req)).unwrap_err()
}

// const foo = "foo";
// const baz = "baz";
// export function foobaz() { return foo + "baz"; }
//   shaken for ["foobaz"] =>
// const foo = "foo";
// function foobaz() { return foo + "baz"; }
// export { foobaz };
#[test]
fn transformer_test_fn() {
    let input = module(vec![
        const_var("foo", "\"foo\"", &[]),
        const_var("baz", "\"baz\"", &[]),
        export_func("foobaz", "{ return foo + \"baz\"; }", &["foo"]),
    ]);
    let expected = module(vec![
        const_var("foo", "\"foo\"", &[]),
        func("foobaz", "{ return foo + \"baz\"; }", &["foo"]),
        export_one("foobaz", "foobaz"),
    ]);
    assert_eq!(run(&input, &["foobaz"]), expected);
}

// const foo = "foo";
// const baz = "baz";
// export const foobaz = { foo: baz }
//   shaken for ["foobaz"] =>
// const baz = "baz";
// const foobaz = { foo: baz };
// export { foobaz };
#[test]
fn test_obj() {
    let input = module(vec![
        const_var("foo", "\"foo\"", &[]),
        const_var("baz", "\"baz\"", &[]),
        export_const("foobaz", "{ foo: baz }", &["baz"]),
    ]);
    let expected = module(vec![
        const_var("baz", "\"baz\"", &[]),
        const_var("foobaz", "{ foo: baz }", &["baz"]),
        export_one("foobaz", "foobaz"),
    ]);
    assert_eq!(run(&input, &["foobaz"]), expected);
}

// const foo = "foo";
// console.log(foo);
// export { foo };
// const bar = "bar";
// console.log(foo);
// export { bar };
//   shaken for ["foo"] =>
// const foo = "foo";
// export { foo };
#[test]
fn test_exports() {
    let input = module(vec![
        const_var("foo", "\"foo\"", &[]),
        other("console.log(foo);", &["foo"]),
        export_one("foo", "foo"),
        const_var("bar", "\"bar\"", &[]),
        other("console.log(foo);", &["foo"]),
        export_one("bar", "bar"),
    ]);
    let expected = module(vec![
        const_var("foo", "\"foo\"", &[]),
        export_one("foo", "foo"),
    ]);
    assert_eq!(run(&input, &["foo"]), expected);
}

// import { foo } from "./foo";
// export const foobar = foo + "bar";
// export const baz = "baz";
//   shaken for ["foobar"] =>
// import { foo } from "./foo";
// const foobar = foo + "bar";
// export { foobar };
#[test]
fn transformer_test_import() {
    let input = module(vec![
        import_one("foo", "foo", "./foo"),
        export_const("foobar", "foo + \"bar\"", &["foo"]),
        export_const("baz", "\"baz\"", &[]),
    ]);
    let expected = module(vec![
        import_one("foo", "foo", "./foo"),
        const_var("foobar", "foo + \"bar\"", &["foo"]),
        export_one("foobar", "foobar"),
    ]);
    assert_eq!(run(&input, &["foobar"]), expected);
}

// import { gap } from "./gap";
// const shorthands = { gap };
// export { shorthands };
//   shaken for ["shorthands"] => unchanged
#[test]
fn test_export() {
    let input = module(vec![
        import_one("gap", "gap", "./gap"),
        const_var("shorthands", "{ gap }", &["gap"]),
        export_one("shorthands", "shorthands"),
    ]);
    let expected = module(vec![
        import_one("gap", "gap", "./gap"),
        const_var("shorthands", "{ gap }", &["gap"]),
        export_one("shorthands", "shorthands"),
    ]);
    assert_eq!(run(&input, &["shorthands"]), expected);
}

// export { foo } from "./foo";
// export { bar } from "./bar";
// export const baz = {};
//   shaken for ["foo", "baz"] =>
// import { foo } from "./foo";
// export { foo };
// const baz = {};
// export { baz };
#[test]
fn test_reexports() {
    let input = module(vec![
        export_from(&[("foo", "foo")], "./foo"),
        export_from(&[("bar", "bar")], "./bar"),
        export_const("baz", "{}", &[]),
    ]);
    let expected = module(vec![
        import_one("foo", "foo", "./foo"),
        export_one("foo", "foo"),
        const_var("baz", "{}", &[]),
        export_one("baz", "baz"),
    ]);
    assert_eq!(run(&input, &["foo", "baz"]), expected);
}

// function foo() {}
// function bar() {}
// export { foo as default };
//   shaken for ["default"] =>
// function foo() {}
// export { foo as default };
#[test]
fn transformer_test_export_default_fn() {
    let input = module(vec![
        func("foo", "{}", &[]),
        func("bar", "{}", &[]),
        export_one("foo", "default"),
    ]);
    let expected = module(vec![func("foo", "{}", &[]), export_one("foo", "default")]);
    assert_eq!(run(&input, &["default"]), expected);
}

// const objA = { color: "red" };
// const objB = { color: "blue" };
// export { objA as default };
//   shaken for ["default"] =>
// const objA = { color: "red" };
// export { objA as default };
#[test]
fn test_export_default_obj() {
    let input = module(vec![
        const_var("objA", "{ color: \"red\" }", &[]),
        const_var("objB", "{ color: \"blue\" }", &[]),
        export_one("objA", "default"),
    ]);
    let expected = module(vec![
        const_var("objA", "{ color: \"red\" }", &[]),
        export_one("objA", "default"),
    ]);
    assert_eq!(run(&input, &["default"]), expected);
}

// export * from "./mod";
//   shaken for ["foo"] => unchanged (retained unconditionally)
#[test]
fn transformer_test_export_all() {
    let input = module(vec![export_all("./mod")]);
    let expected = module(vec![export_all("./mod")]);
    assert_eq!(run(&input, &["foo"]), expected);
}

// const foo = "foo";
// const baz = "baz";
// export { foo };
// export { baz };
//   with the wildcard request => canonicalized, nothing shaken
#[test]
fn test_skip_shake() {
    let input = module(vec![
        const_var("foo", "\"foo\"", &[]),
        const_var("baz", "\"baz\"", &[]),
        export_one("foo", "foo"),
        export_one("baz", "baz"),
    ]);
    let expected = module(vec![
        const_var("foo", "\"foo\"", &[]),
        const_var("baz", "\"baz\"", &[]),
        export_one("foo", "foo"),
        export_one("baz", "baz"),
    ]);
    assert_eq!(run(&input, &["*"]), expected);
}

// import { foo } from "./foo";
// const width = "36px";
// const styles = { minWidth: width };
// const res = foo(styles);
// const obj = { ...styles };
// export { obj };
//   shaken for ["obj"] =>
// const width = "36px";
// const styles = { minWidth: width };
// const obj = { ...styles };
// export { obj };
#[test]
fn test_ref_recursion() {
    let input = module(vec![
        import_one("foo", "foo", "./foo"),
        const_var("width", "\"36px\"", &[]),
        const_var("styles", "{ minWidth: width }", &["width"]),
        const_var("res", "foo(styles)", &["foo", "styles"]),
        const_var("obj", "{ ...styles }", &["styles"]),
        export_one("obj", "obj"),
    ]);
    let expected = module(vec![
        const_var("width", "\"36px\"", &[]),
        const_var("styles", "{ minWidth: width }", &["width"]),
        const_var("obj", "{ ...styles }", &["styles"]),
        export_one("obj", "obj"),
    ]);
    assert_eq!(run(&input, &["obj"]), expected);
}

// import { qux } from "./qux";
// const quux = "quux";
// function baz() { return foo(); }
// function foo() { return [qux, quux]; }
// export { baz };
//   shaken for ["baz"] => everything retained, original order
#[test]
fn test_order() {
    let input = module(vec![
        import_one("qux", "qux", "./qux"),
        const_var("quux", "\"quux\"", &[]),
        func("baz", "{ return foo(); }", &["foo"]),
        func("foo", "{ return [qux, quux]; }", &["qux", "quux"]),
        export_one("baz", "baz"),
    ]);
    let expected = module(vec![
        import_one("qux", "qux", "./qux"),
        const_var("quux", "\"quux\"", &[]),
        func("baz", "{ return foo(); }", &["foo"]),
        func("foo", "{ return [qux, quux]; }", &["qux", "quux"]),
        export_one("baz", "baz"),
    ]);
    assert_eq!(run(&input, &["baz"]), expected);
}

// const foo = 1;
// export function bar() {}
//   shaken for ["bar"] =>
// function bar() {}
// export { bar };
#[test]
fn test_shake_drops_unused_const() {
    let input = module(vec![
        const_var("foo", "1", &[]),
        export_func("bar", "{}", &[]),
    ]);
    let expected = module(vec![func("bar", "{}", &[]), export_one("bar", "bar")]);
    assert_eq!(run(&input, &["bar"]), expected);
}

// export { foo } from "./foo";
// export const baz = {};
//   shaken for ["foo", "baz"] =>
// import { foo } from "./foo";
// export { foo };
// const baz = {};
// export { baz };
#[test]
fn test_reexport_and_const_retained() {
    let input = module(vec![
        export_from(&[("foo", "foo")], "./foo"),
        export_const("baz", "{}", &[]),
    ]);
    let expected = module(vec![
        import_one("foo", "foo", "./foo"),
        export_one("foo", "foo"),
        const_var("baz", "{}", &[]),
        export_one("baz", "baz"),
    ]);
    assert_eq!(run(&input, &["foo", "baz"]), expected);
}

// A module with an unsupported construct raises a fatal, non-silent
// error, whatever was requested.
#[test]
fn test_unsupported_construct_fails() {
    let input = module(vec![Stmt::ExportDefault {
        decl: DefaultDecl::Other { value: expr("() => 1", &[]) },
    }]);
    let err = run_err(&input, &["default"]);
    assert_eq!(err.filename, "source.js");
    assert_eq!(err.construct, UnsupportedConstruct::DefaultExportExpression);
}

// The wildcard skips the shaker even when shaking would drop
// statements, and an unsupported construct still fails under it.
#[test]
fn test_wildcard_keeps_everything() {
    let input = module(vec![
        const_var("unused", "1", &[]),
        export_func("used", "{}", &[]),
    ]);
    let expected = module(vec![
        const_var("unused", "1", &[]),
        func("used", "{}", &[]),
        export_one("used", "used"),
    ]);
    assert_eq!(run(&input, &["*", "used"]), expected);

    let bad = module(vec![Stmt::ExportDefault {
        decl: DefaultDecl::Other { value: expr("0", &[]) },
    }]);
    let err = run_err(&bad, &["*"]);
    assert_eq!(err.construct, UnsupportedConstruct::DefaultExportExpression);
}

// A requested name that resolves to no exported top-level binding
// silently contributes nothing.
#[test]
fn test_unknown_request_contributes_nothing() {
    let input = module(vec![
        const_var("foo", "1", &[]),
        export_one("foo", "foo"),
    ]);
    let expected = module(vec![]);
    assert_eq!(run(&input, &["missing"]), expected);
}

// An empty requested set keeps only what is unconditionally retained.
#[test]
fn test_empty_request() {
    let input = module(vec![
        const_var("foo", "1", &[]),
        export_one("foo", "foo"),
        export_all("./mod"),
    ]);
    let expected = module(vec![export_all("./mod")]);
    assert_eq!(run(&input, &[]), expected);
}
