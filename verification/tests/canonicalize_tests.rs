//! Canonicalizer tests: each builds the module model of a source
//! snippet, rewrites it, and compares against the model of the
//! expected source.

use native_shaker::ast::{
    Decl, Declarator, DefaultDecl, Expr, ExportSpecifier, ImportSpecifier, Module, Pattern,
    PatternProp, Stmt, TransformError, UnsupportedConstruct, VarKind,
};
use native_shaker::export_expand::ExportReplacer;

fn s(x: &str) -> String {
    x.to_string()
}

fn names(xs: &[&str]) -> Vec<String> {
    xs.iter().map(|x| x.to_string()).collect()
}

fn expr(code: &str, refs: &[&str]) -> Expr {
    Expr { code: s(code), refs: names(refs) }
}

fn const_var(name: &str, init: &str, refs: &[&str]) -> Stmt {
    Stmt::Decl {
        decl: Decl::Var {
            kind: VarKind::Const,
            declarators: vec![Declarator {
                pattern: Pattern::Ident { name: s(name) },
                init: Some(expr(init, refs)),
            }],
        },
    }
}

fn func(name: &str, body: &str, refs: &[&str]) -> Stmt {
    Stmt::Decl { decl: Decl::Func { name: s(name), body: expr(body, refs) } }
}

fn export_one(local: &str, exported: &str) -> Stmt {
    Stmt::ExportNamed {
        decl: None,
        specifiers: vec![ExportSpecifier { local: s(local), exported: s(exported) }],
        source: None,
    }
}

fn export_list(specs: &[(&str, &str)]) -> Stmt {
    Stmt::ExportNamed {
        decl: None,
        specifiers: specs
            .iter()
            .map(|(l, e)| ExportSpecifier { local: s(l), exported: s(e) })
            .collect(),
        source: None,
    }
}

fn export_from(specs: &[(&str, &str)], source: &str) -> Stmt {
    Stmt::ExportNamed {
        decl: None,
        specifiers: specs
            .iter()
            .map(|(l, e)| ExportSpecifier { local: s(l), exported: s(e) })
            .collect(),
        source: Some(s(source)),
    }
}

fn import_one(imported: &str, local: &str, source: &str) -> Stmt {
    Stmt::Import {
        specifiers: vec![ImportSpecifier::Named { imported: s(imported), local: s(local) }],
        source: s(source),
    }
}

fn export_all(source: &str) -> Stmt {
    Stmt::ExportAll { source: s(source) }
}

fn module(body: Vec<Stmt>) -> Module {
    Module { body }
}

fn canonicalize(input: Module) -> Module {
    let mut m = input;
    let replacer = ExportReplacer::new(s("source.js"));
    replacer.build(&mut m).unwrap();
    m
}

fn canonicalize_err(input: Module) -> TransformError {
    let mut m = input;
    let replacer = ExportReplacer::new(s("source.js"));
    replacer.build(&mut m).unwrap_err()
}

// const foo = 1;
// export function bar() {}
//   =>
// const foo = 1;
// function bar() {}
// export { bar };
#[test]
fn export_expand_test_fn() {
    let input = module(vec![
        const_var("foo", "1", &[]),
        Stmt::ExportNamed {
            decl: Some(Decl::Func { name: s("bar"), body: expr("{}", &[]) }),
            specifiers: vec![],
            source: None,
        },
    ]);
    let expected = module(vec![
        const_var("foo", "1", &[]),
        func("bar", "{}", &[]),
        export_one("bar", "bar"),
    ]);
    assert_eq!(canonicalize(input), expected);
}

// const foo = 1;
// export const bar = 2;
//   =>
// const foo = 1;
// const bar = 2;
// export { bar };
#[test]
fn test_vars() {
    let input = module(vec![
        const_var("foo", "1", &[]),
        Stmt::ExportNamed {
            decl: Some(Decl::Var {
                kind: VarKind::Const,
                declarators: vec![Declarator {
                    pattern: Pattern::Ident { name: s("bar") },
                    init: Some(expr("2", &[])),
                }],
            }),
            specifiers: vec![],
            source: None,
        },
    ]);
    let expected = module(vec![
        const_var("foo", "1", &[]),
        const_var("bar", "2", &[]),
        export_one("bar", "bar"),
    ]);
    assert_eq!(canonicalize(input), expected);
}

// import foo from "./foo";
// const foobar = foo + "bar";
// export { foobar };
//   =>
// import { default as foo } from "./foo";
// const foobar = foo + "bar";
// export { foobar };
#[test]
fn test_import_default() {
    let input = module(vec![
        Stmt::Import {
            specifiers: vec![ImportSpecifier::Default { local: s("foo") }],
            source: s("./foo"),
        },
        const_var("foobar", "foo + \"bar\"", &["foo"]),
        export_one("foobar", "foobar"),
    ]);
    let expected = module(vec![
        import_one("default", "foo", "./foo"),
        const_var("foobar", "foo + \"bar\"", &["foo"]),
        export_one("foobar", "foobar"),
    ]);
    assert_eq!(canonicalize(input), expected);
}

// import { gap } from "./gap";
// const shorthands = { gap };
// export { shorthands };
//   => unchanged
#[test]
fn export_expand_test_import() {
    let input = module(vec![
        import_one("gap", "gap", "./gap"),
        const_var("shorthands", "{ gap }", &["gap"]),
        export_one("shorthands", "shorthands"),
    ]);
    let expected = module(vec![
        import_one("gap", "gap", "./gap"),
        const_var("shorthands", "{ gap }", &["gap"]),
        export_one("shorthands", "shorthands"),
    ]);
    assert_eq!(canonicalize(input), expected);
}

// export default function foo() {}
//   =>
// function foo() {}
// export { foo as default };
#[test]
fn export_expand_test_export_default_fn() {
    let input = module(vec![Stmt::ExportDefault {
        decl: DefaultDecl::Func { name: Some(s("foo")), body: expr("{}", &[]) },
    }]);
    let expected = module(vec![func("foo", "{}", &[]), export_one("foo", "default")]);
    assert_eq!(canonicalize(input), expected);
}

// export default function() {}
//   =>
// function _export() {}
// export { _export as default };
#[test]
fn test_export_default_fn_anon() {
    let input = module(vec![Stmt::ExportDefault {
        decl: DefaultDecl::Func { name: None, body: expr("{}", &[]) },
    }]);
    let expected = module(vec![func("_export", "{}", &[]), export_one("_export", "default")]);
    assert_eq!(canonicalize(input), expected);
}

// export default class Foo {}
//   =>
// class Foo {}
// export { Foo as default };
#[test]
fn test_export_default_class() {
    let input = module(vec![Stmt::ExportDefault {
        decl: DefaultDecl::Class { name: Some(s("Foo")), body: expr("{}", &[]) },
    }]);
    let expected = module(vec![
        Stmt::Decl { decl: Decl::Class { name: s("Foo"), body: expr("{}", &[]) } },
        export_one("Foo", "default"),
    ]);
    assert_eq!(canonicalize(input), expected);
}

// export default class {}
//   =>
// class _export {}
// export { _export as default };
#[test]
fn test_export_default_class_anon() {
    let input = module(vec![Stmt::ExportDefault {
        decl: DefaultDecl::Class { name: None, body: expr("{}", &[]) },
    }]);
    let expected = module(vec![
        Stmt::Decl { decl: Decl::Class { name: s("_export"), body: expr("{}", &[]) } },
        export_one("_export", "default"),
    ]);
    assert_eq!(canonicalize(input), expected);
}

// export default {}
//   =>
// const _export = {};
// export { _export as default };
#[test]
fn test_export_default_obj_anon() {
    let input = module(vec![Stmt::ExportDefault {
        decl: DefaultDecl::ObjectLit { value: expr("{}", &[]) },
    }]);
    let expected = module(vec![
        const_var("_export", "{}", &[]),
        export_one("_export", "default"),
    ]);
    assert_eq!(canonicalize(input), expected);
}

// export { foo } from "./foo";
// export { bar } from "./bar";
// export const baz = {};
//   =>
// import { foo } from "./foo";
// export { foo };
// import { bar } from "./bar";
// export { bar };
// const baz = {};
// export { baz };
#[test]
fn test_export_const() {
    let input = module(vec![
        export_from(&[("foo", "foo")], "./foo"),
        export_from(&[("bar", "bar")], "./bar"),
        Stmt::ExportNamed {
            decl: Some(Decl::Var {
                kind: VarKind::Const,
                declarators: vec![Declarator {
                    pattern: Pattern::Ident { name: s("baz") },
                    init: Some(expr("{}", &[])),
                }],
            }),
            specifiers: vec![],
            source: None,
        },
    ]);
    let expected = module(vec![
        import_one("foo", "foo", "./foo"),
        export_one("foo", "foo"),
        import_one("bar", "bar", "./bar"),
        export_one("bar", "bar"),
        const_var("baz", "{}", &[]),
        export_one("baz", "baz"),
    ]);
    assert_eq!(canonicalize(input), expected);
}

// export function foo() {}
// export function bar() {}
//   =>
// function foo() {}
// export { foo };
// function bar() {}
// export { bar };
#[test]
fn test_export_function() {
    let input = module(vec![
        Stmt::ExportNamed {
            decl: Some(Decl::Func { name: s("foo"), body: expr("{}", &[]) }),
            specifiers: vec![],
            source: None,
        },
        Stmt::ExportNamed {
            decl: Some(Decl::Func { name: s("bar"), body: expr("{}", &[]) }),
            specifiers: vec![],
            source: None,
        },
    ]);
    let expected = module(vec![
        func("foo", "{}", &[]),
        export_one("foo", "foo"),
        func("bar", "{}", &[]),
        export_one("bar", "bar"),
    ]);
    assert_eq!(canonicalize(input), expected);
}

// import { foo, bar } from "./mod";
// export { foo, bar };
//   =>
// import { foo } from "./mod";
// import { bar } from "./mod";
// export { foo };
// export { bar };
#[test]
fn test_multi_import() {
    let input = module(vec![
        Stmt::Import {
            specifiers: vec![
                ImportSpecifier::Named { imported: s("foo"), local: s("foo") },
                ImportSpecifier::Named { imported: s("bar"), local: s("bar") },
            ],
            source: s("./mod"),
        },
        export_list(&[("foo", "foo"), ("bar", "bar")]),
    ]);
    let expected = module(vec![
        import_one("foo", "foo", "./mod"),
        import_one("bar", "bar", "./mod"),
        export_one("foo", "foo"),
        export_one("bar", "bar"),
    ]);
    assert_eq!(canonicalize(input), expected);
}

// import "./mod";
//   => (dropped entirely)
#[test]
fn test_side_effects() {
    let input = module(vec![Stmt::Import { specifiers: vec![], source: s("./mod") }]);
    let expected = module(vec![]);
    assert_eq!(canonicalize(input), expected);
}

// export * from "./mod";
//   => unchanged
#[test]
fn export_expand_test_export_all() {
    let input = module(vec![export_all("./mod")]);
    let expected = module(vec![export_all("./mod")]);
    assert_eq!(canonicalize(input), expected);
}

// import * as Mod from "./mod";
//   => unchanged
#[test]
fn test_import_name() {
    let input = module(vec![Stmt::Import {
        specifiers: vec![ImportSpecifier::Namespace { local: s("Mod") }],
        source: s("./mod"),
    }]);
    let expected = module(vec![Stmt::Import {
        specifiers: vec![ImportSpecifier::Namespace { local: s("Mod") }],
        source: s("./mod"),
    }]);
    assert_eq!(canonicalize(input), expected);
}

// const foo = {a: 1, b: 2};
// export const { a: fooA, b: fooB } = foo;
//   =>
// const foo = {a: 1, b: 2};
// const { a: fooA, b: fooB } = foo;
// export { fooA };
// export { fooB };
fn foo_ab_pattern() -> Pattern {
    Pattern::Object {
        props: vec![
            PatternProp { key: s("a"), binding: Some(s("fooA")) },
            PatternProp { key: s("b"), binding: Some(s("fooB")) },
        ],
    }
}

#[test]
fn test_export_obj_pattern() {
    let input = module(vec![
        const_var("foo", "{a: 1, b: 2}", &[]),
        Stmt::ExportNamed {
            decl: Some(Decl::Var {
                kind: VarKind::Const,
                declarators: vec![Declarator {
                    pattern: foo_ab_pattern(),
                    init: Some(expr("foo", &["foo"])),
                }],
            }),
            specifiers: vec![],
            source: None,
        },
    ]);
    let expected = module(vec![
        const_var("foo", "{a: 1, b: 2}", &[]),
        Stmt::Decl {
            decl: Decl::Var {
                kind: VarKind::Const,
                declarators: vec![Declarator {
                    pattern: foo_ab_pattern(),
                    init: Some(expr("foo", &["foo"])),
                }],
            },
        },
        export_one("fooA", "fooA"),
        export_one("fooB", "fooB"),
    ]);
    assert_eq!(canonicalize(input), expected);
}

// A generated default-export name must not collide with an existing
// binding: with `_export` taken, the allocator extends the seed.
#[test]
fn test_fresh_name_avoids_collision() {
    let input = module(vec![
        const_var("_export", "1", &[]),
        Stmt::ExportDefault { decl: DefaultDecl::ObjectLit { value: expr("{}", &[]) } },
    ]);
    let result = canonicalize(input);
    assert_eq!(result.body.len(), 3);
    match &result.body[1] {
        Stmt::Decl { decl: Decl::Var { declarators, .. } } => match &declarators[0].pattern {
            Pattern::Ident { name } => {
                assert_ne!(name, "_export");
                assert_eq!(name, "_export_");
            },
            other => panic!("unexpected pattern {:?}", other),
        },
        other => panic!("unexpected statement {:?}", other),
    }
}

// export default (arrow function or any other expression) is an
// unimplemented shape: a fatal error naming the file, never silent.
#[test]
fn test_export_default_arrow_fails() {
    let input = module(vec![Stmt::ExportDefault {
        decl: DefaultDecl::Other { value: expr("() => {}", &[]) },
    }]);
    let err = canonicalize_err(input);
    assert_eq!(err.filename, "source.js");
    assert_eq!(err.construct, UnsupportedConstruct::DefaultExportExpression);
}

// Exporting a variable bound by an unsupported pattern (array, nested,
// rest) is a fatal error.
#[test]
fn test_export_array_pattern_fails() {
    let input = module(vec![Stmt::ExportNamed {
        decl: Some(Decl::Var {
            kind: VarKind::Const,
            declarators: vec![Declarator {
                pattern: Pattern::Other { code: s("[a, b]") },
                init: Some(expr("pair", &["pair"])),
            }],
        }),
        specifiers: vec![],
        source: None,
    }]);
    let err = canonicalize_err(input);
    assert_eq!(err.construct, UnsupportedConstruct::ExportedBindingPattern);
}

// Exporting an object pattern with a non-identifier property value is
// a fatal error.
#[test]
fn test_export_nested_pattern_property_fails() {
    let input = module(vec![Stmt::ExportNamed {
        decl: Some(Decl::Var {
            kind: VarKind::Const,
            declarators: vec![Declarator {
                pattern: Pattern::Object {
                    props: vec![PatternProp { key: s("a"), binding: None }],
                },
                init: Some(expr("foo", &["foo"])),
            }],
        }),
        specifiers: vec![],
        source: None,
    }]);
    let err = canonicalize_err(input);
    assert_eq!(err.construct, UnsupportedConstruct::ExportedPatternProperty);
}

// Canonicalization is idempotent: a second run returns its input
// unchanged.
#[test]
fn test_canonicalize_idempotent() {
    let input = module(vec![
        Stmt::Import {
            specifiers: vec![
                ImportSpecifier::Default { local: s("d") },
                ImportSpecifier::Named { imported: s("foo"), local: s("foo") },
            ],
            source: s("./mod"),
        },
        Stmt::ExportDefault { decl: DefaultDecl::Func { name: None, body: expr("{}", &[]) } },
        export_from(&[("bar", "bar")], "./bar"),
        export_all("./rest"),
    ]);
    let once = canonicalize(input);
    let twice = canonicalize(native_shaker::ast::clone_module(&once));
    assert_eq!(twice, once);
}

// An empty module canonicalizes to an empty module.
#[test]
fn test_empty_module() {
    let input = module(vec![]);
    let expected = module(vec![]);
    assert_eq!(canonicalize(input), expected);
}

// import d, * as ns from "./m";
//   =>
// import { default as d } from "./m";
// import * as ns from "./m";
#[test]
fn test_mixed_import_splits_per_specifier() {
    let input = module(vec![Stmt::Import {
        specifiers: vec![
            ImportSpecifier::Default { local: s("d") },
            ImportSpecifier::Namespace { local: s("ns") },
        ],
        source: s("./m"),
    }]);
    let expected = module(vec![
        import_one("default", "d", "./m"),
        Stmt::Import {
            specifiers: vec![ImportSpecifier::Namespace { local: s("ns") }],
            source: s("./m"),
        },
    ]);
    assert_eq!(canonicalize(input), expected);
}
