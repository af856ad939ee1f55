//! Transformation options as the host's binding surface hands them
//! over.  Translating them into a concrete transformer configuration is
//! the host's business; the core only carries them through.

use vstd::prelude::*;

verus! {

/// Configure how TSX and JSX are transformed.
#[derive(Debug, PartialEq, Eq)]
pub struct ReactBindingOptions {}

/// Options of the arrow-function lowering.
#[derive(Debug, PartialEq, Eq)]
pub struct ArrowFunctionsBindingOptions {
    /// Wrap the generated function in `.bind(this)`, add a runtime
    /// instantiation check, and name the arrow functions.
    pub spec_compliant: Option<bool>,
}

/// Options of the ES2015 lowering.
#[derive(Debug, PartialEq, Eq)]
pub struct ES2015BindingOptions {
    /// Transform arrow functions into function expressions.
    pub arrow_function: Option<ArrowFunctionsBindingOptions>,
}

/// How TypeScript import/export declaration extensions are rewritten:
/// a plain switch (`true` meaning `rewrite`), or a mode named by a
/// string (`rewrite` or `remove`).
#[derive(Debug, PartialEq, Eq)]
pub enum RewriteExtensionsSetting {
    Switch(bool),
    Mode(String),
}

/// Configure how TypeScript is transformed.
#[derive(Debug, PartialEq, Eq)]
pub struct TypeScriptBindingOptions {
    pub jsx_pragma: Option<String>,
    pub jsx_pragma_frag: Option<String>,
    pub only_remove_type_imports: Option<bool>,
    pub allow_namespaces: Option<bool>,
    pub allow_declare_fields: Option<bool>,
    /// Also generate a declaration file for TypeScript files.
    pub declaration: Option<bool>,
    /// Rewrite or remove TypeScript import/export declaration
    /// extensions; absent means leaving them unchanged.
    pub rewrite_import_extensions: Option<RewriteExtensionsSetting>,
}

/// Options for transforming a JavaScript or TypeScript file.
#[derive(Debug, PartialEq, Eq)]
pub struct TransformOptions {
    /// The current working directory, used to resolve relative paths in
    /// other options.
    pub cwd: Option<String>,
    /// Configure how TypeScript is transformed.
    pub typescript: Option<TypeScriptBindingOptions>,
    /// Configure how TSX and JSX are transformed.
    pub react: Option<ReactBindingOptions>,
}

} // verus!
