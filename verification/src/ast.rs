use vstd::prelude::*;

verus! {

/// How a member expression names its property: a fixed name (`x.foo`) or a
/// computed one (`x[e]`). The resolver only ever matches fixed names.
pub enum MemberProp {
    Name(String),
    Computed,
}

/// Whether an assignment is the plain `=` operator or a compound one
/// (`+=`, `||=`, ...). Only plain assignments produce exports.
pub enum AssignOp {
    Plain,
    Compound,
}

/// The key of an object-literal property, as written in source.
pub enum PropKey {
    Ident(String),
    StrLit(String),
    Computed,
}

/// One property of an object literal. Key-value pairs, methods and accessors
/// all carry their key as `Named`; `{ c }` is `Shorthand`; `{ ...e }` is
/// `Spread`.
pub enum Prop {
    Named(PropKey),
    Shorthand(String),
    Spread(Box<Expr>),
}

/// The expression forms the resolver distinguishes. Everything it never
/// inspects collapses to `Other`.
pub enum Expr {
    Ident(String),
    StrLit(String),
    Member(Box<Expr>, MemberProp),
    Call(Box<Expr>, Vec<Expr>),
    Object(Vec<Prop>),
    Assign(AssignOp, Box<Expr>, Box<Expr>),
    Other,
}

/// One top-level item of a module. Native ESM export declarations arrive
/// already reduced to the names or specifier they contribute; every
/// CommonJS idiom is an expression statement, kept structurally so the
/// resolver itself decides what it matches.
pub enum ModuleItem {
    /// `export const/let/var/function/class ...` — the declared binding names.
    ExportDecl(Vec<String>),
    /// `export { a, b as c }` — the exported (aliased) names.
    ExportNamed(Vec<String>),
    /// `export default ...` — contributes no named export.
    ExportDefault,
    /// `export * from 's'` or `export * as ns from 's'` — the specifier.
    ExportStarFrom(String),
    /// An expression statement at the top level of the module.
    Stmt(Expr),
    /// Any other top-level item (imports, declarations, control flow, ...).
    Other,
}

/// The resolver's result: export names and re-export specifiers, each
/// deduplicated and in first-seen source order.
pub struct Resolution {
    pub export_names: Vec<String>,
    pub reexports: Vec<String>,
}

/// A parse failure: a 1-based source position and a message. The resolver
/// never produces one; only the parsing front end does.
pub struct Diagnostic {
    pub line: usize,
    pub column: usize,
    pub message: String,
}

impl Diagnostic {
    /// A diagnostic always points at a real, 1-based position.
    pub open spec fn well_formed(&self) -> bool {
        self.line >= 1 && self.column >= 1
    }

    pub fn new(line: usize, column: usize, message: String) -> (r: Diagnostic)
        requires
            line >= 1,
            column >= 1,
        ensures
            r.well_formed(),
            r.line == line,
            r.column == column,
            r.message == message,
    {
        Diagnostic { line, column, message }
    }
}

} // verus!
