use cjs_lexer::ast::{AssignOp, Expr, MemberProp, ModuleItem, Prop, PropKey};
use cjs_lexer::resolve::resolve;

fn ident(name: &str) -> Expr {
    Expr::Ident(name.to_string())
}

fn member(obj: Expr, name: &str) -> Expr {
    Expr::Member(Box::new(obj), MemberProp::Name(name.to_string()))
}

fn module_exports() -> Expr {
    member(ident("module"), "exports")
}

fn assign_stmt(target: Expr, value: Expr) -> ModuleItem {
    ModuleItem::Stmt(Expr::Assign(AssignOp::Plain, Box::new(target), Box::new(value)))
}

fn require_call(specifier: &str) -> Expr {
    Expr::Call(
        Box::new(ident("require")),
        vec![Expr::StrLit(specifier.to_string())],
    )
}

fn define_property(target: Expr, name_arg: Expr) -> ModuleItem {
    ModuleItem::Stmt(Expr::Call(
        Box::new(member(ident("Object"), "defineProperty")),
        vec![target, name_arg, Expr::Object(vec![])],
    ))
}

fn strings(xs: &[&str]) -> Vec<String> {
    xs.iter().map(|s| s.to_string()).collect()
}

// `module.exports.foo = 1; module.exports.bar = 2;`
#[test]
fn member_assignments_on_module_exports() {
    let items = vec![
        assign_stmt(member(module_exports(), "foo"), Expr::Other),
        assign_stmt(member(module_exports(), "bar"), Expr::Other),
    ];
    let r = resolve(&items);
    assert_eq!(r.export_names, strings(&["foo", "bar"]));
    assert_eq!(r.reexports, strings(&[]));
}

// `module.exports = require('./other');`
#[test]
fn whole_module_reassignment_to_require() {
    let items = vec![assign_stmt(module_exports(), require_call("./other"))];
    let r = resolve(&items);
    assert_eq!(r.export_names, strings(&[]));
    assert_eq!(r.reexports, strings(&["./other"]));
}

// `module.exports = { a: 1, b: function(){}, c };`
#[test]
fn whole_module_reassignment_to_object_literal() {
    let items = vec![assign_stmt(
        module_exports(),
        Expr::Object(vec![
            Prop::Named(PropKey::Ident("a".to_string())),
            Prop::Named(PropKey::Ident("b".to_string())),
            Prop::Shorthand("c".to_string()),
        ]),
    )];
    let r = resolve(&items);
    assert_eq!(r.export_names, strings(&["a", "b", "c"]));
    assert_eq!(r.reexports, strings(&[]));
}

// `export const a = 1; exports.b = 2;` (mixed dialect)
#[test]
fn mixed_esm_and_cjs_dialects() {
    let items = vec![
        ModuleItem::ExportDecl(strings(&["a"])),
        assign_stmt(member(ident("exports"), "b"), Expr::Other),
    ];
    let r = resolve(&items);
    assert_eq!(r.export_names, strings(&["a", "b"]));
    assert_eq!(r.reexports, strings(&[]));
}

// `Object.defineProperty(exports, '__esModule', {value:true}); exports.x = 1;`
#[test]
fn define_property_and_member_assignment() {
    let items = vec![
        define_property(ident("exports"), Expr::StrLit("__esModule".to_string())),
        assign_stmt(member(ident("exports"), "x"), Expr::Other),
    ];
    let r = resolve(&items);
    assert_eq!(r.export_names, strings(&["__esModule", "x"]));
    assert_eq!(r.reexports, strings(&[]));
}

#[test]
fn define_property_on_module_exports() {
    let items = vec![define_property(
        module_exports(),
        Expr::StrLit("ready".to_string()),
    )];
    let r = resolve(&items);
    assert_eq!(r.export_names, strings(&["ready"]));
}

#[test]
fn define_property_with_computed_name_is_skipped() {
    let items = vec![define_property(ident("exports"), ident("key"))];
    let r = resolve(&items);
    assert_eq!(r.export_names, strings(&[]));
    assert_eq!(r.reexports, strings(&[]));
}

#[test]
fn exports_object_literal_counts_too() {
    let items = vec![assign_stmt(
        ident("exports"),
        Expr::Object(vec![Prop::Named(PropKey::StrLit("lit".to_string()))]),
    )];
    let r = resolve(&items);
    assert_eq!(r.export_names, strings(&["lit"]));
}

#[test]
fn spread_of_require_forwards_specifier() {
    let items = vec![assign_stmt(
        module_exports(),
        Expr::Object(vec![
            Prop::Named(PropKey::Ident("a".to_string())),
            Prop::Spread(Box::new(require_call("./dep"))),
        ]),
    )];
    let r = resolve(&items);
    assert_eq!(r.export_names, strings(&["a"]));
    assert_eq!(r.reexports, strings(&["./dep"]));
}

#[test]
fn ambiguous_spread_is_skipped() {
    let items = vec![assign_stmt(
        module_exports(),
        Expr::Object(vec![
            Prop::Spread(Box::new(ident("mixin"))),
            Prop::Named(PropKey::Ident("a".to_string())),
        ]),
    )];
    let r = resolve(&items);
    assert_eq!(r.export_names, strings(&["a"]));
    assert_eq!(r.reexports, strings(&[]));
}

#[test]
fn computed_keys_are_skipped() {
    let items = vec![assign_stmt(
        module_exports(),
        Expr::Object(vec![
            Prop::Named(PropKey::Computed),
            Prop::Named(PropKey::Ident("kept".to_string())),
        ]),
    )];
    let r = resolve(&items);
    assert_eq!(r.export_names, strings(&["kept"]));
}

#[test]
fn identifier_and_string_keys_deduplicate_by_text() {
    let items = vec![assign_stmt(
        module_exports(),
        Expr::Object(vec![
            Prop::Named(PropKey::Ident("a".to_string())),
            Prop::Named(PropKey::StrLit("a".to_string())),
            Prop::Shorthand("a".to_string()),
            Prop::Named(PropKey::Ident("b".to_string())),
        ]),
    )];
    let r = resolve(&items);
    assert_eq!(r.export_names, strings(&["a", "b"]));
}

#[test]
fn compound_assignment_is_skipped() {
    let items = vec![ModuleItem::Stmt(Expr::Assign(
        AssignOp::Compound,
        Box::new(member(ident("exports"), "a")),
        Box::new(Expr::Other),
    ))];
    let r = resolve(&items);
    assert_eq!(r.export_names, strings(&[]));
}

#[test]
fn computed_member_assignment_is_skipped() {
    let items = vec![ModuleItem::Stmt(Expr::Assign(
        AssignOp::Plain,
        Box::new(Expr::Member(Box::new(ident("exports")), MemberProp::Computed)),
        Box::new(Expr::Other),
    ))];
    let r = resolve(&items);
    assert_eq!(r.export_names, strings(&[]));
}

#[test]
fn require_with_wrong_arity_is_not_a_reexport() {
    let two_args = Expr::Call(
        Box::new(ident("require")),
        vec![
            Expr::StrLit("./a".to_string()),
            Expr::StrLit("./b".to_string()),
        ],
    );
    let items = vec![assign_stmt(module_exports(), two_args)];
    let r = resolve(&items);
    assert_eq!(r.export_names, strings(&[]));
    assert_eq!(r.reexports, strings(&[]));
}

#[test]
fn reassigning_bare_exports_to_require_forwards_nothing() {
    let items = vec![assign_stmt(ident("exports"), require_call("./other"))];
    let r = resolve(&items);
    assert_eq!(r.export_names, strings(&[]));
    assert_eq!(r.reexports, strings(&[]));
}

#[test]
fn native_esm_items() {
    let items = vec![
        ModuleItem::ExportDecl(strings(&["f"])),
        ModuleItem::ExportNamed(strings(&["a", "c"])),
        ModuleItem::ExportDefault,
        ModuleItem::ExportStarFrom("./base".to_string()),
    ];
    let r = resolve(&items);
    assert_eq!(r.export_names, strings(&["f", "a", "c"]));
    assert_eq!(r.reexports, strings(&["./base"]));
}

#[test]
fn unmatched_statements_contribute_nothing() {
    let items = vec![
        ModuleItem::Other,
        ModuleItem::Stmt(Expr::Other),
        ModuleItem::Stmt(ident("exports")),
        assign_stmt(ident("somewhere"), Expr::Other),
    ];
    let r = resolve(&items);
    assert_eq!(r.export_names, strings(&[]));
    assert_eq!(r.reexports, strings(&[]));
}
