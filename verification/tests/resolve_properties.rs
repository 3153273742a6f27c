use cjs_lexer::ast::{AssignOp, Expr, MemberProp, ModuleItem};
use cjs_lexer::resolve::resolve;

fn export_member(name: &str) -> ModuleItem {
    ModuleItem::Stmt(Expr::Assign(
        AssignOp::Plain,
        Box::new(Expr::Member(
            Box::new(Expr::Ident("exports".to_string())),
            MemberProp::Name(name.to_string()),
        )),
        Box::new(Expr::Other),
    ))
}

#[test]
fn resolving_twice_yields_identical_results() {
    let items = vec![
        export_member("a"),
        export_member("b"),
        ModuleItem::ExportStarFrom("./base".to_string()),
        export_member("a"),
    ];
    let first = resolve(&items);
    let second = resolve(&items);
    assert_eq!(first.export_names, second.export_names);
    assert_eq!(first.reexports, second.reexports);
}

#[test]
fn equal_item_sequences_resolve_identically() {
    let build = || {
        vec![
            export_member("x"),
            ModuleItem::ExportDecl(vec!["y".to_string()]),
            ModuleItem::ExportStarFrom("./dep".to_string()),
        ]
    };
    let r1 = resolve(&build());
    let r2 = resolve(&build());
    assert_eq!(r1.export_names, r2.export_names);
    assert_eq!(r1.reexports, r2.reexports);
}

#[test]
fn repeated_names_are_deduplicated() {
    let items = vec![
        export_member("a"),
        export_member("b"),
        export_member("a"),
        export_member("b"),
        export_member("a"),
    ];
    let r = resolve(&items);
    assert_eq!(r.export_names, vec!["a".to_string(), "b".to_string()]);
    for i in 0..r.export_names.len() {
        for j in (i + 1)..r.export_names.len() {
            assert_ne!(r.export_names[i], r.export_names[j]);
        }
    }
}

#[test]
fn repeated_specifiers_are_deduplicated() {
    let items = vec![
        ModuleItem::ExportStarFrom("./a".to_string()),
        ModuleItem::ExportStarFrom("./b".to_string()),
        ModuleItem::ExportStarFrom("./a".to_string()),
    ];
    let r = resolve(&items);
    assert_eq!(r.reexports, vec!["./a".to_string(), "./b".to_string()]);
}

#[test]
fn first_seen_order_is_preserved() {
    let items = vec![
        export_member("zeta"),
        export_member("alpha"),
        export_member("zeta"),
        export_member("mid"),
        export_member("alpha"),
    ];
    let r = resolve(&items);
    assert_eq!(
        r.export_names,
        vec!["zeta".to_string(), "alpha".to_string(), "mid".to_string()]
    );
}

#[test]
fn empty_module_resolves_to_empty_results() {
    let items: Vec<ModuleItem> = Vec::new();
    let r = resolve(&items);
    assert!(r.export_names.is_empty());
    assert!(r.reexports.is_empty());
}

#[test]
fn diagnostic_carries_its_position_and_message() {
    let d = cjs_lexer::ast::Diagnostic::new(3, 7, "unexpected token".to_string());
    assert_eq!(d.line, 3);
    assert_eq!(d.column, 7);
    assert_eq!(d.message, "unexpected token");
}
