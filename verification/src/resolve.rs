use vstd::prelude::*;

use crate::ast::{AssignOp, Expr, MemberProp, ModuleItem, Prop, PropKey, Resolution};

verus! {

// ---------------------------------------------------------------------------
// What one top-level item contributes, as mathematics.
//
// Each spec function below mirrors one idiom of the resolution pass: native
// ESM export declarations, whole-module reassignment to `require(...)` or to
// an object literal, member assignment to the exports object, and
// `Object.defineProperty` on it. A construct outside these shapes contributes
// nothing — resolution never fails, it only under-reports.
// ---------------------------------------------------------------------------

/// The bare identifier `exports`.
pub open spec fn is_exports_ref(e: Expr) -> bool {
    e matches Expr::Ident(s) && s@ == "exports"@
}

/// The member expression `module.exports`.
pub open spec fn is_module_exports_ref(e: Expr) -> bool {
    &&& e matches Expr::Member(obj, prop)
    &&& *obj matches Expr::Ident(m) && m@ == "module"@
    &&& prop matches MemberProp::Name(n) && n@ == "exports"@
}

/// A reference to the module's export object: `exports` or `module.exports`.
pub open spec fn is_exports_obj(e: Expr) -> bool {
    is_exports_ref(e) || is_module_exports_ref(e)
}

/// The specifier of a direct call to the bare identifier `require` with
/// exactly one string-literal argument, if `e` is such a call.
pub open spec fn require_specifier(e: Expr) -> Option<Seq<char>> {
    match e {
        Expr::Call(callee, args) => match *callee {
            Expr::Ident(f) => if f@ == "require"@ && args@.len() == 1 {
                match args@[0] {
                    Expr::StrLit(s) => Some(s@),
                    _ => None,
                }
            } else {
                None
            },
            _ => None,
        },
        _ => None,
    }
}

/// The export name contributed by one property of an object literal
/// assigned to the exports object: the key text of an identifier,
/// string-literal or shorthand key; nothing for computed keys or spreads.
pub open spec fn prop_export_name(p: Prop) -> Option<Seq<char>> {
    match p {
        Prop::Named(PropKey::Ident(s)) => Some(s@),
        Prop::Named(PropKey::StrLit(s)) => Some(s@),
        Prop::Shorthand(s) => Some(s@),
        _ => None,
    }
}

/// The re-export specifier contributed by one property: only a spread whose
/// operand is provably a direct `require('spec')` call; any other spread is
/// skipped.
pub open spec fn prop_reexport(p: Prop) -> Option<Seq<char>> {
    match p {
        Prop::Spread(e) => require_specifier(*e),
        _ => None,
    }
}

/// An optional contribution as a sequence of zero or one entries.
pub open spec fn opt_entry(o: Option<Seq<char>>) -> Seq<Seq<char>> {
    match o {
        Some(s) => seq![s],
        None => Seq::empty(),
    }
}

/// Export names contributed by an object literal's properties, in literal
/// order.
pub open spec fn object_names(props: Seq<Prop>) -> Seq<Seq<char>>
    decreases props.len(),
{
    if props.len() == 0 {
        Seq::empty()
    } else {
        object_names(props.drop_last()) + opt_entry(prop_export_name(props.last()))
    }
}

/// Re-export specifiers contributed by an object literal's properties, in
/// literal order.
pub open spec fn object_reexports(props: Seq<Prop>) -> Seq<Seq<char>>
    decreases props.len(),
{
    if props.len() == 0 {
        Seq::empty()
    } else {
        object_reexports(props.drop_last()) + opt_entry(prop_reexport(props.last()))
    }
}

/// The name of a member assignment target `exports.NAME` or
/// `module.exports.NAME` with a fixed (non-computed) property name.
pub open spec fn member_export_name(t: Expr) -> Option<Seq<char>> {
    match t {
        Expr::Member(obj, prop) => if is_exports_obj(*obj) {
            match prop {
                MemberProp::Name(n) => Some(n@),
                MemberProp::Computed => None,
            }
        } else {
            None
        },
        _ => None,
    }
}

/// The name defined by `Object.defineProperty(exports, 'NAME', descriptor)`
/// or `Object.defineProperty(module.exports, 'NAME', descriptor)`: the callee
/// is the fixed member `Object.defineProperty`, there are exactly three
/// arguments, the first is the exports object and the second a string
/// literal. Computed or non-literal name arguments contribute nothing.
pub open spec fn define_property_name(callee: Expr, args: Seq<Expr>) -> Option<Seq<char>> {
    match callee {
        Expr::Member(obj, prop) => {
            if {
                &&& *obj matches Expr::Ident(o) && o@ == "Object"@
                &&& prop matches MemberProp::Name(m) && m@ == "defineProperty"@
                &&& args.len() == 3
                &&& is_exports_obj(args[0])
            } {
                match args[1] {
                    Expr::StrLit(n) => Some(n@),
                    _ => None,
                }
            } else {
                None
            }
        },
        _ => None,
    }
}

/// Export names contributed by one top-level expression statement.
pub open spec fn stmt_expr_names(e: Expr) -> Seq<Seq<char>> {
    match e {
        Expr::Assign(op, t, v) => {
            if op is Compound {
                Seq::empty()
            } else if is_exports_obj(*t) {
                match *v {
                    Expr::Object(props) => object_names(props@),
                    _ => Seq::empty(),
                }
            } else {
                opt_entry(member_export_name(*t))
            }
        },
        Expr::Call(callee, args) => opt_entry(define_property_name(*callee, args@)),
        _ => Seq::empty(),
    }
}

/// Re-export specifiers contributed by one top-level expression statement.
/// A whole-module reassignment `module.exports = require('spec')` forwards
/// `spec`; reassigning the bare `exports` binding to a require call forwards
/// nothing. An object literal assigned to either form contributes its
/// provable spread sources.
pub open spec fn stmt_expr_reexports(e: Expr) -> Seq<Seq<char>> {
    match e {
        Expr::Assign(op, t, v) => {
            if op is Compound {
                Seq::empty()
            } else if is_module_exports_ref(*t) && require_specifier(*v) is Some {
                opt_entry(require_specifier(*v))
            } else if is_exports_obj(*t) {
                match *v {
                    Expr::Object(props) => object_reexports(props@),
                    _ => Seq::empty(),
                }
            } else {
                Seq::empty()
            }
        },
        _ => Seq::empty(),
    }
}

/// Export names contributed by one top-level item.
pub open spec fn item_names(it: ModuleItem) -> Seq<Seq<char>> {
    match it {
        ModuleItem::ExportDecl(ns) => ns.deep_view(),
        ModuleItem::ExportNamed(ns) => ns.deep_view(),
        ModuleItem::ExportDefault => Seq::empty(),
        ModuleItem::ExportStarFrom(_) => Seq::empty(),
        ModuleItem::Stmt(e) => stmt_expr_names(e),
        ModuleItem::Other => Seq::empty(),
    }
}

/// Re-export specifiers contributed by one top-level item.
pub open spec fn item_reexports(it: ModuleItem) -> Seq<Seq<char>> {
    match it {
        ModuleItem::ExportStarFrom(s) => seq![s@],
        ModuleItem::Stmt(e) => stmt_expr_reexports(e),
        _ => Seq::empty(),
    }
}

/// All export names a module's top-level items contribute, in source order,
/// duplicates included.
pub open spec fn module_names(items: Seq<ModuleItem>) -> Seq<Seq<char>>
    decreases items.len(),
{
    if items.len() == 0 {
        Seq::empty()
    } else {
        module_names(items.drop_last()) + item_names(items.last())
    }
}

/// All re-export specifiers a module's top-level items contribute, in source
/// order, duplicates included.
pub open spec fn module_reexports(items: Seq<ModuleItem>) -> Seq<Seq<char>>
    decreases items.len(),
{
    if items.len() == 0 {
        Seq::empty()
    } else {
        module_reexports(items.drop_last()) + item_reexports(items.last())
    }
}

/// Deduplication by value, keeping the first occurrence of each entry and
/// preserving their order.
pub open spec fn dedup_first(s: Seq<Seq<char>>) -> Seq<Seq<char>>
    decreases s.len(),
{
    if s.len() == 0 {
        Seq::empty()
    } else {
        let prefix = dedup_first(s.drop_last());
        if prefix.contains(s.last()) {
            prefix
        } else {
            prefix.push(s.last())
        }
    }
}

/// Appending one entry to an already-deduplicated accumulator.
pub open spec fn dedup_push(acc: Seq<Seq<char>>, x: Seq<char>) -> Seq<Seq<char>> {
    if acc.contains(x) {
        acc
    } else {
        acc.push(x)
    }
}

/// Appending a batch of entries to an already-deduplicated accumulator.
pub open spec fn dedup_append(acc: Seq<Seq<char>>, xs: Seq<Seq<char>>) -> Seq<Seq<char>>
    decreases xs.len(),
{
    if xs.len() == 0 {
        acc
    } else {
        dedup_push(dedup_append(acc, xs.drop_last()), xs.last())
    }
}

/// The export names the resolution pass yields for a module: the contributed
/// names, deduplicated, first occurrence first.
pub open spec fn resolved_names(items: Seq<ModuleItem>) -> Seq<Seq<char>> {
    dedup_first(module_names(items))
}

/// The re-export specifiers the resolution pass yields for a module.
pub open spec fn resolved_reexports(items: Seq<ModuleItem>) -> Seq<Seq<char>> {
    dedup_first(module_reexports(items))
}

// ---------------------------------------------------------------------------
// Small facts about sequences of string views.
// ---------------------------------------------------------------------------

proof fn lemma_deep_push(pre: Vec<String>, post: Vec<String>, x: String)
    requires
        post@ == pre@.push(x),
    ensures
        post.deep_view() == pre.deep_view().push(x@),
{
    assert(post.deep_view() =~= pre.deep_view().push(x@));
}

proof fn lemma_take_one_more<A>(s: Seq<A>, i: int)
    requires
        0 <= i < s.len(),
    ensures
        s.take(i + 1).drop_last() == s.take(i),
        s.take(i + 1).last() == s[i],
{
    assert(s.take(i + 1).drop_last() =~= s.take(i));
}

proof fn lemma_dedup_first_push(s: Seq<Seq<char>>, x: Seq<char>)
    ensures
        dedup_first(s.push(x)) == dedup_push(dedup_first(s), x),
{
    assert(s.push(x).drop_last() =~= s);
    assert(s.push(x).last() == x);
}

proof fn lemma_dedup_append_push(acc: Seq<Seq<char>>, xs: Seq<Seq<char>>, x: Seq<char>)
    ensures
        dedup_append(acc, xs.push(x)) == dedup_push(dedup_append(acc, xs), x),
{
    assert(xs.push(x).drop_last() =~= xs);
    assert(xs.push(x).last() == x);
}

/// Processing a batch entry by entry against a deduplicated accumulator is
/// the same as deduplicating the concatenation in one pass.
proof fn lemma_dedup_first_append(s: Seq<Seq<char>>, xs: Seq<Seq<char>>)
    ensures
        dedup_first(s + xs) == dedup_append(dedup_first(s), xs),
    decreases xs.len(),
{
    if xs.len() == 0 {
        assert(s + xs =~= s);
    } else {
        lemma_dedup_first_append(s, xs.drop_last());
        assert(s + xs =~= (s + xs.drop_last()).push(xs.last()));
        lemma_dedup_first_push(s + xs.drop_last(), xs.last());
        lemma_dedup_append_push(dedup_first(s), xs.drop_last(), xs.last());
        assert(xs.drop_last().push(xs.last()) =~= xs);
    }
}

// ---------------------------------------------------------------------------
// Executable resolution.
// ---------------------------------------------------------------------------

/// Exact comparison of a string value against an expected literal.
fn str_value_is(s: &String, lit: &str) -> (r: bool)
    ensures
        r == (s@ == lit@),
{
    *s == String::from_str(lit)
}

fn vec_contains(v: &Vec<String>, s: &String) -> (r: bool)
    ensures
        r == v.deep_view().contains(s@),
{
    let mut i: usize = 0;
    while i < v.len()
        invariant
            i <= v.len(),
            forall|j: int| 0 <= j < i ==> v.deep_view()[j] != s@,
        decreases v.len() - i,
    {
        if v[i] == *s {
            assert(v.deep_view()[i as int] == s@);
            return true;
        }
        i += 1;
    }
    false
}

/// Appends `s` unless an equal entry is already present.
fn push_unique(out: &mut Vec<String>, s: String)
    ensures
        final(out).deep_view() == dedup_push(old(out).deep_view(), s@),
{
    if !vec_contains(out, &s) {
        let ghost pre = *out;
        out.push(s);
        proof {
            lemma_deep_push(pre, *out, s);
        }
    }
}

/// Appends each entry of `xs` in order, skipping values already present.
fn push_all_unique(out: &mut Vec<String>, xs: Vec<String>)
    ensures
        final(out).deep_view() == dedup_append(old(out).deep_view(), xs.deep_view()),
{
    let mut j: usize = 0;
    while j < xs.len()
        invariant
            j <= xs.len(),
            out.deep_view() == dedup_append(old(out).deep_view(), xs.deep_view().take(j as int)),
        decreases xs.len() - j,
    {
        let x = xs[j].clone();
        assert(x@ == xs.deep_view()[j as int]);
        push_unique(out, x);
        proof {
            lemma_take_one_more(xs.deep_view(), j as int);
            lemma_dedup_append_push(
                old(out).deep_view(),
                xs.deep_view().take(j as int),
                xs.deep_view()[j as int],
            );
            assert(xs.deep_view().take(j as int).push(xs.deep_view()[j as int]) =~= xs.deep_view()
                .take(j + 1));
        }
        j += 1;
    }
    proof {
        assert(xs.deep_view().take(xs.len() as int) =~= xs.deep_view());
    }
}

/// A copy of a vector of names with an unchanged view.
fn clone_names(ns: &Vec<String>) -> (r: Vec<String>)
    ensures
        r.deep_view() == ns.deep_view(),
{
    let r = ns.clone();
    proof {
        assert forall|i: int| 0 <= i < ns@.len() implies r@[i]@ == ns@[i]@ by {
            assert(cloned::<String>(ns@[i], r@[i]));
        }
        assert(r.deep_view() =~= ns.deep_view());
    }
    r
}

fn is_exports_ref_x(e: &Expr) -> (r: bool)
    ensures
        r == is_exports_ref(*e),
{
    match e {
        Expr::Ident(s) => str_value_is(s, "exports"),
        _ => false,
    }
}

fn is_module_exports_ref_x(e: &Expr) -> (r: bool)
    ensures
        r == is_module_exports_ref(*e),
{
    match e {
        Expr::Member(obj, prop) => {
            let obj_matches = match &**obj {
                Expr::Ident(m) => str_value_is(m, "module"),
                _ => false,
            };
            let prop_matches = match prop {
                MemberProp::Name(n) => str_value_is(n, "exports"),
                MemberProp::Computed => false,
            };
            obj_matches && prop_matches
        },
        _ => false,
    }
}

fn is_exports_obj_x(e: &Expr) -> (r: bool)
    ensures
        r == is_exports_obj(*e),
{
    is_exports_ref_x(e) || is_module_exports_ref_x(e)
}

fn require_specifier_x(e: &Expr) -> (r: Option<String>)
    ensures
        r.deep_view() == require_specifier(*e),
{
    match e {
        Expr::Call(callee, args) => match &**callee {
            Expr::Ident(f) => {
                if str_value_is(f, "require") && args.len() == 1 {
                    match &args[0] {
                        Expr::StrLit(s) => Some(s.clone()),
                        _ => None,
                    }
                } else {
                    None
                }
            },
            _ => None,
        },
        _ => None,
    }
}

fn member_export_name_x(t: &Expr) -> (r: Option<String>)
    ensures
        r.deep_view() == member_export_name(*t),
{
    match t {
        Expr::Member(obj, prop) => {
            if is_exports_obj_x(&**obj) {
                match prop {
                    MemberProp::Name(n) => Some(n.clone()),
                    MemberProp::Computed => None,
                }
            } else {
                None
            }
        },
        _ => None,
    }
}

fn define_property_name_x(callee: &Expr, args: &Vec<Expr>) -> (r: Option<String>)
    ensures
        r.deep_view() == define_property_name(*callee, args@),
{
    match callee {
        Expr::Member(obj, prop) => {
            let obj_matches = match &**obj {
                Expr::Ident(o) => str_value_is(o, "Object"),
                _ => false,
            };
            let prop_matches = match prop {
                MemberProp::Name(m) => str_value_is(m, "defineProperty"),
                MemberProp::Computed => false,
            };
            if obj_matches && prop_matches && args.len() == 3 && is_exports_obj_x(&args[0]) {
                match &args[1] {
                    Expr::StrLit(n) => Some(n.clone()),
                    _ => None,
                }
            } else {
                None
            }
        },
        _ => None,
    }
}

/// A vector holding at most one name.
fn opt_vec(o: Option<String>) -> (r: Vec<String>)
    ensures
        r.deep_view() == opt_entry(o.deep_view()),
{
    let mut out: Vec<String> = Vec::new();
    match o {
        Some(s) => {
            let ghost pre = out;
            out.push(s);
            proof {
                lemma_deep_push(pre, out, s);
                assert(out.deep_view() =~= opt_entry(Some(s@)));
            }
        },
        None => {
            assert(out.deep_view() =~= Seq::<Seq<char>>::empty());
        },
    }
    out
}

fn object_names_x(props: &Vec<Prop>) -> (r: Vec<String>)
    ensures
        r.deep_view() == object_names(props@),
{
    let mut out: Vec<String> = Vec::new();
    let mut i: usize = 0;
    assert(out.deep_view() =~= object_names(props@.take(0)));
    while i < props.len()
        invariant
            i <= props.len(),
            out.deep_view() == object_names(props@.take(i as int)),
        decreases props.len() - i,
    {
        let ghost pre = out;
        match &props[i] {
            Prop::Named(PropKey::Ident(s)) => out.push(s.clone()),
            Prop::Named(PropKey::StrLit(s)) => out.push(s.clone()),
            Prop::Shorthand(s) => out.push(s.clone()),
            _ => {},
        }
        proof {
            lemma_take_one_more(props@, i as int);
            match prop_export_name(props@[i as int]) {
                Some(n) => {
                    lemma_deep_push(pre, out, out@.last());
                    assert(out.deep_view() =~= pre.deep_view() + opt_entry(Some(n)));
                },
                None => {
                    assert(out.deep_view() =~= pre.deep_view()
                        + opt_entry(prop_export_name(props@[i as int])));
                },
            }
        }
        i += 1;
    }
    proof {
        assert(props@.take(props@.len() as int) =~= props@);
    }
    out
}

fn object_reexports_x(props: &Vec<Prop>) -> (r: Vec<String>)
    ensures
        r.deep_view() == object_reexports(props@),
{
    let mut out: Vec<String> = Vec::new();
    let mut i: usize = 0;
    assert(out.deep_view() =~= object_reexports(props@.take(0)));
    while i < props.len()
        invariant
            i <= props.len(),
            out.deep_view() == object_reexports(props@.take(i as int)),
        decreases props.len() - i,
    {
        let ghost pre = out;
        match &props[i] {
            Prop::Spread(e) => {
                match require_specifier_x(&**e) {
                    Some(s) => out.push(s),
                    None => {},
                }
            },
            _ => {},
        }
        proof {
            lemma_take_one_more(props@, i as int);
            match prop_reexport(props@[i as int]) {
                Some(n) => {
                    lemma_deep_push(pre, out, out@.last());
                    assert(out.deep_view() =~= pre.deep_view() + opt_entry(Some(n)));
                },
                None => {
                    assert(out.deep_view() =~= pre.deep_view()
                        + opt_entry(prop_reexport(props@[i as int])));
                },
            }
        }
        i += 1;
    }
    proof {
        assert(props@.take(props@.len() as int) =~= props@);
    }
    out
}

fn stmt_expr_names_x(e: &Expr) -> (r: Vec<String>)
    ensures
        r.deep_view() == stmt_expr_names(*e),
{
    match e {
        Expr::Assign(op, t, v) => match op {
            AssignOp::Plain => {
                if is_exports_obj_x(&**t) {
                    match &**v {
                        Expr::Object(props) => object_names_x(props),
                        _ => Vec::new(),
                    }
                } else {
                    opt_vec(member_export_name_x(&**t))
                }
            },
            AssignOp::Compound => Vec::new(),
        },
        Expr::Call(callee, args) => opt_vec(define_property_name_x(&**callee, args)),
        _ => Vec::new(),
    }
}

fn stmt_expr_reexports_x(e: &Expr) -> (r: Vec<String>)
    ensures
        r.deep_view() == stmt_expr_reexports(*e),
{
    match e {
        Expr::Assign(op, t, v) => match op {
            AssignOp::Plain => {
                let req = require_specifier_x(&**v);
                if is_module_exports_ref_x(&**t) && req.is_some() {
                    opt_vec(req)
                } else if is_exports_obj_x(&**t) {
                    match &**v {
                        Expr::Object(props) => object_reexports_x(props),
                        _ => Vec::new(),
                    }
                } else {
                    Vec::new()
                }
            },
            AssignOp::Compound => Vec::new(),
        },
        _ => Vec::new(),
    }
}

fn item_names_x(it: &ModuleItem) -> (r: Vec<String>)
    ensures
        r.deep_view() == item_names(*it),
{
    match it {
        ModuleItem::ExportDecl(ns) => clone_names(ns),
        ModuleItem::ExportNamed(ns) => clone_names(ns),
        ModuleItem::Stmt(e) => stmt_expr_names_x(e),
        _ => Vec::new(),
    }
}

fn item_reexports_x(it: &ModuleItem) -> (r: Vec<String>)
    ensures
        r.deep_view() == item_reexports(*it),
{
    match it {
        ModuleItem::ExportStarFrom(s) => {
            let mut out: Vec<String> = Vec::new();
            let ghost pre = out;
            out.push(s.clone());
            proof {
                lemma_deep_push(pre, out, out@.last());
                assert(out.deep_view() =~= seq![s@]);
            }
            out
        },
        ModuleItem::Stmt(e) => stmt_expr_reexports_x(e),
        _ => Vec::new(),
    }
}

/// The export-resolution pass: a single walk over a module's top-level
/// items. Each item's contributed export names and re-export specifiers are
/// appended in source order; duplicates keep their first occurrence. The
/// pass never fails: items outside the matched idioms contribute nothing,
/// and nested scopes (function or class bodies, conditionals, loops) are
/// never descended into — only the module's outermost items count.
pub fn resolve(items: &Vec<ModuleItem>) -> (r: Resolution)
    ensures
        r.export_names.deep_view() == resolved_names(items@),
        r.reexports.deep_view() == resolved_reexports(items@),
{
    let mut names: Vec<String> = Vec::new();
    let mut reexports: Vec<String> = Vec::new();
    let mut i: usize = 0;
    assert(names.deep_view() =~= dedup_first(module_names(items@.take(0))));
    assert(reexports.deep_view() =~= dedup_first(module_reexports(items@.take(0))));
    while i < items.len()
        invariant
            i <= items.len(),
            names.deep_view() == dedup_first(module_names(items@.take(i as int))),
            reexports.deep_view() == dedup_first(module_reexports(items@.take(i as int))),
        decreases items.len() - i,
    {
        let ghost names_pre = names.deep_view();
        let ghost reexports_pre = reexports.deep_view();
        let contributed_names = item_names_x(&items[i]);
        let ghost contributed_names_view = contributed_names.deep_view();
        push_all_unique(&mut names, contributed_names);
        let contributed_reexports = item_reexports_x(&items[i]);
        let ghost contributed_reexports_view = contributed_reexports.deep_view();
        push_all_unique(&mut reexports, contributed_reexports);
        proof {
            lemma_take_one_more(items@, i as int);
            lemma_dedup_first_append(
                module_names(items@.take(i as int)),
                contributed_names_view,
            );
            lemma_dedup_first_append(
                module_reexports(items@.take(i as int)),
                contributed_reexports_view,
            );
        }
        i += 1;
    }
    proof {
        assert(items@.take(items@.len() as int) =~= items@);
    }
    Resolution { export_names: names, reexports }
}

} // verus!
