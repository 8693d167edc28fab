use vstd::prelude::*;

use crate::ast::{
    clause_view, clauses_view, expr_view, exprs_view, form_view, forms_view, guards_view,
    lemma_clauses_view, lemma_exprs_view, lemma_pats_view, pat_view, pats_view, test_view, tests_view,
    BinOp, Block, Body, Case, Catch, Clause, ClauseM, Cons, Expr, ExprM, ExternalForm, FormM, FunDecl,
    Guard, Id, Lambda, LocalCall, Match, Pat, PatM, PatVar, Pos, RemoteCall, RemoteId, Test, TestAtom,
    TestBinOp, TestCall, TestM, TestNumber, TestTuple, TestUnOp, TestVar, Tuple, UnOp, If, Receive,
    ReceiveWithTimeout, TryCatchExpr, Maybe, MaybeElse, DynCall, DynRemoteFun, DynRemoteFunArity,
    TryOfCatchExpr, MaybeMatch, RecordSelect, PartM, MapCreate, MapUpdate, RecordCreate, RecordUpdate,
    RecordField, RecordFieldNamed, RecordFieldGen, BinaryElem, Binary, Qualifier, LGenerate, BGenerate,
    MGenerate, Filter, LComprehension, BComprehension, MComprehension, kv_view, kvs_view, field_view,
    fields_view, named_field_view, named_fields_view, elem_view, elems_view, qual_view, quals_view,
};
use crate::text::{decimal, push_decimal, text_eq};

verus! {

broadcast use vstd::seq::axiom_seq_index_decreases, vstd::seq::axiom_seq_subrange_decreases,
    vstd::std_specs::vec::group_vec_axioms;

// ---------------------------------------------------------------- what is rewritten

/// The built-in type tests that may stand in a guard.
pub open spec fn is_predicate(name: Seq<char>, arity: u32) -> bool {
    ||| arity == 1 && {
        ||| name == "is_atom"@
        ||| name == "is_binary"@
        ||| name == "is_bitstring"@
        ||| name == "is_boolean"@
        ||| name == "is_float"@
        ||| name == "is_function"@
        ||| name == "is_integer"@
        ||| name == "is_list"@
        ||| name == "is_number"@
        ||| name == "is_pid"@
        ||| name == "is_port"@
        ||| name == "is_reference"@
        ||| name == "is_map"@
        ||| name == "is_tuple"@
    }
    ||| arity == 2 && (name == "is_record"@ || name == "is_function"@)
    ||| arity == 3 && name == "is_record"@
}

/// The binary operators that may stand in a guard.
pub open spec fn is_binop(op: Seq<char>) -> bool {
    ||| op == "/"@
    ||| op == "*"@
    ||| op == "-"@
    ||| op == "+"@
    ||| op == "div"@
    ||| op == "rem"@
    ||| op == "band"@
    ||| op == "bor"@
    ||| op == "bxor"@
    ||| op == "bsl"@
    ||| op == "bsr"@
    ||| op == "or"@
    ||| op == "xor"@
    ||| op == "and"@
    ||| op == ">="@
    ||| op == ">"@
    ||| op == "=<"@
    ||| op == "<"@
    ||| op == "/="@
    ||| op == "=/="@
    ||| op == "=="@
    ||| op == "=:="@
    ||| op == "andalso"@
    ||| op == "orelse"@
}

/// The unary operators that may stand in a guard.
pub open spec fn is_unop(op: Seq<char>) -> bool {
    op == "bnot"@ || op == "+"@ || op == "-"@ || op == "not"@
}

/// The guard test that an expression reads as, if it reads as one.
pub open spec fn as_test_m(e: ExprM) -> Option<TestM>
    decreases e,
{
    match e {
        ExprM::Var { location, n } => Some(TestM::Var { location, v: n }),
        ExprM::AtomLit { location, s } => Some(TestM::Atom { location, s }),
        ExprM::Leaf(Expr::IntLit(lit)) => Some(TestM::Number { location: lit.location, lit: lit.value }),
        ExprM::RemoteCall { location, id, args } => if is_predicate(id.name@, id.arity) {
            match as_tests_m(args) {
                Some(ts) => Some(TestM::Call { location, name: id.name@, arity: id.arity, args: ts }),
                None => None,
            }
        } else {
            None
        },
        ExprM::Tuple { location, elems } => match as_tests_m(elems) {
            Some(ts) => Some(TestM::Tuple { location, elems: ts }),
            None => None,
        },
        ExprM::UnOp { location, op, arg } => if is_unop(op@) {
            match as_test_m(*arg) {
                Some(t) => Some(TestM::UnOp { location, op: op@, arg: Box::new(t) }),
                None => None,
            }
        } else {
            None
        },
        ExprM::BinOp { location, op, arg_1, arg_2 } => if is_binop(op@) {
            match (as_test_m(*arg_1), as_test_m(*arg_2)) {
                (Some(t1), Some(t2)) => Some(
                    TestM::BinOp { location, op: op@, arg_1: Box::new(t1), arg_2: Box::new(t2) },
                ),
                _ => None,
            }
        } else {
            None
        },
        _ => None,
    }
}

/// The guard tests that expressions read as, if every one reads as one.
pub open spec fn as_tests_m(s: Seq<ExprM>) -> Option<Seq<TestM>>
    decreases s,
{
    if s.len() == 0 {
        Some(Seq::empty())
    } else {
        match as_tests_m(s.drop_last()) {
            Some(ts) => match as_test_m(s.last()) {
                Some(t) => Some(ts.push(t)),
                None => None,
            },
            None => None,
        }
    }
}

/// The name of the `n`th variable that a pass makes up.
pub open spec fn fresh_name(n: u64) -> Seq<char> {
    "$pp"@ + decimal(n as nat)
}

/// The counter after one made-up name: one more, wrapping to 0 after
/// `u64::MAX` names in one pass rather than failing.
pub open spec fn next_var(n: u64) -> u64 {
    if n == u64::MAX {
        0
    } else {
        (n + 1) as u64
    }
}

pub open spec fn atom_m(location: Pos, b: bool) -> ExprM {
    ExprM::AtomLit { location, s: if b { "true"@ } else { "false"@ } }
}

/// `fun(V) when name(V) -> true; (V) -> false end`, with `V` the `n`th fresh name.
pub open spec fn eta_expanded(location: Pos, name: Seq<char>, n: u64) -> ExprM {
    let v = fresh_name(n);
    ExprM::Lambda {
        location,
        name: None,
        clauses: seq![
            ClauseM {
                location,
                pats: seq![PatM::Var { location, n: v }],
                guards: seq![
                    seq![
                        TestM::Call {
                            location,
                            name,
                            arity: 1,
                            args: seq![TestM::Var { location, v }],
                        },
                    ],
                ],
                body: seq![atom_m(location, true)],
            },
            ClauseM {
                location,
                pats: seq![PatM::Var { location, n: v }],
                guards: Seq::empty(),
                body: seq![atom_m(location, false)],
            },
        ],
    }
}

/// A one-clause lambda with one parameter whose body is one expression that reads as a test.
pub open spec fn lambda_rewritable(clauses: Seq<ClauseM>) -> bool {
    &&& clauses.len() == 1
    &&& clauses[0].pats.len() == 1
    &&& clauses[0].body.len() == 1
    &&& as_test_m(clauses[0].body[0]) is Some
}

/// `fun(P) when T -> true; (V) -> false end` for a clause `fun(P) -> E end` whose `E` reads as `T`.
pub open spec fn guarded_lambda(
    location: Pos,
    name: Option<String>,
    c: ClauseM,
    t: TestM,
    n: u64,
) -> ExprM {
    ExprM::Lambda {
        location,
        name,
        clauses: seq![
            ClauseM {
                location: c.location,
                pats: c.pats,
                guards: seq![seq![t]],
                body: seq![atom_m(c.location, true)],
            },
            ClauseM {
                location: c.location,
                pats: seq![PatM::Var { location: c.location, n: fresh_name(n) }],
                guards: Seq::empty(),
                body: seq![atom_m(c.location, false)],
            },
        ],
    }
}

/// The predicate argument of a partition call is rewritten: a reference to a unary
/// type test, or a lambda that `lambda_rewritable` accepts.
pub open spec fn arg_rewritable(arg: ExprM) -> bool {
    match arg {
        ExprM::Leaf(Expr::RemoteFun(rf)) => rf.id.arity == 1 && is_predicate(rf.id.name@, 1),
        ExprM::Lambda { clauses, .. } => lambda_rewritable(clauses),
        _ => false,
    }
}

/// The rewrite of a partition call's first argument, and the next fresh-variable number.
pub open spec fn rewrite_arg(location: Pos, arg: ExprM, n: u64) -> (ExprM, u64) {
    if !arg_rewritable(arg) {
        (arg, n)
    } else {
        match arg {
            ExprM::Leaf(Expr::RemoteFun(rf)) => (eta_expanded(location, rf.id.name@, n), next_var(n)),
            ExprM::Lambda { location: l, clauses, name } => (
                guarded_lambda(l, name, clauses[0], as_test_m(clauses[0].body[0])->0, n),
                next_var(n),
            ),
            _ => (arg, n),
        }
    }
}

pub open spec fn is_partition(id: RemoteId) -> bool {
    id.module@ == "lists"@ && id.name@ == "partition"@ && id.arity == 2
}

/// The rewritten expression, and the next fresh-variable number: a call
/// `lists:partition(F, L)` has `F` rewritten and neither argument walked further;
/// every other node is kept, with its subexpressions rewritten left to right.
pub open spec fn pp_expr(e: ExprM, n: u64) -> (ExprM, u64)
    decreases e,
{
    match e {
        ExprM::Tuple { location, elems } => {
            let (es, m) = pp_exprs(elems, n);
            (ExprM::Tuple { location, elems: es }, m)
        },
        ExprM::Cons { location, h, t } => {
            let (h2, n1) = pp_expr(*h, n);
            let (t2, n2) = pp_expr(*t, n1);
            (ExprM::Cons { location, h: Box::new(h2), t: Box::new(t2) }, n2)
        },
        ExprM::Block { location, body } => {
            let (es, m) = pp_exprs(body, n);
            (ExprM::Block { location, body: es }, m)
        },
        ExprM::Match { location, pat, expr } => {
            let (x, m) = pp_expr(*expr, n);
            (ExprM::Match { location, pat, expr: Box::new(x) }, m)
        },
        ExprM::Case { location, expr, clauses } => {
            let (x, n1) = pp_expr(*expr, n);
            let (cs, n2) = pp_clauses(clauses, n1);
            (ExprM::Case { location, expr: Box::new(x), clauses: cs }, n2)
        },
        ExprM::LocalCall { location, id, args } => {
            let (es, m) = pp_exprs(args, n);
            (ExprM::LocalCall { location, id, args: es }, m)
        },
        ExprM::RemoteCall { location, id, args } => if is_partition(id) && args.len() == 2 {
            let (a, m) = rewrite_arg(location, args[0], n);
            (ExprM::RemoteCall { location, id, args: seq![a, args[1]] }, m)
        } else {
            let (es, m) = pp_exprs(args, n);
            (ExprM::RemoteCall { location, id, args: es }, m)
        },
        ExprM::Lambda { location, clauses, name } => {
            let (cs, m) = pp_clauses(clauses, n);
            (ExprM::Lambda { location, clauses: cs, name }, m)
        },
        ExprM::UnOp { location, op, arg } => {
            let (x, m) = pp_expr(*arg, n);
            (ExprM::UnOp { location, op, arg: Box::new(x) }, m)
        },
        ExprM::BinOp { location, op, arg_1, arg_2 } => {
            let (x1, n1) = pp_expr(*arg_1, n);
            let (x2, n2) = pp_expr(*arg_2, n1);
            (ExprM::BinOp { location, op, arg_1: Box::new(x1), arg_2: Box::new(x2) }, n2)
        },
        ExprM::Catch { location, expr } => {
            let (x, m) = pp_expr(*expr, n);
            (ExprM::Catch { location, expr: Box::new(x) }, m)
        },
        ExprM::If { location, clauses } => {
            let (cs, m) = pp_clauses(clauses, n);
            (ExprM::If { location, clauses: cs }, m)
        },
        ExprM::Receive { location, clauses } => {
            let (cs, m) = pp_clauses(clauses, n);
            (ExprM::Receive { location, clauses: cs }, m)
        },
        ExprM::ReceiveWithTimeout { location, clauses, timeout, timeout_body } => {
            let (cs, n1) = pp_clauses(clauses, n);
            let (t, n2) = pp_expr(*timeout, n1);
            let (b, n3) = pp_exprs(timeout_body, n2);
            (ExprM::ReceiveWithTimeout { location, clauses: cs, timeout: Box::new(t), timeout_body: b }, n3)
        },
        ExprM::TryCatch { location, try_body, catch_clauses, after_body } => {
            let (b, n1) = pp_exprs(try_body, n);
            let (cs, n2) = pp_clauses(catch_clauses, n1);
            match after_body {
                Some(a) => {
                    let (a2, n3) = pp_exprs(a, n2);
                    (ExprM::TryCatch { location, try_body: b, catch_clauses: cs, after_body: Some(a2) }, n3)
                },
                None => (ExprM::TryCatch { location, try_body: b, catch_clauses: cs, after_body: None }, n2),
            }
        },
        ExprM::Maybe { location, body } => {
            let (b, m) = pp_exprs(body, n);
            (ExprM::Maybe { location, body: b }, m)
        },
        ExprM::MaybeElse { location, body, else_clauses } => {
            let (b, n1) = pp_exprs(body, n);
            let (cs, n2) = pp_clauses(else_clauses, n1);
            (ExprM::MaybeElse { location, body: b, else_clauses: cs }, n2)
        },
        ExprM::DynCall { location, f, args } => {
            let (f2, n1) = pp_expr(*f, n);
            let (a, n2) = pp_exprs(args, n1);
            (ExprM::DynCall { location, f: Box::new(f2), args: a }, n2)
        },
        ExprM::DynRemoteFun { location, module, name } => {
            let (m2, n1) = pp_expr(*module, n);
            let (x2, n2) = pp_expr(*name, n1);
            (ExprM::DynRemoteFun { location, module: Box::new(m2), name: Box::new(x2) }, n2)
        },
        ExprM::DynRemoteFunArity { location, module, name, arity } => {
            let (m2, n1) = pp_expr(*module, n);
            let (x2, n2) = pp_expr(*name, n1);
            let (a2, n3) = pp_expr(*arity, n2);
            (ExprM::DynRemoteFunArity { location, module: Box::new(m2), name: Box::new(x2), arity: Box::new(a2) }, n3)
        },
        ExprM::TryOf { location, try_body, try_clauses, catch_clauses, after_body } => {
            let (b, n1) = pp_exprs(try_body, n);
            let (tc, n2) = pp_clauses(try_clauses, n1);
            let (cc, n3) = pp_clauses(catch_clauses, n2);
            match after_body {
                Some(a) => {
                    let (a2, n4) = pp_exprs(a, n3);
                    (ExprM::TryOf { location, try_body: b, try_clauses: tc, catch_clauses: cc, after_body: Some(a2) }, n4)
                },
                None => (ExprM::TryOf { location, try_body: b, try_clauses: tc, catch_clauses: cc, after_body: None }, n3),
            }
        },
        ExprM::MaybeMatch { location, pat, arg } => {
            let (a, m) = pp_expr(*arg, n);
            (ExprM::MaybeMatch { location, pat, arg: Box::new(a) }, m)
        },
        ExprM::RecordSelect { location, expr, rec_name, field_name } => {
            let (x, m) = pp_expr(*expr, n);
            (ExprM::RecordSelect { location, expr: Box::new(x), rec_name, field_name }, m)
        },
        ExprM::MapCreate { location, kvs } => {
            let (ps, m) = pp_parts(kvs, n);
            (ExprM::MapCreate { location, kvs: ps }, m)
        },
        ExprM::MapUpdate { location, map, kvs } => {
            let (x, n1) = pp_expr(*map, n);
            let (ps, n2) = pp_parts(kvs, n1);
            (ExprM::MapUpdate { location, map: Box::new(x), kvs: ps }, n2)
        },
        ExprM::RecordCreate { location, rec_name, fields } => {
            let (ps, m) = pp_parts(fields, n);
            (ExprM::RecordCreate { location, rec_name, fields: ps }, m)
        },
        ExprM::RecordUpdate { location, expr, rec_name, fields } => {
            let (x, n1) = pp_expr(*expr, n);
            let (ps, n2) = pp_parts(fields, n1);
            (ExprM::RecordUpdate { location, expr: Box::new(x), rec_name, fields: ps }, n2)
        },
        ExprM::Binary { location, elems } => {
            let (ps, m) = pp_parts(elems, n);
            (ExprM::Binary { location, elems: ps }, m)
        },
        ExprM::LComprehension { location, template, qualifiers } => {
            let (t, n1) = pp_expr(*template, n);
            let (ps, n2) = pp_parts(qualifiers, n1);
            (ExprM::LComprehension { location, template: Box::new(t), qualifiers: ps }, n2)
        },
        ExprM::BComprehension { location, template, qualifiers } => {
            let (t, n1) = pp_expr(*template, n);
            let (ps, n2) = pp_parts(qualifiers, n1);
            (ExprM::BComprehension { location, template: Box::new(t), qualifiers: ps }, n2)
        },
        ExprM::MComprehension { location, k_template, v_template, qualifiers } => {
            let (k, n1) = pp_expr(*k_template, n);
            let (v, n2) = pp_expr(*v_template, n1);
            let (ps, n3) = pp_parts(qualifiers, n2);
            (ExprM::MComprehension { location, k_template: Box::new(k), v_template: Box::new(v), qualifiers: ps }, n3)
        },
        _ => (e, n),
    }
}

pub open spec fn pp_exprs(s: Seq<ExprM>, n: u64) -> (Seq<ExprM>, u64)
    decreases s,
{
    if s.len() == 0 {
        (s, n)
    } else {
        let (front, m) = pp_exprs(s.drop_last(), n);
        let (x, k) = pp_expr(s.last(), m);
        (front.push(x), k)
    }
}

pub open spec fn pp_part(p: PartM, n: u64) -> (PartM, u64)
    decreases p,
{
    match p {
        PartM::Pair { k, v } => {
            let (k2, n1) = pp_expr(k, n);
            let (v2, n2) = pp_expr(v, n1);
            (PartM::Pair { k: k2, v: v2 }, n2)
        },
        PartM::Field { name, value } => {
            let (x, m) = pp_expr(value, n);
            (PartM::Field { name, value: x }, m)
        },
        PartM::Elem { location, expr, size, specifier } => {
            let (x, n1) = pp_expr(expr, n);
            match size {
                Some(z) => {
                    let (z2, n2) = pp_expr(z, n1);
                    (PartM::Elem { location, expr: x, size: Some(z2), specifier }, n2)
                },
                None => (PartM::Elem { location, expr: x, size: None, specifier }, n1),
            }
        },
        PartM::Generate { shape, expr } => {
            let (x, m) = pp_expr(expr, n);
            (PartM::Generate { shape, expr: x }, m)
        },
    }
}

pub open spec fn pp_parts(s: Seq<PartM>, n: u64) -> (Seq<PartM>, u64)
    decreases s,
{
    if s.len() == 0 {
        (s, n)
    } else {
        let (front, m) = pp_parts(s.drop_last(), n);
        let (x, k) = pp_part(s.last(), m);
        (front.push(x), k)
    }
}

pub open spec fn pp_clause(c: ClauseM, n: u64) -> (ClauseM, u64)
    decreases c,
{
    let (body, m) = pp_exprs(c.body, n);
    (ClauseM { location: c.location, pats: c.pats, guards: c.guards, body }, m)
}

pub open spec fn pp_clauses(s: Seq<ClauseM>, n: u64) -> (Seq<ClauseM>, u64)
    decreases s,
{
    if s.len() == 0 {
        (s, n)
    } else {
        let (front, m) = pp_clauses(s.drop_last(), n);
        let (c, k) = pp_clause(s.last(), m);
        (front.push(c), k)
    }
}

// ---------------------------------------------------------------- the pass

pub open spec fn opt_test_view(o: Option<Test>) -> Option<TestM> {
    match o {
        Some(t) => Some(test_view(t)),
        None => None,
    }
}

pub open spec fn opt_tests_view(o: Option<Vec<Test>>) -> Option<Seq<TestM>> {
    match o {
        Some(ts) => Some(tests_view(ts@)),
        None => None,
    }
}

fn is_predicate_id(name: &String, arity: u32) -> (r: bool)
    ensures
        r == is_predicate(name@, arity),
{
    let s = name.as_str();
    if arity == 1 {
        text_eq(s, "is_atom") || text_eq(s, "is_binary") || text_eq(s, "is_bitstring")
            || text_eq(s, "is_boolean") || text_eq(s, "is_float") || text_eq(s, "is_function")
            || text_eq(s, "is_integer") || text_eq(s, "is_list") || text_eq(s, "is_number")
            || text_eq(s, "is_pid") || text_eq(s, "is_port") || text_eq(s, "is_reference")
            || text_eq(s, "is_map") || text_eq(s, "is_tuple")
    } else if arity == 2 {
        text_eq(s, "is_record") || text_eq(s, "is_function")
    } else if arity == 3 {
        text_eq(s, "is_record")
    } else {
        false
    }
}

fn is_binop_name(op: &String) -> (r: bool)
    ensures
        r == is_binop(op@),
{
    let s = op.as_str();
    text_eq(s, "/") || text_eq(s, "*") || text_eq(s, "-") || text_eq(s, "+") || text_eq(s, "div")
        || text_eq(s, "rem") || text_eq(s, "band") || text_eq(s, "bor") || text_eq(s, "bxor")
        || text_eq(s, "bsl") || text_eq(s, "bsr") || text_eq(s, "or") || text_eq(s, "xor")
        || text_eq(s, "and") || text_eq(s, ">=") || text_eq(s, ">") || text_eq(s, "=<")
        || text_eq(s, "<") || text_eq(s, "/=") || text_eq(s, "=/=") || text_eq(s, "==")
        || text_eq(s, "=:=") || text_eq(s, "andalso") || text_eq(s, "orelse")
}

fn is_unop_name(op: &String) -> (r: bool)
    ensures
        r == is_unop(op@),
{
    let s = op.as_str();
    text_eq(s, "bnot") || text_eq(s, "+") || text_eq(s, "-") || text_eq(s, "not")
}

/// Reads an expression as a guard test, where it is one.
pub fn as_test(expr: &Expr) -> (r: Option<Test>)
    ensures
        opt_test_view(r) == as_test_m(expr_view(*expr)),
    decreases expr,
{
    match expr {
        Expr::Var(var) => Some(Test::TestVar(TestVar { v: var.n.clone(), location: var.location })),
        Expr::AtomLit(atom) => Some(Test::TestAtom(TestAtom { s: atom.s.clone(), location: atom.location })),
        Expr::IntLit(lit) => Some(Test::TestNumber(TestNumber { location: lit.location, lit: lit.value })),
        Expr::RemoteCall(rcall) => {
            if is_predicate_id(&rcall.id.name, rcall.id.arity) {
                match as_tests(&rcall.args) {
                    Some(args) => Some(
                        Test::TestCall(
                            TestCall {
                                location: rcall.location,
                                id: Id { name: rcall.id.name.clone(), arity: rcall.id.arity },
                                args,
                            },
                        ),
                    ),
                    None => None,
                }
            } else {
                None
            }
        },
        Expr::Tuple(tuple) => match as_tests(&tuple.elems) {
            Some(elems) => Some(Test::TestTuple(TestTuple { location: tuple.location, elems })),
            None => None,
        },
        Expr::UnOp(unop) => {
            if is_unop_name(&unop.op) {
                match as_test(&unop.arg) {
                    Some(arg) => Some(
                        Test::TestUnOp(
                            TestUnOp { location: unop.location, op: unop.op.clone(), arg: Box::new(arg) },
                        ),
                    ),
                    None => None,
                }
            } else {
                None
            }
        },
        Expr::BinOp(binop) => {
            if is_binop_name(&binop.op) {
                match as_test(&binop.arg_1) {
                    Some(arg_1) => match as_test(&binop.arg_2) {
                        Some(arg_2) => Some(
                            Test::TestBinOp(
                                TestBinOp {
                                    location: binop.location,
                                    op: binop.op.clone(),
                                    arg_1: Box::new(arg_1),
                                    arg_2: Box::new(arg_2),
                                },
                            ),
                        ),
                        None => None,
                    },
                    None => None,
                }
            } else {
                None
            }
        },
        _ => None,
    }
}

proof fn lemma_as_tests_prefix_none(s: Seq<ExprM>, k: int)
    requires
        0 < k <= s.len(),
        as_tests_m(s.take(k)) is None,
    ensures
        as_tests_m(s) is None,
    decreases s.len(),
{
    if k == s.len() {
        assert(s.take(k) =~= s);
    } else {
        assert(s.drop_last().take(k) =~= s.take(k));
        lemma_as_tests_prefix_none(s.drop_last(), k);
    }
}

/// Reads each expression as a guard test, where every one is one.
pub fn as_tests(exprs: &Vec<Expr>) -> (r: Option<Vec<Test>>)
    ensures
        opt_tests_view(r) == as_tests_m(exprs_view(exprs@)),
    decreases exprs,
{
    let mut out: Vec<Test> = Vec::new();
    let mut i: usize = 0;
    proof {
        assert(exprs@.take(0) =~= Seq::<Expr>::empty());
        assert(tests_view(out@) =~= Seq::<TestM>::empty());
    }
    while i < exprs.len()
        invariant
            i <= exprs@.len(),
            as_tests_m(exprs_view(exprs@.take(i as int))) == Some(tests_view(out@)),
        decreases exprs@.len() - i,
    {
        proof {
            assert(decreases_to!(exprs => exprs[i as int]));
        }
        let t = as_test(&exprs[i]);
        proof {
            let p = exprs@.take(i + 1);
            assert(p.drop_last() =~= exprs@.take(i as int));
            assert(exprs_view(p) == exprs_view(exprs@.take(i as int)).push(expr_view(exprs@[i as int])));
            assert(exprs_view(p).drop_last() =~= exprs_view(exprs@.take(i as int)));
        }
        match t {
            Some(t) => {
                proof {
                    assert(out@.push(t).drop_last() =~= out@);
                }
                out.push(t);
            },
            None => {
                proof {
                    let v = exprs_view(exprs@);
                    lemma_exprs_view(exprs@);
                    lemma_exprs_view(exprs@.take(i + 1));
                    assert forall|j: int| 0 <= j < i + 1 implies #[trigger] v.take(i + 1)[j] == exprs_view(
                        exprs@.take(i + 1),
                    )[j] by {
                        assert(exprs@.take(i + 1)[j] == exprs@[j]);
                    }
                    assert(v.take(i + 1) =~= exprs_view(exprs@.take(i + 1)));
                    lemma_as_tests_prefix_none(v, i + 1);
                }
                return None;
            },
        }
        i = i + 1;
    }
    proof {
        assert(exprs@.take(i as int) =~= exprs@);
    }
    Some(out)
}

/// The rewriting pass, with the number of the next variable it makes up.
pub struct Preprocessor {
    pub var: u64,
}

impl Preprocessor {
    pub fn fresh_var(&mut self) -> (r: String)
        ensures
            r@ == fresh_name(old(self).var),
            final(self).var == next_var(old(self).var),
    {
        let var = self.var;
        self.var = var.wrapping_add(1);
        let mut name = String::from_str("$pp");
        proof {
            reveal_strlit("$pp");
        }
        push_decimal(&mut name, var);
        name
    }

    pub fn eta_expand_unary_predicate(&mut self, location: Pos, name: String) -> (r: Lambda)
        ensures
            expr_view(Expr::Lambda(r)) == eta_expanded(location, name@, old(self).var),
            final(self).var == next_var(old(self).var),
    {
        let var_name = self.fresh_var();
        let test_call = Test::TestCall(
            TestCall {
                location,
                id: Id { name, arity: 1 },
                args: vec![Test::TestVar(TestVar { location, v: var_name.clone() })],
            },
        );
        let clause_pos = Clause {
            location,
            pats: vec![Pat::PatVar(PatVar { location, n: var_name.clone() })],
            guards: vec![Guard { tests: vec![test_call] }],
            body: Body { exprs: vec![Expr::atom_true(location)] },
        };
        let clause_neg = Clause {
            location,
            pats: vec![Pat::PatVar(PatVar { location, n: var_name })],
            guards: vec![],
            body: Body { exprs: vec![Expr::atom_false(location)] },
        };
        let r = Lambda { location, name: None, clauses: vec![clause_pos, clause_neg] };
        proof {
            let tv = Test::TestVar(TestVar { location, v: var_name });
            lemma_singleton_views(clause_pos.pats@[0], tv, clause_pos.body.exprs@[0], clause_pos.guards@[0]);
            lemma_singleton_views(clause_neg.pats@[0], test_call, clause_neg.body.exprs@[0], clause_pos.guards@[0]);
            assert(clause_pos.pats@ =~= seq![clause_pos.pats@[0]]);
            assert(clause_neg.pats@ =~= seq![clause_neg.pats@[0]]);
            assert(clause_pos.body.exprs@ =~= seq![clause_pos.body.exprs@[0]]);
            assert(clause_neg.body.exprs@ =~= seq![clause_neg.body.exprs@[0]]);
            assert(clause_pos.guards@ =~= seq![clause_pos.guards@[0]]);
            assert(clause_pos.guards@[0].tests@ =~= seq![test_call]);
            assert(clause_neg.guards@ =~= Seq::<Guard>::empty());
            assert(test_call->TestCall_0.args@ =~= seq![tv]);
            let e = eta_expanded(location, name@, old(self).var);
            let v = fresh_name(old(self).var);
            assert(test_view(test_call) == TestM::Call {
                location,
                name: name@,
                arity: 1,
                args: seq![TestM::Var { location, v }],
            });
            assert(clause_view(clause_pos) == e->Lambda_clauses[0]);
            assert(clause_view(clause_neg) == e->Lambda_clauses[1]);
            lemma_views_of_two_clauses(r.clauses@);
            assert(clauses_view(r.clauses@) =~= e->Lambda_clauses);
        }
        r
    }

    pub fn preprocess_lists_partition_arg_fun(&mut self, location: Pos, expr: Expr) -> (r: Expr)
        ensures
            (expr_view(r), final(self).var) == rewrite_arg(location, expr_view(expr), old(self).var),
    {
        match expr {
            Expr::RemoteFun(rfun) => {
                if rfun.id.arity == 1 && is_predicate_id(&rfun.id.name, 1) {
                    Expr::Lambda(self.eta_expand_unary_predicate(location, rfun.id.name))
                } else {
                    Expr::RemoteFun(rfun)
                }
            },
            Expr::Lambda(lambda) => {
                if lambda.clauses.len() != 1 || lambda.clauses[0].pats.len() != 1
                    || lambda.clauses[0].body.exprs.len() != 1 {
                    proof {
                        lemma_clauses_view(lambda.clauses@);
                        if lambda.clauses@.len() == 1 {
                            lemma_pats_view(lambda.clauses@[0].pats@);
                            lemma_exprs_view(lambda.clauses@[0].body.exprs@);
                        }
                    }
                    return Expr::Lambda(lambda);
                }
                proof {
                    lemma_clauses_view(lambda.clauses@);
                    lemma_pats_view(lambda.clauses@[0].pats@);
                    lemma_exprs_view(lambda.clauses@[0].body.exprs@);
                }
                match as_test(&lambda.clauses[0].body.exprs[0]) {
                    Some(test) => {
                        let ghost c = clause_view(lambda.clauses@[0]);
                        let Lambda { location: l, clauses, name } = lambda;
                        let mut clauses = clauses;
                        let clause = clauses.pop().unwrap();
                        let Clause { location: cl, pats, guards: _, body: _ } = clause;
                        let fresh = self.fresh_var();
                        let r = Lambda {
                            location: l,
                            name,
                            clauses: vec![
                                Clause {
                                    location: cl,
                                    pats,
                                    guards: vec![Guard { tests: vec![test] }],
                                    body: Body { exprs: vec![Expr::atom_true(cl)] },
                                },
                                Clause {
                                    location: cl,
                                    pats: vec![Pat::PatVar(PatVar { location: cl, n: fresh })],
                                    guards: vec![],
                                    body: Body { exprs: vec![Expr::atom_false(cl)] },
                                },
                            ],
                        };
                        proof {
                            let c0 = r.clauses@[0];
                            let c1 = r.clauses@[1];
                            lemma_singleton_views(c1.pats@[0], test, c0.body.exprs@[0], c0.guards@[0]);
                            lemma_singleton_views(c1.pats@[0], test, c1.body.exprs@[0], c0.guards@[0]);
                            assert(c1.pats@ =~= seq![c1.pats@[0]]);
                            assert(c0.body.exprs@ =~= seq![c0.body.exprs@[0]]);
                            assert(c1.body.exprs@ =~= seq![c1.body.exprs@[0]]);
                            assert(c0.guards@ =~= seq![c0.guards@[0]]);
                            assert(c0.guards@[0].tests@ =~= seq![test]);
                            assert(c1.guards@ =~= Seq::<Guard>::empty());
                            lemma_views_of_two_clauses(r.clauses@);
                            let e = guarded_lambda(l, name, c, test_view(test), old(self).var);
                            assert(clauses_view(r.clauses@) =~= e->Lambda_clauses);
                        }
                        Expr::Lambda(r)
                    },
                    None => Expr::Lambda(lambda),
                }
            },
            other => other,
        }
    }
}

fn is_lists_partition(id: &RemoteId) -> (r: bool)
    ensures
        r == is_partition(*id),
{
    id.arity == 2 && text_eq(id.module.as_str(), "lists") && text_eq(id.name.as_str(), "partition")
}

impl Preprocessor {
    #[verifier::rlimit(60)]
    pub fn transform_expr(&mut self, expr: Expr) -> (r: Expr)
        ensures
            (expr_view(r), final(self).var) == pp_expr(expr_view(expr), old(self).var),
        decreases expr,
    {
        match expr {
            Expr::Tuple(x) => {
                let elems = self.transform_exprs(x.elems);
                Expr::Tuple(Tuple { location: x.location, elems })
            },
            Expr::Cons(x) => {
                let h = self.transform_expr(*x.h);
                let t = self.transform_expr(*x.t);
                Expr::Cons(Cons { location: x.location, h: Box::new(h), t: Box::new(t) })
            },
            Expr::Block(x) => {
                let exprs = self.transform_exprs(x.body.exprs);
                Expr::Block(Block { location: x.location, body: Body { exprs } })
            },
            Expr::Match(x) => {
                let e = self.transform_expr(*x.expr);
                Expr::Match(Match { location: x.location, pat: x.pat, expr: Box::new(e) })
            },
            Expr::Case(x) => {
                let e = self.transform_expr(*x.expr);
                let clauses = self.transform_clauses(x.clauses);
                Expr::Case(Case { location: x.location, expr: Box::new(e), clauses })
            },
            Expr::LocalCall(x) => {
                let args = self.transform_exprs(x.args);
                Expr::LocalCall(LocalCall { location: x.location, id: x.id, args })
            },
            Expr::RemoteCall(x) => {
                if is_lists_partition(&x.id) && x.args.len() == 2 {
                    let RemoteCall { location, id, args } = x;
                    let ghost a = exprs_view(args@);
                    proof {
                        lemma_exprs_view(args@);
                    }
                    let mut args = args;
                    let arg_list = args.pop().unwrap();
                    let arg_fun = args.pop().unwrap();
                    let arg_trans = self.preprocess_lists_partition_arg_fun(location, arg_fun);
                    let args = vec![arg_trans, arg_list];
                    proof {
                        lemma_exprs_view(args@);
                        assert(exprs_view(args@) =~= seq![expr_view(arg_trans), a[1]]);
                    }
                    Expr::RemoteCall(RemoteCall { location, id, args })
                } else {
                    proof {
                        lemma_exprs_view(x.args@);
                    }
                    let args = self.transform_exprs(x.args);
                    Expr::RemoteCall(RemoteCall { location: x.location, id: x.id, args })
                }
            },
            Expr::Lambda(x) => {
                let clauses = self.transform_clauses(x.clauses);
                Expr::Lambda(Lambda { location: x.location, clauses, name: x.name })
            },
            Expr::UnOp(x) => {
                let arg = self.transform_expr(*x.arg);
                Expr::UnOp(UnOp { location: x.location, op: x.op, arg: Box::new(arg) })
            },
            Expr::BinOp(x) => {
                let arg_1 = self.transform_expr(*x.arg_1);
                let arg_2 = self.transform_expr(*x.arg_2);
                Expr::BinOp(
                    BinOp { location: x.location, op: x.op, arg_1: Box::new(arg_1), arg_2: Box::new(arg_2) },
                )
            },
            Expr::Catch(x) => {
                let e = self.transform_expr(*x.expr);
                Expr::Catch(Catch { location: x.location, expr: Box::new(e) })
            },
            Expr::If(x) => {
                let clauses = self.transform_clauses(x.clauses);
                Expr::If(If { location: x.location, clauses })
            },
            Expr::Receive(x) => {
                let clauses = self.transform_clauses(x.clauses);
                Expr::Receive(Receive { location: x.location, clauses })
            },
            Expr::ReceiveWithTimeout(x) => {
                let clauses = self.transform_clauses(x.clauses);
                let timeout = self.transform_expr(*x.timeout);
                let exprs = self.transform_exprs(x.timeout_body.exprs);
                Expr::ReceiveWithTimeout(
                    ReceiveWithTimeout {
                        location: x.location,
                        clauses,
                        timeout: Box::new(timeout),
                        timeout_body: Body { exprs },
                    },
                )
            },
            Expr::TryCatchExpr(x) => {
                let try_exprs = self.transform_exprs(x.try_body.exprs);
                let catch_clauses = self.transform_clauses(x.catch_clauses);
                let after_body = match x.after_body {
                    Some(b) => Some(Body { exprs: self.transform_exprs(b.exprs) }),
                    None => None,
                };
                Expr::TryCatchExpr(
                    TryCatchExpr { location: x.location, try_body: Body { exprs: try_exprs }, catch_clauses, after_body },
                )
            },
            Expr::Maybe(x) => {
                let exprs = self.transform_exprs(x.body.exprs);
                Expr::Maybe(Maybe { location: x.location, body: Body { exprs } })
            },
            Expr::MaybeElse(x) => {
                let exprs = self.transform_exprs(x.body.exprs);
                let else_clauses = self.transform_clauses(x.else_clauses);
                Expr::MaybeElse(MaybeElse { location: x.location, body: Body { exprs }, else_clauses })
            },
            Expr::DynCall(x) => {
                let f = self.transform_expr(*x.f);
                let args = self.transform_exprs(x.args);
                Expr::DynCall(DynCall { location: x.location, f: Box::new(f), args })
            },
            Expr::DynRemoteFun(x) => {
                let module = self.transform_expr(*x.module);
                let name = self.transform_expr(*x.name);
                Expr::DynRemoteFun(DynRemoteFun { location: x.location, module: Box::new(module), name: Box::new(name) })
            },
            Expr::DynRemoteFunArity(x) => {
                let module = self.transform_expr(*x.module);
                let name = self.transform_expr(*x.name);
                let arity = self.transform_expr(*x.arity);
                Expr::DynRemoteFunArity(
                    DynRemoteFunArity {
                        location: x.location,
                        module: Box::new(module),
                        name: Box::new(name),
                        arity: Box::new(arity),
                    },
                )
            },
            Expr::TryOfCatchExpr(x) => {
                let try_exprs = self.transform_exprs(x.try_body.exprs);
                let try_clauses = self.transform_clauses(x.try_clauses);
                let catch_clauses = self.transform_clauses(x.catch_clauses);
                let after_body = match x.after_body {
                    Some(b) => Some(Body { exprs: self.transform_exprs(b.exprs) }),
                    None => None,
                };
                Expr::TryOfCatchExpr(
                    TryOfCatchExpr {
                        location: x.location,
                        try_body: Body { exprs: try_exprs },
                        try_clauses,
                        catch_clauses,
                        after_body,
                    },
                )
            },
            Expr::MaybeMatch(x) => {
                let arg = self.transform_expr(*x.arg);
                Expr::MaybeMatch(MaybeMatch { location: x.location, pat: x.pat, arg: Box::new(arg) })
            },
            Expr::RecordSelect(x) => {
                let e = self.transform_expr(*x.expr);
                Expr::RecordSelect(
                    RecordSelect { location: x.location, expr: Box::new(e), rec_name: x.rec_name, field_name: x.field_name },
                )
            },
            Expr::MapCreate(x) => {
                let kvs = self.transform_kvs(x.kvs);
                Expr::MapCreate(MapCreate { location: x.location, kvs })
            },
            Expr::MapUpdate(x) => {
                let map = self.transform_expr(*x.map);
                let kvs = self.transform_kvs(x.kvs);
                Expr::MapUpdate(MapUpdate { location: x.location, map: Box::new(map), kvs })
            },
            Expr::RecordCreate(x) => {
                let fields = self.transform_fields(x.fields);
                Expr::RecordCreate(RecordCreate { location: x.location, rec_name: x.rec_name, fields })
            },
            Expr::RecordUpdate(x) => {
                let e = self.transform_expr(*x.expr);
                let fields = self.transform_named_fields(x.fields);
                Expr::RecordUpdate(RecordUpdate { location: x.location, expr: Box::new(e), rec_name: x.rec_name, fields })
            },
            Expr::Binary(x) => {
                let elems = self.transform_elems(x.elems);
                Expr::Binary(Binary { location: x.location, elems })
            },
            Expr::LComprehension(x) => {
                let template = self.transform_expr(*x.template);
                let qualifiers = self.transform_quals(x.qualifiers);
                Expr::LComprehension(LComprehension { location: x.location, template: Box::new(template), qualifiers })
            },
            Expr::BComprehension(x) => {
                let template = self.transform_expr(*x.template);
                let qualifiers = self.transform_quals(x.qualifiers);
                Expr::BComprehension(BComprehension { location: x.location, template: Box::new(template), qualifiers })
            },
            Expr::MComprehension(x) => {
                let k_template = self.transform_expr(*x.k_template);
                let v_template = self.transform_expr(*x.v_template);
                let qualifiers = self.transform_quals(x.qualifiers);
                Expr::MComprehension(
                    MComprehension {
                        location: x.location,
                        k_template: Box::new(k_template),
                        v_template: Box::new(v_template),
                        qualifiers,
                    },
                )
            },
            other => other,
        }
    }

    pub fn transform_exprs(&mut self, exprs: Vec<Expr>) -> (r: Vec<Expr>)
        ensures
            (exprs_view(r@), final(self).var) == pp_exprs(exprs_view(exprs@), old(self).var),
        decreases exprs,
    {
        let ghost entry = exprs;
        let n = exprs.len();
        let mut rest = exprs;
        let mut out: Vec<Expr> = Vec::new();
        let mut i: usize = 0;
        proof {
            assert(entry@.take(0) =~= Seq::<Expr>::empty());
            assert(exprs_view(out@) =~= Seq::<ExprM>::empty());
            assert(rest@ =~= entry@.subrange(0, n as int));
        }
        while rest.len() > 0
            invariant
                entry == exprs,
                n == entry@.len(),
                i <= n,
                rest@ == entry@.subrange(i as int, n as int),
                (exprs_view(out@), self.var) == pp_exprs(
                    exprs_view(entry@.take(i as int)),
                    old(self).var,
                ),
            decreases rest@.len(),
        {
            let x = rest.remove(0);
            proof {
                assert(x == entry@[i as int]);
                assert(decreases_to!(entry => entry[i as int]));
                let p = entry@.take(i + 1);
                assert(p.drop_last() =~= entry@.take(i as int));
                assert(exprs_view(p).drop_last() =~= exprs_view(entry@.take(i as int)));
            }
            let y = self.transform_expr(x);
            proof {
                assert(out@.push(y).drop_last() =~= out@);
            }
            out.push(y);
            i = i + 1;
            proof {
                assert(rest@ =~= entry@.subrange(i as int, n as int));
            }
        }
        proof {
            assert(entry@.take(i as int) =~= entry@);
        }
        out
    }

    fn transform_kv(&mut self, kv: (Expr, Expr)) -> (r: (Expr, Expr))
        ensures
            (kv_view(r), final(self).var) == pp_part(kv_view(kv), old(self).var),
        decreases kv,
    {
        let (k, v) = kv;
        let k2 = self.transform_expr(k);
        let v2 = self.transform_expr(v);
        (k2, v2)
    }

    fn transform_named_field(&mut self, f: RecordFieldNamed) -> (r: RecordFieldNamed)
        ensures
            (named_field_view(r), final(self).var) == pp_part(named_field_view(f), old(self).var),
        decreases f,
    {
        let value = self.transform_expr(f.value);
        RecordFieldNamed { name: f.name, value }
    }

    fn transform_field(&mut self, f: RecordField) -> (r: RecordField)
        ensures
            (field_view(r), final(self).var) == pp_part(field_view(f), old(self).var),
        decreases f,
    {
        match f {
            RecordField::RecordFieldNamed(g) => {
                let value = self.transform_expr(g.value);
                RecordField::RecordFieldNamed(RecordFieldNamed { name: g.name, value })
            },
            RecordField::RecordFieldGen(g) => {
                let value = self.transform_expr(g.value);
                RecordField::RecordFieldGen(RecordFieldGen { value })
            },
        }
    }

    fn transform_elem(&mut self, e: BinaryElem) -> (r: BinaryElem)
        ensures
            (elem_view(r), final(self).var) == pp_part(elem_view(e), old(self).var),
        decreases e,
    {
        let expr = self.transform_expr(e.expr);
        let size = match e.size {
            Some(z) => Some(self.transform_expr(z)),
            None => None,
        };
        BinaryElem { location: e.location, expr, size, specifier: e.specifier }
    }

    fn transform_qual(&mut self, q: Qualifier) -> (r: Qualifier)
        ensures
            (qual_view(r), final(self).var) == pp_part(qual_view(q), old(self).var),
        decreases q,
    {
        match q {
            Qualifier::LGenerate(g) => {
                let expr = self.transform_expr(g.expr);
                Qualifier::LGenerate(LGenerate { pat: g.pat, expr })
            },
            Qualifier::BGenerate(g) => {
                let expr = self.transform_expr(g.expr);
                Qualifier::BGenerate(BGenerate { pat: g.pat, expr })
            },
            Qualifier::MGenerate(g) => {
                let expr = self.transform_expr(g.expr);
                Qualifier::MGenerate(MGenerate { k_pat: g.k_pat, v_pat: g.v_pat, expr })
            },
            Qualifier::Filter(f) => {
                let expr = self.transform_expr(f.expr);
                Qualifier::Filter(Filter { expr })
            },
        }
    }

    fn transform_kvs(&mut self, items: Vec<(Expr, Expr)>) -> (r: Vec<(Expr, Expr)>)
        ensures
            (kvs_view(r@), final(self).var) == pp_parts(kvs_view(items@), old(self).var),
        decreases items,
    {
        let ghost entry = items;
        let n = items.len();
        let mut rest = items;
        let mut out: Vec<(Expr, Expr)> = Vec::new();
        let mut i: usize = 0;
        proof {
            assert(entry@.take(0) =~= Seq::<(Expr, Expr)>::empty());
            assert(kvs_view(out@) =~= Seq::<PartM>::empty());
            assert(rest@ =~= entry@.subrange(0, n as int));
        }
        while rest.len() > 0
            invariant
                entry == items,
                n == entry@.len(),
                i <= n,
                rest@ == entry@.subrange(i as int, n as int),
                (kvs_view(out@), self.var) == pp_parts(
                    kvs_view(entry@.take(i as int)),
                    old(self).var,
                ),
            decreases rest@.len(),
        {
            let x = rest.remove(0);
            proof {
                assert(x == entry@[i as int]);
                assert(decreases_to!(entry => entry[i as int]));
                let p = entry@.take(i + 1);
                assert(p.drop_last() =~= entry@.take(i as int));
                assert(kvs_view(p).drop_last() =~= kvs_view(entry@.take(i as int)));
            }
            let y = self.transform_kv(x);
            proof {
                assert(out@.push(y).drop_last() =~= out@);
            }
            out.push(y);
            i = i + 1;
            proof {
                assert(rest@ =~= entry@.subrange(i as int, n as int));
            }
        }
        proof {
            assert(entry@.take(i as int) =~= entry@);
        }
        out
    }

    fn transform_fields(&mut self, items: Vec<RecordField>) -> (r: Vec<RecordField>)
        ensures
            (fields_view(r@), final(self).var) == pp_parts(fields_view(items@), old(self).var),
        decreases items,
    {
        let ghost entry = items;
        let n = items.len();
        let mut rest = items;
        let mut out: Vec<RecordField> = Vec::new();
        let mut i: usize = 0;
        proof {
            assert(entry@.take(0) =~= Seq::<RecordField>::empty());
            assert(fields_view(out@) =~= Seq::<PartM>::empty());
            assert(rest@ =~= entry@.subrange(0, n as int));
        }
        while rest.len() > 0
            invariant
                entry == items,
                n == entry@.len(),
                i <= n,
                rest@ == entry@.subrange(i as int, n as int),
                (fields_view(out@), self.var) == pp_parts(
                    fields_view(entry@.take(i as int)),
                    old(self).var,
                ),
            decreases rest@.len(),
        {
            let x = rest.remove(0);
            proof {
                assert(x == entry@[i as int]);
                assert(decreases_to!(entry => entry[i as int]));
                let p = entry@.take(i + 1);
                assert(p.drop_last() =~= entry@.take(i as int));
                assert(fields_view(p).drop_last() =~= fields_view(entry@.take(i as int)));
            }
            let y = self.transform_field(x);
            proof {
                assert(out@.push(y).drop_last() =~= out@);
            }
            out.push(y);
            i = i + 1;
            proof {
                assert(rest@ =~= entry@.subrange(i as int, n as int));
            }
        }
        proof {
            assert(entry@.take(i as int) =~= entry@);
        }
        out
    }

    fn transform_named_fields(&mut self, items: Vec<RecordFieldNamed>) -> (r: Vec<RecordFieldNamed>)
        ensures
            (named_fields_view(r@), final(self).var) == pp_parts(named_fields_view(items@), old(self).var),
        decreases items,
    {
        let ghost entry = items;
        let n = items.len();
        let mut rest = items;
        let mut out: Vec<RecordFieldNamed> = Vec::new();
        let mut i: usize = 0;
        proof {
            assert(entry@.take(0) =~= Seq::<RecordFieldNamed>::empty());
            assert(named_fields_view(out@) =~= Seq::<PartM>::empty());
            assert(rest@ =~= entry@.subrange(0, n as int));
        }
        while rest.len() > 0
            invariant
                entry == items,
                n == entry@.len(),
                i <= n,
                rest@ == entry@.subrange(i as int, n as int),
                (named_fields_view(out@), self.var) == pp_parts(
                    named_fields_view(entry@.take(i as int)),
                    old(self).var,
                ),
            decreases rest@.len(),
        {
            let x = rest.remove(0);
            proof {
                assert(x == entry@[i as int]);
                assert(decreases_to!(entry => entry[i as int]));
                let p = entry@.take(i + 1);
                assert(p.drop_last() =~= entry@.take(i as int));
                assert(named_fields_view(p).drop_last() =~= named_fields_view(entry@.take(i as int)));
            }
            let y = self.transform_named_field(x);
            proof {
                assert(out@.push(y).drop_last() =~= out@);
            }
            out.push(y);
            i = i + 1;
            proof {
                assert(rest@ =~= entry@.subrange(i as int, n as int));
            }
        }
        proof {
            assert(entry@.take(i as int) =~= entry@);
        }
        out
    }

    fn transform_elems(&mut self, items: Vec<BinaryElem>) -> (r: Vec<BinaryElem>)
        ensures
            (elems_view(r@), final(self).var) == pp_parts(elems_view(items@), old(self).var),
        decreases items,
    {
        let ghost entry = items;
        let n = items.len();
        let mut rest = items;
        let mut out: Vec<BinaryElem> = Vec::new();
        let mut i: usize = 0;
        proof {
            assert(entry@.take(0) =~= Seq::<BinaryElem>::empty());
            assert(elems_view(out@) =~= Seq::<PartM>::empty());
            assert(rest@ =~= entry@.subrange(0, n as int));
        }
        while rest.len() > 0
            invariant
                entry == items,
                n == entry@.len(),
                i <= n,
                rest@ == entry@.subrange(i as int, n as int),
                (elems_view(out@), self.var) == pp_parts(
                    elems_view(entry@.take(i as int)),
                    old(self).var,
                ),
            decreases rest@.len(),
        {
            let x = rest.remove(0);
            proof {
                assert(x == entry@[i as int]);
                assert(decreases_to!(entry => entry[i as int]));
                let p = entry@.take(i + 1);
                assert(p.drop_last() =~= entry@.take(i as int));
                assert(elems_view(p).drop_last() =~= elems_view(entry@.take(i as int)));
            }
            let y = self.transform_elem(x);
            proof {
                assert(out@.push(y).drop_last() =~= out@);
            }
            out.push(y);
            i = i + 1;
            proof {
                assert(rest@ =~= entry@.subrange(i as int, n as int));
            }
        }
        proof {
            assert(entry@.take(i as int) =~= entry@);
        }
        out
    }

    fn transform_quals(&mut self, items: Vec<Qualifier>) -> (r: Vec<Qualifier>)
        ensures
            (quals_view(r@), final(self).var) == pp_parts(quals_view(items@), old(self).var),
        decreases items,
    {
        let ghost entry = items;
        let n = items.len();
        let mut rest = items;
        let mut out: Vec<Qualifier> = Vec::new();
        let mut i: usize = 0;
        proof {
            assert(entry@.take(0) =~= Seq::<Qualifier>::empty());
            assert(quals_view(out@) =~= Seq::<PartM>::empty());
            assert(rest@ =~= entry@.subrange(0, n as int));
        }
        while rest.len() > 0
            invariant
                entry == items,
                n == entry@.len(),
                i <= n,
                rest@ == entry@.subrange(i as int, n as int),
                (quals_view(out@), self.var) == pp_parts(
                    quals_view(entry@.take(i as int)),
                    old(self).var,
                ),
            decreases rest@.len(),
        {
            let x = rest.remove(0);
            proof {
                assert(x == entry@[i as int]);
                assert(decreases_to!(entry => entry[i as int]));
                let p = entry@.take(i + 1);
                assert(p.drop_last() =~= entry@.take(i as int));
                assert(quals_view(p).drop_last() =~= quals_view(entry@.take(i as int)));
            }
            let y = self.transform_qual(x);
            proof {
                assert(out@.push(y).drop_last() =~= out@);
            }
            out.push(y);
            i = i + 1;
            proof {
                assert(rest@ =~= entry@.subrange(i as int, n as int));
            }
        }
        proof {
            assert(entry@.take(i as int) =~= entry@);
        }
        out
    }

    pub fn transform_clause(&mut self, clause: Clause) -> (r: Clause)
        ensures
            (clause_view(r), final(self).var) == pp_clause(clause_view(clause), old(self).var),
        decreases clause,
    {
        let exprs = self.transform_exprs(clause.body.exprs);
        Clause { location: clause.location, pats: clause.pats, guards: clause.guards, body: Body { exprs } }
    }

    pub fn transform_clauses(&mut self, clauses: Vec<Clause>) -> (r: Vec<Clause>)
        ensures
            (clauses_view(r@), final(self).var) == pp_clauses(clauses_view(clauses@), old(self).var),
        decreases clauses,
    {
        let ghost entry = clauses;
        let n = clauses.len();
        let mut rest = clauses;
        let mut out: Vec<Clause> = Vec::new();
        let mut i: usize = 0;
        proof {
            assert(entry@.take(0) =~= Seq::<Clause>::empty());
            assert(clauses_view(out@) =~= Seq::<ClauseM>::empty());
            assert(rest@ =~= entry@.subrange(0, n as int));
        }
        while rest.len() > 0
            invariant
                entry == clauses,
                n == entry@.len(),
                i <= n,
                rest@ == entry@.subrange(i as int, n as int),
                (clauses_view(out@), self.var) == pp_clauses(
                    clauses_view(entry@.take(i as int)),
                    old(self).var,
                ),
            decreases rest@.len(),
        {
            let x = rest.remove(0);
            proof {
                assert(x == entry@[i as int]);
                assert(decreases_to!(entry => entry[i as int]));
                let p = entry@.take(i + 1);
                assert(p.drop_last() =~= entry@.take(i as int));
                assert(clauses_view(p).drop_last() =~= clauses_view(entry@.take(i as int)));
            }
            let y = self.transform_clause(x);
            proof {
                assert(out@.push(y).drop_last() =~= out@);
            }
            out.push(y);
            i = i + 1;
            proof {
                assert(rest@ =~= entry@.subrange(i as int, n as int));
            }
        }
        proof {
            assert(entry@.take(i as int) =~= entry@);
        }
        out
    }
}

/// The rewritten forms: the clauses of each function are rewritten, in order.
pub open spec fn pp_forms(s: Seq<FormM>, n: u64) -> (Seq<FormM>, u64)
    decreases s.len(),
{
    if s.len() == 0 {
        (s, n)
    } else {
        let (front, m) = pp_forms(s.drop_last(), n);
        let (f, k) = pp_form(s.last(), m);
        (front.push(f), k)
    }
}

pub open spec fn pp_form(f: FormM, n: u64) -> (FormM, u64) {
    match f {
        FormM::FunDecl { location, id, clauses } => {
            let (cs, k) = pp_clauses(clauses, n);
            (FormM::FunDecl { location, id, clauses: cs }, k)
        },
        FormM::Other(_) => (f, n),
    }
}

impl Preprocessor {
    pub fn transform_form(&mut self, form: ExternalForm) -> (r: ExternalForm)
        ensures
            (form_view(r), final(self).var) == pp_form(form_view(form), old(self).var),
    {
        match form {
            ExternalForm::FunDecl(d) => {
                let clauses = self.transform_clauses(d.clauses);
                ExternalForm::FunDecl(FunDecl { location: d.location, id: d.id, clauses })
            },
            other => other,
        }
    }
}

/// Rewrites the predicate argument of every `lists:partition/2` call in the
/// module's function bodies into a two-clause lambda; see [`pp_expr`].
pub fn preprocess(ast: Vec<ExternalForm>) -> (r: Vec<ExternalForm>)
    ensures
        forms_view(r@) == pp_forms(forms_view(ast@), 0).0,
{
    let mut preprocessor = Preprocessor { var: 0 };
    let ghost entry = ast@;
    let n = ast.len();
    let mut rest = ast;
    let mut out: Vec<ExternalForm> = Vec::new();
    let mut i: usize = 0;
    proof {
        assert(entry.take(0) =~= Seq::<ExternalForm>::empty());
        assert(forms_view(out@) =~= Seq::<FormM>::empty());
        assert(rest@ =~= entry.subrange(0, n as int));
    }
    while rest.len() > 0
        invariant
            n == entry.len(),
            i <= n,
            rest@ == entry.subrange(i as int, n as int),
            (forms_view(out@), preprocessor.var) == pp_forms(forms_view(entry.take(i as int)), 0),
        decreases rest@.len(),
    {
        let x = rest.remove(0);
        let y = preprocessor.transform_form(x);
        proof {
            assert(x == entry[i as int]);
            let p = entry.take(i + 1);
            assert(p.drop_last() =~= entry.take(i as int));
            assert(forms_view(p) == forms_view(entry.take(i as int)).push(form_view(x)));
            assert(forms_view(p).drop_last() =~= forms_view(entry.take(i as int)));
            assert(out@.push(y).drop_last() =~= out@);
            assert(forms_view(out@.push(y)) == forms_view(out@).push(form_view(y)));
        }
        out.push(y);
        i = i + 1;
        proof {
            assert(rest@ =~= entry.subrange(i as int, n as int));
        }
    }
    proof {
        assert(entry.take(i as int) =~= entry);
    }
    out
}

// ---------------------------------------------------------------- laws

/// Holds no `lists:partition/2` call whose predicate argument the pass would rewrite.
pub open spec fn settled_expr(e: ExprM) -> bool
    decreases e,
{
    match e {
        ExprM::Tuple { elems, .. } => settled_exprs(elems),
        ExprM::Cons { h, t, .. } => settled_expr(*h) && settled_expr(*t),
        ExprM::Block { body, .. } => settled_exprs(body),
        ExprM::Match { expr, .. } => settled_expr(*expr),
        ExprM::Case { expr, clauses, .. } => settled_expr(*expr) && settled_clauses(clauses),
        ExprM::LocalCall { args, .. } => settled_exprs(args),
        ExprM::RemoteCall { id, args, .. } => if is_partition(id) && args.len() == 2 {
            !arg_rewritable(args[0])
        } else {
            settled_exprs(args)
        },
        ExprM::Lambda { clauses, .. } => settled_clauses(clauses),
        ExprM::UnOp { arg, .. } => settled_expr(*arg),
        ExprM::BinOp { arg_1, arg_2, .. } => settled_expr(*arg_1) && settled_expr(*arg_2),
        ExprM::Catch { expr, .. } => settled_expr(*expr),
        ExprM::If { clauses, .. } => settled_clauses(clauses),
        ExprM::Receive { clauses, .. } => settled_clauses(clauses),
        ExprM::ReceiveWithTimeout { clauses, timeout, timeout_body, .. } => settled_clauses(clauses)
            && settled_expr(*timeout) && settled_exprs(timeout_body),
        ExprM::TryCatch { try_body, catch_clauses, after_body, .. } => settled_exprs(try_body)
            && settled_clauses(catch_clauses) && match after_body {
            Some(a) => settled_exprs(a),
            None => true,
        },
        ExprM::Maybe { body, .. } => settled_exprs(body),
        ExprM::MaybeElse { body, else_clauses, .. } => settled_exprs(body) && settled_clauses(else_clauses),
        ExprM::DynCall { f, args, .. } => settled_expr(*f) && settled_exprs(args),
        ExprM::DynRemoteFun { module, name, .. } => settled_expr(*module) && settled_expr(*name),
        ExprM::DynRemoteFunArity { module, name, arity, .. } => settled_expr(*module) && settled_expr(*name)
            && settled_expr(*arity),
        ExprM::TryOf { try_body, try_clauses, catch_clauses, after_body, .. } => settled_exprs(try_body)
            && settled_clauses(try_clauses) && settled_clauses(catch_clauses) && match after_body {
            Some(a) => settled_exprs(a),
            None => true,
        },
        ExprM::MaybeMatch { arg, .. } => settled_expr(*arg),
        ExprM::RecordSelect { expr, .. } => settled_expr(*expr),
        ExprM::MapCreate { kvs, .. } => settled_parts(kvs),
        ExprM::MapUpdate { map, kvs, .. } => settled_expr(*map) && settled_parts(kvs),
        ExprM::RecordCreate { fields, .. } => settled_parts(fields),
        ExprM::RecordUpdate { expr, fields, .. } => settled_expr(*expr) && settled_parts(fields),
        ExprM::Binary { elems, .. } => settled_parts(elems),
        ExprM::LComprehension { template, qualifiers, .. } => settled_expr(*template) && settled_parts(qualifiers),
        ExprM::BComprehension { template, qualifiers, .. } => settled_expr(*template) && settled_parts(qualifiers),
        ExprM::MComprehension { k_template, v_template, qualifiers, .. } => settled_expr(*k_template)
            && settled_expr(*v_template) && settled_parts(qualifiers),
        _ => true,
    }
}

pub open spec fn settled_exprs(s: Seq<ExprM>) -> bool
    decreases s,
{
    s.len() == 0 || (settled_exprs(s.drop_last()) && settled_expr(s.last()))
}

pub open spec fn settled_part(p: PartM) -> bool
    decreases p,
{
    match p {
        PartM::Pair { k, v } => settled_expr(k) && settled_expr(v),
        PartM::Field { value, .. } => settled_expr(value),
        PartM::Elem { expr, size, .. } => settled_expr(expr) && match size {
            Some(z) => settled_expr(z),
            None => true,
        },
        PartM::Generate { expr, .. } => settled_expr(expr),
    }
}

pub open spec fn settled_parts(s: Seq<PartM>) -> bool
    decreases s,
{
    s.len() == 0 || (settled_parts(s.drop_last()) && settled_part(s.last()))
}

pub open spec fn settled_clause(c: ClauseM) -> bool
    decreases c,
{
    settled_exprs(c.body)
}

pub open spec fn settled_clauses(s: Seq<ClauseM>) -> bool
    decreases s,
{
    s.len() == 0 || (settled_clauses(s.drop_last()) && settled_clause(s.last()))
}

pub open spec fn settled_forms(s: Seq<FormM>) -> bool
    decreases s.len(),
{
    s.len() == 0 || (settled_forms(s.drop_last()) && match s.last() {
        FormM::FunDecl { clauses, .. } => settled_clauses(clauses),
        FormM::Other(_) => true,
    })
}

proof fn lemma_fix_expr(e: ExprM, n: u64)
    requires
        settled_expr(e),
    ensures
        pp_expr(e, n) == (e, n),
    decreases e,
{
    match e {
        ExprM::Tuple { elems, .. } => lemma_fix_exprs(elems, n),
        ExprM::Cons { h, t, .. } => {
            lemma_fix_expr(*h, n);
            lemma_fix_expr(*t, n);
        },
        ExprM::Block { body, .. } => lemma_fix_exprs(body, n),
        ExprM::Match { expr, .. } => lemma_fix_expr(*expr, n),
        ExprM::Case { expr, clauses, .. } => {
            lemma_fix_expr(*expr, n);
            lemma_fix_clauses(clauses, n);
        },
        ExprM::LocalCall { args, .. } => lemma_fix_exprs(args, n),
        ExprM::RemoteCall { id, args, .. } => {
            if is_partition(id) && args.len() == 2 {
                assert(seq![args[0], args[1]] =~= args);
            } else {
                lemma_fix_exprs(args, n);
            }
        },
        ExprM::Lambda { clauses, .. } => lemma_fix_clauses(clauses, n),
        ExprM::UnOp { arg, .. } => lemma_fix_expr(*arg, n),
        ExprM::BinOp { arg_1, arg_2, .. } => {
            lemma_fix_expr(*arg_1, n);
            lemma_fix_expr(*arg_2, n);
        },
        ExprM::Catch { expr, .. } => lemma_fix_expr(*expr, n),
        ExprM::If { clauses, .. } => lemma_fix_clauses(clauses, n),
        ExprM::Receive { clauses, .. } => lemma_fix_clauses(clauses, n),
        ExprM::ReceiveWithTimeout { clauses, timeout, timeout_body, .. } => {
            lemma_fix_clauses(clauses, n);
            lemma_fix_expr(*timeout, n);
            lemma_fix_exprs(timeout_body, n);
        },
        ExprM::TryCatch { try_body, catch_clauses, after_body, .. } => {
            lemma_fix_exprs(try_body, n);
            lemma_fix_clauses(catch_clauses, n);
            if let Some(a) = after_body {
                lemma_fix_exprs(a, n);
            }
        },
        ExprM::Maybe { body, .. } => lemma_fix_exprs(body, n),
        ExprM::MaybeElse { body, else_clauses, .. } => {
            lemma_fix_exprs(body, n);
            lemma_fix_clauses(else_clauses, n);
        },
        ExprM::DynCall { f, args, .. } => {
            lemma_fix_expr(*f, n);
            lemma_fix_exprs(args, n);
        },
        ExprM::DynRemoteFun { module, name, .. } => {
            lemma_fix_expr(*module, n);
            lemma_fix_expr(*name, n);
        },
        ExprM::DynRemoteFunArity { module, name, arity, .. } => {
            lemma_fix_expr(*module, n);
            lemma_fix_expr(*name, n);
            lemma_fix_expr(*arity, n);
        },
        ExprM::TryOf { try_body, try_clauses, catch_clauses, after_body, .. } => {
            lemma_fix_exprs(try_body, n);
            lemma_fix_clauses(try_clauses, n);
            lemma_fix_clauses(catch_clauses, n);
            if let Some(a) = after_body {
                lemma_fix_exprs(a, n);
            }
        },
        ExprM::MaybeMatch { arg, .. } => lemma_fix_expr(*arg, n),
        ExprM::RecordSelect { expr, .. } => lemma_fix_expr(*expr, n),
        ExprM::MapCreate { kvs, .. } => lemma_fix_parts(kvs, n),
        ExprM::MapUpdate { map, kvs, .. } => {
            lemma_fix_expr(*map, n);
            lemma_fix_parts(kvs, n);
        },
        ExprM::RecordCreate { fields, .. } => lemma_fix_parts(fields, n),
        ExprM::RecordUpdate { expr, fields, .. } => {
            lemma_fix_expr(*expr, n);
            lemma_fix_parts(fields, n);
        },
        ExprM::Binary { elems, .. } => lemma_fix_parts(elems, n),
        ExprM::LComprehension { template, qualifiers, .. } => {
            lemma_fix_expr(*template, n);
            lemma_fix_parts(qualifiers, n);
        },
        ExprM::BComprehension { template, qualifiers, .. } => {
            lemma_fix_expr(*template, n);
            lemma_fix_parts(qualifiers, n);
        },
        ExprM::MComprehension { k_template, v_template, qualifiers, .. } => {
            lemma_fix_expr(*k_template, n);
            lemma_fix_expr(*v_template, n);
            lemma_fix_parts(qualifiers, n);
        },
        _ => {},
    }
}

proof fn lemma_fix_exprs(s: Seq<ExprM>, n: u64)
    requires
        settled_exprs(s),
    ensures
        pp_exprs(s, n) == (s, n),
    decreases s,
{
    if s.len() > 0 {
        lemma_fix_exprs(s.drop_last(), n);
        lemma_fix_expr(s.last(), n);
        assert(s.drop_last().push(s.last()) =~= s);
    }
}

proof fn lemma_fix_part(p: PartM, n: u64)
    requires
        settled_part(p),
    ensures
        pp_part(p, n) == (p, n),
    decreases p,
{
    match p {
        PartM::Pair { k, v } => {
            lemma_fix_expr(k, n);
            lemma_fix_expr(v, n);
        },
        PartM::Field { value, .. } => lemma_fix_expr(value, n),
        PartM::Elem { expr, size, .. } => {
            lemma_fix_expr(expr, n);
            if let Some(z) = size {
                lemma_fix_expr(z, n);
            }
        },
        PartM::Generate { expr, .. } => lemma_fix_expr(expr, n),
    }
}

proof fn lemma_fix_parts(s: Seq<PartM>, n: u64)
    requires
        settled_parts(s),
    ensures
        pp_parts(s, n) == (s, n),
    decreases s,
{
    if s.len() > 0 {
        lemma_fix_parts(s.drop_last(), n);
        lemma_fix_part(s.last(), n);
        assert(s.drop_last().push(s.last()) =~= s);
    }
}

proof fn lemma_fix_clause(c: ClauseM, n: u64)
    requires
        settled_clause(c),
    ensures
        pp_clause(c, n) == (c, n),
    decreases c,
{
    lemma_fix_exprs(c.body, n);
}

proof fn lemma_fix_clauses(s: Seq<ClauseM>, n: u64)
    requires
        settled_clauses(s),
    ensures
        pp_clauses(s, n) == (s, n),
    decreases s,
{
    if s.len() > 0 {
        lemma_fix_clauses(s.drop_last(), n);
        lemma_fix_clause(s.last(), n);
        assert(s.drop_last().push(s.last()) =~= s);
    }
}

proof fn lemma_fix_forms(s: Seq<FormM>, n: u64)
    requires
        settled_forms(s),
    ensures
        pp_forms(s, n) == (s, n),
    decreases s.len(),
{
    if s.len() > 0 {
        lemma_fix_forms(s.drop_last(), n);
        if let FormM::FunDecl { clauses, .. } = s.last() {
            lemma_fix_clauses(clauses, n);
        }
        assert(s.drop_last().push(s.last()) =~= s);
    }
}

proof fn lemma_settles_expr(e: ExprM, n: u64)
    ensures
        settled_expr(pp_expr(e, n).0),
    decreases e,
{
    match e {
        ExprM::Tuple { elems, .. } => lemma_settles_exprs(elems, n),
        ExprM::Cons { h, t, .. } => {
            lemma_settles_expr(*h, n);
            lemma_settles_expr(*t, pp_expr(*h, n).1);
        },
        ExprM::Block { body, .. } => lemma_settles_exprs(body, n),
        ExprM::Match { expr, .. } => lemma_settles_expr(*expr, n),
        ExprM::Case { expr, clauses, .. } => {
            lemma_settles_expr(*expr, n);
            lemma_settles_clauses(clauses, pp_expr(*expr, n).1);
        },
        ExprM::LocalCall { args, .. } => lemma_settles_exprs(args, n),
        ExprM::RemoteCall { location, id, args } => {
            if is_partition(id) && args.len() == 2 {
                let a = rewrite_arg(location, args[0], n).0;
                assert(seq![a, args[1]][0] == a);
            } else {
                lemma_settles_exprs(args, n);
            }
        },
        ExprM::Lambda { clauses, .. } => lemma_settles_clauses(clauses, n),
        ExprM::UnOp { arg, .. } => lemma_settles_expr(*arg, n),
        ExprM::BinOp { arg_1, arg_2, .. } => {
            lemma_settles_expr(*arg_1, n);
            lemma_settles_expr(*arg_2, pp_expr(*arg_1, n).1);
        },
        ExprM::Catch { expr, .. } => lemma_settles_expr(*expr, n),
        ExprM::If { clauses, .. } => lemma_settles_clauses(clauses, n),
        ExprM::Receive { clauses, .. } => lemma_settles_clauses(clauses, n),
        ExprM::ReceiveWithTimeout { clauses, timeout, timeout_body, .. } => {
            lemma_settles_clauses(clauses, n);
            let n1 = pp_clauses(clauses, n).1;
            lemma_settles_expr(*timeout, n1);
            lemma_settles_exprs(timeout_body, pp_expr(*timeout, n1).1);
        },
        ExprM::TryCatch { try_body, catch_clauses, after_body, .. } => {
            lemma_settles_exprs(try_body, n);
            let n1 = pp_exprs(try_body, n).1;
            lemma_settles_clauses(catch_clauses, n1);
            if let Some(a) = after_body {
                lemma_settles_exprs(a, pp_clauses(catch_clauses, n1).1);
            }
        },
        ExprM::Maybe { body, .. } => lemma_settles_exprs(body, n),
        ExprM::MaybeElse { body, else_clauses, .. } => {
            lemma_settles_exprs(body, n);
            lemma_settles_clauses(else_clauses, pp_exprs(body, n).1);
        },
        ExprM::DynCall { f, args, .. } => {
            lemma_settles_expr(*f, n);
            lemma_settles_exprs(args, pp_expr(*f, n).1);
        },
        ExprM::DynRemoteFun { module, name, .. } => {
            lemma_settles_expr(*module, n);
            lemma_settles_expr(*name, pp_expr(*module, n).1);
        },
        ExprM::DynRemoteFunArity { module, name, arity, .. } => {
            lemma_settles_expr(*module, n);
            let n1 = pp_expr(*module, n).1;
            lemma_settles_expr(*name, n1);
            lemma_settles_expr(*arity, pp_expr(*name, n1).1);
        },
        ExprM::TryOf { try_body, try_clauses, catch_clauses, after_body, .. } => {
            lemma_settles_exprs(try_body, n);
            let n1 = pp_exprs(try_body, n).1;
            lemma_settles_clauses(try_clauses, n1);
            let n2 = pp_clauses(try_clauses, n1).1;
            lemma_settles_clauses(catch_clauses, n2);
            if let Some(a) = after_body {
                lemma_settles_exprs(a, pp_clauses(catch_clauses, n2).1);
            }
        },
        ExprM::MaybeMatch { arg, .. } => lemma_settles_expr(*arg, n),
        ExprM::RecordSelect { expr, .. } => lemma_settles_expr(*expr, n),
        ExprM::MapCreate { kvs, .. } => lemma_settles_parts(kvs, n),
        ExprM::MapUpdate { map, kvs, .. } => {
            lemma_settles_expr(*map, n);
            lemma_settles_parts(kvs, pp_expr(*map, n).1);
        },
        ExprM::RecordCreate { fields, .. } => lemma_settles_parts(fields, n),
        ExprM::RecordUpdate { expr, fields, .. } => {
            lemma_settles_expr(*expr, n);
            lemma_settles_parts(fields, pp_expr(*expr, n).1);
        },
        ExprM::Binary { elems, .. } => lemma_settles_parts(elems, n),
        ExprM::LComprehension { template, qualifiers, .. } => {
            lemma_settles_expr(*template, n);
            lemma_settles_parts(qualifiers, pp_expr(*template, n).1);
        },
        ExprM::BComprehension { template, qualifiers, .. } => {
            lemma_settles_expr(*template, n);
            lemma_settles_parts(qualifiers, pp_expr(*template, n).1);
        },
        ExprM::MComprehension { k_template, v_template, qualifiers, .. } => {
            lemma_settles_expr(*k_template, n);
            let n1 = pp_expr(*k_template, n).1;
            lemma_settles_expr(*v_template, n1);
            lemma_settles_parts(qualifiers, pp_expr(*v_template, n1).1);
        },
        _ => {},
    }
}

proof fn lemma_settles_exprs(s: Seq<ExprM>, n: u64)
    ensures
        settled_exprs(pp_exprs(s, n).0),
        pp_exprs(s, n).0.len() == s.len(),
    decreases s,
{
    if s.len() > 0 {
        lemma_settles_exprs(s.drop_last(), n);
        let (front, m) = pp_exprs(s.drop_last(), n);
        lemma_settles_expr(s.last(), m);
        let r = pp_exprs(s, n).0;
        assert(r.drop_last() =~= front);
    }
}

proof fn lemma_settles_part(p: PartM, n: u64)
    ensures
        settled_part(pp_part(p, n).0),
    decreases p,
{
    match p {
        PartM::Pair { k, v } => {
            lemma_settles_expr(k, n);
            lemma_settles_expr(v, pp_expr(k, n).1);
        },
        PartM::Field { value, .. } => lemma_settles_expr(value, n),
        PartM::Elem { expr, size, .. } => {
            lemma_settles_expr(expr, n);
            if let Some(z) = size {
                lemma_settles_expr(z, pp_expr(expr, n).1);
            }
        },
        PartM::Generate { expr, .. } => lemma_settles_expr(expr, n),
    }
}

proof fn lemma_settles_parts(s: Seq<PartM>, n: u64)
    ensures
        settled_parts(pp_parts(s, n).0),
        pp_parts(s, n).0.len() == s.len(),
    decreases s,
{
    if s.len() > 0 {
        lemma_settles_parts(s.drop_last(), n);
        let (front, m) = pp_parts(s.drop_last(), n);
        lemma_settles_part(s.last(), m);
        let r = pp_parts(s, n).0;
        assert(r.drop_last() =~= front);
    }
}

proof fn lemma_settles_clause(c: ClauseM, n: u64)
    ensures
        settled_clause(pp_clause(c, n).0),
    decreases c,
{
    lemma_settles_exprs(c.body, n);
}

proof fn lemma_settles_clauses(s: Seq<ClauseM>, n: u64)
    ensures
        settled_clauses(pp_clauses(s, n).0),
        pp_clauses(s, n).0.len() == s.len(),
    decreases s,
{
    if s.len() > 0 {
        lemma_settles_clauses(s.drop_last(), n);
        let (front, m) = pp_clauses(s.drop_last(), n);
        lemma_settles_clause(s.last(), m);
        let r = pp_clauses(s, n).0;
        assert(r.drop_last() =~= front);
    }
}

proof fn lemma_settles_forms(s: Seq<FormM>, n: u64)
    ensures
        settled_forms(pp_forms(s, n).0),
        pp_forms(s, n).0.len() == s.len(),
    decreases s.len(),
{
    if s.len() > 0 {
        lemma_settles_forms(s.drop_last(), n);
        let (front, m) = pp_forms(s.drop_last(), n);
        if let FormM::FunDecl { clauses, .. } = s.last() {
            lemma_settles_clauses(clauses, m);
        }
        let r = pp_forms(s, n).0;
        assert(r.drop_last() =~= front);
    }
}

/// Preprocessing is idempotent: a second pass, from any counter, changes
/// nothing that the first produced.
pub proof fn lemma_preprocess_idempotent(ast: Seq<FormM>, n: u64, m: u64)
    ensures
        pp_forms(pp_forms(ast, n).0, m).0 == pp_forms(ast, n).0,
{
    lemma_settles_forms(ast, n);
    lemma_fix_forms(pp_forms(ast, n).0, m);
}

/// A module with no `lists:partition/2` call whose predicate argument is a
/// type-test reference or a test-like one-clause lambda comes out unchanged,
/// and no variable is made up.
pub proof fn lemma_preprocess_identity(ast: Seq<FormM>, n: u64)
    requires
        settled_forms(ast),
    ensures
        pp_forms(ast, n) == (ast, n),
{
    lemma_fix_forms(ast, n);
}

proof fn lemma_views_of_two_clauses(cs: Seq<Clause>)
    requires
        cs.len() == 2,
    ensures
        clauses_view(cs) == seq![clause_view(cs[0]), clause_view(cs[1])],
{
    lemma_clauses_view(cs);
    assert(clauses_view(cs) =~= seq![clause_view(cs[0]), clause_view(cs[1])]);
}

/// The views of one-element sequences.
proof fn lemma_singleton_views(p: Pat, t: Test, e: Expr, g: Guard)
    ensures
        pats_view(seq![p]) == seq![pat_view(p)],
        tests_view(seq![t]) == seq![test_view(t)],
        exprs_view(seq![e]) == seq![expr_view(e)],
        guards_view(seq![g]) == seq![tests_view(g.tests@)],
        guards_view(Seq::<Guard>::empty()) == Seq::<Seq<TestM>>::empty(),
{
    lemma_pats_view(seq![p]);
    assert(pats_view(seq![p]) =~= seq![pat_view(p)]);
    lemma_tests_view(seq![t]);
    assert(tests_view(seq![t]) =~= seq![test_view(t)]);
    lemma_exprs_view(seq![e]);
    assert(exprs_view(seq![e]) =~= seq![expr_view(e)]);
    lemma_guards_one(g);
}

proof fn lemma_tests_view(s: Seq<Test>)
    ensures
        tests_view(s).len() == s.len(),
        forall|i: int| 0 <= i < s.len() ==> tests_view(s)[i] == test_view(#[trigger] s[i]),
    decreases s.len(),
{
    if s.len() > 0 {
        lemma_tests_view(s.drop_last());
        assert forall|i: int| 0 <= i < s.len() implies tests_view(s)[i] == test_view(s[i]) by {
            if i < s.len() - 1 {
                assert(s.drop_last()[i] == s[i]);
            }
        }
    }
}

proof fn lemma_guards_one(g: Guard)
    ensures
        guards_view(seq![g]) == seq![tests_view(g.tests@)],
        guards_view(Seq::<Guard>::empty()) == Seq::<Seq<TestM>>::empty(),
{
    let s = seq![g];
    assert(s.drop_last() =~= Seq::<Guard>::empty());
    assert(s.last() == g);
    assert(guards_view(Seq::<Guard>::empty()) =~= Seq::<Seq<TestM>>::empty());
    assert(guards_view(s) == guards_view(s.drop_last()).push(tests_view(s.last().tests@)));
    assert(guards_view(s) =~= seq![tests_view(g.tests@)]);
}

} // verus!
