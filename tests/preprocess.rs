use eqwalizer_ipc::ast::{LComprehension, LGenerate, MapCreate, Qualifier};
use eqwalizer_ipc::ast::{If, Receive};
use eqwalizer_ipc::ast::{
    AtomLit, BinOp, Body, Clause, Expr, ExternalForm, FunDecl, Guard, Id, IntLit, Lambda, ModuleAttr, Pat,
    PatVar, Pos, RemoteCall, RemoteFun, RemoteId, Test, TestBinOp, TestCall, TestNumber, TestVar, Tuple, Var,
};
use eqwalizer_ipc::preprocess::{as_test, preprocess, Preprocessor};

fn pos(start: u32, end: u32) -> Pos {
    Pos { start, end }
}

fn rid(module: &str, name: &str, arity: u32) -> RemoteId {
    RemoteId { module: module.to_string(), name: name.to_string(), arity }
}

fn var(n: &str, p: Pos) -> Expr {
    Expr::Var(Var { location: p, n: n.to_string() })
}

fn atom(s: &str, p: Pos) -> Expr {
    Expr::AtomLit(AtomLit { location: p, s: s.to_string() })
}

fn partition(arg: Expr, p: Pos) -> Expr {
    Expr::RemoteCall(RemoteCall { location: p, id: rid("lists", "partition", 2), args: vec![arg, var("L", pos(40, 41))] })
}

fn module_with(body: Expr) -> Vec<ExternalForm> {
    vec![
        ExternalForm::Module(ModuleAttr { location: pos(0, 10), name: "m".to_string() }),
        ExternalForm::FunDecl(FunDecl {
            location: pos(11, 60),
            id: Id { name: "f".to_string(), arity: 1 },
            clauses: vec![Clause {
                location: pos(11, 60),
                pats: vec![Pat::PatVar(PatVar { location: pos(13, 14), n: "L".to_string() })],
                guards: vec![],
                body: Body { exprs: vec![body] },
            }],
        }),
    ]
}

fn body_of(forms: &[ExternalForm]) -> &Expr {
    match &forms[1] {
        ExternalForm::FunDecl(d) => &d.clauses[0].body.exprs[0],
        _ => panic!("not a function"),
    }
}

#[test]
fn partition_with_type_test_reference_is_eta_expanded() {
    let call_pos = pos(20, 50);
    let arg = Expr::RemoteFun(RemoteFun { location: pos(30, 45), id: rid("erlang", "is_atom", 1) });
    let out = preprocess(module_with(partition(arg, call_pos)));
    let expected_fun = Expr::Lambda(Lambda {
        location: call_pos,
        name: None,
        clauses: vec![
            Clause {
                location: call_pos,
                pats: vec![Pat::PatVar(PatVar { location: call_pos, n: "$pp0".to_string() })],
                guards: vec![Guard {
                    tests: vec![Test::TestCall(TestCall {
                        location: call_pos,
                        id: Id { name: "is_atom".to_string(), arity: 1 },
                        args: vec![Test::TestVar(TestVar { location: call_pos, v: "$pp0".to_string() })],
                    })],
                }],
                body: Body { exprs: vec![atom("true", call_pos)] },
            },
            Clause {
                location: call_pos,
                pats: vec![Pat::PatVar(PatVar { location: call_pos, n: "$pp0".to_string() })],
                guards: vec![],
                body: Body { exprs: vec![atom("false", call_pos)] },
            },
        ],
    });
    assert_eq!(body_of(&out), &partition(expected_fun, call_pos));
}

#[test]
fn partition_with_test_lambda_gets_a_guard() {
    let call_pos = pos(20, 50);
    let clause_pos = pos(24, 38);
    let cmp = Expr::BinOp(BinOp {
        location: pos(31, 36),
        op: ">".to_string(),
        arg_1: Box::new(var("X", pos(31, 32))),
        arg_2: Box::new(Expr::IntLit(IntLit { location: pos(35, 36), value: Some(0) })),
    });
    let lambda = Expr::Lambda(Lambda {
        location: pos(21, 38),
        name: None,
        clauses: vec![Clause {
            location: clause_pos,
            pats: vec![Pat::PatVar(PatVar { location: pos(25, 26), n: "X".to_string() })],
            guards: vec![],
            body: Body { exprs: vec![cmp] },
        }],
    });
    let out = preprocess(module_with(partition(lambda, call_pos)));
    let test = Test::TestBinOp(TestBinOp {
        location: pos(31, 36),
        op: ">".to_string(),
        arg_1: Box::new(Test::TestVar(TestVar { location: pos(31, 32), v: "X".to_string() })),
        arg_2: Box::new(Test::TestNumber(TestNumber { location: pos(35, 36), lit: Some(0) })),
    });
    let expected_fun = Expr::Lambda(Lambda {
        location: pos(21, 38),
        name: None,
        clauses: vec![
            Clause {
                location: clause_pos,
                pats: vec![Pat::PatVar(PatVar { location: pos(25, 26), n: "X".to_string() })],
                guards: vec![Guard { tests: vec![test] }],
                body: Body { exprs: vec![atom("true", clause_pos)] },
            },
            Clause {
                location: clause_pos,
                pats: vec![Pat::PatVar(PatVar { location: clause_pos, n: "$pp0".to_string() })],
                guards: vec![],
                body: Body { exprs: vec![atom("false", clause_pos)] },
            },
        ],
    });
    assert_eq!(body_of(&out), &partition(expected_fun, call_pos));
}

#[test]
fn preprocessing_twice_changes_nothing_more() {
    let arg = Expr::RemoteFun(RemoteFun { location: pos(30, 45), id: rid("erlang", "is_list", 1) });
    let once = preprocess(module_with(partition(arg, pos(20, 50))));
    let arg = Expr::RemoteFun(RemoteFun { location: pos(30, 45), id: rid("erlang", "is_list", 1) });
    let again = preprocess(preprocess(module_with(partition(arg, pos(20, 50)))));
    assert_eq!(once, again);
}

#[test]
fn other_calls_are_left_alone() {
    let make = || {
        let arg = Expr::RemoteFun(RemoteFun { location: pos(30, 45), id: rid("erlang", "is_atom", 1) });
        Expr::Tuple(Tuple {
            location: pos(18, 59),
            elems: vec![
                Expr::RemoteCall(RemoteCall {
                    location: pos(20, 50),
                    id: rid("lists", "filter", 2),
                    args: vec![arg, var("L", pos(40, 41))],
                }),
                atom("ok", pos(52, 54)),
            ],
        })
    };
    assert_eq!(preprocess(module_with(make())), module_with(make()));
}

#[test]
fn non_predicate_reference_is_kept() {
    let make = || Expr::RemoteFun(RemoteFun { location: pos(30, 45), id: rid("m", "check", 1) });
    let out = preprocess(module_with(partition(make(), pos(20, 50))));
    assert_eq!(body_of(&out), &partition(make(), pos(20, 50)));
}

#[test]
fn lambda_with_non_test_body_is_kept() {
    let make = || {
        Expr::Lambda(Lambda {
            location: pos(21, 38),
            name: None,
            clauses: vec![Clause {
                location: pos(24, 38),
                pats: vec![Pat::PatVar(PatVar { location: pos(25, 26), n: "X".to_string() })],
                guards: vec![],
                body: Body {
                    exprs: vec![Expr::RemoteCall(RemoteCall {
                        location: pos(31, 36),
                        id: rid("m", "check", 1),
                        args: vec![var("X", pos(33, 34))],
                    })],
                },
            }],
        })
    };
    let out = preprocess(module_with(partition(make(), pos(20, 50))));
    assert_eq!(body_of(&out), &partition(make(), pos(20, 50)));
}

#[test]
fn fresh_names_count_up() {
    let mut p = Preprocessor { var: 9 };
    assert_eq!(p.fresh_var(), "$pp9");
    assert_eq!(p.fresh_var(), "$pp10");
    assert_eq!(p.var, 11);
}

#[test]
fn remote_type_test_call_reads_as_guard_test() {
    let e = Expr::RemoteCall(RemoteCall {
        location: pos(1, 12),
        id: rid("erlang", "is_record", 2),
        args: vec![var("X", pos(11, 12)), atom("rec", pos(13, 16))],
    });
    let t = as_test(&e).unwrap();
    match t {
        Test::TestCall(c) => {
            assert_eq!(c.id, Id { name: "is_record".to_string(), arity: 2 });
            assert_eq!(c.args.len(), 2);
        }
        _ => panic!("expected a call"),
    }
    let not_test = Expr::RemoteCall(RemoteCall { location: pos(1, 12), id: rid("erlang", "is_atom", 2), args: vec![] });
    assert!(as_test(&not_test).is_none());
}

#[test]
fn partition_inside_if_and_receive_is_rewritten() {
    let make = |arg: Expr| {
        Expr::If(If {
            location: pos(15, 70),
            clauses: vec![Clause {
                location: pos(16, 69),
                pats: vec![],
                guards: vec![],
                body: Body {
                    exprs: vec![Expr::Receive(Receive {
                        location: pos(18, 68),
                        clauses: vec![Clause {
                            location: pos(19, 67),
                            pats: vec![Pat::PatVar(PatVar { location: pos(19, 20), n: "M".to_string() })],
                            guards: vec![],
                            body: Body { exprs: vec![partition(arg, pos(20, 50))] },
                        }],
                    })],
                },
            }],
        })
    };
    let is_atom = Expr::RemoteFun(RemoteFun { location: pos(30, 45), id: rid("erlang", "is_atom", 1) });
    let out = preprocess(module_with(make(is_atom)));
    let once_more = preprocess(preprocess(module_with(make(Expr::RemoteFun(RemoteFun {
        location: pos(30, 45),
        id: rid("erlang", "is_atom", 1),
    })))));
    assert_eq!(out, once_more);
    let inner = match body_of(&out) {
        Expr::If(i) => match &i.clauses[0].body.exprs[0] {
            Expr::Receive(r) => &r.clauses[0].body.exprs[0],
            _ => panic!("expected receive"),
        },
        _ => panic!("expected if"),
    };
    match inner {
        Expr::RemoteCall(c) => assert!(matches!(&c.args[0], Expr::Lambda(l) if l.clauses.len() == 2)),
        _ => panic!("expected call"),
    }
}

#[test]
fn partition_inside_map_and_comprehension_is_rewritten() {
    let make = || {
        let arg = Expr::RemoteFun(RemoteFun { location: pos(30, 45), id: rid("erlang", "is_atom", 1) });
        Expr::MapCreate(MapCreate {
            location: pos(15, 90),
            kvs: vec![(
                atom("k", pos(16, 17)),
                Expr::LComprehension(LComprehension {
                    location: pos(18, 89),
                    template: Box::new(var("X", pos(19, 20))),
                    qualifiers: vec![Qualifier::LGenerate(LGenerate {
                        pat: Pat::PatVar(PatVar { location: pos(22, 23), n: "X".to_string() }),
                        expr: partition(arg, pos(25, 60)),
                    })],
                }),
            )],
        })
    };
    let out = preprocess(module_with(make()));
    assert_ne!(out, module_with(make()));
    assert_eq!(preprocess(preprocess(module_with(make()))), out);
    let inner = match body_of(&out) {
        Expr::MapCreate(m) => match &m.kvs[0].1 {
            Expr::LComprehension(c) => match &c.qualifiers[0] {
                Qualifier::LGenerate(g) => &g.expr,
                _ => panic!("expected generator"),
            },
            _ => panic!("expected comprehension"),
        },
        _ => panic!("expected map"),
    };
    match inner {
        Expr::RemoteCall(c) => assert!(matches!(&c.args[0], Expr::Lambda(l) if l.clauses.len() == 2)),
        _ => panic!("expected call"),
    }
}
