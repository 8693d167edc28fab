use eqwalizer_ipc::ast::Pos;
use eqwalizer_ipc::diagnostics::{EqwalizerDiagnostic, EqwalizerDiagnostics, TypeInfo};
use eqwalizer_ipc::table::ModuleTable;

fn diag(msg: &str) -> EqwalizerDiagnostic {
    EqwalizerDiagnostic {
        range: Pos { start: 1, end: 5 },
        message: msg.to_string(),
        uri: "https://example.org/eqwalizer".to_string(),
        code: "incompatible_types".to_string(),
        expression: Some("X".to_string()),
        explanation: None,
    }
}

fn diagnostics(entries: &[(&str, &str)]) -> EqwalizerDiagnostics {
    let mut errors = ModuleTable::new();
    for (m, msg) in entries {
        errors.insert(m.to_string(), vec![diag(msg)]);
    }
    let mut type_info = ModuleTable::new();
    type_info.insert("a".to_string(), vec![TypeInfo { pos: Pos { start: 0, end: 1 }, ty: "atom()".to_string() }]);
    EqwalizerDiagnostics::Diagnostics { errors, type_info }
}

#[test]
fn combine_with_empty_keeps_value() {
    let x = diagnostics(&[("a", "e1"), ("b", "e2")]);
    assert_eq!(x.clone().combine(EqwalizerDiagnostics::empty()), x);
    let e = EqwalizerDiagnostics::Error("boom".to_string());
    assert_eq!(e.clone().combine(EqwalizerDiagnostics::default()), e);
    let n = EqwalizerDiagnostics::NoAst { module: "m".to_string() };
    assert_eq!(n.clone().combine(EqwalizerDiagnostics::empty()), n);
}

#[test]
fn error_absorbs_diagnostics_on_either_side() {
    let e = EqwalizerDiagnostics::Error("boom".to_string());
    assert_eq!(e.clone().combine(diagnostics(&[("a", "e1")])), e);
    assert_eq!(diagnostics(&[("a", "e1")]).combine(e.clone()), e);
    let n = EqwalizerDiagnostics::NoAst { module: "m".to_string() };
    assert_eq!(n.clone().combine(diagnostics(&[("a", "e1")])), n);
    assert_eq!(diagnostics(&[("a", "e1")]).combine(n.clone()), n);
}

#[test]
fn two_no_ast_keep_the_larger_module() {
    let a = EqwalizerDiagnostics::NoAst { module: "alpha".to_string() };
    let b = EqwalizerDiagnostics::NoAst { module: "beta".to_string() };
    assert_eq!(a.clone().combine(b.clone()), b);
    assert_eq!(b.clone().combine(a.clone()), b);
}

#[test]
fn first_terminal_result_wins() {
    let e = EqwalizerDiagnostics::Error("boom".to_string());
    let n = EqwalizerDiagnostics::NoAst { module: "m".to_string() };
    assert_eq!(e.clone().combine(n.clone()), e);
    assert_eq!(n.clone().combine(e.clone()), n);
}

#[test]
fn diagnostics_merge_with_right_side_winning() {
    let merged = diagnostics(&[("a", "old"), ("b", "kept")]).combine(diagnostics(&[("a", "new"), ("c", "added")]));
    match merged {
        EqwalizerDiagnostics::Diagnostics { errors, type_info } => {
            assert_eq!(errors.len(), 3);
            assert_eq!(type_info.len(), 1);
            let find = |m: &str| errors.entries.iter().find(|(k, _)| k == m).map(|(_, v)| v[0].message.clone());
            assert_eq!(find("a"), Some("new".to_string()));
            assert_eq!(find("b"), Some("kept".to_string()));
            assert_eq!(find("c"), Some("added".to_string()));
        }
        _ => panic!("expected diagnostics"),
    }
}

#[test]
fn table_insert_replaces() {
    let mut t = ModuleTable::new();
    t.insert("m".to_string(), 1u32);
    t.insert("n".to_string(), 2u32);
    t.insert("m".to_string(), 3u32);
    assert_eq!(t.entries, vec![("m".to_string(), 3u32), ("n".to_string(), 2u32)]);
}
