use eqwalizer_ipc::config::{Mfa, TypeReplacement};
use eqwalizer_ipc::atom_name::AtomName;
use eqwalizer_ipc::ast::{ElpMetadata, Export, ExternalForm, FunDecl, Id, ModuleAttr, Pos};
use eqwalizer_ipc::config::{exe_command, Eqwalizer, EqwalizerConfig, Mode};
use eqwalizer_ipc::fixture::DiagnosticsEnabled;
use eqwalizer_ipc::ipc::AstError;
use eqwalizer_ipc::stub::{non_stub_forms, stub_source, ModuleStub, StubSource};

#[test]
fn mode_values() {
    assert_eq!(Mode::Cli.to_env_var(), "elp_cli");
    assert_eq!(Mode::Server.to_env_var(), "elp_ide");
    assert_eq!(Mode::Shell.to_env_var(), "shell");
}

#[test]
fn test_config_sets_every_option() {
    let c = EqwalizerConfig::default_test();
    assert_eq!(c.occurrence_typing, Some(true));
    assert_eq!(c.fault_tolerance, Some(false));
    let env = c.env_vars();
    assert_eq!(env.len(), 6);
    assert_eq!(env[0], ("EQWALIZER_TOLERATE_ERRORS".to_string(), "false".to_string()));
    assert_eq!(env[1], ("EQWALIZER_EQWATER".to_string(), "true".to_string()));
}

#[test]
fn unset_options_are_not_passed() {
    let c = EqwalizerConfig { report_bad_maps: Some(true), ..EqwalizerConfig::default() };
    let env = Eqwalizer { mode: Mode::Cli }.env_vars(&c);
    assert_eq!(
        env,
        vec![
            ("EQWALIZER_REPORT_BAD_MAPS".to_string(), "true".to_string()),
            ("EQWALIZER_MODE".to_string(), "elp_cli".to_string()),
        ]
    );
    assert_eq!(Eqwalizer::default().mode, Mode::Server);
}

#[test]
fn executables_by_extension() {
    let jar = exe_command("/tmp/eqwalizer.jar".to_string(), "jar");
    assert_eq!(jar.cmd, "java");
    assert_eq!(jar.args, vec!["-Xss20M".to_string(), "-jar".to_string(), "/tmp/eqwalizer.jar".to_string()]);
    let native = exe_command("/tmp/eqwalizer".to_string(), "");
    assert_eq!(native.cmd, "/tmp/eqwalizer");
    assert!(native.args.is_empty());
    assert_eq!(Eqwalizer::ipc_args(&vec!["a".to_string(), "b".to_string()]), vec!["ipc", "a", "b"]);
}

#[test]
fn atoms_are_quoted_when_needed() {
    assert_eq!(AtomName::new("foo_bar@1").to_display_string(), "foo_bar@1");
    assert_eq!(AtomName::new("Elixir.Foo").to_display_string(), "'Elixir.Foo'");
    assert_eq!(AtomName::new("foo bar").to_display_string(), "'foo bar'");
    assert_eq!(AtomName::new("").to_display_string(), "''");
    assert_eq!(AtomName::new("Elixir.Foo").as_unquoted_str(), "Elixir.Foo");
}

#[test]
fn fixture_flags() {
    let mut d = DiagnosticsEnabled::default();
    assert!(!d.needs_fixture_on_disk());
    d.set_default_native();
    assert!(d.use_native);
    let mut d = DiagnosticsEnabled { use_ct: true, ..DiagnosticsEnabled::default() };
    assert!(d.needs_fixture_on_disk());
    d.set_default_native();
    assert!(!d.use_native);
    d.assert_ct_enabled();
}

#[test]
fn stub_forms_are_filtered_out() {
    let p = Pos { start: 0, end: 1 };
    let forms = vec![
        ExternalForm::Module(ModuleAttr { location: p, name: "m".to_string() }),
        ExternalForm::Export(Export { location: p, funs: vec![Id { name: "f".to_string(), arity: 0 }] }),
        ExternalForm::FunDecl(FunDecl { location: p, id: Id { name: "f".to_string(), arity: 0 }, clauses: vec![] }),
        ExternalForm::ElpMetadata(ElpMetadata { location: p }),
    ];
    let kept = non_stub_forms(forms);
    assert_eq!(kept.len(), 3);
    assert!(matches!(kept[1], ExternalForm::FunDecl(_)));
    let stub = ModuleStub::new("m".to_string());
    assert_eq!(stub.module, "m");
    assert!(stub.exports.is_empty() && stub.invalid_forms.is_empty());
}

#[test]
fn beam_file_names_are_unquoted() {
    assert_eq!(AtomName::new("Elixir.Foo").beam_file_name(), "Elixir.Foo.beam");
    assert_eq!(AtomName::new("lists").beam_file_name(), "lists.beam");
}

#[test]
fn type_replacement_message() {
    let r = TypeReplacement::TypeAliasWithString {
        from: Mfa { module: "modu".to_string(), name: "fn".to_string(), arity: 1 },
        to: "modu:other()".to_string(),
    };
    assert_eq!(r.message(), "Replace 'modu:fn/1' with 'modu:other()'");
}

#[test]
fn stub_source_by_origin() {
    let m = "lists".to_string();
    assert_eq!(
        stub_source(&m, true, Some("/otp/ebin/lists.beam".to_string())),
        Ok(StubSource::Beam { path: "/otp/ebin/lists.beam".to_string() })
    );
    assert_eq!(stub_source(&m, true, None), Err(AstError::ModuleNotFound("lists".to_string())));
    assert_eq!(stub_source(&m, false, None), Ok(StubSource::Source));
}
