use vstd::prelude::*;

verus! {

/// The context in which the external typechecker is invoked.
#[derive(Clone, Copy, PartialEq, Eq, Debug, Structural)]
pub enum Mode {
    Cli,
    Server,
    Shell,
}

impl Mode {
    /// The value handed to the typechecker in its mode environment variable.
    pub open spec fn env_value(self) -> Seq<char> {
        match self {
            Mode::Cli => "elp_cli"@,
            Mode::Server => "elp_ide"@,
            Mode::Shell => "shell"@,
        }
    }

    pub fn to_env_var(&self) -> (r: &'static str)
        ensures
            r@ == self.env_value(),
    {
        match self {
            Mode::Cli => "elp_cli",
            Mode::Server => "elp_ide",
            Mode::Shell => "shell",
        }
    }
}

/// The typechecker's options; an unset one keeps the typechecker's default.
#[derive(Clone, Copy, Debug, PartialEq, Eq, Structural)]
pub struct EqwalizerConfig {
    pub fault_tolerance: Option<bool>,
    pub occurrence_typing: Option<bool>,
    pub clause_coverage: Option<bool>,
    pub report_bad_maps: Option<bool>,
    pub overloaded_spec_dynamic_result: Option<bool>,
    pub report_dynamic_lambdas: Option<bool>,
}

pub open spec fn bool_text(b: bool) -> Seq<char> {
    if b {
        "true"@
    } else {
        "false"@
    }
}

/// The environment entry for an option, if it is set.
pub open spec fn flag_entry(name: Seq<char>, value: Option<bool>) -> Seq<(Seq<char>, Seq<char>)> {
    match value {
        Some(b) => seq![(name, bool_text(b))],
        None => Seq::empty(),
    }
}

pub open spec fn pairs_view(s: Seq<(String, String)>) -> Seq<(Seq<char>, Seq<char>)> {
    s.map_values(|p: (String, String)| (p.0@, p.1@))
}

fn push_flag(env: &mut Vec<(String, String)>, name: &str, value: Option<bool>)
    ensures
        pairs_view(final(env)@) == pairs_view(old(env)@) + flag_entry(name@, value),
{
    match value {
        Some(b) => {
            let text = if b {
                String::from_str("true")
            } else {
                String::from_str("false")
            };
            env.push((String::from_str(name), text));
            proof {
                assert(pairs_view(final(env)@) =~= pairs_view(old(env)@) + flag_entry(name@, value));
            }
        },
        None => {
            proof {
                assert(pairs_view(final(env)@) =~= pairs_view(old(env)@) + flag_entry(name@, value));
            }
        },
    }
}

impl EqwalizerConfig {
    /// The options that tests run the typechecker with.
    pub fn default_test() -> (r: EqwalizerConfig)
        ensures
            r == (EqwalizerConfig {
                fault_tolerance: Some(false),
                occurrence_typing: Some(true),
                clause_coverage: Some(false),
                report_bad_maps: Some(false),
                overloaded_spec_dynamic_result: Some(false),
                report_dynamic_lambdas: Some(false),
            }),
    {
        EqwalizerConfig {
            fault_tolerance: Some(false),
            occurrence_typing: Some(true),
            clause_coverage: Some(false),
            report_bad_maps: Some(false),
            overloaded_spec_dynamic_result: Some(false),
            report_dynamic_lambdas: Some(false),
        }
    }

    pub open spec fn env_spec(self) -> Seq<(Seq<char>, Seq<char>)> {
        flag_entry("EQWALIZER_TOLERATE_ERRORS"@, self.fault_tolerance) + flag_entry(
            "EQWALIZER_EQWATER"@,
            self.occurrence_typing,
        ) + flag_entry("EQWALIZER_CLAUSE_COVERAGE"@, self.clause_coverage) + flag_entry(
            "EQWALIZER_REPORT_BAD_MAPS"@,
            self.report_bad_maps,
        ) + flag_entry("EQWALIZER_OVERLOADED_SPEC_DYNAMIC_RESULT"@, self.overloaded_spec_dynamic_result)
            + flag_entry("EQWALIZER_REPORT_DYNAMIC_LAMBDAS"@, self.report_dynamic_lambdas)
    }

    /// The environment variables that carry the set options, in a fixed order.
    pub fn env_vars(&self) -> (r: Vec<(String, String)>)
        ensures
            pairs_view(r@) == self.env_spec(),
    {
        let mut env: Vec<(String, String)> = Vec::new();
        proof {
            assert(pairs_view(env@) =~= Seq::<(Seq<char>, Seq<char>)>::empty());
        }
        push_flag(&mut env, "EQWALIZER_TOLERATE_ERRORS", self.fault_tolerance);
        push_flag(&mut env, "EQWALIZER_EQWATER", self.occurrence_typing);
        push_flag(&mut env, "EQWALIZER_CLAUSE_COVERAGE", self.clause_coverage);
        push_flag(&mut env, "EQWALIZER_REPORT_BAD_MAPS", self.report_bad_maps);
        push_flag(&mut env, "EQWALIZER_OVERLOADED_SPEC_DYNAMIC_RESULT", self.overloaded_spec_dynamic_result);
        push_flag(&mut env, "EQWALIZER_REPORT_DYNAMIC_LAMBDAS", self.report_dynamic_lambdas);
        proof {
            assert(Seq::<(Seq<char>, Seq<char>)>::empty() + flag_entry(
                "EQWALIZER_TOLERATE_ERRORS"@,
                self.fault_tolerance,
            ) =~= flag_entry("EQWALIZER_TOLERATE_ERRORS"@, self.fault_tolerance));
        }
        env
    }
}

impl Default for EqwalizerConfig {
    fn default() -> (r: Self)
        ensures
            r == (EqwalizerConfig {
                fault_tolerance: None,
                occurrence_typing: None,
                clause_coverage: None,
                report_bad_maps: None,
                overloaded_spec_dynamic_result: None,
                report_dynamic_lambdas: None,
            }),
    {
        EqwalizerConfig {
            fault_tolerance: None,
            occurrence_typing: None,
            clause_coverage: None,
            report_bad_maps: None,
            overloaded_spec_dynamic_result: None,
            report_dynamic_lambdas: None,
        }
    }
}

/// How a typecheck is run.
#[derive(Clone, Copy, Debug, PartialEq, Eq, Structural)]
pub struct Eqwalizer {
    pub mode: Mode,
}

impl Default for Eqwalizer {
    fn default() -> (r: Self)
        ensures
            r.mode == Mode::Server,
    {
        Eqwalizer { mode: Mode::Server }
    }
}

/// The program to start and the arguments that come before the typechecker's own.
#[derive(Debug, PartialEq, Eq)]
pub struct ExeCommand {
    pub cmd: String,
    pub args: Vec<String>,
}

impl Eqwalizer {
    /// The environment of a typecheck: the set options, then the mode.
    pub fn env_vars(&self, config: &EqwalizerConfig) -> (r: Vec<(String, String)>)
        ensures
            pairs_view(r@) == config.env_spec().push(("EQWALIZER_MODE"@, self.mode.env_value())),
    {
        let mut env = config.env_vars();
        env.push((String::from_str("EQWALIZER_MODE"), String::from_str(self.mode.to_env_var())));
        proof {
            assert(pairs_view(env@) =~= config.env_spec().push(("EQWALIZER_MODE"@, self.mode.env_value())));
        }
        env
    }

    /// The typechecker's own arguments: `ipc`, then the modules to check.
    pub fn ipc_args(modules: &Vec<String>) -> (r: Vec<String>)
        ensures
            r@.len() == modules@.len() + 1,
            r@[0]@ == "ipc"@,
            forall|i: int| 0 <= i < modules@.len() ==> #[trigger] r@[i + 1] == modules@[i],
    {
        let mut r: Vec<String> = Vec::new();
        r.push(String::from_str("ipc"));
        let mut i: usize = 0;
        while i < modules.len()
            invariant
                i <= modules@.len(),
                r@.len() == i + 1,
                r@[0]@ == "ipc"@,
                forall|j: int| 0 <= j < i ==> #[trigger] r@[j + 1] == modules@[j],
            decreases modules@.len() - i,
        {
            r.push(modules[i].clone());
            i = i + 1;
        }
        r
    }
}

/// A function of a module: `module:name/arity`.
#[derive(Clone, Debug, PartialEq, Eq)]
pub struct Mfa {
    pub module: String,
    pub name: String,
    pub arity: u32,
}

impl Mfa {
    pub open spec fn label_of(&self) -> Seq<char> {
        self.module@ + ":"@ + self.name@ + "/"@ + crate::text::decimal(self.arity as nat)
    }

    /// The function written as `module:name/arity`.
    pub fn label(&self) -> (r: String)
        ensures
            r@ == self.label_of(),
    {
        let mut r = self.module.clone();
        r.append(":");
        r.append(self.name.as_str());
        r.append("/");
        crate::text::push_decimal(&mut r, self.arity as u64);
        r
    }
}

/// A replacement that a user configures for types written in specs.
#[derive(Clone, Debug, PartialEq, Eq)]
pub enum TypeReplacement {
    /// Calls of the type `from` are replaced by the text `to`.
    TypeAliasWithString { from: Mfa, to: String },
}

impl TypeReplacement {
    /// The text of the diagnostic that offers the replacement.
    pub fn message(&self) -> (r: String)
        ensures
            match self {
                TypeReplacement::TypeAliasWithString { from, to } => r@ == "Replace '"@ + from.label_of()
                    + "' with '"@ + to@ + "'"@,
            },
    {
        match self {
            TypeReplacement::TypeAliasWithString { from, to } => {
                let mut r = String::from_str("Replace '");
                r.append(from.label().as_str());
                r.append("' with '");
                r.append(to.as_str());
                r.append("'");
                r
            },
        }
    }
}

/// How the typechecker at `path` is started, by its extension: a `jar` through
/// `java` with a larger stack, a file without extension directly. Other
/// extensions are not typecheckers this knows how to start; callers reject
/// them before asking.
pub fn exe_command(path: String, ext: &str) -> (r: ExeCommand)
    requires
        ext@ == "jar"@ || ext@.len() == 0,
    ensures
        ext@ == "jar"@ ==> (r.cmd@ == "java"@ && r.args@.len() == 3 && r.args@[0]@ == "-Xss20M"@
            && r.args@[1]@ == "-jar"@ && r.args@[2] == path),
        ext@.len() == 0 ==> (r.cmd == path && r.args@.len() == 0),
{
    proof {
        reveal_strlit("jar");
    }
    if ext.unicode_len() == 0 {
        ExeCommand { cmd: path, args: Vec::new() }
    } else {
        ExeCommand {
            cmd: String::from_str("java"),
            args: vec![String::from_str("-Xss20M"), String::from_str("-jar"), path],
        }
    }
}

} // verus!
