use vstd::prelude::*;

use crate::ast::Pos;
use crate::table::ModuleTable;
use crate::text::{less_than, text_less};

verus! {

/// One error that the typechecker reports in a module.
#[derive(Clone, Debug, PartialEq, Eq)]
pub struct EqwalizerDiagnostic {
    pub range: Pos,
    pub message: String,
    pub uri: String,
    pub code: String,
    pub expression: Option<String>,
    pub explanation: Option<String>,
}

/// A type that the typechecker inferred at a position, in its printed form.
#[derive(Clone, Debug, PartialEq, Eq)]
pub struct TypeInfo {
    pub pos: Pos,
    pub ty: String,
}

/// What a typecheck produced, over all the modules entered so far.
#[derive(Clone, Debug, PartialEq, Eq)]
pub enum EqwalizerDiagnostics {
    Diagnostics {
        errors: ModuleTable<Vec<EqwalizerDiagnostic>>,
        type_info: ModuleTable<Vec<TypeInfo>>,
    },
    NoAst {
        module: String,
    },
    Error(String),
}

/// The mathematical content of an [`EqwalizerDiagnostics`].
pub enum DiagnosticsView {
    Diagnostics {
        errors: Map<Seq<char>, Vec<EqwalizerDiagnostic>>,
        type_info: Map<Seq<char>, Vec<TypeInfo>>,
    },
    NoAst {
        module: Seq<char>,
    },
    Error {
        message: Seq<char>,
    },
}

impl DiagnosticsView {
    pub open spec fn is_terminal(self) -> bool {
        !(self is Diagnostics)
    }
}

pub open spec fn empty_view() -> DiagnosticsView {
    DiagnosticsView::Diagnostics { errors: Map::empty(), type_info: Map::empty() }
}

/// How two results combine: two "no AST" results keep the one whose module
/// name is larger; an error or a "no AST" result wins over diagnostics,
/// whichever side it is on, and the left one wins otherwise; two sets of
/// diagnostics merge, the right one's entry staying where both name a module.
pub open spec fn combine_view(a: DiagnosticsView, b: DiagnosticsView) -> DiagnosticsView {
    match a {
        DiagnosticsView::NoAst { module: ma } => match b {
            DiagnosticsView::NoAst { module: mb } => if text_less(ma, mb) {
                b
            } else {
                a
            },
            _ => a,
        },
        DiagnosticsView::Error { .. } => a,
        DiagnosticsView::Diagnostics { errors: ea, type_info: ta } => match b {
            DiagnosticsView::Diagnostics { errors: eb, type_info: tb } => {
                DiagnosticsView::Diagnostics {
                    errors: ea.union_prefer_right(eb),
                    type_info: ta.union_prefer_right(tb),
                }
            },
            _ => b,
        },
    }
}

impl EqwalizerDiagnostics {
    pub open spec fn wf(&self) -> bool {
        match self {
            EqwalizerDiagnostics::Diagnostics { errors, type_info } => errors.wf()
                && type_info.wf(),
            _ => true,
        }
    }

    pub open spec fn view(&self) -> DiagnosticsView {
        match self {
            EqwalizerDiagnostics::Diagnostics { errors, type_info } => {
                DiagnosticsView::Diagnostics { errors: errors.view(), type_info: type_info.view() }
            },
            EqwalizerDiagnostics::NoAst { module } => DiagnosticsView::NoAst { module: module@ },
            EqwalizerDiagnostics::Error(message) => DiagnosticsView::Error { message: message@ },
        }
    }

    /// No module entered yet: no errors and no types.
    pub fn empty() -> (r: Self)
        ensures
            r.wf(),
            r.view() == empty_view(),
    {
        EqwalizerDiagnostics::Diagnostics { errors: ModuleTable::new(), type_info: ModuleTable::new() }
    }

    /// Combines the results of two modules (see [`combine_view`]).
    pub fn combine(self, other: Self) -> (r: Self)
        requires
            self.wf(),
            other.wf(),
        ensures
            r.wf(),
            r.view() == combine_view(self.view(), other.view()),
    {
        match self {
            EqwalizerDiagnostics::NoAst { module } => match other {
                EqwalizerDiagnostics::NoAst { module: other_module } => {
                    if less_than(module.as_str(), other_module.as_str()) {
                        EqwalizerDiagnostics::NoAst { module: other_module }
                    } else {
                        EqwalizerDiagnostics::NoAst { module }
                    }
                },
                _ => EqwalizerDiagnostics::NoAst { module },
            },
            EqwalizerDiagnostics::Error(message) => EqwalizerDiagnostics::Error(message),
            EqwalizerDiagnostics::Diagnostics { errors, type_info } => match other {
                EqwalizerDiagnostics::Diagnostics {
                    errors: other_errors,
                    type_info: other_type_info,
                } => {
                    let mut errors = errors;
                    let mut type_info = type_info;
                    errors.extend(other_errors);
                    type_info.extend(other_type_info);
                    EqwalizerDiagnostics::Diagnostics { errors, type_info }
                },
                other => other,
            },
        }
    }
}

impl Default for EqwalizerDiagnostics {
    fn default() -> (r: Self)
        ensures
            r.wf(),
            r.view() == empty_view(),
    {
        EqwalizerDiagnostics::empty()
    }
}

/// Combining with the empty result changes nothing.
pub proof fn lemma_combine_empty_right(x: DiagnosticsView)
    ensures
        combine_view(x, empty_view()) == x,
{
    if let DiagnosticsView::Diagnostics { errors, type_info } = x {
        assert(errors.union_prefer_right(Map::empty()) =~= errors);
        assert(type_info.union_prefer_right(Map::empty()) =~= type_info);
    }
}

/// An error or a "no AST" result absorbs diagnostics, on either side.
pub proof fn lemma_terminal_absorbs(t: DiagnosticsView, d: DiagnosticsView)
    requires
        t.is_terminal(),
        d is Diagnostics,
    ensures
        combine_view(t, d) == t,
        combine_view(d, t) == t,
{
}

} // verus!
