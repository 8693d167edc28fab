use vstd::prelude::*;

use crate::diagnostics::{combine_view, DiagnosticsView, EqwalizerDiagnostic, EqwalizerDiagnostics, TypeInfo};
use crate::table::ModuleTable;
use crate::text::{decimal, push_decimal};

verus! {

/// The form in which the typechecker asks for a module's AST.
#[derive(Clone, Copy, Debug, PartialEq, Eq)]
pub enum EqWAlizerASTFormat {
    ConvertedForms,
    TransitiveStub,
}

/// A control message from the typechecker.
#[derive(Debug, PartialEq, Eq)]
pub enum MsgFromEqWAlizer {
    EnteringModule { module: String },
    GetAstBytes { module: String, format: EqWAlizerASTFormat },
    EqwalizingStart { module: String },
    EqwalizingDone { module: String },
    Dependencies { modules: Vec<String> },
    Done {
        diagnostics: ModuleTable<Vec<EqwalizerDiagnostic>>,
        type_info: ModuleTable<Vec<TypeInfo>>,
    },
}

impl MsgFromEqWAlizer {
    pub open spec fn wf(&self) -> bool {
        match self {
            MsgFromEqWAlizer::Done { diagnostics, type_info } => diagnostics.wf() && type_info.wf(),
            _ => true,
        }
    }
}

/// A control message to the typechecker.
#[derive(Clone, Copy, Debug, PartialEq, Eq)]
pub enum MsgToEqWAlizer {
    ELPEnteringModule,
    ELPExitingModule,
    GetAstBytesReply { ast_bytes_len: u32 },
    CannotCompleteRequest,
}

/// The line that carries a message: a JSON object with the variant's name under
/// `"tag"` and its fields, if any, under `"content"`.
pub open spec fn encoded(m: MsgToEqWAlizer) -> Seq<char> {
    match m {
        MsgToEqWAlizer::ELPEnteringModule => "{\"tag\":\"ELPEnteringModule\"}"@,
        MsgToEqWAlizer::ELPExitingModule => "{\"tag\":\"ELPExitingModule\"}"@,
        MsgToEqWAlizer::GetAstBytesReply { ast_bytes_len } => "{\"tag\":\"GetAstBytesReply\",\"content\":{\"ast_bytes_len\":"@
            + decimal(ast_bytes_len as nat) + "}}"@,
        MsgToEqWAlizer::CannotCompleteRequest => "{\"tag\":\"CannotCompleteRequest\"}"@,
    }
}

impl MsgToEqWAlizer {
    /// The message as one line of JSON, without the line break.
    pub fn to_json(&self) -> (r: String)
        ensures
            r@ == encoded(*self),
    {
        match self {
            MsgToEqWAlizer::ELPEnteringModule => String::from_str("{\"tag\":\"ELPEnteringModule\"}"),
            MsgToEqWAlizer::ELPExitingModule => String::from_str("{\"tag\":\"ELPExitingModule\"}"),
            MsgToEqWAlizer::GetAstBytesReply { ast_bytes_len } => {
                let mut s = String::from_str("{\"tag\":\"GetAstBytesReply\",\"content\":{\"ast_bytes_len\":");
                push_decimal(&mut s, *ast_bytes_len as u64);
                s.append("}}");
                s
            },
            MsgToEqWAlizer::CannotCompleteRequest => String::from_str("{\"tag\":\"CannotCompleteRequest\"}"),
        }
    }
}

/// The size of the pieces in which bytes are written to the typechecker, so that
/// no write exceeds a pipe's buffer.
pub const CHUNK_SIZE: usize = 65536;

/// The bounds `[start, end)` of the pieces in which `len` bytes are written:
/// consecutive, each `CHUNK_SIZE` long but the last, which is not empty.
pub fn chunk_bounds(len: usize) -> (r: Vec<(usize, usize)>)
    ensures
        r@.len() == (len + CHUNK_SIZE - 1) / (CHUNK_SIZE as int),
        forall|i: int|
            0 <= i < r@.len() ==> #[trigger] r@[i].0 == i * CHUNK_SIZE && r@[i].1 == if (i + 1)
                * CHUNK_SIZE <= len {
                (i + 1) * CHUNK_SIZE
            } else {
                len as int
            },
{
    let mut r: Vec<(usize, usize)> = Vec::new();
    let mut start: usize = 0;
    while start < len
        invariant
            start <= len,
            start as int == if r@.len() * CHUNK_SIZE <= len {
                r@.len() * CHUNK_SIZE
            } else {
                len as int
            },
            r@.len() > 0 ==> (r@.len() - 1) * CHUNK_SIZE < len,
            forall|i: int|
                0 <= i < r@.len() ==> #[trigger] r@[i].0 == i * CHUNK_SIZE && r@[i].1 == if (i
                    + 1) * CHUNK_SIZE <= len {
                    (i + 1) * CHUNK_SIZE
                } else {
                    len as int
                },
        decreases len - start,
    {
        let end = if len - start > CHUNK_SIZE {
            start + CHUNK_SIZE
        } else {
            len
        };
        proof {
            assert(start as int == r@.len() * CHUNK_SIZE);
        }
        r.push((start, end));
        start = end;
    }
    proof {
        let n = r@.len() as int;
        assert(n * 65536 >= len);
        if n > 0 {
            assert((n - 1) * 65536 < len);
        }
        assert((len + 65535) / 65536 == n) by (nonlinear_arith)
            requires
                n * 65536 >= len,
                len + 65536 > n * 65536,
                n >= 0,
        ;
    }
    r
}

/// Why a module's AST could not be had.
#[derive(Clone, Debug, PartialEq, Eq)]
pub enum AstError {
    /// The bytes did not decode to an AST: the source does not parse now.
    ParseError,
    ModuleNotFound(String),
    BEAMNotFound(String),
    TypeConversionError(String),
    ContractivityError(String),
    VarianceCheckError(String),
    TransitiveCheckError(String),
}

impl AstError {
    pub open spec fn message_of(&self) -> Seq<char> {
        match self {
            AstError::ParseError => "parse error"@,
            AstError::ModuleNotFound(m) => "module not found: "@ + m@,
            AstError::BEAMNotFound(p) => "BEAM file not found: "@ + p@,
            AstError::TypeConversionError(d) => "type conversion error: "@ + d@,
            AstError::ContractivityError(d) => "contractivity error: "@ + d@,
            AstError::VarianceCheckError(d) => "variance check error: "@ + d@,
            AstError::TransitiveCheckError(d) => "transitive check error: "@ + d@,
        }
    }

    /// A copy of the error.
    pub fn duplicate(&self) -> (r: Self)
        ensures
            r == *self,
    {
        match self {
            AstError::ParseError => AstError::ParseError,
            AstError::ModuleNotFound(m) => AstError::ModuleNotFound(m.clone()),
            AstError::BEAMNotFound(p) => AstError::BEAMNotFound(p.clone()),
            AstError::TypeConversionError(d) => AstError::TypeConversionError(d.clone()),
            AstError::ContractivityError(d) => AstError::ContractivityError(d.clone()),
            AstError::VarianceCheckError(d) => AstError::VarianceCheckError(d.clone()),
            AstError::TransitiveCheckError(d) => AstError::TransitiveCheckError(d.clone()),
        }
    }

    /// A one-line account of the error.
    pub fn message(&self) -> (r: String)
        ensures
            r@ == self.message_of(),
    {
        match self {
            AstError::ParseError => String::from_str("parse error"),
            AstError::ModuleNotFound(m) => String::from_str("module not found: ").concat(m.as_str()),
            AstError::BEAMNotFound(p) => String::from_str("BEAM file not found: ").concat(p.as_str()),
            AstError::TypeConversionError(d) => String::from_str("type conversion error: ").concat(d.as_str()),
            AstError::ContractivityError(d) => String::from_str("contractivity error: ").concat(d.as_str()),
            AstError::VarianceCheckError(d) => String::from_str("variance check error: ").concat(d.as_str()),
            AstError::TransitiveCheckError(d) => String::from_str("transitive check error: ").concat(d.as_str()),
        }
    }
}

/// What to do when starting the typechecker failed.
#[derive(Clone, Copy, Debug, PartialEq, Eq)]
pub enum SpawnAction {
    /// The executable is still being written out: wait this many milliseconds and try again.
    Retry { delay_ms: u64 },
    /// Give up, reporting the error.
    Fail,
}

/// A start that failed because the executable file was busy is retried after
/// a short wait; any other failure ends the attempt.
pub fn after_spawn_error(executable_busy: bool) -> (r: SpawnAction)
    ensures
        executable_busy ==> r == (SpawnAction::Retry { delay_ms: 10 }),
        !executable_busy ==> r == SpawnAction::Fail,
{
    if executable_busy {
        SpawnAction::Retry { delay_ms: 10 }
    } else {
        SpawnAction::Fail
    }
}

// ---------------------------------------------------------------- one module

/// What the driver does with a message received while a module is entered.
#[derive(Debug, PartialEq, Eq)]
pub enum ModuleAction {
    /// Derive the module's bytes in the format, and answer as `ast_reply` says.
    FetchAst { module: String, format: EqWAlizerASTFormat },
    /// Tell the progress reporter that checking of the module began.
    ReportStart { module: String },
    /// Tell the progress reporter that checking of the module ended.
    ReportDone { module: String },
    /// Derive, and so cache, the transitive stubs of these modules; errors are dropped.
    Prefetch { modules: Vec<String> },
    /// The module is done, with this result.
    Finish(EqwalizerDiagnostics),
    /// Log the message and go on.
    Ignore,
}

/// The next step while a module is entered.
pub fn module_step(msg: MsgFromEqWAlizer) -> (r: ModuleAction)
    requires
        msg.wf(),
    ensures
        match msg {
            MsgFromEqWAlizer::GetAstBytes { module, format } => r == ModuleAction::FetchAst {
                module,
                format,
            },
            MsgFromEqWAlizer::EqwalizingStart { module } => r == ModuleAction::ReportStart { module },
            MsgFromEqWAlizer::EqwalizingDone { module } => r == ModuleAction::ReportDone { module },
            MsgFromEqWAlizer::Dependencies { modules } => r == ModuleAction::Prefetch { modules },
            MsgFromEqWAlizer::Done { diagnostics, type_info } => r matches ModuleAction::Finish(d) && d.wf()
                && d.view() == (DiagnosticsView::Diagnostics {
                errors: diagnostics.view(),
                type_info: type_info.view(),
            }),
            MsgFromEqWAlizer::EnteringModule { .. } => r == ModuleAction::Ignore,
        },
{
    match msg {
        MsgFromEqWAlizer::GetAstBytes { module, format } => ModuleAction::FetchAst { module, format },
        MsgFromEqWAlizer::EqwalizingStart { module } => ModuleAction::ReportStart { module },
        MsgFromEqWAlizer::EqwalizingDone { module } => ModuleAction::ReportDone { module },
        MsgFromEqWAlizer::Dependencies { modules } => ModuleAction::Prefetch { modules },
        MsgFromEqWAlizer::Done { diagnostics, type_info } => ModuleAction::Finish(
            EqwalizerDiagnostics::Diagnostics { errors: diagnostics, type_info },
        ),
        MsgFromEqWAlizer::EnteringModule { .. } => ModuleAction::Ignore,
    }
}

/// How the driver answers a request for a module's AST.
#[derive(Debug, PartialEq, Eq)]
pub enum AstReply {
    /// Send `GetAstBytesReply` with this length, read the acknowledging line,
    /// then write the bytes in the pieces that `chunk_bounds` gives; go on.
    Bytes { reply: MsgToEqWAlizer },
    /// Send `GetAstBytesReply` with length 0 and read the acknowledging line; go on.
    Empty { reply: MsgToEqWAlizer },
    /// Send `CannotCompleteRequest`; the module is done with this result.
    Fail { reply: MsgToEqWAlizer, result: EqwalizerDiagnostics },
    /// Send nothing; the module is done with this error.
    Abort(EqwalizerDiagnostics),
}

pub const U32_MAX: usize = 4294967295;

/// The answer to a request for `module`'s AST, given how deriving it went: the
/// bytes are announced and sent; a missing module gets an empty answer; a parse
/// error ends the module with "no AST"; another error ends it with that error;
/// bytes too many to announce end the module being served (`served`) with an
/// error, and nothing is sent.
pub fn ast_reply(served: &String, module: &String, result: &Result<Vec<u8>, AstError>) -> (r: AstReply)
    ensures
        r.wf(),
        match result {
            Ok(bytes) => if bytes@.len() <= U32_MAX {
                r == AstReply::Bytes {
                    reply: MsgToEqWAlizer::GetAstBytesReply { ast_bytes_len: bytes@.len() as u32 },
                }
            } else {
                r matches AstReply::Abort(d) && d.view() == (DiagnosticsView::Error {
                    message: "eqWAlizing module "@ + served@ + ":\nout of range integral type conversion attempted"@,
                })
            },
            Err(AstError::ModuleNotFound(_)) => r == AstReply::Empty {
                reply: MsgToEqWAlizer::GetAstBytesReply { ast_bytes_len: 0 },
            },
            Err(AstError::ParseError) => r matches AstReply::Fail { reply, result } && reply
                == MsgToEqWAlizer::CannotCompleteRequest && result.view() == (DiagnosticsView::NoAst {
                module: module@,
            }),
            Err(e) => r matches AstReply::Fail { reply, result } && reply
                == MsgToEqWAlizer::CannotCompleteRequest && result.view() == (DiagnosticsView::Error {
                message: e.message_of(),
            }),
        },
{
    match result {
        Ok(bytes) => {
            if bytes.len() <= U32_MAX {
                AstReply::Bytes {
                    reply: MsgToEqWAlizer::GetAstBytesReply { ast_bytes_len: bytes.len() as u32 },
                }
            } else {
                let mut m = String::from_str("eqWAlizing module ");
                m.append(served.as_str());
                m.append(":\nout of range integral type conversion attempted");
                AstReply::Abort(EqwalizerDiagnostics::Error(m))
            }
        },
        Err(AstError::ModuleNotFound(_)) => AstReply::Empty {
            reply: MsgToEqWAlizer::GetAstBytesReply { ast_bytes_len: 0 },
        },
        Err(AstError::ParseError) => AstReply::Fail {
            reply: MsgToEqWAlizer::CannotCompleteRequest,
            result: EqwalizerDiagnostics::NoAst { module: module.clone() },
        },
        Err(e) => AstReply::Fail {
            reply: MsgToEqWAlizer::CannotCompleteRequest,
            result: EqwalizerDiagnostics::Error(e.message()),
        },
    }
}

impl AstReply {
    pub open spec fn wf(&self) -> bool {
        match self {
            AstReply::Fail { result, .. } => result.wf(),
            AstReply::Abort(d) => d.wf(),
            _ => true,
        }
    }
}

// ---------------------------------------------------------------- the session

/// What the driver does with a message received between modules.
#[derive(Debug, PartialEq, Eq)]
pub enum SessionAction {
    /// Make the session reachable under the module's name, send `ELPEnteringModule`,
    /// serve the module with `module_step` until it finishes, then `after_module`.
    EnterModule { module: String },
    /// The typecheck is over; this is its result.
    Return(EqwalizerDiagnostics),
    /// Log the message and go on.
    Ignore,
}

/// The next step between modules, with the result gathered so far: a module
/// is entered; `Done` ends the session with its payload merged in; anything
/// else is ignored.
pub fn session_step(total: EqwalizerDiagnostics, msg: MsgFromEqWAlizer) -> (r: (
    SessionAction,
    EqwalizerDiagnostics,
))
    requires
        total.wf(),
        msg.wf(),
    ensures
        r.1.wf(),
        match msg {
            MsgFromEqWAlizer::EnteringModule { module } => r.0 == SessionAction::EnterModule {
                module,
            } && r.1 == total,
            MsgFromEqWAlizer::Done { diagnostics, type_info } => r.0 matches SessionAction::Return(d)
                && d.wf() && d.view() == combine_view(
                total.view(),
                DiagnosticsView::Diagnostics { errors: diagnostics.view(), type_info: type_info.view() },
            ),
            _ => r.0 == SessionAction::Ignore && r.1 == total,
        },
{
    match msg {
        MsgFromEqWAlizer::EnteringModule { module } => (SessionAction::EnterModule { module }, total),
        MsgFromEqWAlizer::Done { diagnostics, type_info } => {
            let last = EqwalizerDiagnostics::Diagnostics { errors: diagnostics, type_info };
            (SessionAction::Return(total.combine(last)), EqwalizerDiagnostics::empty())
        },
        _ => (SessionAction::Ignore, total),
    }
}

/// Merges a finished module's result into the total. The session stops, and
/// returns the total, when it became an error or "no AST"; otherwise the driver
/// sends `ELPExitingModule` and goes on.
pub fn after_module(total: EqwalizerDiagnostics, delta: EqwalizerDiagnostics) -> (r: (
    EqwalizerDiagnostics,
    bool,
))
    requires
        total.wf(),
        delta.wf(),
    ensures
        r.0.wf(),
        r.0.view() == combine_view(total.view(), delta.view()),
        r.1 == r.0.view().is_terminal(),
{
    let combined = total.combine(delta);
    let stop = match &combined {
        EqwalizerDiagnostics::Diagnostics { .. } => false,
        _ => true,
    };
    (combined, stop)
}

} // verus!
