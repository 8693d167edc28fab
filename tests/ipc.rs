use eqwalizer_ipc::diagnostics::EqwalizerDiagnostics;
use eqwalizer_ipc::ipc::{
    after_module, ast_reply, chunk_bounds, module_step, session_step, AstError, AstReply, EqWAlizerASTFormat,
    ModuleAction, MsgFromEqWAlizer, MsgToEqWAlizer, SessionAction, CHUNK_SIZE,
};
use eqwalizer_ipc::table::ModuleTable;

#[test]
fn messages_encode_as_tagged_json() {
    assert_eq!(MsgToEqWAlizer::ELPEnteringModule.to_json(), "{\"tag\":\"ELPEnteringModule\"}");
    assert_eq!(MsgToEqWAlizer::ELPExitingModule.to_json(), "{\"tag\":\"ELPExitingModule\"}");
    assert_eq!(MsgToEqWAlizer::CannotCompleteRequest.to_json(), "{\"tag\":\"CannotCompleteRequest\"}");
    assert_eq!(
        MsgToEqWAlizer::GetAstBytesReply { ast_bytes_len: 1234 }.to_json(),
        "{\"tag\":\"GetAstBytesReply\",\"content\":{\"ast_bytes_len\":1234}}"
    );
    assert_eq!(
        MsgToEqWAlizer::GetAstBytesReply { ast_bytes_len: 0 }.to_json(),
        "{\"tag\":\"GetAstBytesReply\",\"content\":{\"ast_bytes_len\":0}}"
    );
}

#[test]
fn bytes_go_out_in_pipe_sized_chunks() {
    assert_eq!(chunk_bounds(0), vec![]);
    assert_eq!(chunk_bounds(10), vec![(0, 10)]);
    assert_eq!(chunk_bounds(CHUNK_SIZE), vec![(0, 65536)]);
    assert_eq!(chunk_bounds(150_000), vec![(0, 65536), (65536, 131072), (131072, 150_000)]);
}

#[test]
fn missing_module_gets_empty_reply_and_goes_on() {
    let r = ast_reply(&"m".to_string(), &"nowhere".to_string(), &Err(AstError::ModuleNotFound("nowhere".to_string())));
    assert_eq!(r, AstReply::Empty { reply: MsgToEqWAlizer::GetAstBytesReply { ast_bytes_len: 0 } });
}

#[test]
fn parse_error_ends_module_without_ast_and_session_stops() {
    let r = ast_reply(&"m".to_string(), &"broken".to_string(), &Err(AstError::ParseError));
    let result = match r {
        AstReply::Fail { reply, result } => {
            assert_eq!(reply, MsgToEqWAlizer::CannotCompleteRequest);
            result
        }
        other => panic!("unexpected {:?}", other),
    };
    assert_eq!(result, EqwalizerDiagnostics::NoAst { module: "broken".to_string() });
    let (total, stop) = after_module(EqwalizerDiagnostics::empty(), result);
    assert!(stop);
    assert_eq!(total, EqwalizerDiagnostics::NoAst { module: "broken".to_string() });
}

#[test]
fn other_derivation_error_ends_module_with_error() {
    let r = ast_reply(&"m".to_string(), &"m".to_string(), &Err(AstError::ContractivityError("t/0".to_string())));
    match r {
        AstReply::Fail { reply, result } => {
            assert_eq!(reply, MsgToEqWAlizer::CannotCompleteRequest);
            assert_eq!(result, EqwalizerDiagnostics::Error("contractivity error: t/0".to_string()));
        }
        other => panic!("unexpected {:?}", other),
    }
}

#[test]
fn bytes_are_announced_with_their_length() {
    let r = ast_reply(&"m".to_string(), &"m".to_string(), &Ok(vec![1u8, 2, 3]));
    assert_eq!(r, AstReply::Bytes { reply: MsgToEqWAlizer::GetAstBytesReply { ast_bytes_len: 3 } });
}

#[test]
fn module_messages_map_to_actions() {
    let a = module_step(MsgFromEqWAlizer::GetAstBytes {
        module: "m".to_string(),
        format: EqWAlizerASTFormat::TransitiveStub,
    });
    assert_eq!(a, ModuleAction::FetchAst { module: "m".to_string(), format: EqWAlizerASTFormat::TransitiveStub });
    let a = module_step(MsgFromEqWAlizer::Dependencies { modules: vec!["x".to_string()] });
    assert_eq!(a, ModuleAction::Prefetch { modules: vec!["x".to_string()] });
    let a = module_step(MsgFromEqWAlizer::EnteringModule { module: "m".to_string() });
    assert_eq!(a, ModuleAction::Ignore);
    let a = module_step(MsgFromEqWAlizer::Done { diagnostics: ModuleTable::new(), type_info: ModuleTable::new() });
    assert_eq!(a, ModuleAction::Finish(EqwalizerDiagnostics::empty()));
}

#[test]
fn session_enters_modules_and_ends_on_done() {
    let (a, total) = session_step(EqwalizerDiagnostics::empty(), MsgFromEqWAlizer::EnteringModule { module: "m".to_string() });
    assert_eq!(a, SessionAction::EnterModule { module: "m".to_string() });
    let (a, total) = session_step(total, MsgFromEqWAlizer::EqwalizingStart { module: "m".to_string() });
    assert_eq!(a, SessionAction::Ignore);
    let (a, _) = session_step(total, MsgFromEqWAlizer::Done { diagnostics: ModuleTable::new(), type_info: ModuleTable::new() });
    assert_eq!(a, SessionAction::Return(EqwalizerDiagnostics::empty()));
}

#[test]
fn session_goes_on_after_a_clean_module() {
    let (total, stop) = after_module(EqwalizerDiagnostics::empty(), EqwalizerDiagnostics::empty());
    assert!(!stop);
    assert_eq!(total, EqwalizerDiagnostics::empty());
}

#[test]
fn busy_executable_is_retried() {
    assert_eq!(eqwalizer_ipc::ipc::after_spawn_error(true), eqwalizer_ipc::ipc::SpawnAction::Retry { delay_ms: 10 });
    assert_eq!(eqwalizer_ipc::ipc::after_spawn_error(false), eqwalizer_ipc::ipc::SpawnAction::Fail);
}
