use eqwalizer_ipc::ast::{
    Callback, Export, ExportType, ExternalForm, FunSpec, Id, Import, InvalidForm, ModuleAttr, OptionalCallbacks, Pos,
    RecDecl, TypeDecl,
};
use eqwalizer_ipc::stub::{ModuleStub, OpaqueTypeDecl};

fn id(name: &str, arity: u32) -> Id {
    Id { name: name.to_string(), arity }
}

fn decl(name: &str, p: Pos) -> TypeDecl {
    TypeDecl { location: p, id: id(name, 0), params: vec![], body: "atom()".to_string() }
}

#[test]
fn forms_go_to_their_buckets() {
    let p = Pos { start: 0, end: 1 };
    let q = Pos { start: 5, end: 9 };
    let forms = vec![
        ExternalForm::Module(ModuleAttr { location: p, name: "m".to_string() }),
        ExternalForm::Export(Export { location: p, funs: vec![id("f", 1), id("g", 0)] }),
        ExternalForm::Import(Import { location: p, module: "lists".to_string(), funs: vec![id("map", 2)] }),
        ExternalForm::ExportType(ExportType { location: p, types: vec![id("t", 0)] }),
        ExternalForm::TypeDecl(decl("t", p)),
        ExternalForm::OpaqueTypeDecl(decl("o", q)),
        ExternalForm::FunSpec(FunSpec { location: p, id: id("f", 1), ty: "fun((a) -> b)".to_string() }),
        ExternalForm::RecDecl(RecDecl { location: p, name: "r".to_string(), fields: vec!["x".to_string()] }),
        ExternalForm::Callback(Callback { location: p, id: id("init", 1), tys: vec![] }),
        ExternalForm::OptionalCallbacks(OptionalCallbacks { location: p, ids: vec![id("init", 1)] }),
        ExternalForm::InvalidForm(InvalidForm { location: q, message: "bad type".to_string() }),
    ];
    let stub = ModuleStub::from_forms("m".to_string(), forms);
    assert_eq!(stub.module, "m");
    assert_eq!(stub.exports, vec![id("f", 1), id("g", 0)]);
    assert_eq!(stub.imports, vec![(id("map", 2), "lists".to_string())]);
    assert_eq!(stub.export_types, vec![id("t", 0)]);
    assert_eq!(stub.types, vec![(id("t", 0), decl("t", p))]);
    assert_eq!(stub.private_opaques, vec![(id("o", 0), decl("o", q))]);
    assert_eq!(stub.public_opaques, vec![(id("o", 0), OpaqueTypeDecl { location: q, id: id("o", 0) })]);
    assert_eq!(stub.specs.len(), 1);
    assert_eq!(stub.records[0].0, "r");
    assert_eq!(stub.callbacks.len(), 1);
    assert_eq!(stub.optional_callbacks, vec![id("init", 1)]);
    assert_eq!(stub.invalid_forms, vec![InvalidForm { location: q, message: "bad type".to_string() }]);
}

#[test]
fn empty_module_has_empty_stub() {
    let stub = ModuleStub::from_forms("m".to_string(), vec![]);
    assert_eq!(stub, ModuleStub::new("m".to_string()));
}

#[test]
fn repeated_ids_are_kept_once_and_later_declarations_replace() {
    let p = Pos { start: 0, end: 1 };
    let q = Pos { start: 5, end: 9 };
    let forms = vec![
        ExternalForm::Export(Export { location: p, funs: vec![id("f", 1), id("f", 1)] }),
        ExternalForm::Export(Export { location: q, funs: vec![id("g", 0), id("f", 1)] }),
        ExternalForm::TypeDecl(decl("t", p)),
        ExternalForm::TypeDecl(decl("u", p)),
        ExternalForm::TypeDecl(decl("t", q)),
        ExternalForm::Import(Import { location: p, module: "a".to_string(), funs: vec![id("x", 0)] }),
        ExternalForm::Import(Import { location: p, module: "b".to_string(), funs: vec![id("x", 0)] }),
    ];
    let stub = ModuleStub::from_forms("m".to_string(), forms);
    assert_eq!(stub.exports, vec![id("f", 1), id("g", 0)]);
    assert_eq!(stub.types, vec![(id("t", 0), decl("t", q)), (id("u", 0), decl("u", p))]);
    assert_eq!(stub.imports, vec![(id("x", 0), "b".to_string())]);
}
