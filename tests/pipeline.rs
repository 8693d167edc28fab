use std::cell::RefCell;

use eqwalizer_ipc::ipc::AstError;
use eqwalizer_ipc::pipeline::{Stage, StubCache, StubStages};
use eqwalizer_ipc::stub::ModuleStub;

struct Recorder {
    calls: RefCell<Vec<String>>,
    failing: Option<Stage>,
}

impl Recorder {
    fn step(&self, name: &str, stage: Stage, module: &String) -> Result<ModuleStub, String> {
        self.calls.borrow_mut().push(format!("{}:{}", name, module));
        if self.failing == Some(stage) {
            Err("t/1".to_string())
        } else {
            Ok(ModuleStub::new(module.clone()))
        }
    }
}

impl StubStages for Recorder {
    fn converted_stub(&self, _project: u32, module: &String) -> Result<ModuleStub, AstError> {
        self.step("converted", Stage::Converted, module).map_err(|_| AstError::ParseError)
    }
    fn expand(&self, _project: u32, module: &String, _stub: &ModuleStub) -> Result<ModuleStub, String> {
        self.step("expanded", Stage::Expanded, module)
    }
    fn check_contractive(&self, _project: u32, module: &String, _stub: &ModuleStub) -> Result<ModuleStub, String> {
        self.step("contractive", Stage::Contractive, module)
    }
    fn check_variance(&self, _project: u32, module: &String, _stub: &ModuleStub) -> Result<ModuleStub, String> {
        self.step("covariant", Stage::Covariant, module)
    }
    fn check_transitive(&self, _project: u32, module: &String, _stub: &ModuleStub) -> Result<ModuleStub, String> {
        self.step("transitive", Stage::Transitive, module)
    }
}

#[test]
fn stages_run_in_order_once() {
    let stages = Recorder { calls: RefCell::new(vec![]), failing: None };
    let mut cache = StubCache::new();
    let m = "m".to_string();
    assert_eq!(cache.derive(&stages, 1, &m, Stage::Transitive), Ok(()));
    assert_eq!(
        *stages.calls.borrow(),
        vec!["converted:m", "expanded:m", "contractive:m", "covariant:m", "transitive:m"]
    );
    assert_eq!(cache.derive(&stages, 1, &m, Stage::Transitive), Ok(()));
    assert_eq!(cache.derive(&stages, 1, &m, Stage::Expanded), Ok(()));
    assert_eq!(stages.calls.borrow().len(), 5);
    assert_eq!(cache.get(1, &m, Stage::Transitive).unwrap().module, "m");
    assert!(cache.get(2, &m, Stage::Transitive).is_none());
}

#[test]
fn a_failed_stage_stops_the_later_ones() {
    let stages = Recorder { calls: RefCell::new(vec![]), failing: Some(Stage::Covariant) };
    let mut cache = StubCache::new();
    let m = "m".to_string();
    let r = cache.derive(&stages, 1, &m, Stage::Transitive);
    assert_eq!(r, Err(AstError::VarianceCheckError("t/1".to_string())));
    assert_eq!(stages.calls.borrow().len(), 4);
    assert_eq!(cache.derive(&stages, 1, &m, Stage::Transitive), r);
    assert_eq!(stages.calls.borrow().len(), 4);
    assert!(cache.get(1, &m, Stage::Contractive).is_some());
    assert!(cache.get(1, &m, Stage::Covariant).is_none());
    assert_eq!(cache.runs.len(), 4);
}

#[test]
fn an_early_error_is_passed_on_unchanged() {
    let stages = Recorder { calls: RefCell::new(vec![]), failing: Some(Stage::Converted) };
    let mut cache = StubCache::new();
    let m = "m".to_string();
    assert_eq!(cache.derive(&stages, 1, &m, Stage::Transitive), Err(AstError::ParseError));
    assert_eq!(*stages.calls.borrow(), vec!["converted:m"]);
    assert_eq!(cache.derive(&stages, 1, &m, Stage::Covariant), Err(AstError::ParseError));
    assert_eq!(cache.runs.len(), 1);
}

#[test]
fn each_check_fails_under_its_own_kind() {
    let cases = [
        (Stage::Expanded, AstError::TypeConversionError("t/1".to_string())),
        (Stage::Contractive, AstError::ContractivityError("t/1".to_string())),
        (Stage::Covariant, AstError::VarianceCheckError("t/1".to_string())),
        (Stage::Transitive, AstError::TransitiveCheckError("t/1".to_string())),
    ];
    for (stage, expected) in cases {
        let stages = Recorder { calls: RefCell::new(vec![]), failing: Some(stage) };
        let mut cache = StubCache::new();
        assert_eq!(cache.derive(&stages, 7, &"m".to_string(), Stage::Transitive), Err(expected));
    }
}
