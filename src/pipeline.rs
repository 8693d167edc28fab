use vstd::prelude::*;

use crate::ipc::AstError;
use crate::stub::ModuleStub;
use crate::text::text_eq;

verus! {

/// The stages through which a module's stub is derived, in order.
#[derive(Clone, Copy, Debug, PartialEq, Eq, Structural)]
pub enum Stage {
    Converted,
    Expanded,
    Contractive,
    Covariant,
    Transitive,
}

pub open spec fn rank(s: Stage) -> nat {
    match s {
        Stage::Converted => 0,
        Stage::Expanded => 1,
        Stage::Contractive => 2,
        Stage::Covariant => 3,
        Stage::Transitive => 4,
    }
}

/// The stage whose output a stage reads.
pub open spec fn previous(s: Stage) -> Stage {
    match s {
        Stage::Converted => Stage::Converted,
        Stage::Expanded => Stage::Converted,
        Stage::Contractive => Stage::Expanded,
        Stage::Covariant => Stage::Contractive,
        Stage::Transitive => Stage::Covariant,
    }
}

fn previous_stage(s: Stage) -> (r: Stage)
    ensures
        r == previous(s),
{
    match s {
        Stage::Converted => Stage::Converted,
        Stage::Expanded => Stage::Converted,
        Stage::Contractive => Stage::Expanded,
        Stage::Covariant => Stage::Contractive,
        Stage::Transitive => Stage::Covariant,
    }
}

/// The work of each stage, which the surrounding system supplies: reading a
/// module's stub forms, expanding aliases across modules, and the three checks.
/// Each later stage reads only the stub that the stage before it produced, and
/// fails with an account of what is wrong, which the cache files under the
/// stage's own kind of error.
pub trait StubStages {
    /// What reading the module's stub forms gives. An implementation that is
    /// verified names it; for one that is not, it stays unknown.
    closed spec fn read_spec(&self, project: u32, module: Seq<char>) -> Result<ModuleStub, AstError> {
        arbitrary()
    }

    /// What the work of `stage` (after the reading) gives on `stub`; named as
    /// `read_spec` is.
    closed spec fn check_spec(&self, stage: Stage, project: u32, module: Seq<char>, stub: ModuleStub) -> Result<
        ModuleStub,
        String,
    > {
        arbitrary()
    }

    fn converted_stub(&self, project: u32, module: &String) -> (r: Result<ModuleStub, AstError>)
        ensures
            r == self.read_spec(project, module@),
    ;

    fn expand(&self, project: u32, module: &String, stub: &ModuleStub) -> (r: Result<ModuleStub, String>)
        ensures
            r == self.check_spec(Stage::Expanded, project, module@, *stub),
    ;

    fn check_contractive(&self, project: u32, module: &String, stub: &ModuleStub) -> (r: Result<ModuleStub, String>)
        ensures
            r == self.check_spec(Stage::Contractive, project, module@, *stub),
    ;

    fn check_variance(&self, project: u32, module: &String, stub: &ModuleStub) -> (r: Result<ModuleStub, String>)
        ensures
            r == self.check_spec(Stage::Covariant, project, module@, *stub),
    ;

    fn check_transitive(&self, project: u32, module: &String, stub: &ModuleStub) -> (r: Result<ModuleStub, String>)
        ensures
            r == self.check_spec(Stage::Transitive, project, module@, *stub),
    ;
}

/// The kind of error under which a stage's failure is kept.
pub open spec fn stage_error(stage: Stage, detail: String) -> AstError {
    match stage {
        Stage::Contractive => AstError::ContractivityError(detail),
        Stage::Covariant => AstError::VarianceCheckError(detail),
        Stage::Transitive => AstError::TransitiveCheckError(detail),
        _ => AstError::TypeConversionError(detail),
    }
}

fn make_stage_error(stage: Stage, detail: String) -> (r: AstError)
    ensures
        r == stage_error(stage, detail),
{
    match stage {
        Stage::Contractive => AstError::ContractivityError(detail),
        Stage::Covariant => AstError::VarianceCheckError(detail),
        Stage::Transitive => AstError::TransitiveCheckError(detail),
        _ => AstError::TypeConversionError(detail),
    }
}

/// What a stage's own work gave back: the reading of the forms, or a check.
pub enum StageReturn {
    Read(Result<ModuleStub, AstError>),
    Checked(Result<ModuleStub, String>),
}

/// The output that a stage keeps for what its work gave back.
pub open spec fn stored(stage: Stage, ret: StageReturn) -> Result<ModuleStub, AstError> {
    match ret {
        StageReturn::Read(r) => r,
        StageReturn::Checked(Ok(s)) => Ok(s),
        StageReturn::Checked(Err(d)) => Err(stage_error(stage, d)),
    }
}

/// One stage's output for one module of one project.
pub struct Memo {
    pub project: u32,
    pub module: String,
    pub stage: Stage,
    pub result: Result<ModuleStub, AstError>,
}

/// One run of a stage's own work: the stub it was handed (none for the
/// reading of the forms), what it gave back, and whether it succeeded.
pub struct Run {
    pub project: u32,
    pub module: String,
    pub stage: Stage,
    pub ok: bool,
    pub input: Ghost<Option<ModuleStub>>,
    pub returned: Ghost<StageReturn>,
}

/// The outputs of the stages, each computed once per (project, module), and the
/// order in which the stages ran.
pub struct StubCache {
    pub memos: Vec<Memo>,
    pub runs: Vec<Run>,
}

pub open spec fn same_key(m: Memo, project: u32, module: Seq<char>, stage: Stage) -> bool {
    m.project == project && m.module@ == module && m.stage == stage
}

/// Every run of a stage after the first comes after a successful run of the
/// stage before it, for the same module.
pub open spec fn runs_ordered(runs: Seq<Run>) -> bool {
    forall|i: int|
        0 <= i < runs.len() && runs[i].stage != Stage::Converted ==> #[trigger] preceded(runs, i)
}

/// A successful run of the stage before run `i`'s, for the same module, comes before it.
pub open spec fn preceded(runs: Seq<Run>, i: int) -> bool {
    exists|j: int|
        0 <= j < i && runs[j].project == runs[i].project && runs[j].module@ == runs[i].module@
            && runs[j].stage == previous(runs[i].stage) && #[trigger] runs[j].ok
}

/// No two outputs are kept for one (project, module, stage).
pub open spec fn memos_unique(memos: Seq<Memo>) -> bool {
    forall|i: int, j: int|
        #![trigger memos[i], memos[j]]
        0 <= i < j < memos.len() ==> !same_key(memos[i], memos[j].project, memos[j].module@, memos[j].stage)
}

/// Every successful output was produced by a successful run.
pub open spec fn memos_justified(memos: Seq<Memo>, runs: Seq<Run>) -> bool {
    forall|i: int|
        #![trigger memos[i]]
        0 <= i < memos.len() && memos[i].result is Ok ==> ran_ok(runs, memos[i].project, memos[i].module@, memos[i].stage)
}

/// The forms of the module were read, and gave `res`.
pub open spec fn converted_ran(runs: Seq<Run>, project: u32, module: Seq<char>, res: Result<ModuleStub, AstError>) -> bool {
    exists|j: int|
        0 <= j < runs.len() && runs[j].project == project && runs[j].module@ == module && runs[j].stage
            == Stage::Converted && runs[j].input@ is None && #[trigger] runs[j].returned@ == StageReturn::Read(res)
}

/// `stage`'s own work ran on `input` and what it gave back is kept as `res`.
pub open spec fn checked_ran(
    runs: Seq<Run>,
    project: u32,
    module: Seq<char>,
    stage: Stage,
    input: ModuleStub,
    res: Result<ModuleStub, AstError>,
) -> bool {
    exists|j: int|
        0 <= j < runs.len() && runs[j].project == project && runs[j].module@ == module && runs[j].stage == stage
            && runs[j].input@ == Some(input) && runs[j].returned@ is Checked && #[trigger] stored(
            stage,
            runs[j].returned@,
        ) == res
}

/// How `stage`'s output `res` follows from the previous stage's output `prev`:
/// an error is passed on as it is, and the stage's work runs on a stub.
pub open spec fn follows(
    prev: Result<ModuleStub, AstError>,
    runs: Seq<Run>,
    project: u32,
    module: Seq<char>,
    stage: Stage,
    res: Result<ModuleStub, AstError>,
) -> bool {
    match prev {
        Err(e) => res == Err::<ModuleStub, AstError>(e),
        Ok(st) => checked_ran(runs, project, module, stage, st, res),
    }
}

/// Entry `i` is what its stage made of the previous stage's entry.
pub open spec fn memo_derived(memos: Seq<Memo>, runs: Seq<Run>, i: int) -> bool {
    let m = memos[i];
    if m.stage == Stage::Converted {
        converted_ran(runs, m.project, m.module@, m.result)
    } else {
        exists|k: int|
            0 <= k < i && same_key(memos[k], m.project, m.module@, previous(m.stage)) && #[trigger] follows(
                memos[k].result,
                runs,
                m.project,
                m.module@,
                m.stage,
                m.result,
            )
    }
}

pub open spec fn memos_derived(memos: Seq<Memo>, runs: Seq<Run>) -> bool {
    forall|i: int| 0 <= i < memos.len() ==> #[trigger] memo_derived(memos, runs, i)
}

pub open spec fn result_view(r: Result<ModuleStub, AstError>) -> Result<(), AstError> {
    match r {
        Ok(_) => Ok(()),
        Err(e) => Err(e),
    }
}

proof fn lemma_derived_mono(m1: Seq<Memo>, r1: Seq<Run>, m2: Seq<Memo>, r2: Seq<Run>)
    requires
        memos_derived(m1, r1),
        m2.len() >= m1.len(),
        m2.subrange(0, m1.len() as int) == m1,
        r2.len() >= r1.len(),
        r2.subrange(0, r1.len() as int) == r1,
    ensures
        forall|i: int| 0 <= i < m1.len() ==> #[trigger] memo_derived(m2, r2, i),
{
    assert forall|i: int| 0 <= i < m1.len() implies #[trigger] memo_derived(m2, r2, i) by {
        assert(memo_derived(m1, r1, i));
        assert(m2.subrange(0, m1.len() as int)[i] == m2[i]);
        let m = m1[i];
        if m.stage == Stage::Converted {
            let j = choose|j: int|
                0 <= j < r1.len() && r1[j].project == m.project && r1[j].module@ == m.module@ && r1[j].stage
                    == Stage::Converted && r1[j].input@ is None && #[trigger] r1[j].returned@ == StageReturn::Read(m.result);
            assert(r2.subrange(0, r1.len() as int)[j] == r2[j]);
        } else {
            let k = choose|k: int|
                0 <= k < i && same_key(m1[k], m.project, m.module@, previous(m.stage)) && #[trigger] follows(
                    m1[k].result,
                    r1,
                    m.project,
                    m.module@,
                    m.stage,
                    m.result,
                );
            assert(m2.subrange(0, m1.len() as int)[k] == m2[k]);
            if let Ok(st) = m1[k].result {
                let j = choose|j: int|
                    0 <= j < r1.len() && r1[j].project == m.project && r1[j].module@ == m.module@ && r1[j].stage
                        == m.stage && r1[j].input@ == Some(st) && r1[j].returned@ is Checked && #[trigger] stored(
                        m.stage,
                        r1[j].returned@,
                    ) == m.result;
                assert(r2.subrange(0, r1.len() as int)[j] == r2[j]);
                assert(checked_ran(r2, m.project, m.module@, m.stage, st, m.result));
            }
            assert(follows(m2[k].result, r2, m.project, m.module@, m.stage, m.result));
        }
    }
}

pub open spec fn ran_ok(runs: Seq<Run>, project: u32, module: Seq<char>, stage: Stage) -> bool {
    exists|j: int|
        0 <= j < runs.len() && runs[j].project == project && runs[j].module@ == module && runs[j].stage == stage
            && #[trigger] runs[j].ok
}

proof fn lemma_push_run(runs: Seq<Run>, r: Run)
    requires
        runs_ordered(runs),
        r.stage != Stage::Converted ==> ran_ok(runs, r.project, r.module@, previous(r.stage)),
    ensures
        runs_ordered(runs.push(r)),
        forall|p: u32, m: Seq<char>, st: Stage| #[trigger] ran_ok(runs, p, m, st) ==> ran_ok(runs.push(r), p, m, st),
        r.ok ==> ran_ok(runs.push(r), r.project, r.module@, r.stage),
{
    let t = runs.push(r);
    assert forall|i: int| 0 <= i < t.len() && t[i].stage != Stage::Converted implies #[trigger] preceded(t, i) by {
        if i < runs.len() {
            assert(preceded(runs, i));
            let j = choose|j: int|
                0 <= j < i && runs[j].project == runs[i].project && runs[j].module@ == runs[i].module@
                    && runs[j].stage == previous(runs[i].stage) && #[trigger] runs[j].ok;
            assert(t[j] == runs[j]);
            assert(t[i] == runs[i]);
        } else {
            let j = choose|j: int|
                0 <= j < runs.len() && runs[j].project == r.project && runs[j].module@ == r.module@
                    && runs[j].stage == previous(r.stage) && #[trigger] runs[j].ok;
            assert(t[j] == runs[j]);
            assert(t[i] == r);
        }
    }
    assert forall|p: u32, m: Seq<char>, st: Stage| #[trigger] ran_ok(runs, p, m, st) implies ran_ok(t, p, m, st) by {
        let j = choose|j: int|
            0 <= j < runs.len() && runs[j].project == p && runs[j].module@ == m && runs[j].stage == st
                && #[trigger] runs[j].ok;
        assert(t[j] == runs[j]);
    }
    if r.ok {
        assert(t[t.len() - 1] == r);
    }
}

proof fn lemma_push_memo(memos: Seq<Memo>, runs: Seq<Run>, m: Memo)
    requires
        memos_unique(memos),
        memos_justified(memos, runs),
        forall|i: int| 0 <= i < memos.len() ==> !same_key(#[trigger] memos[i], m.project, m.module@, m.stage),
        m.result is Ok ==> ran_ok(runs, m.project, m.module@, m.stage),
    ensures
        memos_unique(memos.push(m)),
        memos_justified(memos.push(m), runs),
{
    let t = memos.push(m);
    assert forall|i: int|
        #![trigger t[i]]
        0 <= i < t.len() && t[i].result is Ok implies ran_ok(runs, t[i].project, t[i].module@, t[i].stage) by {
        if i < memos.len() {
            assert(t[i] == memos[i]);
        }
    }
    assert forall|i: int, j: int|
        #![trigger t[i], t[j]]
        0 <= i < j < t.len() implies !same_key(t[i], t[j].project, t[j].module@, t[j].stage) by {
        assert(t[i] == memos[i]);
        if j < memos.len() {
            assert(t[j] == memos[j]);
        }
    }
}

impl StubCache {
    pub open spec fn has_ok(&self, project: u32, module: Seq<char>, stage: Stage) -> bool {
        exists|i: int|
            0 <= i < self.memos@.len() && same_key(self.memos@[i], project, module, stage)
                && self.memos@[i].result is Ok
    }

    pub open spec fn has(&self, project: u32, module: Seq<char>, stage: Stage) -> bool {
        exists|i: int| 0 <= i < self.memos@.len() && same_key(self.memos@[i], project, module, stage)
    }

    /// The output kept for the key (meaningful where `has` holds).
    pub open spec fn result_of(&self, project: u32, module: Seq<char>, stage: Stage) -> Result<ModuleStub, AstError> {
        self.memos@[choose|i: int| 0 <= i < self.memos@.len() && same_key(self.memos@[i], project, module, stage)].result
    }

    pub open spec fn wf(&self) -> bool {
        &&& memos_unique(self.memos@)
        &&& memos_justified(self.memos@, self.runs@)
        &&& memos_derived(self.memos@, self.runs@)
        &&& runs_ordered(self.runs@)
    }

    pub fn new() -> (r: Self)
        ensures
            r.wf(),
            r.memos@.len() == 0,
            r.runs@.len() == 0,
    {
        StubCache { memos: Vec::new(), runs: Vec::new() }
    }

    fn find(&self, project: u32, module: &String, stage: Stage) -> (r: Option<usize>)
        ensures
            match r {
                Some(i) => i < self.memos@.len() && same_key(self.memos@[i as int], project, module@, stage),
                None => !self.has(project, module@, stage),
            },
    {
        let mut i: usize = 0;
        while i < self.memos.len()
            invariant
                i <= self.memos@.len(),
                forall|j: int| 0 <= j < i ==> !same_key(#[trigger] self.memos@[j], project, module@, stage),
            decreases self.memos@.len() - i,
        {
            let m = &self.memos[i];
            if m.project == project && m.stage == stage && text_eq(m.module.as_str(), module.as_str()) {
                return Some(i);
            }
            i = i + 1;
        }
        None
    }

    /// The stub that `stage` produced for the module, if it has run and succeeded.
    pub fn get(&self, project: u32, module: &String, stage: Stage) -> (r: Option<&ModuleStub>)
        requires
            self.wf(),
        ensures
            r is Some <==> self.has_ok(project, module@, stage),
            r matches Some(st) ==> self.result_of(project, module@, stage) == Ok::<ModuleStub, AstError>(*st),
    {
        match self.find(project, module, stage) {
            Some(i) => match &self.memos[i].result {
                Ok(stub) => {
                    proof {
                        self.lemma_result_of(i as int, project, module@, stage);
                    }
                    Some(stub)
                },
                Err(_) => {
                    proof {
                        assert forall|k: int|
                            0 <= k < self.memos@.len() && same_key(self.memos@[k], project, module@, stage)
                            implies !(self.memos@[k].result is Ok) by {
                            if k != i {
                                if k < i {
                                    assert(!same_key(self.memos@[k], self.memos@[i as int].project,
                                        self.memos@[i as int].module@, self.memos@[i as int].stage));
                                } else {
                                    assert(!same_key(self.memos@[i as int], self.memos@[k].project,
                                        self.memos@[k].module@, self.memos@[k].stage));
                                }
                            }
                        }
                    }
                    None
                },
            },
            None => None,
        }
    }
}

impl StubCache {
    proof fn lemma_result_of(&self, i: int, project: u32, module: Seq<char>, stage: Stage)
        requires
            memos_unique(self.memos@),
            0 <= i < self.memos@.len(),
            same_key(self.memos@[i], project, module, stage),
        ensures
            self.result_of(project, module, stage) == self.memos@[i].result,
            self.has(project, module, stage),
    {
        let k = choose|k: int| 0 <= k < self.memos@.len() && same_key(self.memos@[k], project, module, stage);
        if k < i {
            assert(!same_key(self.memos@[k], self.memos@[i].project, self.memos@[i].module@, self.memos@[i].stage));
        } else if k > i {
            assert(!same_key(self.memos@[i], self.memos@[k].project, self.memos@[k].module@, self.memos@[k].stage));
        }
    }

    /// What the invariant says of the entry at `i`, in terms of its key.
    proof fn lemma_entry(&self, i: int, project: u32, module: Seq<char>, stage: Stage)
        requires
            self.wf(),
            0 <= i < self.memos@.len(),
            same_key(self.memos@[i], project, module, stage),
        ensures
            self.result_of(project, module, stage) == self.memos@[i].result,
            stage == Stage::Converted ==> converted_ran(self.runs@, project, module, self.result_of(project, module, stage)),
            stage != Stage::Converted ==> self.has(project, module, previous(stage)) && follows(
                self.result_of(project, module, previous(stage)),
                self.runs@,
                project,
                module,
                stage,
                self.result_of(project, module, stage),
            ),
    {
        self.lemma_result_of(i, project, module, stage);
        assert(memo_derived(self.memos@, self.runs@, i));
        if stage != Stage::Converted {
            let m = self.memos@[i];
            let k = choose|k: int|
                0 <= k < i && same_key(self.memos@[k], m.project, m.module@, previous(m.stage)) && #[trigger] follows(
                    self.memos@[k].result,
                    self.runs@,
                    m.project,
                    m.module@,
                    m.stage,
                    m.result,
                );
            self.lemma_result_of(k, project, module, previous(stage));
        }
    }

    proof fn lemma_lookup(&self, i: int, project: u32, module: Seq<char>, stage: Stage)
        requires
            self.wf(),
            0 <= i < self.memos@.len(),
            same_key(self.memos@[i], project, module, stage),
        ensures
            self.has_ok(project, module, stage) <==> self.memos@[i].result is Ok,
    {
        if self.has_ok(project, module, stage) {
            let k = choose|k: int|
                0 <= k < self.memos@.len() && same_key(self.memos@[k], project, module, stage)
                    && self.memos@[k].result is Ok;
            if k < i {
                assert(!same_key(self.memos@[k], self.memos@[i].project, self.memos@[i].module@,
                    self.memos@[i].stage));
            } else if k > i {
                assert(!same_key(self.memos@[i], self.memos@[k].project, self.memos@[k].module@,
                    self.memos@[k].stage));
            }
        }
    }

    fn record(
        &mut self,
        project: u32,
        module: &String,
        stage: Stage,
        result: Result<ModuleStub, AstError>,
        ran: bool,
        input: Ghost<Option<ModuleStub>>,
        returned: Ghost<StageReturn>,
    )
        requires
            old(self).wf(),
            !old(self).has(project, module@, stage),
            ran || result is Err,
            ran && stage != Stage::Converted ==> old(self).has_ok(project, module@, previous(stage)),
            stage == Stage::Converted ==> ran && input@ is None && returned@ == StageReturn::Read(result),
            stage != Stage::Converted ==> old(self).has(project, module@, previous(stage)),
            stage != Stage::Converted ==> match old(self).result_of(project, module@, previous(stage)) {
                Err(e) => !ran && result == Err::<ModuleStub, AstError>(e),
                Ok(st) => ran && input@ == Some(st) && returned@ is Checked && stored(stage, returned@) == result,
            },
        ensures
            final(self).wf(),
            final(self).memos@ == old(self).memos@.push(final(self).memos@.last()),
            same_key(final(self).memos@.last(), project, module@, stage),
            final(self).memos@.last().result == result,
            final(self).runs@.len() >= old(self).runs@.len(),
            final(self).runs@.subrange(0, old(self).runs@.len() as int) == old(self).runs@,
    {
        let ghost old_runs = self.runs@;
        let ghost old_memos = self.memos@;
        let ghost prev_k: int = 0;
        proof {
            if stage != Stage::Converted {
                prev_k = choose|k: int| 0 <= k < self.memos@.len() && same_key(self.memos@[k], project, module@, previous(stage));
                self.lemma_result_of(prev_k, project, module@, previous(stage));
            }
        }
        if ran {
            proof {
                if stage != Stage::Converted {
                    let k = choose|k: int|
                        0 <= k < self.memos@.len() && same_key(self.memos@[k], project, module@, previous(stage))
                            && self.memos@[k].result is Ok;
                    assert(self.memos@[k].result is Ok);
                }
            }
            let run = Run { project, module: module.clone(), stage, ok: result.is_ok(), input, returned };
            proof {
                lemma_push_run(self.runs@, run);
                let memos = self.memos@;
                let t = self.runs@.push(run);
                assert forall|i: int|
                    #![trigger memos[i]]
                    0 <= i < memos.len() && memos[i].result is Ok implies ran_ok(t, memos[i].project,
                        memos[i].module@, memos[i].stage) by {
                    assert(ran_ok(self.runs@, memos[i].project, memos[i].module@, memos[i].stage));
                }
            }
            self.runs.push(run);
        }
        let memo = Memo { project, module: module.clone(), stage, result };
        proof {
            assert forall|i: int| 0 <= i < self.memos@.len() implies !same_key(
                #[trigger] self.memos@[i],
                project,
                module@,
                stage,
            ) by {}
            lemma_push_memo(self.memos@, self.runs@, memo);
            assert(self.runs@.subrange(0, old_runs.len() as int) =~= old_runs);
        }
        self.memos.push(memo);
        proof {
            let m2 = self.memos@;
            let r2 = self.runs@;
            assert(m2.subrange(0, old_memos.len() as int) =~= old_memos);
            lemma_derived_mono(old_memos, old_runs, m2, r2);
            let n = old_memos.len() as int;
            assert(m2[n] == memo);
            if stage == Stage::Converted {
                let j = old_runs.len() as int;
                assert(r2[j].returned@ == StageReturn::Read(result));
                assert(converted_ran(r2, project, module@, result));
            } else {
                assert(m2[prev_k] == old_memos[prev_k]);
                match old_memos[prev_k].result {
                    Err(e) => {},
                    Ok(st) => {
                        let j = old_runs.len() as int;
                        assert(r2[j].input@ == Some(st));
                        assert(stored(stage, r2[j].returned@) == result);
                        assert(checked_ran(r2, project, module@, stage, st, result));
                    },
                }
                assert(follows(m2[prev_k].result, r2, project, module@, stage, result));
            }
            assert(memo_derived(m2, r2, n));
            assert forall|i: int| 0 <= i < m2.len() implies #[trigger] memo_derived(m2, r2, i) by {}
        }
    }

    /// Finds, or computes and keeps, the output of `stage` for the module,
    /// computing the stages before it first. A stage's own work runs only on the
    /// successful output of the stage before it, and at most once per module.
    pub fn derive<S: StubStages>(&mut self, stages: &S, project: u32, module: &String, stage: Stage) -> (r:
        Result<(), AstError>)
        requires
            old(self).wf(),
        ensures
            final(self).wf(),
            final(self).has(project, module@, stage),
            r is Ok <==> final(self).has_ok(project, module@, stage),
            r == result_view(final(self).result_of(project, module@, stage)),
            stage == Stage::Converted ==> converted_ran(
                final(self).runs@,
                project,
                module@,
                final(self).result_of(project, module@, stage),
            ),
            stage != Stage::Converted ==> final(self).has(project, module@, previous(stage)) && follows(
                final(self).result_of(project, module@, previous(stage)),
                final(self).runs@,
                project,
                module@,
                stage,
                final(self).result_of(project, module@, stage),
            ),
            !old(self).has(project, module@, stage) && stage == Stage::Converted ==> final(self).result_of(
                project,
                module@,
                stage,
            ) == stages.read_spec(project, module@),
            !old(self).has(project, module@, stage) && stage != Stage::Converted ==> match final(self).result_of(
                project,
                module@,
                previous(stage),
            ) {
                Err(e) => final(self).result_of(project, module@, stage) == Err::<ModuleStub, AstError>(e),
                Ok(st) => final(self).result_of(project, module@, stage) == stored(
                    stage,
                    StageReturn::Checked(stages.check_spec(stage, project, module@, st)),
                ),
            },
            final(self).memos@.len() >= old(self).memos@.len(),
            final(self).memos@.subrange(0, old(self).memos@.len() as int) == old(self).memos@,
            forall|i: int|
                old(self).memos@.len() <= i < final(self).memos@.len() ==> (#[trigger] final(self).memos@[i]).project
                    == project && final(self).memos@[i].module@ == module@ && rank(final(self).memos@[i].stage)
                    <= rank(stage),
            final(self).runs@.len() >= old(self).runs@.len(),
            final(self).runs@.subrange(0, old(self).runs@.len() as int) == old(self).runs@,
        decreases rank(stage),
    {
        match self.find(project, module, stage) {
            Some(i) => {
                proof {
                    self.lemma_lookup(i as int, project, module@, stage);
                    self.lemma_entry(i as int, project, module@, stage);
                    assert(self.memos@.subrange(0, self.memos@.len() as int) =~= self.memos@);
                    assert(self.runs@.subrange(0, self.runs@.len() as int) =~= self.runs@);
                }
                return match &self.memos[i].result {
                    Ok(_) => Ok(()),
                    Err(e) => Err(e.duplicate()),
                };
            },
            None => {},
        }
        if stage == Stage::Converted {
            let read = stages.converted_stub(project, module);
            let ghost got = read;
            self.record(project, module, stage, read, true, Ghost(None), Ghost(StageReturn::Read(got)));
        } else {
            let prev = previous_stage(stage);
            let ghost before = *self;
            match self.derive(stages, project, module, prev) {
                Err(e) => {
                    proof {
                        self.lemma_no_key_added(&before, project, module@, stage);
                    }
                    let passed = e.duplicate();
                    let ghost kp = choose|k: int|
                        0 <= k < self.memos@.len() && same_key(self.memos@[k], project, module@, prev);
                    let ghost before_memos = self.memos@;
                    proof {
                        self.lemma_result_of(kp, project, module@, prev);
                    }
                    self.record(project, module, stage, Err(passed), false, Ghost(None), Ghost(StageReturn::Read(Err(e))));
                    proof {
                        assert(self.memos@[kp] == before_memos[kp]);
                        self.lemma_result_of(kp, project, module@, prev);
                    }
                },
                Ok(()) => {
                    proof {
                        self.lemma_no_key_added(&before, project, module@, stage);
                    }
                    let stub = self.get(project, module, prev).unwrap();
                    let ghost st = *stub;
                    let raw = match stage {
                        Stage::Expanded => stages.expand(project, module, stub),
                        Stage::Contractive => stages.check_contractive(project, module, stub),
                        Stage::Covariant => stages.check_variance(project, module, stub),
                        _ => stages.check_transitive(project, module, stub),
                    };
                    let ghost got = raw;
                    let ghost kp = choose|k: int|
                        0 <= k < self.memos@.len() && same_key(self.memos@[k], project, module@, prev);
                    let ghost before_memos = self.memos@;
                    proof {
                        self.lemma_result_of(kp, project, module@, prev);
                    }
                    let result = match raw {
                        Ok(next) => Ok(next),
                        Err(detail) => Err(make_stage_error(stage, detail)),
                    };
                    self.record(project, module, stage, result, true, Ghost(Some(st)), Ghost(StageReturn::Checked(got)));
                    proof {
                        assert(self.memos@[kp] == before_memos[kp]);
                        self.lemma_result_of(kp, project, module@, prev);
                    }
                },
            }
        }
        let n = self.memos.len() - 1;
        proof {
            self.lemma_lookup(n as int, project, module@, stage);
            self.lemma_entry(n as int, project, module@, stage);
        }
        match &self.memos[n].result {
            Ok(_) => Ok(()),
            Err(e) => Err(e.duplicate()),
        }
    }

    proof fn lemma_no_key_added(&self, before: &StubCache, project: u32, module: Seq<char>, stage: Stage)
        requires
            !before.has(project, module, stage),
            self.memos@.len() >= before.memos@.len(),
            self.memos@.subrange(0, before.memos@.len() as int) == before.memos@,
            stage != Stage::Converted,
            forall|i: int|
                before.memos@.len() <= i < self.memos@.len() ==> (#[trigger] self.memos@[i]).project
                    == project && self.memos@[i].module@ == module && rank(self.memos@[i].stage)
                    <= rank(previous(stage)),
        ensures
            !self.has(project, module, stage),
    {
        if self.has(project, module, stage) {
            let k = choose|k: int| 0 <= k < self.memos@.len() && same_key(self.memos@[k], project, module, stage);
            if k < before.memos@.len() {
                assert(self.memos@[k] == before.memos@[k]);
            }
        }
    }
}

/// Stage order: every run of the transitive check follows a successful run of
/// the variance check for the same module, which follows a successful run of
/// the contractivity check, which follows a successful expansion.
pub proof fn lemma_stages_in_order(cache: &StubCache, i: int)
    requires
        cache.wf(),
        0 <= i < cache.runs@.len(),
        cache.runs@[i].stage == Stage::Transitive,
    ensures
        exists|a: int, b: int, c: int|
            0 <= a < b < c < i && #[trigger] cache.runs@[c].stage == Stage::Covariant && cache.runs@[c].ok
                && #[trigger] cache.runs@[b].stage == Stage::Contractive && cache.runs@[b].ok
                && #[trigger] cache.runs@[a].stage == Stage::Expanded && cache.runs@[a].ok
                && cache.runs@[a].module@ == cache.runs@[i].module@ && cache.runs@[b].module@
                == cache.runs@[i].module@ && cache.runs@[c].module@ == cache.runs@[i].module@,
{
    lemma_chain(cache.runs@, i);
}

proof fn lemma_chain(runs: Seq<Run>, i: int)
    requires
        runs_ordered(runs),
        0 <= i < runs.len(),
        runs[i].stage == Stage::Transitive,
    ensures
        exists|a: int, b: int, c: int|
            0 <= a < b < c < i && #[trigger] runs[c].stage == Stage::Covariant && runs[c].ok
                && #[trigger] runs[b].stage == Stage::Contractive && runs[b].ok
                && #[trigger] runs[a].stage == Stage::Expanded && runs[a].ok
                && runs[a].module@ == runs[i].module@ && runs[b].module@
                == runs[i].module@ && runs[c].module@ == runs[i].module@,
{
    assert(preceded(runs, i));
    let c = choose|j: int|
        0 <= j < i && runs[j].project == runs[i].project && runs[j].module@ == runs[i].module@
            && runs[j].stage == previous(runs[i].stage) && #[trigger] runs[j].ok;
    assert(preceded(runs, c));
    let b = choose|j: int|
        0 <= j < c && runs[j].project == runs[c].project && runs[j].module@ == runs[c].module@
            && runs[j].stage == previous(runs[c].stage) && #[trigger] runs[j].ok;
    assert(preceded(runs, b));
    let a = choose|j: int|
        0 <= j < b && runs[j].project == runs[b].project && runs[j].module@ == runs[b].module@
            && runs[j].stage == previous(runs[b].stage) && #[trigger] runs[j].ok;
    assert(runs[c].stage == Stage::Covariant && runs[b].stage == Stage::Contractive
        && runs[a].stage == Stage::Expanded);
}

} // verus!
