use vstd::prelude::*;

verus! {

broadcast use vstd::seq::axiom_seq_index_decreases, vstd::seq::axiom_seq_subrange_decreases;

/// A source range: the offsets of its first character and of the one after it.
#[derive(Clone, Copy, Debug, PartialEq, Eq)]
pub struct Pos {
    pub start: u32,
    pub end: u32,
}

/// A function or a type within a module: its name and arity.
#[derive(Clone, Debug, PartialEq, Eq)]
pub struct Id {
    pub name: String,
    pub arity: u32,
}

/// A function or a type of a named module.
#[derive(Clone, Debug, PartialEq, Eq)]
pub struct RemoteId {
    pub module: String,
    pub name: String,
    pub arity: u32,
}

// ---------------------------------------------------------------- patterns

#[derive(Debug, PartialEq, Eq)]
pub enum Pat {
    PatVar(PatVar),
    PatWild(PatWild),
    PatAtom(PatAtom),
    PatTuple(PatTuple),
}

#[derive(Debug, PartialEq, Eq)]
pub struct PatVar {
    pub location: Pos,
    pub n: String,
}

#[derive(Debug, PartialEq, Eq)]
pub struct PatWild {
    pub location: Pos,
}

#[derive(Debug, PartialEq, Eq)]
pub struct PatAtom {
    pub location: Pos,
    pub s: String,
}

#[derive(Debug, PartialEq, Eq)]
pub struct PatTuple {
    pub location: Pos,
    pub elems: Vec<Pat>,
}

// ---------------------------------------------------------------- guards

#[derive(Debug, PartialEq, Eq)]
pub struct Guard {
    pub tests: Vec<Test>,
}

#[derive(Debug, PartialEq, Eq)]
pub enum Test {
    TestVar(TestVar),
    TestAtom(TestAtom),
    TestNumber(TestNumber),
    TestTuple(TestTuple),
    TestCall(TestCall),
    TestUnOp(TestUnOp),
    TestBinOp(TestBinOp),
}

#[derive(Debug, PartialEq, Eq)]
pub struct TestVar {
    pub location: Pos,
    pub v: String,
}

#[derive(Debug, PartialEq, Eq)]
pub struct TestAtom {
    pub location: Pos,
    pub s: String,
}

#[derive(Debug, PartialEq, Eq)]
pub struct TestNumber {
    pub location: Pos,
    pub lit: Option<i32>,
}

#[derive(Debug, PartialEq, Eq)]
pub struct TestTuple {
    pub location: Pos,
    pub elems: Vec<Test>,
}

#[derive(Debug, PartialEq, Eq)]
pub struct TestCall {
    pub location: Pos,
    pub id: Id,
    pub args: Vec<Test>,
}

#[derive(Debug, PartialEq, Eq)]
pub struct TestUnOp {
    pub location: Pos,
    pub op: String,
    pub arg: Box<Test>,
}

#[derive(Debug, PartialEq, Eq)]
pub struct TestBinOp {
    pub location: Pos,
    pub op: String,
    pub arg_1: Box<Test>,
    pub arg_2: Box<Test>,
}

// ---------------------------------------------------------------- expressions

#[derive(Debug, PartialEq, Eq)]
pub enum Expr {
    Var(Var),
    AtomLit(AtomLit),
    IntLit(IntLit),
    FloatLit(FloatLit),
    StringLit(StringLit),
    NilLit(NilLit),
    Tuple(Tuple),
    Cons(Cons),
    Block(Block),
    Match(Match),
    Case(Case),
    LocalCall(LocalCall),
    RemoteCall(RemoteCall),
    LocalFun(LocalFun),
    RemoteFun(RemoteFun),
    Lambda(Lambda),
    UnOp(UnOp),
    BinOp(BinOp),
    Catch(Catch),
    If(If),
    Receive(Receive),
    ReceiveWithTimeout(ReceiveWithTimeout),
    TryCatchExpr(TryCatchExpr),
    Maybe(Maybe),
    MaybeElse(MaybeElse),
    DynCall(DynCall),
    DynRemoteFun(DynRemoteFun),
    DynRemoteFunArity(DynRemoteFunArity),
    TryOfCatchExpr(TryOfCatchExpr),
    MaybeMatch(MaybeMatch),
    RecordSelect(RecordSelect),
    RecordIndex(RecordIndex),
    MapCreate(MapCreate),
    MapUpdate(MapUpdate),
    RecordCreate(RecordCreate),
    RecordUpdate(RecordUpdate),
    Binary(Binary),
    LComprehension(LComprehension),
    BComprehension(BComprehension),
    MComprehension(MComprehension),
}

#[derive(Debug, PartialEq, Eq)]
pub struct Var {
    pub location: Pos,
    pub n: String,
}

#[derive(Debug, PartialEq, Eq)]
pub struct AtomLit {
    pub location: Pos,
    pub s: String,
}

#[derive(Debug, PartialEq, Eq)]
pub struct IntLit {
    pub location: Pos,
    pub value: Option<i32>,
}

#[derive(Debug, PartialEq, Eq)]
pub struct FloatLit {
    pub location: Pos,
}

#[derive(Debug, PartialEq, Eq)]
pub struct StringLit {
    pub location: Pos,
    pub empty: bool,
}

#[derive(Debug, PartialEq, Eq)]
pub struct NilLit {
    pub location: Pos,
}

#[derive(Debug, PartialEq, Eq)]
pub struct Tuple {
    pub location: Pos,
    pub elems: Vec<Expr>,
}

#[derive(Debug, PartialEq, Eq)]
pub struct Cons {
    pub location: Pos,
    pub h: Box<Expr>,
    pub t: Box<Expr>,
}

#[derive(Debug, PartialEq, Eq)]
pub struct Body {
    pub exprs: Vec<Expr>,
}

#[derive(Debug, PartialEq, Eq)]
pub struct Block {
    pub location: Pos,
    pub body: Body,
}

#[derive(Debug, PartialEq, Eq)]
pub struct Match {
    pub location: Pos,
    pub pat: Pat,
    pub expr: Box<Expr>,
}

#[derive(Debug, PartialEq, Eq)]
pub struct Clause {
    pub location: Pos,
    pub pats: Vec<Pat>,
    pub guards: Vec<Guard>,
    pub body: Body,
}

#[derive(Debug, PartialEq, Eq)]
pub struct Case {
    pub location: Pos,
    pub expr: Box<Expr>,
    pub clauses: Vec<Clause>,
}

#[derive(Debug, PartialEq, Eq)]
pub struct LocalCall {
    pub location: Pos,
    pub id: Id,
    pub args: Vec<Expr>,
}

#[derive(Debug, PartialEq, Eq)]
pub struct RemoteCall {
    pub location: Pos,
    pub id: RemoteId,
    pub args: Vec<Expr>,
}

#[derive(Debug, PartialEq, Eq)]
pub struct LocalFun {
    pub location: Pos,
    pub id: Id,
}

#[derive(Debug, PartialEq, Eq)]
pub struct RemoteFun {
    pub location: Pos,
    pub id: RemoteId,
}

#[derive(Debug, PartialEq, Eq)]
pub struct Lambda {
    pub location: Pos,
    pub clauses: Vec<Clause>,
    pub name: Option<String>,
}

#[derive(Debug, PartialEq, Eq)]
pub struct UnOp {
    pub location: Pos,
    pub op: String,
    pub arg: Box<Expr>,
}

#[derive(Debug, PartialEq, Eq)]
pub struct BinOp {
    pub location: Pos,
    pub op: String,
    pub arg_1: Box<Expr>,
    pub arg_2: Box<Expr>,
}

#[derive(Debug, PartialEq, Eq)]
pub struct Catch {
    pub location: Pos,
    pub expr: Box<Expr>,
}

#[derive(Debug, PartialEq, Eq)]
pub struct If {
    pub location: Pos,
    pub clauses: Vec<Clause>,
}

#[derive(Debug, PartialEq, Eq)]
pub struct Receive {
    pub location: Pos,
    pub clauses: Vec<Clause>,
}

#[derive(Debug, PartialEq, Eq)]
pub struct ReceiveWithTimeout {
    pub location: Pos,
    pub clauses: Vec<Clause>,
    pub timeout: Box<Expr>,
    pub timeout_body: Body,
}

#[derive(Debug, PartialEq, Eq)]
pub struct TryCatchExpr {
    pub location: Pos,
    pub try_body: Body,
    pub catch_clauses: Vec<Clause>,
    pub after_body: Option<Body>,
}

#[derive(Debug, PartialEq, Eq)]
pub struct Maybe {
    pub location: Pos,
    pub body: Body,
}

#[derive(Debug, PartialEq, Eq)]
pub struct MaybeElse {
    pub location: Pos,
    pub body: Body,
    pub else_clauses: Vec<Clause>,
}

#[derive(Debug, PartialEq, Eq)]
pub struct DynCall {
    pub location: Pos,
    pub f: Box<Expr>,
    pub args: Vec<Expr>,
}

#[derive(Debug, PartialEq, Eq)]
pub struct DynRemoteFun {
    pub location: Pos,
    pub module: Box<Expr>,
    pub name: Box<Expr>,
}

#[derive(Debug, PartialEq, Eq)]
pub struct DynRemoteFunArity {
    pub location: Pos,
    pub module: Box<Expr>,
    pub name: Box<Expr>,
    pub arity: Box<Expr>,
}

#[derive(Debug, PartialEq, Eq)]
pub struct TryOfCatchExpr {
    pub location: Pos,
    pub try_body: Body,
    pub try_clauses: Vec<Clause>,
    pub catch_clauses: Vec<Clause>,
    pub after_body: Option<Body>,
}

#[derive(Debug, PartialEq, Eq)]
pub struct MaybeMatch {
    pub location: Pos,
    pub pat: Pat,
    pub arg: Box<Expr>,
}

#[derive(Debug, PartialEq, Eq)]
pub struct RecordSelect {
    pub location: Pos,
    pub expr: Box<Expr>,
    pub rec_name: String,
    pub field_name: String,
}

#[derive(Clone, Debug, PartialEq, Eq)]
pub struct RecordIndex {
    pub location: Pos,
    pub rec_name: String,
    pub field_name: String,
}

#[derive(Debug, PartialEq, Eq)]
pub struct MapCreate {
    pub location: Pos,
    pub kvs: Vec<(Expr, Expr)>,
}

#[derive(Debug, PartialEq, Eq)]
pub struct MapUpdate {
    pub location: Pos,
    pub map: Box<Expr>,
    pub kvs: Vec<(Expr, Expr)>,
}

#[derive(Debug, PartialEq, Eq)]
pub enum RecordField {
    RecordFieldNamed(RecordFieldNamed),
    RecordFieldGen(RecordFieldGen),
}

#[derive(Debug, PartialEq, Eq)]
pub struct RecordFieldNamed {
    pub name: String,
    pub value: Expr,
}

/// The `_ = V` field of a record expression, for all fields not named.
#[derive(Debug, PartialEq, Eq)]
pub struct RecordFieldGen {
    pub value: Expr,
}

#[derive(Debug, PartialEq, Eq)]
pub struct RecordCreate {
    pub location: Pos,
    pub rec_name: String,
    pub fields: Vec<RecordField>,
}

#[derive(Debug, PartialEq, Eq)]
pub struct RecordUpdate {
    pub location: Pos,
    pub expr: Box<Expr>,
    pub rec_name: String,
    pub fields: Vec<RecordFieldNamed>,
}

/// A segment of a binary; its type specifier is kept in printed form.
#[derive(Debug, PartialEq, Eq)]
pub struct BinaryElem {
    pub location: Pos,
    pub expr: Expr,
    pub size: Option<Expr>,
    pub specifier: String,
}

#[derive(Debug, PartialEq, Eq)]
pub struct Binary {
    pub location: Pos,
    pub elems: Vec<BinaryElem>,
}

#[derive(Debug, PartialEq, Eq)]
pub enum Qualifier {
    LGenerate(LGenerate),
    BGenerate(BGenerate),
    MGenerate(MGenerate),
    Filter(Filter),
}

#[derive(Debug, PartialEq, Eq)]
pub struct LGenerate {
    pub pat: Pat,
    pub expr: Expr,
}

#[derive(Debug, PartialEq, Eq)]
pub struct BGenerate {
    pub pat: Pat,
    pub expr: Expr,
}

#[derive(Debug, PartialEq, Eq)]
pub struct MGenerate {
    pub k_pat: Pat,
    pub v_pat: Pat,
    pub expr: Expr,
}

#[derive(Debug, PartialEq, Eq)]
pub struct Filter {
    pub expr: Expr,
}

#[derive(Debug, PartialEq, Eq)]
pub struct LComprehension {
    pub location: Pos,
    pub template: Box<Expr>,
    pub qualifiers: Vec<Qualifier>,
}

#[derive(Debug, PartialEq, Eq)]
pub struct BComprehension {
    pub location: Pos,
    pub template: Box<Expr>,
    pub qualifiers: Vec<Qualifier>,
}

#[derive(Debug, PartialEq, Eq)]
pub struct MComprehension {
    pub location: Pos,
    pub k_template: Box<Expr>,
    pub v_template: Box<Expr>,
    pub qualifiers: Vec<Qualifier>,
}

impl Expr {
    pub fn atom_true(location: Pos) -> (r: Expr)
        ensures
            r matches Expr::AtomLit(a) && a.location == location && a.s@ == "true"@,
    {
        Expr::AtomLit(AtomLit { location, s: String::from_str("true") })
    }

    pub fn atom_false(location: Pos) -> (r: Expr)
        ensures
            r matches Expr::AtomLit(a) && a.location == location && a.s@ == "false"@,
    {
        Expr::AtomLit(AtomLit { location, s: String::from_str("false") })
    }
}

// ---------------------------------------------------------------- forms

/// A top-level form of a module.
#[derive(Debug, PartialEq, Eq)]
pub enum ExternalForm {
    Module(ModuleAttr),
    Export(Export),
    Import(Import),
    ExportType(ExportType),
    TypeDecl(TypeDecl),
    OpaqueTypeDecl(TypeDecl),
    FunSpec(FunSpec),
    OverloadedFunSpec(OverloadedFunSpec),
    Callback(Callback),
    OptionalCallbacks(OptionalCallbacks),
    RecDecl(RecDecl),
    File(FileAttr),
    ElpMetadata(ElpMetadata),
    Behaviour(Behaviour),
    EqwalizerNowarnFunction(EqwalizerNowarnFunction),
    EqwalizerUnlimitedRefinement(EqwalizerUnlimitedRefinement),
    FunDecl(FunDecl),
    InvalidForm(InvalidForm),
}

#[derive(Clone, Debug, PartialEq, Eq)]
pub struct ModuleAttr {
    pub location: Pos,
    pub name: String,
}

#[derive(Clone, Debug, PartialEq, Eq)]
pub struct Export {
    pub location: Pos,
    pub funs: Vec<Id>,
}

#[derive(Clone, Debug, PartialEq, Eq)]
pub struct Import {
    pub location: Pos,
    pub module: String,
    pub funs: Vec<Id>,
}

#[derive(Clone, Debug, PartialEq, Eq)]
pub struct ExportType {
    pub location: Pos,
    pub types: Vec<Id>,
}

/// A type declaration; its body is kept in printed form.
#[derive(Clone, Debug, PartialEq, Eq)]
pub struct TypeDecl {
    pub location: Pos,
    pub id: Id,
    pub params: Vec<String>,
    pub body: String,
}

/// A specification of a function; its type is kept in printed form.
#[derive(Clone, Debug, PartialEq, Eq)]
pub struct FunSpec {
    pub location: Pos,
    pub id: Id,
    pub ty: String,
}

#[derive(Clone, Debug, PartialEq, Eq)]
pub struct OverloadedFunSpec {
    pub location: Pos,
    pub id: Id,
    pub tys: Vec<String>,
}

#[derive(Clone, Debug, PartialEq, Eq)]
pub struct Callback {
    pub location: Pos,
    pub id: Id,
    pub tys: Vec<String>,
}

#[derive(Clone, Debug, PartialEq, Eq)]
pub struct OptionalCallbacks {
    pub location: Pos,
    pub ids: Vec<Id>,
}

#[derive(Clone, Debug, PartialEq, Eq)]
pub struct RecDecl {
    pub location: Pos,
    pub name: String,
    pub fields: Vec<String>,
}

#[derive(Clone, Debug, PartialEq, Eq)]
pub struct FileAttr {
    pub location: Pos,
    pub file: String,
    pub start: u32,
}

#[derive(Clone, Debug, PartialEq, Eq)]
pub struct ElpMetadata {
    pub location: Pos,
}

#[derive(Clone, Debug, PartialEq, Eq)]
pub struct Behaviour {
    pub location: Pos,
    pub name: String,
}

#[derive(Clone, Debug, PartialEq, Eq)]
pub struct EqwalizerNowarnFunction {
    pub location: Pos,
    pub id: Id,
}

#[derive(Clone, Debug, PartialEq, Eq)]
pub struct EqwalizerUnlimitedRefinement {
    pub location: Pos,
    pub id: Id,
}

#[derive(Debug, PartialEq, Eq)]
pub struct FunDecl {
    pub location: Pos,
    pub id: Id,
    pub clauses: Vec<Clause>,
}

/// A form that failed to convert; it is kept with the reason.
#[derive(Clone, Debug, PartialEq, Eq)]
pub struct InvalidForm {
    pub location: Pos,
    pub message: String,
}

// ---------------------------------------------------------------- models

/// The mathematical form of a pattern.
pub enum PatM {
    Var { location: Pos, n: Seq<char> },
    Other(Pat),
}

/// The mathematical form of a guard test: sequences where the tree has vectors.
pub enum TestM {
    Var { location: Pos, v: Seq<char> },
    Atom { location: Pos, s: Seq<char> },
    Number { location: Pos, lit: Option<i32> },
    Tuple { location: Pos, elems: Seq<TestM> },
    Call { location: Pos, name: Seq<char>, arity: u32, args: Seq<TestM> },
    UnOp { location: Pos, op: Seq<char>, arg: Box<TestM> },
    BinOp { location: Pos, op: Seq<char>, arg_1: Box<TestM>, arg_2: Box<TestM> },
}

/// The mathematical form of a clause.
pub struct ClauseM {
    pub location: Pos,
    pub pats: Seq<PatM>,
    pub guards: Seq<Seq<TestM>>,
    pub body: Seq<ExprM>,
}

/// The mathematical form of an expression.
pub enum ExprM {
    Var { location: Pos, n: Seq<char> },
    AtomLit { location: Pos, s: Seq<char> },
    /// The other leaves: literals and function references.
    Leaf(Expr),
    Tuple { location: Pos, elems: Seq<ExprM> },
    Cons { location: Pos, h: Box<ExprM>, t: Box<ExprM> },
    Block { location: Pos, body: Seq<ExprM> },
    Match { location: Pos, pat: Pat, expr: Box<ExprM> },
    Case { location: Pos, expr: Box<ExprM>, clauses: Seq<ClauseM> },
    LocalCall { location: Pos, id: Id, args: Seq<ExprM> },
    RemoteCall { location: Pos, id: RemoteId, args: Seq<ExprM> },
    Lambda { location: Pos, clauses: Seq<ClauseM>, name: Option<String> },
    UnOp { location: Pos, op: String, arg: Box<ExprM> },
    BinOp { location: Pos, op: String, arg_1: Box<ExprM>, arg_2: Box<ExprM> },
    Catch { location: Pos, expr: Box<ExprM> },
    If { location: Pos, clauses: Seq<ClauseM> },
    Receive { location: Pos, clauses: Seq<ClauseM> },
    ReceiveWithTimeout { location: Pos, clauses: Seq<ClauseM>, timeout: Box<ExprM>, timeout_body: Seq<ExprM> },
    TryCatch { location: Pos, try_body: Seq<ExprM>, catch_clauses: Seq<ClauseM>, after_body: Option<Seq<ExprM>> },
    Maybe { location: Pos, body: Seq<ExprM> },
    MaybeElse { location: Pos, body: Seq<ExprM>, else_clauses: Seq<ClauseM> },
    DynCall { location: Pos, f: Box<ExprM>, args: Seq<ExprM> },
    DynRemoteFun { location: Pos, module: Box<ExprM>, name: Box<ExprM> },
    DynRemoteFunArity { location: Pos, module: Box<ExprM>, name: Box<ExprM>, arity: Box<ExprM> },
    TryOf {
        location: Pos,
        try_body: Seq<ExprM>,
        try_clauses: Seq<ClauseM>,
        catch_clauses: Seq<ClauseM>,
        after_body: Option<Seq<ExprM>>,
    },
    MaybeMatch { location: Pos, pat: Pat, arg: Box<ExprM> },
    RecordSelect { location: Pos, expr: Box<ExprM>, rec_name: String, field_name: String },
    MapCreate { location: Pos, kvs: Seq<PartM> },
    MapUpdate { location: Pos, map: Box<ExprM>, kvs: Seq<PartM> },
    RecordCreate { location: Pos, rec_name: String, fields: Seq<PartM> },
    RecordUpdate { location: Pos, expr: Box<ExprM>, rec_name: String, fields: Seq<PartM> },
    Binary { location: Pos, elems: Seq<PartM> },
    LComprehension { location: Pos, template: Box<ExprM>, qualifiers: Seq<PartM> },
    BComprehension { location: Pos, template: Box<ExprM>, qualifiers: Seq<PartM> },
    MComprehension { location: Pos, k_template: Box<ExprM>, v_template: Box<ExprM>, qualifiers: Seq<PartM> },
}

/// What a generator or filter of a comprehension binds, besides its expression.
pub enum GenShape {
    List(Pat),
    Bits(Pat),
    MapPair(Pat, Pat),
    Filter,
}

/// The mathematical form of a part of an expression that holds expressions:
/// a key and value of a map, a record field (`None` for `_`), a binary
/// segment, a comprehension's generator or filter.
pub enum PartM {
    Pair { k: ExprM, v: ExprM },
    Field { name: Option<String>, value: ExprM },
    Elem { location: Pos, expr: ExprM, size: Option<ExprM>, specifier: String },
    Generate { shape: GenShape, expr: ExprM },
}

pub open spec fn pat_view(p: Pat) -> PatM {
    match p {
        Pat::PatVar(v) => PatM::Var { location: v.location, n: v.n@ },
        _ => PatM::Other(p),
    }
}

pub open spec fn pats_view(s: Seq<Pat>) -> Seq<PatM>
    decreases s.len(),
{
    if s.len() == 0 {
        Seq::empty()
    } else {
        pats_view(s.drop_last()).push(pat_view(s.last()))
    }
}

pub open spec fn test_view(t: Test) -> TestM
    decreases t,
{
    match t {
        Test::TestVar(x) => TestM::Var { location: x.location, v: x.v@ },
        Test::TestAtom(x) => TestM::Atom { location: x.location, s: x.s@ },
        Test::TestNumber(x) => TestM::Number { location: x.location, lit: x.lit },
        Test::TestTuple(x) => TestM::Tuple { location: x.location, elems: tests_view(x.elems@) },
        Test::TestCall(x) => TestM::Call {
            location: x.location,
            name: x.id.name@,
            arity: x.id.arity,
            args: tests_view(x.args@),
        },
        Test::TestUnOp(x) => TestM::UnOp {
            location: x.location,
            op: x.op@,
            arg: Box::new(test_view(*x.arg)),
        },
        Test::TestBinOp(x) => TestM::BinOp {
            location: x.location,
            op: x.op@,
            arg_1: Box::new(test_view(*x.arg_1)),
            arg_2: Box::new(test_view(*x.arg_2)),
        },
    }
}

pub open spec fn tests_view(s: Seq<Test>) -> Seq<TestM>
    decreases s,
{
    if s.len() == 0 {
        Seq::empty()
    } else {
        tests_view(s.drop_last()).push(test_view(s.last()))
    }
}

pub open spec fn guards_view(s: Seq<Guard>) -> Seq<Seq<TestM>>
    decreases s.len(),
{
    if s.len() == 0 {
        Seq::empty()
    } else {
        guards_view(s.drop_last()).push(tests_view(s.last().tests@))
    }
}

pub open spec fn expr_view(e: Expr) -> ExprM
    decreases e,
{
    match e {
        Expr::Var(x) => ExprM::Var { location: x.location, n: x.n@ },
        Expr::AtomLit(x) => ExprM::AtomLit { location: x.location, s: x.s@ },
        Expr::Tuple(x) => ExprM::Tuple { location: x.location, elems: exprs_view(x.elems@) },
        Expr::Cons(x) => ExprM::Cons {
            location: x.location,
            h: Box::new(expr_view(*x.h)),
            t: Box::new(expr_view(*x.t)),
        },
        Expr::Block(x) => ExprM::Block { location: x.location, body: exprs_view(x.body.exprs@) },
        Expr::Match(x) => ExprM::Match {
            location: x.location,
            pat: x.pat,
            expr: Box::new(expr_view(*x.expr)),
        },
        Expr::Case(x) => ExprM::Case {
            location: x.location,
            expr: Box::new(expr_view(*x.expr)),
            clauses: clauses_view(x.clauses@),
        },
        Expr::LocalCall(x) => ExprM::LocalCall {
            location: x.location,
            id: x.id,
            args: exprs_view(x.args@),
        },
        Expr::RemoteCall(x) => ExprM::RemoteCall {
            location: x.location,
            id: x.id,
            args: exprs_view(x.args@),
        },
        Expr::Lambda(x) => ExprM::Lambda {
            location: x.location,
            clauses: clauses_view(x.clauses@),
            name: x.name,
        },
        Expr::UnOp(x) => ExprM::UnOp {
            location: x.location,
            op: x.op,
            arg: Box::new(expr_view(*x.arg)),
        },
        Expr::BinOp(x) => ExprM::BinOp {
            location: x.location,
            op: x.op,
            arg_1: Box::new(expr_view(*x.arg_1)),
            arg_2: Box::new(expr_view(*x.arg_2)),
        },
        Expr::Catch(x) => ExprM::Catch { location: x.location, expr: Box::new(expr_view(*x.expr)) },
        Expr::If(x) => ExprM::If { location: x.location, clauses: clauses_view(x.clauses@) },
        Expr::Receive(x) => ExprM::Receive { location: x.location, clauses: clauses_view(x.clauses@) },
        Expr::ReceiveWithTimeout(x) => ExprM::ReceiveWithTimeout {
            location: x.location,
            clauses: clauses_view(x.clauses@),
            timeout: Box::new(expr_view(*x.timeout)),
            timeout_body: exprs_view(x.timeout_body.exprs@),
        },
        Expr::TryCatchExpr(x) => ExprM::TryCatch {
            location: x.location,
            try_body: exprs_view(x.try_body.exprs@),
            catch_clauses: clauses_view(x.catch_clauses@),
            after_body: match x.after_body {
                Some(b) => Some(exprs_view(b.exprs@)),
                None => None,
            },
        },
        Expr::Maybe(x) => ExprM::Maybe { location: x.location, body: exprs_view(x.body.exprs@) },
        Expr::MaybeElse(x) => ExprM::MaybeElse {
            location: x.location,
            body: exprs_view(x.body.exprs@),
            else_clauses: clauses_view(x.else_clauses@),
        },
        Expr::DynCall(x) => ExprM::DynCall {
            location: x.location,
            f: Box::new(expr_view(*x.f)),
            args: exprs_view(x.args@),
        },
        Expr::DynRemoteFun(x) => ExprM::DynRemoteFun {
            location: x.location,
            module: Box::new(expr_view(*x.module)),
            name: Box::new(expr_view(*x.name)),
        },
        Expr::DynRemoteFunArity(x) => ExprM::DynRemoteFunArity {
            location: x.location,
            module: Box::new(expr_view(*x.module)),
            name: Box::new(expr_view(*x.name)),
            arity: Box::new(expr_view(*x.arity)),
        },
        Expr::TryOfCatchExpr(x) => ExprM::TryOf {
            location: x.location,
            try_body: exprs_view(x.try_body.exprs@),
            try_clauses: clauses_view(x.try_clauses@),
            catch_clauses: clauses_view(x.catch_clauses@),
            after_body: match x.after_body {
                Some(b) => Some(exprs_view(b.exprs@)),
                None => None,
            },
        },
        Expr::MaybeMatch(x) => ExprM::MaybeMatch { location: x.location, pat: x.pat, arg: Box::new(expr_view(*x.arg)) },
        Expr::RecordSelect(x) => ExprM::RecordSelect {
            location: x.location,
            expr: Box::new(expr_view(*x.expr)),
            rec_name: x.rec_name,
            field_name: x.field_name,
        },
        Expr::MapCreate(x) => ExprM::MapCreate { location: x.location, kvs: kvs_view(x.kvs@) },
        Expr::MapUpdate(x) => ExprM::MapUpdate {
            location: x.location,
            map: Box::new(expr_view(*x.map)),
            kvs: kvs_view(x.kvs@),
        },
        Expr::RecordCreate(x) => ExprM::RecordCreate {
            location: x.location,
            rec_name: x.rec_name,
            fields: fields_view(x.fields@),
        },
        Expr::RecordUpdate(x) => ExprM::RecordUpdate {
            location: x.location,
            expr: Box::new(expr_view(*x.expr)),
            rec_name: x.rec_name,
            fields: named_fields_view(x.fields@),
        },
        Expr::Binary(x) => ExprM::Binary { location: x.location, elems: elems_view(x.elems@) },
        Expr::LComprehension(x) => ExprM::LComprehension {
            location: x.location,
            template: Box::new(expr_view(*x.template)),
            qualifiers: quals_view(x.qualifiers@),
        },
        Expr::BComprehension(x) => ExprM::BComprehension {
            location: x.location,
            template: Box::new(expr_view(*x.template)),
            qualifiers: quals_view(x.qualifiers@),
        },
        Expr::MComprehension(x) => ExprM::MComprehension {
            location: x.location,
            k_template: Box::new(expr_view(*x.k_template)),
            v_template: Box::new(expr_view(*x.v_template)),
            qualifiers: quals_view(x.qualifiers@),
        },
        _ => ExprM::Leaf(e),
    }
}

pub open spec fn kv_view(x: (Expr, Expr)) -> PartM
    decreases x,
{
    PartM::Pair { k: expr_view(x.0), v: expr_view(x.1) }
}

pub open spec fn kvs_view(s: Seq<(Expr, Expr)>) -> Seq<PartM>
    decreases s,
{
    if s.len() == 0 {
        Seq::empty()
    } else {
        kvs_view(s.drop_last()).push(kv_view(s.last()))
    }
}

pub open spec fn field_view(x: RecordField) -> PartM
    decreases x,
{
    match x {
        RecordField::RecordFieldNamed(f) => PartM::Field { name: Some(f.name), value: expr_view(f.value) },
        RecordField::RecordFieldGen(f) => PartM::Field { name: None, value: expr_view(f.value) },
    }
}

pub open spec fn fields_view(s: Seq<RecordField>) -> Seq<PartM>
    decreases s,
{
    if s.len() == 0 {
        Seq::empty()
    } else {
        fields_view(s.drop_last()).push(field_view(s.last()))
    }
}

pub open spec fn named_field_view(x: RecordFieldNamed) -> PartM
    decreases x,
{
    PartM::Field { name: Some(x.name), value: expr_view(x.value) }
}

pub open spec fn named_fields_view(s: Seq<RecordFieldNamed>) -> Seq<PartM>
    decreases s,
{
    if s.len() == 0 {
        Seq::empty()
    } else {
        named_fields_view(s.drop_last()).push(named_field_view(s.last()))
    }
}

pub open spec fn elem_view(x: BinaryElem) -> PartM
    decreases x,
{
    PartM::Elem {
        location: x.location,
        expr: expr_view(x.expr),
        size: match x.size {
            Some(e) => Some(expr_view(e)),
            None => None,
        },
        specifier: x.specifier,
    }
}

pub open spec fn elems_view(s: Seq<BinaryElem>) -> Seq<PartM>
    decreases s,
{
    if s.len() == 0 {
        Seq::empty()
    } else {
        elems_view(s.drop_last()).push(elem_view(s.last()))
    }
}

pub open spec fn qual_view(x: Qualifier) -> PartM
    decreases x,
{
    match x {
        Qualifier::LGenerate(g) => PartM::Generate { shape: GenShape::List(g.pat), expr: expr_view(g.expr) },
        Qualifier::BGenerate(g) => PartM::Generate { shape: GenShape::Bits(g.pat), expr: expr_view(g.expr) },
        Qualifier::MGenerate(g) => PartM::Generate { shape: GenShape::MapPair(g.k_pat, g.v_pat), expr: expr_view(g.expr) },
        Qualifier::Filter(f) => PartM::Generate { shape: GenShape::Filter, expr: expr_view(f.expr) },
    }
}

pub open spec fn quals_view(s: Seq<Qualifier>) -> Seq<PartM>
    decreases s,
{
    if s.len() == 0 {
        Seq::empty()
    } else {
        quals_view(s.drop_last()).push(qual_view(s.last()))
    }
}

pub open spec fn exprs_view(s: Seq<Expr>) -> Seq<ExprM>
    decreases s,
{
    if s.len() == 0 {
        Seq::empty()
    } else {
        exprs_view(s.drop_last()).push(expr_view(s.last()))
    }
}

pub open spec fn clause_view(c: Clause) -> ClauseM
    decreases c,
{
    ClauseM {
        location: c.location,
        pats: pats_view(c.pats@),
        guards: guards_view(c.guards@),
        body: exprs_view(c.body.exprs@),
    }
}

pub open spec fn clauses_view(s: Seq<Clause>) -> Seq<ClauseM>
    decreases s,
{
    if s.len() == 0 {
        Seq::empty()
    } else {
        clauses_view(s.drop_last()).push(clause_view(s.last()))
    }
}

pub proof fn lemma_exprs_view(s: Seq<Expr>)
    ensures
        exprs_view(s).len() == s.len(),
        forall|i: int| 0 <= i < s.len() ==> exprs_view(s)[i] == expr_view(#[trigger] s[i]),
    decreases s.len(),
{
    if s.len() > 0 {
        lemma_exprs_view(s.drop_last());
        assert forall|i: int| 0 <= i < s.len() implies exprs_view(s)[i] == expr_view(s[i]) by {
            if i < s.len() - 1 {
                assert(s.drop_last()[i] == s[i]);
            }
        }
    }
}

pub proof fn lemma_clauses_view(s: Seq<Clause>)
    ensures
        clauses_view(s).len() == s.len(),
        forall|i: int| 0 <= i < s.len() ==> clauses_view(s)[i] == clause_view(#[trigger] s[i]),
    decreases s.len(),
{
    if s.len() > 0 {
        lemma_clauses_view(s.drop_last());
        assert forall|i: int| 0 <= i < s.len() implies clauses_view(s)[i] == clause_view(s[i]) by {
            if i < s.len() - 1 {
                assert(s.drop_last()[i] == s[i]);
            }
        }
    }
}

pub proof fn lemma_pats_view(s: Seq<Pat>)
    ensures
        pats_view(s).len() == s.len(),
        forall|i: int| 0 <= i < s.len() ==> pats_view(s)[i] == pat_view(#[trigger] s[i]),
    decreases s.len(),
{
    if s.len() > 0 {
        lemma_pats_view(s.drop_last());
        assert forall|i: int| 0 <= i < s.len() implies pats_view(s)[i] == pat_view(s[i]) by {
            if i < s.len() - 1 {
                assert(s.drop_last()[i] == s[i]);
            }
        }
    }
}

/// The mathematical form of a top-level form: function bodies as models.
pub enum FormM {
    FunDecl { location: Pos, id: Id, clauses: Seq<ClauseM> },
    Other(ExternalForm),
}

pub open spec fn form_view(f: ExternalForm) -> FormM {
    match f {
        ExternalForm::FunDecl(d) => FormM::FunDecl {
            location: d.location,
            id: d.id,
            clauses: clauses_view(d.clauses@),
        },
        _ => FormM::Other(f),
    }
}

pub open spec fn forms_view(s: Seq<ExternalForm>) -> Seq<FormM>
    decreases s.len(),
{
    if s.len() == 0 {
        Seq::empty()
    } else {
        forms_view(s.drop_last()).push(form_view(s.last()))
    }
}

} // verus!
