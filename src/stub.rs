use vstd::prelude::*;

use crate::ast::{
    Callback, ExternalForm, FunSpec, Id, InvalidForm, OverloadedFunSpec, Pos, RecDecl, TypeDecl,
};
use crate::keyed::{
    copy_id, ids_unique, insert_all, keyed_insert, keyed_insert_all, keys_unique, named_insert, names_unique,
    put_ids, put_keyed, put_keyed_all, put_named,
};

verus! {

/// A public opaque type, as other modules see it: its name and where it is declared.
#[derive(Clone, Debug, PartialEq, Eq)]
pub struct OpaqueTypeDecl {
    pub location: Pos,
    pub id: Id,
}

/// What other modules need of a module to check their own code against it.
#[derive(Debug, PartialEq, Eq)]
pub struct ModuleStub {
    pub module: String,
    pub exports: Vec<Id>,
    pub imports: Vec<(Id, String)>,
    pub export_types: Vec<Id>,
    pub private_opaques: Vec<(Id, TypeDecl)>,
    pub public_opaques: Vec<(Id, OpaqueTypeDecl)>,
    pub types: Vec<(Id, TypeDecl)>,
    pub specs: Vec<(Id, FunSpec)>,
    pub overloaded_specs: Vec<(Id, OverloadedFunSpec)>,
    pub records: Vec<(String, RecDecl)>,
    pub callbacks: Vec<Callback>,
    pub optional_callbacks: Vec<Id>,
    pub invalid_forms: Vec<InvalidForm>,
}

impl ModuleStub {
    pub open spec fn is_empty(&self) -> bool {
        &&& self.exports@.len() == 0
        &&& self.imports@.len() == 0
        &&& self.export_types@.len() == 0
        &&& self.private_opaques@.len() == 0
        &&& self.public_opaques@.len() == 0
        &&& self.types@.len() == 0
        &&& self.specs@.len() == 0
        &&& self.overloaded_specs@.len() == 0
        &&& self.records@.len() == 0
        &&& self.callbacks@.len() == 0
        &&& self.optional_callbacks@.len() == 0
        &&& self.invalid_forms@.len() == 0
    }

    /// The stub of `module` before any form is read into it.
    pub fn new(module: String) -> (r: Self)
        ensures
            r.module == module,
            r.is_empty(),
            r.model() == empty_stub(),
    {
        ModuleStub {
            module,
            exports: Vec::new(),
            imports: Vec::new(),
            export_types: Vec::new(),
            private_opaques: Vec::new(),
            public_opaques: Vec::new(),
            types: Vec::new(),
            specs: Vec::new(),
            overloaded_specs: Vec::new(),
            records: Vec::new(),
            callbacks: Vec::new(),
            optional_callbacks: Vec::new(),
            invalid_forms: Vec::new(),
        }
    }
}

/// The contents of a stub, bucket by bucket, in the order the forms gave them.
pub struct StubM {
    pub exports: Seq<Id>,
    pub imports: Seq<(Id, String)>,
    pub export_types: Seq<Id>,
    pub private_opaques: Seq<(Id, TypeDecl)>,
    pub public_opaques: Seq<(Id, OpaqueTypeDecl)>,
    pub types: Seq<(Id, TypeDecl)>,
    pub specs: Seq<(Id, FunSpec)>,
    pub overloaded_specs: Seq<(Id, OverloadedFunSpec)>,
    pub records: Seq<(String, RecDecl)>,
    pub callbacks: Seq<Callback>,
    pub optional_callbacks: Seq<Id>,
    pub invalid_forms: Seq<InvalidForm>,
}

impl ModuleStub {
    pub open spec fn model(&self) -> StubM {
        StubM {
            exports: self.exports@,
            imports: self.imports@,
            export_types: self.export_types@,
            private_opaques: self.private_opaques@,
            public_opaques: self.public_opaques@,
            types: self.types@,
            specs: self.specs@,
            overloaded_specs: self.overloaded_specs@,
            records: self.records@,
            callbacks: self.callbacks@,
            optional_callbacks: self.optional_callbacks@,
            invalid_forms: self.invalid_forms@,
        }
    }
}

impl StubM {
    /// Each set holds an id once, and each map binds a key once. The keys are
    /// names and arities within the module: other modules appear only as the
    /// values of `imports`.
    pub open spec fn wf(self) -> bool {
        &&& ids_unique(self.exports)
        &&& ids_unique(self.export_types)
        &&& ids_unique(self.optional_callbacks)
        &&& keys_unique(self.imports)
        &&& keys_unique(self.private_opaques)
        &&& keys_unique(self.public_opaques)
        &&& keys_unique(self.types)
        &&& keys_unique(self.specs)
        &&& keys_unique(self.overloaded_specs)
        &&& names_unique(self.records)
    }
}

pub open spec fn empty_stub() -> StubM {
    StubM {
        exports: Seq::empty(),
        imports: Seq::empty(),
        export_types: Seq::empty(),
        private_opaques: Seq::empty(),
        public_opaques: Seq::empty(),
        types: Seq::empty(),
        specs: Seq::empty(),
        overloaded_specs: Seq::empty(),
        records: Seq::empty(),
        callbacks: Seq::empty(),
        optional_callbacks: Seq::empty(),
        invalid_forms: Seq::empty(),
    }
}

/// What one form adds to a stub: ids join their set; declarations are bound
/// in their map by their id (records by their name), a later one replacing an
/// earlier; an opaque type is bound both in the private map, whole, and in
/// the public one, as its name alone; a form that did not convert is kept
/// among the invalid forms; function bodies and the other attributes add
/// nothing.
pub open spec fn add_form(st: StubM, f: ExternalForm) -> StubM {
    match f {
        ExternalForm::Export(e) => StubM { exports: insert_all(st.exports, e.funs@), ..st },
        ExternalForm::Import(i) => StubM { imports: keyed_insert_all(st.imports, i.funs@, i.module), ..st },
        ExternalForm::ExportType(e) => StubM { export_types: insert_all(st.export_types, e.types@), ..st },
        ExternalForm::TypeDecl(d) => StubM { types: keyed_insert(st.types, d.id, d), ..st },
        ExternalForm::OpaqueTypeDecl(d) => StubM {
            private_opaques: keyed_insert(st.private_opaques, d.id, d),
            public_opaques: keyed_insert(st.public_opaques, d.id, OpaqueTypeDecl { location: d.location, id: d.id }),
            ..st
        },
        ExternalForm::FunSpec(x) => StubM { specs: keyed_insert(st.specs, x.id, x), ..st },
        ExternalForm::OverloadedFunSpec(x) => StubM {
            overloaded_specs: keyed_insert(st.overloaded_specs, x.id, x),
            ..st
        },
        ExternalForm::RecDecl(r) => StubM { records: named_insert(st.records, r.name, r), ..st },
        ExternalForm::Callback(c) => StubM { callbacks: st.callbacks.push(c), ..st },
        ExternalForm::OptionalCallbacks(o) => StubM {
            optional_callbacks: insert_all(st.optional_callbacks, o.ids@),
            ..st
        },
        ExternalForm::InvalidForm(x) => StubM { invalid_forms: st.invalid_forms.push(x), ..st },
        _ => st,
    }
}

/// The stub that a module's forms make, read in order.
pub open spec fn stub_of(forms: Seq<ExternalForm>) -> StubM
    decreases forms.len(),
{
    if forms.len() == 0 {
        empty_stub()
    } else {
        add_form(stub_of(forms.drop_last()), forms.last())
    }
}

impl ModuleStub {
    fn add(&mut self, form: ExternalForm)
        requires
            old(self).model().wf(),
        ensures
            final(self).model() == add_form(old(self).model(), form),
            final(self).model().wf(),
            final(self).module == old(self).module,
    {
        match form {
            ExternalForm::Export(e) => put_ids(&mut self.exports, &e.funs),
            ExternalForm::Import(i) => put_keyed_all(&mut self.imports, &i.funs, &i.module),
            ExternalForm::ExportType(e) => put_ids(&mut self.export_types, &e.types),
            ExternalForm::TypeDecl(d) => {
                let id = copy_id(&d.id);
                put_keyed(&mut self.types, id, d);
            },
            ExternalForm::OpaqueTypeDecl(d) => {
                let public = OpaqueTypeDecl { location: d.location, id: copy_id(&d.id) };
                put_keyed(&mut self.public_opaques, copy_id(&d.id), public);
                let id = copy_id(&d.id);
                put_keyed(&mut self.private_opaques, id, d);
            },
            ExternalForm::FunSpec(x) => {
                let id = copy_id(&x.id);
                put_keyed(&mut self.specs, id, x);
            },
            ExternalForm::OverloadedFunSpec(x) => {
                let id = copy_id(&x.id);
                put_keyed(&mut self.overloaded_specs, id, x);
            },
            ExternalForm::RecDecl(r) => {
                let name = r.name.clone();
                put_named(&mut self.records, name, r);
            },
            ExternalForm::Callback(c) => self.callbacks.push(c),
            ExternalForm::OptionalCallbacks(o) => put_ids(&mut self.optional_callbacks, &o.ids),
            ExternalForm::InvalidForm(x) => self.invalid_forms.push(x),
            _ => {},
        }
    }

    /// The stub of `module` made from its forms, in one pass.
    pub fn from_forms(module: String, forms: Vec<ExternalForm>) -> (r: Self)
        ensures
            r.module == module,
            r.model() == stub_of(forms@),
            r.model().wf(),
    {
        let mut stub = ModuleStub::new(module);
        let ghost entry = forms@;
        let n = forms.len();
        let mut rest = forms;
        let mut i: usize = 0;
        proof {
            assert(entry.take(0) =~= Seq::<ExternalForm>::empty());
            assert(rest@ =~= entry.subrange(0, n as int));
        }
        while rest.len() > 0
            invariant
                n == entry.len(),
                i <= n,
                rest@ == entry.subrange(i as int, n as int),
                stub.module == module,
                stub.model() == stub_of(entry.take(i as int)),
                stub.model().wf(),
            decreases rest@.len(),
        {
            let f = rest.remove(0);
            proof {
                assert(f == entry[i as int]);
                assert(entry.take(i + 1).drop_last() =~= entry.take(i as int));
            }
            stub.add(f);
            i = i + 1;
            proof {
                assert(rest@ =~= entry.subrange(i as int, n as int));
            }
        }
        proof {
            assert(entry.take(i as int) =~= entry);
        }
        stub
    }
}

/// Where a module's stub forms are read from.
#[derive(Debug, PartialEq, Eq)]
pub enum StubSource {
    /// The compiled file at this path.
    Beam { path: String },
    /// The module's source, through the compiler's AST.
    Source,
}

/// Modules of the runtime's own applications are read from their compiled
/// file, whose path must be known (else the module is not found); every other
/// module from its source. A compiled file that then cannot be read is
/// reported as `BEAMNotFound` with its path.
pub fn stub_source(module: &String, from_beam: bool, beam_path: Option<String>) -> (r: Result<
    StubSource,
    crate::ipc::AstError,
>)
    ensures
        from_beam && beam_path is None ==> r == Err::<StubSource, crate::ipc::AstError>(
            crate::ipc::AstError::ModuleNotFound(*module),
        ),
        from_beam && beam_path is Some ==> r == Ok::<StubSource, crate::ipc::AstError>(
            StubSource::Beam { path: beam_path->0 },
        ),
        !from_beam ==> r == Ok::<StubSource, crate::ipc::AstError>(StubSource::Source),
{
    if from_beam {
        match beam_path {
            Some(path) => Ok(StubSource::Beam { path }),
            None => Err(crate::ipc::AstError::ModuleNotFound(module.clone())),
        }
    } else {
        Ok(StubSource::Source)
    }
}

/// The forms that the typechecker needs besides the stub: the module's name,
/// its functions, file markers, metadata, behaviours and the function-level
/// checker attributes.
pub open spec fn is_non_stub(f: ExternalForm) -> bool {
    match f {
        ExternalForm::Module(_) => true,
        ExternalForm::FunDecl(_) => true,
        ExternalForm::File(_) => true,
        ExternalForm::ElpMetadata(_) => true,
        ExternalForm::Behaviour(_) => true,
        ExternalForm::EqwalizerNowarnFunction(_) => true,
        ExternalForm::EqwalizerUnlimitedRefinement(_) => true,
        _ => false,
    }
}

pub fn is_non_stub_form(form: &ExternalForm) -> (r: bool)
    ensures
        r == is_non_stub(*form),
{
    match form {
        ExternalForm::Module(_) => true,
        ExternalForm::FunDecl(_) => true,
        ExternalForm::File(_) => true,
        ExternalForm::ElpMetadata(_) => true,
        ExternalForm::Behaviour(_) => true,
        ExternalForm::EqwalizerNowarnFunction(_) => true,
        ExternalForm::EqwalizerUnlimitedRefinement(_) => true,
        _ => false,
    }
}

/// The forms of `s` that `is_non_stub` keeps, in order.
pub open spec fn non_stub(s: Seq<ExternalForm>) -> Seq<ExternalForm>
    decreases s.len(),
{
    if s.len() == 0 {
        s
    } else if is_non_stub(s.last()) {
        non_stub(s.drop_last()).push(s.last())
    } else {
        non_stub(s.drop_last())
    }
}

/// Keeps the forms that are not part of the stub, in order.
pub fn non_stub_forms(ast: Vec<ExternalForm>) -> (r: Vec<ExternalForm>)
    ensures
        r@ == non_stub(ast@),
{
    let ghost entry = ast@;
    let n = ast.len();
    let mut rest = ast;
    let mut out: Vec<ExternalForm> = Vec::new();
    let mut i: usize = 0;
    proof {
        assert(entry.take(0) =~= Seq::<ExternalForm>::empty());
        assert(rest@ =~= entry.subrange(0, n as int));
    }
    while rest.len() > 0
        invariant
            n == entry.len(),
            i <= n,
            rest@ == entry.subrange(i as int, n as int),
            out@ == non_stub(entry.take(i as int)),
        decreases rest@.len(),
    {
        let f = rest.remove(0);
        proof {
            assert(f == entry[i as int]);
            assert(entry.take(i + 1).drop_last() =~= entry.take(i as int));
        }
        if is_non_stub_form(&f) {
            out.push(f);
        }
        i = i + 1;
        proof {
            assert(rest@ =~= entry.subrange(i as int, n as int));
        }
    }
    proof {
        assert(entry.take(i as int) =~= entry);
    }
    out
}

} // verus!
