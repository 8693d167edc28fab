use vstd::prelude::*;

verus! {

/// Which kinds of diagnostics a test fixture asks for.
#[derive(Clone, Copy, Debug, Default, PartialEq, Eq, Structural)]
pub struct DiagnosticsEnabled {
    pub use_native: bool,
    pub use_erlang_service: bool,
    pub use_eqwalizer: bool,
    pub use_ct: bool,
    pub use_edoc: bool,
}

impl DiagnosticsEnabled {
    /// Common Test and EDoc diagnostics read files, so the fixture must be written out.
    pub fn needs_fixture_on_disk(&self) -> (r: bool)
        ensures
            r == (self.use_ct || self.use_edoc),
    {
        self.use_ct || self.use_edoc
    }

    /// For a check that needs `//- common_test` at the top of its fixture.
    pub fn assert_ct_enabled(&self)
        requires
            self.use_ct,
    {
    }

    /// For a check that needs `//- erlang_service` at the top of its fixture.
    pub fn assert_erlang_service_enabled(&self)
        requires
            self.use_erlang_service,
    {
    }

    /// For a check that needs `//- edoc` at the top of its fixture.
    pub fn assert_edoc_enabled(&self)
        requires
            self.use_edoc,
    {
    }

    /// Native diagnostics are on when nothing else was asked for; once anything
    /// is, they must be asked for too.
    pub fn set_default_native(&mut self)
        ensures
            final(self).use_native == (old(self).use_native || !(old(self).use_erlang_service
                || old(self).use_ct || old(self).use_eqwalizer || old(self).use_edoc)),
            final(self).use_erlang_service == old(self).use_erlang_service,
            final(self).use_eqwalizer == old(self).use_eqwalizer,
            final(self).use_ct == old(self).use_ct,
            final(self).use_edoc == old(self).use_edoc,
    {
        if !(self.use_erlang_service || self.use_ct || self.use_eqwalizer || self.use_edoc) {
            self.use_native = true;
        }
    }
}

} // verus!
