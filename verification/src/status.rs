//! A status variable: a single value set by the owner at run time and
//! exposable under a stable name.

use vstd::prelude::*;
use crate::text::{int_text, push_i64_text};
use crate::variable::{full_name_text, VarRegistry, Variable};

verus! {

/// A mutable status value with a display name and an exposure flag.
pub struct Status<T> {
    value: T,
    name: String,
    token: Option<u64>,
    exposed: bool,
}

impl<T> Status<T> {
    /// The current value.
    pub closed spec fn spec_value(&self) -> T {
        self.value
    }

    /// The full name of the current exposure, empty when none succeeded.
    pub closed spec fn spec_status_name(&self) -> Seq<char> {
        self.name@
    }

    /// The identity token of the current exposure, if any.
    pub closed spec fn spec_status_token(&self) -> Option<u64> {
        self.token
    }

    /// Whether an exposure is currently in force.
    pub closed spec fn spec_exposed(&self) -> bool {
        self.exposed
    }
}

impl<T: Copy> Status<T> {
    /// Creates a hidden status variable holding `value`.
    pub fn new(value: T) -> (r: Self)
        ensures
            r.spec_value() == value,
            r.spec_status_name().len() == 0,
            r.spec_status_token() is None,
            !r.spec_exposed(),
    {
        Self { value, name: String::new(), token: None, exposed: false }
    }

    /// The current value.
    pub fn get_value(&self) -> (r: T)
        ensures
            r == self.spec_value(),
    {
        self.value
    }

    /// Replaces the value; the exposure state is untouched.
    pub fn set_value(&mut self, value: T)
        ensures
            final(self).spec_value() == value,
            final(self).spec_status_name() == old(self).spec_status_name(),
            final(self).spec_status_token() == old(self).spec_status_token(),
            final(self).spec_exposed() == old(self).spec_exposed(),
    {
        self.value = value;
    }
}

impl Status<i64> {
    /// Creates a status variable already exposed under `name`, when the
    /// name is free.
    pub fn with_name(reg: &mut VarRegistry, value: i64, name: &str) -> (r: Self)
        requires
            old(reg).wf(),
            old(reg).spec_next_token() < u64::MAX,
        ensures
            final(reg).wf(),
            r.spec_value() == value,
            !old(reg).entries().dom().contains(name@) ==> {
                &&& r.spec_status_name() == name@
                &&& r.spec_exposed()
                &&& final(reg).entries() == old(reg).entries().insert(
                    name@,
                    old(reg).spec_next_token(),
                )
            },
            old(reg).entries().dom().contains(name@) ==> {
                &&& r.spec_status_name().len() == 0
                &&& !r.spec_exposed()
                &&& final(reg).entries() == old(reg).entries()
            },
    {
        let mut status = Self::new(value);
        proof {
            reveal_strlit("");
        }
        let _ = status.expose_impl(reg, "", name);
        status
    }

    /// Creates a status variable already exposed under the full name built
    /// from `prefix` and `name`, when that name is free.
    pub fn with_prefix_name(reg: &mut VarRegistry, value: i64, prefix: &str, name: &str) -> (r:
        Self)
        requires
            old(reg).wf(),
            old(reg).spec_next_token() < u64::MAX,
        ensures
            final(reg).wf(),
            r.spec_value() == value,
            !old(reg).entries().dom().contains(full_name_text(prefix@, name@)) ==> {
                &&& r.spec_status_name() == full_name_text(prefix@, name@)
                &&& r.spec_exposed()
            },
            old(reg).entries().dom().contains(full_name_text(prefix@, name@)) ==> {
                &&& r.spec_status_name().len() == 0
                &&& !r.spec_exposed()
            },
    {
        let mut status = Self::new(value);
        let _ = status.expose_impl(reg, prefix, name);
        status
    }
}

impl Variable for Status<i64> {
    open spec fn spec_var_name(&self) -> Seq<char> {
        self.spec_status_name()
    }

    open spec fn spec_token(&self) -> Option<u64> {
        self.spec_status_token()
    }

    open spec fn spec_description(&self) -> Seq<char> {
        int_text(self.spec_value() as int)
    }

    open spec fn spec_hidden(&self) -> bool {
        !self.spec_exposed()
    }

    open spec fn inv(&self) -> bool {
        true
    }

    fn describe(&self, out: &mut String, quote_string: bool) -> (r: bool) {
        push_i64_text(out, self.value);
        true
    }

    fn expose_impl(&mut self, reg: &mut VarRegistry, prefix: &str, name: &str) -> (r: i32)
        ensures
            final(self).spec_value() == old(self).spec_value(),
            final(self).spec_exposed() == (old(self).spec_exposed() || r == 0),
    {
        let (status, token, full) = crate::variable::default_expose_impl(reg, prefix, name);
        if status == 0 {
            self.name = full;
            self.token = token;
            self.exposed = true;
        }
        status
    }

    fn name(&self) -> (r: String) {
        self.name.clone()
    }

    fn token(&self) -> (t: Option<u64>) {
        self.token
    }

    fn is_hidden(&self) -> (r: bool) {
        !self.exposed
    }

    /// Releases the name as `default_hide` does, and marks the status
    /// hidden when the release took effect.
    fn unexpose(&mut self, reg: &mut VarRegistry) -> (r: bool) {
        let released = self.default_hide(reg);
        if released {
            self.exposed = false;
        }
        released
    }
}

} // verus!
