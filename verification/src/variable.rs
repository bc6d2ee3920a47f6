//! The name registry: live metric objects are exposed under stable names
//! in a shared table, and the Variable capability that exposable objects
//! implement.
//!
//! The table itself is a concurrent map from an outside crate; its contents
//! are modelled as a map from name to the identity token of the object
//! currently claiming that name.

use vstd::prelude::*;

verus! {

#[verifier::external_type_specification]
#[verifier::external_body]
#[verifier::reject_recursive_types(K)]
#[verifier::reject_recursive_types(V)]
#[verifier::reject_recursive_types(S)]
pub struct ExDashMap<K, V, S>(dashmap::DashMap<K, V, S>);

/// The table type holding exposed names: a concurrent map from full name
/// to identity token.
pub type NameTable = dashmap::DashMap<String, u64>;

/// The entries a name table currently holds: each exposed name maps to the
/// identity token of the object exposed under it.
pub uninterp spec fn table_entries(m: NameTable) -> Map<Seq<char>, u64>;

/// A table model with no entries.
pub open spec fn no_entries() -> Map<Seq<char>, u64> {
    Map::empty()
}

/// Relies on dashmap::DashMap::new: creates an empty map.
#[verifier::external_body]
fn table_new() -> (r: NameTable)
    ensures
        table_entries(r) == no_entries(),
{
    dashmap::DashMap::new()
}

/// Relies on dashmap::DashMap::contains_key: whether the key is present.
#[verifier::external_body]
fn table_contains(m: &NameTable, key: &String) -> (b: bool)
    ensures
        b == table_entries(*m).dom().contains(key@),
{
    m.contains_key(key.as_str())
}

/// Relies on dashmap::DashMap::insert: maps the key to the value and
/// returns the value it replaced, if any.
#[verifier::external_body]
fn table_insert(m: &mut NameTable, key: String, value: u64) -> (prev: Option<u64>)
    ensures
        table_entries(*final(m)) == table_entries(*old(m)).insert(key@, value),
        prev == (if table_entries(*old(m)).dom().contains(key@) {
            Some(table_entries(*old(m))[key@])
        } else {
            None::<u64>
        }),
{
    m.insert(key, value)
}

/// Relies on dashmap::DashMap::remove: removes the entry and returns the
/// value it held, if any.
#[verifier::external_body]
fn table_remove(m: &mut NameTable, key: &String) -> (r: Option<u64>)
    ensures
        table_entries(*final(m)) == table_entries(*old(m)).remove(key@),
        r == (if table_entries(*old(m)).dom().contains(key@) {
            Some(table_entries(*old(m))[key@])
        } else {
            None::<u64>
        }),
{
    m.remove(key.as_str()).map(|kv| kv.1)
}

/// Relies on dashmap::DashMap::len: the number of entries.
#[verifier::external_body]
fn table_len(m: &NameTable) -> (n: usize)
    ensures
        n == table_entries(*m).dom().len(),
{
    m.len()
}

/// The registry of exposed variables: a name table plus a counter handing
/// out identity tokens, one per successful exposure. Two distinct live
/// exposures never share a token, which is what the conflict and hide
/// checks rest on.
pub struct VarRegistry {
    table: NameTable,
    next_token: u64,
}

impl VarRegistry {
    /// The current name-to-token entries.
    pub closed spec fn entries(&self) -> Map<Seq<char>, u64> {
        table_entries(self.table)
    }

    /// The next identity token to hand out.
    pub closed spec fn spec_next_token(&self) -> u64 {
        self.next_token
    }

    /// Every token in the table was handed out earlier than the next one.
    pub closed spec fn wf(&self) -> bool {
        forall|n: Seq<char>|
            self.entries().dom().contains(n) ==> (#[trigger] self.entries()[n])
                < self.next_token
    }

    /// Creates an empty registry.
    pub fn new() -> (r: Self)
        ensures
            r.wf(),
            r.entries() == no_entries(),
            r.spec_next_token() == 1,
    {
        Self { table: table_new(), next_token: 1 }
    }

    /// Claims `name` for a new exposure: on success the name maps to a
    /// fresh identity token, which is returned; when the name is already
    /// claimed nothing changes and `None` is returned.
    pub fn try_claim(&mut self, name: String) -> (r: Option<u64>)
        requires
            old(self).wf(),
            old(self).spec_next_token() < u64::MAX,
        ensures
            final(self).wf(),
            old(self).entries().dom().contains(name@) ==> {
                &&& r is None
                &&& final(self).entries() == old(self).entries()
                &&& final(self).spec_next_token() == old(self).spec_next_token()
            },
            !old(self).entries().dom().contains(name@) ==> {
                &&& r == Some(old(self).spec_next_token())
                &&& final(self).entries() == old(self).entries().insert(
                    name@,
                    old(self).spec_next_token(),
                )
                &&& final(self).spec_next_token() == old(self).spec_next_token() + 1
                &&& !old(self).entries().dom().contains(name@)
            },
    {
        if table_contains(&self.table, &name) {
            None
        } else {
            let token = self.next_token;
            self.next_token = token + 1;
            table_insert(&mut self.table, name, token);
            proof {
                assert forall|n: Seq<char>| self.entries().dom().contains(n) implies (
                #[trigger] self.entries()[n]) < self.next_token by {
                    if n != name@ {
                        assert(old(self).entries().dom().contains(n));
                    }
                }
            }
            Some(token)
        }
    }

    /// Releases `name` if, and only if, it is currently held by the
    /// exposure identified by `token`; a name held by a different live
    /// object is put back untouched.
    pub fn release(&mut self, name: &String, token: u64) -> (r: bool)
        requires
            old(self).wf(),
        ensures
            final(self).wf(),
            final(self).spec_next_token() == old(self).spec_next_token(),
            r == (old(self).entries().dom().contains(name@) && old(self).entries()[name@]
                == token),
            r ==> final(self).entries() == old(self).entries().remove(name@),
            !r ==> final(self).entries() == old(self).entries(),
    {
        let removed = table_remove(&mut self.table, name);
        match removed {
            Option::Some(held) => {
                if held == token {
                    proof {
                        assert forall|n: Seq<char>| self.entries().dom().contains(n) implies (
                        #[trigger] self.entries()[n]) < self.next_token by {
                            assert(old(self).entries().dom().contains(n));
                        }
                    }
                    true
                } else {
                    table_insert(&mut self.table, name.clone(), held);
                    proof {
                        assert(self.entries() =~= old(self).entries());
                    }
                    false
                }
            },
            Option::None => {
                proof {
                    assert(self.entries() =~= old(self).entries());
                }
                false
            },
        }
    }

    /// The number of exposed names.
    pub fn len(&self) -> (n: usize)
        ensures
            n == self.entries().dom().len(),
    {
        table_len(&self.table)
    }
}

/// The number of variables currently exposed in `reg`.
pub fn count_exposed(reg: &VarRegistry) -> (n: usize)
    ensures
        n == reg.entries().dom().len(),
{
    reg.len()
}

/// The full name formed from a prefix and a name: the two joined by an
/// underscore, or the name alone when the prefix is empty.
pub open spec fn full_name_text(prefix: Seq<char>, name: Seq<char>) -> Seq<char> {
    if prefix.len() == 0 {
        name
    } else {
        prefix + seq!['_'] + name
    }
}

/// Builds the full name from a prefix and a name.
pub fn make_full_name(prefix: &str, name: &str) -> (r: String)
    ensures
        r@ == full_name_text(prefix@, name@),
{
    let mut full = String::new();
    if !prefix.is_empty() {
        full.append(prefix);
        proof {
            reveal_strlit("_");
        }
        full.append("_");
    }
    full.append(name);
    proof {
        assert(full@ =~= full_name_text(prefix@, name@));
    }
    full
}

/// The shared exposure step every Variable implementation uses: builds the
/// full name from `prefix` and `name` and claims it in the registry.
/// Returns the status (0 on success, -1 on a name conflict), the identity
/// token of the new exposure on success, and the full name, which the
/// caller records only on success.
pub fn default_expose_impl(reg: &mut VarRegistry, prefix: &str, name: &str) -> (r: (
    i32,
    Option<u64>,
    String,
))
    requires
        old(reg).wf(),
        old(reg).spec_next_token() < u64::MAX,
    ensures
        final(reg).wf(),
        r.2@ == full_name_text(prefix@, name@),
        old(reg).entries().dom().contains(full_name_text(prefix@, name@)) ==> {
            &&& r.0 == -1
            &&& r.1 is None
            &&& final(reg).entries() == old(reg).entries()
            &&& final(reg).spec_next_token() == old(reg).spec_next_token()
        },
        !old(reg).entries().dom().contains(full_name_text(prefix@, name@)) ==> {
            &&& r.0 == 0
            &&& r.1 == Some(old(reg).spec_next_token())
            &&& final(reg).entries() == old(reg).entries().insert(
                full_name_text(prefix@, name@),
                old(reg).spec_next_token(),
            )
        },
{
    let full = make_full_name(prefix, name);
    match reg.try_claim(full.clone()) {
        Option::Some(token) => (0, Some(token), full),
        Option::None => (-1, None, full),
    }
}

/// The name-conflict law: a name nobody holds can be claimed; while one
/// exposure holds it, the table shows the claim, so any further claim is
/// turned away; and once the holder releases it, the table is exactly as
/// it was, so the name is available again.
pub proof fn lemma_name_conflict(m: Map<Seq<char>, u64>, name: Seq<char>, t1: u64)
    requires
        !m.dom().contains(name),
    ensures
        m.insert(name, t1).dom().contains(name),
        m.insert(name, t1)[name] == t1,
        m.insert(name, t1).remove(name) =~= m,
{
}

/// Options controlling how a time series is described.
pub struct SeriesOptions {
    /// Whether the series reports a fixed number of points per tier.
    pub fixed_length: bool,
}

impl Default for SeriesOptions {
    fn default() -> (r: Self)
        ensures
            r.fixed_length == false,
    {
        SeriesOptions { fixed_length: false }
    }
}

/// An object that can be described as text and exposed in a registry under
/// a stable name.
pub trait Variable: Sized {
    /// The full name of the current exposure, empty when none succeeded yet.
    spec fn spec_var_name(&self) -> Seq<char>;

    /// The identity token of the current exposure, if any.
    spec fn spec_token(&self) -> Option<u64>;

    /// The object's current textual description.
    spec fn spec_description(&self) -> Seq<char>;

    /// Whether the object currently counts as hidden.
    spec fn spec_hidden(&self) -> bool;

    /// The object's internal invariant.
    spec fn inv(&self) -> bool;

    /// Appends the object's description to `out`; returns true when a
    /// description was written.
    fn describe(&self, out: &mut String, quote_string: bool) -> (r: bool)
        requires
            self.inv(),
        ensures
            final(out)@ == old(out)@ + self.spec_description(),
            r,
    ;

    /// Claims the full name built from `prefix` and `name` in the registry;
    /// returns 0 and records the name on success, or -1 when the name is
    /// already claimed by another live exposure, leaving everything as it
    /// was.
    fn expose_impl(&mut self, reg: &mut VarRegistry, prefix: &str, name: &str) -> (r: i32)
        requires
            old(self).inv(),
            old(reg).wf(),
            old(reg).spec_next_token() < u64::MAX,
        ensures
            final(self).inv(),
            final(reg).wf(),
            old(reg).entries().dom().contains(full_name_text(prefix@, name@)) ==> {
                &&& r == -1
                &&& final(reg).entries() == old(reg).entries()
                &&& final(self).spec_var_name() == old(self).spec_var_name()
                &&& final(self).spec_token() == old(self).spec_token()
            },
            !old(reg).entries().dom().contains(full_name_text(prefix@, name@)) ==> {
                &&& r == 0
                &&& final(reg).entries() == old(reg).entries().insert(
                    full_name_text(prefix@, name@),
                    old(reg).spec_next_token(),
                )
                &&& final(self).spec_var_name() == full_name_text(prefix@, name@)
                &&& final(self).spec_token() == Some(old(reg).spec_next_token())
            },
    ;

    /// The full name of the current exposure.
    fn name(&self) -> (r: String)
        ensures
            r@ == self.spec_var_name(),
    ;

    /// The identity token of the current exposure.
    fn token(&self) -> (t: Option<u64>)
        ensures
            t == self.spec_token(),
    ;

    /// Exposes the object under `name` alone.
    fn expose(&mut self, reg: &mut VarRegistry, name: &str) -> (r: i32)
        requires
            old(self).inv(),
            old(reg).wf(),
            old(reg).spec_next_token() < u64::MAX,
        ensures
            final(self).inv(),
            final(reg).wf(),
            old(reg).entries().dom().contains(name@) ==> {
                &&& r == -1
                &&& final(reg).entries() == old(reg).entries()
                &&& final(self).spec_var_name() == old(self).spec_var_name()
                &&& final(self).spec_token() == old(self).spec_token()
            },
            !old(reg).entries().dom().contains(name@) ==> {
                &&& r == 0
                &&& final(reg).entries() == old(reg).entries().insert(
                    name@,
                    old(reg).spec_next_token(),
                )
                &&& final(self).spec_var_name() == name@
                &&& final(self).spec_token() == Some(old(reg).spec_next_token())
            },
    {
        proof {
            reveal_strlit("");
            assert(full_name_text(""@, name@) == name@);
        }
        self.expose_impl(reg, "", name)
    }

    /// Exposes the object under the full name built from `prefix` and
    /// `name`.
    fn expose_as(&mut self, reg: &mut VarRegistry, prefix: &str, name: &str) -> (r: i32)
        requires
            old(self).inv(),
            old(reg).wf(),
            old(reg).spec_next_token() < u64::MAX,
        ensures
            final(self).inv(),
            final(reg).wf(),
            old(reg).entries().dom().contains(full_name_text(prefix@, name@)) ==> {
                &&& r == -1
                &&& final(reg).entries() == old(reg).entries()
                &&& final(self).spec_var_name() == old(self).spec_var_name()
                &&& final(self).spec_token() == old(self).spec_token()
            },
            !old(reg).entries().dom().contains(full_name_text(prefix@, name@)) ==> {
                &&& r == 0
                &&& final(reg).entries() == old(reg).entries().insert(
                    full_name_text(prefix@, name@),
                    old(reg).spec_next_token(),
                )
                &&& final(self).spec_var_name() == full_name_text(prefix@, name@)
                &&& final(self).spec_token() == Some(old(reg).spec_next_token())
            },
    {
        self.expose_impl(reg, prefix, name)
    }

    /// The object's description as a fresh string.
    fn get_description(&self) -> (s: String)
        requires
            self.inv(),
        ensures
            s@ == self.spec_description(),
    {
        let mut buf = String::new();
        self.describe(&mut buf, false);
        proof {
            assert(buf@ =~= self.spec_description());
        }
        buf
    }

    /// Removes the object's name from the registry, provided the name is
    /// still held by this very exposure: a name claimed since by a
    /// different live object is left in place.
    fn default_hide(&self, reg: &mut VarRegistry) -> (r: bool)
        requires
            old(reg).wf(),
        ensures
            final(reg).wf(),
            final(reg).spec_next_token() == old(reg).spec_next_token(),
            r == (self.spec_var_name().len() > 0 && self.spec_token() is Some && old(
                reg,
            ).entries().dom().contains(self.spec_var_name()) && old(reg).entries()[
                self.spec_var_name()] == self.spec_token()->0),
            r ==> final(reg).entries() == old(reg).entries().remove(self.spec_var_name()),
            !r ==> final(reg).entries() == old(reg).entries(),
    {
        let var_name = self.name();
        if var_name.as_str().is_empty() {
            return false;
        }
        match self.token() {
            Option::Some(token) => reg.release(&var_name, token),
            Option::None => false,
        }
    }

    /// Removes the object's name from the registry; see `default_hide`.
    /// The registry entry goes away exactly when this very exposure still
    /// held the name.
    fn unexpose(&mut self, reg: &mut VarRegistry) -> (r: bool)
        requires
            old(self).inv(),
            old(reg).wf(),
        ensures
            final(self).inv(),
            final(reg).wf(),
            final(reg).spec_next_token() == old(reg).spec_next_token(),
            r == (old(self).spec_var_name().len() > 0 && old(self).spec_token() is Some && old(
                reg,
            ).entries().dom().contains(old(self).spec_var_name()) && old(reg).entries()[old(
                self,
            ).spec_var_name()] == old(self).spec_token()->0),
            r ==> final(reg).entries() == old(reg).entries().remove(old(self).spec_var_name()),
            !r ==> final(reg).entries() == old(reg).entries(),
    {
        self.default_hide(reg)
    }

    /// Whether the object currently counts as hidden.
    fn is_hidden(&self) -> (r: bool)
        ensures
            r == self.spec_hidden(),
    ;
}

} // verus!
