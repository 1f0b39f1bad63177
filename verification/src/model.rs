//! Resolved metadata the emitters decide over: the configured baseline,
//! the namespace context, import entries, supertype references and
//! discovered constructor candidates. All of it is supplied, already
//! resolved, by the caller.

use vstd::prelude::*;

use crate::version::Version;

verus! {

/// Process-wide configuration visible to this crate.
pub struct Config {
    /// The version of the input metadata set the declarations are
    /// produced from; interpolated into the provenance header.
    pub girs_version: String,
    /// The baseline: the minimum platform version the output may assume
    /// without any gate.
    pub min_cfg_version: Version,
}

/// The generation context for one compilation unit.
pub struct Env {
    pub config: Config,
    /// True iff the primary namespace being generated is itself the owner
    /// of the well-known foreign-binding module, so that importing that
    /// module must be rewritten to avoid a self-import cycle.
    pub glib_is_main: bool,
}

/// One entry of the ordered import set: a module name and an optional
/// minimum version. Insertion order is significant and preserved.
pub struct ImportEntry {
    pub name: String,
    pub version: Option<Version>,
}

/// The ordered import set, preserved verbatim in output order.
pub struct Imports {
    entries: Vec<ImportEntry>,
}

impl View for Imports {
    type V = Seq<ImportEntry>;

    closed spec fn view(&self) -> Seq<ImportEntry> {
        self.entries@
    }
}

impl Imports {
    pub fn new() -> (r: Imports)
        ensures
            r@ == Seq::<ImportEntry>::empty(),
    {
        let r = Imports { entries: Vec::new() };
        proof {
            assert(r@ =~= Seq::<ImportEntry>::empty());
        }
        r
    }

    /// Appends one entry; insertion order is kept.
    pub fn add(&mut self, name: String, version: Option<Version>)
        ensures
            final(self)@ == old(self)@.push(ImportEntry { name, version }),
    {
        self.entries.push(ImportEntry { name, version });
    }

    pub fn len(&self) -> (n: usize)
        ensures
            n == self@.len(),
    {
        self.entries.len()
    }

    pub fn get(&self, i: usize) -> (e: &ImportEntry)
        requires
            i < self@.len(),
        ensures
            *e == self@[i as int],
    {
        &self.entries[i]
    }
}

/// Where a supertype lives: in the primary namespace itself, or in a
/// foreign module whose alias and native type name were already resolved.
pub enum ParentOrigin {
    /// The supertype belongs to the primary namespace.
    Main,
    /// The supertype belongs to a foreign module; `crate_name` is that
    /// module's name (its native-binding module is referred to by the
    /// same name suffixed with `_ffi`), and `ffi_name` is the
    /// supertype's native type name there.
    Foreign { crate_name: String, ffi_name: String },
}

/// One supertype of an owned-object type, with its ignore status.
pub struct StatusedTypeId {
    pub name: String,
    /// Ignored supertypes are filtered out before any shape decision.
    pub ignored: bool,
    pub origin: ParentOrigin,
}

/// One discovered function of a type, as far as default-constructor
/// inference needs it.
pub struct FunctionInfo {
    pub name: String,
    pub parameter_count: usize,
    pub hidden: bool,
    pub version: Option<Version>,
}

} // verus!
