use vstd::prelude::*;
use crate::types::{HostKind, TypeId};

verus! {

/// How strictly argument and field types are checked.
#[derive(Clone, Copy, Debug, PartialEq, Eq, Structural)]
pub enum ParamChecking {
    /// Only host types registered as exact are accepted.
    Strong,
    /// Host types registered through an implicit conversion are accepted too.
    Weak,
}

/// One registered host type for a backend type, exact or by conversion.
#[derive(Clone, Copy, Debug, PartialEq, Eq, Structural)]
pub struct HostMapping {
    pub type_id: TypeId,
    pub host: HostKind,
    pub exact: bool,
}

/// A backend's read-only table from its types to host types.
#[derive(Clone, Debug)]
pub struct TypeMappingRegistry {
    pub checking: ParamChecking,
    pub entries: Vec<HostMapping>,
}

/// Whether `h` may stand for a value of backend type `t` under the
/// registry's checking mode.
pub open spec fn accepts(checking: ParamChecking, m: HostMapping, t: TypeId, h: HostKind) -> bool {
    m.type_id == t && m.host == h && (m.exact || checking is Weak)
}

pub open spec fn compatible_spec(reg: TypeMappingRegistry, t: TypeId, h: HostKind) -> bool {
    exists|i: int| 0 <= i < reg.entries@.len() && accepts(reg.checking, reg.entries@[i], t, h)
}

/// The first host type registered for `t` among the first `n` entries.
pub open spec fn first_host_upto(entries: Seq<HostMapping>, t: TypeId, n: nat) -> Option<HostKind>
    decreases n,
{
    if n == 0 {
        None
    } else {
        match first_host_upto(entries, t, (n - 1) as nat) {
            Some(h) => Some(h),
            None => if entries[n - 1].type_id == t {
                Some(entries[n - 1].host)
            } else {
                None
            },
        }
    }
}

/// The host type that a column of backend type `t` decodes to: the first
/// one registered for it.
pub open spec fn resolve_spec(reg: TypeMappingRegistry, t: TypeId) -> Option<HostKind> {
    first_host_upto(reg.entries@, t, reg.entries@.len())
}

/// The host types registered for `t`, in registry order.
pub open spec fn hosts_upto(entries: Seq<HostMapping>, t: TypeId, n: nat) -> Seq<HostKind>
    decreases n,
{
    if n == 0 {
        Seq::empty()
    } else if entries[n - 1].type_id == t {
        hosts_upto(entries, t, (n - 1) as nat).push(entries[n - 1].host)
    } else {
        hosts_upto(entries, t, (n - 1) as nat)
    }
}

proof fn lemma_first_host_none(entries: Seq<HostMapping>, t: TypeId, n: nat)
    requires
        n <= entries.len(),
    ensures
        first_host_upto(entries, t, n) is None <==> forall|i: int| 0 <= i < n ==> entries[i].type_id != t,
    decreases n,
{
    if n > 0 {
        lemma_first_host_none(entries, t, (n - 1) as nat);
    }
}

proof fn lemma_first_host_stable(entries: Seq<HostMapping>, t: TypeId, m: nat, n: nat)
    requires
        m <= n,
        first_host_upto(entries, t, m) is Some,
    ensures
        first_host_upto(entries, t, n) == first_host_upto(entries, t, m),
    decreases n - m,
{
    if m < n {
        lemma_first_host_stable(entries, t, m, (n - 1) as nat);
    }
}

impl TypeMappingRegistry {
    pub fn new(checking: ParamChecking, entries: Vec<HostMapping>) -> (r: Self)
        ensures
            r.checking == checking,
            r.entries@ == entries@,
    {
        TypeMappingRegistry { checking, entries }
    }

    /// The host types registered for `t`, exact or not, in registry order.
    pub fn compatible_host_types(&self, t: TypeId) -> (r: Vec<HostKind>)
        ensures
            r@ == hosts_upto(self.entries@, t, self.entries@.len()),
    {
        let mut r: Vec<HostKind> = Vec::new();
        let mut i: usize = 0;
        while i < self.entries.len()
            invariant
                i <= self.entries@.len(),
                r@ == hosts_upto(self.entries@, t, i as nat),
            decreases self.entries@.len() - i,
        {
            if self.entries[i].type_id == t {
                r.push(self.entries[i].host);
            }
            i = i + 1;
        }
        r
    }

    /// Whether an argument or field of host type `h` may stand for backend
    /// type `t`: exactly registered, or by conversion under weak checking.
    pub fn is_param_compatible(&self, t: TypeId, h: HostKind) -> (r: bool)
        ensures
            r == compatible_spec(*self, t, h),
    {
        let weak = match self.checking {
            ParamChecking::Weak => true,
            ParamChecking::Strong => false,
        };
        let mut i: usize = 0;
        while i < self.entries.len()
            invariant
                i <= self.entries@.len(),
                weak == (self.checking is Weak),
                forall|k: int| 0 <= k < i ==> !accepts(self.checking, self.entries@[k], t, h),
            decreases self.entries@.len() - i,
        {
            let m = self.entries[i];
            if m.type_id == t && m.host == h && (m.exact || weak) {
                return true;
            }
            i = i + 1;
        }
        false
    }

    /// The host type a column of backend type `t` decodes to, if any.
    pub fn resolve(&self, t: TypeId) -> (r: Option<HostKind>)
        ensures
            r == resolve_spec(*self, t),
            r is None <==> forall|i: int| 0 <= i < self.entries@.len() ==> self.entries@[i].type_id != t,
    {
        proof {
            lemma_first_host_none(self.entries@, t, self.entries@.len());
        }
        let mut i: usize = 0;
        while i < self.entries.len()
            invariant
                i <= self.entries@.len(),
                first_host_upto(self.entries@, t, i as nat) is None,
            decreases self.entries@.len() - i,
        {
            if self.entries[i].type_id == t {
                proof {
                    lemma_first_host_stable(self.entries@, t, (i + 1) as nat, self.entries@.len());
                }
                return Some(self.entries[i].host);
            }
            i = i + 1;
        }
        None
    }
}

} // verus!
