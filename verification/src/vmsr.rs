//! Per-register access policy for model-specific and control registers:
//! pass a register through, deny the access (a synthetic fault is injected
//! into the guest), or emulate it. A register outside the table is denied.

use vstd::prelude::*;

verus! {

/// What the dispatcher does with an intercepted register access.
#[derive(Clone, Copy, PartialEq, Eq, Structural, Debug)]
pub enum AccessPolicy {
    /// Pass the access through to the hosting layer.
    Allow,
    /// Refuse the access; a synthetic fault is injected into the guest.
    Deny,
    /// Answer the access locally from virtualized state.
    Emulate,
}

/// One row of a policy table.
#[derive(Clone, Copy, PartialEq, Eq, Structural, Debug)]
pub struct PolicyEntry {
    pub key: u32,
    pub policy: AccessPolicy,
}

/// Whether the table has a row for `key`.
pub open spec fn policy_has_key(s: Seq<PolicyEntry>, key: u32) -> bool {
    exists|i: int| 0 <= i < s.len() && s[i].key == key
}

/// The index of the row for `key`, where one exists.
pub open spec fn policy_index_of(s: Seq<PolicyEntry>, key: u32) -> int {
    choose|i: int| 0 <= i < s.len() && s[i].key == key
}

/// The policy the table assigns to `key`; a register outside the table is
/// denied.
pub open spec fn policy_lookup(s: Seq<PolicyEntry>, key: u32) -> AccessPolicy {
    if policy_has_key(s, key) {
        s[policy_index_of(s, key)].policy
    } else {
        AccessPolicy::Deny
    }
}

/// A request for a row that is already present.
#[derive(Clone, Copy, PartialEq, Eq, Structural, Debug)]
pub enum PolicyTableError {
    DuplicateKey { key: u32 },
}

/// The policy table itself; rows are unique per key.
pub struct RegisterPolicyTable {
    entries: Vec<PolicyEntry>,
}

impl View for RegisterPolicyTable {
    type V = Seq<PolicyEntry>;

    closed spec fn view(&self) -> Seq<PolicyEntry> {
        self.entries@
    }
}

impl RegisterPolicyTable {
    /// Structural invariant: at most one row per key.
    pub open spec fn wf(self) -> bool {
        forall|i: int, j: int| 0 <= i < j < self@.len() ==> self@[i].key != self@[j].key
    }

    /// An empty table: every register is denied.
    pub fn new() -> (t: RegisterPolicyTable)
        ensures
            t.wf(),
            t@.len() == 0,
    {
        RegisterPolicyTable { entries: Vec::new() }
    }

    /// Whether the table has a row for `key`.
    pub fn has_key(&self, key: u32) -> (r: bool)
        ensures
            r == policy_has_key(self@, key),
    {
        let mut i: usize = 0;
        while i < self.entries.len()
            invariant
                i <= self@.len(),
                forall|j: int| 0 <= j < i as int ==> self@[j].key != key,
            decreases self@.len() - i,
        {
            if self.entries[i].key == key {
                return true;
            }
            i = i + 1;
        }
        false
    }

    /// Add a row; a key already present is rejected and the table is left
    /// unchanged.
    pub fn add(&mut self, e: PolicyEntry) -> (r: Result<(), PolicyTableError>)
        requires
            old(self).wf(),
        ensures
            final(self).wf(),
            match r {
                Ok(()) => !policy_has_key(old(self)@, e.key) && final(self)@ == old(self)@.push(
                    e,
                ),
                Err(PolicyTableError::DuplicateKey { key }) => {
                    &&& key == e.key
                    &&& policy_has_key(old(self)@, e.key)
                    &&& final(self)@ == old(self)@
                },
            },
    {
        if self.has_key(e.key) {
            Err(PolicyTableError::DuplicateKey { key: e.key })
        } else {
            self.entries.push(e);
            Ok(())
        }
    }

    /// The policy assigned to `key`, denying by default.
    pub fn policy_for(&self, key: u32) -> (p: AccessPolicy)
        requires
            self.wf(),
        ensures
            p == policy_lookup(self@, key),
    {
        let mut i: usize = 0;
        while i < self.entries.len()
            invariant
                i <= self@.len(),
                self.wf(),
                forall|j: int| 0 <= j < i as int ==> self@[j].key != key,
            decreases self@.len() - i,
        {
            let e = self.entries[i];
            if e.key == key {
                proof {
                    assert(policy_has_key(self@, key));
                    let k = policy_index_of(self@, key);
                    assert(0 <= k < self@.len() && self@[k].key == key);
                    assert(k == i as int);
                }
                return e.policy;
            }
            i = i + 1;
        }
        proof {
            assert(!policy_has_key(self@, key));
        }
        AccessPolicy::Deny
    }
}

} // verus!
