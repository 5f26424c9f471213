//! CPU-identification virtualization: guest CPUID requests are answered from
//! a curated feature table, never from raw hardware. A leaf outside the table
//! gets a defined all-zero answer.

use vstd::prelude::*;

verus! {

/// One row of the feature table: a leaf and the four answer words.
#[derive(Clone, Copy, PartialEq, Eq, Structural, Debug)]
pub struct CpuidEntry {
    pub leaf: u32,
    pub eax: u32,
    pub ebx: u32,
    pub ecx: u32,
    pub edx: u32,
}

/// The four answer words of one CPUID request.
#[derive(Clone, Copy, PartialEq, Eq, Structural, Debug)]
pub struct CpuidResult {
    pub eax: u32,
    pub ebx: u32,
    pub ecx: u32,
    pub edx: u32,
}

/// Whether the table has a row for `leaf`.
pub open spec fn table_has_leaf(s: Seq<CpuidEntry>, leaf: u32) -> bool {
    exists|i: int| 0 <= i < s.len() && s[i].leaf == leaf
}

/// The index of the row for `leaf`, where one exists.
pub open spec fn table_index_of(s: Seq<CpuidEntry>, leaf: u32) -> int {
    choose|i: int| 0 <= i < s.len() && s[i].leaf == leaf
}

/// The answer the virtualization-aware table gives for `leaf`: the row's
/// words where one exists, else the defined all-zero answer.
pub open spec fn cpuid_lookup(s: Seq<CpuidEntry>, leaf: u32) -> CpuidResult {
    if table_has_leaf(s, leaf) {
        let i = table_index_of(s, leaf);
        CpuidResult { eax: s[i].eax, ebx: s[i].ebx, ecx: s[i].ecx, edx: s[i].edx }
    } else {
        CpuidResult { eax: 0, ebx: 0, ecx: 0, edx: 0 }
    }
}

/// A request for a row that is already present.
#[derive(Clone, Copy, PartialEq, Eq, Structural, Debug)]
pub enum CpuidTableError {
    DuplicateLeaf { leaf: u32 },
}

/// The feature table itself; rows are unique per leaf.
pub struct CpuidTable {
    entries: Vec<CpuidEntry>,
}

impl View for CpuidTable {
    type V = Seq<CpuidEntry>;

    closed spec fn view(&self) -> Seq<CpuidEntry> {
        self.entries@
    }
}

impl CpuidTable {
    /// Structural invariant: at most one row per leaf.
    pub open spec fn wf(self) -> bool {
        forall|i: int, j: int| 0 <= i < j < self@.len() ==> self@[i].leaf != self@[j].leaf
    }

    /// An empty table: every leaf answers all-zero.
    pub fn new() -> (t: CpuidTable)
        ensures
            t.wf(),
            t@.len() == 0,
    {
        CpuidTable { entries: Vec::new() }
    }

    /// Whether the table has a row for `leaf`.
    pub fn has_leaf(&self, leaf: u32) -> (r: bool)
        ensures
            r == table_has_leaf(self@, leaf),
    {
        let mut i: usize = 0;
        while i < self.entries.len()
            invariant
                i <= self@.len(),
                forall|j: int| 0 <= j < i as int ==> self@[j].leaf != leaf,
            decreases self@.len() - i,
        {
            if self.entries[i].leaf == leaf {
                return true;
            }
            i = i + 1;
        }
        false
    }

    /// Add a row; a leaf already present is rejected and the table is left
    /// unchanged.
    pub fn add(&mut self, e: CpuidEntry) -> (r: Result<(), CpuidTableError>)
        requires
            old(self).wf(),
        ensures
            final(self).wf(),
            match r {
                Ok(()) => !table_has_leaf(old(self)@, e.leaf) && final(self)@ == old(self)@.push(
                    e,
                ),
                Err(CpuidTableError::DuplicateLeaf { leaf }) => {
                    &&& leaf == e.leaf
                    &&& table_has_leaf(old(self)@, e.leaf)
                    &&& final(self)@ == old(self)@
                },
            },
    {
        if self.has_leaf(e.leaf) {
            Err(CpuidTableError::DuplicateLeaf { leaf: e.leaf })
        } else {
            self.entries.push(e);
            Ok(())
        }
    }

    /// Answer one CPUID request from the table: the row's words where the
    /// leaf is present, the defined all-zero answer where it is not.
    pub fn lookup(&self, leaf: u32) -> (r: CpuidResult)
        requires
            self.wf(),
        ensures
            r == cpuid_lookup(self@, leaf),
    {
        let mut i: usize = 0;
        while i < self.entries.len()
            invariant
                i <= self@.len(),
                self.wf(),
                forall|j: int| 0 <= j < i as int ==> self@[j].leaf != leaf,
            decreases self@.len() - i,
        {
            let e = self.entries[i];
            if e.leaf == leaf {
                proof {
                    assert(table_has_leaf(self@, leaf));
                    let k = table_index_of(self@, leaf);
                    assert(0 <= k < self@.len() && self@[k].leaf == leaf);
                    assert(k == i as int);
                }
                return CpuidResult { eax: e.eax, ebx: e.ebx, ecx: e.ecx, edx: e.edx };
            }
            i = i + 1;
        }
        proof {
            assert(!table_has_leaf(self@, leaf));
        }
        CpuidResult { eax: 0, ebx: 0, ecx: 0, edx: 0 }
    }
}

} // verus!
