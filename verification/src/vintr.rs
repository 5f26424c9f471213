//! Virtual interrupt controller: pending-vector bitmap, per-vector masking,
//! in-service markers, vector-derived prioritization, and the I/O redirection
//! table that remaps I/O-routed interrupts before they are raised.

use vstd::prelude::*;

verus! {

/// Number of interrupt vectors the controller tracks.
pub const NUM_VECTORS: usize = 256;

/// Architectural priority class of a vector: vectors are grouped sixteen to a
/// class, higher class first.
pub open spec fn priority_class(v: int) -> int {
    v / 16
}

/// Abstract controller state: one pending, in-service and mask bit per
/// vector.
#[verifier::ext_equal]
pub struct VicView {
    pub pending: Seq<bool>,
    pub in_service: Seq<bool>,
    pub masked: Seq<bool>,
}

/// The end-of-interrupt effect on the abstract state: the vector's
/// in-service marker is cleared and nothing else changes.
pub open spec fn vic_eoi(s: VicView, v: int) -> VicView {
    VicView { in_service: s.in_service.update(v, false), ..s }
}

/// Whether vector `w` is ready for injection: pending and not masked.
pub open spec fn injectable(s: VicView, w: int) -> bool {
    0 <= w < NUM_VECTORS as int && s.pending[w] && !s.masked[w]
}

/// Whether `v` is the injectable vector that dominates every other one.
pub open spec fn top_injectable(s: VicView, v: int) -> bool {
    injectable(s, v) && forall|w: int| injectable(s, w) ==> w <= v
}

/// Acknowledging a vector clears its pending bit and marks it in service,
/// atomically with its injection into the next VM-entry.
pub open spec fn vic_acknowledge(s: VicView, v: int) -> VicView {
    VicView { pending: s.pending.update(v, false), in_service: s.in_service.update(v, true), ..s }
}

/// `end_of_interrupt` is idempotent: issuing it twice for the same vector
/// leaves exactly the state the first issue left.
pub proof fn lemma_end_of_interrupt_idempotent(s: VicView, v: int)
    requires
        0 <= v < s.in_service.len(),
    ensures
        vic_eoi(vic_eoi(s, v), v) == vic_eoi(s, v),
{
    assert(vic_eoi(vic_eoi(s, v), v) =~= vic_eoi(s, v));
}

/// After acknowledging a vector it is no longer pending.
pub proof fn lemma_acknowledge_clears_pending(s: VicView, v: int)
    requires
        0 <= v < s.pending.len(),
    ensures
        !vic_acknowledge(s, v).pending[v],
{
}

/// Emulated local interrupt controller state for one virtual CPU; touched
/// only by the processor that owns that CPU's exit handling.
pub struct VirtIntrController {
    pending: Vec<bool>,
    in_service: Vec<bool>,
    masked: Vec<bool>,
}

impl View for VirtIntrController {
    type V = VicView;

    closed spec fn view(&self) -> VicView {
        VicView { pending: self.pending@, in_service: self.in_service@, masked: self.masked@ }
    }
}

impl VirtIntrController {
    /// Structural invariant: one bit of each kind per vector.
    pub open spec fn wf(self) -> bool {
        &&& self@.pending.len() == NUM_VECTORS
        &&& self@.in_service.len() == NUM_VECTORS
        &&& self@.masked.len() == NUM_VECTORS
    }

    /// A cleared controller: nothing pending, nothing in service, every
    /// vector unmasked.
    pub fn new() -> (c: VirtIntrController)
        ensures
            c.wf(),
            forall|v: int| 0 <= v < NUM_VECTORS as int ==> !c@.pending[v],
            forall|v: int| 0 <= v < NUM_VECTORS as int ==> !c@.in_service[v],
            forall|v: int| 0 <= v < NUM_VECTORS as int ==> !c@.masked[v],
    {
        let mut pending: Vec<bool> = Vec::new();
        let mut in_service: Vec<bool> = Vec::new();
        let mut masked: Vec<bool> = Vec::new();
        let mut i: usize = 0;
        while i < NUM_VECTORS
            invariant
                i <= NUM_VECTORS,
                pending.len() == i,
                in_service.len() == i,
                masked.len() == i,
                forall|v: int| 0 <= v < i as int ==> !pending[v] && !in_service[v] && !masked[v],
            decreases NUM_VECTORS - i,
        {
            pending.push(false);
            in_service.push(false);
            masked.push(false);
            i = i + 1;
        }
        VirtIntrController { pending, in_service, masked }
    }

    /// Whether `v` is currently marked pending.
    pub fn is_pending(&self, v: u8) -> (r: bool)
        requires
            self.wf(),
        ensures
            r == self@.pending[v as int],
    {
        self.pending[v as usize]
    }

    /// Whether `v` is currently marked in service.
    pub fn is_in_service(&self, v: u8) -> (r: bool)
        requires
            self.wf(),
        ensures
            r == self@.in_service[v as int],
    {
        self.in_service[v as usize]
    }

    /// Whether `v` is currently masked.
    pub fn is_masked(&self, v: u8) -> (r: bool)
        requires
            self.wf(),
        ensures
            r == self@.masked[v as int],
    {
        self.masked[v as usize]
    }

    /// Mask or unmask one vector.
    pub fn set_mask(&mut self, v: u8, m: bool)
        requires
            old(self).wf(),
        ensures
            final(self).wf(),
            final(self)@ == (VicView { masked: old(self)@.masked.update(v as int, m), ..old(self)@ }),
    {
        self.masked[v as usize] = m;
        proof {
            assert(self@ =~= (VicView {
                masked: old(self)@.masked.update(v as int, m),
                ..old(self)@
            }));
        }
    }

    /// Raise a vector: its pending bit is set unless the vector is masked, in
    /// which case the state is unchanged.
    pub fn raise(&mut self, v: u8)
        requires
            old(self).wf(),
        ensures
            final(self).wf(),
            old(self)@.masked[v as int] ==> final(self)@ == old(self)@,
            !old(self)@.masked[v as int] ==> final(self)@ == (VicView {
                pending: old(self)@.pending.update(v as int, true),
                ..old(self)@
            }),
    {
        if !self.masked[v as usize] {
            self.pending[v as usize] = true;
            proof {
                assert(self@ =~= (VicView {
                    pending: old(self)@.pending.update(v as int, true),
                    ..old(self)@
                }));
            }
        }
    }

    /// The highest-priority unmasked pending vector, if any: priority is
    /// derived from the vector number by architectural class grouping, so the
    /// result dominates every other injectable vector both by class and
    /// numerically.
    pub fn next_injectable(&self) -> (r: Option<u8>)
        requires
            self.wf(),
        ensures
            match r {
                Some(v) => {
                    &&& top_injectable(self@, v as int)
                    &&& forall|w: int|
                        injectable(self@, w) ==> priority_class(w) <= priority_class(v as int)
                },
                None => forall|w: int| !injectable(self@, w),
            },
    {
        let mut v: usize = NUM_VECTORS;
        while v > 0
            invariant
                self.wf(),
                v <= NUM_VECTORS,
                forall|w: int| v as int <= w < NUM_VECTORS as int ==> !injectable(self@, w),
            decreases v,
        {
            v = v - 1;
            if self.pending[v] && !self.masked[v] {
                proof {
                    assert forall|w: int|
                        injectable(self@, w) implies w <= v as int && priority_class(w)
                        <= priority_class(v as int) by {
                        let vv = v as int;
                        assert(w <= vv);
                        assert(w / 16 <= vv / 16) by (nonlinear_arith)
                            requires
                                w <= vv,
                        ;
                    }
                }
                return Some(v as u8);
            }
        }
        None
    }

    /// Whether any vector is ready for injection.
    pub fn has_injectable(&self) -> (r: bool)
        requires
            self.wf(),
        ensures
            r == exists|w: int| injectable(self@, w),
    {
        match self.next_injectable() {
            Some(v) => {
                proof {
                    assert(injectable(self@, v as int));
                }
                true
            },
            None => false,
        }
    }

    /// Clear the pending bit of `v` and mark it in service, atomically with
    /// its injection at the next VM-entry boundary.
    pub fn acknowledge(&mut self, v: u8)
        requires
            old(self).wf(),
        ensures
            final(self).wf(),
            final(self)@ == vic_acknowledge(old(self)@, v as int),
            !final(self)@.pending[v as int],
    {
        self.pending[v as usize] = false;
        self.in_service[v as usize] = true;
        proof {
            assert(self@ =~= vic_acknowledge(old(self)@, v as int));
        }
    }

    /// Clear any in-service marker for `v`; issuing this again for the same
    /// vector changes nothing further.
    pub fn end_of_interrupt(&mut self, v: u8)
        requires
            old(self).wf(),
        ensures
            final(self).wf(),
            final(self)@ == vic_eoi(old(self)@, v as int),
    {
        self.in_service[v as usize] = false;
        proof {
            assert(self@ =~= vic_eoi(old(self)@, v as int));
        }
    }
}

/// One entry of the I/O redirection table: target vector, destination, trigger
/// mode, polarity and a mask bit.
#[derive(Clone, Copy, PartialEq, Eq, Structural, Debug)]
pub struct RedirectionEntry {
    pub vector: u8,
    pub destination: u8,
    pub level_triggered: bool,
    pub active_low: bool,
    pub masked: bool,
}

/// Number of input pins the I/O redirection table serves.
pub const REDIR_PINS: usize = 24;

/// The I/O redirection table: I/O-routed interrupts are mapped through it
/// (vector remap, trigger mode, polarity) before being raised on the
/// controller.
pub struct IoRedirectionTable {
    entries: Vec<RedirectionEntry>,
}

impl View for IoRedirectionTable {
    type V = Seq<RedirectionEntry>;

    closed spec fn view(&self) -> Seq<RedirectionEntry> {
        self.entries@
    }
}

impl IoRedirectionTable {
    /// Structural invariant: one entry per pin.
    pub open spec fn wf(self) -> bool {
        self@.len() == REDIR_PINS
    }

    /// A reset table: every pin masked, routed to vector 0.
    pub fn new() -> (t: IoRedirectionTable)
        ensures
            t.wf(),
            forall|p: int| 0 <= p < REDIR_PINS as int ==> (#[trigger] t@[p]).masked,
    {
        let mut entries: Vec<RedirectionEntry> = Vec::new();
        let mut i: usize = 0;
        while i < REDIR_PINS
            invariant
                i <= REDIR_PINS,
                entries.len() == i,
                forall|p: int| 0 <= p < i as int ==> (#[trigger] entries[p]).masked,
            decreases REDIR_PINS - i,
        {
            entries.push(
                RedirectionEntry {
                    vector: 0,
                    destination: 0,
                    level_triggered: false,
                    active_low: false,
                    masked: true,
                },
            );
            i = i + 1;
        }
        IoRedirectionTable { entries }
    }

    /// Program one pin's redirection entry.
    pub fn set_entry(&mut self, pin: usize, e: RedirectionEntry)
        requires
            old(self).wf(),
            pin < REDIR_PINS,
        ensures
            final(self).wf(),
            final(self)@ == old(self)@.update(pin as int, e),
    {
        self.entries[pin] = e;
    }

    /// The programmed entry of one pin.
    pub fn entry_at(&self, pin: usize) -> (e: RedirectionEntry)
        requires
            self.wf(),
            pin < REDIR_PINS,
        ensures
            e == self@[pin as int],
    {
        self.entries[pin]
    }

    /// The vector a pin assertion is remapped to, or nothing when the pin is
    /// masked at the table.
    pub fn route(&self, pin: usize) -> (r: Option<u8>)
        requires
            self.wf(),
            pin < REDIR_PINS,
        ensures
            match r {
                Some(v) => !self@[pin as int].masked && v == self@[pin as int].vector,
                None => self@[pin as int].masked,
            },
    {
        let e = self.entries[pin];
        if e.masked {
            None
        } else {
            Some(e.vector)
        }
    }
}

/// Deliver an I/O-routed interrupt: the pin is first mapped through the
/// redirection table, then the resulting vector is raised on the controller;
/// a pin masked at the table leaves the controller unchanged.
pub fn deliver_io_interrupt(table: &IoRedirectionTable, pin: usize, vic: &mut VirtIntrController)
    requires
        table.wf(),
        pin < REDIR_PINS,
        old(vic).wf(),
    ensures
        final(vic).wf(),
        table@[pin as int].masked ==> final(vic)@ == old(vic)@,
        !table@[pin as int].masked ==> {
            let v = table@[pin as int].vector as int;
            if old(vic)@.masked[v] {
                final(vic)@ == old(vic)@
            } else {
                final(vic)@ == (VicView { pending: old(vic)@.pending.update(v, true), ..old(vic)@ })
            }
        },
{
    let r = table.route(pin);
    match r {
        Some(v) => vic.raise(v),
        None => (),
    }
}

} // verus!
