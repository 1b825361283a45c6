//! The bracketing discipline of one DMA buffer read.
//!
//! A DMA allocation may not be cache-coherent with the CPU, so the copy out
//! of the mapping must sit between a begin-CPU-read-access call and an
//! end-CPU-read-access call, issued exactly once each per buffer.  The guard
//! below makes that ordering a verified protocol: the capture loop records
//! each step on the guard, and the step contracts admit no other order.

use vstd::prelude::*;

verus! {

/// Where one DMA read stands, in the order the steps must happen.
#[derive(Clone, Copy, PartialEq, Eq, Structural, Debug)]
pub enum DmaPhase {
    /// Nothing done yet.
    Idle,
    /// The allocation size has been queried and page-rounded.
    Sized,
    /// The allocation is mapped read-only and shared.
    Mapped,
    /// Begin-CPU-read-access has been issued: the mapping may be read now.
    Readable,
    /// The mapped bytes have been copied out.
    Copied,
    /// End-CPU-read-access has been issued.
    Synced,
    /// The mapping is gone; the read is complete.
    Done,
}

/// Records the steps of one DMA read together with how often each
/// cache-synchronisation call was issued.
pub struct DmaReadGuard {
    pub phase: DmaPhase,
    pub begin_calls: u8,
    pub end_calls: u8,
}

impl DmaReadGuard {
    /// The synchronisation counters agree with the phase: begin has been
    /// issued exactly once from `Readable` on, end exactly once from
    /// `Synced` on, and neither before.
    pub open spec fn wf(self) -> bool {
        &&& (match self.phase {
            DmaPhase::Idle | DmaPhase::Sized | DmaPhase::Mapped => self.begin_calls == 0,
            _ => self.begin_calls == 1,
        })
        &&& (match self.phase {
            DmaPhase::Synced | DmaPhase::Done => self.end_calls == 1,
            _ => self.end_calls == 0,
        })
    }

    /// A fresh guard for the next DMA buffer.
    pub fn start() -> (g: DmaReadGuard)
        ensures
            g.wf(),
            g.phase is Idle,
            g.begin_calls == 0,
            g.end_calls == 0,
    {
        DmaReadGuard { phase: DmaPhase::Idle, begin_calls: 0, end_calls: 0 }
    }

    /// The file-status query succeeded and the length was page-rounded.
    pub fn record_sized(&mut self)
        requires
            old(self).wf(),
            old(self).phase is Idle,
        ensures
            final(self).wf(),
            *final(self) == (DmaReadGuard { phase: DmaPhase::Sized, ..*old(self) }),
    {
        self.phase = DmaPhase::Sized;
    }

    /// The allocation was mapped read-only and shared.
    pub fn record_mapped(&mut self)
        requires
            old(self).wf(),
            old(self).phase is Sized,
        ensures
            final(self).wf(),
            *final(self) == (DmaReadGuard { phase: DmaPhase::Mapped, ..*old(self) }),
    {
        self.phase = DmaPhase::Mapped;
    }

    /// Begin-CPU-read-access was issued; only now may the mapping be read.
    pub fn record_begin_access(&mut self)
        requires
            old(self).wf(),
            old(self).phase is Mapped,
        ensures
            final(self).wf(),
            final(self).phase is Readable,
            final(self).begin_calls == old(self).begin_calls + 1,
            final(self).end_calls == old(self).end_calls,
    {
        self.phase = DmaPhase::Readable;
        self.begin_calls = self.begin_calls + 1;
    }

    /// The mapped bytes were copied into an owned buffer.
    pub fn record_copy(&mut self)
        requires
            old(self).wf(),
            old(self).phase is Readable,
        ensures
            final(self).wf(),
            *final(self) == (DmaReadGuard { phase: DmaPhase::Copied, ..*old(self) }),
    {
        self.phase = DmaPhase::Copied;
    }

    /// End-CPU-read-access was issued after the copy.
    pub fn record_end_access(&mut self)
        requires
            old(self).wf(),
            old(self).phase is Copied,
        ensures
            final(self).wf(),
            final(self).phase is Synced,
            final(self).end_calls == old(self).end_calls + 1,
            final(self).begin_calls == old(self).begin_calls,
    {
        self.phase = DmaPhase::Synced;
        self.end_calls = self.end_calls + 1;
    }

    /// The mapping was removed; the read is complete.
    pub fn record_unmapped(&mut self)
        requires
            old(self).wf(),
            old(self).phase is Synced,
        ensures
            final(self).wf(),
            *final(self) == (DmaReadGuard { phase: DmaPhase::Done, ..*old(self) }),
    {
        self.phase = DmaPhase::Done;
    }
}

/// Law: a completed DMA read issued the begin and the end
/// cache-synchronisation call exactly once each.
pub proof fn lemma_dma_read_bracketed(g: DmaReadGuard)
    requires
        g.wf(),
        g.phase is Done,
    ensures
        g.begin_calls == 1,
        g.end_calls == 1,
{
}

/// Law: whenever the mapping may be or has been read, the begin call has
/// been issued and the end call has not — every copy lies inside the
/// bracket.
pub proof fn lemma_copy_inside_bracket(g: DmaReadGuard)
    requires
        g.wf(),
        g.phase is Readable || g.phase is Copied,
    ensures
        g.begin_calls == 1,
        g.end_calls == 0,
{
}

} // verus!
