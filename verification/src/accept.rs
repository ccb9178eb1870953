//! The page-acceptance engine.
//!
//! Accepting a range claims ownership, with the security monitor, of every
//! page in `[base, base + len)`. The engine walks the range greedily,
//! largest aligned granule first: a 2MB block when the cursor is 2MB-aligned
//! and at least 2MB remain, a 4KB page otherwise. The monitor answers each
//! attempt; a "page size mismatch" on a 2MB attempt makes the engine
//! re-process exactly that block as 512 individual 4KB pages, and an
//! "already accepted" answer is tolerated as success, so the same walk can
//! safely cross memory initialized by an earlier or concurrent pass. Any
//! other failure has no safe continuation and must abort the walk.
//!
//! The engine makes no call itself: it names the next attempt, the platform
//! issues the monitor call, and the decoded outcome is fed back in.

use vstd::prelude::*;

use crate::regs::{PAGE_SIZE_2M, PAGE_SIZE_4K};
use crate::status::{
    TdCallError, TDCALL_STATUS_PAGE_ALREADY_ACCEPTED, TDCALL_STATUS_PAGE_SIZE_MISMATCH,
};

verus! {

/// The granule of one acceptance attempt.
#[derive(Clone, Copy, Debug, PartialEq, Eq)]
pub enum PageLevel {
    Size4K,
    Size2M,
}

/// One acceptance attempt the engine asks the platform to issue.
#[derive(Clone, Copy, Debug, PartialEq, Eq)]
pub struct AcceptRequest {
    pub address: u64,
    pub level: PageLevel,
}

/// The monitor's answer to one acceptance attempt, as the engine reads it.
#[derive(Clone, Copy, Debug, PartialEq, Eq)]
pub enum AcceptOutcome {
    /// The page was accepted.
    Accepted,
    /// The page had been accepted before; redundant acceptance is harmless.
    AlreadyAccepted,
    /// The monitor tracks this range at a finer page size; a 2MB attempt
    /// must be re-processed as 4KB pages.
    SizeMismatch,
    /// Any other failure: the walk cannot safely continue.
    Unrecoverable,
}

pub const SPLIT_PAGES: u64 = 512;

/// Bytes covered by one attempt at the given granule.
pub open spec fn page_bytes(level: PageLevel) -> u64 {
    match level {
        PageLevel::Size4K => PAGE_SIZE_4K,
        PageLevel::Size2M => PAGE_SIZE_2M,
    }
}

/// An outcome that settles the attempted pages: a fresh acceptance, or the
/// tolerated re-acceptance.
pub open spec fn settles(o: AcceptOutcome) -> bool {
    o == AcceptOutcome::Accepted || o == AcceptOutcome::AlreadyAccepted
}

/// Which outcomes the walk survives for a given attempt: the settling
/// outcomes always, a size mismatch only on a 2MB attempt. Everything else
/// aborts the walk.
pub open spec fn spec_permitted(req: AcceptRequest, o: AcceptOutcome) -> bool {
    match o {
        AcceptOutcome::Accepted => true,
        AcceptOutcome::AlreadyAccepted => true,
        AcceptOutcome::SizeMismatch => req.level == PageLevel::Size2M,
        AcceptOutcome::Unrecoverable => false,
    }
}

/// How the engine reads the result of one acceptance call: success settles;
/// among the leaf-specific failures, "already accepted" settles and "size
/// mismatch" asks for the finer granule; everything else is unrecoverable.
pub open spec fn spec_accept_outcome(r: Result<(), TdCallError>) -> AcceptOutcome {
    match r {
        Ok(()) => AcceptOutcome::Accepted,
        Err(e) => match e {
            TdCallError::LeafSpecific(code) => {
                if code == TDCALL_STATUS_PAGE_ALREADY_ACCEPTED {
                    AcceptOutcome::AlreadyAccepted
                } else if code == TDCALL_STATUS_PAGE_SIZE_MISMATCH {
                    AcceptOutcome::SizeMismatch
                } else {
                    AcceptOutcome::Unrecoverable
                }
            },
            TdCallError::OperandInvalid => AcceptOutcome::Unrecoverable,
            TdCallError::OperandBusy => AcceptOutcome::Unrecoverable,
        },
    }
}

/// Classifies the result of one acceptance call.
pub fn accept_page_outcome(r: &Result<(), TdCallError>) -> (o: AcceptOutcome)
    ensures
        o == spec_accept_outcome(*r),
{
    match r {
        Ok(()) => AcceptOutcome::Accepted,
        Err(e) => match e {
            TdCallError::LeafSpecific(code) => {
                if *code == TDCALL_STATUS_PAGE_ALREADY_ACCEPTED {
                    AcceptOutcome::AlreadyAccepted
                } else if *code == TDCALL_STATUS_PAGE_SIZE_MISMATCH {
                    AcceptOutcome::SizeMismatch
                } else {
                    AcceptOutcome::Unrecoverable
                }
            },
            TdCallError::OperandInvalid => AcceptOutcome::Unrecoverable,
            TdCallError::OperandBusy => AcceptOutcome::Unrecoverable,
        },
    }
}

/// The address operand of one acceptance call: the page address combined
/// with the level bit — 1 for a 2MB attempt, 0 for a 4KB attempt.
pub fn accept_request_operand(req: &AcceptRequest) -> (a: u64)
    ensures
        req.level == PageLevel::Size2M ==> a == (req.address | 1),
        req.level == PageLevel::Size4K ==> a == req.address,
{
    match req.level {
        PageLevel::Size2M => req.address | 1,
        PageLevel::Size4K => {
            proof {
                let addr = req.address;
                assert((addr | 0) == addr) by (bit_vector);
            }
            req.address | 0
        },
    }
}

/// The acceptance walk over one range. `cursor` is always the first address
/// whose page is not yet settled; while a mismatched 2MB block is being
/// re-processed, `split_until` marks that block's end and lies strictly
/// beyond the cursor.
#[derive(Clone, Copy, Debug, PartialEq, Eq)]
pub struct AcceptEngine {
    pub base: u64,
    pub end: u64,
    pub cursor: u64,
    pub split_until: u64,
}

impl AcceptEngine {
    /// The engine's invariant: everything 4KB-aligned, the cursor inside the
    /// range, and any split block 2MB-aligned at its end, at most 2MB long,
    /// and inside the range.
    pub open spec fn wf(self) -> bool {
        &&& self.base % PAGE_SIZE_4K == 0
        &&& self.end % PAGE_SIZE_4K == 0
        &&& self.cursor % PAGE_SIZE_4K == 0
        &&& self.base <= self.cursor <= self.end
        &&& (self.cursor < self.split_until ==> {
            &&& self.split_until <= self.end
            &&& self.split_until % PAGE_SIZE_2M == 0
            &&& self.split_until - self.cursor <= PAGE_SIZE_2M
        })
    }

    /// The whole range is settled.
    pub open spec fn spec_done(self) -> bool {
        self.cursor == self.end
    }

    /// A mismatched 2MB block is still being re-processed page by page.
    pub open spec fn in_split(self) -> bool {
        self.cursor < self.split_until
    }

    /// The next attempt: none when the range is exhausted; the 4KB page at
    /// the cursor while a split block is being re-processed; otherwise the
    /// largest aligned granule that fits the remaining range.
    pub open spec fn spec_next(self) -> Option<AcceptRequest> {
        if self.cursor == self.end {
            None
        } else if self.in_split() {
            Some(AcceptRequest { address: self.cursor, level: PageLevel::Size4K })
        } else if self.cursor % PAGE_SIZE_2M == 0 && self.end - self.cursor >= PAGE_SIZE_2M {
            Some(AcceptRequest { address: self.cursor, level: PageLevel::Size2M })
        } else {
            Some(AcceptRequest { address: self.cursor, level: PageLevel::Size4K })
        }
    }

    /// An outcome the engine can be stepped with: an attempt is pending and
    /// the walk survives the outcome for it.
    pub open spec fn spec_enabled(self, o: AcceptOutcome) -> bool {
        match self.spec_next() {
            None => false,
            Some(req) => spec_permitted(req, o),
        }
    }

    /// The state after one attempt: a settling outcome advances the cursor
    /// by the attempted granule; a size mismatch leaves the cursor in place
    /// and opens the 2MB block at the cursor for re-processing.
    pub open spec fn spec_apply(self, o: AcceptOutcome) -> AcceptEngine {
        match self.spec_next() {
            None => self,
            Some(req) => {
                if o == AcceptOutcome::SizeMismatch {
                    AcceptEngine {
                        base: self.base,
                        end: self.end,
                        cursor: self.cursor,
                        split_until: (self.cursor + PAGE_SIZE_2M) as u64,
                    }
                } else if settles(o) {
                    AcceptEngine {
                        base: self.base,
                        end: self.end,
                        cursor: (self.cursor + page_bytes(req.level)) as u64,
                        split_until: self.split_until,
                    }
                } else {
                    self
                }
            },
        }
    }
}

impl AcceptEngine {
    /// Names the next attempt without changing the walk.
    pub fn next_attempt(&self) -> (r: Option<AcceptRequest>)
        requires
            self.wf(),
        ensures
            r == self.spec_next(),
    {
        if self.cursor == self.end {
            None
        } else if self.cursor < self.split_until {
            Some(AcceptRequest { address: self.cursor, level: PageLevel::Size4K })
        } else if self.cursor % PAGE_SIZE_2M == 0 && self.end - self.cursor >= PAGE_SIZE_2M {
            Some(AcceptRequest { address: self.cursor, level: PageLevel::Size2M })
        } else {
            Some(AcceptRequest { address: self.cursor, level: PageLevel::Size4K })
        }
    }

    /// Whether the whole range is settled.
    pub fn is_done(&self) -> (b: bool)
        requires
            self.wf(),
        ensures
            b == self.spec_done(),
    {
        self.cursor == self.end
    }

    /// Feeds the outcome of the pending attempt back into the walk.
    pub fn step(&mut self, outcome: AcceptOutcome)
        requires
            old(self).wf(),
            old(self).spec_enabled(outcome),
        ensures
            *final(self) == old(self).spec_apply(outcome),
            final(self).wf(),
    {
        proof {
            lemma_apply_wf(*old(self), outcome);
        }
        match outcome {
            AcceptOutcome::SizeMismatch => {
                self.split_until = self.cursor + PAGE_SIZE_2M;
            },
            AcceptOutcome::Accepted => {
                self.advance();
            },
            AcceptOutcome::AlreadyAccepted => {
                self.advance();
            },
            AcceptOutcome::Unrecoverable => {
            },
        }
    }

    /// Moves the cursor past the pages the pending attempt covers.
    fn advance(&mut self)
        requires
            old(self).wf(),
            old(self).spec_next() is Some,
        ensures
            *final(self) == (AcceptEngine {
                cursor: (old(self).cursor + page_bytes(
                    old(self).spec_next()->Some_0.level,
                )) as u64,
                ..*old(self)
            }),
    {
        proof {
            lemma_apply_wf(*old(self), AcceptOutcome::Accepted);
        }
        if self.cursor < self.split_until {
            self.cursor = self.cursor + PAGE_SIZE_4K;
        } else if self.cursor % PAGE_SIZE_2M == 0 && self.end - self.cursor >= PAGE_SIZE_2M {
            self.cursor = self.cursor + PAGE_SIZE_2M;
        } else {
            self.cursor = self.cursor + PAGE_SIZE_4K;
        }
    }
}

/// Starts the acceptance walk over `[address, address + len)`. Both ends
/// must be 4KB-aligned; a malformed range has no meaningful walk and is the
/// caller's fatal error.
pub fn td_accept_memory(address: u64, len: u64) -> (e: AcceptEngine)
    requires
        address % PAGE_SIZE_4K == 0,
        len % PAGE_SIZE_4K == 0,
        address + len <= u64::MAX,
    ensures
        e.wf(),
        e.base == address,
        e.cursor == address,
        e.end == address + len,
        !e.in_split(),
{
    proof {
        let (a, l) = (address, len);
        assert((a + l) as u64 % 4096u64 == 0) by (bit_vector)
            requires
                a % 4096u64 == 0,
                l % 4096u64 == 0,
                a + l <= 0xffff_ffff_ffff_ffffu64,
        ;
    }
    AcceptEngine { base: address, end: address + len, cursor: address, split_until: 0 }
}

/// Distributing a multiplication by one step.
proof fn lemma_mul_dist(n: int, k: int)
    by (nonlinear_arith)
    ensures
        (n - 1) * k == n * k - k,
{
}

/// Aligned addresses at least one 4KB page apart.
proof fn lemma_aligned_4k_gap(a: u64, b: u64)
    by (bit_vector)
    requires
        a % 4096u64 == 0,
        b % 4096u64 == 0,
        a < b,
    ensures
        a + 4096 <= b,
{
}

/// Adding one 4KB page keeps 4KB alignment.
proof fn lemma_aligned_4k_step(a: u64)
    by (bit_vector)
    requires
        a % 4096u64 == 0,
        a + 4096 <= 0xffff_ffff_ffff_ffffu64,
    ensures
        ((a + 4096) as u64) % 4096u64 == 0,
{
}

/// Adding one 2MB block keeps 2MB alignment, and 2MB alignment implies 4KB
/// alignment.
proof fn lemma_aligned_2m_step(a: u64)
    by (bit_vector)
    requires
        a % 0x200000u64 == 0,
        a + 0x200000 <= 0xffff_ffff_ffff_ffffu64,
    ensures
        ((a + 0x200000) as u64) % 0x200000u64 == 0,
        ((a + 0x200000) as u64) % 4096u64 == 0,
        a % 4096u64 == 0,
{
}

/// One step preserves the invariant, and the range never changes.
pub proof fn lemma_apply_wf(s: AcceptEngine, o: AcceptOutcome)
    requires
        s.wf(),
        s.spec_enabled(o),
    ensures
        s.spec_apply(o).wf(),
        s.spec_apply(o).base == s.base,
        s.spec_apply(o).end == s.end,
{
    let req = match s.spec_next() {
        Some(r) => r,
        None => AcceptRequest { address: 0, level: PageLevel::Size4K },
    };
    if o == AcceptOutcome::SizeMismatch {
        // only a 2MB attempt survives a mismatch, so the cursor is
        // 2MB-aligned with at least 2MB of range left
        lemma_aligned_2m_step(s.cursor);
    } else if settles(o) {
        if req.level == PageLevel::Size2M {
            lemma_aligned_2m_step(s.cursor);
        } else {
            lemma_aligned_4k_gap(s.cursor, s.end);
            lemma_aligned_4k_step(s.cursor);
            if s.in_split() {
                let (c, u) = (s.cursor, s.split_until);
                assert(c + 4096 <= u) by (bit_vector)
                    requires
                        c % 4096u64 == 0,
                        u % 0x200000u64 == 0,
                        c < u,
                ;
            }
        }
    }
}

/// A sequence of outcomes the engine can be stepped with from `s`, one
/// after the other: each is enabled in the state the ones before it lead to.
pub open spec fn valid_trace(s: AcceptEngine, os: Seq<AcceptOutcome>) -> bool
    decreases os.len(),
{
    os.len() == 0 || (s.spec_enabled(os[0]) && valid_trace(s.spec_apply(os[0]), os.drop_first()))
}

/// The state the outcome sequence leads to.
pub open spec fn spec_run(s: AcceptEngine, os: Seq<AcceptOutcome>) -> AcceptEngine
    decreases os.len(),
{
    if os.len() == 0 {
        s
    } else {
        spec_run(s.spec_apply(os[0]), os.drop_first())
    }
}

/// The attempts the engine names along the outcome sequence, in order.
pub open spec fn trace_attempts(s: AcceptEngine, os: Seq<AcceptOutcome>) -> Seq<AcceptRequest>
    decreases os.len(),
{
    if os.len() == 0 {
        Seq::empty()
    } else {
        match s.spec_next() {
            None => Seq::empty(),
            Some(req) => seq![req] + trace_attempts(s.spec_apply(os[0]), os.drop_first()),
        }
    }
}

/// The attempts along the outcome sequence whose outcome settles their
/// pages, in order.
pub open spec fn settled_attempts(s: AcceptEngine, os: Seq<AcceptOutcome>) -> Seq<AcceptRequest>
    decreases os.len(),
{
    if os.len() == 0 {
        Seq::empty()
    } else {
        match s.spec_next() {
            None => Seq::empty(),
            Some(req) => {
                let rest = settled_attempts(s.spec_apply(os[0]), os.drop_first());
                if settles(os[0]) {
                    seq![req] + rest
                } else {
                    rest
                }
            },
        }
    }
}

/// The attempts tile `[from, to)` exactly: each starts where the one before
/// it ended, the first at `from`, the last ending at `to` — no gap and no
/// overlap anywhere.
pub open spec fn tiles(reqs: Seq<AcceptRequest>, from: u64, to: u64) -> bool
    decreases reqs.len(),
{
    if reqs.len() == 0 {
        from == to
    } else {
        &&& reqs[0].address == from
        &&& from + page_bytes(reqs[0].level) <= to
        &&& tiles(reqs.drop_first(), (from + page_bytes(reqs[0].level)) as u64, to)
    }
}

/// Idempotence law: a page reported as already accepted advances the walk
/// exactly as a freshly accepted page does — redundant acceptance changes
/// nothing observable — and that answer is tolerated for every attempt.
pub proof fn lemma_already_accepted_idempotent(s: AcceptEngine)
    ensures
        s.spec_apply(AcceptOutcome::AlreadyAccepted) == s.spec_apply(AcceptOutcome::Accepted),
        forall|req: AcceptRequest| spec_permitted(req, AcceptOutcome::AlreadyAccepted),
{
}

/// Coverage law: however the monitor answers, a surviving walk that
/// exhausts its range has settled a sequence of pages that tile everything
/// from its cursor to the end of the range — no gaps and no overlaps.
pub proof fn lemma_coverage(s: AcceptEngine, os: Seq<AcceptOutcome>)
    requires
        s.wf(),
        valid_trace(s, os),
        spec_run(s, os).spec_done(),
    ensures
        tiles(settled_attempts(s, os), s.cursor, s.end),
    decreases os.len(),
{
    if os.len() == 0 {
    } else {
        let o = os[0];
        let s1 = s.spec_apply(o);
        lemma_apply_wf(s, o);
        lemma_coverage(s1, os.drop_first());
        let req = s.spec_next()->Some_0;
        let rest = settled_attempts(s1, os.drop_first());
        if settles(o) {
            assert(settled_attempts(s, os) == seq![req] + rest);
            assert((seq![req] + rest).drop_first() =~= rest);
            if req.level == PageLevel::Size4K {
                lemma_aligned_4k_gap(s.cursor, s.end);
            }
        } else {
            assert(settled_attempts(s, os) == rest);
        }
    }
}

/// Every attempt a surviving walk names lies inside the walk's range.
pub proof fn lemma_attempts_in_range(s: AcceptEngine, os: Seq<AcceptOutcome>)
    requires
        s.wf(),
        valid_trace(s, os),
    ensures
        trace_attempts(s, os).len() == os.len(),
        forall|i: int|
            0 <= i < os.len() ==> {
                let req = #[trigger] trace_attempts(s, os)[i];
                s.cursor <= req.address && req.address + page_bytes(req.level) <= s.end
            },
    decreases os.len(),
{
    if os.len() == 0 {
    } else {
        let o = os[0];
        let s1 = s.spec_apply(o);
        lemma_apply_wf(s, o);
        lemma_attempts_in_range(s1, os.drop_first());
        let req = s.spec_next()->Some_0;
        let rest = trace_attempts(s1, os.drop_first());
        assert(trace_attempts(s, os) == seq![req] + rest);
        if req.level == PageLevel::Size4K {
            lemma_aligned_4k_gap(s.cursor, s.end);
        }
        assert(s.cursor <= s1.cursor);
        assert forall|i: int| 0 <= i < os.len() implies {
            let r = #[trigger] trace_attempts(s, os)[i];
            s.cursor <= r.address && r.address + page_bytes(r.level) <= s.end
        } by {
            if i > 0 {
                assert(trace_attempts(s, os)[i] == rest[i - 1]);
            }
        }
    }
}

/// Split law, entry: a size mismatch is survived only on a 2MB attempt, and
/// it opens exactly that 2MB block for re-processing — 512 4KB pages —
/// without moving the cursor.
pub proof fn lemma_mismatch_enters_split(s: AcceptEngine)
    requires
        s.wf(),
        s.spec_enabled(AcceptOutcome::SizeMismatch),
    ensures
        s.spec_next() == Some(
            (AcceptRequest { address: s.cursor, level: PageLevel::Size2M }),
        ),
        s.spec_apply(AcceptOutcome::SizeMismatch).in_split(),
        s.spec_apply(AcceptOutcome::SizeMismatch).cursor == s.cursor,
        s.spec_apply(AcceptOutcome::SizeMismatch).split_until == s.cursor + PAGE_SIZE_2M,
        (s.spec_apply(AcceptOutcome::SizeMismatch).split_until
            - s.spec_apply(AcceptOutcome::SizeMismatch).cursor) / (PAGE_SIZE_4K as int)
            == SPLIT_PAGES,
{
}

/// Split law, walk: while a split block is being re-processed, every
/// attempt is a 4KB page, the addresses run consecutively from the cursor,
/// and the walk stays inside the block until its pages are exhausted.
pub proof fn lemma_split_attempts(s: AcceptEngine, os: Seq<AcceptOutcome>)
    requires
        s.wf(),
        s.in_split(),
        valid_trace(s, os),
        os.len() * PAGE_SIZE_4K <= s.split_until - s.cursor,
    ensures
        trace_attempts(s, os).len() == os.len(),
        forall|i: int|
            0 <= i < os.len() ==> {
                let req = #[trigger] trace_attempts(s, os)[i];
                req.level == PageLevel::Size4K && req.address == s.cursor + i * PAGE_SIZE_4K
            },
        spec_run(s, os).cursor == s.cursor + os.len() * PAGE_SIZE_4K,
        spec_run(s, os).split_until == s.split_until,
        spec_run(s, os).base == s.base,
        spec_run(s, os).end == s.end,
    decreases os.len(),
{
    if os.len() == 0 {
    } else {
        let o = os[0];
        // in a split block the pending attempt is 4KB, so only settling
        // outcomes are enabled
        assert(settles(o));
        let s1 = s.spec_apply(o);
        lemma_apply_wf(s, o);
        let req = s.spec_next()->Some_0;
        let rest = trace_attempts(s1, os.drop_first());
        let (c, u) = (s.cursor, s.split_until);
        assert(c + 4096 <= u) by (bit_vector)
            requires
                c % 4096u64 == 0,
                u % 0x200000u64 == 0,
                c < u,
        ;
        assert(s1.cursor == s.cursor + PAGE_SIZE_4K);
        lemma_mul_dist(os.len() as int, PAGE_SIZE_4K as int);
        if os.len() > 1 {
            lemma_split_attempts(s1, os.drop_first());
        } else {
            assert(trace_attempts(s1, os.drop_first()) =~= Seq::<AcceptRequest>::empty());
            assert(spec_run(s1, os.drop_first()) == s1);
        }
        assert(trace_attempts(s, os) == seq![req] + rest);
        assert forall|i: int| 0 <= i < os.len() implies {
            let r = #[trigger] trace_attempts(s, os)[i];
            r.level == PageLevel::Size4K && r.address == s.cursor + i * PAGE_SIZE_4K
        } by {
            if i > 0 {
                assert(trace_attempts(s, os)[i] == rest[i - 1]);
                lemma_mul_dist(i, PAGE_SIZE_4K as int);
            }
        }
    }
}

} // verus!
