use tdcall::accept::{
    accept_page_outcome, accept_request_operand, td_accept_memory, AcceptEngine, AcceptOutcome,
    AcceptRequest, PageLevel,
};
use tdcall::status::{
    TdCallError, TDCALL_STATUS_PAGE_ALREADY_ACCEPTED, TDCALL_STATUS_PAGE_SIZE_MISMATCH,
};

const PAGE_4K: u64 = 0x1000;
const PAGE_2M: u64 = 0x20_0000;

/// Drives the walk to completion, answering every attempt with the given
/// outcome, and returns the attempts in order.
fn drive(engine: &mut AcceptEngine, outcome: AcceptOutcome) -> Vec<AcceptRequest> {
    let mut attempts = Vec::new();
    while let Some(req) = engine.next_attempt() {
        attempts.push(req);
        engine.step(outcome);
    }
    attempts
}

#[test]
fn one_4k_page_issues_one_4k_attempt() {
    let mut e = td_accept_memory(0x10_0000, 0x1000);
    let attempts = drive(&mut e, AcceptOutcome::Accepted);
    assert_eq!(attempts.len(), 1);
    assert_eq!(attempts[0], AcceptRequest { address: 0x10_0000, level: PageLevel::Size4K });
    assert!(e.is_done());
    assert_eq!(e.cursor, 0x10_1000);
}

#[test]
fn aligned_2m_block_issues_one_2m_attempt() {
    let mut e = td_accept_memory(0x20_0000, PAGE_2M);
    let attempts = drive(&mut e, AcceptOutcome::Accepted);
    assert_eq!(attempts.len(), 1);
    assert_eq!(attempts[0], AcceptRequest { address: 0x20_0000, level: PageLevel::Size2M });
    assert!(e.is_done());
    assert_eq!(e.cursor, 0x40_0000);
}

#[test]
fn unaligned_2m_of_range_walks_4k_pages() {
    // 0x10_0000 is only 1MB-aligned, so no 2MB granule ever fits an
    // aligned block of this range: the walk covers 2MB in 512 4KB pages.
    let mut e = td_accept_memory(0x10_0000, PAGE_2M);
    let attempts = drive(&mut e, AcceptOutcome::Accepted);
    assert_eq!(attempts.len(), 512);
    for (i, req) in attempts.iter().enumerate() {
        assert_eq!(req.level, PageLevel::Size4K);
        assert_eq!(req.address, 0x10_0000 + i as u64 * PAGE_4K);
    }
    assert!(e.is_done());
    assert_eq!(e.cursor, 0x30_0000);
}

#[test]
fn size_mismatch_splits_into_512_4k_attempts() {
    let mut e = td_accept_memory(0x20_0000, PAGE_2M);
    let first = e.next_attempt().unwrap();
    assert_eq!(first, AcceptRequest { address: 0x20_0000, level: PageLevel::Size2M });
    e.step(AcceptOutcome::SizeMismatch);
    let mut split_attempts = Vec::new();
    while let Some(req) = e.next_attempt() {
        split_attempts.push(req);
        // every page of the split block tolerates re-acceptance on its own
        let outcome = if split_attempts.len() % 2 == 0 {
            AcceptOutcome::AlreadyAccepted
        } else {
            AcceptOutcome::Accepted
        };
        e.step(outcome);
    }
    assert_eq!(split_attempts.len(), 512);
    for (i, req) in split_attempts.iter().enumerate() {
        assert_eq!(req.level, PageLevel::Size4K);
        let addr = 0x20_0000 + i as u64 * PAGE_4K;
        assert_eq!(req.address, addr);
        assert_eq!(addr % PAGE_4K, 0);
        assert!(addr >= 0x20_0000 && addr < 0x40_0000);
    }
    // the walk completes: the overall call reports success
    assert!(e.is_done());
    assert_eq!(e.cursor, 0x40_0000);
}

#[test]
fn already_accepted_advances_like_accepted() {
    let mut fresh = td_accept_memory(0x30_0000, 3 * PAGE_4K);
    let mut redundant = td_accept_memory(0x30_0000, 3 * PAGE_4K);
    while let Some(req) = fresh.next_attempt() {
        assert_eq!(redundant.next_attempt(), Some(req));
        fresh.step(AcceptOutcome::Accepted);
        redundant.step(AcceptOutcome::AlreadyAccepted);
        assert_eq!(fresh, redundant);
    }
    assert!(redundant.is_done());
}

#[test]
fn attempts_tile_a_mixed_range_exactly() {
    // one 4KB page up to the 2MB boundary, one 2MB block, one 4KB tail
    let base = 0x1F_F000;
    let len = 0x20_2000;
    let mut e = td_accept_memory(base, len);
    let attempts = drive(&mut e, AcceptOutcome::Accepted);
    assert_eq!(attempts.len(), 3);
    assert_eq!(attempts[0], AcceptRequest { address: 0x1F_F000, level: PageLevel::Size4K });
    assert_eq!(attempts[1], AcceptRequest { address: 0x20_0000, level: PageLevel::Size2M });
    assert_eq!(attempts[2], AcceptRequest { address: 0x40_0000, level: PageLevel::Size4K });
    // no gaps, no overlaps: each attempt starts where the previous ended
    let mut pos = base;
    for req in &attempts {
        assert_eq!(req.address, pos);
        pos += match req.level {
            PageLevel::Size4K => PAGE_4K,
            PageLevel::Size2M => PAGE_2M,
        };
    }
    assert_eq!(pos, base + len);
    assert!(e.is_done());
}

#[test]
fn empty_range_issues_no_attempt() {
    let mut e = td_accept_memory(0x50_0000, 0);
    assert!(e.is_done());
    assert_eq!(e.next_attempt(), None);
    assert_eq!(drive(&mut e, AcceptOutcome::Accepted).len(), 0);
}

#[test]
fn walk_at_the_top_of_the_address_space() {
    // the highest 4KB-aligned range that still fits in a 64-bit address
    let base = 0xFFFF_FFFF_FFFF_C000;
    let mut e = td_accept_memory(base, 0x3000);
    let attempts = drive(&mut e, AcceptOutcome::Accepted);
    assert_eq!(attempts.len(), 3);
    for (i, req) in attempts.iter().enumerate() {
        assert_eq!(req.level, PageLevel::Size4K);
        assert_eq!(req.address, base + i as u64 * PAGE_4K);
    }
    assert!(e.is_done());
    assert_eq!(e.cursor, 0xFFFF_FFFF_FFFF_F000);
}

#[test]
fn outcome_classification() {
    assert_eq!(accept_page_outcome(&Ok(())), AcceptOutcome::Accepted);
    assert_eq!(
        accept_page_outcome(&Err(TdCallError::LeafSpecific(TDCALL_STATUS_PAGE_ALREADY_ACCEPTED))),
        AcceptOutcome::AlreadyAccepted
    );
    assert_eq!(
        accept_page_outcome(&Err(TdCallError::LeafSpecific(TDCALL_STATUS_PAGE_SIZE_MISMATCH))),
        AcceptOutcome::SizeMismatch
    );
    assert_eq!(
        accept_page_outcome(&Err(TdCallError::LeafSpecific(0x1234))),
        AcceptOutcome::Unrecoverable
    );
    assert_eq!(
        accept_page_outcome(&Err(TdCallError::OperandBusy)),
        AcceptOutcome::Unrecoverable
    );
    assert_eq!(
        accept_page_outcome(&Err(TdCallError::OperandInvalid)),
        AcceptOutcome::Unrecoverable
    );
}

#[test]
fn accept_operand_carries_the_level_bit() {
    let two_m = AcceptRequest { address: 0x20_0000, level: PageLevel::Size2M };
    let four_k = AcceptRequest { address: 0x20_1000, level: PageLevel::Size4K };
    assert_eq!(accept_request_operand(&two_m), 0x20_0001);
    assert_eq!(accept_request_operand(&four_k), 0x20_1000);
}
