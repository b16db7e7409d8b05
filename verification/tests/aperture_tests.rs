use kfd_thunk::aperture::{Aperture, ApertureAllocator};

#[test]
fn allocate_respects_base_guard_and_alignment() {
    // One guard page, 4 KiB alignment, as the SVM apertures use.
    let mut ap = Aperture::new(0x1000_0000, 0x2000_0000, 4096, 1);
    let addr = ap.allocate_va(0x10000, 0).expect("first fit must succeed");
    // The tracked range starts at the aligned base; the address is one
    // guard page in.
    assert_eq!(addr, 0x1000_0000 + 4096);
    assert_eq!(ap.bounds(), (0x1000_0000, 0x2000_0000));
}

#[test]
fn allocations_are_disjoint_including_guards() {
    let mut ap = Aperture::new(0x1000, 0x100_0000, 4096, 1);
    let a = ap.allocate_va(0x1000, 0).unwrap();
    let b = ap.allocate_va(0x1000, 0).unwrap();
    // Each reservation occupies size + two guard pages.
    assert!(b >= a + 0x1000 + 4096);
}

#[test]
fn oversized_request_returns_none_not_panic() {
    let mut ap = Aperture::new(0x1000, 0x10_0000, 4096, 1);
    // Far larger than the aperture span.
    assert_eq!(ap.allocate_va(0x100_0000, 0), None);
    // The aperture is still usable afterwards.
    assert!(ap.allocate_va(0x1000, 0).is_some());
}

#[test]
fn free_returns_space_for_reuse() {
    let mut ap = Aperture::new(0x1000, 0x1_0000, 4096, 0);
    let a = ap.allocate_va(0x4000, 0).unwrap();
    let b = ap.allocate_va(0x4000, 0).unwrap();
    assert_ne!(a, b);
    ap.free_va(a, 0x4000);
    let c = ap.allocate_va(0x4000, 0).unwrap();
    // First fit reuses the freed hole.
    assert_eq!(c, a);
}

#[test]
fn free_of_untracked_address_is_tolerated() {
    let mut ap = Aperture::new(0x1000, 0x1_0000, 4096, 0);
    let a = ap.allocate_va(0x1000, 0).unwrap();
    ap.free_va(0xDEAD000, 0x1000);
    // The live reservation is untouched: the same address cannot be
    // handed out again.
    let b = ap.allocate_va(0x1000, 0).unwrap();
    assert_ne!(a, b);
}

#[test]
fn aperture_reclamation_survives_a_thousand_cycles() {
    // 1000 buffers of 64 KiB, dropped and reallocated: no VA leak.
    let span_base = 0x1_0000_0000u64;
    let span_limit = span_base + 1000 * (0x10000 + 2 * 4096) + 0x100_0000;
    let mut ap = Aperture::new(span_base, span_limit, 4096, 1);
    let mut first = Vec::new();
    for _ in 0..1000 {
        first.push(ap.allocate_va(0x10000, 0).expect("allocation within span"));
    }
    for addr in &first {
        ap.free_va(*addr, 0x10000);
    }
    let mut second = Vec::new();
    for _ in 0..1000 {
        second.push(ap.allocate_va(0x10000, 0).expect("reallocation after full reclaim"));
    }
    // With everything reclaimed, the second round lands on the same
    // addresses.
    assert_eq!(first, second);
}

#[test]
fn alignment_request_is_honored() {
    let mut ap = Aperture::new(0x1000, 0x1000_0000, 4096, 0);
    let a = ap.allocate_va(0x1000, 0x10000).unwrap();
    assert_eq!(a % 0x10000, 0);
}
