use kfd_thunk::flags::{
    AllocFlags, KFD_IOC_ALLOC_MEM_FLAGS_COHERENT, KFD_IOC_ALLOC_MEM_FLAGS_GTT,
    KFD_IOC_ALLOC_MEM_FLAGS_NO_SUBSTITUTE, KFD_IOC_ALLOC_MEM_FLAGS_PUBLIC,
    KFD_IOC_ALLOC_MEM_FLAGS_VRAM, KFD_IOC_ALLOC_MEM_FLAGS_WRITABLE,
};
use kfd_thunk::ioctl::{io, ior, iow, iowr, GetVersionArgs, KFD_IOCTL_BASE};
use kfd_thunk::queue::{
    build_create_queue_args, calculate_eop_size, doorbell_layout, map_priority, teardown_steps,
    HsaQueue, QueuePriority, QueueType, TeardownStep,
};

#[test]
fn gtt_flags_translate_to_gtt_public_writable_coherent() {
    let f = AllocFlags::new().gtt();
    let bits = f.to_kfd_ioctl_flags();
    assert_eq!(
        bits,
        KFD_IOC_ALLOC_MEM_FLAGS_GTT
            | KFD_IOC_ALLOC_MEM_FLAGS_PUBLIC
            | KFD_IOC_ALLOC_MEM_FLAGS_WRITABLE
            | KFD_IOC_ALLOC_MEM_FLAGS_COHERENT
    );
}

#[test]
fn vram_no_substitute_rides_only_with_vram() {
    let with_vram = AllocFlags::new().vram().no_substitute().to_kfd_ioctl_flags();
    assert_eq!(
        with_vram,
        KFD_IOC_ALLOC_MEM_FLAGS_VRAM
            | KFD_IOC_ALLOC_MEM_FLAGS_NO_SUBSTITUTE
            | KFD_IOC_ALLOC_MEM_FLAGS_WRITABLE
    );
    let without_vram = AllocFlags::new().no_substitute().to_kfd_ioctl_flags();
    assert_eq!(without_vram, KFD_IOC_ALLOC_MEM_FLAGS_WRITABLE);
}

#[test]
fn read_only_drops_the_writable_bit() {
    let bits = AllocFlags::new().vram().read_only().to_kfd_ioctl_flags();
    assert_eq!(bits, KFD_IOC_ALLOC_MEM_FLAGS_VRAM);
}

#[test]
fn ioctl_request_codes_pack_as_the_kernel_expects() {
    // The classic read/write code of the version query.
    assert_eq!(ior::<GetVersionArgs>(KFD_IOCTL_BASE, 0x01), 0x8008_4B01);
    assert_eq!(io(KFD_IOCTL_BASE, 0x05), 0x0000_4B05);
    assert_eq!(iow::<u64>(KFD_IOCTL_BASE, 0x17), 0x4008_4B17);
    assert_eq!(iowr::<u64>(KFD_IOCTL_BASE, 0x16), 0xC008_4B16);
}

#[test]
fn priority_map_matches_the_kernel_levels() {
    assert_eq!(map_priority(QueuePriority::Minimum), 0);
    assert_eq!(map_priority(QueuePriority::Low), 3);
    assert_eq!(map_priority(QueuePriority::BelowNormal), 5);
    assert_eq!(map_priority(QueuePriority::Normal), 7);
    assert_eq!(map_priority(QueuePriority::AboveNormal), 9);
    assert_eq!(map_priority(QueuePriority::High), 11);
    assert_eq!(map_priority(QueuePriority::Maximum), 15);
}

#[test]
fn eop_sizing_by_generation() {
    // The 9.4 family sizes an EOP buffer only for compute queues.
    assert_eq!(calculate_eop_size(90402, true), 4096);
    assert_eq!(calculate_eop_size(90402, false), 0);
    // Any other GFX8+ part always gets one.
    assert_eq!(calculate_eop_size(90000, false), 4096);
    assert_eq!(calculate_eop_size(110000, true), 4096);
    // Pre-GFX8 parts get none.
    assert_eq!(calculate_eop_size(70000, true), 0);
}

#[test]
fn doorbell_layout_splits_soc15_offsets() {
    let l = doorbell_layout(90000, 0x3007_e008);
    assert_eq!(l.page_size, 8192);
    assert_eq!(l.mmap_offset % 8192, 0);
    assert_eq!(l.mmap_offset + l.in_page_offset, 0x3007_e008);
    assert_eq!(l.in_page_offset, 0x3007_e008 % 8192);

    let old = doorbell_layout(80001, 0x1234000);
    assert_eq!(old.page_size, 4096);
    assert_eq!(old.mmap_offset, 0x1234000);
    assert_eq!(old.in_page_offset, 0);
}

#[test]
fn create_queue_args_point_read_and_write_pointers_eight_apart() {
    let args = build_create_queue_args(
        0x1234,
        0x10_0000,
        0x10000,
        QueueType::Compute,
        100,
        QueuePriority::Normal,
        0,
        0x20_0000,
        Some((0x30_0000, 4096)),
        Some((0x40_0000, 0x8000, 0x2000)),
    );
    assert_eq!(args.read_pointer_address, 0x20_0000);
    assert_eq!(args.write_pointer_address, 0x20_0008);
    assert_eq!(args.write_pointer_address - args.read_pointer_address, 8);
    assert_eq!(args.queue_percentage, 100);
    assert_eq!(args.queue_priority, 7);
    assert_eq!(args.eop_buffer_address, 0x30_0000);
    assert_eq!(args.ctx_save_restore_address, 0x40_0000);
    assert_eq!(args.ctl_stack_size, 0x2000);
}

#[test]
fn aql_queues_pass_zero_pointers() {
    let args = build_create_queue_args(
        1,
        0,
        0,
        QueueType::ComputeAql,
        100,
        QueuePriority::Normal,
        0,
        0x20_0000,
        None,
        None,
    );
    assert_eq!(args.read_pointer_address, 0);
    assert_eq!(args.write_pointer_address, 0);
}

#[test]
fn teardown_destroys_the_queue_before_freeing_the_doorbell() {
    let q = HsaQueue {
        queue_id: 7,
        queue_doorbell: 0x1000,
        queue_read_ptr: 0x2000,
        queue_write_ptr: 0x2008,
        queue_err_reason: 0,
        eop_handle: Some(11),
        cwsr_handle: None,
        ptr_handle: Some(12),
        doorbell_handle: Some(13),
    };
    let steps = teardown_steps(&q);
    assert_eq!(steps[0], TeardownStep::DestroyQueue(7));
    let doorbell_pos = steps
        .iter()
        .position(|s| *s == TeardownStep::FreeHandle(13))
        .expect("the doorbell handle is freed");
    assert!(doorbell_pos >= 1, "the doorbell free comes after the queue destroy");
    assert!(steps.contains(&TeardownStep::FreeHandle(11)));
    assert!(steps.contains(&TeardownStep::FreeHandle(12)));
}

#[test]
fn teardown_plan_holds_exactly_the_owned_handles() {
    let q = HsaQueue {
        queue_id: 3,
        queue_doorbell: 0,
        queue_read_ptr: 0,
        queue_write_ptr: 8,
        queue_err_reason: 0,
        eop_handle: None,
        cwsr_handle: Some(21),
        ptr_handle: Some(22),
        doorbell_handle: None,
    };
    let steps = teardown_steps(&q);
    assert_eq!(
        steps,
        vec![
            TeardownStep::DestroyQueue(3),
            TeardownStep::FreeHandle(21),
            TeardownStep::FreeHandle(22),
        ],
        "no free step appears for a handle the queue does not own"
    );
}
