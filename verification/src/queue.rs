//! Compute-queue construction: EOP sizing, priority mapping, doorbell
//! page resolution, the create-queue argument assembly, and the ordered
//! teardown plan of a live queue.

use vstd::prelude::*;
use crate::ioctl::{
    CreateQueueArgs, KFD_IOC_QUEUE_TYPE_COMPUTE, KFD_IOC_QUEUE_TYPE_COMPUTE_AQL,
    KFD_IOC_QUEUE_TYPE_SDMA, KFD_IOC_QUEUE_TYPE_SDMA_XGMI,
};

verus! {

#[derive(Debug, Clone, Copy, PartialEq, Eq, Structural)]
pub enum QueueType {
    Compute,
    Sdma,
    ComputeAql,
    SdmaXgmi,
}

#[derive(Debug, Clone, Copy, PartialEq, Eq, Structural)]
pub enum QueuePriority {
    Minimum,
    Low,
    BelowNormal,
    Normal,
    AboveNormal,
    High,
    Maximum,
}

/// The wire discriminant of a queue type.
pub open spec fn spec_kfd_queue_type(t: QueueType) -> u32 {
    match t {
        QueueType::Compute => KFD_IOC_QUEUE_TYPE_COMPUTE,
        QueueType::Sdma => KFD_IOC_QUEUE_TYPE_SDMA,
        QueueType::ComputeAql => KFD_IOC_QUEUE_TYPE_COMPUTE_AQL,
        QueueType::SdmaXgmi => KFD_IOC_QUEUE_TYPE_SDMA_XGMI,
    }
}

pub fn kfd_queue_type(t: QueueType) -> (r: u32)
    ensures
        r == spec_kfd_queue_type(t),
{
    match t {
        QueueType::Compute => KFD_IOC_QUEUE_TYPE_COMPUTE,
        QueueType::Sdma => KFD_IOC_QUEUE_TYPE_SDMA,
        QueueType::ComputeAql => KFD_IOC_QUEUE_TYPE_COMPUTE_AQL,
        QueueType::SdmaXgmi => KFD_IOC_QUEUE_TYPE_SDMA_XGMI,
    }
}

/// The kernel priority level of each queue priority.
pub open spec fn spec_map_priority(p: QueuePriority) -> u32 {
    match p {
        QueuePriority::Minimum => 0,
        QueuePriority::Low => 3,
        QueuePriority::BelowNormal => 5,
        QueuePriority::Normal => 7,
        QueuePriority::AboveNormal => 9,
        QueuePriority::High => 11,
        QueuePriority::Maximum => 15,
    }
}

pub fn map_priority(p: QueuePriority) -> (r: u32)
    ensures
        r == spec_map_priority(p),
{
    match p {
        QueuePriority::Minimum => 0,
        QueuePriority::Low => 3,
        QueuePriority::BelowNormal => 5,
        QueuePriority::Normal => 7,
        QueuePriority::AboveNormal => 9,
        QueuePriority::High => 11,
        QueuePriority::Maximum => 15,
    }
}

/// EOP buffer bytes for an engine version: the 9.4 family only gets one
/// for compute queues; any other GFX8-or-later part always gets one.
pub open spec fn spec_eop_size(gfx_version: int, is_compute: bool) -> int {
    let major = (gfx_version / 10000) % 100;
    let minor = (gfx_version / 100) % 100;
    if major == 9 && minor == 4 {
        if is_compute {
            4096
        } else {
            0
        }
    } else if major >= 8 {
        4096
    } else {
        0
    }
}

pub fn calculate_eop_size(gfx_version: u32, is_compute: bool) -> (r: usize)
    ensures
        r == spec_eop_size(gfx_version as int, is_compute),
{
    let major = (gfx_version / 10000) % 100;
    let minor = (gfx_version / 100) % 100;
    if major == 9 && minor == 4 {
        if is_compute {
            4096
        } else {
            0
        }
    } else if major >= 8 {
        4096
    } else {
        0
    }
}

/// The doorbell page layout of a queue.
#[derive(Debug, Clone, Copy, PartialEq, Eq, Structural)]
pub struct DoorbellLayout {
    /// Doorbell page size: 8 KiB for SOC15 parts, 4 KiB before.
    pub page_size: u64,
    /// Page-aligned offset to hand to the doorbell mapping.
    pub mmap_offset: u64,
    /// Byte offset of this queue's doorbell within the mapped page.
    pub in_page_offset: u64,
}

/// Resolves the kernel doorbell offset into a page mapping plus an
/// in-page byte offset.
///
/// SOC15 parts (engine major 9 and later) use an 8 KiB doorbell page:
/// the mapping takes the page-aligned part of the kernel offset and the
/// queue's doorbell sits at the remainder, so the two always add back
/// up to the kernel offset.  Earlier parts map the kernel offset as is
/// with a 4 KiB page and no in-page offset.
pub fn doorbell_layout(gfx_version: u32, kernel_offset: u64) -> (r: DoorbellLayout)
    ensures
        r.page_size == if gfx_version >= 90000 {
            8192int
        } else {
            4096int
        },
        r.mmap_offset + r.in_page_offset == kernel_offset,
        r.in_page_offset < r.page_size,
        gfx_version >= 90000 ==> r.mmap_offset % 8192 == 0 && r.in_page_offset == kernel_offset
            % 8192,
        gfx_version < 90000 ==> r.mmap_offset == kernel_offset && r.in_page_offset == 0,
{
    if gfx_version >= 90000 {
        let page_size: u64 = 8192;
        let in_page_offset: u64 = kernel_offset % page_size;
        let mmap_offset: u64 = kernel_offset - in_page_offset;
        DoorbellLayout { page_size, mmap_offset, in_page_offset }
    } else {
        DoorbellLayout { page_size: 4096, mmap_offset: kernel_offset, in_page_offset: 0 }
    }
}

/// Everything the create-queue ioctl takes, assembled from the sized
/// and allocated resources.
///
/// Packet-processor (AQL) queues pass zero read/write pointer
/// addresses; every other queue points them at the pointer page, read
/// pointer first and write pointer exactly 8 bytes above it.
pub fn build_create_queue_args(
    gpu_id: u32,
    ring_base: u64,
    ring_size: u32,
    queue_type: QueueType,
    percentage: u32,
    priority: QueuePriority,
    sdma_engine_id: u32,
    ptr_base_va: u64,
    eop: Option<(u64, u64)>,
    cwsr: Option<(u64, u32, u32)>,
) -> (r: CreateQueueArgs)
    requires
        ptr_base_va + 8 <= u64::MAX,
    ensures
        r.ring_base_address == ring_base,
        r.ring_size == ring_size,
        r.gpu_id == gpu_id,
        r.queue_type == spec_kfd_queue_type(queue_type),
        r.queue_percentage == percentage,
        r.queue_priority == spec_map_priority(priority),
        r.sdma_engine_id == sdma_engine_id,
        queue_type == QueueType::ComputeAql ==> r.read_pointer_address == 0
            && r.write_pointer_address == 0,
        queue_type != QueueType::ComputeAql ==> r.read_pointer_address == ptr_base_va
            && r.write_pointer_address == ptr_base_va + 8,
        queue_type != QueueType::ComputeAql ==> r.write_pointer_address - r.read_pointer_address
            == 8,
        match eop {
            Some((addr, size)) => r.eop_buffer_address == addr && r.eop_buffer_size == size,
            None => r.eop_buffer_address == 0 && r.eop_buffer_size == 0,
        },
        match cwsr {
            Some((addr, area, stack)) => r.ctx_save_restore_address == addr
                && r.ctx_save_restore_size == area && r.ctl_stack_size == stack,
            None => r.ctx_save_restore_address == 0 && r.ctx_save_restore_size == 0
                && r.ctl_stack_size == 0,
        },
        r.doorbell_offset == 0,
        r.queue_id == 0,
{
    let (rptr, wptr): (u64, u64) = match queue_type {
        QueueType::ComputeAql => (0, 0),
        _ => (ptr_base_va, ptr_base_va + 8),
    };
    let (eop_addr, eop_size): (u64, u64) = match eop {
        Some((a, s)) => (a, s),
        None => (0, 0),
    };
    let (cwsr_addr, cwsr_area, cwsr_stack): (u64, u32, u32) = match cwsr {
        Some((a, s, c)) => (a, s, c),
        None => (0, 0, 0),
    };
    CreateQueueArgs {
        ring_base_address: ring_base,
        write_pointer_address: wptr,
        read_pointer_address: rptr,
        doorbell_offset: 0,
        ring_size,
        gpu_id,
        queue_type: kfd_queue_type(queue_type),
        queue_percentage: percentage,
        queue_priority: map_priority(priority),
        queue_id: 0,
        eop_buffer_address: eop_addr,
        eop_buffer_size: eop_size,
        ctx_save_restore_address: cwsr_addr,
        ctx_save_restore_size: cwsr_area,
        ctl_stack_size: cwsr_stack,
        sdma_engine_id,
        pad: 0,
    }
}

/// A live queue and the resources it owns.
#[derive(Debug, Clone, Copy, PartialEq, Eq, Structural)]
pub struct HsaQueue {
    pub queue_id: u32,
    /// Virtual address of the doorbell register.
    pub queue_doorbell: u64,
    /// Virtual address of the read pointer.
    pub queue_read_ptr: u64,
    /// Virtual address of the write pointer.
    pub queue_write_ptr: u64,
    /// Virtual address of the error-reason word.
    pub queue_err_reason: u64,
    /// Kernel handle of the EOP buffer, if one was sized.
    pub eop_handle: Option<u64>,
    /// Kernel handle of the context save/restore region, if one was sized.
    pub cwsr_handle: Option<u64>,
    /// Kernel handle of the pointer page.
    pub ptr_handle: Option<u64>,
    /// Kernel handle of the doorbell page mapping.
    pub doorbell_handle: Option<u64>,
}

/// One step of a queue teardown, to be performed in order.
#[derive(Debug, Clone, Copy, PartialEq, Eq, Structural)]
pub enum TeardownStep {
    /// Destroy the hardware queue; stops all GPU access.
    DestroyQueue(u32),
    /// Free one kernel memory handle.
    FreeHandle(u64),
}

/// Whether the plan frees `h` somewhere after its first step.
pub open spec fn plan_frees(s: Seq<TeardownStep>, h: u64) -> bool {
    exists|i: int| 1 <= i < s.len() && s[i] == TeardownStep::FreeHandle(h)
}

/// A plan that frees `h` still frees it after another step is appended.
proof fn lemma_plan_frees_push(s: Seq<TeardownStep>, e: TeardownStep, h: u64)
    requires
        plan_frees(s, h),
    ensures
        plan_frees(s.push(e), h),
{
    let i = choose|i: int| 1 <= i < s.len() && s[i] == TeardownStep::FreeHandle(h);
    assert(s.push(e)[i] == TeardownStep::FreeHandle(h));
}

/// The exact teardown plan of a queue: the destroy step, then one free
/// per owned handle — end-of-pipe buffer, context save area, pointer
/// page, doorbell mapping, in that order.
pub open spec fn spec_teardown(q: &HsaQueue) -> Seq<TeardownStep> {
    let s0 = seq![TeardownStep::DestroyQueue(q.queue_id)];
    let s1 = if q.eop_handle is Some {
        s0.push(TeardownStep::FreeHandle(q.eop_handle->0))
    } else {
        s0
    };
    let s2 = if q.cwsr_handle is Some {
        s1.push(TeardownStep::FreeHandle(q.cwsr_handle->0))
    } else {
        s1
    };
    let s3 = if q.ptr_handle is Some {
        s2.push(TeardownStep::FreeHandle(q.ptr_handle->0))
    } else {
        s2
    };
    if q.doorbell_handle is Some {
        s3.push(TeardownStep::FreeHandle(q.doorbell_handle->0))
    } else {
        s3
    }
}

/// The ordered teardown plan of a queue.
///
/// The plan is exactly `spec_teardown`: the destroy-queue call comes
/// strictly first, so the GPU can no longer touch any buffer when the
/// handles — the doorbell mapping among them — are freed, and only the
/// handles the queue owns are freed.
pub fn teardown_steps(q: &HsaQueue) -> (r: Vec<TeardownStep>)
    ensures
        r@ == spec_teardown(q),
        r@.len() >= 1,
        r@[0] == TeardownStep::DestroyQueue(q.queue_id),
        forall|i: int| 1 <= i < r@.len() ==> (#[trigger] r@[i]) is FreeHandle,
        q.doorbell_handle is Some ==> plan_frees(r@, q.doorbell_handle->0),
        q.eop_handle is Some ==> plan_frees(r@, q.eop_handle->0),
        q.cwsr_handle is Some ==> plan_frees(r@, q.cwsr_handle->0),
        q.ptr_handle is Some ==> plan_frees(r@, q.ptr_handle->0),
{
    let mut r: Vec<TeardownStep> = Vec::new();
    r.push(TeardownStep::DestroyQueue(q.queue_id));
    if let Some(h) = q.eop_handle {
        let ghost pre = r@;
        r.push(TeardownStep::FreeHandle(h));
        proof {
            assert(r@[pre.len() as int] == TeardownStep::FreeHandle(h));
        }
    }
    if let Some(h) = q.cwsr_handle {
        let ghost pre = r@;
        r.push(TeardownStep::FreeHandle(h));
        proof {
            assert(r@[pre.len() as int] == TeardownStep::FreeHandle(h));
            if q.eop_handle is Some {
                lemma_plan_frees_push(pre, TeardownStep::FreeHandle(h), q.eop_handle->0);
            }
        }
    }
    if let Some(h) = q.ptr_handle {
        let ghost pre = r@;
        r.push(TeardownStep::FreeHandle(h));
        proof {
            assert(r@[pre.len() as int] == TeardownStep::FreeHandle(h));
            if q.eop_handle is Some {
                lemma_plan_frees_push(pre, TeardownStep::FreeHandle(h), q.eop_handle->0);
            }
            if q.cwsr_handle is Some {
                lemma_plan_frees_push(pre, TeardownStep::FreeHandle(h), q.cwsr_handle->0);
            }
        }
    }
    if let Some(h) = q.doorbell_handle {
        let ghost pre = r@;
        r.push(TeardownStep::FreeHandle(h));
        proof {
            assert(r@[pre.len() as int] == TeardownStep::FreeHandle(h));
            if q.eop_handle is Some {
                lemma_plan_frees_push(pre, TeardownStep::FreeHandle(h), q.eop_handle->0);
            }
            if q.cwsr_handle is Some {
                lemma_plan_frees_push(pre, TeardownStep::FreeHandle(h), q.cwsr_handle->0);
            }
            if q.ptr_handle is Some {
                lemma_plan_frees_push(pre, TeardownStep::FreeHandle(h), q.ptr_handle->0);
            }
        }
    }
    proof {
        assert(r@ =~= spec_teardown(q));
    }
    r
}

} // verus!
