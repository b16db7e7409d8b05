//! The process-wide memory manager: SVM apertures, per-GPU
//! sub-apertures, and the virtual-address bookkeeping for every
//! allocation.
//!
//! The manager owns the pure bookkeeping.  The kernel calls of an
//! allocation (alloc, map, mmap) are performed by the caller between
//! [`MemoryManager::begin_allocate`] and
//! [`MemoryManager::complete_allocate`], with
//! [`MemoryManager::free_va_from_flags`] unwinding a reservation whose
//! kernel calls failed; plain values pass across in both directions.

use vstd::prelude::*;
use crate::aperture::{Aperture, ApertureAllocator};
use crate::error::{HsaError, HsaResult};
use crate::flags::{
    AllocFlags, spec_kfd_ioctl_flags, KFD_IOC_ALLOC_MEM_FLAGS_DOORBELL,
    KFD_IOC_ALLOC_MEM_FLAGS_WRITABLE, KFD_IOC_ALLOC_MEM_FLAGS_COHERENT,
    KFD_IOC_ALLOC_MEM_FLAGS_NO_SUBSTITUTE,
};
use crate::ioctl::ProcessDeviceApertures;
use crate::sysfs::HsaNodeProperties;

verus! {

/// Highest usable SVM address: the 47-bit canonical limit.
pub const SVM_RESERVATION_LIMIT: u64 = 0x7FFF_FFFF_FFFF;

/// Lowest SVM address: 256 MiB.
pub const SVM_MIN_BASE: u64 = 0x1000_0000;

/// Size of the alternate (fine-grained) SVM aperture: 4 GiB.
pub const SVM_ALT_SIZE: u64 = 0x1_0000_0000;

pub const SVM_DEFAULT_ALIGN: u64 = 4096;

pub const SVM_GUARD_PAGES: u64 = 1;

/// The kernel flags of a doorbell page allocation.
pub const DOORBELL_KERNEL_FLAGS: u32 = KFD_IOC_ALLOC_MEM_FLAGS_DOORBELL
    | KFD_IOC_ALLOC_MEM_FLAGS_WRITABLE | KFD_IOC_ALLOC_MEM_FLAGS_COHERENT
    | KFD_IOC_ALLOC_MEM_FLAGS_NO_SUBSTITUTE;

/// A completed memory allocation.
#[derive(Debug, Clone, Copy, PartialEq, Eq, Structural)]
pub struct Allocation {
    /// CPU virtual address of the host mapping; 0 when not host-mapped.
    pub cpu_ptr: u64,
    /// Size in bytes.
    pub size: usize,
    /// GPU virtual address.
    pub gpu_va: u64,
    /// Kernel allocation handle.
    pub handle: u64,
    /// Whether this wraps imported user memory.
    pub is_userptr: bool,
    /// Topology node the memory belongs to.
    pub node_id: u32,
}

/// Per-GPU apertures from the kernel process-aperture query.
pub struct GpuApertures {
    pub lds: Aperture,
    pub scratch: Aperture,
    pub gpuvm: Aperture,
}

/// Which aperture a request is routed to.
#[derive(Debug, Clone, Copy, PartialEq, Eq, Structural)]
pub enum ApertureClass {
    Scratch,
    Lds,
    SvmAlt,
    SvmDefault,
}

/// Scratch and LDS go to the per-node apertures; fine-grained, uncached
/// and doorbell requests go to the alternate SVM aperture; everything
/// else is coarse-grained default SVM.
pub open spec fn spec_route(f: AllocFlags) -> ApertureClass {
    if f.scratch {
        ApertureClass::Scratch
    } else if f.lds {
        ApertureClass::Lds
    } else if f.coherent || f.uncached || f.doorbell {
        ApertureClass::SvmAlt
    } else {
        ApertureClass::SvmDefault
    }
}

/// Requested sizes are raised to at least one page.
pub open spec fn spec_rounded_size(size: int) -> int {
    if size < 4096 {
        4096
    } else {
        size
    }
}

/// The prepared state of an allocation between the VA reservation and
/// the kernel calls that the caller performs.
#[derive(Debug, Clone, Copy, PartialEq, Eq, Structural)]
pub struct PendingAlloc {
    /// The reserved GPU virtual address.
    pub va_addr: u64,
    /// The page-rounded size.
    pub size: usize,
    /// The kernel allocation bitmask to pass to the alloc ioctl.
    pub ioc_flags: u32,
    /// The GPU id to allocate on (0 when the node has none).
    pub gpu_id: u32,
    /// The topology node the request was routed for.
    pub node_id: u32,
    /// The capability flags of the request.
    pub flags: AllocFlags,
    /// Whether the caller must mmap the range for host access.
    pub needs_host_map: bool,
    /// Whether the host mapping is read-only.
    pub map_read_only: bool,
    /// Whether the mmap goes through the kernel device fd rather than
    /// the render device fd.
    pub map_through_kfd: bool,
}

pub struct MemoryManager {
    /// Coarse-grained default SVM aperture.
    pub svm_aperture: Aperture,
    /// Fine-grained / uncached / doorbell SVM aperture.
    pub svm_alt_aperture: Aperture,
    /// Per-node apertures, keyed by node id.
    pub gpu_apertures: Vec<(u32, GpuApertures)>,
    /// Node id to kernel GPU id, keyed by node id in increasing order.
    pub node_to_gpu_id: Vec<(u32, u32)>,
    /// Live allocations, keyed by kernel handle.
    pub allocations: Vec<(u64, Allocation)>,
}

/// Whether `s` holds per-node apertures for `node`.
pub open spec fn has_gpu_entry(s: Seq<(u32, GpuApertures)>, node: u32) -> bool {
    exists|k: int| 0 <= k < s.len() && s[k].0 == node
}

/// Whether some node reports this kernel GPU id.
pub open spec fn spec_node_has_gpu(nodes: Seq<HsaNodeProperties>, gpu_id: u32) -> bool {
    exists|i: int| 0 <= i < nodes.len() && nodes[i].kfd_gpu_id == gpu_id
}

/// The largest GPUVM limit among the first `n` aperture records that
/// carry a nonzero GPU id belonging to a known node; 0 when there are
/// none.
pub open spec fn spec_max_gpuvm_limit(
    infos: Seq<ProcessDeviceApertures>,
    nodes: Seq<HsaNodeProperties>,
    n: int,
) -> int
    decreases n,
{
    if n <= 0 {
        0
    } else {
        let m = spec_max_gpuvm_limit(infos, nodes, n - 1);
        if infos[n - 1].gpu_id != 0 && spec_node_has_gpu(nodes, infos[n - 1].gpu_id) && infos[n
            - 1].gpuvm_limit > m {
            infos[n - 1].gpuvm_limit as int
        } else {
            m
        }
    }
}

/// Whether one per-node aperture entry carries exactly the ranges of
/// one kernel aperture record for a node with that GPU id.
pub open spec fn gpu_apertures_match(
    info: ProcessDeviceApertures,
    nodes: Seq<HsaNodeProperties>,
    entry: (u32, GpuApertures),
) -> bool {
    &&& info.gpu_id != 0
    &&& 0 <= entry.0 < nodes.len()
    &&& nodes[entry.0 as int].kfd_gpu_id == info.gpu_id
    &&& entry.1.lds.base == info.lds_base
    &&& entry.1.lds.limit == info.lds_limit
    &&& entry.1.lds.align == 4096
    &&& entry.1.lds.guard_pages == 0
    &&& entry.1.lds.allocations@.len() == 0
    &&& entry.1.scratch.base == info.scratch_base
    &&& entry.1.scratch.limit == info.scratch_limit
    &&& entry.1.scratch.align == 4096
    &&& entry.1.scratch.guard_pages == 0
    &&& entry.1.scratch.allocations@.len() == 0
    &&& entry.1.gpuvm.base == info.gpuvm_base
    &&& entry.1.gpuvm.limit == info.gpuvm_limit
    &&& entry.1.gpuvm.align == 4096
    &&& entry.1.gpuvm.guard_pages == SVM_GUARD_PAGES
    &&& entry.1.gpuvm.allocations@.len() == 0
}

/// Finds a node whose kernel GPU id is `gpu_id` in the node map.
fn find_node_by_gpu(map: &Vec<(u32, u32)>, gpu_id: u32) -> (r: Option<u32>)
    ensures
        match r {
            Some(n) => exists|i: int| 0 <= i < map@.len() && map@[i] == (n, gpu_id),
            None => forall|i: int| 0 <= i < map@.len() ==> (#[trigger] map@[i]).1 != gpu_id,
        },
{
    let n = map.len();
    let mut i: usize = 0;
    while i < n
        invariant
            n == map@.len(),
            0 <= i <= n,
            forall|k: int| 0 <= k < i ==> (#[trigger] map@[k]).1 != gpu_id,
        decreases n - i,
    {
        if map[i].1 == gpu_id {
            return Some(map[i].0);
        }
        i = i + 1;
    }
    None
}

/// The node map only holds nodes that exist and report that GPU id.
pub open spec fn node_map_sound(map: Seq<(u32, u32)>, nodes: Seq<HsaNodeProperties>) -> bool {
    forall|i: int|
        #![trigger map[i]]
        0 <= i < map.len() ==> {
            &&& 0 <= map[i].0 < nodes.len()
            &&& nodes[map[i].0 as int].kfd_gpu_id == map[i].1
            &&& map[i].1 != 0
        }
}

/// The node map keys strictly increase.
pub open spec fn node_map_sorted(map: Seq<(u32, u32)>) -> bool {
    forall|i: int, j: int|
        #![trigger map[i], map[j]]
        0 <= i < j < map.len() ==> map[i].0 < map[j].0
}

/// Node `n` has its entry in the map.
pub open spec fn node_covered(map: Seq<(u32, u32)>, n: int, nodes: Seq<HsaNodeProperties>) -> bool {
    exists|i: int| 0 <= i < map.len() && map[i] == (n as u32, nodes[n].kfd_gpu_id)
}

/// Every node below `bound` with a nonzero GPU id has its entry.
pub open spec fn node_map_complete(
    map: Seq<(u32, u32)>,
    bound: int,
    nodes: Seq<HsaNodeProperties>,
) -> bool {
    forall|n: int|
        0 <= n < bound && (#[trigger] nodes[n]).kfd_gpu_id != 0 ==> node_covered(map, n, nodes)
}

/// The entry was built from one of the first `n` aperture records.
pub open spec fn entry_from_prefix(
    infos: Seq<ProcessDeviceApertures>,
    n: int,
    nodes: Seq<HsaNodeProperties>,
    entry: (u32, GpuApertures),
) -> bool {
    exists|p: int| 0 <= p < n && gpu_apertures_match(#[trigger] infos[p], nodes, entry)
}

/// Every per-node entry was built from one of the first `n` records.
pub open spec fn entries_sound(
    infos: Seq<ProcessDeviceApertures>,
    n: int,
    nodes: Seq<HsaNodeProperties>,
    s: Seq<(u32, GpuApertures)>,
) -> bool {
    forall|k: int|
        #![trigger s[k]]
        0 <= k < s.len() ==> entry_from_prefix(infos, n, nodes, s[k])
}

/// The per-node entry keys are distinct.
pub open spec fn entries_unique(s: Seq<(u32, GpuApertures)>) -> bool {
    forall|i: int, j: int| #![trigger s[i], s[j]] 0 <= i < j < s.len() ==> s[i].0 != s[j].0
}

/// Some entry belongs to a node with this GPU id.
pub open spec fn gpu_covered(
    s: Seq<(u32, GpuApertures)>,
    nodes: Seq<HsaNodeProperties>,
    gpu_id: u32,
) -> bool {
    exists|k: int|
        0 <= k < s.len() && 0 <= (#[trigger] s[k]).0 < nodes.len() && nodes[s[k].0 as int].kfd_gpu_id
            == gpu_id
}

/// Every record among the first `n` with a nonzero GPU id of a known
/// node has per-node apertures.
pub open spec fn entries_complete(
    infos: Seq<ProcessDeviceApertures>,
    n: int,
    nodes: Seq<HsaNodeProperties>,
    s: Seq<(u32, GpuApertures)>,
) -> bool {
    forall|p: int|
        0 <= p < n && (#[trigger] infos[p]).gpu_id != 0 && spec_node_has_gpu(nodes, infos[p].gpu_id)
            ==> gpu_covered(s, nodes, infos[p].gpu_id)
}

proof fn lemma_entries_sound_mono(
    infos: Seq<ProcessDeviceApertures>,
    n: int,
    nodes: Seq<HsaNodeProperties>,
    s: Seq<(u32, GpuApertures)>,
)
    requires
        entries_sound(infos, n, nodes, s),
    ensures
        entries_sound(infos, n + 1, nodes, s),
{
    assert forall|k: int| #![trigger s[k]] 0 <= k < s.len() implies entry_from_prefix(
        infos,
        n + 1,
        nodes,
        s[k],
    ) by {
        let p = choose|p: int| 0 <= p < n && gpu_apertures_match(#[trigger] infos[p], nodes, s[k]);
        assert(gpu_apertures_match(infos[p], nodes, s[k]));
    }
}

/// Pushing an entry built from a record inside the prefix keeps the
/// soundness of every entry.
proof fn lemma_entries_grow(
    infos: Seq<ProcessDeviceApertures>,
    n: int,
    nodes: Seq<HsaNodeProperties>,
    pre: Seq<(u32, GpuApertures)>,
    e: (u32, GpuApertures),
)
    requires
        entries_sound(infos, n, nodes, pre),
        entry_from_prefix(infos, n, nodes, e),
    ensures
        entries_sound(infos, n, nodes, pre.push(e)),
{
    let s = pre.push(e);
    assert forall|k: int| #![trigger s[k]] 0 <= k < s.len() implies entry_from_prefix(
        infos,
        n,
        nodes,
        s[k],
    ) by {
        if k < pre.len() {
            assert(s[k] == pre[k]);
        } else {
            assert(s[k] == e);
        }
    }
}

/// A step of the construction loop keeps completeness: the old entries
/// are all still present (the sequence only grew at the end), and the
/// current record's GPU is covered.
proof fn lemma_entries_complete_step(
    infos: Seq<ProcessDeviceApertures>,
    i: int,
    nodes: Seq<HsaNodeProperties>,
    pre: Seq<(u32, GpuApertures)>,
    post: Seq<(u32, GpuApertures)>,
)
    requires
        0 <= i < infos.len(),
        entries_complete(infos, i, nodes, pre),
        post.len() >= pre.len(),
        forall|k: int| 0 <= k < pre.len() ==> post[k] == pre[k],
        gpu_covered(post, nodes, infos[i].gpu_id),
    ensures
        entries_complete(infos, i + 1, nodes, post),
{
    assert forall|p: int|
        0 <= p < i + 1 && (#[trigger] infos[p]).gpu_id != 0 && spec_node_has_gpu(
            nodes,
            infos[p].gpu_id,
        ) implies gpu_covered(post, nodes, infos[p].gpu_id) by {
        if p < i {
            let k = choose|k: int|
                0 <= k < pre.len() && 0 <= (#[trigger] pre[k]).0 < nodes.len()
                    && nodes[pre[k].0 as int].kfd_gpu_id == infos[p].gpu_id;
            assert(post[k] == pre[k]);
        }
    }
}

/// Two apertures with the same bounds, parameters and occupied list.
pub open spec fn ap_eq(a: Aperture, b: Aperture) -> bool {
    &&& a.base == b.base
    &&& a.limit == b.limit
    &&& a.align == b.align
    &&& a.guard_pages == b.guard_pages
    &&& a.allocations@ == b.allocations@
}

/// Two per-node aperture tables with equal entries.
pub open spec fn gpu_entries_eq(x: Seq<(u32, GpuApertures)>, y: Seq<(u32, GpuApertures)>) -> bool {
    &&& x.len() == y.len()
    &&& forall|k: int|
        #![trigger x[k], y[k]]
        0 <= k < x.len() ==> {
            &&& x[k].0 == y[k].0
            &&& ap_eq(x[k].1.lds, y[k].1.lds)
            &&& ap_eq(x[k].1.scratch, y[k].1.scratch)
            &&& ap_eq(x[k].1.gpuvm, y[k].1.gpuvm)
        }
}

/// Two managers with the same observable bookkeeping state.
pub open spec fn mgr_eq(a: &MemoryManager, b: &MemoryManager) -> bool {
    &&& ap_eq(a.svm_aperture, b.svm_aperture)
    &&& ap_eq(a.svm_alt_aperture, b.svm_alt_aperture)
    &&& gpu_entries_eq(a.gpu_apertures@, b.gpu_apertures@)
    &&& a.node_to_gpu_id@ == b.node_to_gpu_id@
    &&& a.allocations@ == b.allocations@
}

/// Relates two per-node tables where only the `which` aperture of the
/// entry at `k` reserved `size` bytes at `va`, and nothing else moved.
pub open spec fn gpu_entry_reserved(
    pre: Seq<(u32, GpuApertures)>,
    post: Seq<(u32, GpuApertures)>,
    k: int,
    scratch: bool,
    va: u64,
    size: int,
    align: u64,
) -> bool {
    &&& post.len() == pre.len()
    &&& 0 <= k < pre.len()
    &&& post[k].0 == pre[k].0
    &&& if scratch {
        &&& Aperture::reserved_in(pre[k].1.scratch, post[k].1.scratch, va, size, align)
        &&& ap_eq(post[k].1.lds, pre[k].1.lds)
        &&& ap_eq(post[k].1.gpuvm, pre[k].1.gpuvm)
    } else {
        &&& Aperture::reserved_in(pre[k].1.lds, post[k].1.lds, va, size, align)
        &&& ap_eq(post[k].1.scratch, pre[k].1.scratch)
        &&& ap_eq(post[k].1.gpuvm, pre[k].1.gpuvm)
    }
    &&& forall|j: int|
        #![trigger post[j]]
        0 <= j < pre.len() && j != k ==> {
            &&& post[j].0 == pre[j].0
            &&& ap_eq(post[j].1.lds, pre[j].1.lds)
            &&& ap_eq(post[j].1.scratch, pre[j].1.scratch)
            &&& ap_eq(post[j].1.gpuvm, pre[j].1.gpuvm)
        }
}

/// Like `gpu_entry_reserved`, for a free of `addr`.
pub open spec fn gpu_entry_freed(
    pre: Seq<(u32, GpuApertures)>,
    post: Seq<(u32, GpuApertures)>,
    k: int,
    scratch: bool,
    addr: u64,
) -> bool {
    &&& post.len() == pre.len()
    &&& 0 <= k < pre.len()
    &&& post[k].0 == pre[k].0
    &&& if scratch {
        &&& Aperture::freed_in(pre[k].1.scratch, post[k].1.scratch, addr)
        &&& ap_eq(post[k].1.lds, pre[k].1.lds)
        &&& ap_eq(post[k].1.gpuvm, pre[k].1.gpuvm)
    } else {
        &&& Aperture::freed_in(pre[k].1.lds, post[k].1.lds, addr)
        &&& ap_eq(post[k].1.scratch, pre[k].1.scratch)
        &&& ap_eq(post[k].1.gpuvm, pre[k].1.gpuvm)
    }
    &&& forall|j: int|
        #![trigger post[j]]
        0 <= j < pre.len() && j != k ==> {
            &&& post[j].0 == pre[j].0
            &&& ap_eq(post[j].1.lds, pre[j].1.lds)
            &&& ap_eq(post[j].1.scratch, pre[j].1.scratch)
            &&& ap_eq(post[j].1.gpuvm, pre[j].1.gpuvm)
        }
}

/// Relates a manager before and after the drop-path free of one
/// allocation: the virtual-address range returns to the aperture its
/// GPU address falls in — default SVM, alternate SVM, else the owning
/// node's scratch or LDS range — and every other aperture is untouched.
pub open spec fn va_returned(pre: &MemoryManager, post: &MemoryManager, a: Allocation) -> bool {
    let va = a.gpu_va;
    if pre.svm_aperture.base <= va < pre.svm_aperture.limit {
        &&& Aperture::freed_in(pre.svm_aperture, post.svm_aperture, va)
        &&& ap_eq(post.svm_alt_aperture, pre.svm_alt_aperture)
        &&& gpu_entries_eq(post.gpu_apertures@, pre.gpu_apertures@)
    } else if pre.svm_alt_aperture.base <= va < pre.svm_alt_aperture.limit {
        &&& Aperture::freed_in(pre.svm_alt_aperture, post.svm_alt_aperture, va)
        &&& ap_eq(post.svm_aperture, pre.svm_aperture)
        &&& gpu_entries_eq(post.gpu_apertures@, pre.gpu_apertures@)
    } else if has_gpu_entry(pre.gpu_apertures@, a.node_id) {
        &&& ap_eq(post.svm_aperture, pre.svm_aperture)
        &&& ap_eq(post.svm_alt_aperture, pre.svm_alt_aperture)
        &&& exists|k: int|
            (#[trigger] pre.gpu_apertures@[k]).0 == a.node_id && 0 <= k
                < pre.gpu_apertures@.len() && {
                let aps = pre.gpu_apertures@[k].1;
                if aps.scratch.base <= va < aps.scratch.limit {
                    gpu_entry_freed(pre.gpu_apertures@, post.gpu_apertures@, k, true, va)
                } else if aps.lds.base <= va < aps.lds.limit {
                    gpu_entry_freed(pre.gpu_apertures@, post.gpu_apertures@, k, false, va)
                } else {
                    gpu_entries_eq(post.gpu_apertures@, pre.gpu_apertures@)
                }
            }
    } else {
        &&& ap_eq(post.svm_aperture, pre.svm_aperture)
        &&& ap_eq(post.svm_alt_aperture, pre.svm_alt_aperture)
        &&& gpu_entries_eq(post.gpu_apertures@, pre.gpu_apertures@)
    }
}

/// Whether the per-node table already has an entry for `node_id`.
fn contains_key(s: &Vec<(u32, GpuApertures)>, node_id: u32) -> (r: bool)
    ensures
        r == has_gpu_entry(s@, node_id),
{
    let n = s.len();
    let mut i: usize = 0;
    while i < n
        invariant
            n == s@.len(),
            0 <= i <= n,
            forall|k: int| 0 <= k < i ==> (#[trigger] s@[k]).0 != node_id,
        decreases n - i,
    {
        if s[i].0 == node_id {
            return true;
        }
        i = i + 1;
    }
    false
}

impl MemoryManager {
    /// Structural invariant: every aperture is well formed and every
    /// key occurs once.
    pub open spec fn wf(&self) -> bool {
        &&& self.svm_aperture.wf()
        &&& self.svm_alt_aperture.wf()
        &&& forall|i: int|
            #![trigger self.gpu_apertures@[i]]
            0 <= i < self.gpu_apertures@.len() ==> {
                &&& self.gpu_apertures@[i].1.lds.wf()
                &&& self.gpu_apertures@[i].1.scratch.wf()
                &&& self.gpu_apertures@[i].1.gpuvm.wf()
            }
        &&& forall|i: int, j: int|
            #![trigger self.gpu_apertures@[i], self.gpu_apertures@[j]]
            0 <= i < j < self.gpu_apertures@.len() ==> self.gpu_apertures@[i].0
                != self.gpu_apertures@[j].0
        &&& forall|i: int, j: int|
            #![trigger self.node_to_gpu_id@[i], self.node_to_gpu_id@[j]]
            0 <= i < j < self.node_to_gpu_id@.len() ==> self.node_to_gpu_id@[i].0
                < self.node_to_gpu_id@[j].0
        &&& forall|i: int, j: int|
            #![trigger self.allocations@[i], self.allocations@[j]]
            0 <= i < j < self.allocations@.len() ==> self.allocations@[i].0
                != self.allocations@[j].0
        &&& forall|i: int|
            #![trigger self.allocations@[i]]
            0 <= i < self.allocations@.len() ==> self.allocations@[i].0
                == self.allocations@[i].1.handle
    }

    /// The node a request lands on: the one asked for, else the first
    /// GPU node, else node 0.
    pub open spec fn spec_chosen_node(&self, node_id: Option<u32>) -> u32 {
        match node_id {
            Some(n) => n,
            None => if self.node_to_gpu_id@.len() > 0 {
                self.node_to_gpu_id@[0].0
            } else {
                0
            },
        }
    }

    /// Looks up the kernel GPU id of a node; 0 when the node has none.
    pub fn gpu_id_of(&self, node_id: u32) -> (r: u32)
        ensures
            (exists|i: int|
                0 <= i < self.node_to_gpu_id@.len() && self.node_to_gpu_id@[i] == (node_id, r)) || (
            r == 0 && forall|i: int|
                0 <= i < self.node_to_gpu_id@.len() ==> (#[trigger] self.node_to_gpu_id@[i]).0
                    != node_id),
    {
        let n = self.node_to_gpu_id.len();
        let mut i: usize = 0;
        while i < n
            invariant
                n == self.node_to_gpu_id@.len(),
                0 <= i <= n,
                forall|k: int|
                    0 <= k < i ==> (#[trigger] self.node_to_gpu_id@[k]).0 != node_id,
            decreases n - i,
        {
            if self.node_to_gpu_id[i].0 == node_id {
                return self.node_to_gpu_id[i].1;
            }
            i = i + 1;
        }
        0
    }

    /// Builds the manager from the node table and the per-device
    /// aperture records of the kernel process-aperture query.
    ///
    /// Every record with a nonzero GPU id that belongs to a known node
    /// yields LDS and Scratch apertures (4 KiB aligned, no guards) and
    /// a GPUVM aperture (one guard page) for that node.  The alternate
    /// SVM aperture covers 4 GiB from 256 MiB; the default SVM aperture
    /// follows it up to the least of the GPUVM limits' maximum and the
    /// 47-bit canonical limit.
    pub fn new(infos: &Vec<ProcessDeviceApertures>, nodes: &Vec<HsaNodeProperties>) -> (r: Self)
        requires
            nodes@.len() <= u32::MAX,
        ensures
            r.wf(),
            r.allocations@.len() == 0,
            node_map_sound(r.node_to_gpu_id@, nodes@),
            node_map_complete(r.node_to_gpu_id@, nodes@.len() as int, nodes@),
            r.svm_alt_aperture.base == SVM_MIN_BASE,
            r.svm_alt_aperture.limit == SVM_MIN_BASE + SVM_ALT_SIZE - 1,
            r.svm_alt_aperture.align == SVM_DEFAULT_ALIGN,
            r.svm_alt_aperture.guard_pages == SVM_GUARD_PAGES,
            r.svm_alt_aperture.allocations@.len() == 0,
            r.svm_aperture.base == SVM_MIN_BASE + SVM_ALT_SIZE,
            ({
                let m = spec_max_gpuvm_limit(infos@, nodes@, infos@.len() as int);
                r.svm_aperture.limit == if m > 0 {
                    if m < SVM_RESERVATION_LIMIT as int {
                        m
                    } else {
                        SVM_RESERVATION_LIMIT as int
                    }
                } else {
                    SVM_RESERVATION_LIMIT as int
                }
            }),
            r.svm_aperture.align == SVM_DEFAULT_ALIGN,
            r.svm_aperture.guard_pages == SVM_GUARD_PAGES,
            r.svm_aperture.allocations@.len() == 0,
            entries_sound(infos@, infos@.len() as int, nodes@, r.gpu_apertures@),
            entries_complete(infos@, infos@.len() as int, nodes@, r.gpu_apertures@),
    {
        let mut node_to_gpu_id: Vec<(u32, u32)> = Vec::new();
        let num_nodes = nodes.len();
        let mut idx: usize = 0;
        while idx < num_nodes
            invariant
                num_nodes == nodes@.len(),
                nodes@.len() <= u32::MAX,
                0 <= idx <= num_nodes,
                node_map_sound(node_to_gpu_id@, nodes@),
                node_map_sorted(node_to_gpu_id@),
                node_map_complete(node_to_gpu_id@, idx as int, nodes@),
                forall|i: int|
                    #![trigger node_to_gpu_id@[i]]
                    0 <= i < node_to_gpu_id@.len() ==> node_to_gpu_id@[i].0 < idx,
            decreases num_nodes - idx,
        {
            let gid = nodes[idx].kfd_gpu_id;
            if gid != 0 {
                let ghost pre = node_to_gpu_id@;
                node_to_gpu_id.push((idx as u32, gid));
                proof {
                    assert forall|n: int|
                        0 <= n < idx + 1 && (#[trigger] nodes@[n]).kfd_gpu_id != 0 implies
                    node_covered(node_to_gpu_id@, n, nodes@) by {
                        if n == idx as int {
                            assert(node_to_gpu_id@[pre.len() as int] == ((idx as u32), gid));
                        } else {
                            let i2 = choose|i2: int|
                                0 <= i2 < pre.len() && pre[i2] == (n as u32, nodes@[n].kfd_gpu_id);
                            assert(node_to_gpu_id@[i2] == pre[i2]);
                        }
                    }
                }
            }
            idx = idx + 1;
        }

        let mut gpu_apertures: Vec<(u32, GpuApertures)> = Vec::new();
        let mut max_gpuvm_limit: u64 = 0;
        let num_infos = infos.len();
        let mut i: usize = 0;
        while i < num_infos
            invariant
                num_infos == infos@.len(),
                nodes@.len() <= u32::MAX,
                0 <= i <= num_infos,
                node_map_sound(node_to_gpu_id@, nodes@),
                node_map_sorted(node_to_gpu_id@),
                node_map_complete(node_to_gpu_id@, nodes@.len() as int, nodes@),
                max_gpuvm_limit == spec_max_gpuvm_limit(infos@, nodes@, i as int),
                entries_sound(infos@, i as int, nodes@, gpu_apertures@),
                entries_unique(gpu_apertures@),
                entries_complete(infos@, i as int, nodes@, gpu_apertures@),
            decreases num_infos - i,
        {
            let info = infos[i];
            proof {
                lemma_entries_sound_mono(infos@, i as int, nodes@, gpu_apertures@);
            }
            if info.gpu_id != 0 {
                let found = find_node_by_gpu(&node_to_gpu_id, info.gpu_id);
                match found {
                    Some(node_id) => {
                        proof {
                            let w = choose|q: int|
                                0 <= q < node_to_gpu_id@.len() && node_to_gpu_id@[q] == (
                                node_id,
                                info.gpu_id,
                                );
                            assert(node_to_gpu_id@[w] == (node_id, info.gpu_id));
                            assert(nodes@[node_id as int].kfd_gpu_id == info.gpu_id);
                            assert(spec_node_has_gpu(nodes@, info.gpu_id));
                        }
                        if info.gpuvm_limit > max_gpuvm_limit {
                            max_gpuvm_limit = info.gpuvm_limit;
                        }
                        let present = contains_key(&gpu_apertures, node_id);
                        let ghost pre = gpu_apertures@;
                        if !present {
                            let lds = Aperture::new(info.lds_base, info.lds_limit, 4096, 0);
                            let scratch = Aperture::new(
                                info.scratch_base,
                                info.scratch_limit,
                                4096,
                                0,
                            );
                            let gpuvm = Aperture::new(
                                info.gpuvm_base,
                                info.gpuvm_limit,
                                4096,
                                SVM_GUARD_PAGES,
                            );
                            gpu_apertures.push((node_id, GpuApertures { lds, scratch, gpuvm }));
                            proof {
                                assert(gpu_apertures_match(
                                    infos@[i as int],
                                    nodes@,
                                    gpu_apertures@[pre.len() as int],
                                ));
                                lemma_entries_grow(infos@, (i + 1) as int, nodes@, pre, gpu_apertures@[pre.len() as int]);
                                assert(gpu_covered(gpu_apertures@, nodes@, info.gpu_id));
                            }
                        } else {
                            proof {
                                let q = choose|q: int|
                                    0 <= q < pre.len() && (#[trigger] pre[q]).0 == node_id;
                                assert(gpu_covered(gpu_apertures@, nodes@, info.gpu_id));
                            }
                        }
                        proof {
                            lemma_entries_complete_step(
                                infos@,
                                i as int,
                                nodes@,
                                pre,
                                gpu_apertures@,
                            );
                        }
                    },
                    None => {
                        proof {
                            assert forall|n: int|
                                0 <= n < nodes@.len() implies (#[trigger] nodes@[n]).kfd_gpu_id
                                != info.gpu_id by {
                                if nodes@[n].kfd_gpu_id != 0 {
                                    assert(node_covered(node_to_gpu_id@, n, nodes@));
                                    let i2 = choose|i2: int|
                                        0 <= i2 < node_to_gpu_id@.len() && node_to_gpu_id@[i2] == (
                                        n as u32,
                                        nodes@[n].kfd_gpu_id,
                                        );
                                }
                            }
                            assert(!spec_node_has_gpu(nodes@, info.gpu_id));
                        }
                    },
                }
            }
            i = i + 1;
        }

        let svm_limit: u64 = if max_gpuvm_limit > 0 {
            if max_gpuvm_limit < SVM_RESERVATION_LIMIT {
                max_gpuvm_limit
            } else {
                SVM_RESERVATION_LIMIT
            }
        } else {
            SVM_RESERVATION_LIMIT
        };
        let alt_base: u64 = SVM_MIN_BASE;
        let alt_limit: u64 = alt_base + SVM_ALT_SIZE - 1;
        let def_base: u64 = alt_limit + 1;

        let svm_alt_aperture = Aperture::new(alt_base, alt_limit, SVM_DEFAULT_ALIGN, SVM_GUARD_PAGES);
        let svm_aperture = Aperture::new(def_base, svm_limit, SVM_DEFAULT_ALIGN, SVM_GUARD_PAGES);

        MemoryManager {
            svm_aperture,
            svm_alt_aperture,
            gpu_apertures,
            node_to_gpu_id,
            allocations: Vec::new(),
        }
    }

    /// Index of the per-node apertures of `node_id`, if any.
    fn find_gpu_apertures(&self, node_id: u32) -> (r: Option<usize>)
        ensures
            match r {
                Some(k) => 0 <= k < self.gpu_apertures@.len() && self.gpu_apertures@[k as int].0
                    == node_id,
                None => !has_gpu_entry(self.gpu_apertures@, node_id),
            },
    {
        let n = self.gpu_apertures.len();
        let mut i: usize = 0;
        while i < n
            invariant
                n == self.gpu_apertures@.len(),
                0 <= i <= n,
                forall|k: int|
                    0 <= k < i ==> (#[trigger] self.gpu_apertures@[k]).0 != node_id,
            decreases n - i,
        {
            if self.gpu_apertures[i].0 == node_id {
                return Some(i);
            }
            i = i + 1;
        }
        None
    }

    /// Reserves the virtual address range of an allocation and computes
    /// everything the kernel calls will need.
    ///
    /// The size is raised to at least one page.  The request routes to
    /// the scratch or LDS aperture of the chosen node, to the alternate
    /// SVM aperture for fine-grained, uncached or doorbell memory, or
    /// to the default SVM aperture.  `Err(InvalidNodeId)` is returned
    /// exactly when a scratch or LDS request names a node without
    /// apertures; a full aperture gives `Err(OutOfMemory)`; on any
    /// error nothing changes.  An empty SVM aperture with room for the
    /// aligned request is promised to succeed.
    pub fn begin_allocate(
        &mut self,
        size: usize,
        align: usize,
        flags: AllocFlags,
        node_id: Option<u32>,
    ) -> (r: HsaResult<PendingAlloc>)
        requires
            old(self).wf(),
        ensures
            final(self).wf(),
            final(self).node_to_gpu_id@ == old(self).node_to_gpu_id@,
            final(self).allocations@ == old(self).allocations@,
            r is Err ==> mgr_eq(final(self), old(self)),
            r is Err ==> r == Err::<PendingAlloc, HsaError>(HsaError::OutOfMemory) || r == Err::<
                PendingAlloc,
                HsaError,
            >(HsaError::InvalidNodeId(old(self).spec_chosen_node(node_id))),
            ((spec_route(flags) == ApertureClass::Scratch || spec_route(flags)
                == ApertureClass::Lds) && !has_gpu_entry(
                old(self).gpu_apertures@,
                old(self).spec_chosen_node(node_id),
            )) <==> r == Err::<PendingAlloc, HsaError>(
                HsaError::InvalidNodeId(old(self).spec_chosen_node(node_id)),
            ),
            r is Ok ==> {
                let p = r->Ok_0;
                let nid = old(self).spec_chosen_node(node_id);
                let rsize = spec_rounded_size(size as int);
                &&& p.node_id == nid
                &&& p.size == rsize
                &&& p.ioc_flags == spec_kfd_ioctl_flags(flags)
                &&& p.flags == flags
                &&& p.needs_host_map == (flags.host_access || flags.doorbell)
                &&& p.map_read_only == flags.read_only
                &&& p.map_through_kfd == flags.doorbell
                &&& ((exists|i: int|
                    0 <= i < old(self).node_to_gpu_id@.len() && old(self).node_to_gpu_id@[i] == (
                    nid,
                    p.gpu_id,
                    )) || (p.gpu_id == 0 && forall|i: int|
                    0 <= i < old(self).node_to_gpu_id@.len() ==> (#[trigger] old(
                        self,
                    ).node_to_gpu_id@[i]).0 != nid))
                &&& match spec_route(flags) {
                    ApertureClass::SvmDefault => {
                        &&& Aperture::reserved_in(
                            old(self).svm_aperture,
                            final(self).svm_aperture,
                            p.va_addr,
                            rsize,
                            align as u64,
                        )
                        &&& ap_eq(final(self).svm_alt_aperture, old(self).svm_alt_aperture)
                        &&& gpu_entries_eq(final(self).gpu_apertures@, old(self).gpu_apertures@)
                    },
                    ApertureClass::SvmAlt => {
                        &&& Aperture::reserved_in(
                            old(self).svm_alt_aperture,
                            final(self).svm_alt_aperture,
                            p.va_addr,
                            rsize,
                            align as u64,
                        )
                        &&& ap_eq(final(self).svm_aperture, old(self).svm_aperture)
                        &&& gpu_entries_eq(final(self).gpu_apertures@, old(self).gpu_apertures@)
                    },
                    ApertureClass::Scratch => {
                        &&& ap_eq(final(self).svm_aperture, old(self).svm_aperture)
                        &&& ap_eq(final(self).svm_alt_aperture, old(self).svm_alt_aperture)
                        &&& exists|k: int|
                            (#[trigger] old(self).gpu_apertures@[k]).0 == nid && gpu_entry_reserved(
                                old(self).gpu_apertures@,
                                final(self).gpu_apertures@,
                                k,
                                true,
                                p.va_addr,
                                rsize,
                                align as u64,
                            )
                    },
                    ApertureClass::Lds => {
                        &&& ap_eq(final(self).svm_aperture, old(self).svm_aperture)
                        &&& ap_eq(final(self).svm_alt_aperture, old(self).svm_alt_aperture)
                        &&& exists|k: int|
                            (#[trigger] old(self).gpu_apertures@[k]).0 == nid && gpu_entry_reserved(
                                old(self).gpu_apertures@,
                                final(self).gpu_apertures@,
                                k,
                                false,
                                p.va_addr,
                                rsize,
                                align as u64,
                            )
                    },
                }
            },
            spec_route(flags) == ApertureClass::SvmDefault ==> (r is Ok <==> old(
                self,
            ).svm_aperture.spec_first_fit(spec_rounded_size(size as int), align as u64) is Some),
            spec_route(flags) == ApertureClass::SvmAlt ==> (r is Ok <==> old(
                self,
            ).svm_alt_aperture.spec_first_fit(
                spec_rounded_size(size as int),
                align as u64,
            ) is Some),
            (spec_route(flags) == ApertureClass::SvmDefault && old(
                self,
            ).svm_aperture.allocations@.len() == 0 && old(self).svm_aperture.base + old(
                self,
            ).svm_aperture.eff_align(align as u64) - 1 + spec_rounded_size(size as int) + 2 * old(
                self,
            ).svm_aperture.guard_bytes() <= old(self).svm_aperture.limit) ==> r is Ok,
            (spec_route(flags) == ApertureClass::SvmAlt && old(
                self,
            ).svm_alt_aperture.allocations@.len() == 0 && old(self).svm_alt_aperture.base + old(
                self,
            ).svm_alt_aperture.eff_align(align as u64) - 1 + spec_rounded_size(size as int) + 2
                * old(self).svm_alt_aperture.guard_bytes() <= old(self).svm_alt_aperture.limit)
                ==> r is Ok,
    {
        let nid: u32 = match node_id {
            Some(n) => n,
            None => if self.node_to_gpu_id.len() > 0 {
                self.node_to_gpu_id[0].0
            } else {
                0
            },
        };
        let rsize: usize = if size < 4096 {
            4096
        } else {
            size
        };
        let gpu_id = self.gpu_id_of(nid);
        if flags.scratch || flags.lds {
            let kopt = self.find_gpu_apertures(nid);
            match kopt {
                None => Err(HsaError::InvalidNodeId(nid)),
                Some(k) => {
                    let ghost pre = self.gpu_apertures@;
                    let mut entry = self.gpu_apertures.remove(k);
                    let res = if flags.scratch {
                        entry.1.scratch.allocate_va(rsize, align)
                    } else {
                        entry.1.lds.allocate_va(rsize, align)
                    };
                    self.gpu_apertures.insert(k, entry);
                    proof {
                        assert(self.gpu_apertures@ =~= pre.update(
                            k as int,
                            self.gpu_apertures@[k as int],
                        ));
                    }
                    match res {
                        None => {
                            proof {
                                assert(gpu_entries_eq(self.gpu_apertures@, pre));
                            }
                            Err(HsaError::OutOfMemory)
                        },
                        Some(va) => Ok(
                            PendingAlloc {
                                va_addr: va,
                                size: rsize,
                                ioc_flags: flags.to_kfd_ioctl_flags(),
                                gpu_id,
                                node_id: nid,
                                flags,
                                needs_host_map: flags.host_access || flags.doorbell,
                                map_read_only: flags.read_only,
                                map_through_kfd: flags.doorbell,
                            },
                        ),
                    }
                },
            }
        } else if flags.coherent || flags.uncached || flags.doorbell {
            match self.svm_alt_aperture.allocate_va(rsize, align) {
                None => Err(HsaError::OutOfMemory),
                Some(va) => Ok(
                    PendingAlloc {
                        va_addr: va,
                        size: rsize,
                        ioc_flags: flags.to_kfd_ioctl_flags(),
                        gpu_id,
                        node_id: nid,
                        flags,
                        needs_host_map: flags.host_access || flags.doorbell,
                        map_read_only: flags.read_only,
                        map_through_kfd: flags.doorbell,
                    },
                ),
            }
        } else {
            match self.svm_aperture.allocate_va(rsize, align) {
                None => Err(HsaError::OutOfMemory),
                Some(va) => Ok(
                    PendingAlloc {
                        va_addr: va,
                        size: rsize,
                        ioc_flags: flags.to_kfd_ioctl_flags(),
                        gpu_id,
                        node_id: nid,
                        flags,
                        needs_host_map: flags.host_access || flags.doorbell,
                        map_read_only: flags.read_only,
                        map_through_kfd: flags.doorbell,
                    },
                ),
            }
        }
    }

    /// Returns a reserved range to the aperture it was drawn from.
    ///
    /// Used both to unwind a failed allocation and on the drop path.
    /// The range routes by the same rule as the reservation; a scratch
    /// or LDS free for an unknown node changes nothing.
    pub fn free_va_from_flags(&mut self, addr: u64, _size: usize, flags: &AllocFlags, node_id: u32)
        requires
            old(self).wf(),
        ensures
            final(self).wf(),
            final(self).node_to_gpu_id@ == old(self).node_to_gpu_id@,
            final(self).allocations@ == old(self).allocations@,
            match spec_route(*flags) {
                ApertureClass::SvmDefault => {
                    &&& Aperture::freed_in(old(self).svm_aperture, final(self).svm_aperture, addr)
                    &&& ap_eq(final(self).svm_alt_aperture, old(self).svm_alt_aperture)
                    &&& gpu_entries_eq(final(self).gpu_apertures@, old(self).gpu_apertures@)
                },
                ApertureClass::SvmAlt => {
                    &&& Aperture::freed_in(
                        old(self).svm_alt_aperture,
                        final(self).svm_alt_aperture,
                        addr,
                    )
                    &&& ap_eq(final(self).svm_aperture, old(self).svm_aperture)
                    &&& gpu_entries_eq(final(self).gpu_apertures@, old(self).gpu_apertures@)
                },
                ApertureClass::Scratch => {
                    &&& ap_eq(final(self).svm_aperture, old(self).svm_aperture)
                    &&& ap_eq(final(self).svm_alt_aperture, old(self).svm_alt_aperture)
                    &&& if has_gpu_entry(old(self).gpu_apertures@, node_id) {
                        exists|k: int|
                            (#[trigger] old(self).gpu_apertures@[k]).0 == node_id
                                && gpu_entry_freed(
                                old(self).gpu_apertures@,
                                final(self).gpu_apertures@,
                                k,
                                true,
                                addr,
                            )
                    } else {
                        gpu_entries_eq(final(self).gpu_apertures@, old(self).gpu_apertures@)
                    }
                },
                ApertureClass::Lds => {
                    &&& ap_eq(final(self).svm_aperture, old(self).svm_aperture)
                    &&& ap_eq(final(self).svm_alt_aperture, old(self).svm_alt_aperture)
                    &&& if has_gpu_entry(old(self).gpu_apertures@, node_id) {
                        exists|k: int|
                            (#[trigger] old(self).gpu_apertures@[k]).0 == node_id
                                && gpu_entry_freed(
                                old(self).gpu_apertures@,
                                final(self).gpu_apertures@,
                                k,
                                false,
                                addr,
                            )
                    } else {
                        gpu_entries_eq(final(self).gpu_apertures@, old(self).gpu_apertures@)
                    }
                },
            },
    {
        if flags.scratch || flags.lds {
            let kopt = self.find_gpu_apertures(node_id);
            match kopt {
                None => (),
                Some(k) => {
                    let ghost pre = self.gpu_apertures@;
                    let mut entry = self.gpu_apertures.remove(k);
                    if flags.scratch {
                        entry.1.scratch.free_va(addr, _size);
                    } else {
                        entry.1.lds.free_va(addr, _size);
                    }
                    self.gpu_apertures.insert(k, entry);
                    proof {
                        assert(self.gpu_apertures@ =~= pre.update(
                            k as int,
                            self.gpu_apertures@[k as int],
                        ));
                    }
                },
            }
        } else if flags.coherent || flags.uncached || flags.doorbell {
            self.svm_alt_aperture.free_va(addr, _size);
        } else {
            self.svm_aperture.free_va(addr, _size);
        }
    }

    /// Reserves the range of a doorbell page mapping from the
    /// alternate SVM aperture.
    ///
    /// Doorbell pages carry the fixed kernel flags
    /// `DOORBELL | WRITABLE | COHERENT | NO_SUBSTITUTE`, are mapped
    /// through the kernel device, and stay alive for the owning
    /// queue's lifetime.  A full aperture gives `Err(OutOfMemory)` and
    /// changes nothing.
    pub fn begin_map_doorbell(&mut self, node_id: u32, gpu_id: u32, size: usize) -> (r: HsaResult<
        PendingAlloc,
    >)
        requires
            old(self).wf(),
            size >= 1,
        ensures
            final(self).wf(),
            final(self).node_to_gpu_id@ == old(self).node_to_gpu_id@,
            final(self).allocations@ == old(self).allocations@,
            r is Err ==> mgr_eq(final(self), old(self)) && r == Err::<PendingAlloc, HsaError>(
                HsaError::OutOfMemory,
            ),
            r is Ok ==> {
                let p = r->Ok_0;
                &&& p.node_id == node_id
                &&& p.gpu_id == gpu_id
                &&& p.size == size
                &&& p.ioc_flags == DOORBELL_KERNEL_FLAGS
                &&& p.flags.doorbell
                &&& p.needs_host_map
                &&& !p.map_read_only
                &&& p.map_through_kfd
                &&& Aperture::reserved_in(
                    old(self).svm_alt_aperture,
                    final(self).svm_alt_aperture,
                    p.va_addr,
                    size as int,
                    4096,
                )
                &&& ap_eq(final(self).svm_aperture, old(self).svm_aperture)
                &&& gpu_entries_eq(final(self).gpu_apertures@, old(self).gpu_apertures@)
            },
            r is Ok <==> old(self).svm_alt_aperture.spec_first_fit(size as int, 4096) is Some,
            (old(self).svm_alt_aperture.allocations@.len() == 0 && old(
                self,
            ).svm_alt_aperture.base + old(self).svm_alt_aperture.eff_align(4096) - 1 + size + 2
                * old(self).svm_alt_aperture.guard_bytes() <= old(self).svm_alt_aperture.limit)
                ==> r is Ok,
    {
        match self.svm_alt_aperture.allocate_va(size, 4096) {
            None => Err(HsaError::OutOfMemory),
            Some(va) => Ok(
                PendingAlloc {
                    va_addr: va,
                    size,
                    ioc_flags: DOORBELL_KERNEL_FLAGS,
                    gpu_id,
                    node_id,
                    flags: AllocFlags {
                        vram: false,
                        gtt: false,
                        doorbell: true,
                        host_access: false,
                        read_only: false,
                        execute_access: false,
                        coherent: true,
                        uncached: false,
                        aql_queue_mem: false,
                        no_substitute: true,
                        contiguous: false,
                        extended_coherent: false,
                        scratch: false,
                        lds: false,
                    },
                    needs_host_map: true,
                    map_read_only: false,
                    map_through_kfd: true,
                },
            ),
        }
    }

    /// Records a finished allocation under its kernel handle.
    ///
    /// Called after the kernel alloc, GPU map and host mmap succeeded.
    /// A record with the same handle, if any, is replaced.
    pub fn complete_allocate(&mut self, p: &PendingAlloc, handle: u64, cpu_ptr: u64) -> (a:
        Allocation)
        requires
            old(self).wf(),
        ensures
            final(self).wf(),
            a == (Allocation {
                cpu_ptr,
                size: p.size,
                gpu_va: p.va_addr,
                handle,
                is_userptr: false,
                node_id: p.node_id,
            }),
            ap_eq(final(self).svm_aperture, old(self).svm_aperture),
            ap_eq(final(self).svm_alt_aperture, old(self).svm_alt_aperture),
            gpu_entries_eq(final(self).gpu_apertures@, old(self).gpu_apertures@),
            final(self).node_to_gpu_id@ == old(self).node_to_gpu_id@,
            exists|k: int|
                0 <= k < final(self).allocations@.len() && final(self).allocations@[k] == (
                handle,
                a,
                ),
            (exists|k: int|
                0 <= k < old(self).allocations@.len() && (#[trigger] old(
                    self,
                ).allocations@[k]).0 == handle && final(self).allocations@ == old(
                    self,
                ).allocations@.update(k, (handle, a))) || ((forall|k: int|
                0 <= k < old(self).allocations@.len() ==> (#[trigger] old(
                    self,
                ).allocations@[k]).0 != handle) && final(self).allocations@ == old(
                self,
            ).allocations@.push((handle, a))),
    {
        let a = Allocation {
            cpu_ptr,
            size: p.size,
            gpu_va: p.va_addr,
            handle,
            is_userptr: false,
            node_id: p.node_id,
        };
        let n = self.allocations.len();
        let mut i: usize = 0;
        while i < n
            invariant
                *self == *old(self),
                old(self).wf(),
                a == (Allocation {
                    cpu_ptr,
                    size: p.size,
                    gpu_va: p.va_addr,
                    handle,
                    is_userptr: false,
                    node_id: p.node_id,
                }),
                n == self.allocations@.len(),
                0 <= i <= n,
                forall|k: int| 0 <= k < i ==> (#[trigger] self.allocations@[k]).0 != handle,
            decreases n - i,
        {
            if self.allocations[i].0 == handle {
                let ghost pre = self.allocations@;
                self.allocations.remove(i);
                self.allocations.insert(i, (handle, a));
                proof {
                    assert(self.allocations@ =~= pre.update(i as int, (handle, a)));
                    assert(self.allocations@[i as int] == (handle, a));
                }
                return a;
            }
            i = i + 1;
        }
        let ghost pre = self.allocations@;
        self.allocations.push((handle, a));
        proof {
            assert(self.allocations@[pre.len() as int] == (handle, a));
        }
        a
    }

    /// Forgets the allocation recorded under `handle` and returns the
    /// range to the aperture its GPU address falls in: default SVM,
    /// alternate SVM, or the owning node's scratch or LDS range.
    ///
    /// Returns the forgotten record so the caller can unmap the host
    /// mapping and free the kernel handle; `None` when the handle is
    /// unknown, in which case nothing changes.
    pub fn free_memory(&mut self, handle: u64) -> (r: Option<Allocation>)
        requires
            old(self).wf(),
        ensures
            final(self).wf(),
            final(self).node_to_gpu_id@ == old(self).node_to_gpu_id@,
            r is None ==> mgr_eq(final(self), old(self)) && (forall|k: int|
                0 <= k < old(self).allocations@.len() ==> (#[trigger] old(
                    self,
                ).allocations@[k]).0 != handle),
            r is Some ==> {
                let a = r->0;
                &&& a.handle == handle
                &&& exists|k: int|
                    0 <= k < old(self).allocations@.len() && (#[trigger] old(
                        self,
                    ).allocations@[k]) == (handle, a) && final(self).allocations@ == old(
                        self,
                    ).allocations@.remove(k)
                &&& va_returned(old(self), final(self), a)
            },
    {
        let n = self.allocations.len();
        let mut i: usize = 0;
        while i < n
            invariant
                *self == *old(self),
                old(self).wf(),
                n == self.allocations@.len(),
                0 <= i <= n,
                forall|k: int| 0 <= k < i ==> (#[trigger] self.allocations@[k]).0 != handle,
            decreases n - i,
        {
            if self.allocations[i].0 == handle {
                let entry = self.allocations.remove(i);
                let alloc = entry.1;
                let (svm_base, svm_limit) = self.svm_aperture.bounds();
                let (alt_base, alt_limit) = self.svm_alt_aperture.bounds();
                if alloc.gpu_va >= svm_base && alloc.gpu_va < svm_limit {
                    self.svm_aperture.free_va(alloc.gpu_va, alloc.size);
                } else if alloc.gpu_va >= alt_base && alloc.gpu_va < alt_limit {
                    self.svm_alt_aperture.free_va(alloc.gpu_va, alloc.size);
                } else {
                    let kopt = self.find_gpu_apertures(alloc.node_id);
                    match kopt {
                        None => (),
                        Some(k) => {
                            let ghost pre_gpu = self.gpu_apertures@;
                            let mut entry2 = self.gpu_apertures.remove(k);
                            let (sb, sl) = entry2.1.scratch.bounds();
                            let (lb, ll) = entry2.1.lds.bounds();
                            if alloc.gpu_va >= sb && alloc.gpu_va < sl {
                                entry2.1.scratch.free_va(alloc.gpu_va, alloc.size);
                            } else if alloc.gpu_va >= lb && alloc.gpu_va < ll {
                                entry2.1.lds.free_va(alloc.gpu_va, alloc.size);
                            }
                            self.gpu_apertures.insert(k, entry2);
                            proof {
                                assert(self.gpu_apertures@ =~= pre_gpu.update(
                                    k as int,
                                    self.gpu_apertures@[k as int],
                                ));
                            }
                        },
                    }
                }
                proof {
                    assert(old(self).allocations@[i as int] == (handle, alloc));
                    assert(self.allocations@ == old(self).allocations@.remove(i as int));
                }
                return Some(alloc);
            }
            i = i + 1;
        }
        None
    }
}

} // verus!
