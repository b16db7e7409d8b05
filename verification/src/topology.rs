//! The runtime topology snapshot: per-process aperture records, the
//! synthesized memory banks of each node, and the indirect io-link
//! inference.

use vstd::prelude::*;
use crate::error::{HsaError, HsaResult};
use crate::ioctl::ProcessDeviceApertures;
use crate::sysfs::{
    self, HsaIoLinkProperties, HsaMemoryProperties, HsaNodeProperties, HSA_IOLINKTYPE_PCIEXPRESS,
    HSA_IOLINKTYPE_QPI_1_1, HSA_IOLINKTYPE_UNDEFINED, HSA_IOLINKTYPE_XGMI,
};

verus! {

pub const HSA_HEAPTYPE_SYSTEM: u32 = 0;

pub const HSA_HEAPTYPE_FRAME_BUFFER_PUBLIC: u32 = 1;

pub const HSA_HEAPTYPE_FRAME_BUFFER_PRIVATE: u32 = 2;

pub const HSA_HEAPTYPE_GPU_GDS: u32 = 3;

pub const HSA_HEAPTYPE_GPU_LDS: u32 = 4;

pub const HSA_HEAPTYPE_GPU_SCRATCH: u32 = 5;

pub const HSA_HEAPTYPE_DEVICE_SVM: u32 = 6;

pub const HSA_HEAPTYPE_MMIO_REMAP: u32 = 7;

pub const GFX_VERSION_VEGA10: u32 = 90000;

pub const GFX_VERSION_KAVERI: u32 = 70000;

/// Per-process aperture limits of one GPU, from the kernel query.
#[derive(Debug, Clone, Copy, PartialEq, Eq, Structural)]
pub struct NodeApertures {
    pub lds_base: u64,
    pub lds_limit: u64,
    pub scratch_base: u64,
    pub scratch_limit: u64,
    pub gpuvm_base: u64,
    pub gpuvm_limit: u64,
}

impl NodeApertures {
    /// The all-zero record of a node whose apertures are unknown.
    pub fn zeroed() -> (r: Self)
        ensures
            r == (NodeApertures {
                lds_base: 0,
                lds_limit: 0,
                scratch_base: 0,
                scratch_limit: 0,
                gpuvm_base: 0,
                gpuvm_limit: 0,
            }),
    {
        NodeApertures {
            lds_base: 0,
            lds_limit: 0,
            scratch_base: 0,
            scratch_limit: 0,
            gpuvm_base: 0,
            gpuvm_limit: 0,
        }
    }
}

/// The runtime topology snapshot: the sysfs tree plus the dynamic
/// per-process aperture records, keyed by kernel GPU id.
pub struct Topology {
    pub inner: sysfs::Topology,
    pub apertures: Vec<(u32, NodeApertures)>,
    pub is_dgpu: bool,
}

/// Whether some aperture record is keyed by `gpu_id`.
pub open spec fn has_aperture(s: Seq<(u32, NodeApertures)>, gpu_id: u32) -> bool {
    exists|k: int| 0 <= k < s.len() && s[k].0 == gpu_id
}

/// Whether a node makes the system a discrete-GPU system: SIMDs but no
/// CPU cores.
pub open spec fn spec_is_dgpu_node(p: &HsaNodeProperties) -> bool {
    p.simd_count > 0 && p.cpu_cores_count == 0
}

/// The copied aperture fields of one kernel record.
pub fn convert_aperture(src: &ProcessDeviceApertures) -> (r: NodeApertures)
    ensures
        r.lds_base == src.lds_base,
        r.lds_limit == src.lds_limit,
        r.scratch_base == src.scratch_base,
        r.scratch_limit == src.scratch_limit,
        r.gpuvm_base == src.gpuvm_base,
        r.gpuvm_limit == src.gpuvm_limit,
{
    NodeApertures {
        lds_base: src.lds_base,
        lds_limit: src.lds_limit,
        scratch_base: src.scratch_base,
        scratch_limit: src.scratch_limit,
        gpuvm_base: src.gpuvm_base,
        gpuvm_limit: src.gpuvm_limit,
    }
}

/// One aperture entry copied from one kernel record.
pub open spec fn aperture_entry_match(
    info: ProcessDeviceApertures,
    entry: (u32, NodeApertures),
) -> bool {
    &&& entry.0 == info.gpu_id
    &&& info.gpu_id != 0
    &&& entry.1.lds_base == info.lds_base
    &&& entry.1.lds_limit == info.lds_limit
    &&& entry.1.scratch_base == info.scratch_base
    &&& entry.1.scratch_limit == info.scratch_limit
    &&& entry.1.gpuvm_base == info.gpuvm_base
    &&& entry.1.gpuvm_limit == info.gpuvm_limit
}

/// Every entry copies one of the first `n` records.
pub open spec fn aperture_entries_sound(
    infos: Seq<ProcessDeviceApertures>,
    n: int,
    s: Seq<(u32, NodeApertures)>,
) -> bool {
    forall|k: int|
        #![trigger s[k]]
        0 <= k < s.len() ==> exists|p: int| 0 <= p < n && aperture_entry_match(#[trigger] infos[p], s[k])
}

/// Every record with a nonzero GPU id among the first `n` has an entry.
pub open spec fn aperture_entries_complete(
    infos: Seq<ProcessDeviceApertures>,
    n: int,
    s: Seq<(u32, NodeApertures)>,
) -> bool {
    forall|p: int|
        0 <= p < n && (#[trigger] infos[p]).gpu_id != 0 ==> has_aperture(s, infos[p].gpu_id)
}

/// Builds the per-GPU aperture table from the kernel query's records:
/// one entry per distinct nonzero GPU id, copied field for field.
pub fn fetch_apertures(infos: &Vec<ProcessDeviceApertures>) -> (r: Vec<(u32, NodeApertures)>)
    ensures
        forall|i: int, j: int|
            #![trigger r@[i], r@[j]]
            0 <= i < j < r@.len() ==> r@[i].0 != r@[j].0,
        aperture_entries_sound(infos@, infos@.len() as int, r@),
        aperture_entries_complete(infos@, infos@.len() as int, r@),
{
    let mut r: Vec<(u32, NodeApertures)> = Vec::new();
    let n = infos.len();
    let mut i: usize = 0;
    while i < n
        invariant
            n == infos@.len(),
            0 <= i <= n,
            forall|a: int, b: int|
                #![trigger r@[a], r@[b]]
                0 <= a < b < r@.len() ==> r@[a].0 != r@[b].0,
            aperture_entries_sound(infos@, i as int, r@),
            aperture_entries_complete(infos@, i as int, r@),
        decreases n - i,
    {
        let info = infos[i];
        if info.gpu_id != 0 {
            let mut present = false;
            let m = r.len();
            let mut k: usize = 0;
            while k < m
                invariant
                    m == r@.len(),
                    0 <= k <= m,
                    present <==> exists|q: int| 0 <= q < k && (#[trigger] r@[q]).0 == info.gpu_id,
                decreases m - k,
            {
                if r[k].0 == info.gpu_id {
                    present = true;
                }
                k = k + 1;
            }
            let ghost pre = r@;
            if !present {
                r.push((info.gpu_id, convert_aperture(&info)));
                proof {
                    assert(aperture_entry_match(infos@[i as int], r@[pre.len() as int]));
                    assert forall|c: int|
                        #![trigger r@[c]]
                        0 <= c < r@.len() implies exists|p: int|
                        0 <= p < i + 1 && aperture_entry_match(#[trigger] infos@[p], r@[c]) by {
                        if c < pre.len() {
                            assert(r@[c] == pre[c]);
                            let p = choose|p: int|
                                0 <= p < i && aperture_entry_match(infos@[p], pre[c]);
                            assert(aperture_entry_match(infos@[p], r@[c]));
                        } else {
                            assert(aperture_entry_match(infos@[i as int], r@[c]));
                        }
                    }
                }
            }
            proof {
                assert forall|p: int|
                    0 <= p < i + 1 && (#[trigger] infos@[p]).gpu_id != 0 implies has_aperture(
                    r@,
                    infos@[p].gpu_id,
                ) by {
                    if p == i as int {
                        if present {
                            let q = choose|q: int| 0 <= q < pre.len() && (#[trigger] pre[q]).0 == info.gpu_id;
                            assert(r@[q].0 == info.gpu_id);
                        } else {
                            assert(r@[pre.len() as int].0 == info.gpu_id);
                        }
                    } else {
                        let q = choose|q: int| 0 <= q < pre.len() && (#[trigger] pre[q]).0 == infos@[p].gpu_id;
                        assert(r@[q].0 == infos@[p].gpu_id);
                    }
                }
            }
        }
        i = i + 1;
    }
    r
}

impl Topology {
    /// Aperture keys occur once, and the recorded ranges cannot make
    /// the synthesized bank sizes overflow.
    pub open spec fn wf(&self) -> bool {
        &&& forall|i: int, j: int|
            #![trigger self.apertures@[i], self.apertures@[j]]
            0 <= i < j < self.apertures@.len() ==> self.apertures@[i].0 != self.apertures@[j].0
        &&& forall|k: int|
            #![trigger self.apertures@[k]]
            0 <= k < self.apertures@.len() ==> {
                &&& self.apertures@[k].1.scratch_limit - self.apertures@[k].1.scratch_base
                    < u64::MAX
                &&& self.apertures@[k].1.gpuvm_limit - self.apertures@[k].1.gpuvm_base < u64::MAX
            }
    }

    /// Assembles the runtime snapshot.  The system is discrete-GPU when
    /// any node has SIMDs but no CPU cores.
    pub fn new(inner: sysfs::Topology, apertures: Vec<(u32, NodeApertures)>) -> (r: Self)
        requires
            forall|i: int, j: int|
                #![trigger apertures@[i], apertures@[j]]
                0 <= i < j < apertures@.len() ==> apertures@[i].0 != apertures@[j].0,
            forall|k: int|
                #![trigger apertures@[k]]
                0 <= k < apertures@.len() ==> {
                    &&& apertures@[k].1.scratch_limit - apertures@[k].1.scratch_base < u64::MAX
                    &&& apertures@[k].1.gpuvm_limit - apertures@[k].1.gpuvm_base < u64::MAX
                },
        ensures
            r.wf(),
            r.inner == inner,
            r.apertures@ == apertures@,
            r.is_dgpu == exists|i: int|
                0 <= i < inner.nodes@.len() && spec_is_dgpu_node(
                    &(#[trigger] inner.nodes@[i]).properties,
                ),
    {
        let mut is_dgpu = false;
        let n = inner.nodes.len();
        let mut i: usize = 0;
        while i < n
            invariant
                n == inner.nodes@.len(),
                0 <= i <= n,
                is_dgpu == exists|k: int|
                    0 <= k < i && spec_is_dgpu_node(&(#[trigger] inner.nodes@[k]).properties),
            decreases n - i,
        {
            if inner.nodes[i].properties.simd_count > 0 && inner.nodes[i].properties.cpu_cores_count
                == 0 {
                is_dgpu = true;
            }
            i = i + 1;
        }
        Topology { inner, apertures, is_dgpu }
    }

    /// Index of the aperture record keyed by `gpu_id`, if any.
    fn find_aperture(&self, gpu_id: u32) -> (r: Option<usize>)
        ensures
            match r {
                Some(k) => 0 <= k < self.apertures@.len() && self.apertures@[k as int].0 == gpu_id,
                None => !has_aperture(self.apertures@, gpu_id),
            },
    {
        let n = self.apertures.len();
        let mut i: usize = 0;
        while i < n
            invariant
                n == self.apertures@.len(),
                0 <= i <= n,
                forall|k: int| 0 <= k < i ==> (#[trigger] self.apertures@[k]).0 != gpu_id,
            decreases n - i,
        {
            if self.apertures[i].0 == gpu_id {
                return Some(i);
            }
            i = i + 1;
        }
        None
    }

    /// Whether a device-SVM bank is synthesized for this node: always
    /// on a discrete-GPU system, and on integrated parts from Vega10 on.
    pub fn is_svm_needed(&self, props: &HsaNodeProperties) -> (r: bool)
        ensures
            r == (self.is_dgpu || props.engine_id.major * 10000 + props.engine_id.minor * 100
                + props.engine_id.stepping >= GFX_VERSION_VEGA10),
    {
        if self.is_dgpu {
            return true;
        }
        let ver: u64 = (props.engine_id.major as u64) * 10000 + (props.engine_id.minor as u64)
            * 100 + (props.engine_id.stepping as u64);
        ver >= GFX_VERSION_VEGA10 as u64
    }
}

/// The synthesized LDS bank of a node.
pub open spec fn spec_lds_bank(p: &HsaNodeProperties) -> HsaMemoryProperties {
    HsaMemoryProperties {
        heap_type: HSA_HEAPTYPE_GPU_LDS,
        size_in_bytes: (p.lds_size_in_kb * 1024) as u64,
        flags: 0,
        width: 0,
        mem_clk_max: 0,
    }
}

/// The legacy private-framebuffer bank.
pub open spec fn spec_private_fb_bank(p: &HsaNodeProperties) -> HsaMemoryProperties {
    HsaMemoryProperties {
        heap_type: HSA_HEAPTYPE_FRAME_BUFFER_PRIVATE,
        size_in_bytes: p.local_mem_size,
        flags: 0,
        width: 0,
        mem_clk_max: 0,
    }
}

/// The synthesized scratch bank.
pub open spec fn spec_scratch_bank(ap: NodeApertures) -> HsaMemoryProperties {
    HsaMemoryProperties {
        heap_type: HSA_HEAPTYPE_GPU_SCRATCH,
        size_in_bytes: (ap.scratch_limit - ap.scratch_base + 1) as u64,
        flags: 0,
        width: 0,
        mem_clk_max: 0,
    }
}

/// The synthesized device-SVM bank.
pub open spec fn spec_svm_bank(ap: NodeApertures) -> HsaMemoryProperties {
    HsaMemoryProperties {
        heap_type: HSA_HEAPTYPE_DEVICE_SVM,
        size_in_bytes: (ap.gpuvm_limit - ap.gpuvm_base + 1) as u64,
        flags: 0,
        width: 0,
        mem_clk_max: 0,
    }
}

/// The MMIO-remap bank: a single page.
pub open spec fn spec_mmio_bank() -> HsaMemoryProperties {
    HsaMemoryProperties {
        heap_type: HSA_HEAPTYPE_MMIO_REMAP,
        size_in_bytes: 4096,
        flags: 0,
        width: 0,
        mem_clk_max: 0,
    }
}

/// The untruncated bank list of a GPU node with aperture records: the
/// sysfs banks, then an LDS bank when the LDS aperture is nonempty, a
/// private framebuffer for the one legacy part with local memory, a
/// scratch bank when the scratch aperture is nonempty, a device-SVM
/// bank when SVM is called for and the GPUVM aperture is nonempty, and
/// always one MMIO-remap page.
pub open spec fn spec_synth_banks(
    node: &sysfs::Node,
    ap: NodeApertures,
    svm_needed: bool,
) -> Seq<HsaMemoryProperties> {
    let s0 = node.mem_banks@;
    let s1 = if ap.lds_limit > ap.lds_base {
        s0.push(spec_lds_bank(&node.properties))
    } else {
        s0
    };
    let s2 = if spec_node_version(&node.properties) == GFX_VERSION_KAVERI
        && node.properties.local_mem_size > 0 {
        s1.push(spec_private_fb_bank(&node.properties))
    } else {
        s1
    };
    let s3 = if ap.scratch_limit > ap.scratch_base {
        s2.push(spec_scratch_bank(ap))
    } else {
        s2
    };
    let s4 = if svm_needed && ap.gpuvm_limit > ap.gpuvm_base {
        s3.push(spec_svm_bank(ap))
    } else {
        s3
    };
    s4.push(spec_mmio_bank())
}

/// The synthesized bank count: the sysfs count plus one for each
/// synthesized heap that is present, plus the MMIO page.
pub proof fn lemma_synth_bank_count(node: &sysfs::Node, ap: NodeApertures, svm_needed: bool)
    ensures
        spec_synth_banks(node, ap, svm_needed).len() == node.mem_banks@.len() + (
        if ap.lds_limit > ap.lds_base {
            1int
        } else {
            0
        }) + (if spec_node_version(&node.properties) == GFX_VERSION_KAVERI
            && node.properties.local_mem_size > 0 {
            1int
        } else {
            0
        }) + (if ap.scratch_limit > ap.scratch_base {
            1int
        } else {
            0
        }) + (if svm_needed && ap.gpuvm_limit > ap.gpuvm_base {
            1int
        } else {
            0
        }) + 1,
{
}

impl Topology {
    /// The property record of one node; for GPU nodes the memory-bank
    /// count grows by the three virtual heaps and the MMIO page.
    ///
    /// An out-of-range node id is the only error.
    pub fn get_node_properties(&self, node_id: u32) -> (r: HsaResult<HsaNodeProperties>)
        requires
            (node_id as int) < self.inner.nodes@.len()
                ==> self.inner.nodes@[node_id as int].properties.mem_banks_count + 4 <= u32::MAX,
        ensures
            r is Ok <==> (node_id as int) < self.inner.nodes@.len(),
            r is Err ==> r == Err::<HsaNodeProperties, HsaError>(HsaError::InvalidNodeId(node_id)),
            r is Ok ==> {
                let p = &self.inner.nodes@[node_id as int].properties;
                let q = r->Ok_0;
                &&& q.mem_banks_count == p.mem_banks_count + (if p.kfd_gpu_id != 0 {
                    4int
                } else {
                    0
                })
                &&& sysfs::props_eq_core(&q, p)
                &&& q.node_id == p.node_id
                &&& q.io_links_count == p.io_links_count
            },
    {
        if (node_id as usize) >= self.inner.nodes.len() {
            return Err(HsaError::InvalidNodeId(node_id));
        }
        let mut props = self.inner.nodes[node_id as usize].properties.clone();
        if props.kfd_gpu_id != 0 {
            // Three virtual heaps (LDS, Scratch, SVM) plus the MMIO page.
            props.mem_banks_count = props.mem_banks_count + 3;
            props.mem_banks_count = props.mem_banks_count + 1;
        }
        Ok(props)
    }

    /// The memory banks of one node, truncated to `num_banks`: the
    /// sysfs banks, and for a GPU node with aperture records the
    /// synthesized heaps of `spec_synth_banks`.
    pub fn get_node_memory_properties(&self, node_id: u32, num_banks: u32) -> (r: HsaResult<
        Vec<HsaMemoryProperties>,
    >)
        requires
            self.wf(),
        ensures
            r is Ok <==> (node_id as int) < self.inner.nodes@.len(),
            r is Err ==> r == Err::<Vec<HsaMemoryProperties>, HsaError>(
                HsaError::InvalidNodeId(node_id),
            ),
            r is Ok ==> {
                let node = &self.inner.nodes@[node_id as int];
                let full = if node.properties.kfd_gpu_id == 0 {
                    node.mem_banks@
                } else {
                    if has_aperture(self.apertures@, node.properties.kfd_gpu_id) {
                        spec_synth_banks(
                            node,
                            spec_aperture_of(self.apertures@, node.properties.kfd_gpu_id),
                            self.is_dgpu || spec_node_version(&node.properties)
                                >= GFX_VERSION_VEGA10,
                        )
                    } else {
                        node.mem_banks@
                    }
                };
                (r->Ok_0)@ == full.take(
                    if (num_banks as int) < full.len() {
                        num_banks as int
                    } else {
                        full.len() as int
                    },
                )
            },
    {
        if (node_id as usize) >= self.inner.nodes.len() {
            return Err(HsaError::InvalidNodeId(node_id));
        }
        let node = &self.inner.nodes[node_id as usize];
        let mut full: Vec<HsaMemoryProperties> = Vec::new();
        let nb = node.mem_banks.len();
        let mut i: usize = 0;
        while i < nb
            invariant
                nb == node.mem_banks@.len(),
                0 <= i <= nb,
                full@ == node.mem_banks@.take(i as int),
            decreases nb - i,
        {
            full.push(node.mem_banks[i]);
            proof {
                assert(full@ =~= node.mem_banks@.take(i + 1));
            }
            i = i + 1;
        }
        proof {
            assert(node.mem_banks@.take(nb as int) =~= node.mem_banks@);
        }

        if node.properties.kfd_gpu_id != 0 {
            let kopt = self.find_aperture(node.properties.kfd_gpu_id);
            match kopt {
                Some(k) => {
                    let ap = self.apertures[k].1;
                    proof {
                        lemma_aperture_of(self.apertures@, node.properties.kfd_gpu_id, k as int);
                    }
                    if ap.lds_limit > ap.lds_base {
                        full.push(
                            HsaMemoryProperties {
                                heap_type: HSA_HEAPTYPE_GPU_LDS,
                                size_in_bytes: (node.properties.lds_size_in_kb as u64) * 1024,
                                flags: 0,
                                width: 0,
                                mem_clk_max: 0,
                            },
                        );
                    }
                    let ver: u64 = (node.properties.engine_id.major as u64) * 10000 + (
                    node.properties.engine_id.minor as u64) * 100 + (
                    node.properties.engine_id.stepping as u64);
                    if ver == GFX_VERSION_KAVERI as u64 && node.properties.local_mem_size > 0 {
                        full.push(
                            HsaMemoryProperties {
                                heap_type: HSA_HEAPTYPE_FRAME_BUFFER_PRIVATE,
                                size_in_bytes: node.properties.local_mem_size,
                                flags: 0,
                                width: 0,
                                mem_clk_max: 0,
                            },
                        );
                    }
                    if ap.scratch_limit > ap.scratch_base {
                        full.push(
                            HsaMemoryProperties {
                                heap_type: HSA_HEAPTYPE_GPU_SCRATCH,
                                size_in_bytes: (ap.scratch_limit - ap.scratch_base) + 1,
                                flags: 0,
                                width: 0,
                                mem_clk_max: 0,
                            },
                        );
                    }
                    let svm_needed = self.is_svm_needed(&node.properties);
                    if svm_needed && ap.gpuvm_limit > ap.gpuvm_base {
                        full.push(
                            HsaMemoryProperties {
                                heap_type: HSA_HEAPTYPE_DEVICE_SVM,
                                size_in_bytes: (ap.gpuvm_limit - ap.gpuvm_base) + 1,
                                flags: 0,
                                width: 0,
                                mem_clk_max: 0,
                            },
                        );
                    }
                    full.push(
                        HsaMemoryProperties {
                            heap_type: HSA_HEAPTYPE_MMIO_REMAP,
                            size_in_bytes: 4096,
                            flags: 0,
                            width: 0,
                            mem_clk_max: 0,
                        },
                    );
                    proof {
                        assert(full@ == spec_synth_banks(
                            node,
                            spec_aperture_of(self.apertures@, node.properties.kfd_gpu_id),
                            self.is_dgpu || spec_node_version(&node.properties)
                                >= GFX_VERSION_VEGA10,
                        ));
                    }
                },
                None => {},
            }
        }

        // Truncate to the requested bank count.
        let total = full.len();
        let count: usize = if (num_banks as usize) < total {
            num_banks as usize
        } else {
            total
        };
        let mut out: Vec<HsaMemoryProperties> = Vec::new();
        let mut j: usize = 0;
        while j < count
            invariant
                count <= full@.len(),
                0 <= j <= count,
                out@ == full@.take(j as int),
            decreases count - j,
        {
            out.push(full[j]);
            proof {
                assert(out@ =~= full@.take(j + 1));
            }
            j = j + 1;
        }
        Ok(out)
    }

    /// The cache records of one node, truncated to `num_caches`.
    pub fn get_node_cache_properties(&self, node_id: u32, _proc_id: u32, num_caches: u32) -> (r:
        HsaResult<Vec<sysfs::HsaCacheProperties>>)
        ensures
            r is Ok <==> (node_id as int) < self.inner.nodes@.len(),
            r is Err ==> r == Err::<Vec<sysfs::HsaCacheProperties>, HsaError>(
                HsaError::InvalidNodeId(node_id),
            ),
            r is Ok ==> {
                let caches = self.inner.nodes@[node_id as int].caches@;
                let count = if (num_caches as int) < caches.len() {
                    num_caches as int
                } else {
                    caches.len() as int
                };
                &&& (r->Ok_0)@.len() == count
                &&& forall|i: int|
                    0 <= i < count ==> sysfs::cache_eq(&(r->Ok_0)@[i], &caches[i])
            },
    {
        if (node_id as usize) >= self.inner.nodes.len() {
            return Err(HsaError::InvalidNodeId(node_id));
        }
        let node = &self.inner.nodes[node_id as usize];
        let total = node.caches.len();
        let count: usize = if (num_caches as usize) < total {
            num_caches as usize
        } else {
            total
        };
        let mut out: Vec<sysfs::HsaCacheProperties> = Vec::new();
        let mut j: usize = 0;
        while j < count
            invariant
                count <= node.caches@.len(),
                0 <= j <= count,
                out@.len() == j,
                forall|i: int| 0 <= i < j ==> sysfs::cache_eq(&#[trigger] out@[i], &node.caches@[i]),
            decreases count - j,
        {
            out.push(node.caches[j].clone());
            j = j + 1;
        }
        Ok(out)
    }

    /// The io-link records of one node, truncated to `num_links`.
    pub fn get_node_io_link_properties(&self, node_id: u32, num_links: u32) -> (r: HsaResult<
        Vec<HsaIoLinkProperties>,
    >)
        ensures
            r is Ok <==> (node_id as int) < self.inner.nodes@.len(),
            r is Err ==> r == Err::<Vec<HsaIoLinkProperties>, HsaError>(
                HsaError::InvalidNodeId(node_id),
            ),
            r is Ok ==> {
                let links = self.inner.nodes@[node_id as int].io_links@;
                let count = if (num_links as int) < links.len() {
                    num_links as int
                } else {
                    links.len() as int
                };
                (r->Ok_0)@ == links.take(count)
            },
    {
        if (node_id as usize) >= self.inner.nodes.len() {
            return Err(HsaError::InvalidNodeId(node_id));
        }
        let node = &self.inner.nodes[node_id as usize];
        let total = node.io_links.len();
        let count: usize = if (num_links as usize) < total {
            num_links as usize
        } else {
            total
        };
        let mut out: Vec<HsaIoLinkProperties> = Vec::new();
        let mut j: usize = 0;
        while j < count
            invariant
                count <= node.io_links@.len(),
                0 <= j <= count,
                out@ == node.io_links@.take(j as int),
            decreases count - j,
        {
            out.push(node.io_links[j]);
            proof {
                assert(out@ =~= node.io_links@.take(j + 1));
            }
            j = j + 1;
        }
        Ok(out)
    }
}

/// The aperture record keyed by `gpu_id`.
pub open spec fn spec_aperture_of(s: Seq<(u32, NodeApertures)>, gpu_id: u32) -> NodeApertures {
    s[choose|k: int| 0 <= k < s.len() && s[k].0 == gpu_id].1
}

/// With unique keys, any entry with the key carries the looked-up record.
pub proof fn lemma_aperture_of(s: Seq<(u32, NodeApertures)>, gpu_id: u32, k: int)
    requires
        0 <= k < s.len(),
        s[k].0 == gpu_id,
        forall|i: int, j: int| #![trigger s[i], s[j]] 0 <= i < j < s.len() ==> s[i].0 != s[j].0,
    ensures
        spec_aperture_of(s, gpu_id) == s[k].1,
        has_aperture(s, gpu_id),
{
    assert(has_aperture(s, gpu_id));
    let c = choose|c: int| 0 <= c < s.len() && s[c].0 == gpu_id;
    if c != k {
        assert(s[c].0 != s[k].0);
    }
}

/// Whether a link is a direct hop to a CPU: weight at most 20, PCIe or
/// XGMI, ending at a node without SIMDs.
pub open spec fn direct_cpu_link_ok(l: HsaIoLinkProperties, nodes: Seq<sysfs::Node>) -> bool {
    &&& l.weight <= 20
    &&& (l.type_ == HSA_IOLINKTYPE_PCIEXPRESS || l.type_ == HSA_IOLINKTYPE_XGMI)
    &&& 0 <= (l.node_to as int) < nodes.len()
    &&& nodes[l.node_to as int].properties.simd_count == 0
}

/// Index of the first direct CPU hop at or after `i`.
pub open spec fn spec_find_cpu_link(
    links: Seq<HsaIoLinkProperties>,
    nodes: Seq<sysfs::Node>,
    i: int,
) -> Option<int>
    decreases links.len() - i,
{
    if i < 0 || i >= links.len() {
        None
    } else if direct_cpu_link_ok(links[i], nodes) {
        Some(i)
    } else {
        spec_find_cpu_link(links, nodes, i + 1)
    }
}

/// Index of the first link to node `target` at or after `i`.
pub open spec fn spec_find_link_to(
    links: Seq<HsaIoLinkProperties>,
    target: int,
    i: int,
) -> Option<int>
    decreases links.len() - i,
{
    if i < 0 || i >= links.len() {
        None
    } else if links[i].node_to == target {
        Some(i)
    } else {
        spec_find_link_to(links, target, i + 1)
    }
}

/// The CPU a node connects to: the node itself when it is a CPU, else
/// the far end of its first direct CPU link.
pub open spec fn spec_direct_cpu(nodes: Seq<sysfs::Node>, idx: int) -> Option<int> {
    if nodes[idx].properties.simd_count == 0 {
        Some(idx)
    } else {
        match spec_find_cpu_link(nodes[idx].io_links@, nodes, 0) {
            Some(li) => Some(nodes[idx].io_links@[li].node_to as int),
            None => None,
        }
    }
}

/// A synthesized link record: only type, endpoints and weight carry
/// information.
pub open spec fn spec_mk_link(t: u32, s: int, d: int, w: int) -> HsaIoLinkProperties {
    HsaIoLinkProperties {
        type_: t,
        version_major: 0,
        version_minor: 0,
        node_from: s as u32,
        node_to: d as u32,
        weight: w as u32,
        min_latency: 0,
        max_latency: 0,
        min_bandwidth: 0,
        max_bandwidth: 0,
        rec_transfer_size: 0,
        rec_sdma_eng_id_mask: 0,
        flags: 0,
    }
}

/// The synthesized indirect link from `s` to `d`, if any.
///
/// CPU-to-CPU pairs and GPU-to-CPU pairs get none.  Otherwise both ends
/// must reach a CPU over a direct hop.  With a shared CPU the weight is
/// the sum of the two hops and the type is PCIe from a GPU source, else
/// the CPU-to-destination link's own type.  With distinct CPUs the
/// weight adds the CPU-to-CPU hop, which must not be a QPI link heavier
/// than 20.  A zero total weight — or one beyond `u32` — yields none.
pub open spec fn spec_indirect_link(nodes: Seq<sysfs::Node>, s: int, d: int) -> Option<
    HsaIoLinkProperties,
> {
    let src_gpu = nodes[s].properties.simd_count > 0;
    let dst_gpu = nodes[d].properties.simd_count > 0;
    if !src_gpu && !dst_gpu {
        None
    } else if src_gpu && !dst_gpu {
        None
    } else if spec_direct_cpu(nodes, s) is None || spec_direct_cpu(nodes, d) is None {
        None
    } else {
        let cs = spec_direct_cpu(nodes, s)->0;
        let cd = spec_direct_cpu(nodes, d)->0;
        let w1o: Option<int> = if src_gpu {
            match spec_find_link_to(nodes[s].io_links@, cs, 0) {
                Some(i) => Some(nodes[s].io_links@[i].weight as int),
                None => None,
            }
        } else {
            Some(0)
        };
        if cs == cd {
            let l2o = spec_find_link_to(nodes[cs].io_links@, d, 0);
            if w1o is None || l2o is None {
                None
            } else {
                let l2 = nodes[cs].io_links@[l2o->0];
                let link_type = if src_gpu {
                    HSA_IOLINKTYPE_PCIEXPRESS
                } else {
                    l2.type_
                };
                let total = w1o->0 + l2.weight;
                if total == 0 || total > u32::MAX {
                    None
                } else {
                    Some(spec_mk_link(link_type, s, d, total))
                }
            }
        } else {
            let lco = spec_find_link_to(nodes[cs].io_links@, cd, 0);
            let l3o = spec_find_link_to(nodes[cd].io_links@, d, 0);
            if w1o is None || lco is None || l3o is None {
                None
            } else {
                let lc = nodes[cs].io_links@[lco->0];
                if lc.type_ == HSA_IOLINKTYPE_QPI_1_1 && lc.weight > 20 {
                    None
                } else {
                    let l3 = nodes[cd].io_links@[l3o->0];
                    let total = w1o->0 + lc.weight + l3.weight;
                    if total == 0 || total > u32::MAX {
                        None
                    } else {
                        Some(spec_mk_link(HSA_IOLINKTYPE_UNDEFINED, s, d, total))
                    }
                }
            }
        }
    }
}

/// First direct CPU hop of a link list.
fn find_cpu_link_idx(links: &Vec<HsaIoLinkProperties>, nodes: &Vec<sysfs::Node>) -> (r: Option<
    usize,
>)
    ensures
        r is Some ==> spec_find_cpu_link(links@, nodes@, 0) == Some(r->0 as int),
        r is None ==> spec_find_cpu_link(links@, nodes@, 0) is None,
{
    let n = links.len();
    let mut i: usize = 0;
    while i < n
        invariant
            n == links@.len(),
            0 <= i <= n,
            spec_find_cpu_link(links@, nodes@, 0) == spec_find_cpu_link(links@, nodes@, i as int),
        decreases n - i,
    {
        let l = links[i];
        let ok = l.weight <= 20 && (l.type_ == HSA_IOLINKTYPE_PCIEXPRESS || l.type_
            == HSA_IOLINKTYPE_XGMI) && (l.node_to as usize) < nodes.len() && nodes[l.node_to
            as usize].properties.simd_count == 0;
        if ok {
            proof {
                assert(direct_cpu_link_ok(links@[i as int], nodes@));
            }
            return Some(i);
        }
        proof {
            assert(!direct_cpu_link_ok(links@[i as int], nodes@));
        }
        i = i + 1;
    }
    None
}

/// First link of a list whose far end is `target`.
fn find_link_to_idx(links: &Vec<HsaIoLinkProperties>, target: usize) -> (r: Option<usize>)
    ensures
        r is Some ==> spec_find_link_to(links@, target as int, 0) == Some(r->0 as int),
        r is None ==> spec_find_link_to(links@, target as int, 0) is None,
{
    let n = links.len();
    let mut i: usize = 0;
    while i < n
        invariant
            n == links@.len(),
            0 <= i <= n,
            spec_find_link_to(links@, target as int, 0) == spec_find_link_to(
                links@,
                target as int,
                i as int,
            ),
        decreases n - i,
    {
        if (links[i].node_to as usize) == target {
            return Some(i);
        }
        i = i + 1;
    }
    None
}

/// The CPU node that `idx` directly connects to, if any.
fn direct_cpu_of(nodes: &Vec<sysfs::Node>, idx: usize) -> (r: Option<usize>)
    requires
        idx < nodes@.len(),
        nodes@.len() <= u32::MAX,
    ensures
        r is Some ==> spec_direct_cpu(nodes@, idx as int) == Some(r->0 as int),
        r is None ==> spec_direct_cpu(nodes@, idx as int) is None,
        r is Some ==> (r->0 as int) < nodes@.len(),
{
    if nodes[idx].properties.simd_count == 0 {
        return Some(idx);
    }
    let node = &nodes[idx];
    proof {
        assert(node.io_links@ == nodes@[idx as int].io_links@);
    }
    let lio = find_cpu_link_idx(&node.io_links, nodes);
    match lio {
        Some(li) => {
            proof {
                lemma_find_cpu_link_ok(nodes@[idx as int].io_links@, nodes@, 0);
                assert(spec_find_cpu_link(nodes@[idx as int].io_links@, nodes@, 0) == Some(
                    li as int,
                ));
                assert(direct_cpu_link_ok(nodes@[idx as int].io_links@[li as int], nodes@));
                assert(spec_direct_cpu(nodes@, idx as int) == Some(
                    nodes@[idx as int].io_links@[li as int].node_to as int,
                ));
            }
            Some(node.io_links[li].node_to as usize)
        },
        None => None,
    }
}

/// A found direct CPU hop satisfies the hop conditions.
proof fn lemma_find_cpu_link_ok(links: Seq<HsaIoLinkProperties>, nodes: Seq<sysfs::Node>, i: int)
    ensures
        spec_find_cpu_link(links, nodes, i) is Some ==> {
            let k = spec_find_cpu_link(links, nodes, i)->0;
            &&& i <= k < links.len()
            &&& direct_cpu_link_ok(links[k], nodes)
        },
    decreases links.len() - i,
{
    if i >= 0 && i < links.len() && !direct_cpu_link_ok(links[i], nodes) {
        lemma_find_cpu_link_ok(links, nodes, i + 1);
    }
}

/// A found link to `target` ends at `target`.
proof fn lemma_find_link_to_ok(links: Seq<HsaIoLinkProperties>, target: int, i: int)
    ensures
        spec_find_link_to(links, target, i) is Some ==> {
            let k = spec_find_link_to(links, target, i)->0;
            &&& i <= k < links.len()
            &&& links[k].node_to == target
        },
    decreases links.len() - i,
{
    if i >= 0 && i < links.len() && links[i].node_to != target {
        lemma_find_link_to_ok(links, target, i + 1);
    }
}

/// Computes the synthesized indirect link from `src_idx` to `dst_idx`.
pub fn calculate_indirect_link(nodes: &Vec<sysfs::Node>, src_idx: usize, dst_idx: usize) -> (r:
    Option<HsaIoLinkProperties>)
    requires
        src_idx < nodes@.len(),
        dst_idx < nodes@.len(),
        nodes@.len() <= u32::MAX,
    ensures
        r == spec_indirect_link(nodes@, src_idx as int, dst_idx as int),
{
    let src_gpu = nodes[src_idx].properties.simd_count > 0;
    let dst_gpu = nodes[dst_idx].properties.simd_count > 0;
    if !src_gpu && !dst_gpu {
        return None;
    }
    if src_gpu && !dst_gpu {
        return None;
    }
    let cso = direct_cpu_of(nodes, src_idx);
    let cdo = direct_cpu_of(nodes, dst_idx);
    if cso.is_none() || cdo.is_none() {
        return None;
    }
    let cs = cso.unwrap();
    let cd = cdo.unwrap();

    let w1o: Option<u64> = if src_gpu {
        match find_link_to_idx(&nodes[src_idx].io_links, cs) {
            Some(i) => {
                proof {
                    lemma_find_link_to_ok(nodes@[src_idx as int].io_links@, cs as int, 0);
                }
                Some(nodes[src_idx].io_links[i].weight as u64)
            },
            None => None,
        }
    } else {
        Some(0)
    };
    if w1o.is_none() {
        return None;
    }
    let w1 = w1o.unwrap();

    if cs == cd {
        let l2o = find_link_to_idx(&nodes[cs].io_links, dst_idx);
        match l2o {
            None => None,
            Some(i2) => {
                proof {
                    lemma_find_link_to_ok(nodes@[cs as int].io_links@, dst_idx as int, 0);
                }
                let l2 = nodes[cs].io_links[i2];
                let link_type = if src_gpu {
                    HSA_IOLINKTYPE_PCIEXPRESS
                } else {
                    l2.type_
                };
                let total: u64 = w1 + (l2.weight as u64);
                if total == 0 || total > (u32::MAX as u64) {
                    None
                } else {
                    Some(
                        HsaIoLinkProperties {
                            type_: link_type,
                            version_major: 0,
                            version_minor: 0,
                            node_from: src_idx as u32,
                            node_to: dst_idx as u32,
                            weight: total as u32,
                            min_latency: 0,
                            max_latency: 0,
                            min_bandwidth: 0,
                            max_bandwidth: 0,
                            rec_transfer_size: 0,
                            rec_sdma_eng_id_mask: 0,
                            flags: 0,
                        },
                    )
                }
            },
        }
    } else {
        let lco = find_link_to_idx(&nodes[cs].io_links, cd);
        let l3o = find_link_to_idx(&nodes[cd].io_links, dst_idx);
        if lco.is_none() || l3o.is_none() {
            return None;
        }
        proof {
            lemma_find_link_to_ok(nodes@[cs as int].io_links@, cd as int, 0);
            lemma_find_link_to_ok(nodes@[cd as int].io_links@, dst_idx as int, 0);
        }
        let lc = nodes[cs].io_links[lco.unwrap()];
        if lc.type_ == HSA_IOLINKTYPE_QPI_1_1 && lc.weight > 20 {
            return None;
        }
        let l3 = nodes[cd].io_links[l3o.unwrap()];
        let total: u64 = w1 + (lc.weight as u64) + (l3.weight as u64);
        if total == 0 || total > (u32::MAX as u64) {
            None
        } else {
            Some(
                HsaIoLinkProperties {
                    type_: HSA_IOLINKTYPE_UNDEFINED,
                    version_major: 0,
                    version_minor: 0,
                    node_from: src_idx as u32,
                    node_to: dst_idx as u32,
                    weight: total as u32,
                    min_latency: 0,
                    max_latency: 0,
                    min_bandwidth: 0,
                    max_bandwidth: 0,
                    rec_transfer_size: 0,
                    rec_sdma_eng_id_mask: 0,
                    flags: 0,
                },
            )
        }
    }
}

/// The exact synthesized-link sequence of node `src`: for every
/// destination below `d` but `src` itself, in ascending order, the
/// indirect link when one is defined.
pub open spec fn spec_added_links(
    nodes: Seq<sysfs::Node>,
    src: int,
    d: int,
) -> Seq<HsaIoLinkProperties>
    decreases d,
{
    if d <= 0 {
        Seq::empty()
    } else {
        let prefix = spec_added_links(nodes, src, d - 1);
        if d - 1 == src {
            prefix
        } else {
            match spec_indirect_link(nodes, src, d - 1) {
                Some(l) => prefix.push(l),
                None => prefix,
            }
        }
    }
}

/// At most one link is synthesized per destination scanned.
pub proof fn lemma_added_links_len(nodes: Seq<sysfs::Node>, src: int, d: int)
    requires
        d >= 0,
    ensures
        spec_added_links(nodes, src, d).len() <= d,
    decreases d,
{
    if d > 0 {
        lemma_added_links_len(nodes, src, d - 1);
    }
}

/// Assembles the final snapshot from the parsed nodes.
///
/// Each node gets its index as node id; its link list grows by exactly
/// its synthesized indirect links — one try per ordered pair, ascending
/// destinations — with the link count raised by that many; every other
/// record of the node is kept; the system node count becomes the node
/// count.
pub fn get_snapshot(
    system_props: sysfs::HsaSystemProperties,
    nodes: Vec<sysfs::Node>,
) -> (r: sysfs::Topology)
    requires
        nodes@.len() <= u32::MAX,
        forall|i: int|
            0 <= i < nodes@.len() ==> {
                &&& (#[trigger] nodes@[i]).io_links@.len() + nodes@.len() <= u32::MAX
                &&& nodes@[i].properties.io_links_count + nodes@.len() <= u32::MAX
            },
    ensures
        r.system_props.num_nodes == nodes@.len(),
        r.system_props.platform_oem == system_props.platform_oem,
        r.system_props.platform_id == system_props.platform_id,
        r.system_props.platform_rev == system_props.platform_rev,
        r.system_props.timestamp_frequency == system_props.timestamp_frequency,
        r.nodes@.len() == nodes@.len(),
        forall|i: int|
            #![trigger r.nodes@[i]]
            0 <= i < r.nodes@.len() ==> {
                &&& r.nodes@[i].properties.node_id == i
                &&& r.nodes@[i].io_links@ == nodes@[i].io_links@ + spec_added_links(
                    nodes@,
                    i,
                    nodes@.len() as int,
                )
                &&& r.nodes@[i].properties.io_links_count == nodes@[i].properties.io_links_count
                    + spec_added_links(nodes@, i, nodes@.len() as int).len()
                &&& sysfs::props_eq_core(&r.nodes@[i].properties, &nodes@[i].properties)
                &&& r.nodes@[i].properties.mem_banks_count
                    == nodes@[i].properties.mem_banks_count
                &&& r.nodes@[i].mem_banks@ == nodes@[i].mem_banks@
                &&& r.nodes@[i].caches@.len() == nodes@[i].caches@.len()
                &&& forall|c: int|
                    0 <= c < r.nodes@[i].caches@.len() ==> sysfs::cache_eq(
                        &#[trigger] r.nodes@[i].caches@[c],
                        &nodes@[i].caches@[c],
                    )
            },
{
    let n = nodes.len();

    // Compute every synthesized link before touching the nodes, so the
    // inference sees only the direct links, as a fresh scan would.
    let mut added: Vec<Vec<HsaIoLinkProperties>> = Vec::new();
    let mut i: usize = 0;
    while i < n
        invariant
            n == nodes@.len(),
            nodes@.len() <= u32::MAX,
            0 <= i <= n,
            added@.len() == i,
            forall|p: int|
                0 <= p < i ==> (#[trigger] added@[p])@ == spec_added_links(nodes@, p, n as int),
            forall|p: int| 0 <= p < i ==> (#[trigger] added@[p])@.len() <= nodes@.len(),
        decreases n - i,
    {
        let mut mine: Vec<HsaIoLinkProperties> = Vec::new();
        let mut d: usize = 0;
        while d < n
            invariant
                n == nodes@.len(),
                nodes@.len() <= u32::MAX,
                0 <= i < n,
                0 <= d <= n,
                mine@.len() <= d,
                mine@ == spec_added_links(nodes@, i as int, d as int),
            decreases n - d,
        {
            if d != i {
                match calculate_indirect_link(&nodes, i, d) {
                    Some(link) => {
                        mine.push(link);
                    },
                    None => {},
                }
            }
            d = d + 1;
        }
        added.push(mine);
        i = i + 1;
    }

    // Rebuild the node list with ids assigned and links appended.
    let mut out: Vec<sysfs::Node> = Vec::new();
    let mut i2: usize = 0;
    while i2 < n
        invariant
            n == nodes@.len(),
            nodes@.len() <= u32::MAX,
            added@.len() == n,
            forall|p: int|
                0 <= p < n ==> (#[trigger] added@[p])@ == spec_added_links(nodes@, p, n as int),
            forall|p: int| 0 <= p < n ==> (#[trigger] added@[p])@.len() <= nodes@.len(),
            forall|p: int|
                0 <= p < n ==> {
                    &&& (#[trigger] nodes@[p]).io_links@.len() + nodes@.len() <= u32::MAX
                    &&& nodes@[p].properties.io_links_count + nodes@.len() <= u32::MAX
                },
            0 <= i2 <= n,
            out@.len() == i2,
            forall|p: int|
                #![trigger out@[p]]
                0 <= p < i2 ==> {
                    &&& out@[p].properties.node_id == p
                    &&& out@[p].io_links@ == nodes@[p].io_links@ + spec_added_links(
                        nodes@,
                        p,
                        n as int,
                    )
                    &&& out@[p].properties.io_links_count
                        == nodes@[p].properties.io_links_count + spec_added_links(
                        nodes@,
                        p,
                        n as int,
                    ).len()
                    &&& sysfs::props_eq_core(&out@[p].properties, &nodes@[p].properties)
                    &&& out@[p].properties.mem_banks_count
                        == nodes@[p].properties.mem_banks_count
                    &&& out@[p].mem_banks@ == nodes@[p].mem_banks@
                    &&& out@[p].caches@.len() == nodes@[p].caches@.len()
                    &&& forall|c: int|
                        0 <= c < out@[p].caches@.len() ==> sysfs::cache_eq(
                            &#[trigger] out@[p].caches@[c],
                            &nodes@[p].caches@[c],
                        )
                },
        decreases n - i2,
    {
        let mut node = nodes[i2].clone();
        node.properties.node_id = i2 as u32;
        let extra = &added[i2];
        let ghost base = node.io_links@;
        let m = extra.len();
        let mut k: usize = 0;
        while k < m
            invariant
                m == extra@.len(),
                0 <= k <= m,
                node.io_links@ == base + extra@.take(k as int),
                node.properties.io_links_count == nodes@[i2 as int].properties.io_links_count + k,
                nodes@[i2 as int].properties.io_links_count + m <= u32::MAX,
                node.properties.node_id == i2,
                sysfs::props_eq_core(&node.properties, &nodes@[i2 as int].properties),
                node.properties.mem_banks_count
                    == nodes@[i2 as int].properties.mem_banks_count,
                node.mem_banks@ == nodes@[i2 as int].mem_banks@,
                node.caches@.len() == nodes@[i2 as int].caches@.len(),
                forall|c: int|
                    0 <= c < node.caches@.len() ==> sysfs::cache_eq(
                        &#[trigger] node.caches@[c],
                        &nodes@[i2 as int].caches@[c],
                    ),
            decreases m - k,
        {
            node.io_links.push(extra[k]);
            node.properties.io_links_count = node.properties.io_links_count + 1;
            proof {
                assert(node.io_links@ =~= base + extra@.take(k + 1));
            }
            k = k + 1;
        }
        proof {
            assert(base + extra@.take(m as int) =~= base + extra@);
        }
        let ghost pre_out = out@;
        out.push(node);
        proof {
            assert(out@[i2 as int].io_links@ == nodes@[i2 as int].io_links@ + spec_added_links(
                nodes@,
                i2 as int,
                n as int,
            ));
            assert forall|p: int| #![trigger out@[p]] 0 <= p < i2 + 1 implies out@[p]
                == if p < i2 {
                pre_out[p]
            } else {
                out@[i2 as int]
            } by {
                if p < i2 {
                    assert(out@[p] == pre_out[p]);
                }
            }
        }
        i2 = i2 + 1;
    }

    let mut sp = system_props;
    sp.num_nodes = n as u32;
    sysfs::Topology { system_props: sp, nodes: out }
}


/// The decimal engine version of a node.
pub open spec fn spec_node_version(p: &HsaNodeProperties) -> int {
    p.engine_id.major * 10000 + p.engine_id.minor * 100 + p.engine_id.stepping
}

} // verus!
