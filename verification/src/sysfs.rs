//! Data model of the sysfs topology snapshot.
//!
//! Name-like values (`marketing_name`, `amd_name`) are kept as raw byte
//! strings exactly as read from the kernel files.

use vstd::prelude::*;

verus! {

pub const HSA_IOLINKTYPE_UNDEFINED: u32 = 0;
pub const HSA_IOLINKTYPE_PCIEXPRESS: u32 = 2;
pub const HSA_IOLINKTYPE_XGMI: u32 = 3;
pub const HSA_IOLINKTYPE_NUMA: u32 = 4;
pub const HSA_IOLINKTYPE_QPI_1_1: u32 = 5;

/// SGPR bytes available per compute unit; fixed across supported parts.
pub const SGPR_SIZE_PER_CU: u32 = 32768;

#[derive(Debug, Clone, Default)]
pub struct HsaSystemProperties {
    pub platform_oem: u32,
    pub platform_id: u32,
    pub platform_rev: u32,
    pub num_nodes: u32,
    pub timestamp_frequency: u64,
}

#[derive(Debug, Clone, Copy, Default, PartialEq, Eq, Structural)]
pub struct EngineId {
    pub major: u32,
    pub minor: u32,
    pub stepping: u32,
}

#[derive(Debug)]
pub struct HsaNodeProperties {
    pub node_id: u32,
    // Core counts
    pub cpu_cores_count: u32,
    pub simd_count: u32,
    pub mem_banks_count: u32,
    pub caches_count: u32,
    pub io_links_count: u32,
    pub p2p_links_count: u32,
    // Identifiers
    pub cpu_core_id_base: u32,
    pub simd_id_base: u32,
    pub vendor_id: u32,
    pub device_id: u32,
    pub location_id: u32,
    pub domain: u32,
    pub drm_render_minor: i32,
    pub hive_id: u64,
    pub unique_id: u64,
    pub kfd_gpu_id: u32,
    // Capabilities
    pub capability: u32,
    pub capability2: u32,
    pub debug_prop: u64,
    pub max_waves_per_simd: u32,
    pub lds_size_in_kb: u32,
    pub gds_size_in_kb: u32,
    pub wave_front_size: u32,
    // Memory
    pub local_mem_size: u64,
    // Architecture
    pub array_count: u32,
    pub simd_arrays_per_engine: u32,
    pub cu_per_simd_array: u32,
    pub simd_per_cu: u32,
    pub max_slots_scratch_cu: u32,
    pub fw_version: u32,
    pub gfx_target_version: u32,
    // Queues and engines
    pub num_sdma_engines: u32,
    pub num_sdma_xgmi_engines: u32,
    pub num_gws: u32,
    pub num_sdma_queues_per_engine: u32,
    pub num_cp_queues: u32,
    pub num_xcc: u32,
    // Clocks
    pub max_engine_clk_fcompute: u32,
    pub max_engine_clk_ccompute: u32,
    // Enriched / calculated properties
    pub marketing_name: Vec<u8>,
    pub amd_name: Vec<u8>,
    pub engine_id: EngineId,
    pub num_shader_banks: u32,
    pub sgpr_size_per_cu: u32,
    pub vgpr_size_per_cu: u32,
}

#[derive(Debug, Clone, Copy, Default, PartialEq, Eq, Structural)]
pub struct HsaMemoryProperties {
    pub heap_type: u32,
    pub size_in_bytes: u64,
    pub flags: u32,
    pub width: u32,
    pub mem_clk_max: u32,
}

#[derive(Debug)]
pub struct HsaCacheProperties {
    pub processor_id_low: u32,
    pub cache_level: u32,
    pub cache_size: u32,
    pub cache_line_size: u32,
    pub cache_lines_per_tag: u32,
    pub cache_associativity: u32,
    pub cache_latency: u32,
    pub cache_type: u32,
    pub sibling_map: Vec<u32>,
}

#[derive(Debug, Clone, Copy, Default, PartialEq, Eq, Structural)]
pub struct HsaIoLinkProperties {
    pub type_: u32,
    pub version_major: u32,
    pub version_minor: u32,
    pub node_from: u32,
    pub node_to: u32,
    pub weight: u32,
    pub min_latency: u32,
    pub max_latency: u32,
    pub min_bandwidth: u32,
    pub max_bandwidth: u32,
    pub rec_transfer_size: u32,
    pub rec_sdma_eng_id_mask: u32,
    pub flags: u32,
}

/// One topology node with its sub-objects, as read from sysfs.
#[derive(Debug)]
pub struct Node {
    pub properties: HsaNodeProperties,
    pub mem_banks: Vec<HsaMemoryProperties>,
    pub caches: Vec<HsaCacheProperties>,
    pub io_links: Vec<HsaIoLinkProperties>,
}

/// A full sysfs topology snapshot.
#[derive(Debug, Clone)]
pub struct Topology {
    pub system_props: HsaSystemProperties,
    pub nodes: Vec<Node>,
}

impl HsaNodeProperties {
    /// Holds of the all-zero property record that parsing starts from.
    pub open spec fn is_default(&self) -> bool {
        &&& self.node_id == 0
        &&& self.cpu_cores_count == 0
        &&& self.simd_count == 0
        &&& self.mem_banks_count == 0
        &&& self.caches_count == 0
        &&& self.io_links_count == 0
        &&& self.p2p_links_count == 0
        &&& self.cpu_core_id_base == 0
        &&& self.simd_id_base == 0
        &&& self.vendor_id == 0
        &&& self.device_id == 0
        &&& self.location_id == 0
        &&& self.domain == 0
        &&& self.drm_render_minor == 0
        &&& self.hive_id == 0
        &&& self.unique_id == 0
        &&& self.kfd_gpu_id == 0
        &&& self.capability == 0
        &&& self.capability2 == 0
        &&& self.debug_prop == 0
        &&& self.max_waves_per_simd == 0
        &&& self.lds_size_in_kb == 0
        &&& self.gds_size_in_kb == 0
        &&& self.wave_front_size == 0
        &&& self.local_mem_size == 0
        &&& self.array_count == 0
        &&& self.simd_arrays_per_engine == 0
        &&& self.cu_per_simd_array == 0
        &&& self.simd_per_cu == 0
        &&& self.max_slots_scratch_cu == 0
        &&& self.fw_version == 0
        &&& self.gfx_target_version == 0
        &&& self.num_sdma_engines == 0
        &&& self.num_sdma_xgmi_engines == 0
        &&& self.num_gws == 0
        &&& self.num_sdma_queues_per_engine == 0
        &&& self.num_cp_queues == 0
        &&& self.num_xcc == 0
        &&& self.max_engine_clk_fcompute == 0
        &&& self.max_engine_clk_ccompute == 0
        &&& self.marketing_name@ == Seq::<u8>::empty()
        &&& self.amd_name@ == Seq::<u8>::empty()
        &&& self.engine_id == (EngineId { major: 0, minor: 0, stepping: 0 })
        &&& self.num_shader_banks == 0
        &&& self.sgpr_size_per_cu == 0
        &&& self.vgpr_size_per_cu == 0
    }
}

impl Default for HsaNodeProperties {
    fn default() -> (r: Self)
        ensures
            r.is_default(),
    {
        HsaNodeProperties {
            node_id: 0,
            cpu_cores_count: 0,
            simd_count: 0,
            mem_banks_count: 0,
            caches_count: 0,
            io_links_count: 0,
            p2p_links_count: 0,
            cpu_core_id_base: 0,
            simd_id_base: 0,
            vendor_id: 0,
            device_id: 0,
            location_id: 0,
            domain: 0,
            drm_render_minor: 0,
            hive_id: 0,
            unique_id: 0,
            kfd_gpu_id: 0,
            capability: 0,
            capability2: 0,
            debug_prop: 0,
            max_waves_per_simd: 0,
            lds_size_in_kb: 0,
            gds_size_in_kb: 0,
            wave_front_size: 0,
            local_mem_size: 0,
            array_count: 0,
            simd_arrays_per_engine: 0,
            cu_per_simd_array: 0,
            simd_per_cu: 0,
            max_slots_scratch_cu: 0,
            fw_version: 0,
            gfx_target_version: 0,
            num_sdma_engines: 0,
            num_sdma_xgmi_engines: 0,
            num_gws: 0,
            num_sdma_queues_per_engine: 0,
            num_cp_queues: 0,
            num_xcc: 0,
            max_engine_clk_fcompute: 0,
            max_engine_clk_ccompute: 0,
            marketing_name: Vec::new(),
            amd_name: Vec::new(),
            engine_id: EngineId { major: 0, minor: 0, stepping: 0 },
            num_shader_banks: 0,
            sgpr_size_per_cu: 0,
            vgpr_size_per_cu: 0,
        }
    }
}

/// Logic to pick the VGPR bytes per CU for an engine version.
///
/// The large-VGPR GFX9 parts get 512 KiB, GFX11 and later 384 KiB, and
/// everything else 256 KiB.
pub fn get_vgpr_size_per_cu(major: u32, minor: u32, stepping: u32) -> (r: u32)
    ensures
        r == spec_vgpr_size_per_cu(major, minor, stepping),
{
    let is_large_vgpr_gfx9 = major == 9 && ((minor == 0 && stepping == 8) || (minor == 4) || (minor
        == 5 && stepping == 0));
    if is_large_vgpr_gfx9 {
        524288
    } else if major >= 11 {
        393216
    } else {
        262144
    }
}

/// VGPR bytes per CU as a function of the engine version triple.
pub open spec fn spec_vgpr_size_per_cu(major: u32, minor: u32, stepping: u32) -> u32 {
    if major == 9 && ((minor == 0 && stepping == 8) || (minor == 4) || (minor == 5 && stepping
        == 0)) {
        524288
    } else if major >= 11 {
        393216
    } else {
        262144
    }
}

/// An exact byte-for-byte copy.
pub fn copy_bytes(v: &Vec<u8>) -> (r: Vec<u8>)
    ensures
        r@ == v@,
{
    let mut r: Vec<u8> = Vec::new();
    let n = v.len();
    let mut i: usize = 0;
    while i < n
        invariant
            n == v@.len(),
            0 <= i <= n,
            r@ == v@.take(i as int),
        decreases n - i,
    {
        r.push(v[i]);
        proof {
            assert(r@ =~= v@.take(i + 1));
        }
        i = i + 1;
    }
    proof {
        assert(v@.take(n as int) =~= v@);
    }
    r
}

/// An exact element-for-element copy.
pub fn copy_u32s(v: &Vec<u32>) -> (r: Vec<u32>)
    ensures
        r@ == v@,
{
    let mut r: Vec<u32> = Vec::new();
    let n = v.len();
    let mut i: usize = 0;
    while i < n
        invariant
            n == v@.len(),
            0 <= i <= n,
            r@ == v@.take(i as int),
        decreases n - i,
    {
        r.push(v[i]);
        proof {
            assert(r@ =~= v@.take(i + 1));
        }
        i = i + 1;
    }
    proof {
        assert(v@.take(n as int) =~= v@);
    }
    r
}

/// Two property records that agree on every field except the node id
/// and the two counts that the topology layer adjusts.
pub open spec fn props_eq_core(a: &HsaNodeProperties, b: &HsaNodeProperties) -> bool {
    &&& a.cpu_cores_count == b.cpu_cores_count
    &&& a.simd_count == b.simd_count
    &&& a.caches_count == b.caches_count
    &&& a.p2p_links_count == b.p2p_links_count
    &&& a.cpu_core_id_base == b.cpu_core_id_base
    &&& a.simd_id_base == b.simd_id_base
    &&& a.vendor_id == b.vendor_id
    &&& a.device_id == b.device_id
    &&& a.location_id == b.location_id
    &&& a.domain == b.domain
    &&& a.drm_render_minor == b.drm_render_minor
    &&& a.hive_id == b.hive_id
    &&& a.unique_id == b.unique_id
    &&& a.kfd_gpu_id == b.kfd_gpu_id
    &&& a.capability == b.capability
    &&& a.capability2 == b.capability2
    &&& a.debug_prop == b.debug_prop
    &&& a.max_waves_per_simd == b.max_waves_per_simd
    &&& a.lds_size_in_kb == b.lds_size_in_kb
    &&& a.gds_size_in_kb == b.gds_size_in_kb
    &&& a.wave_front_size == b.wave_front_size
    &&& a.local_mem_size == b.local_mem_size
    &&& a.array_count == b.array_count
    &&& a.simd_arrays_per_engine == b.simd_arrays_per_engine
    &&& a.cu_per_simd_array == b.cu_per_simd_array
    &&& a.simd_per_cu == b.simd_per_cu
    &&& a.max_slots_scratch_cu == b.max_slots_scratch_cu
    &&& a.fw_version == b.fw_version
    &&& a.gfx_target_version == b.gfx_target_version
    &&& a.num_sdma_engines == b.num_sdma_engines
    &&& a.num_sdma_xgmi_engines == b.num_sdma_xgmi_engines
    &&& a.num_gws == b.num_gws
    &&& a.num_sdma_queues_per_engine == b.num_sdma_queues_per_engine
    &&& a.num_cp_queues == b.num_cp_queues
    &&& a.num_xcc == b.num_xcc
    &&& a.max_engine_clk_fcompute == b.max_engine_clk_fcompute
    &&& a.max_engine_clk_ccompute == b.max_engine_clk_ccompute
    &&& a.marketing_name@ == b.marketing_name@
    &&& a.amd_name@ == b.amd_name@
    &&& a.engine_id == b.engine_id
    &&& a.num_shader_banks == b.num_shader_banks
    &&& a.sgpr_size_per_cu == b.sgpr_size_per_cu
    &&& a.vgpr_size_per_cu == b.vgpr_size_per_cu
}

/// Two property records that agree on every field.
pub open spec fn props_eq(a: &HsaNodeProperties, b: &HsaNodeProperties) -> bool {
    &&& props_eq_core(a, b)
    &&& a.node_id == b.node_id
    &&& a.mem_banks_count == b.mem_banks_count
    &&& a.io_links_count == b.io_links_count
}

impl Clone for HsaNodeProperties {
    /// A clone agrees with the original on every field.
    fn clone(&self) -> (r: Self)
        ensures
            props_eq(&r, self),
    {
        HsaNodeProperties {
            node_id: self.node_id,
            cpu_cores_count: self.cpu_cores_count,
            simd_count: self.simd_count,
            mem_banks_count: self.mem_banks_count,
            caches_count: self.caches_count,
            io_links_count: self.io_links_count,
            p2p_links_count: self.p2p_links_count,
            cpu_core_id_base: self.cpu_core_id_base,
            simd_id_base: self.simd_id_base,
            vendor_id: self.vendor_id,
            device_id: self.device_id,
            location_id: self.location_id,
            domain: self.domain,
            drm_render_minor: self.drm_render_minor,
            hive_id: self.hive_id,
            unique_id: self.unique_id,
            kfd_gpu_id: self.kfd_gpu_id,
            capability: self.capability,
            capability2: self.capability2,
            debug_prop: self.debug_prop,
            max_waves_per_simd: self.max_waves_per_simd,
            lds_size_in_kb: self.lds_size_in_kb,
            gds_size_in_kb: self.gds_size_in_kb,
            wave_front_size: self.wave_front_size,
            local_mem_size: self.local_mem_size,
            array_count: self.array_count,
            simd_arrays_per_engine: self.simd_arrays_per_engine,
            cu_per_simd_array: self.cu_per_simd_array,
            simd_per_cu: self.simd_per_cu,
            max_slots_scratch_cu: self.max_slots_scratch_cu,
            fw_version: self.fw_version,
            gfx_target_version: self.gfx_target_version,
            num_sdma_engines: self.num_sdma_engines,
            num_sdma_xgmi_engines: self.num_sdma_xgmi_engines,
            num_gws: self.num_gws,
            num_sdma_queues_per_engine: self.num_sdma_queues_per_engine,
            num_cp_queues: self.num_cp_queues,
            num_xcc: self.num_xcc,
            max_engine_clk_fcompute: self.max_engine_clk_fcompute,
            max_engine_clk_ccompute: self.max_engine_clk_ccompute,
            marketing_name: copy_bytes(&self.marketing_name),
            amd_name: copy_bytes(&self.amd_name),
            engine_id: self.engine_id,
            num_shader_banks: self.num_shader_banks,
            sgpr_size_per_cu: self.sgpr_size_per_cu,
            vgpr_size_per_cu: self.vgpr_size_per_cu,
        }
    }
}

/// Two cache records that agree on every field.
pub open spec fn cache_eq(a: &HsaCacheProperties, b: &HsaCacheProperties) -> bool {
    &&& a.processor_id_low == b.processor_id_low
    &&& a.cache_level == b.cache_level
    &&& a.cache_size == b.cache_size
    &&& a.cache_line_size == b.cache_line_size
    &&& a.cache_lines_per_tag == b.cache_lines_per_tag
    &&& a.cache_associativity == b.cache_associativity
    &&& a.cache_latency == b.cache_latency
    &&& a.cache_type == b.cache_type
    &&& a.sibling_map@ == b.sibling_map@
}

impl Clone for HsaCacheProperties {
    /// A clone agrees with the original on every field.
    fn clone(&self) -> (r: Self)
        ensures
            cache_eq(&r, self),
    {
        HsaCacheProperties {
            processor_id_low: self.processor_id_low,
            cache_level: self.cache_level,
            cache_size: self.cache_size,
            cache_line_size: self.cache_line_size,
            cache_lines_per_tag: self.cache_lines_per_tag,
            cache_associativity: self.cache_associativity,
            cache_latency: self.cache_latency,
            cache_type: self.cache_type,
            sibling_map: copy_u32s(&self.sibling_map),
        }
    }
}

/// An exact copy of a vector of plain values.
pub fn copy_vals<T: Copy>(v: &Vec<T>) -> (r: Vec<T>)
    ensures
        r@ == v@,
{
    let mut r: Vec<T> = Vec::new();
    let n = v.len();
    let mut i: usize = 0;
    while i < n
        invariant
            n == v@.len(),
            0 <= i <= n,
            r@ == v@.take(i as int),
        decreases n - i,
    {
        r.push(v[i]);
        proof {
            assert(r@ =~= v@.take(i + 1));
        }
        i = i + 1;
    }
    proof {
        assert(v@.take(n as int) =~= v@);
    }
    r
}

/// Two nodes that agree on every record.
pub open spec fn node_eq(a: &Node, b: &Node) -> bool {
    &&& props_eq(&a.properties, &b.properties)
    &&& a.mem_banks@ == b.mem_banks@
    &&& a.io_links@ == b.io_links@
    &&& a.caches@.len() == b.caches@.len()
    &&& forall|i: int| 0 <= i < a.caches@.len() ==> cache_eq(&#[trigger] a.caches@[i], &b.caches@[i])
}

impl Clone for Node {
    /// A clone agrees with the original on every record.
    fn clone(&self) -> (r: Self)
        ensures
            node_eq(&r, self),
    {
        let mut caches: Vec<HsaCacheProperties> = Vec::new();
        let n = self.caches.len();
        let mut i: usize = 0;
        while i < n
            invariant
                n == self.caches@.len(),
                0 <= i <= n,
                caches@.len() == i,
                forall|k: int|
                    0 <= k < i ==> cache_eq(&#[trigger] caches@[k], &self.caches@[k]),
            decreases n - i,
        {
            caches.push(self.caches[i].clone());
            i = i + 1;
        }
        Node {
            properties: self.properties.clone(),
            mem_banks: copy_vals(&self.mem_banks),
            caches,
            io_links: copy_vals(&self.io_links),
        }
    }
}

} // verus!
