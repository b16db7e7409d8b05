//! Parsers for the sysfs topology text files, byte for byte.
//!
//! Each properties file holds lines of `key value` pairs split on ASCII
//! whitespace.  Unrecognized keys, lines without two tokens and
//! non-numeric values are skipped, exactly as the fold specifications
//! state.

use vstd::prelude::*;
use vstd::string::StringSliceAdditionalSpecFns;
use crate::sysfs::{HsaNodeProperties, HsaMemoryProperties, HsaIoLinkProperties, HsaSystemProperties};

verus! {

/// ASCII whitespace: space, tab, newline, carriage return.
pub open spec fn is_ws(b: u8) -> bool {
    b == 32 || b == 9 || b == 10 || b == 13
}

/// The end of the line starting at `i`: the first newline at or after
/// `i`, else the end of the text.
pub open spec fn spec_line_end(s: Seq<u8>, i: int) -> int
    decreases s.len() - i,
{
    if i < 0 || i >= s.len() {
        s.len() as int
    } else if s[i] == 10 {
        i
    } else {
        spec_line_end(s, i + 1)
    }
}

/// First non-whitespace position in `[i, end)`, else `end`.
pub open spec fn spec_skip_ws(s: Seq<u8>, i: int, end: int) -> int
    decreases end - i,
{
    if i < 0 || i >= end || end > s.len() {
        end
    } else if is_ws(s[i]) {
        spec_skip_ws(s, i + 1, end)
    } else {
        i
    }
}

/// First whitespace position in `[i, end)`, else `end`.
pub open spec fn spec_find_ws(s: Seq<u8>, i: int, end: int) -> int
    decreases end - i,
{
    if i < 0 || i >= end || end > s.len() {
        end
    } else if is_ws(s[i]) {
        i
    } else {
        spec_find_ws(s, i + 1, end)
    }
}

/// Whether `[a, b)` of `s` is all decimal digits.
pub open spec fn spec_all_digits(s: Seq<u8>, a: int, b: int) -> bool {
    forall|k: int| a <= k < b ==> 48 <= #[trigger] s[k] <= 57
}

/// The decimal value of the digits in `[a, b)`.
pub open spec fn spec_dec_val(s: Seq<u8>, a: int, b: int) -> int
    decreases b - a,
{
    if b <= a {
        0
    } else {
        spec_dec_val(s, a, b - 1) * 10 + (s[b - 1] - 48)
    }
}

/// The parsed `u64` of `[a, b)`: defined when the range is nonempty,
/// all digits, and the value fits.
pub open spec fn spec_u64_of(s: Seq<u8>, a: int, b: int) -> Option<u64> {
    if a < b && b <= s.len() && spec_all_digits(s, a, b) && spec_dec_val(s, a, b) <= u64::MAX {
        Some(spec_dec_val(s, a, b) as u64)
    } else {
        None
    }
}

/// The key and value token ranges of the line `[ls, le)`, if it has at
/// least two whitespace-separated tokens.
pub open spec fn spec_key_value(s: Seq<u8>, ls: int, le: int) -> Option<((int, int), (int, int))> {
    let ka = spec_skip_ws(s, ls, le);
    if ka >= le {
        None
    } else {
        let kb = spec_find_ws(s, ka, le);
        let va = spec_skip_ws(s, kb, le);
        if va >= le {
            None
        } else {
            let vb = spec_find_ws(s, va, le);
            Some(((ka, kb), (va, vb)))
        }
    }
}

/// The value-bearing fields of a node-property record, with name bytes
/// abstracted to sequences.
pub ghost struct NodePropsModel {
    pub node_id: u32,
    pub cpu_cores_count: u32,
    pub simd_count: u32,
    pub mem_banks_count: u32,
    pub caches_count: u32,
    pub io_links_count: u32,
    pub p2p_links_count: u32,
    pub cpu_core_id_base: u32,
    pub simd_id_base: u32,
    pub vendor_id: u32,
    pub device_id: u32,
    pub location_id: u32,
    pub domain: u32,
    pub drm_render_minor: i32,
    pub hive_id: u64,
    pub unique_id: u64,
    pub kfd_gpu_id: u32,
    pub capability: u32,
    pub capability2: u32,
    pub debug_prop: u64,
    pub max_waves_per_simd: u32,
    pub lds_size_in_kb: u32,
    pub gds_size_in_kb: u32,
    pub wave_front_size: u32,
    pub local_mem_size: u64,
    pub array_count: u32,
    pub simd_arrays_per_engine: u32,
    pub cu_per_simd_array: u32,
    pub simd_per_cu: u32,
    pub max_slots_scratch_cu: u32,
    pub fw_version: u32,
    pub gfx_target_version: u32,
    pub num_sdma_engines: u32,
    pub num_sdma_xgmi_engines: u32,
    pub num_gws: u32,
    pub num_sdma_queues_per_engine: u32,
    pub num_cp_queues: u32,
    pub num_xcc: u32,
    pub max_engine_clk_fcompute: u32,
    pub max_engine_clk_ccompute: u32,
    pub marketing_name: Seq<u8>,
    pub amd_name: Seq<u8>,
}

/// The model of a property record.
pub open spec fn props_model(p: &HsaNodeProperties) -> NodePropsModel {
    NodePropsModel {
        node_id: p.node_id,
        cpu_cores_count: p.cpu_cores_count,
        simd_count: p.simd_count,
        mem_banks_count: p.mem_banks_count,
        caches_count: p.caches_count,
        io_links_count: p.io_links_count,
        p2p_links_count: p.p2p_links_count,
        cpu_core_id_base: p.cpu_core_id_base,
        simd_id_base: p.simd_id_base,
        vendor_id: p.vendor_id,
        device_id: p.device_id,
        location_id: p.location_id,
        domain: p.domain,
        drm_render_minor: p.drm_render_minor,
        hive_id: p.hive_id,
        unique_id: p.unique_id,
        kfd_gpu_id: p.kfd_gpu_id,
        capability: p.capability,
        capability2: p.capability2,
        debug_prop: p.debug_prop,
        max_waves_per_simd: p.max_waves_per_simd,
        lds_size_in_kb: p.lds_size_in_kb,
        gds_size_in_kb: p.gds_size_in_kb,
        wave_front_size: p.wave_front_size,
        local_mem_size: p.local_mem_size,
        array_count: p.array_count,
        simd_arrays_per_engine: p.simd_arrays_per_engine,
        cu_per_simd_array: p.cu_per_simd_array,
        simd_per_cu: p.simd_per_cu,
        max_slots_scratch_cu: p.max_slots_scratch_cu,
        fw_version: p.fw_version,
        gfx_target_version: p.gfx_target_version,
        num_sdma_engines: p.num_sdma_engines,
        num_sdma_xgmi_engines: p.num_sdma_xgmi_engines,
        num_gws: p.num_gws,
        num_sdma_queues_per_engine: p.num_sdma_queues_per_engine,
        num_cp_queues: p.num_cp_queues,
        num_xcc: p.num_xcc,
        max_engine_clk_fcompute: p.max_engine_clk_fcompute,
        max_engine_clk_ccompute: p.max_engine_clk_ccompute,
        marketing_name: p.marketing_name@,
        amd_name: p.amd_name@,
    }
}

/// One recognized numeric key applied to the model.
pub open spec fn spec_apply_node_num(m: NodePropsModel, key: Seq<u8>, v: u64) -> NodePropsModel {
    if key == "cpu_cores_count".spec_bytes() {
        NodePropsModel { cpu_cores_count: v as u32, ..m }
    } else     if key == "simd_count".spec_bytes() {
        NodePropsModel { simd_count: v as u32, ..m }
    } else     if key == "mem_banks_count".spec_bytes() {
        NodePropsModel { mem_banks_count: v as u32, ..m }
    } else     if key == "caches_count".spec_bytes() {
        NodePropsModel { caches_count: v as u32, ..m }
    } else     if key == "io_links_count".spec_bytes() {
        NodePropsModel { io_links_count: v as u32, ..m }
    } else     if key == "p2p_links_count".spec_bytes() {
        NodePropsModel { p2p_links_count: v as u32, ..m }
    } else     if key == "cpu_core_id_base".spec_bytes() {
        NodePropsModel { cpu_core_id_base: v as u32, ..m }
    } else     if key == "simd_id_base".spec_bytes() {
        NodePropsModel { simd_id_base: v as u32, ..m }
    } else     if key == "capability".spec_bytes() {
        NodePropsModel { capability: v as u32, ..m }
    } else     if key == "capability2".spec_bytes() {
        NodePropsModel { capability2: v as u32, ..m }
    } else     if key == "max_waves_per_simd".spec_bytes() {
        NodePropsModel { max_waves_per_simd: v as u32, ..m }
    } else     if key == "lds_size_in_kb".spec_bytes() {
        NodePropsModel { lds_size_in_kb: v as u32, ..m }
    } else     if key == "gds_size_in_kb".spec_bytes() {
        NodePropsModel { gds_size_in_kb: v as u32, ..m }
    } else     if key == "wave_front_size".spec_bytes() {
        NodePropsModel { wave_front_size: v as u32, ..m }
    } else     if key == "array_count".spec_bytes() {
        NodePropsModel { array_count: v as u32, ..m }
    } else     if key == "simd_arrays_per_engine".spec_bytes() {
        NodePropsModel { simd_arrays_per_engine: v as u32, ..m }
    } else     if key == "cu_per_simd_array".spec_bytes() {
        NodePropsModel { cu_per_simd_array: v as u32, ..m }
    } else     if key == "simd_per_cu".spec_bytes() {
        NodePropsModel { simd_per_cu: v as u32, ..m }
    } else     if key == "max_slots_scratch_cu".spec_bytes() {
        NodePropsModel { max_slots_scratch_cu: v as u32, ..m }
    } else     if key == "fw_version".spec_bytes() {
        NodePropsModel { fw_version: v as u32, ..m }
    } else     if key == "vendor_id".spec_bytes() {
        NodePropsModel { vendor_id: v as u32, ..m }
    } else     if key == "device_id".spec_bytes() {
        NodePropsModel { device_id: v as u32, ..m }
    } else     if key == "location_id".spec_bytes() {
        NodePropsModel { location_id: v as u32, ..m }
    } else     if key == "domain".spec_bytes() {
        NodePropsModel { domain: v as u32, ..m }
    } else     if key == "max_engine_clk_fcompute".spec_bytes() {
        NodePropsModel { max_engine_clk_fcompute: v as u32, ..m }
    } else     if key == "max_engine_clk_ccompute".spec_bytes() {
        NodePropsModel { max_engine_clk_ccompute: v as u32, ..m }
    } else     if key == "num_sdma_engines".spec_bytes() {
        NodePropsModel { num_sdma_engines: v as u32, ..m }
    } else     if key == "num_sdma_xgmi_engines".spec_bytes() {
        NodePropsModel { num_sdma_xgmi_engines: v as u32, ..m }
    } else     if key == "num_gws".spec_bytes() {
        NodePropsModel { num_gws: v as u32, ..m }
    } else     if key == "num_sdma_queues_per_engine".spec_bytes() {
        NodePropsModel { num_sdma_queues_per_engine: v as u32, ..m }
    } else     if key == "num_cp_queues".spec_bytes() {
        NodePropsModel { num_cp_queues: v as u32, ..m }
    } else     if key == "num_xcc".spec_bytes() {
        NodePropsModel { num_xcc: v as u32, ..m }
    } else     if key == "gfx_target_version".spec_bytes() {
        NodePropsModel { gfx_target_version: v as u32, ..m }
    } else     if key == "debug_prop".spec_bytes() {
        NodePropsModel { debug_prop: v, ..m }
    } else     if key == "local_mem_size".spec_bytes() {
        NodePropsModel { local_mem_size: v, ..m }
    } else     if key == "hive_id".spec_bytes() {
        NodePropsModel { hive_id: v, ..m }
    } else     if key == "unique_id".spec_bytes() {
        NodePropsModel { unique_id: v, ..m }
    } else     if key == "drm_render_minor".spec_bytes() {
        NodePropsModel { drm_render_minor: v as i32, ..m }
    } else     {
        m
    }
}

/// One key/value line applied to the model: the numeric keys update
/// their field when the value parses; the `name` key stores the raw
/// value bytes as the marketing name.
pub open spec fn spec_apply_node_kv(
    m: NodePropsModel,
    s: Seq<u8>,
    ka: int,
    kb: int,
    va: int,
    vb: int,
) -> NodePropsModel {
    let m1 = match spec_u64_of(s, va, vb) {
        Some(v) => spec_apply_node_num(m, s.subrange(ka, kb), v),
        None => m,
    };
    if s.subrange(ka, kb) == "name".spec_bytes() {
        NodePropsModel { marketing_name: s.subrange(va, vb), ..m1 }
    } else {
        m1
    }
}

/// One line applied to the model; a line without two tokens is skipped.
pub open spec fn spec_apply_node_line(
    m: NodePropsModel,
    s: Seq<u8>,
    ls: int,
    le: int,
) -> NodePropsModel {
    match spec_key_value(s, ls, le) {
        Some(((ka, kb), (va, vb))) => spec_apply_node_kv(m, s, ka, kb, va, vb),
        None => m,
    }
}

/// The whole text folded into the model, line by line.
pub open spec fn spec_parse_node_props(s: Seq<u8>, i: int, m: NodePropsModel) -> NodePropsModel
    decreases s.len() + 1 - i,
    via spec_parse_node_props_dec
{
    if i < 0 || i >= s.len() {
        m
    } else {
        let le = spec_line_end(s, i);
        spec_parse_node_props(s, le + 1, spec_apply_node_line(m, s, i, le))
    }
}

/// One recognized key of a memory-bank record.
pub open spec fn spec_apply_mem_num(
    m: HsaMemoryProperties,
    key: Seq<u8>,
    v: u64,
) -> HsaMemoryProperties {
    if key == "heap_type".spec_bytes() {
        HsaMemoryProperties { heap_type: v as u32, ..m }
    } else     if key == "size_in_bytes".spec_bytes() {
        HsaMemoryProperties { size_in_bytes: v, ..m }
    } else     if key == "flags".spec_bytes() {
        HsaMemoryProperties { flags: v as u32, ..m }
    } else     if key == "width".spec_bytes() {
        HsaMemoryProperties { width: v as u32, ..m }
    } else     if key == "mem_clk_max".spec_bytes() {
        HsaMemoryProperties { mem_clk_max: v as u32, ..m }
    } else     {
        m
    }
}

pub open spec fn spec_apply_mem_line(
    m: HsaMemoryProperties,
    s: Seq<u8>,
    ls: int,
    le: int,
) -> HsaMemoryProperties {
    match spec_key_value(s, ls, le) {
        Some(((ka, kb), (va, vb))) => match spec_u64_of(s, va, vb) {
            Some(v) => spec_apply_mem_num(m, s.subrange(ka, kb), v),
            None => m,
        },
        None => m,
    }
}

pub open spec fn spec_parse_mem_props(
    s: Seq<u8>,
    i: int,
    m: HsaMemoryProperties,
) -> HsaMemoryProperties
    decreases s.len() + 1 - i,
    via spec_parse_mem_props_dec
{
    if i < 0 || i >= s.len() {
        m
    } else {
        let le = spec_line_end(s, i);
        spec_parse_mem_props(s, le + 1, spec_apply_mem_line(m, s, i, le))
    }
}

/// One recognized key of an io-link record.
pub open spec fn spec_apply_link_num(
    m: HsaIoLinkProperties,
    key: Seq<u8>,
    v: u64,
) -> HsaIoLinkProperties {
    if key == "type".spec_bytes() {
        HsaIoLinkProperties { type_: v as u32, ..m }
    } else     if key == "version_major".spec_bytes() {
        HsaIoLinkProperties { version_major: v as u32, ..m }
    } else     if key == "version_minor".spec_bytes() {
        HsaIoLinkProperties { version_minor: v as u32, ..m }
    } else     if key == "node_from".spec_bytes() {
        HsaIoLinkProperties { node_from: v as u32, ..m }
    } else     if key == "node_to".spec_bytes() {
        HsaIoLinkProperties { node_to: v as u32, ..m }
    } else     if key == "weight".spec_bytes() {
        HsaIoLinkProperties { weight: v as u32, ..m }
    } else     if key == "min_latency".spec_bytes() {
        HsaIoLinkProperties { min_latency: v as u32, ..m }
    } else     if key == "max_latency".spec_bytes() {
        HsaIoLinkProperties { max_latency: v as u32, ..m }
    } else     if key == "min_bandwidth".spec_bytes() {
        HsaIoLinkProperties { min_bandwidth: v as u32, ..m }
    } else     if key == "max_bandwidth".spec_bytes() {
        HsaIoLinkProperties { max_bandwidth: v as u32, ..m }
    } else     if key == "recommended_transfer_size".spec_bytes() {
        HsaIoLinkProperties { rec_transfer_size: v as u32, ..m }
    } else     if key == "recommended_sdma_engine_id_mask".spec_bytes() {
        HsaIoLinkProperties { rec_sdma_eng_id_mask: v as u32, ..m }
    } else     if key == "flags".spec_bytes() {
        HsaIoLinkProperties { flags: v as u32, ..m }
    } else     {
        m
    }
}

pub open spec fn spec_apply_link_line(
    m: HsaIoLinkProperties,
    s: Seq<u8>,
    ls: int,
    le: int,
) -> HsaIoLinkProperties {
    match spec_key_value(s, ls, le) {
        Some(((ka, kb), (va, vb))) => match spec_u64_of(s, va, vb) {
            Some(v) => spec_apply_link_num(m, s.subrange(ka, kb), v),
            None => m,
        },
        None => m,
    }
}

pub open spec fn spec_parse_link_props(
    s: Seq<u8>,
    i: int,
    m: HsaIoLinkProperties,
) -> HsaIoLinkProperties
    decreases s.len() + 1 - i,
    via spec_parse_link_props_dec
{
    if i < 0 || i >= s.len() {
        m
    } else {
        let le = spec_line_end(s, i);
        spec_parse_link_props(s, le + 1, spec_apply_link_line(m, s, i, le))
    }
}


/// The line end lies between `i` and the end of the text.
pub proof fn lemma_line_end_bounds(s: Seq<u8>, i: int)
    requires
        0 <= i <= s.len(),
    ensures
        i <= spec_line_end(s, i) <= s.len(),
    decreases s.len() - i,
{
    if i < s.len() && s[i] != 10 {
        lemma_line_end_bounds(s, i + 1);
    }
}

#[via_fn]
proof fn spec_parse_node_props_dec(s: Seq<u8>, i: int, m: NodePropsModel) {
    if 0 <= i < s.len() {
        lemma_line_end_bounds(s, i);
    }
}

#[via_fn]
proof fn spec_parse_mem_props_dec(s: Seq<u8>, i: int, m: HsaMemoryProperties) {
    if 0 <= i < s.len() {
        lemma_line_end_bounds(s, i);
    }
}

#[via_fn]
proof fn spec_parse_link_props_dec(s: Seq<u8>, i: int, m: HsaIoLinkProperties) {
    if 0 <= i < s.len() {
        lemma_line_end_bounds(s, i);
    }
}

/// End of the line starting at `i`.
fn find_line_end(s: &[u8], i: usize) -> (r: usize)
    requires
        i <= s@.len(),
    ensures
        r == spec_line_end(s@, i as int),
        i <= r <= s@.len(),
{
    let n = s.len();
    let mut j: usize = i;
    while j < n
        invariant
            i <= j <= n,
            n == s@.len(),
            spec_line_end(s@, i as int) == spec_line_end(s@, j as int),
        decreases n - j,
    {
        if s[j] == 10 {
            return j;
        }
        j = j + 1;
    }
    n
}

/// First non-whitespace position in `[i, end)`, else `end`.
fn skip_ws_idx(s: &[u8], i: usize, end: usize) -> (r: usize)
    requires
        i <= end,
        end <= s@.len(),
    ensures
        r == spec_skip_ws(s@, i as int, end as int),
        i <= r <= end,
{
    let mut j: usize = i;
    while j < end
        invariant
            i <= j <= end,
            end <= s@.len(),
            spec_skip_ws(s@, i as int, end as int) == spec_skip_ws(s@, j as int, end as int),
        decreases end - j,
    {
        let b = s[j];
        if !(b == 32 || b == 9 || b == 10 || b == 13) {
            return j;
        }
        j = j + 1;
    }
    end
}

/// First whitespace position in `[i, end)`, else `end`.
fn find_ws_idx(s: &[u8], i: usize, end: usize) -> (r: usize)
    requires
        i <= end,
        end <= s@.len(),
    ensures
        r == spec_find_ws(s@, i as int, end as int),
        i <= r <= end,
{
    let mut j: usize = i;
    while j < end
        invariant
            i <= j <= end,
            end <= s@.len(),
            spec_find_ws(s@, i as int, end as int) == spec_find_ws(s@, j as int, end as int),
        decreases end - j,
    {
        let b = s[j];
        if b == 32 || b == 9 || b == 10 || b == 13 {
            return j;
        }
        j = j + 1;
    }
    end
}

/// Parses the decimal digits in `[a, b)`.
pub fn parse_u64_dec(s: &[u8], a: usize, b: usize) -> (r: Option<u64>)
    requires
        a <= b,
        b <= s@.len(),
    ensures
        r == spec_u64_of(s@, a as int, b as int),
{
    if a >= b {
        return None;
    }
    let mut acc: u64 = 0;
    let mut i: usize = a;
    while i < b
        invariant
            a <= i <= b,
            b <= s@.len(),
            a < b,
            spec_all_digits(s@, a as int, i as int),
            acc == spec_dec_val(s@, a as int, i as int),
        decreases b - i,
    {
        let c = s[i];
        if c < 48 || c > 57 {
            proof {
                assert(!spec_all_digits(s@, a as int, b as int));
            }
            return None;
        }
        let d: u64 = (c - 48) as u64;
        if acc > (u64::MAX - d) / 10 {
            proof {
                assert(spec_dec_val(s@, a as int, i + 1 as int) == acc * 10 + d);
                assert(spec_dec_val(s@, a as int, i + 1 as int) > u64::MAX) by (nonlinear_arith)
                    requires
                        spec_dec_val(s@, a as int, i + 1 as int) == acc * 10 + d,
                        acc > ((u64::MAX - d) / 10) as u64,
                        0 <= d <= 9,
                        acc >= 0,
                ;
            }
            if all_digits_check(s, i, b) {
                proof {
                    assert(spec_all_digits(s@, a as int, b as int));
                    lemma_dec_val_monotone(s@, a as int, i + 1 as int, b as int);
                }
                return None;
            } else {
                proof {
                    let k = choose|k: int|
                        i <= k < b && !(48 <= #[trigger] s@[k] <= 57);
                    assert(!spec_all_digits(s@, a as int, b as int));
                }
                return None;
            }
        }
        acc = acc * 10 + d;
        i = i + 1;
    }
    Some(acc)
}

/// Whether `[i, b)` is all digits.
fn all_digits_check(s: &[u8], i: usize, b: usize) -> (r: bool)
    requires
        i <= b,
        b <= s@.len(),
    ensures
        r == spec_all_digits(s@, i as int, b as int),
{
    let mut j: usize = i;
    while j < b
        invariant
            i <= j <= b,
            b <= s@.len(),
            spec_all_digits(s@, i as int, j as int),
        decreases b - j,
    {
        let c = s[j];
        if c < 48 || c > 57 {
            proof {
                assert(!(48 <= s@[j as int] <= 57));
            }
            return false;
        }
        j = j + 1;
    }
    true
}

/// The value of a digit range only grows as digits are appended.
proof fn lemma_dec_val_monotone(s: Seq<u8>, a: int, i: int, b: int)
    requires
        a <= i <= b,
        b <= s.len(),
        spec_all_digits(s, a, b),
    ensures
        spec_dec_val(s, a, b) >= spec_dec_val(s, a, i),
    decreases b - i,
{
    if i < b {
        lemma_dec_val_monotone(s, a, i + 1, b);
        lemma_dec_val_nonneg(s, a, i);
        assert(spec_dec_val(s, a, i + 1) == spec_dec_val(s, a, i) * 10 + (s[i] - 48));
        assert(spec_dec_val(s, a, i + 1) >= spec_dec_val(s, a, i)) by (nonlinear_arith)
            requires
                spec_dec_val(s, a, i + 1) == spec_dec_val(s, a, i) * 10 + (s[i] - 48),
                spec_dec_val(s, a, i) >= 0,
                s[i] >= 48,
        ;
    }
}

/// A digit range's value is non-negative.
proof fn lemma_dec_val_nonneg(s: Seq<u8>, a: int, b: int)
    requires
        b <= a || spec_all_digits(s, a, b),
        b <= s.len(),
    ensures
        spec_dec_val(s, a, b) >= 0,
    decreases b - a,
{
    if b > a {
        lemma_dec_val_nonneg(s, a, b - 1);
        assert(spec_dec_val(s, a, b) >= 0) by (nonlinear_arith)
            requires
                spec_dec_val(s, a, b) == spec_dec_val(s, a, b - 1) * 10 + (s[b - 1] - 48),
                spec_dec_val(s, a, b - 1) >= 0,
                s[b - 1] >= 48,
        ;
    }
}

/// Whether `[a, b)` of `s` equals `pat`.
fn token_eq(s: &[u8], a: usize, b: usize, pat: &[u8]) -> (r: bool)
    requires
        a <= b,
        b <= s@.len(),
    ensures
        r == (s@.subrange(a as int, b as int) == pat@),
{
    if b - a != pat.len() {
        proof {
            assert(s@.subrange(a as int, b as int).len() != pat@.len());
        }
        return false;
    }
    let n = pat.len();
    let mut i: usize = 0;
    while i < n
        invariant
            a <= b <= s@.len(),
            n == pat@.len(),
            n == b - a,
            0 <= i <= n,
            forall|k: int| 0 <= k < i ==> s@[a + k] == pat@[k],
        decreases n - i,
    {
        if s[a + i] != pat[i] {
            proof {
                assert(s@.subrange(a as int, b as int)[i as int] != pat@[i as int]);
            }
            return false;
        }
        i = i + 1;
    }
    proof {
        assert(s@.subrange(a as int, b as int) =~= pat@);
    }
    true
}

/// Applies one numeric key/value pair to a property record.
fn apply_node_num(p: &mut HsaNodeProperties, s: &[u8], ka: usize, kb: usize, v: u64)
    requires
        ka <= kb,
        kb <= s@.len(),
    ensures
        props_model(final(p)) == spec_apply_node_num(
            props_model(old(p)),
            s@.subrange(ka as int, kb as int),
            v,
        ),
{
        if token_eq(s, ka, kb, "cpu_cores_count".as_bytes()) {
            p.cpu_cores_count = v as u32;
            return ;
        }
        if token_eq(s, ka, kb, "simd_count".as_bytes()) {
            p.simd_count = v as u32;
            return ;
        }
        if token_eq(s, ka, kb, "mem_banks_count".as_bytes()) {
            p.mem_banks_count = v as u32;
            return ;
        }
        if token_eq(s, ka, kb, "caches_count".as_bytes()) {
            p.caches_count = v as u32;
            return ;
        }
        if token_eq(s, ka, kb, "io_links_count".as_bytes()) {
            p.io_links_count = v as u32;
            return ;
        }
        if token_eq(s, ka, kb, "p2p_links_count".as_bytes()) {
            p.p2p_links_count = v as u32;
            return ;
        }
        if token_eq(s, ka, kb, "cpu_core_id_base".as_bytes()) {
            p.cpu_core_id_base = v as u32;
            return ;
        }
        if token_eq(s, ka, kb, "simd_id_base".as_bytes()) {
            p.simd_id_base = v as u32;
            return ;
        }
        if token_eq(s, ka, kb, "capability".as_bytes()) {
            p.capability = v as u32;
            return ;
        }
        if token_eq(s, ka, kb, "capability2".as_bytes()) {
            p.capability2 = v as u32;
            return ;
        }
        if token_eq(s, ka, kb, "max_waves_per_simd".as_bytes()) {
            p.max_waves_per_simd = v as u32;
            return ;
        }
        if token_eq(s, ka, kb, "lds_size_in_kb".as_bytes()) {
            p.lds_size_in_kb = v as u32;
            return ;
        }
        if token_eq(s, ka, kb, "gds_size_in_kb".as_bytes()) {
            p.gds_size_in_kb = v as u32;
            return ;
        }
        if token_eq(s, ka, kb, "wave_front_size".as_bytes()) {
            p.wave_front_size = v as u32;
            return ;
        }
        if token_eq(s, ka, kb, "array_count".as_bytes()) {
            p.array_count = v as u32;
            return ;
        }
        if token_eq(s, ka, kb, "simd_arrays_per_engine".as_bytes()) {
            p.simd_arrays_per_engine = v as u32;
            return ;
        }
        if token_eq(s, ka, kb, "cu_per_simd_array".as_bytes()) {
            p.cu_per_simd_array = v as u32;
            return ;
        }
        if token_eq(s, ka, kb, "simd_per_cu".as_bytes()) {
            p.simd_per_cu = v as u32;
            return ;
        }
        if token_eq(s, ka, kb, "max_slots_scratch_cu".as_bytes()) {
            p.max_slots_scratch_cu = v as u32;
            return ;
        }
        if token_eq(s, ka, kb, "fw_version".as_bytes()) {
            p.fw_version = v as u32;
            return ;
        }
        if token_eq(s, ka, kb, "vendor_id".as_bytes()) {
            p.vendor_id = v as u32;
            return ;
        }
        if token_eq(s, ka, kb, "device_id".as_bytes()) {
            p.device_id = v as u32;
            return ;
        }
        if token_eq(s, ka, kb, "location_id".as_bytes()) {
            p.location_id = v as u32;
            return ;
        }
        if token_eq(s, ka, kb, "domain".as_bytes()) {
            p.domain = v as u32;
            return ;
        }
        if token_eq(s, ka, kb, "max_engine_clk_fcompute".as_bytes()) {
            p.max_engine_clk_fcompute = v as u32;
            return ;
        }
        if token_eq(s, ka, kb, "max_engine_clk_ccompute".as_bytes()) {
            p.max_engine_clk_ccompute = v as u32;
            return ;
        }
        if token_eq(s, ka, kb, "num_sdma_engines".as_bytes()) {
            p.num_sdma_engines = v as u32;
            return ;
        }
        if token_eq(s, ka, kb, "num_sdma_xgmi_engines".as_bytes()) {
            p.num_sdma_xgmi_engines = v as u32;
            return ;
        }
        if token_eq(s, ka, kb, "num_gws".as_bytes()) {
            p.num_gws = v as u32;
            return ;
        }
        if token_eq(s, ka, kb, "num_sdma_queues_per_engine".as_bytes()) {
            p.num_sdma_queues_per_engine = v as u32;
            return ;
        }
        if token_eq(s, ka, kb, "num_cp_queues".as_bytes()) {
            p.num_cp_queues = v as u32;
            return ;
        }
        if token_eq(s, ka, kb, "num_xcc".as_bytes()) {
            p.num_xcc = v as u32;
            return ;
        }
        if token_eq(s, ka, kb, "gfx_target_version".as_bytes()) {
            p.gfx_target_version = v as u32;
            return ;
        }
        if token_eq(s, ka, kb, "debug_prop".as_bytes()) {
            p.debug_prop = v;
            return ;
        }
        if token_eq(s, ka, kb, "local_mem_size".as_bytes()) {
            p.local_mem_size = v;
            return ;
        }
        if token_eq(s, ka, kb, "hive_id".as_bytes()) {
            p.hive_id = v;
            return ;
        }
        if token_eq(s, ka, kb, "unique_id".as_bytes()) {
            p.unique_id = v;
            return ;
        }
        if token_eq(s, ka, kb, "drm_render_minor".as_bytes()) {
            p.drm_render_minor = v as i32;
            return ;
        }
}

/// Applies one numeric key/value pair to a memory-bank record.
fn apply_mem_num(p: &mut HsaMemoryProperties, s: &[u8], ka: usize, kb: usize, v: u64)
    requires
        ka <= kb,
        kb <= s@.len(),
    ensures
        *final(p) == spec_apply_mem_num(*old(p), s@.subrange(ka as int, kb as int), v),
{
        if token_eq(s, ka, kb, "heap_type".as_bytes()) {
            p.heap_type = v as u32;
            return ;
        }
        if token_eq(s, ka, kb, "size_in_bytes".as_bytes()) {
            p.size_in_bytes = v;
            return ;
        }
        if token_eq(s, ka, kb, "flags".as_bytes()) {
            p.flags = v as u32;
            return ;
        }
        if token_eq(s, ka, kb, "width".as_bytes()) {
            p.width = v as u32;
            return ;
        }
        if token_eq(s, ka, kb, "mem_clk_max".as_bytes()) {
            p.mem_clk_max = v as u32;
            return ;
        }
}

/// Applies one numeric key/value pair to an io-link record.
fn apply_link_num(p: &mut HsaIoLinkProperties, s: &[u8], ka: usize, kb: usize, v: u64)
    requires
        ka <= kb,
        kb <= s@.len(),
    ensures
        *final(p) == spec_apply_link_num(*old(p), s@.subrange(ka as int, kb as int), v),
{
        if token_eq(s, ka, kb, "type".as_bytes()) {
            p.type_ = v as u32;
            return ;
        }
        if token_eq(s, ka, kb, "version_major".as_bytes()) {
            p.version_major = v as u32;
            return ;
        }
        if token_eq(s, ka, kb, "version_minor".as_bytes()) {
            p.version_minor = v as u32;
            return ;
        }
        if token_eq(s, ka, kb, "node_from".as_bytes()) {
            p.node_from = v as u32;
            return ;
        }
        if token_eq(s, ka, kb, "node_to".as_bytes()) {
            p.node_to = v as u32;
            return ;
        }
        if token_eq(s, ka, kb, "weight".as_bytes()) {
            p.weight = v as u32;
            return ;
        }
        if token_eq(s, ka, kb, "min_latency".as_bytes()) {
            p.min_latency = v as u32;
            return ;
        }
        if token_eq(s, ka, kb, "max_latency".as_bytes()) {
            p.max_latency = v as u32;
            return ;
        }
        if token_eq(s, ka, kb, "min_bandwidth".as_bytes()) {
            p.min_bandwidth = v as u32;
            return ;
        }
        if token_eq(s, ka, kb, "max_bandwidth".as_bytes()) {
            p.max_bandwidth = v as u32;
            return ;
        }
        if token_eq(s, ka, kb, "recommended_transfer_size".as_bytes()) {
            p.rec_transfer_size = v as u32;
            return ;
        }
        if token_eq(s, ka, kb, "recommended_sdma_engine_id_mask".as_bytes()) {
            p.rec_sdma_eng_id_mask = v as u32;
            return ;
        }
        if token_eq(s, ka, kb, "flags".as_bytes()) {
            p.flags = v as u32;
            return ;
        }
}

/// Applies one line to a property record.
fn apply_node_line(p: &mut HsaNodeProperties, s: &[u8], ls: usize, le: usize)
    requires
        ls <= le,
        le <= s@.len(),
    ensures
        props_model(final(p)) == spec_apply_node_line(
            props_model(old(p)),
            s@,
            ls as int,
            le as int,
        ),
{
    let ka = skip_ws_idx(s, ls, le);
    if ka >= le {
        return ;
    }
    let kb = find_ws_idx(s, ka, le);
    let va = skip_ws_idx(s, kb, le);
    if va >= le {
        return ;
    }
    let vb = find_ws_idx(s, va, le);
    let num = parse_u64_dec(s, va, vb);
    if let Some(v) = num {
        apply_node_num(p, s, ka, kb, v);
    }
    if token_eq(s, ka, kb, "name".as_bytes()) {
        let mut name: Vec<u8> = Vec::new();
        let mut k: usize = va;
        while k < vb
            invariant
                va <= k <= vb,
                vb <= s@.len(),
                name@ == s@.subrange(va as int, k as int),
            decreases vb - k,
        {
            name.push(s[k]);
            proof {
                assert(name@ =~= s@.subrange(va as int, k + 1));
            }
            k = k + 1;
        }
        p.marketing_name = name;
    }
}

/// The all-zero model that parsing starts from.
pub open spec fn default_props_model() -> NodePropsModel {
    NodePropsModel {
        node_id: 0,
        cpu_cores_count: 0,
        simd_count: 0,
        mem_banks_count: 0,
        caches_count: 0,
        io_links_count: 0,
        p2p_links_count: 0,
        cpu_core_id_base: 0,
        simd_id_base: 0,
        vendor_id: 0,
        device_id: 0,
        location_id: 0,
        domain: 0,
        drm_render_minor: 0,
        hive_id: 0,
        unique_id: 0,
        kfd_gpu_id: 0,
        capability: 0,
        capability2: 0,
        debug_prop: 0,
        max_waves_per_simd: 0,
        lds_size_in_kb: 0,
        gds_size_in_kb: 0,
        wave_front_size: 0,
        local_mem_size: 0,
        array_count: 0,
        simd_arrays_per_engine: 0,
        cu_per_simd_array: 0,
        simd_per_cu: 0,
        max_slots_scratch_cu: 0,
        fw_version: 0,
        gfx_target_version: 0,
        num_sdma_engines: 0,
        num_sdma_xgmi_engines: 0,
        num_gws: 0,
        num_sdma_queues_per_engine: 0,
        num_cp_queues: 0,
        num_xcc: 0,
        max_engine_clk_fcompute: 0,
        max_engine_clk_ccompute: 0,
        marketing_name: Seq::empty(),
        amd_name: Seq::empty(),
    }
}

/// Parses one node `properties` file: the all-zero record with every
/// line folded in.
pub fn parse_node_properties(content: &[u8]) -> (r: HsaNodeProperties)
    requires
        content@.len() < usize::MAX,
    ensures
        props_model(&r) == spec_parse_node_props(content@, 0, default_props_model()),
{
    let mut p = HsaNodeProperties::default();
    let ghost m0 = props_model(&p);
    proof {
        assert(m0 == default_props_model());
    }
    let n = content.len();
    let mut i: usize = 0;
    while i < n
        invariant
            n == content@.len(),
            n < usize::MAX,
            0 <= i <= n + 1,
            spec_parse_node_props(content@, 0, m0) == spec_parse_node_props(
                content@,
                i as int,
                props_model(&p),
            ),
        decreases n + 1 - i,
    {
        let le = find_line_end(content, i);
        apply_node_line(&mut p, content, i, le);
        if le >= n {
            i = n + 1;
        } else {
            i = le + 1;
        }
    }
    p
}

/// Parses one memory-bank `properties` file.
pub fn parse_memory_properties(content: &[u8]) -> (r: HsaMemoryProperties)
    requires
        content@.len() < usize::MAX,
    ensures
        r == spec_parse_mem_props(
            content@,
            0,
            HsaMemoryProperties {
                heap_type: 0,
                size_in_bytes: 0,
                flags: 0,
                width: 0,
                mem_clk_max: 0,
            },
        ),
{
    let mut p = HsaMemoryProperties {
        heap_type: 0,
        size_in_bytes: 0,
        flags: 0,
        width: 0,
        mem_clk_max: 0,
    };
    let ghost m0 = p;
    let n = content.len();
    let mut i: usize = 0;
    while i < n
        invariant
            n == content@.len(),
            n < usize::MAX,
            0 <= i <= n + 1,
            spec_parse_mem_props(content@, 0, m0) == spec_parse_mem_props(content@, i as int, p),
        decreases n + 1 - i,
    {
        let le = find_line_end(content, i);
        apply_mem_line(&mut p, content, i, le);
        if le >= n {
            i = n + 1;
        } else {
            i = le + 1;
        }
    }
    p
}

fn apply_mem_line(p: &mut HsaMemoryProperties, s: &[u8], ls: usize, le: usize)
    requires
        ls <= le,
        le <= s@.len(),
    ensures
        *final(p) == spec_apply_mem_line(*old(p), s@, ls as int, le as int),
{
    let ka = skip_ws_idx(s, ls, le);
    if ka >= le {
        return ;
    }
    let kb = find_ws_idx(s, ka, le);
    let va = skip_ws_idx(s, kb, le);
    if va >= le {
        return ;
    }
    let vb = find_ws_idx(s, va, le);
    let num = parse_u64_dec(s, va, vb);
    if let Some(v) = num {
        apply_mem_num(p, s, ka, kb, v);
    }
}

/// Parses one io-link `properties` file.
pub fn parse_iolink_properties(content: &[u8]) -> (r: HsaIoLinkProperties)
    requires
        content@.len() < usize::MAX,
    ensures
        r == spec_parse_link_props(
            content@,
            0,
            HsaIoLinkProperties {
                type_: 0,
                version_major: 0,
                version_minor: 0,
                node_from: 0,
                node_to: 0,
                weight: 0,
                min_latency: 0,
                max_latency: 0,
                min_bandwidth: 0,
                max_bandwidth: 0,
                rec_transfer_size: 0,
                rec_sdma_eng_id_mask: 0,
                flags: 0,
            },
        ),
{
    let mut p = HsaIoLinkProperties {
        type_: 0,
        version_major: 0,
        version_minor: 0,
        node_from: 0,
        node_to: 0,
        weight: 0,
        min_latency: 0,
        max_latency: 0,
        min_bandwidth: 0,
        max_bandwidth: 0,
        rec_transfer_size: 0,
        rec_sdma_eng_id_mask: 0,
        flags: 0,
    };
    let ghost m0 = p;
    let n = content.len();
    let mut i: usize = 0;
    while i < n
        invariant
            n == content@.len(),
            n < usize::MAX,
            0 <= i <= n + 1,
            spec_parse_link_props(content@, 0, m0) == spec_parse_link_props(content@, i as int, p),
        decreases n + 1 - i,
    {
        let le = find_line_end(content, i);
        apply_link_line(&mut p, content, i, le);
        if le >= n {
            i = n + 1;
        } else {
            i = le + 1;
        }
    }
    p
}

fn apply_link_line(p: &mut HsaIoLinkProperties, s: &[u8], ls: usize, le: usize)
    requires
        ls <= le,
        le <= s@.len(),
    ensures
        *final(p) == spec_apply_link_line(*old(p), s@, ls as int, le as int),
{
    let ka = skip_ws_idx(s, ls, le);
    if ka >= le {
        return ;
    }
    let kb = find_ws_idx(s, ka, le);
    let va = skip_ws_idx(s, kb, le);
    if va >= le {
        return ;
    }
    let vb = find_ws_idx(s, va, le);
    let num = parse_u64_dec(s, va, vb);
    if let Some(v) = num {
        apply_link_num(p, s, ka, kb, v);
    }
}

/// Derives the system timestamp frequency from the monotonic clock
/// resolution: a positive resolution of `tv_nsec` nanoseconds yields
/// `1e9 / tv_nsec` ticks per second, anything else one gigahertz.
pub fn timestamp_frequency_from_resolution(tv_nsec: i64) -> (r: u64)
    ensures
        tv_nsec > 0 ==> r == 1_000_000_000int / (tv_nsec as int),
        tv_nsec <= 0 ==> r == 1_000_000_000,
{
    if tv_nsec > 0 {
        1_000_000_000u64 / (tv_nsec as u64)
    } else {
        1_000_000_000
    }
}

/// One key/value line applied to the platform triple: the three
/// recognized keys update their slot when the value parses.
pub open spec fn spec_apply_sys_line(
    m: (u32, u32, u32),
    s: Seq<u8>,
    ls: int,
    le: int,
) -> (u32, u32, u32) {
    match spec_key_value(s, ls, le) {
        Some(((ka, kb), (va, vb))) => match spec_u64_of(s, va, vb) {
            Some(v) => {
                let key = s.subrange(ka, kb);
                if key == "platform_oem".spec_bytes() {
                    (v as u32, m.1, m.2)
                } else if key == "platform_id".spec_bytes() {
                    (m.0, v as u32, m.2)
                } else if key == "platform_rev".spec_bytes() {
                    (m.0, m.1, v as u32)
                } else {
                    m
                }
            },
            None => m,
        },
        None => m,
    }
}

/// The whole text folded into the platform triple, line by line.
pub open spec fn spec_parse_sys_props(s: Seq<u8>, i: int, m: (u32, u32, u32)) -> (u32, u32, u32)
    decreases s.len() + 1 - i,
    via spec_parse_sys_props_dec
{
    if i < 0 || i >= s.len() {
        m
    } else {
        let le = spec_line_end(s, i);
        spec_parse_sys_props(s, le + 1, spec_apply_sys_line(m, s, i, le))
    }
}

#[via_fn]
proof fn spec_parse_sys_props_dec(s: Seq<u8>, i: int, m: (u32, u32, u32)) {
    if 0 <= i < s.len() {
        lemma_line_end_bounds(s, i);
    }
}

/// Parses the `system_properties` file and fills in the caller-derived
/// timestamp frequency: the platform triple is the zero triple with
/// every line folded in; the node count is set by the snapshot
/// assembly.
pub fn parse_system_properties(content: &[u8], timestamp_frequency: u64) -> (r: HsaSystemProperties)
    requires
        content@.len() < usize::MAX,
    ensures
        (r.platform_oem, r.platform_id, r.platform_rev) == spec_parse_sys_props(
            content@,
            0,
            (0u32, 0u32, 0u32),
        ),
        r.timestamp_frequency == timestamp_frequency,
        r.num_nodes == 0,
{
    let mut m: (u32, u32, u32) = (0, 0, 0);
    let n = content.len();
    let mut i: usize = 0;
    while i < n
        invariant
            n == content@.len(),
            n < usize::MAX,
            0 <= i <= n + 1,
            spec_parse_sys_props(content@, 0, (0u32, 0u32, 0u32)) == spec_parse_sys_props(
                content@,
                i as int,
                m,
            ),
        decreases n + 1 - i,
    {
        let le = find_line_end(content, i);
        apply_sys_line(&mut m, content, i, le);
        if le >= n {
            i = n + 1;
        } else {
            i = le + 1;
        }
    }
    HsaSystemProperties {
        platform_oem: m.0,
        platform_id: m.1,
        platform_rev: m.2,
        num_nodes: 0,
        timestamp_frequency,
    }
}

/// Applies one line to the platform triple.
fn apply_sys_line(m: &mut (u32, u32, u32), s: &[u8], ls: usize, le: usize)
    requires
        ls <= le,
        le <= s@.len(),
    ensures
        *final(m) == spec_apply_sys_line(*old(m), s@, ls as int, le as int),
{
    let ka = skip_ws_idx(s, ls, le);
    if ka >= le {
        return ;
    }
    let kb = find_ws_idx(s, ka, le);
    let va = skip_ws_idx(s, kb, le);
    if va >= le {
        return ;
    }
    let vb = find_ws_idx(s, va, le);
    if let Some(v) = parse_u64_dec(s, va, vb) {
        if token_eq(s, ka, kb, "platform_oem".as_bytes()) {
            m.0 = v as u32;
        } else if token_eq(s, ka, kb, "platform_id".as_bytes()) {
            m.1 = v as u32;
        } else if token_eq(s, ka, kb, "platform_rev".as_bytes()) {
            m.2 = v as u32;
        }
    }
}

/// Whether the snapshot retry loop accepts the scan just taken: the
/// generation id was stable across it, or the retries are exhausted —
/// more than five attempts.
pub fn snapshot_accepted(gen_start: u32, gen_end: u32, retries: u32) -> (r: bool)
    ensures
        r == (gen_start == gen_end || retries > 5),
{
    gen_start == gen_end || retries > 5
}


/// First position in `[a, b)` past any leading commas.
pub open spec fn spec_trim_front(s: Seq<u8>, a: int, b: int) -> int
    decreases b - a,
{
    if a < 0 || a >= b || b > s.len() {
        a
    } else if s[a] == 44 {
        spec_trim_front(s, a + 1, b)
    } else {
        a
    }
}

/// End of `[a, b)` with any trailing commas dropped.
pub open spec fn spec_trim_back(s: Seq<u8>, a: int, b: int) -> int
    decreases b - a,
{
    if a < 0 || b <= a || b > s.len() {
        b
    } else if s[b - 1] == 44 {
        spec_trim_back(s, a, b - 1)
    } else {
        b
    }
}

/// Every numeric comma-trimmed token of `[i, le)` appended to `acc`.
pub open spec fn spec_u32_list(s: Seq<u8>, i: int, le: int, acc: Seq<u32>) -> Seq<u32>
    decreases le + 1 - i,
    via spec_u32_list_dec
{
    if i < 0 || le > s.len() || i >= le {
        acc
    } else {
        let a = spec_skip_ws(s, i, le);
        if a >= le {
            acc
        } else {
            let b = spec_find_ws(s, a, le);
            let ta = spec_trim_front(s, a, b);
            let tb = spec_trim_back(s, ta, b);
            let acc2 = match spec_u64_of(s, ta, tb) {
                Some(v) => if v <= u32::MAX {
                    acc.push(v as u32)
                } else {
                    acc
                },
                None => acc,
            };
            spec_u32_list(s, b, le, acc2)
        }
    }
}

#[via_fn]
proof fn spec_u32_list_dec(s: Seq<u8>, i: int, le: int, acc: Seq<u32>) {
    if !(i < 0 || le > s.len() || i >= le) {
        lemma_skip_ws_bounds(s, i, le);
        let a = spec_skip_ws(s, i, le);
        if a < le {
            lemma_find_ws_past_token(s, a, le);
        }
    }
}

/// The whitespace skip stays in range and lands on a non-blank byte.
pub proof fn lemma_skip_ws_bounds(s: Seq<u8>, i: int, end: int)
    requires
        0 <= i <= end,
        end <= s.len(),
    ensures
        i <= spec_skip_ws(s, i, end) <= end,
        spec_skip_ws(s, i, end) < end ==> !is_ws(s[spec_skip_ws(s, i, end)]),
    decreases end - i,
{
    if i < end && is_ws(s[i]) {
        lemma_skip_ws_bounds(s, i + 1, end);
    }
}

/// The whitespace search from a non-blank byte moves forward.
pub proof fn lemma_find_ws_past_token(s: Seq<u8>, a: int, end: int)
    requires
        0 <= a < end,
        end <= s.len(),
        !is_ws(s[a]),
    ensures
        a < spec_find_ws(s, a, end) <= end,
    decreases end - a,
{
    lemma_find_ws_bounds(s, a + 1, end);
}

/// The whitespace search stays in range.
pub proof fn lemma_find_ws_bounds(s: Seq<u8>, i: int, end: int)
    requires
        0 <= i <= end,
        end <= s.len(),
    ensures
        i <= spec_find_ws(s, i, end) <= end,
    decreases end - i,
{
    if i < end && !is_ws(s[i]) {
        lemma_find_ws_bounds(s, i + 1, end);
    }
}

/// The value-bearing fields of a cache record, with the sibling map
/// abstracted to a sequence.
pub ghost struct CacheModel {
    pub processor_id_low: u32,
    pub cache_level: u32,
    pub cache_size: u32,
    pub cache_line_size: u32,
    pub cache_lines_per_tag: u32,
    pub cache_associativity: u32,
    pub cache_latency: u32,
    pub cache_type: u32,
    pub sibling_map: Seq<u32>,
}

/// The model of a cache record.
pub open spec fn cache_model(p: &crate::sysfs::HsaCacheProperties) -> CacheModel {
    CacheModel {
        processor_id_low: p.processor_id_low,
        cache_level: p.cache_level,
        cache_size: p.cache_size,
        cache_line_size: p.cache_line_size,
        cache_lines_per_tag: p.cache_lines_per_tag,
        cache_associativity: p.cache_associativity,
        cache_latency: p.cache_latency,
        cache_type: p.cache_type,
        sibling_map: p.sibling_map@,
    }
}

/// One recognized cache key applied to the model.  Values must fit in
/// 32 bits; the reported size is in KiB and is scaled to bytes.
pub open spec fn spec_apply_cache_num(m: CacheModel, key: Seq<u8>, v: u64) -> CacheModel {
    if v > u32::MAX {
        m
    } else if key == "processor_id_low".spec_bytes() {
        CacheModel { processor_id_low: v as u32, ..m }
    } else if key == "level".spec_bytes() {
        CacheModel { cache_level: v as u32, ..m }
    } else if key == "size".spec_bytes() {
        CacheModel { cache_size: (v * 1024) as u32, ..m }
    } else if key == "cache_line_size".spec_bytes() {
        CacheModel { cache_line_size: v as u32, ..m }
    } else if key == "cache_lines_per_tag".spec_bytes() {
        CacheModel { cache_lines_per_tag: v as u32, ..m }
    } else if key == "association".spec_bytes() {
        CacheModel { cache_associativity: v as u32, ..m }
    } else if key == "latency".spec_bytes() {
        CacheModel { cache_latency: v as u32, ..m }
    } else if key == "type".spec_bytes() {
        CacheModel { cache_type: v as u32, ..m }
    } else {
        m
    }
}

/// One line applied to the cache model: a `sibling_map` line appends
/// every numeric comma-trimmed token; any other line updates its
/// scalar key.
pub open spec fn spec_apply_cache_line(m: CacheModel, s: Seq<u8>, ls: int, le: int) -> CacheModel {
    let ka = spec_skip_ws(s, ls, le);
    if ka >= le {
        m
    } else {
        let kb = spec_find_ws(s, ka, le);
        if s.subrange(ka, kb) == "sibling_map".spec_bytes() {
            CacheModel { sibling_map: spec_u32_list(s, kb, le, m.sibling_map), ..m }
        } else {
            let va = spec_skip_ws(s, kb, le);
            if va >= le {
                m
            } else {
                let vb = spec_find_ws(s, va, le);
                match spec_u64_of(s, va, vb) {
                    Some(v) => spec_apply_cache_num(m, s.subrange(ka, kb), v),
                    None => m,
                }
            }
        }
    }
}

/// The whole text folded into the cache model, line by line.
pub open spec fn spec_parse_cache_props(s: Seq<u8>, i: int, m: CacheModel) -> CacheModel
    decreases s.len() + 1 - i,
    via spec_parse_cache_props_dec
{
    if i < 0 || i >= s.len() {
        m
    } else {
        let le = spec_line_end(s, i);
        spec_parse_cache_props(s, le + 1, spec_apply_cache_line(m, s, i, le))
    }
}

#[via_fn]
proof fn spec_parse_cache_props_dec(s: Seq<u8>, i: int, m: CacheModel) {
    if 0 <= i < s.len() {
        lemma_line_end_bounds(s, i);
    }
}

/// The all-zero cache model that parsing starts from.
pub open spec fn default_cache_model() -> CacheModel {
    CacheModel {
        processor_id_low: 0,
        cache_level: 0,
        cache_size: 0,
        cache_line_size: 0,
        cache_lines_per_tag: 0,
        cache_associativity: 0,
        cache_latency: 0,
        cache_type: 0,
        sibling_map: Seq::empty(),
    }
}

/// Parses one cache `properties` file.
pub fn parse_cache_properties(content: &[u8]) -> (r: crate::sysfs::HsaCacheProperties)
    requires
        content@.len() < usize::MAX,
    ensures
        cache_model(&r) == spec_parse_cache_props(content@, 0, default_cache_model()),
{
    let mut p = crate::sysfs::HsaCacheProperties {
        processor_id_low: 0,
        cache_level: 0,
        cache_size: 0,
        cache_line_size: 0,
        cache_lines_per_tag: 0,
        cache_associativity: 0,
        cache_latency: 0,
        cache_type: 0,
        sibling_map: Vec::new(),
    };
    let ghost m0 = cache_model(&p);
    proof {
        assert(m0 == default_cache_model());
    }
    let n = content.len();
    let mut i: usize = 0;
    while i < n
        invariant
            n == content@.len(),
            n < usize::MAX,
            0 <= i <= n + 1,
            spec_parse_cache_props(content@, 0, m0) == spec_parse_cache_props(
                content@,
                i as int,
                cache_model(&p),
            ),
        decreases n + 1 - i,
    {
        let le = find_line_end(content, i);
        apply_cache_line(&mut p, content, i, le);
        if le >= n {
            i = n + 1;
        } else {
            i = le + 1;
        }
    }
    p
}

/// Applies one line to a cache record.
fn apply_cache_line(p: &mut crate::sysfs::HsaCacheProperties, s: &[u8], ls: usize, le: usize)
    requires
        ls <= le,
        le <= s@.len(),
    ensures
        cache_model(final(p)) == spec_apply_cache_line(
            cache_model(old(p)),
            s@,
            ls as int,
            le as int,
        ),
{
    let ka = skip_ws_idx(s, ls, le);
    if ka >= le {
        return ;
    }
    let kb = find_ws_idx(s, ka, le);
    if token_eq(s, ka, kb, "sibling_map".as_bytes()) {
        let ghost base = p.sibling_map@;
        let mut j: usize = kb;
        proof {
            lemma_find_ws_bounds(s@, ka as int, le as int);
        }
        while j < le
            invariant
                kb <= j <= le,
                le <= s@.len(),
                spec_u32_list(s@, kb as int, le as int, base) == spec_u32_list(
                    s@,
                    j as int,
                    le as int,
                    p.sibling_map@,
                ),
                cache_model_scalars_eq(cache_model(p), cache_model(old(p))),
            decreases le - j,
        {
            let a = skip_ws_idx(s, j, le);
            if a >= le {
                j = le;
            } else {
                let b = find_ws_idx(s, a, le);
                proof {
                    lemma_skip_ws_bounds(s@, j as int, le as int);
                    lemma_find_ws_past_token(s@, a as int, le as int);
                }
                let mut ta = a;
                while ta < b && s[ta] == 44
                    invariant
                        a <= ta <= b,
                        b <= s@.len(),
                        spec_trim_front(s@, a as int, b as int) == spec_trim_front(
                            s@,
                            ta as int,
                            b as int,
                        ),
                    decreases b - ta,
                {
                    ta = ta + 1;
                }
                let mut tb = b;
                while tb > ta && s[tb - 1] == 44
                    invariant
                        ta <= tb <= b,
                        b <= s@.len(),
                        spec_trim_back(s@, ta as int, b as int) == spec_trim_back(
                            s@,
                            ta as int,
                            tb as int,
                        ),
                    decreases tb - ta,
                {
                    tb = tb - 1;
                }
                if let Some(v) = parse_u64_dec(s, ta, tb) {
                    if v <= u32::MAX as u64 {
                        p.sibling_map.push(v as u32);
                    }
                }
                j = b;
            }
        }
        return ;
    }
    let va = skip_ws_idx(s, kb, le);
    if va >= le {
        return ;
    }
    let vb = find_ws_idx(s, va, le);
    let num = parse_u64_dec(s, va, vb);
    if let Some(v) = num {
        if v <= u32::MAX as u64 {
            if token_eq(s, ka, kb, "processor_id_low".as_bytes()) {
                p.processor_id_low = v as u32;
            } else if token_eq(s, ka, kb, "level".as_bytes()) {
                p.cache_level = v as u32;
            } else if token_eq(s, ka, kb, "size".as_bytes()) {
                #[verifier::truncate]
                let scaled = (v * 1024) as u32;
                p.cache_size = scaled;
            } else if token_eq(s, ka, kb, "cache_line_size".as_bytes()) {
                p.cache_line_size = v as u32;
            } else if token_eq(s, ka, kb, "cache_lines_per_tag".as_bytes()) {
                p.cache_lines_per_tag = v as u32;
            } else if token_eq(s, ka, kb, "association".as_bytes()) {
                p.cache_associativity = v as u32;
            } else if token_eq(s, ka, kb, "latency".as_bytes()) {
                p.cache_latency = v as u32;
            } else if token_eq(s, ka, kb, "type".as_bytes()) {
                p.cache_type = v as u32;
            }
        }
    }
}

/// The scalar halves of two cache models agree.
pub open spec fn cache_model_scalars_eq(a: CacheModel, b: CacheModel) -> bool {
    &&& a.processor_id_low == b.processor_id_low
    &&& a.cache_level == b.cache_level
    &&& a.cache_size == b.cache_size
    &&& a.cache_line_size == b.cache_line_size
    &&& a.cache_lines_per_tag == b.cache_lines_per_tag
    &&& a.cache_associativity == b.cache_associativity
    &&& a.cache_latency == b.cache_latency
    &&& a.cache_type == b.cache_type
}


/// First comma position in `[i, end)`, else `end`.
pub open spec fn spec_find_comma(s: Seq<u8>, i: int, end: int) -> int
    decreases end - i,
{
    if i < 0 || i >= end || end > s.len() {
        end
    } else if s[i] == 44 {
        i
    } else {
        spec_find_comma(s, i + 1, end)
    }
}

/// End of `[a, b)` with trailing whitespace dropped.
pub open spec fn spec_trim_ws_back(s: Seq<u8>, a: int, b: int) -> int
    decreases b - a,
{
    if a < 0 || b <= a || b > s.len() {
        b
    } else if is_ws(s[b - 1]) {
        spec_trim_ws_back(s, a, b - 1)
    } else {
        b
    }
}

/// Whether `b` is a hexadecimal digit.
pub open spec fn is_hex_digit(b: u8) -> bool {
    (48 <= b <= 57) || (97 <= b <= 102) || (65 <= b <= 70)
}

/// The value of one hexadecimal digit.
pub open spec fn spec_hex_digit_val(b: u8) -> int {
    if 48 <= b <= 57 {
        b - 48
    } else if 97 <= b <= 102 {
        b - 87
    } else {
        b - 55
    }
}

/// Whether `[a, b)` of `s` is all hexadecimal digits.
pub open spec fn spec_all_hex(s: Seq<u8>, a: int, b: int) -> bool {
    forall|k: int| a <= k < b ==> is_hex_digit(#[trigger] s[k])
}

/// The hexadecimal value of the digits in `[a, b)`.
pub open spec fn spec_hex_val(s: Seq<u8>, a: int, b: int) -> int
    decreases b - a,
{
    if b <= a {
        0
    } else {
        spec_hex_val(s, a, b - 1) * 16 + spec_hex_digit_val(s[b - 1])
    }
}

/// The parsed hexadecimal `u32` of `[a, b)`: defined when the range is
/// nonempty, all hex digits, and the value fits.
pub open spec fn spec_u32_of_hex(s: Seq<u8>, a: int, b: int) -> Option<u32> {
    if a < b && b <= s.len() && spec_all_hex(s, a, b) && spec_hex_val(s, a, b) <= u32::MAX {
        Some(spec_hex_val(s, a, b) as u32)
    } else {
        None
    }
}

/// First comma position in `[i, end)`, else `end`.
fn find_comma_idx(s: &[u8], i: usize, end: usize) -> (r: usize)
    requires
        i <= end,
        end <= s@.len(),
    ensures
        r == spec_find_comma(s@, i as int, end as int),
        i <= r <= end,
{
    let mut j: usize = i;
    while j < end
        invariant
            i <= j <= end,
            end <= s@.len(),
            spec_find_comma(s@, i as int, end as int) == spec_find_comma(s@, j as int, end as int),
        decreases end - j,
    {
        if s[j] == 44 {
            return j;
        }
        j = j + 1;
    }
    end
}

/// End of `[a, b)` with trailing whitespace dropped.
fn trim_ws_back_idx(s: &[u8], a: usize, b: usize) -> (r: usize)
    requires
        a <= b,
        b <= s@.len(),
    ensures
        r == spec_trim_ws_back(s@, a as int, b as int),
        a <= r <= b,
{
    let mut j: usize = b;
    while j > a
        invariant
            a <= j <= b,
            b <= s@.len(),
            spec_trim_ws_back(s@, a as int, b as int) == spec_trim_ws_back(s@, a as int, j as int),
        decreases j,
    {
        let c = s[j - 1];
        if !(c == 32 || c == 9 || c == 10 || c == 13) {
            return j;
        }
        j = j - 1;
    }
    a
}

/// Parses the hexadecimal digits in `[a, b)`.
pub fn parse_u32_hex(s: &[u8], a: usize, b: usize) -> (r: Option<u32>)
    requires
        a <= b,
        b <= s@.len(),
    ensures
        r == spec_u32_of_hex(s@, a as int, b as int),
{
    if a >= b {
        return None;
    }
    let mut acc: u32 = 0;
    let mut i: usize = a;
    while i < b
        invariant
            a <= i <= b,
            b <= s@.len(),
            a < b,
            spec_all_hex(s@, a as int, i as int),
            acc == spec_hex_val(s@, a as int, i as int),
        decreases b - i,
    {
        let c = s[i];
        let d: u32 = if c >= 48 && c <= 57 {
            (c - 48) as u32
        } else if c >= 97 && c <= 102 {
            (c - 87) as u32
        } else if c >= 65 && c <= 70 {
            (c - 55) as u32
        } else {
            proof {
                assert(!is_hex_digit(s@[i as int]));
                assert(!spec_all_hex(s@, a as int, b as int));
            }
            return None;
        };
        if acc > (u32::MAX - d) / 16 {
            proof {
                assert(spec_hex_val(s@, a as int, i + 1 as int) == acc * 16 + d);
                assert(spec_hex_val(s@, a as int, i + 1 as int) > u32::MAX) by (nonlinear_arith)
                    requires
                        spec_hex_val(s@, a as int, i + 1 as int) == acc * 16 + d,
                        acc > ((u32::MAX - d) / 16) as u32,
                        0 <= d <= 15,
                        acc >= 0,
                ;
            }
            if all_hex_check(s, i, b) {
                proof {
                    lemma_hex_val_monotone(s@, a as int, i + 1 as int, b as int);
                }
                return None;
            } else {
                return None;
            }
        }
        acc = acc * 16 + d;
        i = i + 1;
    }
    Some(acc)
}

/// Whether `[i, b)` is all hexadecimal digits.
fn all_hex_check(s: &[u8], i: usize, b: usize) -> (r: bool)
    requires
        i <= b,
        b <= s@.len(),
    ensures
        r == spec_all_hex(s@, i as int, b as int),
{
    let mut j: usize = i;
    while j < b
        invariant
            i <= j <= b,
            b <= s@.len(),
            spec_all_hex(s@, i as int, j as int),
        decreases b - j,
    {
        let c = s[j];
        if !((c >= 48 && c <= 57) || (c >= 97 && c <= 102) || (c >= 65 && c <= 70)) {
            proof {
                assert(!is_hex_digit(s@[j as int]));
            }
            return false;
        }
        j = j + 1;
    }
    true
}

/// The value of a hex range only grows as digits are appended.
proof fn lemma_hex_val_monotone(s: Seq<u8>, a: int, i: int, b: int)
    requires
        a <= i <= b,
        b <= s.len(),
        spec_all_hex(s, a, b),
    ensures
        spec_hex_val(s, a, b) >= spec_hex_val(s, a, i),
    decreases b - i,
{
    if i < b {
        lemma_hex_val_monotone(s, a, i + 1, b);
        lemma_hex_val_nonneg(s, a, i);
        assert(spec_hex_val(s, a, i + 1) == spec_hex_val(s, a, i) * 16 + spec_hex_digit_val(s[i]));
        assert(spec_hex_val(s, a, i + 1) >= spec_hex_val(s, a, i)) by (nonlinear_arith)
            requires
                spec_hex_val(s, a, i + 1) == spec_hex_val(s, a, i) * 16 + spec_hex_digit_val(s[i]),
                spec_hex_val(s, a, i) >= 0,
                spec_hex_digit_val(s[i]) >= 0,
        ;
    }
}

/// A hex range's value is non-negative.
proof fn lemma_hex_val_nonneg(s: Seq<u8>, a: int, b: int)
    requires
        b <= a || spec_all_hex(s, a, b),
        b <= s.len(),
    ensures
        spec_hex_val(s, a, b) >= 0,
    decreases b - a,
{
    if b > a {
        lemma_hex_val_nonneg(s, a, b - 1);
        assert(spec_hex_val(s, a, b) >= 0) by (nonlinear_arith)
            requires
                spec_hex_val(s, a, b) == spec_hex_val(s, a, b - 1) * 16 + spec_hex_digit_val(
                    s[b - 1],
                ),
                spec_hex_val(s, a, b - 1) >= 0,
                spec_hex_digit_val(s[b - 1]) >= 0,
        ;
    }
}

/// What one device-table line of the marketing-name file yields: the
/// name token range when the line is no comment, has at least three
/// comma-separated fields, and its first two fields parse as the hex
/// device and revision ids asked for.
pub open spec fn spec_ids_line(
    s: Seq<u8>,
    ls: int,
    le: int,
    device_id: u32,
    revision_id: u32,
) -> Option<(int, int)> {
    let a = spec_skip_ws(s, ls, le);
    let be = spec_trim_ws_back(s, a, le);
    if a >= be || s[a] == 35 {
        None
    } else {
        let c1 = spec_find_comma(s, a, be);
        if c1 >= be {
            None
        } else {
            let c2 = spec_find_comma(s, c1 + 1, be);
            if c2 >= be {
                None
            } else {
                let c3 = spec_find_comma(s, c2 + 1, be);
                let d1 = spec_u32_of_hex(
                    s,
                    spec_skip_ws(s, a, c1),
                    spec_trim_ws_back(s, spec_skip_ws(s, a, c1), c1),
                );
                let d2 = spec_u32_of_hex(
                    s,
                    spec_skip_ws(s, c1 + 1, c2),
                    spec_trim_ws_back(s, spec_skip_ws(s, c1 + 1, c2), c2),
                );
                if d1 == Some(device_id) && d2 == Some(revision_id) {
                    let na = spec_skip_ws(s, c2 + 1, c3);
                    Some((na, spec_trim_ws_back(s, na, c3)))
                } else {
                    None
                }
            }
        }
    }
}

/// The first line of the file that names this device and revision.
pub open spec fn spec_lookup_name(
    s: Seq<u8>,
    i: int,
    device_id: u32,
    revision_id: u32,
) -> Option<(int, int)>
    decreases s.len() + 1 - i,
    via spec_lookup_name_dec
{
    if i < 0 || i >= s.len() {
        None
    } else {
        let le = spec_line_end(s, i);
        match spec_ids_line(s, i, le, device_id, revision_id) {
            Some(range) => Some(range),
            None => spec_lookup_name(s, le + 1, device_id, revision_id),
        }
    }
}

#[via_fn]
proof fn spec_lookup_name_dec(s: Seq<u8>, i: int, device_id: u32, revision_id: u32) {
    if 0 <= i < s.len() {
        lemma_line_end_bounds(s, i);
    }
}

/// What one marketing-name file line yields, executable side.
fn ids_line(s: &[u8], ls: usize, le: usize, device_id: u32, revision_id: u32) -> (r: Option<
    (usize, usize),
>)
    requires
        ls <= le,
        le <= s@.len(),
    ensures
        r matches Some(range) ==> spec_ids_line(s@, ls as int, le as int, device_id, revision_id)
            == Some((range.0 as int, range.1 as int)) && range.0 <= range.1 <= s@.len(),
        r is None ==> spec_ids_line(s@, ls as int, le as int, device_id, revision_id) is None,
{
    let a = skip_ws_idx(s, ls, le);
    let be = trim_ws_back_idx(s, a, le);
    if a >= be || s[a] == 35 {
        return None;
    }
    let c1 = find_comma_idx(s, a, be);
    if c1 >= be {
        return None;
    }
    let c2 = find_comma_idx(s, c1 + 1, be);
    if c2 >= be {
        return None;
    }
    let c3 = find_comma_idx(s, c2 + 1, be);
    let d1a = skip_ws_idx(s, a, c1);
    let d1b = trim_ws_back_idx(s, d1a, c1);
    let d1 = parse_u32_hex(s, d1a, d1b);
    let d2a = skip_ws_idx(s, c1 + 1, c2);
    let d2b = trim_ws_back_idx(s, d2a, c2);
    let d2 = parse_u32_hex(s, d2a, d2b);
    if d1 == Some(device_id) && d2 == Some(revision_id) {
        let na = skip_ws_idx(s, c2 + 1, c3);
        let nb = trim_ws_back_idx(s, na, c3);
        Some((na, nb))
    } else {
        None
    }
}

/// Looks a device and PCI revision up in the marketing-name file: the
/// comma-separated name field of the first matching non-comment line.
pub fn lookup_marketing_name(content: &[u8], device_id: u32, revision_id: u32) -> (r: Option<
    Vec<u8>,
>)
    requires
        content@.len() < usize::MAX,
    ensures
        match spec_lookup_name(content@, 0, device_id, revision_id) {
            Some(range) => r matches Some(name) && name@ == content@.subrange(range.0, range.1),
            None => r is None,
        },
{
    let n = content.len();
    let mut i: usize = 0;
    while i < n
        invariant
            n == content@.len(),
            n < usize::MAX,
            0 <= i <= n + 1,
            spec_lookup_name(content@, 0, device_id, revision_id) == spec_lookup_name(
                content@,
                i as int,
                device_id,
                revision_id,
            ),
        decreases n + 1 - i,
    {
        let le = find_line_end(content, i);
        match ids_line(content, i, le, device_id, revision_id) {
            Some((na, nb)) => {
                let mut name: Vec<u8> = Vec::new();
                let mut k: usize = na;
                while k < nb
                    invariant
                        na <= k <= nb,
                        nb <= content@.len(),
                        name@ == content@.subrange(na as int, k as int),
                    decreases nb - k,
                {
                    name.push(content[k]);
                    proof {
                        assert(name@ =~= content@.subrange(na as int, k + 1));
                    }
                    k = k + 1;
                }
                return Some(name);
            },
            None => {},
        }
        if le >= n {
            i = n + 1;
        } else {
            i = le + 1;
        }
    }
    None
}

/// Parses the PCI `revision` file: optional lowercase `0x` prefix, then
/// hexadecimal digits, whitespace-trimmed.
pub fn parse_pci_revision(content: &[u8]) -> (r: Option<u32>)
    ensures
        ({
            let a = spec_skip_ws(content@, 0, content@.len() as int);
            let b = spec_trim_ws_back(content@, a, content@.len() as int);
            let start = if b - a >= 2 && content@[a] == 48 && content@[a + 1] == 120 {
                a + 2
            } else {
                a
            };
            r == spec_u32_of_hex(content@, start, b)
        }),
{
    let n = content.len();
    let a = skip_ws_idx(content, 0, n);
    let b = trim_ws_back_idx(content, a, n);
    let start: usize = if b - a >= 2 && content[a] == 48 && content[a + 1] == 120 {
        a + 2
    } else {
        a
    };
    parse_u32_hex(content, start, b)
}

} // verus!
