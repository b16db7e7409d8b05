//! Context save/restore (CWSR) region sizing and header layout.
//!
//! Firmware preserves wavefront state in a per-queue region whose size
//! depends on the engine version and the node's compute-unit counts.
//! The sizing formulas here are stated over the integers and the
//! executable code is proved to compute exactly those values.

use vstd::prelude::*;
use crate::{align_up_u128, spec_align_up};
use crate::sysfs::HsaNodeProperties;

verus! {

/// Hardware-register block bytes reserved per compute unit.
pub const HWREG_SIZE_PER_CU: u32 = 0x1000;

/// Bytes of debugger memory per wave.
pub const DEBUGGER_BYTES_PER_WAVE: u32 = 32;

/// Alignment of the debugger memory block.
pub const DEBUGGER_BYTES_ALIGN: u32 = 64;

/// Byte size of the context-save-area header written at the start of
/// each per-XCC block.
pub const CWSR_HEADER_BYTES: u32 = 32;

/// The packed header at the start of a context save area.  The control
/// stack and wave state offsets start at zero; firmware updates them on
/// each save.
#[derive(Debug, Clone, Copy, PartialEq, Eq, Structural)]
pub struct HsaUserContextSaveAreaHeader {
    /// Byte offset from the save area start to the last saved control stack top.
    pub control_stack_offset: u32,
    /// Byte size of the last saved control stack data.
    pub control_stack_size: u32,
    /// Byte offset from the save area start to the last saved wave state base.
    pub wave_state_offset: u32,
    /// Byte size of the last saved wave state data.
    pub wave_state_size: u32,
    /// Byte offset from the save area start to the debugger memory.
    pub debug_offset: u32,
    /// Byte size of the memory reserved for the debugger.
    pub debug_size: u32,
    /// Address of the signal payload for reporting an error reason.
    pub error_reason: u64,
    /// Event ID used for exception signalling.
    pub error_event_id: u32,
    pub reserved1: u32,
}

impl HsaUserContextSaveAreaHeader {
    #[must_use]
    pub fn new() -> (r: Self)
        ensures
            r == (HsaUserContextSaveAreaHeader {
                control_stack_offset: 0,
                control_stack_size: 0,
                wave_state_offset: 0,
                wave_state_size: 0,
                debug_offset: 0,
                debug_size: 0,
                error_reason: 0,
                error_event_id: 0,
                reserved1: 0,
            }),
    {
        HsaUserContextSaveAreaHeader {
            control_stack_offset: 0,
            control_stack_size: 0,
            wave_state_offset: 0,
            wave_state_size: 0,
            debug_offset: 0,
            debug_size: 0,
            error_reason: 0,
            error_event_id: 0,
            reserved1: 0,
        }
    }
}

/// The computed CWSR sizes for one queue.
#[derive(Debug, Clone, Copy, PartialEq, Eq, Structural)]
pub struct CwsrSizes {
    pub ctl_stack_size: u32,
    pub wg_data_size: u32,
    pub debug_memory_size: u32,
    pub ctx_save_restore_size: u32,
    pub total_mem_alloc_size: u32,
}

/// Rounds `val` up to the next multiple of `align`.
pub fn align_up(val: u32, align: u32) -> (r: u32)
    requires
        align >= 1,
        val + align - 1 <= u32::MAX,
    ensures
        r == spec_align_up(val as int, align as int),
        val <= r < val + align,
{
    let rem: u32 = val % align;
    if rem == 0 {
        val
    } else {
        val + (align - rem)
    }
}

/// Engine major version encoded in a decimal `gfx_target_version`.
pub open spec fn spec_gfx_major(v: int) -> int {
    (v / 10000) % 100
}

/// Control-stack bytes per wave: 12 from GFX10 on, 8 before.
pub open spec fn spec_cntl_stack_bytes_per_wave(gfx_version: int) -> int {
    if spec_gfx_major(gfx_version) >= 10 {
        12
    } else {
        8
    }
}

pub fn cntl_stack_bytes_per_wave(gfx_version: u32) -> (r: u32)
    ensures
        r == spec_cntl_stack_bytes_per_wave(gfx_version as int),
{
    let major = (gfx_version / 10000) % 100;
    if major >= 10 {
        12
    } else {
        8
    }
}

/// VGPR bytes per CU for a decimal-encoded engine version: 512 KiB for
/// the large-VGPR GFX9 parts, 384 KiB for GFX11 and later, 256 KiB else.
pub open spec fn spec_vgpr_size_per_cu(v: int) -> int {
    let major = (v / 10000) % 100;
    let minor = (v / 100) % 100;
    let step = v % 100;
    if major == 9 && ((minor == 0 && step == 8) || (minor == 4) || (minor == 5 && step == 0)) {
        0x80000
    } else if major >= 11 {
        0x60000
    } else {
        0x40000
    }
}

pub fn get_vgpr_size_per_cu(gfx_version: u32) -> (r: u32)
    ensures
        r == spec_vgpr_size_per_cu(gfx_version as int),
{
    let major = (gfx_version / 10000) % 100;
    let minor = (gfx_version / 100) % 100;
    let step = gfx_version % 100;
    let is_large_vgpr_gfx9 = major == 9 && ((minor == 0 && step == 8) || (minor == 4) || (minor == 5
        && step == 0));
    if is_large_vgpr_gfx9 {
        0x80000
    } else if major >= 11 {
        0x60000
    } else {
        0x40000
    }
}

/// Whether CWSR sizes are defined for this node: GFX8 or later, with
/// nonzero SIMD counts.
pub open spec fn spec_cwsr_supported(p: &HsaNodeProperties) -> bool {
    p.gfx_target_version >= 80000 && p.simd_count != 0 && p.simd_per_cu != 0
}

/// Number of accelerator complexes, defaulting to one.
pub open spec fn spec_xcc(p: &HsaNodeProperties) -> int {
    if p.num_xcc > 0 {
        p.num_xcc as int
    } else {
        1
    }
}

/// Compute units per XCC.
pub open spec fn spec_cu_num(p: &HsaNodeProperties) -> int {
    p.simd_count as int / p.simd_per_cu as int / spec_xcc(p)
}

/// Waves per XCC: capped by shader-engine capacity before 10.1.0, a
/// flat 32 per CU from 10.1.0 on.
pub open spec fn spec_wave_num(p: &HsaNodeProperties) -> int {
    let cu = spec_cu_num(p);
    if p.gfx_target_version < 100100 {
        let cap = if p.simd_arrays_per_engine > 0 {
            (p.num_shader_banks as int / p.simd_arrays_per_engine as int) * 512
        } else {
            u32::MAX as int
        };
        if cu * 40 <= cap {
            cu * 40
        } else {
            cap
        }
    } else {
        cu * 32
    }
}

/// Control stack bytes: header plus per-wave entries plus a terminator,
/// page aligned; clamped to 0x7000 on exactly version 10.1.0.
pub open spec fn spec_ctl_stack_size(p: &HsaNodeProperties) -> int {
    let raw = spec_align_up(
        CWSR_HEADER_BYTES as int + spec_wave_num(p) * spec_cntl_stack_bytes_per_wave(
            p.gfx_target_version as int,
        ) + 8,
        4096,
    );
    if p.gfx_target_version == 100100 && raw > 0x7000 {
        0x7000
    } else {
        raw
    }
}

/// Work-group context bytes per XCC: VGPR + SGPR + LDS + HWREG, per CU.
pub open spec fn spec_wg_data_size(p: &HsaNodeProperties) -> int {
    spec_cu_num(p) * (spec_vgpr_size_per_cu(p.gfx_target_version as int) + p.sgpr_size_per_cu as int
        + p.lds_size_in_kb as int * 1024 + HWREG_SIZE_PER_CU as int)
}

/// Debugger bytes per XCC.
pub open spec fn spec_debug_memory_size(p: &HsaNodeProperties) -> int {
    spec_align_up(spec_wave_num(p) * DEBUGGER_BYTES_PER_WAVE as int, DEBUGGER_BYTES_ALIGN as int)
}

/// Per-XCC block: control stack plus page-aligned work-group data.
pub open spec fn spec_ctx_save_restore_size(p: &HsaNodeProperties) -> int {
    spec_ctl_stack_size(p) + spec_align_up(spec_wg_data_size(p), 4096)
}

/// Total allocation: per-XCC block plus debugger memory, times XCCs.
pub open spec fn spec_total_mem_alloc_size(p: &HsaNodeProperties) -> int {
    (spec_ctx_save_restore_size(p) + spec_debug_memory_size(p)) * spec_xcc(p)
}

/// Calculates the required CWSR sizes for a node.
///
/// Returns `None` exactly when the node does not support CWSR (before
/// GFX8, or with zero SIMD counts); otherwise every field equals its
/// sizing formula.
pub fn calculate_sizes(props: &HsaNodeProperties) -> (r: Option<CwsrSizes>)
    requires
        spec_cwsr_supported(props) ==> spec_total_mem_alloc_size(props) <= u32::MAX,
    ensures
        r is Some <==> spec_cwsr_supported(props),
        r is Some ==> {
            let s = r->0;
            &&& s.ctl_stack_size == spec_ctl_stack_size(props)
            &&& s.wg_data_size == spec_wg_data_size(props)
            &&& s.debug_memory_size == spec_debug_memory_size(props)
            &&& s.ctx_save_restore_size == spec_ctx_save_restore_size(props)
            &&& s.total_mem_alloc_size == spec_total_mem_alloc_size(props)
        },
{
    if props.gfx_target_version < 80000 {
        return None;
    }
    if props.simd_count == 0 || props.simd_per_cu == 0 {
        return None;
    }
    let num_xcc: u32 = if props.num_xcc > 0 {
        props.num_xcc
    } else {
        1
    };
    let cu_num: u32 = props.simd_count / props.simd_per_cu / num_xcc;

    let wave_num: u128 = if props.gfx_target_version < 100100 {
        let max_waves_se: u128 = if props.simd_arrays_per_engine > 0 {
            ((props.num_shader_banks / props.simd_arrays_per_engine) as u128) * 512
        } else {
            u32::MAX as u128
        };
        let cu40: u128 = (cu_num as u128) * 40;
        if cu40 <= max_waves_se {
            cu40
        } else {
            max_waves_se
        }
    } else {
        (cu_num as u128) * 32
    };
    proof {
        assert(wave_num == spec_wave_num(props));
        assert(wave_num <= 0x40000000000u128) by (nonlinear_arith)
            requires
                wave_num == spec_wave_num(props),
                spec_cu_num(props) <= u32::MAX,
                spec_cu_num(props) >= 0,
                props.num_shader_banks <= u32::MAX,
                props.simd_arrays_per_engine <= u32::MAX,
        ;
    }

    let bpw: u32 = cntl_stack_bytes_per_wave(props.gfx_target_version);
    proof {
        assert((wave_num as int) * (bpw as int) <= 0x300000000000) by (nonlinear_arith)
            requires
                wave_num <= 0x40000000000u128,
                0 <= bpw <= 12,
        ;
    }
    let ctl_bytes: u128 = (CWSR_HEADER_BYTES as u128) + wave_num * (bpw as u128) + 8;
    let mut ctl_stack_size: u128 = align_up_u128(ctl_bytes, 4096);
    if props.gfx_target_version == 100100 && ctl_stack_size > 0x7000 {
        ctl_stack_size = 0x7000;
    }

    let wg_per_cu: u128 = (get_vgpr_size_per_cu(props.gfx_target_version) as u128) + (
    props.sgpr_size_per_cu as u128) + (props.lds_size_in_kb as u128) * 1024 + (HWREG_SIZE_PER_CU
        as u128);
    proof {
        assert((cu_num as int) * (wg_per_cu as int) <= 0x100000000u128 * 0x100000000000u128) by (
        nonlinear_arith)
            requires
                0 <= cu_num <= 0xffffffffu32,
                0 <= wg_per_cu <= 0x100000000000u128,
        ;
    }
    let wg_data_size: u128 = (cu_num as u128) * wg_per_cu;

    let debug_memory_size: u128 = align_up_u128(
        wave_num * (DEBUGGER_BYTES_PER_WAVE as u128),
        DEBUGGER_BYTES_ALIGN as u128,
    );

    let ctx_save_restore_size: u128 = ctl_stack_size + align_up_u128(wg_data_size, 4096);
    let total_mem_alloc_size: u128 = (ctx_save_restore_size + debug_memory_size) * (num_xcc
        as u128);

    proof {
        assert(ctl_stack_size == spec_ctl_stack_size(props));
        assert(wg_data_size == spec_wg_data_size(props));
        assert(debug_memory_size == spec_debug_memory_size(props));
        assert(ctx_save_restore_size == spec_ctx_save_restore_size(props));
        assert(total_mem_alloc_size == spec_total_mem_alloc_size(props));
        lemma_cwsr_components_bounded(props);
    }

    Some(
        CwsrSizes {
            ctl_stack_size: ctl_stack_size as u32,
            wg_data_size: wg_data_size as u32,
            debug_memory_size: debug_memory_size as u32,
            ctx_save_restore_size: ctx_save_restore_size as u32,
            total_mem_alloc_size: total_mem_alloc_size as u32,
        },
    )
}


/// Number of per-XCC headers to write, defaulting to one.
pub open spec fn spec_header_count(num_xcc: u32) -> int {
    if num_xcc == 0 {
        1
    } else {
        num_xcc as int
    }
}

/// Lays out the per-XCC context-save-area headers.
///
/// The region is `[XCC 0 block] .. [XCC n-1 block] [shared debug area]`;
/// header `i` sits at byte offset `i * ctx_save_restore_size` and its
/// `debug_offset` points forward to the shared debug area, so it equals
/// `(n - i) * ctx_save_restore_size`.  Control-stack and wave-state
/// fields start at zero; firmware fills them.
pub fn build_cwsr_headers(
    sizes: &CwsrSizes,
    num_xcc: u32,
    error_event_id: u32,
    error_reason: u64,
) -> (r: Vec<(u32, HsaUserContextSaveAreaHeader)>)
    requires
        spec_header_count(num_xcc) * sizes.ctx_save_restore_size <= u32::MAX,
        spec_header_count(num_xcc) * sizes.debug_memory_size <= u32::MAX,
    ensures
        r@.len() == spec_header_count(num_xcc),
        forall|i: int|
            #![trigger r@[i]]
            0 <= i < r@.len() ==> {
                &&& r@[i].0 == i * sizes.ctx_save_restore_size
                &&& r@[i].1.debug_offset == (spec_header_count(num_xcc) - i)
                    * sizes.ctx_save_restore_size
                &&& r@[i].1.debug_size == sizes.debug_memory_size * spec_header_count(num_xcc)
                &&& r@[i].1.error_event_id == error_event_id
                &&& r@[i].1.error_reason == error_reason
                &&& r@[i].1.control_stack_offset == 0
                &&& r@[i].1.control_stack_size == 0
                &&& r@[i].1.wave_state_offset == 0
                &&& r@[i].1.wave_state_size == 0
                &&& r@[i].1.reserved1 == 0
            },
{
    let xcc: u32 = if num_xcc == 0 {
        1
    } else {
        num_xcc
    };
    let size: u32 = sizes.ctx_save_restore_size;
    proof {
        assert((xcc as int) * (sizes.debug_memory_size as int) == (sizes.debug_memory_size as int)
            * (xcc as int)) by (nonlinear_arith);
    }
    let debug_size_total: u32 = sizes.debug_memory_size * xcc;
    let mut r: Vec<(u32, HsaUserContextSaveAreaHeader)> = Vec::new();
    let mut i: u32 = 0;
    while i < xcc
        invariant
            0 <= i <= xcc,
            xcc == spec_header_count(num_xcc),
            size == sizes.ctx_save_restore_size,
            (xcc as int) * (size as int) <= u32::MAX,
            debug_size_total == sizes.debug_memory_size * (xcc as int),
            r@.len() == i,
            forall|k: int|
                #![trigger r@[k]]
                0 <= k < i ==> {
                    &&& r@[k].0 == k * sizes.ctx_save_restore_size
                    &&& r@[k].1.debug_offset == (xcc - k) * sizes.ctx_save_restore_size
                    &&& r@[k].1.debug_size == debug_size_total
                    &&& r@[k].1.error_event_id == error_event_id
                    &&& r@[k].1.error_reason == error_reason
                    &&& r@[k].1.control_stack_offset == 0
                    &&& r@[k].1.control_stack_size == 0
                    &&& r@[k].1.wave_state_offset == 0
                    &&& r@[k].1.wave_state_size == 0
                    &&& r@[k].1.reserved1 == 0
                },
        decreases xcc - i,
    {
        proof {
            assert((i as int) * (size as int) <= (xcc as int) * (size as int) && ((xcc - i) as int)
                * (size as int) <= (xcc as int) * (size as int) && 0 <= (i as int) * (size as int)
                && 0 <= ((xcc - i) as int) * (size as int)) by (nonlinear_arith)
                requires
                    0 <= i < xcc,
                    0 <= size,
            ;
        }
        let offset: u32 = ((i as u64) * (size as u64)) as u32;
        let debug_offset: u32 = (((xcc - i) as u64) * (size as u64)) as u32;
        let header = HsaUserContextSaveAreaHeader {
            control_stack_offset: 0,
            control_stack_size: 0,
            wave_state_offset: 0,
            wave_state_size: 0,
            debug_offset,
            debug_size: debug_size_total,
            error_reason,
            error_event_id,
            reserved1: 0,
        };
        r.push((offset, header));
        i = i + 1;
    }
    r
}

/// Every sizing component is at most the total, because the per-XCC
/// block and debugger memory are non-negative and there is at least one
/// XCC.
proof fn lemma_cwsr_components_bounded(p: &HsaNodeProperties)
    requires
        spec_cwsr_supported(p),
    ensures
        0 <= spec_ctl_stack_size(p) <= spec_total_mem_alloc_size(p),
        0 <= spec_wg_data_size(p) <= spec_total_mem_alloc_size(p),
        0 <= spec_debug_memory_size(p) <= spec_total_mem_alloc_size(p),
        0 <= spec_ctx_save_restore_size(p) <= spec_total_mem_alloc_size(p),
{
    let ctl = spec_ctl_stack_size(p);
    let wg = spec_wg_data_size(p);
    let debug = spec_debug_memory_size(p);
    let per = spec_ctx_save_restore_size(p);
    let xcc = spec_xcc(p);
    let wave = spec_wave_num(p);
    let cu = spec_cu_num(p);
    assert(cu >= 0 && wave >= 0) by (nonlinear_arith)
        requires
            cu == spec_cu_num(p),
            wave == spec_wave_num(p),
            p.simd_count >= 0,
            p.simd_per_cu >= 1,
            spec_xcc(p) >= 1,
    ;
    assert(wg >= 0) by (nonlinear_arith)
        requires
            wg == spec_wg_data_size(p),
            spec_cu_num(p) >= 0,
            spec_vgpr_size_per_cu(p.gfx_target_version as int) >= 0,
            p.sgpr_size_per_cu >= 0,
            p.lds_size_in_kb >= 0,
    ;
    assert(ctl >= 0 && debug >= 0);
    assert(per >= ctl && per >= wg && per >= 0);
    assert((per + debug) * xcc >= per + debug) by (nonlinear_arith)
        requires
            xcc >= 1,
            per + debug >= 0,
    ;
}

} // verus!
