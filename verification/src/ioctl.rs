//! The kernel driver ioctl argument catalog and request-code packing.
//!
//! Argument structs mirror the driver ABI field for field.  The wire
//! unions of the debugger, profiler and event payloads are modeled as
//! explicit tag-plus-variant enums; serialization to the fixed-size
//! union happens at the I/O edge outside this crate.

use vstd::prelude::*;

verus! {

pub const KFD_IOCTL_BASE: u32 = 0x4B;

pub const KFD_IOCTL_MAJOR_VERSION: u32 = 1;

pub const KFD_IOCTL_MINOR_VERSION: u32 = 18;

pub const IOC_NRBITS: u32 = 8;

pub const IOC_TYPEBITS: u32 = 8;

pub const IOC_SIZEBITS: u32 = 14;

pub const IOC_NRSHIFT: u32 = 0;

pub const IOC_TYPESHIFT: u32 = 8;

pub const IOC_SIZESHIFT: u32 = 16;

pub const IOC_DIRSHIFT: u32 = 30;

pub const IOC_NONE: u32 = 0;

pub const IOC_WRITE: u32 = 1;

pub const IOC_READ: u32 = 2;

/// The standard direction/type/size/nr packing of an ioctl request code.
pub open spec fn spec_ioc(dir: u32, type_: u32, nr: u32, size: u32) -> u32 {
    (dir << IOC_DIRSHIFT) | (type_ << IOC_TYPESHIFT) | (nr << IOC_NRSHIFT) | (size << IOC_SIZESHIFT)
}

#[must_use]
pub fn _ioc(dir: u32, type_: u32, nr: u32, size: usize) -> (r: u32)
    ensures
        r == spec_ioc(dir, type_, nr, size as u32),
{
    (dir << IOC_DIRSHIFT) | (type_ << IOC_TYPESHIFT) | (nr << IOC_NRSHIFT) | ((size as u32)
        << IOC_SIZESHIFT)
}

/// Request code of an ioctl that carries no payload.
#[must_use]
pub fn io(type_: u32, nr: u32) -> (r: u32)
    ensures
        r == spec_ioc(IOC_NONE, type_, nr, 0),
{
    _ioc(IOC_NONE, type_, nr, 0)
}

/// Request code of a read ioctl with payload type `T`.
#[must_use]
pub fn ior<T>(type_: u32, nr: u32) -> (r: u32)
    ensures
        r == spec_ioc(IOC_READ, type_, nr, vstd::layout::size_of::<T>() as u32),
{
    _ioc(IOC_READ, type_, nr, core::mem::size_of::<T>())
}

/// Request code of a write ioctl with payload type `T`.
#[must_use]
pub fn iow<T>(type_: u32, nr: u32) -> (r: u32)
    ensures
        r == spec_ioc(IOC_WRITE, type_, nr, vstd::layout::size_of::<T>() as u32),
{
    _ioc(IOC_WRITE, type_, nr, core::mem::size_of::<T>())
}

/// Request code of a read/write ioctl with payload type `T`.
#[must_use]
pub fn iowr<T>(type_: u32, nr: u32) -> (r: u32)
    ensures
        r == spec_ioc(IOC_READ | IOC_WRITE, type_, nr, vstd::layout::size_of::<T>() as u32),
{
    _ioc(IOC_READ | IOC_WRITE, type_, nr, core::mem::size_of::<T>())
}

// ===========================================================================
// Versioning
// ===========================================================================

#[derive(Debug, Clone, Copy, PartialEq, Eq, Structural)]
pub struct GetVersionArgs {
    pub major_version: u32,
    pub minor_version: u32,
}

// ===========================================================================
// Queue management
// ===========================================================================

pub const KFD_IOC_QUEUE_TYPE_COMPUTE: u32 = 0x0;

pub const KFD_IOC_QUEUE_TYPE_SDMA: u32 = 0x1;

pub const KFD_IOC_QUEUE_TYPE_COMPUTE_AQL: u32 = 0x2;

pub const KFD_IOC_QUEUE_TYPE_SDMA_XGMI: u32 = 0x3;

pub const KFD_IOC_QUEUE_TYPE_SDMA_BY_ENG_ID: u32 = 0x4;

pub const KFD_MAX_QUEUE_PERCENTAGE: u32 = 100;

pub const KFD_MAX_QUEUE_PRIORITY: u32 = 15;

#[derive(Debug, Clone, Copy, PartialEq, Eq, Structural)]
pub struct CreateQueueArgs {
    pub ring_base_address: u64,
    pub write_pointer_address: u64,
    pub read_pointer_address: u64,
    pub doorbell_offset: u64,
    pub ring_size: u32,
    pub gpu_id: u32,
    pub queue_type: u32,
    pub queue_percentage: u32,
    pub queue_priority: u32,
    pub queue_id: u32,
    pub eop_buffer_address: u64,
    pub eop_buffer_size: u64,
    pub ctx_save_restore_address: u64,
    pub ctx_save_restore_size: u32,
    pub ctl_stack_size: u32,
    pub sdma_engine_id: u32,
    pub pad: u32,
}

#[derive(Debug, Clone, Copy, PartialEq, Eq, Structural)]
pub struct DestroyQueueArgs {
    pub queue_id: u32,
    pub pad: u32,
}

#[derive(Debug, Clone, Copy, PartialEq, Eq, Structural)]
pub struct UpdateQueueArgs {
    pub ring_base_address: u64,
    pub queue_id: u32,
    pub ring_size: u32,
    pub queue_percentage: u32,
    pub queue_priority: u32,
}

#[derive(Debug, Clone, Copy, PartialEq, Eq, Structural)]
pub struct SetCuMaskArgs {
    pub queue_id: u32,
    pub num_cu_mask: u32,
    pub cu_mask_ptr: u64,
}

#[derive(Debug, Clone, Copy, PartialEq, Eq, Structural)]
pub struct GetQueueWaveStateArgs {
    pub ctl_stack_address: u64,
    pub ctl_stack_used_size: u32,
    pub save_area_used_size: u32,
    pub queue_id: u32,
    pub pad: u32,
}

#[derive(Debug, Clone, Copy, PartialEq, Eq, Structural)]
pub struct QueueSnapshotEntry {
    pub exception_status: u64,
    pub ring_base_address: u64,
    pub write_pointer_address: u64,
    pub read_pointer_address: u64,
    pub ctx_save_restore_address: u64,
    pub queue_id: u32,
    pub gpu_id: u32,
    pub ring_size: u32,
    pub queue_type: u32,
    pub ctx_save_restore_area_size: u32,
    pub reserved: u32,
}

// ===========================================================================
// System properties and topology
// ===========================================================================

#[derive(Debug, Clone, Copy, PartialEq, Eq, Structural)]
pub struct DbgDeviceInfoEntry {
    pub exception_status: u64,
    pub lds_base: u64,
    pub lds_limit: u64,
    pub scratch_base: u64,
    pub scratch_limit: u64,
    pub gpuvm_base: u64,
    pub gpuvm_limit: u64,
    pub gpu_id: u32,
    pub location_id: u32,
    pub vendor_id: u32,
    pub device_id: u32,
    pub revision_id: u32,
    pub subsystem_vendor_id: u32,
    pub subsystem_device_id: u32,
    pub fw_version: u32,
    pub gfx_target_version: u32,
    pub simd_count: u32,
    pub max_waves_per_simd: u32,
    pub array_count: u32,
    pub simd_arrays_per_engine: u32,
    pub num_xcc: u32,
    pub capability: u32,
    pub debug_prop: u32,
}

// ===========================================================================
// Memory policy
// ===========================================================================

pub const KFD_IOC_CACHE_POLICY_COHERENT: u32 = 0;

pub const KFD_IOC_CACHE_POLICY_NONCOHERENT: u32 = 1;

#[derive(Debug, Clone, Copy, PartialEq, Eq, Structural)]
pub struct SetMemoryPolicyArgs {
    pub alternate_aperture_base: u64,
    pub alternate_aperture_size: u64,
    pub gpu_id: u32,
    pub default_policy: u32,
    pub alternate_policy: u32,
    pub misc_process_flag: u32,
}

// ===========================================================================
// Profiling
// ===========================================================================

#[derive(Debug, Clone, Copy, PartialEq, Eq, Structural)]
pub struct GetClockCountersArgs {
    pub gpu_clock_counter: u64,
    pub cpu_clock_counter: u64,
    pub system_clock_counter: u64,
    pub system_clock_freq: u64,
    pub gpu_id: u32,
    pub pad: u32,
}

// ===========================================================================
// Process apertures
// ===========================================================================

#[derive(Debug, Clone, Copy, PartialEq, Eq, Structural)]
pub struct ProcessDeviceApertures {
    pub lds_base: u64,
    pub lds_limit: u64,
    pub scratch_base: u64,
    pub scratch_limit: u64,
    pub gpuvm_base: u64,
    pub gpuvm_limit: u64,
    pub gpu_id: u32,
    pub pad: u32,
}

pub const NUM_OF_SUPPORTED_GPUS: usize = 7;

#[derive(Debug, Clone, Copy)]
pub struct GetProcessAperturesArgs {
    pub process_apertures: [ProcessDeviceApertures; NUM_OF_SUPPORTED_GPUS],
    pub num_of_nodes: u32,
    pub pad: u32,
}

#[derive(Debug, Clone, Copy, PartialEq, Eq, Structural)]
pub struct GetProcessAperturesNewArgs {
    pub kfd_process_device_apertures_ptr: u64,
    pub num_of_nodes: u32,
    pub pad: u32,
}

// ===========================================================================
// Debugger
// ===========================================================================

#[derive(Debug, Clone, Copy, PartialEq, Eq, Structural)]
pub struct DbgRegisterArgs {
    pub gpu_id: u32,
    pub pad: u32,
}

#[derive(Debug, Clone, Copy, PartialEq, Eq, Structural)]
pub struct DbgUnregisterArgs {
    pub gpu_id: u32,
    pub pad: u32,
}

#[derive(Debug, Clone, Copy, PartialEq, Eq, Structural)]
pub struct DbgAddressWatchArgs {
    pub content_ptr: u64,
    pub gpu_id: u32,
    pub buf_size_in_bytes: u32,
}

#[derive(Debug, Clone, Copy, PartialEq, Eq, Structural)]
pub struct DbgWaveControlArgs {
    pub content_ptr: u64,
    pub gpu_id: u32,
    pub buf_size_in_bytes: u32,
}

pub const KFD_DBG_QUEUE_ERROR_BIT: u32 = 30;

pub const KFD_DBG_QUEUE_INVALID_BIT: u32 = 31;

pub const KFD_DBG_QUEUE_ERROR_MASK: u32 = 1 << 30;

pub const KFD_DBG_QUEUE_INVALID_MASK: u32 = 1 << 31;

#[derive(Debug, Clone, Copy, PartialEq, Eq, Structural)]
pub struct RuntimeInfo {
    pub r_debug: u64,
    pub runtime_state: u32,
    pub ttmp_setup: u32,
}

#[derive(Debug, Clone, Copy, PartialEq, Eq, Structural)]
pub struct RuntimeEnableArgs {
    pub r_debug: u64,
    pub mode_mask: u32,
    pub capabilities_mask: u32,
}

#[derive(Debug, Clone, Copy, PartialEq, Eq, Structural)]
pub struct ContextSaveAreaHeaderWaveState {
    pub control_stack_offset: u32,
    pub control_stack_size: u32,
    pub wave_state_offset: u32,
    pub wave_state_size: u32,
}

#[derive(Debug, Clone, Copy, PartialEq, Eq, Structural)]
pub struct ContextSaveAreaHeader {
    pub wave_state: ContextSaveAreaHeaderWaveState,
    pub debug_offset: u32,
    pub debug_size: u32,
    pub err_payload_addr: u64,
    pub err_event_id: u32,
    pub reserved1: u32,
}

pub const KFD_IOC_DBG_TRAP_ENABLE: u32 = 0;

pub const KFD_IOC_DBG_TRAP_DISABLE: u32 = 1;

pub const KFD_IOC_DBG_TRAP_SEND_RUNTIME_EVENT: u32 = 2;

pub const KFD_IOC_DBG_TRAP_SET_EXCEPTIONS_ENABLED: u32 = 3;

pub const KFD_IOC_DBG_TRAP_SET_WAVE_LAUNCH_OVERRIDE: u32 = 4;

pub const KFD_IOC_DBG_TRAP_SET_WAVE_LAUNCH_MODE: u32 = 5;

pub const KFD_IOC_DBG_TRAP_SUSPEND_QUEUES: u32 = 6;

pub const KFD_IOC_DBG_TRAP_RESUME_QUEUES: u32 = 7;

pub const KFD_IOC_DBG_TRAP_SET_NODE_ADDRESS_WATCH: u32 = 8;

pub const KFD_IOC_DBG_TRAP_CLEAR_NODE_ADDRESS_WATCH: u32 = 9;

pub const KFD_IOC_DBG_TRAP_SET_FLAGS: u32 = 10;

pub const KFD_IOC_DBG_TRAP_QUERY_DEBUG_EVENT: u32 = 11;

pub const KFD_IOC_DBG_TRAP_QUERY_EXCEPTION_INFO: u32 = 12;

pub const KFD_IOC_DBG_TRAP_GET_QUEUE_SNAPSHOT: u32 = 13;

pub const KFD_IOC_DBG_TRAP_GET_DEVICE_SNAPSHOT: u32 = 14;

#[derive(Debug, Clone, Copy, PartialEq, Eq, Structural)]
pub struct DbgTrapEnableArgs {
    pub exception_mask: u64,
    pub rinfo_ptr: u64,
    pub rinfo_size: u32,
    pub dbg_fd: u32,
}

#[derive(Debug, Clone, Copy, PartialEq, Eq, Structural)]
pub struct DbgTrapSendRuntimeEventArgs {
    pub exception_mask: u64,
    pub gpu_id: u32,
    pub queue_id: u32,
}

#[derive(Debug, Clone, Copy, PartialEq, Eq, Structural)]
pub struct DbgTrapSetExceptionsEnabledArgs {
    pub exception_mask: u64,
}

#[derive(Debug, Clone, Copy, PartialEq, Eq, Structural)]
pub struct DbgTrapSetWaveLaunchOverrideArgs {
    pub override_mode: u32,
    pub enable_mask: u32,
    pub support_request_mask: u32,
    pub pad: u32,
}

#[derive(Debug, Clone, Copy, PartialEq, Eq, Structural)]
pub struct DbgTrapSetWaveLaunchModeArgs {
    pub launch_mode: u32,
    pub pad: u32,
}

#[derive(Debug, Clone, Copy, PartialEq, Eq, Structural)]
pub struct DbgTrapSuspendQueuesArgs {
    pub exception_mask: u64,
    pub queue_array_ptr: u64,
    pub num_queues: u32,
    pub grace_period: u32,
}

#[derive(Debug, Clone, Copy, PartialEq, Eq, Structural)]
pub struct DbgTrapResumeQueuesArgs {
    pub queue_array_ptr: u64,
    pub num_queues: u32,
    pub pad: u32,
}

#[derive(Debug, Clone, Copy, PartialEq, Eq, Structural)]
pub struct DbgTrapSetNodeAddressWatchArgs {
    pub address: u64,
    pub mode: u32,
    pub mask: u32,
    pub gpu_id: u32,
    pub id: u32,
}

#[derive(Debug, Clone, Copy, PartialEq, Eq, Structural)]
pub struct DbgTrapClearNodeAddressWatchArgs {
    pub gpu_id: u32,
    pub id: u32,
}

#[derive(Debug, Clone, Copy, PartialEq, Eq, Structural)]
pub struct DbgTrapSetFlagsArgs {
    pub flags: u32,
    pub pad: u32,
}

#[derive(Debug, Clone, Copy, PartialEq, Eq, Structural)]
pub struct DbgTrapQueryDebugEventArgs {
    pub exception_mask: u64,
    pub gpu_id: u32,
    pub queue_id: u32,
}

#[derive(Debug, Clone, Copy, PartialEq, Eq, Structural)]
pub struct DbgTrapQueryExceptionInfoArgs {
    pub info_ptr: u64,
    pub info_size: u32,
    pub source_id: u32,
    pub exception_code: u32,
    pub clear_exception: u32,
}

#[derive(Debug, Clone, Copy, PartialEq, Eq, Structural)]
pub struct DbgTrapQueueSnapshotArgs {
    pub exception_mask: u64,
    pub snapshot_buf_ptr: u64,
    pub num_queues: u32,
    pub entry_size: u32,
}

#[derive(Debug, Clone, Copy, PartialEq, Eq, Structural)]
pub struct DbgTrapDeviceSnapshotArgs {
    pub exception_mask: u64,
    pub snapshot_buf_ptr: u64,
    pub num_devices: u32,
    pub entry_size: u32,
}

/// The debugger operation payload: one variant per trap operation.
/// `Disable` carries no payload.
#[derive(Debug, Clone, Copy)]
pub enum DbgTrapPayload {
    Enable(DbgTrapEnableArgs),
    Disable,
    SendRuntimeEvent(DbgTrapSendRuntimeEventArgs),
    SetExceptionsEnabled(DbgTrapSetExceptionsEnabledArgs),
    SetWaveLaunchOverride(DbgTrapSetWaveLaunchOverrideArgs),
    SetWaveLaunchMode(DbgTrapSetWaveLaunchModeArgs),
    SuspendQueues(DbgTrapSuspendQueuesArgs),
    ResumeQueues(DbgTrapResumeQueuesArgs),
    SetNodeAddressWatch(DbgTrapSetNodeAddressWatchArgs),
    ClearNodeAddressWatch(DbgTrapClearNodeAddressWatchArgs),
    SetFlags(DbgTrapSetFlagsArgs),
    QueryDebugEvent(DbgTrapQueryDebugEventArgs),
    QueryExceptionInfo(DbgTrapQueryExceptionInfoArgs),
    QueueSnapshot(DbgTrapQueueSnapshotArgs),
    DeviceSnapshot(DbgTrapDeviceSnapshotArgs),
}

/// The operation discriminant that a debugger payload serializes under.
pub open spec fn spec_dbg_trap_op(p: DbgTrapPayload) -> u32 {
    match p {
        DbgTrapPayload::Enable(_) => KFD_IOC_DBG_TRAP_ENABLE,
        DbgTrapPayload::Disable => KFD_IOC_DBG_TRAP_DISABLE,
        DbgTrapPayload::SendRuntimeEvent(_) => KFD_IOC_DBG_TRAP_SEND_RUNTIME_EVENT,
        DbgTrapPayload::SetExceptionsEnabled(_) => KFD_IOC_DBG_TRAP_SET_EXCEPTIONS_ENABLED,
        DbgTrapPayload::SetWaveLaunchOverride(_) => KFD_IOC_DBG_TRAP_SET_WAVE_LAUNCH_OVERRIDE,
        DbgTrapPayload::SetWaveLaunchMode(_) => KFD_IOC_DBG_TRAP_SET_WAVE_LAUNCH_MODE,
        DbgTrapPayload::SuspendQueues(_) => KFD_IOC_DBG_TRAP_SUSPEND_QUEUES,
        DbgTrapPayload::ResumeQueues(_) => KFD_IOC_DBG_TRAP_RESUME_QUEUES,
        DbgTrapPayload::SetNodeAddressWatch(_) => KFD_IOC_DBG_TRAP_SET_NODE_ADDRESS_WATCH,
        DbgTrapPayload::ClearNodeAddressWatch(_) => KFD_IOC_DBG_TRAP_CLEAR_NODE_ADDRESS_WATCH,
        DbgTrapPayload::SetFlags(_) => KFD_IOC_DBG_TRAP_SET_FLAGS,
        DbgTrapPayload::QueryDebugEvent(_) => KFD_IOC_DBG_TRAP_QUERY_DEBUG_EVENT,
        DbgTrapPayload::QueryExceptionInfo(_) => KFD_IOC_DBG_TRAP_QUERY_EXCEPTION_INFO,
        DbgTrapPayload::QueueSnapshot(_) => KFD_IOC_DBG_TRAP_GET_QUEUE_SNAPSHOT,
        DbgTrapPayload::DeviceSnapshot(_) => KFD_IOC_DBG_TRAP_GET_DEVICE_SNAPSHOT,
    }
}

/// Computes the wire discriminant of a debugger payload.
pub fn dbg_trap_op(p: &DbgTrapPayload) -> (r: u32)
    ensures
        r == spec_dbg_trap_op(*p),
{
    match p {
        DbgTrapPayload::Enable(_) => KFD_IOC_DBG_TRAP_ENABLE,
        DbgTrapPayload::Disable => KFD_IOC_DBG_TRAP_DISABLE,
        DbgTrapPayload::SendRuntimeEvent(_) => KFD_IOC_DBG_TRAP_SEND_RUNTIME_EVENT,
        DbgTrapPayload::SetExceptionsEnabled(_) => KFD_IOC_DBG_TRAP_SET_EXCEPTIONS_ENABLED,
        DbgTrapPayload::SetWaveLaunchOverride(_) => KFD_IOC_DBG_TRAP_SET_WAVE_LAUNCH_OVERRIDE,
        DbgTrapPayload::SetWaveLaunchMode(_) => KFD_IOC_DBG_TRAP_SET_WAVE_LAUNCH_MODE,
        DbgTrapPayload::SuspendQueues(_) => KFD_IOC_DBG_TRAP_SUSPEND_QUEUES,
        DbgTrapPayload::ResumeQueues(_) => KFD_IOC_DBG_TRAP_RESUME_QUEUES,
        DbgTrapPayload::SetNodeAddressWatch(_) => KFD_IOC_DBG_TRAP_SET_NODE_ADDRESS_WATCH,
        DbgTrapPayload::ClearNodeAddressWatch(_) => KFD_IOC_DBG_TRAP_CLEAR_NODE_ADDRESS_WATCH,
        DbgTrapPayload::SetFlags(_) => KFD_IOC_DBG_TRAP_SET_FLAGS,
        DbgTrapPayload::QueryDebugEvent(_) => KFD_IOC_DBG_TRAP_QUERY_DEBUG_EVENT,
        DbgTrapPayload::QueryExceptionInfo(_) => KFD_IOC_DBG_TRAP_QUERY_EXCEPTION_INFO,
        DbgTrapPayload::QueueSnapshot(_) => KFD_IOC_DBG_TRAP_GET_QUEUE_SNAPSHOT,
        DbgTrapPayload::DeviceSnapshot(_) => KFD_IOC_DBG_TRAP_GET_DEVICE_SNAPSHOT,
    }
}

/// A debugger trap request: target process plus one tagged operation
/// payload.
#[derive(Debug, Clone, Copy)]
pub struct DbgTrapArgs {
    pub pid: u32,
    pub payload: DbgTrapPayload,
}

// ===========================================================================
// Events
// ===========================================================================

pub const KFD_IOC_EVENT_SIGNAL: u32 = 0;

pub const KFD_IOC_EVENT_NODECHANGE: u32 = 1;

pub const KFD_IOC_EVENT_DEVICESTATECHANGE: u32 = 2;

pub const KFD_IOC_EVENT_HW_EXCEPTION: u32 = 3;

pub const KFD_IOC_EVENT_SYSTEM_EVENT: u32 = 4;

pub const KFD_IOC_EVENT_DEBUG_EVENT: u32 = 5;

pub const KFD_IOC_EVENT_PROFILE_EVENT: u32 = 6;

pub const KFD_IOC_EVENT_QUEUE_EVENT: u32 = 7;

pub const KFD_IOC_EVENT_MEMORY: u32 = 8;

pub const KFD_IOC_WAIT_RESULT_COMPLETE: u32 = 0;

pub const KFD_IOC_WAIT_RESULT_TIMEOUT: u32 = 1;

pub const KFD_IOC_WAIT_RESULT_FAIL: u32 = 2;

#[derive(Debug, Clone, Copy, PartialEq, Eq, Structural)]
pub struct CreateEventArgs {
    pub event_page_offset: u64,
    pub event_trigger_data: u32,
    pub event_type: u32,
    pub auto_reset: u32,
    pub node_id: u32,
    pub event_id: u32,
    pub event_slot_index: u32,
}

#[derive(Debug, Clone, Copy, PartialEq, Eq, Structural)]
pub struct DestroyEventArgs {
    pub event_id: u32,
    pub pad: u32,
}

#[derive(Debug, Clone, Copy, PartialEq, Eq, Structural)]
pub struct SetEventArgs {
    pub event_id: u32,
    pub pad: u32,
}

#[derive(Debug, Clone, Copy, PartialEq, Eq, Structural)]
pub struct ResetEventArgs {
    pub event_id: u32,
    pub pad: u32,
}

#[derive(Debug, Clone, Copy, PartialEq, Eq, Structural)]
pub struct MemoryExceptionFailure {
    pub not_present: u32,
    pub read_only: u32,
    pub no_execute: u32,
    pub imprecise: u32,
}

#[derive(Debug, Clone, Copy, PartialEq, Eq, Structural)]
pub struct HsaMemoryExceptionData {
    pub failure: MemoryExceptionFailure,
    pub va: u64,
    pub gpu_id: u32,
    pub error_type: u32,
}

#[derive(Debug, Clone, Copy, PartialEq, Eq, Structural)]
pub struct HsaHwExceptionData {
    pub reset_type: u32,
    pub reset_cause: u32,
    pub memory_lost: u32,
    pub gpu_id: u32,
}

#[derive(Debug, Clone, Copy, PartialEq, Eq, Structural)]
pub struct HsaSignalEventData {
    pub last_event_age: u64,
}

/// The event payload union, modeled as a tagged variant.
#[derive(Debug, Clone, Copy)]
pub enum EventPayload {
    MemoryException(HsaMemoryExceptionData),
    HwException(HsaHwExceptionData),
    Signal(HsaSignalEventData),
}

/// One delivered event record.
#[derive(Debug, Clone, Copy)]
pub struct EventData {
    pub payload: EventPayload,
    pub kfd_event_data_ext: u64,
    pub event_id: u32,
    pub pad: u32,
}

#[derive(Debug, Clone, Copy, PartialEq, Eq, Structural)]
pub struct WaitEventsArgs {
    pub events_ptr: u64,
    pub num_events: u32,
    pub wait_for_all: u32,
    pub timeout: u32,
    pub wait_result: u32,
}

// ===========================================================================
// Memory management
// ===========================================================================

#[derive(Debug, Clone, Copy, PartialEq, Eq, Structural)]
pub struct SetScratchBackingVaArgs {
    pub va_addr: u64,
    pub gpu_id: u32,
    pub pad: u32,
}

#[derive(Debug, Clone, Copy, PartialEq, Eq, Structural)]
pub struct GetTileConfigArgs {
    pub tile_config_ptr: u64,
    pub macro_tile_config_ptr: u64,
    pub num_tile_configs: u32,
    pub num_macro_tile_configs: u32,
    pub gpu_id: u32,
    pub gb_addr_config: u32,
    pub num_banks: u32,
    pub num_ranks: u32,
}

#[derive(Debug, Clone, Copy, PartialEq, Eq, Structural)]
pub struct SetTrapHandlerArgs {
    pub tba_addr: u64,
    pub tma_addr: u64,
    pub gpu_id: u32,
    pub pad: u32,
}

#[derive(Debug, Clone, Copy, PartialEq, Eq, Structural)]
pub struct AcquireVmArgs {
    pub drm_fd: u32,
    pub gpu_id: u32,
}

#[derive(Debug, Clone, Copy, PartialEq, Eq, Structural)]
pub struct AllocMemoryOfGpuArgs {
    pub va_addr: u64,
    pub size: u64,
    pub handle: u64,
    pub mmap_offset: u64,
    pub gpu_id: u32,
    pub flags: u32,
}

#[derive(Debug, Clone, Copy, PartialEq, Eq, Structural)]
pub struct FreeMemoryOfGpuArgs {
    pub handle: u64,
}

#[derive(Debug, Clone, Copy, PartialEq, Eq, Structural)]
pub struct GetAvailableMemoryArgs {
    pub available: u64,
    pub gpu_id: u32,
    pub pad: u32,
}

#[derive(Debug, Clone, Copy, PartialEq, Eq, Structural)]
pub struct MapMemoryToGpuArgs {
    pub handle: u64,
    pub device_ids_array_ptr: u64,
    pub n_devices: u32,
    pub n_success: u32,
}

#[derive(Debug, Clone, Copy, PartialEq, Eq, Structural)]
pub struct UnmapMemoryFromGpuArgs {
    pub handle: u64,
    pub device_ids_array_ptr: u64,
    pub n_devices: u32,
    pub n_success: u32,
}

#[derive(Debug, Clone, Copy, PartialEq, Eq, Structural)]
pub struct AllocQueueGwsArgs {
    pub queue_id: u32,
    pub num_gws: u32,
    pub first_gws: u32,
    pub pad: u32,
}

// ===========================================================================
// DMA buffers
// ===========================================================================

#[derive(Debug, Clone, Copy, PartialEq, Eq, Structural)]
pub struct GetDmabufInfoArgs {
    pub size: u64,
    pub metadata_ptr: u64,
    pub metadata_size: u32,
    pub gpu_id: u32,
    pub flags: u32,
    pub dmabuf_fd: u32,
}

#[derive(Debug, Clone, Copy, PartialEq, Eq, Structural)]
pub struct ImportDmabufArgs {
    pub va_addr: u64,
    pub handle: u64,
    pub gpu_id: u32,
    pub dmabuf_fd: u32,
}

#[derive(Debug, Clone, Copy, PartialEq, Eq, Structural)]
pub struct ExportDmabufArgs {
    pub handle: u64,
    pub flags: u32,
    pub dmabuf_fd: u32,
}

// ===========================================================================
// SMI, SPM
// ===========================================================================

#[derive(Debug, Clone, Copy, PartialEq, Eq, Structural)]
pub struct SmiEventsArgs {
    pub gpu_id: u32,
    pub anon_fd: u32,
}

#[derive(Debug, Clone, Copy, PartialEq, Eq, Structural)]
pub struct SpmArgs {
    pub dest_buf: u64,
    pub buf_size: u32,
    pub op: u32,
    pub timeout: u32,
    pub gpu_id: u32,
    pub bytes_copied: u32,
    pub has_data_loss: u32,
}

#[derive(Debug, Clone, Copy)]
pub struct SpmBufferHeader {
    pub version: u32,
    pub bytes_copied: u32,
    pub has_data_loss: u32,
    pub reserved: [u32; 5],
}

// ===========================================================================
// CRIU
// ===========================================================================

#[derive(Debug, Clone, Copy, PartialEq, Eq, Structural)]
pub struct CriuArgs {
    pub devices: u64,
    pub bos: u64,
    pub priv_data: u64,
    pub priv_data_size: u64,
    pub num_devices: u32,
    pub num_bos: u32,
    pub num_objects: u32,
    pub pid: u32,
    pub op: u32,
}

#[derive(Debug, Clone, Copy, PartialEq, Eq, Structural)]
pub struct CriuDeviceBucket {
    pub user_gpu_id: u32,
    pub actual_gpu_id: u32,
    pub drm_fd: u32,
    pub pad: u32,
}

#[derive(Debug, Clone, Copy, PartialEq, Eq, Structural)]
pub struct CriuBoBucket {
    pub addr: u64,
    pub size: u64,
    pub offset: u64,
    pub restored_offset: u64,
    pub gpu_id: u32,
    pub alloc_flags: u32,
    pub dmabuf_fd: u32,
    pub pad: u32,
}

// ===========================================================================
// IPC
// ===========================================================================

#[derive(Debug, Clone, Copy)]
pub struct IpcExportHandleArgs {
    pub handle: u64,
    pub share_handle: [u32; 4],
    pub gpu_id: u32,
    pub flags: u32,
}

#[derive(Debug, Clone, Copy)]
pub struct IpcImportHandleArgs {
    pub handle: u64,
    pub va_addr: u64,
    pub mmap_offset: u64,
    pub share_handle: [u32; 4],
    pub gpu_id: u32,
    pub flags: u32,
}

// ===========================================================================
// Cross-memory copy
// ===========================================================================

#[derive(Debug, Clone, Copy, PartialEq, Eq, Structural)]
pub struct CrossMemoryCopyArgs {
    pub pid: u32,
    pub flags: u32,
    pub src_mem_range_array: u64,
    pub src_mem_array_size: u64,
    pub dst_mem_range_array: u64,
    pub dst_mem_array_size: u64,
    pub bytes_copied: u64,
}

// ===========================================================================
// SVM
// ===========================================================================

pub const KFD_IOCTL_SVM_FLAG_HOST_ACCESS: u32 = 0x00000001;

pub const KFD_IOCTL_SVM_FLAG_COHERENT: u32 = 0x00000002;

pub const KFD_IOCTL_SVM_FLAG_HIVE_LOCAL: u32 = 0x00000004;

pub const KFD_IOCTL_SVM_FLAG_GPU_RO: u32 = 0x00000008;

pub const KFD_IOCTL_SVM_FLAG_GPU_EXEC: u32 = 0x00000010;

pub const KFD_IOCTL_SVM_FLAG_GPU_READ_MOSTLY: u32 = 0x00000020;

pub const KFD_IOCTL_SVM_FLAG_GPU_ALWAYS_MAPPED: u32 = 0x00000040;

pub const KFD_IOCTL_SVM_FLAG_EXT_COHERENT: u32 = 0x00000080;

#[derive(Debug, Clone, Copy, PartialEq, Eq, Structural)]
pub struct SvmAttribute {
    pub type_: u32,
    pub value: u32,
}

/// The fixed head of the variable-length SVM request; the attribute
/// array travels separately as plain values.
#[derive(Debug, Clone)]
pub struct SvmArgs {
    pub start_addr: u64,
    pub size: u64,
    pub op: u32,
    pub attrs: Vec<SvmAttribute>,
}

// ===========================================================================
// XNACK
// ===========================================================================

#[derive(Debug, Clone, Copy, PartialEq, Eq, Structural)]
pub struct SetXnackModeArgs {
    pub xnack_enabled: i32,
}

// ===========================================================================
// PC sampling and profiler
// ===========================================================================

#[derive(Debug, Clone, Copy, PartialEq, Eq, Structural)]
pub struct PcSampleInfo {
    pub interval: u64,
    pub interval_min: u64,
    pub interval_max: u64,
    pub flags: u64,
    pub method: u32,
    pub type_: u32,
}

#[derive(Debug, Clone, Copy, PartialEq, Eq, Structural)]
pub struct PcSampleArgs {
    pub sample_info_ptr: u64,
    pub num_sample_info: u32,
    pub op: u32,
    pub gpu_id: u32,
    pub trace_id: u32,
    pub flags: u32,
    pub reserved: u32,
}

#[derive(Debug, Clone, Copy, PartialEq, Eq, Structural)]
pub struct PmcSettings {
    pub gpu_id: u32,
    pub lock: u32,
    pub perfcount_enable: u32,
}

/// The profiler payload union, modeled as a tagged variant.
#[derive(Debug, Clone, Copy)]
pub enum ProfilerPayload {
    PcSample(PcSampleArgs),
    Pmc(PmcSettings),
    Version(u32),
}

/// A profiler request: one tagged operation payload.
#[derive(Debug, Clone, Copy)]
pub struct ProfilerArgs {
    pub payload: ProfilerPayload,
}

// ===========================================================================
// Storage requests
// ===========================================================================

#[derive(Debug, Clone, Copy, PartialEq, Eq, Structural)]
pub struct AisInArgs {
    pub handle: u64,
    pub handle_offset: u64,
    pub file_offset: i64,
    pub size: u64,
    pub op: u32,
    pub fd: i32,
}

#[derive(Debug, Clone, Copy, PartialEq, Eq, Structural)]
pub struct AisOutArgs {
    pub size_copied: u64,
    pub status: i32,
    pub pad: i32,
}

/// The storage request/response union, modeled as a tagged variant.
#[derive(Debug, Clone, Copy)]
pub enum AisPayload {
    In(AisInArgs),
    Out(AisOutArgs),
}

/// A storage operation: one tagged payload.
#[derive(Debug, Clone, Copy)]
pub struct AisArgs {
    pub payload: AisPayload,
}

} // verus!
