//! Memory-allocation capability flags and their translation to the
//! kernel ioctl bitmask.

use vstd::prelude::*;

verus! {

pub const KFD_IOC_ALLOC_MEM_FLAGS_VRAM: u32 = 1 << 0;
pub const KFD_IOC_ALLOC_MEM_FLAGS_GTT: u32 = 1 << 1;
pub const KFD_IOC_ALLOC_MEM_FLAGS_USERPTR: u32 = 1 << 2;
pub const KFD_IOC_ALLOC_MEM_FLAGS_DOORBELL: u32 = 1 << 3;
pub const KFD_IOC_ALLOC_MEM_FLAGS_MMIO_REMAP: u32 = 1 << 4;
pub const KFD_IOC_ALLOC_MEM_FLAGS_WRITABLE: u32 = 1 << 31;
pub const KFD_IOC_ALLOC_MEM_FLAGS_EXECUTABLE: u32 = 1 << 30;
pub const KFD_IOC_ALLOC_MEM_FLAGS_PUBLIC: u32 = 1 << 29;
pub const KFD_IOC_ALLOC_MEM_FLAGS_NO_SUBSTITUTE: u32 = 1 << 28;
pub const KFD_IOC_ALLOC_MEM_FLAGS_AQL_QUEUE_MEM: u32 = 1 << 27;
pub const KFD_IOC_ALLOC_MEM_FLAGS_COHERENT: u32 = 1 << 26;
pub const KFD_IOC_ALLOC_MEM_FLAGS_UNCACHED: u32 = 1 << 25;
pub const KFD_IOC_ALLOC_MEM_FLAGS_EXT_COHERENT: u32 = 1 << 24;
pub const KFD_IOC_ALLOC_MEM_FLAGS_CONTIGUOUS_BEST_EFFORT: u32 = 1 << 23;

/// Flags controlling memory allocation behavior.
#[derive(Debug, Clone, Copy, PartialEq, Eq, Structural)]
pub struct AllocFlags {
    pub vram: bool,
    pub gtt: bool,
    pub doorbell: bool,
    pub host_access: bool,
    pub read_only: bool,
    pub execute_access: bool,
    pub coherent: bool,
    pub uncached: bool,
    pub aql_queue_mem: bool,
    pub no_substitute: bool,
    pub contiguous: bool,
    pub extended_coherent: bool,
    pub scratch: bool,
    pub lds: bool,
}

/// The kernel allocation bitmask that a capability flag set translates to.
///
/// Each capability contributes its kernel bit; `NO_SUBSTITUTE` only rides
/// along with `VRAM`, and `WRITABLE` is set unless the mapping is
/// explicitly read-only.
pub open spec fn spec_kfd_ioctl_flags(f: AllocFlags) -> u32 {
    (if f.vram {
        KFD_IOC_ALLOC_MEM_FLAGS_VRAM | (if f.no_substitute {
            KFD_IOC_ALLOC_MEM_FLAGS_NO_SUBSTITUTE
        } else {
            0
        })
    } else {
        0
    }) | (if f.gtt {
        KFD_IOC_ALLOC_MEM_FLAGS_GTT
    } else {
        0
    }) | (if f.doorbell {
        KFD_IOC_ALLOC_MEM_FLAGS_DOORBELL
    } else {
        0
    }) | (if f.host_access {
        KFD_IOC_ALLOC_MEM_FLAGS_PUBLIC
    } else {
        0
    }) | (if !f.read_only {
        KFD_IOC_ALLOC_MEM_FLAGS_WRITABLE
    } else {
        0
    }) | (if f.execute_access {
        KFD_IOC_ALLOC_MEM_FLAGS_EXECUTABLE
    } else {
        0
    }) | (if f.coherent {
        KFD_IOC_ALLOC_MEM_FLAGS_COHERENT
    } else {
        0
    }) | (if f.uncached {
        KFD_IOC_ALLOC_MEM_FLAGS_UNCACHED
    } else {
        0
    }) | (if f.extended_coherent {
        KFD_IOC_ALLOC_MEM_FLAGS_EXT_COHERENT
    } else {
        0
    }) | (if f.aql_queue_mem {
        KFD_IOC_ALLOC_MEM_FLAGS_AQL_QUEUE_MEM
    } else {
        0
    }) | (if f.contiguous {
        KFD_IOC_ALLOC_MEM_FLAGS_CONTIGUOUS_BEST_EFFORT
    } else {
        0
    })
}

impl AllocFlags {
    /// All capabilities off.
    #[must_use]
    pub fn new() -> (r: Self)
        ensures
            r == (AllocFlags {
                vram: false,
                gtt: false,
                doorbell: false,
                host_access: false,
                read_only: false,
                execute_access: false,
                coherent: false,
                uncached: false,
                aql_queue_mem: false,
                no_substitute: false,
                contiguous: false,
                extended_coherent: false,
                scratch: false,
                lds: false,
            }),
    {
        AllocFlags {
            vram: false,
            gtt: false,
            doorbell: false,
            host_access: false,
            read_only: false,
            execute_access: false,
            coherent: false,
            uncached: false,
            aql_queue_mem: false,
            no_substitute: false,
            contiguous: false,
            extended_coherent: false,
            scratch: false,
            lds: false,
        }
    }

    #[must_use]
    pub fn vram(self) -> (r: Self)
        ensures
            r == (AllocFlags { vram: true, ..self }),
    {
        AllocFlags { vram: true, ..self }
    }

    /// GTT memory is host-accessible and coherent by construction.
    #[must_use]
    pub fn gtt(self) -> (r: Self)
        ensures
            r == (AllocFlags { gtt: true, host_access: true, coherent: true, ..self }),
    {
        AllocFlags { gtt: true, host_access: true, coherent: true, ..self }
    }

    #[must_use]
    pub fn doorbell(self) -> (r: Self)
        ensures
            r == (AllocFlags { doorbell: true, ..self }),
    {
        AllocFlags { doorbell: true, ..self }
    }

    #[must_use]
    pub fn host_access(self) -> (r: Self)
        ensures
            r == (AllocFlags { host_access: true, ..self }),
    {
        AllocFlags { host_access: true, ..self }
    }

    #[must_use]
    pub fn read_only(self) -> (r: Self)
        ensures
            r == (AllocFlags { read_only: true, ..self }),
    {
        AllocFlags { read_only: true, ..self }
    }

    #[must_use]
    pub fn executable(self) -> (r: Self)
        ensures
            r == (AllocFlags { execute_access: true, ..self }),
    {
        AllocFlags { execute_access: true, ..self }
    }

    #[must_use]
    pub fn coherent(self) -> (r: Self)
        ensures
            r == (AllocFlags { coherent: true, ..self }),
    {
        AllocFlags { coherent: true, ..self }
    }

    #[must_use]
    pub fn uncached(self) -> (r: Self)
        ensures
            r == (AllocFlags { uncached: true, ..self }),
    {
        AllocFlags { uncached: true, ..self }
    }

    #[must_use]
    pub fn aql_queue_mem(self) -> (r: Self)
        ensures
            r == (AllocFlags { aql_queue_mem: true, ..self }),
    {
        AllocFlags { aql_queue_mem: true, ..self }
    }

    #[must_use]
    pub fn no_substitute(self) -> (r: Self)
        ensures
            r == (AllocFlags { no_substitute: true, ..self }),
    {
        AllocFlags { no_substitute: true, ..self }
    }

    #[must_use]
    pub fn contiguous(self) -> (r: Self)
        ensures
            r == (AllocFlags { contiguous: true, ..self }),
    {
        AllocFlags { contiguous: true, ..self }
    }

    /// Converts the capability flags into the raw kernel ioctl bitmask.
    #[must_use]
    pub fn to_kfd_ioctl_flags(self) -> (r: u32)
        ensures
            r == spec_kfd_ioctl_flags(self),
    {
        (if self.vram {
            KFD_IOC_ALLOC_MEM_FLAGS_VRAM | (if self.no_substitute {
                KFD_IOC_ALLOC_MEM_FLAGS_NO_SUBSTITUTE
            } else {
                0
            })
        } else {
            0
        }) | (if self.gtt {
            KFD_IOC_ALLOC_MEM_FLAGS_GTT
        } else {
            0
        }) | (if self.doorbell {
            KFD_IOC_ALLOC_MEM_FLAGS_DOORBELL
        } else {
            0
        }) | (if self.host_access {
            KFD_IOC_ALLOC_MEM_FLAGS_PUBLIC
        } else {
            0
        }) | (if !self.read_only {
            KFD_IOC_ALLOC_MEM_FLAGS_WRITABLE
        } else {
            0
        }) | (if self.execute_access {
            KFD_IOC_ALLOC_MEM_FLAGS_EXECUTABLE
        } else {
            0
        }) | (if self.coherent {
            KFD_IOC_ALLOC_MEM_FLAGS_COHERENT
        } else {
            0
        }) | (if self.uncached {
            KFD_IOC_ALLOC_MEM_FLAGS_UNCACHED
        } else {
            0
        }) | (if self.extended_coherent {
            KFD_IOC_ALLOC_MEM_FLAGS_EXT_COHERENT
        } else {
            0
        }) | (if self.aql_queue_mem {
            KFD_IOC_ALLOC_MEM_FLAGS_AQL_QUEUE_MEM
        } else {
            0
        }) | (if self.contiguous {
            KFD_IOC_ALLOC_MEM_FLAGS_CONTIGUOUS_BEST_EFFORT
        } else {
            0
        })
    }
}

} // verus!
