//! Engine-version enrichment: decimal version decoding, the device
//! table lookup, the derived per-CU sizes, and the ISA name.

use vstd::prelude::*;
use crate::sysfs::{HsaNodeProperties, EngineId, SGPR_SIZE_PER_CU, get_vgpr_size_per_cu, copy_bytes};
use vstd::string::StringSliceAdditionalSpecFns;

verus! {

/// One device-table row: a PCI device id and its engine version triple
/// and architecture codename.
#[derive(Debug, Clone, Copy)]
pub struct GfxIpLookup {
    pub device_id: u16,
    pub major: u8,
    pub minor: u8,
    pub stepping: u8,
    pub name: &'static str,
}

/// One block of the device table.
pub open spec fn spec_gfx_rows_a() -> Seq<GfxIpLookup> {
    seq![
        GfxIpLookup { device_id: 0x1304, major: 7, minor: 0, stepping: 0, name: "Spectre" },
        GfxIpLookup { device_id: 0x1305, major: 7, minor: 0, stepping: 0, name: "Spectre" },
        GfxIpLookup { device_id: 0x1306, major: 7, minor: 0, stepping: 0, name: "Spectre" },
        GfxIpLookup { device_id: 0x1307, major: 7, minor: 0, stepping: 0, name: "Spectre" },
        GfxIpLookup { device_id: 0x1309, major: 7, minor: 0, stepping: 0, name: "Spectre" },
        GfxIpLookup { device_id: 0x130A, major: 7, minor: 0, stepping: 0, name: "Spectre" },
        GfxIpLookup { device_id: 0x130B, major: 7, minor: 0, stepping: 0, name: "Spectre" },
        GfxIpLookup { device_id: 0x130C, major: 7, minor: 0, stepping: 0, name: "Spectre" },
        GfxIpLookup { device_id: 0x130D, major: 7, minor: 0, stepping: 0, name: "Spectre" },
        GfxIpLookup { device_id: 0x130E, major: 7, minor: 0, stepping: 0, name: "Spectre" },
        GfxIpLookup { device_id: 0x130F, major: 7, minor: 0, stepping: 0, name: "Spectre" },
        GfxIpLookup { device_id: 0x1310, major: 7, minor: 0, stepping: 0, name: "Spectre" },
        GfxIpLookup { device_id: 0x1311, major: 7, minor: 0, stepping: 0, name: "Spectre" },
        GfxIpLookup { device_id: 0x1312, major: 7, minor: 0, stepping: 0, name: "Spooky" },
        GfxIpLookup { device_id: 0x1313, major: 7, minor: 0, stepping: 0, name: "Spectre" },
        GfxIpLookup { device_id: 0x1315, major: 7, minor: 0, stepping: 0, name: "Spectre" },
        GfxIpLookup { device_id: 0x1316, major: 7, minor: 0, stepping: 0, name: "Spooky" },
        GfxIpLookup { device_id: 0x1317, major: 7, minor: 0, stepping: 0, name: "Spooky" },
        GfxIpLookup { device_id: 0x1318, major: 7, minor: 0, stepping: 0, name: "Spectre" },
        GfxIpLookup { device_id: 0x131B, major: 7, minor: 0, stepping: 0, name: "Spectre" },
        GfxIpLookup { device_id: 0x131C, major: 7, minor: 0, stepping: 0, name: "Spectre" },
        GfxIpLookup { device_id: 0x131D, major: 7, minor: 0, stepping: 0, name: "Spectre" },
        GfxIpLookup { device_id: 0x67A0, major: 7, minor: 0, stepping: 1, name: "Hawaii" },
        GfxIpLookup { device_id: 0x67A1, major: 7, minor: 0, stepping: 1, name: "Hawaii" },
        GfxIpLookup { device_id: 0x67A2, major: 7, minor: 0, stepping: 1, name: "Hawaii" },
        GfxIpLookup { device_id: 0x67A8, major: 7, minor: 0, stepping: 1, name: "Hawaii" },
        GfxIpLookup { device_id: 0x67A9, major: 7, minor: 0, stepping: 1, name: "Hawaii" },
        GfxIpLookup { device_id: 0x67AA, major: 7, minor: 0, stepping: 1, name: "Hawaii" },
        GfxIpLookup { device_id: 0x67B0, major: 7, minor: 0, stepping: 1, name: "Hawaii" },
        GfxIpLookup { device_id: 0x67B1, major: 7, minor: 0, stepping: 1, name: "Hawaii" },
    ]
}

/// One block of the device table.
pub open spec fn spec_gfx_rows_b() -> Seq<GfxIpLookup> {
    seq![
        GfxIpLookup { device_id: 0x67B8, major: 7, minor: 0, stepping: 1, name: "Hawaii" },
        GfxIpLookup { device_id: 0x67B9, major: 7, minor: 0, stepping: 1, name: "Hawaii" },
        GfxIpLookup { device_id: 0x67BA, major: 7, minor: 0, stepping: 1, name: "Hawaii" },
        GfxIpLookup { device_id: 0x67BE, major: 7, minor: 0, stepping: 1, name: "Hawaii" },
        GfxIpLookup { device_id: 0x9870, major: 8, minor: 0, stepping: 1, name: "Carrizo" },
        GfxIpLookup { device_id: 0x9874, major: 8, minor: 0, stepping: 1, name: "Carrizo" },
        GfxIpLookup { device_id: 0x9875, major: 8, minor: 0, stepping: 1, name: "Carrizo" },
        GfxIpLookup { device_id: 0x9876, major: 8, minor: 0, stepping: 1, name: "Carrizo" },
        GfxIpLookup { device_id: 0x9877, major: 8, minor: 0, stepping: 1, name: "Carrizo" },
        GfxIpLookup { device_id: 0x6920, major: 8, minor: 0, stepping: 2, name: "Tonga" },
        GfxIpLookup { device_id: 0x6921, major: 8, minor: 0, stepping: 2, name: "Tonga" },
        GfxIpLookup { device_id: 0x6928, major: 8, minor: 0, stepping: 2, name: "Tonga" },
        GfxIpLookup { device_id: 0x6929, major: 8, minor: 0, stepping: 2, name: "Tonga" },
        GfxIpLookup { device_id: 0x692B, major: 8, minor: 0, stepping: 2, name: "Tonga" },
        GfxIpLookup { device_id: 0x692F, major: 8, minor: 0, stepping: 2, name: "Tonga" },
        GfxIpLookup { device_id: 0x6930, major: 8, minor: 0, stepping: 2, name: "Tonga" },
        GfxIpLookup { device_id: 0x6938, major: 8, minor: 0, stepping: 2, name: "Tonga" },
        GfxIpLookup { device_id: 0x6939, major: 8, minor: 0, stepping: 2, name: "Tonga" },
        GfxIpLookup { device_id: 0x7300, major: 8, minor: 0, stepping: 3, name: "Fiji" },
        GfxIpLookup { device_id: 0x730F, major: 8, minor: 0, stepping: 3, name: "Fiji" },
        GfxIpLookup { device_id: 0x67C0, major: 8, minor: 0, stepping: 3, name: "Polaris10" },
        GfxIpLookup { device_id: 0x67C1, major: 8, minor: 0, stepping: 3, name: "Polaris10" },
        GfxIpLookup { device_id: 0x67C2, major: 8, minor: 0, stepping: 3, name: "Polaris10" },
        GfxIpLookup { device_id: 0x67C4, major: 8, minor: 0, stepping: 3, name: "Polaris10" },
        GfxIpLookup { device_id: 0x67C7, major: 8, minor: 0, stepping: 3, name: "Polaris10" },
        GfxIpLookup { device_id: 0x67C8, major: 8, minor: 0, stepping: 3, name: "Polaris10" },
        GfxIpLookup { device_id: 0x67C9, major: 8, minor: 0, stepping: 3, name: "Polaris10" },
        GfxIpLookup { device_id: 0x67CA, major: 8, minor: 0, stepping: 3, name: "Polaris10" },
        GfxIpLookup { device_id: 0x67CC, major: 8, minor: 0, stepping: 3, name: "Polaris10" },
        GfxIpLookup { device_id: 0x67CF, major: 8, minor: 0, stepping: 3, name: "Polaris10" },
    ]
}

/// One block of the device table.
pub open spec fn spec_gfx_rows_c() -> Seq<GfxIpLookup> {
    seq![
        GfxIpLookup { device_id: 0x67D0, major: 8, minor: 0, stepping: 3, name: "Polaris10" },
        GfxIpLookup { device_id: 0x67DF, major: 8, minor: 0, stepping: 3, name: "Polaris10" },
        GfxIpLookup { device_id: 0x6FDF, major: 8, minor: 0, stepping: 3, name: "Polaris10" },
        GfxIpLookup { device_id: 0x67E0, major: 8, minor: 0, stepping: 3, name: "Polaris11" },
        GfxIpLookup { device_id: 0x67E1, major: 8, minor: 0, stepping: 3, name: "Polaris11" },
        GfxIpLookup { device_id: 0x67E3, major: 8, minor: 0, stepping: 3, name: "Polaris11" },
        GfxIpLookup { device_id: 0x67E7, major: 8, minor: 0, stepping: 3, name: "Polaris11" },
        GfxIpLookup { device_id: 0x67E8, major: 8, minor: 0, stepping: 3, name: "Polaris11" },
        GfxIpLookup { device_id: 0x67E9, major: 8, minor: 0, stepping: 3, name: "Polaris11" },
        GfxIpLookup { device_id: 0x67EB, major: 8, minor: 0, stepping: 3, name: "Polaris11" },
        GfxIpLookup { device_id: 0x67EF, major: 8, minor: 0, stepping: 3, name: "Polaris11" },
        GfxIpLookup { device_id: 0x67FF, major: 8, minor: 0, stepping: 3, name: "Polaris11" },
        GfxIpLookup { device_id: 0x6980, major: 8, minor: 0, stepping: 3, name: "Polaris12" },
        GfxIpLookup { device_id: 0x6981, major: 8, minor: 0, stepping: 3, name: "Polaris12" },
        GfxIpLookup { device_id: 0x6985, major: 8, minor: 0, stepping: 3, name: "Polaris12" },
        GfxIpLookup { device_id: 0x6986, major: 8, minor: 0, stepping: 3, name: "Polaris12" },
        GfxIpLookup { device_id: 0x6987, major: 8, minor: 0, stepping: 3, name: "Polaris12" },
        GfxIpLookup { device_id: 0x6995, major: 8, minor: 0, stepping: 3, name: "Polaris12" },
        GfxIpLookup { device_id: 0x6997, major: 8, minor: 0, stepping: 3, name: "Polaris12" },
        GfxIpLookup { device_id: 0x699F, major: 8, minor: 0, stepping: 3, name: "Polaris12" },
        GfxIpLookup { device_id: 0x694C, major: 8, minor: 0, stepping: 3, name: "VegaM" },
        GfxIpLookup { device_id: 0x694E, major: 8, minor: 0, stepping: 3, name: "VegaM" },
        GfxIpLookup { device_id: 0x694F, major: 8, minor: 0, stepping: 3, name: "VegaM" },
        GfxIpLookup { device_id: 0x6860, major: 9, minor: 0, stepping: 0, name: "Vega10" },
        GfxIpLookup { device_id: 0x6861, major: 9, minor: 0, stepping: 0, name: "Vega10" },
        GfxIpLookup { device_id: 0x6862, major: 9, minor: 0, stepping: 0, name: "Vega10" },
        GfxIpLookup { device_id: 0x6863, major: 9, minor: 0, stepping: 0, name: "Vega10" },
        GfxIpLookup { device_id: 0x6864, major: 9, minor: 0, stepping: 0, name: "Vega10" },
        GfxIpLookup { device_id: 0x6867, major: 9, minor: 0, stepping: 0, name: "Vega10" },
        GfxIpLookup { device_id: 0x6868, major: 9, minor: 0, stepping: 0, name: "Vega10" },
    ]
}

/// One block of the device table.
pub open spec fn spec_gfx_rows_d() -> Seq<GfxIpLookup> {
    seq![
        GfxIpLookup { device_id: 0x6869, major: 9, minor: 0, stepping: 0, name: "Vega10" },
        GfxIpLookup { device_id: 0x686A, major: 9, minor: 0, stepping: 0, name: "Vega10" },
        GfxIpLookup { device_id: 0x686B, major: 9, minor: 0, stepping: 0, name: "Vega10" },
        GfxIpLookup { device_id: 0x686C, major: 9, minor: 0, stepping: 0, name: "Vega10" },
        GfxIpLookup { device_id: 0x686D, major: 9, minor: 0, stepping: 0, name: "Vega10" },
        GfxIpLookup { device_id: 0x686E, major: 9, minor: 0, stepping: 0, name: "Vega10" },
        GfxIpLookup { device_id: 0x687F, major: 9, minor: 0, stepping: 0, name: "Vega10" },
        GfxIpLookup { device_id: 0x69A0, major: 9, minor: 0, stepping: 4, name: "Vega12" },
        GfxIpLookup { device_id: 0x69A1, major: 9, minor: 0, stepping: 4, name: "Vega12" },
        GfxIpLookup { device_id: 0x69A2, major: 9, minor: 0, stepping: 4, name: "Vega12" },
        GfxIpLookup { device_id: 0x69A3, major: 9, minor: 0, stepping: 4, name: "Vega12" },
        GfxIpLookup { device_id: 0x69AF, major: 9, minor: 0, stepping: 4, name: "Vega12" },
        GfxIpLookup { device_id: 0x15DD, major: 9, minor: 0, stepping: 2, name: "Raven" },
        GfxIpLookup { device_id: 0x15D8, major: 9, minor: 0, stepping: 2, name: "Raven" },
        GfxIpLookup { device_id: 0x66A0, major: 9, minor: 0, stepping: 6, name: "Vega20" },
        GfxIpLookup { device_id: 0x66A1, major: 9, minor: 0, stepping: 6, name: "Vega20" },
        GfxIpLookup { device_id: 0x66A2, major: 9, minor: 0, stepping: 6, name: "Vega20" },
        GfxIpLookup { device_id: 0x66A3, major: 9, minor: 0, stepping: 6, name: "Vega20" },
        GfxIpLookup { device_id: 0x66A4, major: 9, minor: 0, stepping: 6, name: "Vega20" },
        GfxIpLookup { device_id: 0x66A7, major: 9, minor: 0, stepping: 6, name: "Vega20" },
        GfxIpLookup { device_id: 0x66AF, major: 9, minor: 0, stepping: 6, name: "Vega20" },
        GfxIpLookup { device_id: 0x7388, major: 9, minor: 0, stepping: 8, name: "Arcturus" },
        GfxIpLookup { device_id: 0x738C, major: 9, minor: 0, stepping: 8, name: "Arcturus" },
        GfxIpLookup { device_id: 0x738E, major: 9, minor: 0, stepping: 8, name: "Arcturus" },
        GfxIpLookup { device_id: 0x7390, major: 9, minor: 0, stepping: 8, name: "Arcturus" },
        GfxIpLookup { device_id: 0x7408, major: 9, minor: 0, stepping: 10, name: "Aldebaran" },
        GfxIpLookup { device_id: 0x740C, major: 9, minor: 0, stepping: 10, name: "Aldebaran" },
        GfxIpLookup { device_id: 0x740F, major: 9, minor: 0, stepping: 10, name: "Aldebaran" },
        GfxIpLookup { device_id: 0x7410, major: 9, minor: 0, stepping: 10, name: "Aldebaran" },
        GfxIpLookup { device_id: 0x15E7, major: 9, minor: 0, stepping: 12, name: "Renoir" },
    ]
}

/// One block of the device table.
pub open spec fn spec_gfx_rows_e() -> Seq<GfxIpLookup> {
    seq![
        GfxIpLookup { device_id: 0x1636, major: 9, minor: 0, stepping: 12, name: "Renoir" },
        GfxIpLookup { device_id: 0x1638, major: 9, minor: 0, stepping: 12, name: "Renoir" },
        GfxIpLookup { device_id: 0x164C, major: 9, minor: 0, stepping: 12, name: "Renoir" },
        GfxIpLookup { device_id: 0x7310, major: 10, minor: 1, stepping: 0, name: "Navi10" },
        GfxIpLookup { device_id: 0x7312, major: 10, minor: 1, stepping: 0, name: "Navi10" },
        GfxIpLookup { device_id: 0x7318, major: 10, minor: 1, stepping: 0, name: "Navi10" },
        GfxIpLookup { device_id: 0x731A, major: 10, minor: 1, stepping: 0, name: "Navi10" },
        GfxIpLookup { device_id: 0x731E, major: 10, minor: 1, stepping: 0, name: "Navi10" },
        GfxIpLookup { device_id: 0x731F, major: 10, minor: 1, stepping: 0, name: "Navi10" },
        GfxIpLookup { device_id: 0x13F9, major: 10, minor: 1, stepping: 3, name: "cyan_skillfish" },
        GfxIpLookup { device_id: 0x13FA, major: 10, minor: 1, stepping: 3, name: "cyan_skillfish" },
        GfxIpLookup { device_id: 0x13FB, major: 10, minor: 1, stepping: 3, name: "cyan_skillfish" },
        GfxIpLookup { device_id: 0x13FC, major: 10, minor: 1, stepping: 3, name: "cyan_skillfish" },
        GfxIpLookup { device_id: 0x13FE, major: 10, minor: 1, stepping: 3, name: "cyan_skillfish" },
        GfxIpLookup { device_id: 0x143F, major: 10, minor: 1, stepping: 3, name: "cyan_skillfish" },
        GfxIpLookup { device_id: 0x7340, major: 10, minor: 1, stepping: 2, name: "Navi14" },
        GfxIpLookup { device_id: 0x7341, major: 10, minor: 1, stepping: 2, name: "Navi14" },
        GfxIpLookup { device_id: 0x7347, major: 10, minor: 1, stepping: 2, name: "Navi14" },
        GfxIpLookup { device_id: 0x7360, major: 10, minor: 1, stepping: 1, name: "Navi12" },
        GfxIpLookup { device_id: 0x7362, major: 10, minor: 1, stepping: 1, name: "Navi12" },
        GfxIpLookup { device_id: 0x73A0, major: 10, minor: 3, stepping: 0, name: "SIENNA_CICHLID" },
        GfxIpLookup { device_id: 0x73A1, major: 10, minor: 3, stepping: 0, name: "SIENNA_CICHLID" },
        GfxIpLookup { device_id: 0x73A2, major: 10, minor: 3, stepping: 0, name: "SIENNA_CICHLID" },
        GfxIpLookup { device_id: 0x73A3, major: 10, minor: 3, stepping: 0, name: "SIENNA_CICHLID" },
        GfxIpLookup { device_id: 0x73A5, major: 10, minor: 3, stepping: 0, name: "SIENNA_CICHLID" },
        GfxIpLookup { device_id: 0x73A8, major: 10, minor: 3, stepping: 0, name: "SIENNA_CICHLID" },
        GfxIpLookup { device_id: 0x73A9, major: 10, minor: 3, stepping: 0, name: "SIENNA_CICHLID" },
        GfxIpLookup { device_id: 0x73AC, major: 10, minor: 3, stepping: 0, name: "SIENNA_CICHLID" },
        GfxIpLookup { device_id: 0x73AD, major: 10, minor: 3, stepping: 0, name: "SIENNA_CICHLID" },
        GfxIpLookup { device_id: 0x73AB, major: 10, minor: 3, stepping: 0, name: "SIENNA_CICHLID" },
    ]
}

/// One block of the device table.
pub open spec fn spec_gfx_rows_f() -> Seq<GfxIpLookup> {
    seq![
        GfxIpLookup { device_id: 0x73AE, major: 10, minor: 3, stepping: 0, name: "SIENNA_CICHLID" },
        GfxIpLookup { device_id: 0x73BF, major: 10, minor: 3, stepping: 0, name: "SIENNA_CICHLID" },
        GfxIpLookup { device_id: 0x73C0, major: 10, minor: 3, stepping: 1, name: "NAVY_FLOUNDER" },
        GfxIpLookup { device_id: 0x73C1, major: 10, minor: 3, stepping: 1, name: "NAVY_FLOUNDER" },
        GfxIpLookup { device_id: 0x73C3, major: 10, minor: 3, stepping: 1, name: "NAVY_FLOUNDER" },
        GfxIpLookup { device_id: 0x73DA, major: 10, minor: 3, stepping: 1, name: "NAVY_FLOUNDER" },
        GfxIpLookup { device_id: 0x73DB, major: 10, minor: 3, stepping: 1, name: "NAVY_FLOUNDER" },
        GfxIpLookup { device_id: 0x73DC, major: 10, minor: 3, stepping: 1, name: "NAVY_FLOUNDER" },
        GfxIpLookup { device_id: 0x73DD, major: 10, minor: 3, stepping: 1, name: "NAVY_FLOUNDER" },
        GfxIpLookup { device_id: 0x73DE, major: 10, minor: 3, stepping: 1, name: "NAVY_FLOUNDER" },
        GfxIpLookup { device_id: 0x73DF, major: 10, minor: 3, stepping: 1, name: "NAVY_FLOUNDER" },
        GfxIpLookup { device_id: 0x73E0, major: 10, minor: 3, stepping: 2, name: "DIMGREY_CAVEFISH" },
        GfxIpLookup { device_id: 0x73E1, major: 10, minor: 3, stepping: 2, name: "DIMGREY_CAVEFISH" },
        GfxIpLookup { device_id: 0x73E2, major: 10, minor: 3, stepping: 2, name: "DIMGREY_CAVEFISH" },
        GfxIpLookup { device_id: 0x73E8, major: 10, minor: 3, stepping: 2, name: "DIMGREY_CAVEFISH" },
        GfxIpLookup { device_id: 0x73E9, major: 10, minor: 3, stepping: 2, name: "DIMGREY_CAVEFISH" },
        GfxIpLookup { device_id: 0x73EA, major: 10, minor: 3, stepping: 2, name: "DIMGREY_CAVEFISH" },
        GfxIpLookup { device_id: 0x73EB, major: 10, minor: 3, stepping: 2, name: "DIMGREY_CAVEFISH" },
        GfxIpLookup { device_id: 0x73EC, major: 10, minor: 3, stepping: 2, name: "DIMGREY_CAVEFISH" },
        GfxIpLookup { device_id: 0x73ED, major: 10, minor: 3, stepping: 2, name: "DIMGREY_CAVEFISH" },
        GfxIpLookup { device_id: 0x73EF, major: 10, minor: 3, stepping: 2, name: "DIMGREY_CAVEFISH" },
        GfxIpLookup { device_id: 0x73FF, major: 10, minor: 3, stepping: 2, name: "DIMGREY_CAVEFISH" },
        GfxIpLookup { device_id: 0x163F, major: 10, minor: 3, stepping: 3, name: "VanGogh" },
        GfxIpLookup { device_id: 0x7420, major: 10, minor: 3, stepping: 4, name: "BEIGE_GOBY" },
        GfxIpLookup { device_id: 0x7421, major: 10, minor: 3, stepping: 4, name: "BEIGE_GOBY" },
        GfxIpLookup { device_id: 0x7422, major: 10, minor: 3, stepping: 4, name: "BEIGE_GOBY" },
        GfxIpLookup { device_id: 0x7423, major: 10, minor: 3, stepping: 4, name: "BEIGE_GOBY" },
        GfxIpLookup { device_id: 0x743F, major: 10, minor: 3, stepping: 4, name: "BEIGE_GOBY" },
        GfxIpLookup { device_id: 0x164D, major: 10, minor: 3, stepping: 5, name: "YELLOW_CARP" },
        GfxIpLookup { device_id: 0x1681, major: 10, minor: 3, stepping: 5, name: "YELLOW_CARP" },
    ]
}

/// The device table as the contracts see it: every block in order.
pub open spec fn spec_gfx_ip_table() -> Seq<GfxIpLookup> {
    spec_gfx_rows_a() + spec_gfx_rows_b() + spec_gfx_rows_c() + spec_gfx_rows_d()
        + spec_gfx_rows_e() + spec_gfx_rows_f()
}

/// The first table row at or after `i` carrying `device_id`.
pub open spec fn spec_table_row(t: Seq<GfxIpLookup>, device_id: u16, i: int) -> Option<GfxIpLookup>
    decreases t.len() - i,
{
    if i < 0 || i >= t.len() {
        None
    } else if t[i].device_id == device_id {
        Some(t[i])
    } else {
        spec_table_row(t, device_id, i + 1)
    }
}

fn gfx_rows_a() -> (r: Vec<GfxIpLookup>)
    ensures
        r@ == spec_gfx_rows_a(),
{
    let mut t: Vec<GfxIpLookup> = Vec::new();
    t.push(GfxIpLookup { device_id: 0x1304, major: 7, minor: 0, stepping: 0, name: "Spectre" });
    t.push(GfxIpLookup { device_id: 0x1305, major: 7, minor: 0, stepping: 0, name: "Spectre" });
    t.push(GfxIpLookup { device_id: 0x1306, major: 7, minor: 0, stepping: 0, name: "Spectre" });
    t.push(GfxIpLookup { device_id: 0x1307, major: 7, minor: 0, stepping: 0, name: "Spectre" });
    t.push(GfxIpLookup { device_id: 0x1309, major: 7, minor: 0, stepping: 0, name: "Spectre" });
    t.push(GfxIpLookup { device_id: 0x130A, major: 7, minor: 0, stepping: 0, name: "Spectre" });
    t.push(GfxIpLookup { device_id: 0x130B, major: 7, minor: 0, stepping: 0, name: "Spectre" });
    t.push(GfxIpLookup { device_id: 0x130C, major: 7, minor: 0, stepping: 0, name: "Spectre" });
    t.push(GfxIpLookup { device_id: 0x130D, major: 7, minor: 0, stepping: 0, name: "Spectre" });
    t.push(GfxIpLookup { device_id: 0x130E, major: 7, minor: 0, stepping: 0, name: "Spectre" });
    t.push(GfxIpLookup { device_id: 0x130F, major: 7, minor: 0, stepping: 0, name: "Spectre" });
    t.push(GfxIpLookup { device_id: 0x1310, major: 7, minor: 0, stepping: 0, name: "Spectre" });
    t.push(GfxIpLookup { device_id: 0x1311, major: 7, minor: 0, stepping: 0, name: "Spectre" });
    t.push(GfxIpLookup { device_id: 0x1312, major: 7, minor: 0, stepping: 0, name: "Spooky" });
    t.push(GfxIpLookup { device_id: 0x1313, major: 7, minor: 0, stepping: 0, name: "Spectre" });
    t.push(GfxIpLookup { device_id: 0x1315, major: 7, minor: 0, stepping: 0, name: "Spectre" });
    t.push(GfxIpLookup { device_id: 0x1316, major: 7, minor: 0, stepping: 0, name: "Spooky" });
    t.push(GfxIpLookup { device_id: 0x1317, major: 7, minor: 0, stepping: 0, name: "Spooky" });
    t.push(GfxIpLookup { device_id: 0x1318, major: 7, minor: 0, stepping: 0, name: "Spectre" });
    t.push(GfxIpLookup { device_id: 0x131B, major: 7, minor: 0, stepping: 0, name: "Spectre" });
    t.push(GfxIpLookup { device_id: 0x131C, major: 7, minor: 0, stepping: 0, name: "Spectre" });
    t.push(GfxIpLookup { device_id: 0x131D, major: 7, minor: 0, stepping: 0, name: "Spectre" });
    t.push(GfxIpLookup { device_id: 0x67A0, major: 7, minor: 0, stepping: 1, name: "Hawaii" });
    t.push(GfxIpLookup { device_id: 0x67A1, major: 7, minor: 0, stepping: 1, name: "Hawaii" });
    t.push(GfxIpLookup { device_id: 0x67A2, major: 7, minor: 0, stepping: 1, name: "Hawaii" });
    t.push(GfxIpLookup { device_id: 0x67A8, major: 7, minor: 0, stepping: 1, name: "Hawaii" });
    t.push(GfxIpLookup { device_id: 0x67A9, major: 7, minor: 0, stepping: 1, name: "Hawaii" });
    t.push(GfxIpLookup { device_id: 0x67AA, major: 7, minor: 0, stepping: 1, name: "Hawaii" });
    t.push(GfxIpLookup { device_id: 0x67B0, major: 7, minor: 0, stepping: 1, name: "Hawaii" });
    t.push(GfxIpLookup { device_id: 0x67B1, major: 7, minor: 0, stepping: 1, name: "Hawaii" });
    proof {
        assert(t@ =~= spec_gfx_rows_a());
    }
    t
}

fn gfx_rows_b() -> (r: Vec<GfxIpLookup>)
    ensures
        r@ == spec_gfx_rows_b(),
{
    let mut t: Vec<GfxIpLookup> = Vec::new();
    t.push(GfxIpLookup { device_id: 0x67B8, major: 7, minor: 0, stepping: 1, name: "Hawaii" });
    t.push(GfxIpLookup { device_id: 0x67B9, major: 7, minor: 0, stepping: 1, name: "Hawaii" });
    t.push(GfxIpLookup { device_id: 0x67BA, major: 7, minor: 0, stepping: 1, name: "Hawaii" });
    t.push(GfxIpLookup { device_id: 0x67BE, major: 7, minor: 0, stepping: 1, name: "Hawaii" });
    t.push(GfxIpLookup { device_id: 0x9870, major: 8, minor: 0, stepping: 1, name: "Carrizo" });
    t.push(GfxIpLookup { device_id: 0x9874, major: 8, minor: 0, stepping: 1, name: "Carrizo" });
    t.push(GfxIpLookup { device_id: 0x9875, major: 8, minor: 0, stepping: 1, name: "Carrizo" });
    t.push(GfxIpLookup { device_id: 0x9876, major: 8, minor: 0, stepping: 1, name: "Carrizo" });
    t.push(GfxIpLookup { device_id: 0x9877, major: 8, minor: 0, stepping: 1, name: "Carrizo" });
    t.push(GfxIpLookup { device_id: 0x6920, major: 8, minor: 0, stepping: 2, name: "Tonga" });
    t.push(GfxIpLookup { device_id: 0x6921, major: 8, minor: 0, stepping: 2, name: "Tonga" });
    t.push(GfxIpLookup { device_id: 0x6928, major: 8, minor: 0, stepping: 2, name: "Tonga" });
    t.push(GfxIpLookup { device_id: 0x6929, major: 8, minor: 0, stepping: 2, name: "Tonga" });
    t.push(GfxIpLookup { device_id: 0x692B, major: 8, minor: 0, stepping: 2, name: "Tonga" });
    t.push(GfxIpLookup { device_id: 0x692F, major: 8, minor: 0, stepping: 2, name: "Tonga" });
    t.push(GfxIpLookup { device_id: 0x6930, major: 8, minor: 0, stepping: 2, name: "Tonga" });
    t.push(GfxIpLookup { device_id: 0x6938, major: 8, minor: 0, stepping: 2, name: "Tonga" });
    t.push(GfxIpLookup { device_id: 0x6939, major: 8, minor: 0, stepping: 2, name: "Tonga" });
    t.push(GfxIpLookup { device_id: 0x7300, major: 8, minor: 0, stepping: 3, name: "Fiji" });
    t.push(GfxIpLookup { device_id: 0x730F, major: 8, minor: 0, stepping: 3, name: "Fiji" });
    t.push(GfxIpLookup { device_id: 0x67C0, major: 8, minor: 0, stepping: 3, name: "Polaris10" });
    t.push(GfxIpLookup { device_id: 0x67C1, major: 8, minor: 0, stepping: 3, name: "Polaris10" });
    t.push(GfxIpLookup { device_id: 0x67C2, major: 8, minor: 0, stepping: 3, name: "Polaris10" });
    t.push(GfxIpLookup { device_id: 0x67C4, major: 8, minor: 0, stepping: 3, name: "Polaris10" });
    t.push(GfxIpLookup { device_id: 0x67C7, major: 8, minor: 0, stepping: 3, name: "Polaris10" });
    t.push(GfxIpLookup { device_id: 0x67C8, major: 8, minor: 0, stepping: 3, name: "Polaris10" });
    t.push(GfxIpLookup { device_id: 0x67C9, major: 8, minor: 0, stepping: 3, name: "Polaris10" });
    t.push(GfxIpLookup { device_id: 0x67CA, major: 8, minor: 0, stepping: 3, name: "Polaris10" });
    t.push(GfxIpLookup { device_id: 0x67CC, major: 8, minor: 0, stepping: 3, name: "Polaris10" });
    t.push(GfxIpLookup { device_id: 0x67CF, major: 8, minor: 0, stepping: 3, name: "Polaris10" });
    proof {
        assert(t@ =~= spec_gfx_rows_b());
    }
    t
}

fn gfx_rows_c() -> (r: Vec<GfxIpLookup>)
    ensures
        r@ == spec_gfx_rows_c(),
{
    let mut t: Vec<GfxIpLookup> = Vec::new();
    t.push(GfxIpLookup { device_id: 0x67D0, major: 8, minor: 0, stepping: 3, name: "Polaris10" });
    t.push(GfxIpLookup { device_id: 0x67DF, major: 8, minor: 0, stepping: 3, name: "Polaris10" });
    t.push(GfxIpLookup { device_id: 0x6FDF, major: 8, minor: 0, stepping: 3, name: "Polaris10" });
    t.push(GfxIpLookup { device_id: 0x67E0, major: 8, minor: 0, stepping: 3, name: "Polaris11" });
    t.push(GfxIpLookup { device_id: 0x67E1, major: 8, minor: 0, stepping: 3, name: "Polaris11" });
    t.push(GfxIpLookup { device_id: 0x67E3, major: 8, minor: 0, stepping: 3, name: "Polaris11" });
    t.push(GfxIpLookup { device_id: 0x67E7, major: 8, minor: 0, stepping: 3, name: "Polaris11" });
    t.push(GfxIpLookup { device_id: 0x67E8, major: 8, minor: 0, stepping: 3, name: "Polaris11" });
    t.push(GfxIpLookup { device_id: 0x67E9, major: 8, minor: 0, stepping: 3, name: "Polaris11" });
    t.push(GfxIpLookup { device_id: 0x67EB, major: 8, minor: 0, stepping: 3, name: "Polaris11" });
    t.push(GfxIpLookup { device_id: 0x67EF, major: 8, minor: 0, stepping: 3, name: "Polaris11" });
    t.push(GfxIpLookup { device_id: 0x67FF, major: 8, minor: 0, stepping: 3, name: "Polaris11" });
    t.push(GfxIpLookup { device_id: 0x6980, major: 8, minor: 0, stepping: 3, name: "Polaris12" });
    t.push(GfxIpLookup { device_id: 0x6981, major: 8, minor: 0, stepping: 3, name: "Polaris12" });
    t.push(GfxIpLookup { device_id: 0x6985, major: 8, minor: 0, stepping: 3, name: "Polaris12" });
    t.push(GfxIpLookup { device_id: 0x6986, major: 8, minor: 0, stepping: 3, name: "Polaris12" });
    t.push(GfxIpLookup { device_id: 0x6987, major: 8, minor: 0, stepping: 3, name: "Polaris12" });
    t.push(GfxIpLookup { device_id: 0x6995, major: 8, minor: 0, stepping: 3, name: "Polaris12" });
    t.push(GfxIpLookup { device_id: 0x6997, major: 8, minor: 0, stepping: 3, name: "Polaris12" });
    t.push(GfxIpLookup { device_id: 0x699F, major: 8, minor: 0, stepping: 3, name: "Polaris12" });
    t.push(GfxIpLookup { device_id: 0x694C, major: 8, minor: 0, stepping: 3, name: "VegaM" });
    t.push(GfxIpLookup { device_id: 0x694E, major: 8, minor: 0, stepping: 3, name: "VegaM" });
    t.push(GfxIpLookup { device_id: 0x694F, major: 8, minor: 0, stepping: 3, name: "VegaM" });
    t.push(GfxIpLookup { device_id: 0x6860, major: 9, minor: 0, stepping: 0, name: "Vega10" });
    t.push(GfxIpLookup { device_id: 0x6861, major: 9, minor: 0, stepping: 0, name: "Vega10" });
    t.push(GfxIpLookup { device_id: 0x6862, major: 9, minor: 0, stepping: 0, name: "Vega10" });
    t.push(GfxIpLookup { device_id: 0x6863, major: 9, minor: 0, stepping: 0, name: "Vega10" });
    t.push(GfxIpLookup { device_id: 0x6864, major: 9, minor: 0, stepping: 0, name: "Vega10" });
    t.push(GfxIpLookup { device_id: 0x6867, major: 9, minor: 0, stepping: 0, name: "Vega10" });
    t.push(GfxIpLookup { device_id: 0x6868, major: 9, minor: 0, stepping: 0, name: "Vega10" });
    proof {
        assert(t@ =~= spec_gfx_rows_c());
    }
    t
}

fn gfx_rows_d() -> (r: Vec<GfxIpLookup>)
    ensures
        r@ == spec_gfx_rows_d(),
{
    let mut t: Vec<GfxIpLookup> = Vec::new();
    t.push(GfxIpLookup { device_id: 0x6869, major: 9, minor: 0, stepping: 0, name: "Vega10" });
    t.push(GfxIpLookup { device_id: 0x686A, major: 9, minor: 0, stepping: 0, name: "Vega10" });
    t.push(GfxIpLookup { device_id: 0x686B, major: 9, minor: 0, stepping: 0, name: "Vega10" });
    t.push(GfxIpLookup { device_id: 0x686C, major: 9, minor: 0, stepping: 0, name: "Vega10" });
    t.push(GfxIpLookup { device_id: 0x686D, major: 9, minor: 0, stepping: 0, name: "Vega10" });
    t.push(GfxIpLookup { device_id: 0x686E, major: 9, minor: 0, stepping: 0, name: "Vega10" });
    t.push(GfxIpLookup { device_id: 0x687F, major: 9, minor: 0, stepping: 0, name: "Vega10" });
    t.push(GfxIpLookup { device_id: 0x69A0, major: 9, minor: 0, stepping: 4, name: "Vega12" });
    t.push(GfxIpLookup { device_id: 0x69A1, major: 9, minor: 0, stepping: 4, name: "Vega12" });
    t.push(GfxIpLookup { device_id: 0x69A2, major: 9, minor: 0, stepping: 4, name: "Vega12" });
    t.push(GfxIpLookup { device_id: 0x69A3, major: 9, minor: 0, stepping: 4, name: "Vega12" });
    t.push(GfxIpLookup { device_id: 0x69AF, major: 9, minor: 0, stepping: 4, name: "Vega12" });
    t.push(GfxIpLookup { device_id: 0x15DD, major: 9, minor: 0, stepping: 2, name: "Raven" });
    t.push(GfxIpLookup { device_id: 0x15D8, major: 9, minor: 0, stepping: 2, name: "Raven" });
    t.push(GfxIpLookup { device_id: 0x66A0, major: 9, minor: 0, stepping: 6, name: "Vega20" });
    t.push(GfxIpLookup { device_id: 0x66A1, major: 9, minor: 0, stepping: 6, name: "Vega20" });
    t.push(GfxIpLookup { device_id: 0x66A2, major: 9, minor: 0, stepping: 6, name: "Vega20" });
    t.push(GfxIpLookup { device_id: 0x66A3, major: 9, minor: 0, stepping: 6, name: "Vega20" });
    t.push(GfxIpLookup { device_id: 0x66A4, major: 9, minor: 0, stepping: 6, name: "Vega20" });
    t.push(GfxIpLookup { device_id: 0x66A7, major: 9, minor: 0, stepping: 6, name: "Vega20" });
    t.push(GfxIpLookup { device_id: 0x66AF, major: 9, minor: 0, stepping: 6, name: "Vega20" });
    t.push(GfxIpLookup { device_id: 0x7388, major: 9, minor: 0, stepping: 8, name: "Arcturus" });
    t.push(GfxIpLookup { device_id: 0x738C, major: 9, minor: 0, stepping: 8, name: "Arcturus" });
    t.push(GfxIpLookup { device_id: 0x738E, major: 9, minor: 0, stepping: 8, name: "Arcturus" });
    t.push(GfxIpLookup { device_id: 0x7390, major: 9, minor: 0, stepping: 8, name: "Arcturus" });
    t.push(GfxIpLookup { device_id: 0x7408, major: 9, minor: 0, stepping: 10, name: "Aldebaran" });
    t.push(GfxIpLookup { device_id: 0x740C, major: 9, minor: 0, stepping: 10, name: "Aldebaran" });
    t.push(GfxIpLookup { device_id: 0x740F, major: 9, minor: 0, stepping: 10, name: "Aldebaran" });
    t.push(GfxIpLookup { device_id: 0x7410, major: 9, minor: 0, stepping: 10, name: "Aldebaran" });
    t.push(GfxIpLookup { device_id: 0x15E7, major: 9, minor: 0, stepping: 12, name: "Renoir" });
    proof {
        assert(t@ =~= spec_gfx_rows_d());
    }
    t
}

fn gfx_rows_e() -> (r: Vec<GfxIpLookup>)
    ensures
        r@ == spec_gfx_rows_e(),
{
    let mut t: Vec<GfxIpLookup> = Vec::new();
    t.push(GfxIpLookup { device_id: 0x1636, major: 9, minor: 0, stepping: 12, name: "Renoir" });
    t.push(GfxIpLookup { device_id: 0x1638, major: 9, minor: 0, stepping: 12, name: "Renoir" });
    t.push(GfxIpLookup { device_id: 0x164C, major: 9, minor: 0, stepping: 12, name: "Renoir" });
    t.push(GfxIpLookup { device_id: 0x7310, major: 10, minor: 1, stepping: 0, name: "Navi10" });
    t.push(GfxIpLookup { device_id: 0x7312, major: 10, minor: 1, stepping: 0, name: "Navi10" });
    t.push(GfxIpLookup { device_id: 0x7318, major: 10, minor: 1, stepping: 0, name: "Navi10" });
    t.push(GfxIpLookup { device_id: 0x731A, major: 10, minor: 1, stepping: 0, name: "Navi10" });
    t.push(GfxIpLookup { device_id: 0x731E, major: 10, minor: 1, stepping: 0, name: "Navi10" });
    t.push(GfxIpLookup { device_id: 0x731F, major: 10, minor: 1, stepping: 0, name: "Navi10" });
    t.push(GfxIpLookup { device_id: 0x13F9, major: 10, minor: 1, stepping: 3, name: "cyan_skillfish" });
    t.push(GfxIpLookup { device_id: 0x13FA, major: 10, minor: 1, stepping: 3, name: "cyan_skillfish" });
    t.push(GfxIpLookup { device_id: 0x13FB, major: 10, minor: 1, stepping: 3, name: "cyan_skillfish" });
    t.push(GfxIpLookup { device_id: 0x13FC, major: 10, minor: 1, stepping: 3, name: "cyan_skillfish" });
    t.push(GfxIpLookup { device_id: 0x13FE, major: 10, minor: 1, stepping: 3, name: "cyan_skillfish" });
    t.push(GfxIpLookup { device_id: 0x143F, major: 10, minor: 1, stepping: 3, name: "cyan_skillfish" });
    t.push(GfxIpLookup { device_id: 0x7340, major: 10, minor: 1, stepping: 2, name: "Navi14" });
    t.push(GfxIpLookup { device_id: 0x7341, major: 10, minor: 1, stepping: 2, name: "Navi14" });
    t.push(GfxIpLookup { device_id: 0x7347, major: 10, minor: 1, stepping: 2, name: "Navi14" });
    t.push(GfxIpLookup { device_id: 0x7360, major: 10, minor: 1, stepping: 1, name: "Navi12" });
    t.push(GfxIpLookup { device_id: 0x7362, major: 10, minor: 1, stepping: 1, name: "Navi12" });
    t.push(GfxIpLookup { device_id: 0x73A0, major: 10, minor: 3, stepping: 0, name: "SIENNA_CICHLID" });
    t.push(GfxIpLookup { device_id: 0x73A1, major: 10, minor: 3, stepping: 0, name: "SIENNA_CICHLID" });
    t.push(GfxIpLookup { device_id: 0x73A2, major: 10, minor: 3, stepping: 0, name: "SIENNA_CICHLID" });
    t.push(GfxIpLookup { device_id: 0x73A3, major: 10, minor: 3, stepping: 0, name: "SIENNA_CICHLID" });
    t.push(GfxIpLookup { device_id: 0x73A5, major: 10, minor: 3, stepping: 0, name: "SIENNA_CICHLID" });
    t.push(GfxIpLookup { device_id: 0x73A8, major: 10, minor: 3, stepping: 0, name: "SIENNA_CICHLID" });
    t.push(GfxIpLookup { device_id: 0x73A9, major: 10, minor: 3, stepping: 0, name: "SIENNA_CICHLID" });
    t.push(GfxIpLookup { device_id: 0x73AC, major: 10, minor: 3, stepping: 0, name: "SIENNA_CICHLID" });
    t.push(GfxIpLookup { device_id: 0x73AD, major: 10, minor: 3, stepping: 0, name: "SIENNA_CICHLID" });
    t.push(GfxIpLookup { device_id: 0x73AB, major: 10, minor: 3, stepping: 0, name: "SIENNA_CICHLID" });
    proof {
        assert(t@ =~= spec_gfx_rows_e());
    }
    t
}

fn gfx_rows_f() -> (r: Vec<GfxIpLookup>)
    ensures
        r@ == spec_gfx_rows_f(),
{
    let mut t: Vec<GfxIpLookup> = Vec::new();
    t.push(GfxIpLookup { device_id: 0x73AE, major: 10, minor: 3, stepping: 0, name: "SIENNA_CICHLID" });
    t.push(GfxIpLookup { device_id: 0x73BF, major: 10, minor: 3, stepping: 0, name: "SIENNA_CICHLID" });
    t.push(GfxIpLookup { device_id: 0x73C0, major: 10, minor: 3, stepping: 1, name: "NAVY_FLOUNDER" });
    t.push(GfxIpLookup { device_id: 0x73C1, major: 10, minor: 3, stepping: 1, name: "NAVY_FLOUNDER" });
    t.push(GfxIpLookup { device_id: 0x73C3, major: 10, minor: 3, stepping: 1, name: "NAVY_FLOUNDER" });
    t.push(GfxIpLookup { device_id: 0x73DA, major: 10, minor: 3, stepping: 1, name: "NAVY_FLOUNDER" });
    t.push(GfxIpLookup { device_id: 0x73DB, major: 10, minor: 3, stepping: 1, name: "NAVY_FLOUNDER" });
    t.push(GfxIpLookup { device_id: 0x73DC, major: 10, minor: 3, stepping: 1, name: "NAVY_FLOUNDER" });
    t.push(GfxIpLookup { device_id: 0x73DD, major: 10, minor: 3, stepping: 1, name: "NAVY_FLOUNDER" });
    t.push(GfxIpLookup { device_id: 0x73DE, major: 10, minor: 3, stepping: 1, name: "NAVY_FLOUNDER" });
    t.push(GfxIpLookup { device_id: 0x73DF, major: 10, minor: 3, stepping: 1, name: "NAVY_FLOUNDER" });
    t.push(GfxIpLookup { device_id: 0x73E0, major: 10, minor: 3, stepping: 2, name: "DIMGREY_CAVEFISH" });
    t.push(GfxIpLookup { device_id: 0x73E1, major: 10, minor: 3, stepping: 2, name: "DIMGREY_CAVEFISH" });
    t.push(GfxIpLookup { device_id: 0x73E2, major: 10, minor: 3, stepping: 2, name: "DIMGREY_CAVEFISH" });
    t.push(GfxIpLookup { device_id: 0x73E8, major: 10, minor: 3, stepping: 2, name: "DIMGREY_CAVEFISH" });
    t.push(GfxIpLookup { device_id: 0x73E9, major: 10, minor: 3, stepping: 2, name: "DIMGREY_CAVEFISH" });
    t.push(GfxIpLookup { device_id: 0x73EA, major: 10, minor: 3, stepping: 2, name: "DIMGREY_CAVEFISH" });
    t.push(GfxIpLookup { device_id: 0x73EB, major: 10, minor: 3, stepping: 2, name: "DIMGREY_CAVEFISH" });
    t.push(GfxIpLookup { device_id: 0x73EC, major: 10, minor: 3, stepping: 2, name: "DIMGREY_CAVEFISH" });
    t.push(GfxIpLookup { device_id: 0x73ED, major: 10, minor: 3, stepping: 2, name: "DIMGREY_CAVEFISH" });
    t.push(GfxIpLookup { device_id: 0x73EF, major: 10, minor: 3, stepping: 2, name: "DIMGREY_CAVEFISH" });
    t.push(GfxIpLookup { device_id: 0x73FF, major: 10, minor: 3, stepping: 2, name: "DIMGREY_CAVEFISH" });
    t.push(GfxIpLookup { device_id: 0x163F, major: 10, minor: 3, stepping: 3, name: "VanGogh" });
    t.push(GfxIpLookup { device_id: 0x7420, major: 10, minor: 3, stepping: 4, name: "BEIGE_GOBY" });
    t.push(GfxIpLookup { device_id: 0x7421, major: 10, minor: 3, stepping: 4, name: "BEIGE_GOBY" });
    t.push(GfxIpLookup { device_id: 0x7422, major: 10, minor: 3, stepping: 4, name: "BEIGE_GOBY" });
    t.push(GfxIpLookup { device_id: 0x7423, major: 10, minor: 3, stepping: 4, name: "BEIGE_GOBY" });
    t.push(GfxIpLookup { device_id: 0x743F, major: 10, minor: 3, stepping: 4, name: "BEIGE_GOBY" });
    t.push(GfxIpLookup { device_id: 0x164D, major: 10, minor: 3, stepping: 5, name: "YELLOW_CARP" });
    t.push(GfxIpLookup { device_id: 0x1681, major: 10, minor: 3, stepping: 5, name: "YELLOW_CARP" });
    proof {
        assert(t@ =~= spec_gfx_rows_f());
    }
    t
}

/// Appends one table block.
fn append_rows(t: &mut Vec<GfxIpLookup>, more: Vec<GfxIpLookup>)
    ensures
        final(t)@ == old(t)@ + more@,
{
    let ghost base = t@;
    let n = more.len();
    let mut i: usize = 0;
    while i < n
        invariant
            n == more@.len(),
            0 <= i <= n,
            t@ == base + more@.take(i as int),
        decreases n - i,
    {
        t.push(more[i]);
        proof {
            assert(t@ =~= base + more@.take(i + 1));
        }
        i = i + 1;
    }
    proof {
        assert(base + more@.take(n as int) =~= base + more@);
    }
}

/// The static device table: PCI device ids of the supported parts with
/// their engine versions and codenames.
#[must_use]
pub fn gfx_ip_table() -> (r: Vec<GfxIpLookup>)
    ensures
        r@ == spec_gfx_ip_table(),
{
    let mut t = gfx_rows_a();
    append_rows(&mut t, gfx_rows_b());
    append_rows(&mut t, gfx_rows_c());
    append_rows(&mut t, gfx_rows_d());
    append_rows(&mut t, gfx_rows_e());
    append_rows(&mut t, gfx_rows_f());
    t
}

/// Looks the device id up in the device table.
///
/// The result is pinned to the table: the first row carrying the
/// device id, and none at all for engine majors above 14, which are
/// never table-driven.
pub fn find_gfx_ip(device_id: u16, major_version: u8) -> (r: Option<GfxIpLookup>)
    ensures
        r == if major_version > 14 {
            None::<GfxIpLookup>
        } else {
            spec_table_row(spec_gfx_ip_table(), device_id, 0)
        },
{
    if major_version > 14 {
        return None;
    }
    let table = gfx_ip_table();
    let n = table.len();
    let mut i: usize = 0;
    while i < n
        invariant
            n == table@.len(),
            0 <= i <= n,
            table@ == spec_gfx_ip_table(),
            major_version <= 14,
            spec_table_row(spec_gfx_ip_table(), device_id, 0) == spec_table_row(
                table@,
                device_id,
                i as int,
            ),
        decreases n - i,
    {
        if table[i].device_id == device_id {
            let e = table[i];
            return Some(e);
        }
        i = i + 1;
    }
    None
}

/// Decimal digits of `n`, most significant first.
pub open spec fn spec_dec_bytes(n: int) -> Seq<u8>
    decreases n,
{
    if n < 10 {
        seq![(48 + n) as u8]
    } else {
        spec_dec_bytes(n / 10).push((48 + n % 10) as u8)
    }
}

/// Renders `n` in decimal.
pub fn dec_bytes(n: u32) -> (r: Vec<u8>)
    ensures
        r@ == spec_dec_bytes(n as int),
    decreases n,
{
    if n < 10 {
        let mut r: Vec<u8> = Vec::new();
        r.push(48 + (n as u8));
        proof {
            assert(r@ =~= spec_dec_bytes(n as int));
        }
        r
    } else {
        let mut r = dec_bytes(n / 10);
        r.push(48 + ((n % 10) as u8));
        proof {
            assert(r@ =~= spec_dec_bytes(n as int));
        }
        r
    }
}

/// The ISA name of an engine version: `cpu` for agents without a GFX
/// engine, else `gfx` followed by the decimal major, minor and stepping.
pub fn get_isa_name(engine_id: &EngineId) -> (r: Vec<u8>)
    ensures
        engine_id.major == 0 ==> r@ == "cpu".spec_bytes(),
        engine_id.major != 0 ==> r@ == "gfx".spec_bytes() + spec_dec_bytes(engine_id.major as int)
            + spec_dec_bytes(engine_id.minor as int) + spec_dec_bytes(engine_id.stepping as int),
{
    if engine_id.major == 0 {
        let mut r: Vec<u8> = Vec::new();
        let cpu = "cpu".as_bytes();
        let mut i: usize = 0;
        while i < cpu.len()
            invariant
                cpu@ == "cpu".spec_bytes(),
                0 <= i <= cpu@.len(),
                r@ == cpu@.take(i as int),
            decreases cpu@.len() - i,
        {
            r.push(cpu[i]);
            proof {
                assert(r@ =~= cpu@.take(i + 1));
            }
            i = i + 1;
        }
        proof {
            assert(cpu@.take(cpu@.len() as int) =~= cpu@);
        }
        r
    } else {
        let mut r: Vec<u8> = Vec::new();
        let g = "gfx".as_bytes();
        let mut i: usize = 0;
        while i < g.len()
            invariant
                g@ == "gfx".spec_bytes(),
                0 <= i <= g@.len(),
                r@ == g@.take(i as int),
            decreases g@.len() - i,
        {
            r.push(g[i]);
            proof {
                assert(r@ =~= g@.take(i + 1));
            }
            i = i + 1;
        }
        proof {
            assert(g@.take(g@.len() as int) =~= g@);
        }
        let ma = dec_bytes(engine_id.major);
        let mi = dec_bytes(engine_id.minor);
        let st = dec_bytes(engine_id.stepping);
        let r = append_bytes(r, &ma);
        let r = append_bytes(r, &mi);
        let r = append_bytes(r, &st);
        r
    }
}

/// Appends `b` to `a`.
pub fn append_bytes(a: Vec<u8>, b: &Vec<u8>) -> (r: Vec<u8>)
    ensures
        r@ == a@ + b@,
{
    let mut r = a;
    let ghost base = r@;
    let n = b.len();
    let mut i: usize = 0;
    while i < n
        invariant
            n == b@.len(),
            0 <= i <= n,
            r@ == base + b@.take(i as int),
        decreases n - i,
    {
        r.push(b[i]);
        proof {
            assert(r@ =~= base + b@.take(i + 1));
        }
        i = i + 1;
    }
    proof {
        assert(base + b@.take(n as int) =~= base + b@);
    }
    r
}

/// Enriches a GPU node's properties.
///
/// CPU nodes (no SIMDs) are untouched.  The engine version decodes from
/// `gfx_target_version`, overridden by the caller-supplied triple when
/// one is given; a device-table hit then overrides the version again
/// and names the architecture, with a hexadecimal `GFX` tag as the
/// fallback name.  The marketing name takes the caller's resolved name,
/// else falls back to the architecture name when empty.  Shader banks,
/// SGPR and VGPR sizes derive from the version; a zero XCC count
/// becomes one.
pub fn enrich_gpu_properties(
    props: &mut HsaNodeProperties,
    override_version: Option<(u32, u32, u32)>,
    marketing_name: Option<Vec<u8>>,
)
    ensures
        old(props).simd_count == 0 ==> crate::sysfs::props_eq(final(props), old(props)),
        old(props).simd_count != 0 ==> {
            &&& final(props).sgpr_size_per_cu == SGPR_SIZE_PER_CU
            &&& final(props).vgpr_size_per_cu == crate::sysfs::spec_vgpr_size_per_cu(
                final(props).engine_id.major,
                final(props).engine_id.minor,
                final(props).engine_id.stepping,
            )
            &&& final(props).num_xcc == if old(props).num_xcc == 0 {
                1u32
            } else {
                old(props).num_xcc
            }
            &&& final(props).num_shader_banks == if old(props).simd_arrays_per_engine != 0 {
                (old(props).array_count / old(props).simd_arrays_per_engine) as u32
            } else {
                old(props).num_shader_banks
            }
            &&& (match marketing_name {
                Some(name) => final(props).marketing_name@ == name@,
                None => old(props).marketing_name@.len() == 0 ==> final(props).marketing_name@
                    == final(props).amd_name@,
            })
            &&& final(props).simd_count == old(props).simd_count
            &&& final(props).gfx_target_version == old(props).gfx_target_version
            &&& final(props).kfd_gpu_id == old(props).kfd_gpu_id
            &&& final(props).mem_banks_count == old(props).mem_banks_count
            &&& final(props).lds_size_in_kb == old(props).lds_size_in_kb
            &&& final(props).local_mem_size == old(props).local_mem_size
            &&& ({
                let v = old(props).gfx_target_version;
                let base = match override_version {
                    Some(t) => t,
                    None => ((((v / 10000) % 100) as u32), (((v / 100) % 100) as u32), ((v
                        % 100) as u32)),
                };
                let hit = if base.0 % 256 <= 14 {
                    spec_table_row(
                        spec_gfx_ip_table(),
                        (old(props).device_id % 65536) as u16,
                        0,
                    )
                } else {
                    None
                };
                match hit {
                    Some(e) => final(props).engine_id == (EngineId {
                        major: e.major as u32,
                        minor: e.minor as u32,
                        stepping: e.stepping as u32,
                    }) && final(props).amd_name@ == e.name.spec_bytes(),
                    None => final(props).engine_id == (EngineId {
                        major: base.0,
                        minor: base.1,
                        stepping: base.2,
                    }) && final(props).amd_name@ == "GFX".spec_bytes() + spec_hex_bytes(
                        old(props).gfx_target_version as int,
                    ),
                }
            })
        },
{
    if props.simd_count == 0 {
        return ;
    }
    let mut major: u32 = (props.gfx_target_version / 10000) % 100;
    let mut minor: u32 = (props.gfx_target_version / 100) % 100;
    let mut step: u32 = props.gfx_target_version % 100;
    if let Some((ma, mi, st)) = override_version {
        major = ma;
        minor = mi;
        step = st;
    }
    props.engine_id = EngineId { major, minor, stepping: step };

    let hit = find_gfx_ip((props.device_id % 65536) as u16, (major % 256) as u8);
    match hit {
        Some(entry) => {
            props.amd_name = copy_bytes_of_str(entry.name);
            props.engine_id = EngineId {
                major: entry.major as u32,
                minor: entry.minor as u32,
                stepping: entry.stepping as u32,
            };
        },
        None => {
            let name = copy_bytes_of_str("GFX");
            let hex = hex_bytes(props.gfx_target_version);
            let name = append_bytes(name, &hex);
            props.amd_name = name;
        },
    }

    match marketing_name {
        Some(name) => {
            props.marketing_name = name;
        },
        None => {
            if props.marketing_name.len() == 0 {
                props.marketing_name = copy_bytes(&props.amd_name);
            }
        },
    }

    if props.simd_arrays_per_engine != 0 {
        props.num_shader_banks = props.array_count / props.simd_arrays_per_engine;
    }
    props.sgpr_size_per_cu = SGPR_SIZE_PER_CU;
    props.vgpr_size_per_cu = get_vgpr_size_per_cu(
        props.engine_id.major,
        props.engine_id.minor,
        props.engine_id.stepping,
    );
    if props.num_xcc == 0 {
        props.num_xcc = 1;
    }
}

/// The lowercase hexadecimal digit byte of `d`.
pub open spec fn spec_hex_digit(d: int) -> u8 {
    if d < 10 {
        (48 + d) as u8
    } else {
        (87 + d) as u8
    }
}

/// Hexadecimal digits of `n`, most significant first.
pub open spec fn spec_hex_digits(n: int) -> Seq<u8>
    decreases n,
{
    if n < 16 {
        seq![spec_hex_digit(n)]
    } else {
        spec_hex_digits(n / 16).push(spec_hex_digit(n % 16))
    }
}

/// The lowercase hexadecimal rendering of `n`, zero-padded to at least
/// two digits.
pub open spec fn spec_hex_bytes(n: int) -> Seq<u8> {
    if n < 16 {
        seq![48u8, spec_hex_digit(n)]
    } else {
        spec_hex_digits(n)
    }
}

/// Hexadecimal digits of `n`, most significant first.
fn hex_digits(n: u32) -> (r: Vec<u8>)
    ensures
        r@ == spec_hex_digits(n as int),
        r@.len() >= 1,
        n >= 16 ==> r@.len() >= 2,
    decreases n,
{
    if n < 16 {
        let d: u8 = if n < 10 {
            48 + (n as u8)
        } else {
            87 + (n as u8)
        };
        let mut r: Vec<u8> = Vec::new();
        r.push(d);
        proof {
            assert(r@ =~= spec_hex_digits(n as int));
        }
        r
    } else {
        let mut r = hex_digits(n / 16);
        let rem: u32 = n % 16;
        let d: u8 = if rem < 10 {
            48 + (rem as u8)
        } else {
            87 + (rem as u8)
        };
        r.push(d);
        proof {
            assert(r@ =~= spec_hex_digits(n as int));
        }
        r
    }
}

/// Renders `n` in lowercase hexadecimal, at least two digits wide.
pub fn hex_bytes(n: u32) -> (r: Vec<u8>)
    ensures
        r@ == spec_hex_bytes(n as int),
        r@.len() >= 2,
{
    if n < 16 {
        let d: u8 = if n < 10 {
            48 + (n as u8)
        } else {
            87 + (n as u8)
        };
        let mut r: Vec<u8> = Vec::new();
        r.push(48);
        r.push(d);
        proof {
            assert(r@ =~= spec_hex_bytes(n as int));
        }
        r
    } else {
        hex_digits(n)
    }
}

/// The model name of the processor record keyed by `apicid`, from the
/// host-processor table the caller parsed.
pub fn cpu_model_name(cpu_info: &Vec<(u32, Vec<u8>)>, apicid: u32) -> (r: Option<Vec<u8>>)
    ensures
        match r {
            Some(name) => exists|i: int|
                0 <= i < cpu_info@.len() && (#[trigger] cpu_info@[i]).0 == apicid && name@
                    == cpu_info@[i].1@,
            None => forall|i: int|
                0 <= i < cpu_info@.len() ==> (#[trigger] cpu_info@[i]).0 != apicid,
        },
{
    let n = cpu_info.len();
    let mut i: usize = 0;
    while i < n
        invariant
            n == cpu_info@.len(),
            0 <= i <= n,
            forall|k: int| 0 <= k < i ==> (#[trigger] cpu_info@[k]).0 != apicid,
        decreases n - i,
    {
        if cpu_info[i].0 == apicid {
            let name = copy_bytes(&cpu_info[i].1);
            proof {
                assert(cpu_info@[i as int].0 == apicid);
            }
            return Some(name);
        }
        i = i + 1;
    }
    None
}

/// The bytes of a static string.
pub fn copy_bytes_of_str(s: &str) -> (r: Vec<u8>)
    ensures
        r@ == s.spec_bytes(),
{
    let b = s.as_bytes();
    let mut r: Vec<u8> = Vec::new();
    let n = b.len();
    let mut i: usize = 0;
    while i < n
        invariant
            b@ == s.spec_bytes(),
            n == b@.len(),
            0 <= i <= n,
            r@ == b@.take(i as int),
        decreases n - i,
    {
        r.push(b[i]);
        proof {
            assert(r@ =~= b@.take(i + 1));
        }
        i = i + 1;
    }
    proof {
        assert(b@.take(n as int) =~= b@);
    }
    r
}

} // verus!
