use kfd_thunk::cwsr::{calculate_sizes, cntl_stack_bytes_per_wave, get_vgpr_size_per_cu, align_up, build_cwsr_headers};
use kfd_thunk::error::HsaError;
use kfd_thunk::flags::AllocFlags;
use kfd_thunk::ioctl::ProcessDeviceApertures;
use kfd_thunk::manager::{MemoryManager, SVM_ALT_SIZE, SVM_MIN_BASE, SVM_RESERVATION_LIMIT};
use kfd_thunk::aperture::{Aperture, ApertureAllocator};
use kfd_thunk::enrich::hex_bytes;
use kfd_thunk::parse::{
    lookup_marketing_name, parse_iolink_properties, parse_memory_properties,
    parse_node_properties, parse_pci_revision, parse_u64_dec, snapshot_accepted,
    timestamp_frequency_from_resolution,
};
use kfd_thunk::sysfs::{HsaNodeProperties, Node, Topology as SysfsTopology, HsaSystemProperties};
use kfd_thunk::topology::{calculate_indirect_link, fetch_apertures, Topology, HSA_HEAPTYPE_GPU_LDS, HSA_HEAPTYPE_GPU_SCRATCH, HSA_HEAPTYPE_DEVICE_SVM, HSA_HEAPTYPE_MMIO_REMAP};
use kfd_thunk::enrich::{enrich_gpu_properties, find_gfx_ip, get_isa_name};

fn gpu_props(gpu_id: u32, version: u32) -> HsaNodeProperties {
    let mut p = HsaNodeProperties::default();
    p.kfd_gpu_id = gpu_id;
    p.simd_count = 256;
    p.simd_per_cu = 4;
    p.gfx_target_version = version;
    p
}

fn aperture_record(gpu_id: u32) -> ProcessDeviceApertures {
    ProcessDeviceApertures {
        lds_base: 0x100_0000,
        lds_limit: 0x1ff_ffff,
        scratch_base: 0x200_0000,
        scratch_limit: 0x2ff_ffff,
        gpuvm_base: 0x1_0000_0000,
        gpuvm_limit: 0x7_ffff_ffff,
        gpu_id,
        pad: 0,
    }
}

#[test]
fn manager_lays_out_the_two_svm_apertures() {
    let nodes = vec![HsaNodeProperties::default(), gpu_props(0x1234, 90000)];
    let infos = vec![aperture_record(0x1234)];
    let m = MemoryManager::new(&infos, &nodes);
    assert_eq!(m.svm_alt_aperture.base, SVM_MIN_BASE);
    assert_eq!(m.svm_alt_aperture.limit, SVM_MIN_BASE + SVM_ALT_SIZE - 1);
    assert_eq!(m.svm_aperture.base, SVM_MIN_BASE + SVM_ALT_SIZE);
    // The default aperture stops at the recorded GPUVM limit.
    assert_eq!(m.svm_aperture.limit, 0x7_ffff_ffff);
}

#[test]
fn manager_without_gpu_records_spans_the_canonical_limit() {
    let nodes = vec![HsaNodeProperties::default()];
    let infos: Vec<ProcessDeviceApertures> = Vec::new();
    let m = MemoryManager::new(&infos, &nodes);
    assert_eq!(m.svm_aperture.limit, SVM_RESERVATION_LIMIT);
}

#[test]
fn allocation_routes_by_flags_and_reports_oom() {
    let nodes = vec![gpu_props(0x1234, 90000)];
    let infos = vec![aperture_record(0x1234)];
    let mut m = MemoryManager::new(&infos, &nodes);

    // Coarse-grained data goes to the default SVM aperture.
    let p = m.begin_allocate(0x10000, 0, AllocFlags::new().vram(), None).unwrap();
    assert!(p.va_addr >= m.svm_aperture.base);
    assert_eq!(p.size, 0x10000);

    // Coherent data goes to the alternate aperture.
    let q = m.begin_allocate(100, 0, AllocFlags::new().gtt(), None).unwrap();
    assert!(q.va_addr >= m.svm_alt_aperture.base && q.va_addr < m.svm_alt_aperture.limit);
    assert_eq!(q.size, 4096, "sizes round up to a page");
    assert!(q.needs_host_map);

    // An impossible size is out of memory, not a panic.
    let r = m.begin_allocate(usize::MAX / 2, 0, AllocFlags::new().vram(), None);
    assert_eq!(r.unwrap_err(), HsaError::OutOfMemory);

    // A scratch request for an unknown node misses the topology.
    let mut scratch = AllocFlags::new();
    scratch.scratch = true;
    let bad = m.begin_allocate(0x1000, 0, scratch, Some(99));
    assert_eq!(bad.unwrap_err(), HsaError::InvalidNodeId(99));
}

#[test]
fn allocate_complete_and_free_round_trip() {
    let nodes = vec![gpu_props(0x1234, 90000)];
    let infos = vec![aperture_record(0x1234)];
    let mut m = MemoryManager::new(&infos, &nodes);
    let p = m.begin_allocate(0x2000, 0, AllocFlags::new().gtt(), None).unwrap();
    let a = m.complete_allocate(&p, 0x55, 0x7000_0000);
    assert_eq!(a.handle, 0x55);
    assert_eq!(a.gpu_va, p.va_addr);
    let freed = m.free_memory(0x55).expect("the handle is known");
    assert_eq!(freed, a);
    assert!(m.free_memory(0x55).is_none(), "a second free finds nothing");
}

#[test]
fn cwsr_sizes_match_the_formula_for_a_vega_like_node() {
    let mut p = gpu_props(0x1234, 90000);
    p.simd_count = 256;
    p.simd_per_cu = 4;
    p.num_xcc = 1;
    p.num_shader_banks = 4;
    p.simd_arrays_per_engine = 1;
    p.sgpr_size_per_cu = 32768;
    p.lds_size_in_kb = 64;
    let s = calculate_sizes(&p).expect("GFX9 supports CWSR");
    // 64 CUs, 40 waves per CU capped by 4 * 512 = 2048.
    // ctl stack: 32 + 2048 * 8 + 8 = 16424 -> 20480 page aligned.
    assert_eq!(s.ctl_stack_size, 20480);
    // wg data: 64 * (256 KiB + 32 KiB + 64 KiB + 4 KiB) = 64 * 364544.
    assert_eq!(s.wg_data_size, 64 * 364544);
    // debug: 2048 * 32 = 65536, already 64-aligned.
    assert_eq!(s.debug_memory_size, 65536);
    assert_eq!(s.ctx_save_restore_size, 20480 + ((64 * 364544 + 4095) / 4096) * 4096);
    assert_eq!(s.total_mem_alloc_size, s.ctx_save_restore_size + s.debug_memory_size);
}

#[test]
fn cwsr_is_undefined_before_gfx8_or_without_simds() {
    let p = gpu_props(1, 70000);
    assert!(calculate_sizes(&p).is_none());
    let mut q = gpu_props(1, 90000);
    q.simd_count = 0;
    assert!(calculate_sizes(&q).is_none());
}

#[test]
fn navi10_control_stack_is_clamped() {
    let mut p = gpu_props(1, 100100);
    p.simd_count = 160;
    p.simd_per_cu = 4;
    p.sgpr_size_per_cu = 32768;
    let s = calculate_sizes(&p).unwrap();
    assert!(s.ctl_stack_size <= 0x7000);
}

#[test]
fn cwsr_headers_point_forward_to_the_shared_debug_area() {
    let mut p = gpu_props(1, 90402);
    p.num_xcc = 4;
    p.simd_count = 256;
    p.simd_per_cu = 4;
    p.sgpr_size_per_cu = 32768;
    let s = calculate_sizes(&p).unwrap();
    let headers = build_cwsr_headers(&s, 4, 99, 0xABCD);
    assert_eq!(headers.len(), 4);
    for (i, (offset, h)) in headers.iter().enumerate() {
        assert_eq!(*offset, (i as u32) * s.ctx_save_restore_size);
        assert_eq!(h.debug_offset, (4 - i as u32) * s.ctx_save_restore_size);
        assert_eq!(h.debug_size, s.debug_memory_size * 4);
        assert_eq!(h.error_event_id, 99);
        assert_eq!(h.error_reason, 0xABCD);
        assert_eq!(h.control_stack_offset, 0);
        assert_eq!(h.wave_state_size, 0);
    }
}

#[test]
fn vgpr_and_control_stack_sizing_by_version() {
    assert_eq!(get_vgpr_size_per_cu(90008), 0x80000);
    assert_eq!(get_vgpr_size_per_cu(90400), 0x80000);
    assert_eq!(get_vgpr_size_per_cu(110000), 0x60000);
    assert_eq!(get_vgpr_size_per_cu(90000), 0x40000);
    assert_eq!(cntl_stack_bytes_per_wave(100100), 12);
    assert_eq!(cntl_stack_bytes_per_wave(90000), 8);
    assert_eq!(align_up(16424, 4096), 20480);
}

#[test]
fn synthesized_memory_banks_count_sysfs_plus_heaps_plus_mmio() {
    let mut props = gpu_props(0x1234, 90000);
    props.engine_id.major = 9;
    props.lds_size_in_kb = 64;
    let node = Node { properties: props, mem_banks: vec![Default::default(); 2], caches: Vec::new(), io_links: Vec::new() };
    let inner = SysfsTopology { system_props: HsaSystemProperties::default(), nodes: vec![node] };
    let topo = Topology::new(inner, fetch_apertures(&vec![aperture_record(0x1234)]));
    let banks = topo.get_node_memory_properties(0, 64).unwrap();
    // 2 sysfs banks + LDS + Scratch + SVM + MMIO.
    assert_eq!(banks.len(), 2 + 1 + 1 + 1 + 1);
    assert_eq!(banks[2].heap_type, HSA_HEAPTYPE_GPU_LDS);
    assert_eq!(banks[2].size_in_bytes, 64 * 1024);
    assert_eq!(banks[3].heap_type, HSA_HEAPTYPE_GPU_SCRATCH);
    assert_eq!(banks[3].size_in_bytes, 0x100_0000);
    assert_eq!(banks[4].heap_type, HSA_HEAPTYPE_DEVICE_SVM);
    assert_eq!(banks[5].heap_type, HSA_HEAPTYPE_MMIO_REMAP);
    assert_eq!(banks[5].size_in_bytes, 4096);

    // The property record reports the grown bank count.
    let p = topo.get_node_properties(0).unwrap();
    assert_eq!(p.mem_banks_count, 0 + 4);
    assert_eq!(topo.get_node_properties(9).unwrap_err(), HsaError::InvalidNodeId(9));
}

#[test]
fn indirect_link_sums_the_hops_through_a_shared_cpu() {
    // Node 0: CPU; node 1 and 2: GPUs each with a direct link to the CPU.
    let cpu_props = HsaNodeProperties::default();
    let mut link_1_to_0 = kfd_thunk::sysfs::HsaIoLinkProperties::default();
    link_1_to_0.type_ = kfd_thunk::sysfs::HSA_IOLINKTYPE_PCIEXPRESS;
    link_1_to_0.node_from = 1;
    link_1_to_0.node_to = 0;
    link_1_to_0.weight = 20;
    let mut link_0_to_2 = kfd_thunk::sysfs::HsaIoLinkProperties::default();
    link_0_to_2.type_ = kfd_thunk::sysfs::HSA_IOLINKTYPE_PCIEXPRESS;
    link_0_to_2.node_from = 0;
    link_0_to_2.node_to = 2;
    link_0_to_2.weight = 20;
    let mut link_2_to_0 = link_1_to_0;
    link_2_to_0.node_from = 2;

    let cpu = Node {
        properties: cpu_props,
        mem_banks: Vec::new(),
        caches: Vec::new(),
        io_links: vec![link_0_to_2],
    };
    let gpu1 = Node {
        properties: gpu_props(0x10, 90000),
        mem_banks: Vec::new(),
        caches: Vec::new(),
        io_links: vec![link_1_to_0],
    };
    let gpu2 = Node {
        properties: gpu_props(0x20, 90000),
        mem_banks: Vec::new(),
        caches: Vec::new(),
        io_links: vec![link_2_to_0],
    };
    let nodes = vec![cpu, gpu1, gpu2];

    let l = calculate_indirect_link(&nodes, 1, 2).expect("GPU to GPU through the CPU");
    assert_eq!(l.node_from, 1);
    assert_eq!(l.node_to, 2);
    assert_eq!(l.weight, 40);
    assert_eq!(l.type_, kfd_thunk::sysfs::HSA_IOLINKTYPE_PCIEXPRESS);

    // CPU to CPU pairs get nothing; GPU to CPU gets nothing.
    assert!(calculate_indirect_link(&nodes, 1, 0).is_none());
}

#[test]
fn node_properties_parse_from_key_value_lines() {
    let text = b"cpu_cores_count 0\nsimd_count 256\ngfx_target_version 90000\n\
                 simd_per_cu 4\nlds_size_in_kb 64\nname navi\nbogus_key 7\nnot_a_number x\n";
    let p = parse_node_properties(text);
    assert_eq!(p.simd_count, 256);
    assert_eq!(p.gfx_target_version, 90000);
    assert_eq!(p.simd_per_cu, 4);
    assert_eq!(p.lds_size_in_kb, 64);
    assert_eq!(p.marketing_name, b"navi".to_vec());
    assert_eq!(p.cpu_cores_count, 0);
}

#[test]
fn memory_and_link_properties_parse() {
    let m = parse_memory_properties(b"heap_type 1\nsize_in_bytes 8589934592\nwidth 256\n");
    assert_eq!(m.heap_type, 1);
    assert_eq!(m.size_in_bytes, 8_589_934_592);
    assert_eq!(m.width, 256);

    let l = parse_iolink_properties(b"type 2\nnode_from 1\nnode_to 0\nweight 20\n");
    assert_eq!(l.type_, 2);
    assert_eq!(l.node_from, 1);
    assert_eq!(l.node_to, 0);
    assert_eq!(l.weight, 20);
}

#[test]
fn decimal_parsing_is_exact_and_rejects_junk() {
    assert_eq!(parse_u64_dec(b"12345", 0, 5), Some(12345));
    assert_eq!(parse_u64_dec(b"18446744073709551615", 0, 20), Some(u64::MAX));
    assert_eq!(parse_u64_dec(b"18446744073709551616", 0, 20), None);
    assert_eq!(parse_u64_dec(b"12x45", 0, 5), None);
    assert_eq!(parse_u64_dec(b"", 0, 0), None);
}

#[test]
fn timestamp_frequency_from_clock_resolution() {
    assert_eq!(timestamp_frequency_from_resolution(1), 1_000_000_000);
    assert_eq!(timestamp_frequency_from_resolution(100), 10_000_000);
    assert_eq!(timestamp_frequency_from_resolution(0), 1_000_000_000);
    assert_eq!(timestamp_frequency_from_resolution(-5), 1_000_000_000);
}

#[test]
fn enrichment_decodes_versions_and_names() {
    let mut p = gpu_props(0x1234, 90000);
    enrich_gpu_properties(&mut p, None, None);
    assert_eq!(p.engine_id.major, 9);
    assert_eq!(p.engine_id.minor, 0);
    assert_eq!(p.engine_id.stepping, 0);
    assert_eq!(p.sgpr_size_per_cu, 32768);
    assert_eq!(p.vgpr_size_per_cu, 0x40000);
    assert_eq!(p.num_xcc, 1);

    // The override triple wins over the decoded version.
    let mut q = gpu_props(0x9999, 90000);
    enrich_gpu_properties(&mut q, Some((11, 0, 0)), None);
    assert_eq!(q.engine_id.major, 11);
    assert_eq!(q.vgpr_size_per_cu, 0x60000);

    // A known device id pins the version from the table.
    let hit = find_gfx_ip(0x7388, 9).expect("a known GFX9 part");
    assert_eq!(hit.major, 9);
    assert_eq!(hit.minor, 0);
    assert_eq!(hit.stepping, 8);
    assert!(find_gfx_ip(0x7388, 15).is_none());

    let isa = get_isa_name(&kfd_thunk::sysfs::EngineId { major: 9, minor: 0, stepping: 0 });
    assert_eq!(isa, b"gfx900".to_vec());
    let cpu = get_isa_name(&kfd_thunk::sysfs::EngineId { major: 0, minor: 0, stepping: 0 });
    assert_eq!(cpu, b"cpu".to_vec());
}

#[test]
fn snapshot_assembly_numbers_nodes_and_appends_links() {
    let cpu = Node {
        properties: HsaNodeProperties::default(),
        mem_banks: Vec::new(),
        caches: Vec::new(),
        io_links: Vec::new(),
    };
    let mut gpu_link = kfd_thunk::sysfs::HsaIoLinkProperties::default();
    gpu_link.type_ = kfd_thunk::sysfs::HSA_IOLINKTYPE_PCIEXPRESS;
    gpu_link.node_from = 1;
    gpu_link.node_to = 0;
    gpu_link.weight = 20;
    let mut gpu_props1 = gpu_props(0x10, 90000);
    gpu_props1.io_links_count = 1;
    let gpu = Node {
        properties: gpu_props1,
        mem_banks: Vec::new(),
        caches: Vec::new(),
        io_links: vec![gpu_link],
    };
    let topo = kfd_thunk::topology::get_snapshot(HsaSystemProperties::default(), vec![cpu, gpu]);
    assert_eq!(topo.system_props.num_nodes, 2);
    assert_eq!(topo.nodes[0].properties.node_id, 0);
    assert_eq!(topo.nodes[1].properties.node_id, 1);
}

#[test]
fn cache_properties_parse_with_sibling_map() {
    let text = b"processor_id_low 4\nlevel 2\nsize 512\ntype 3\nsibling_map 1, 0, 7\n";
    let c = kfd_thunk::parse::parse_cache_properties(text);
    assert_eq!(c.processor_id_low, 4);
    assert_eq!(c.cache_level, 2);
    assert_eq!(c.cache_size, 512 * 1024, "sizes scale from KiB to bytes");
    assert_eq!(c.cache_type, 3);
    assert_eq!(c.sibling_map, vec![1, 0, 7], "comma-trimmed tokens join the map");
}

#[test]
fn doorbell_reservations_draw_from_the_alternate_aperture() {
    let nodes = vec![gpu_props(0x1234, 90000)];
    let infos = vec![aperture_record(0x1234)];
    let mut m = MemoryManager::new(&infos, &nodes);
    let p = m.begin_map_doorbell(0, 0x1234, 8192).unwrap();
    assert!(p.va_addr >= m.svm_alt_aperture.base && p.va_addr < m.svm_alt_aperture.limit);
    assert!(p.map_through_kfd);
    assert_eq!(p.ioc_flags, kfd_thunk::manager::DOORBELL_KERNEL_FLAGS);
    // A failed kernel call can return the range whence it came.
    m.free_va_from_flags(p.va_addr, p.size, &p.flags, p.node_id);
    let q = m.begin_map_doorbell(0, 0x1234, 8192).unwrap();
    assert_eq!(q.va_addr, p.va_addr, "the freed doorbell range is reused");
}

#[test]
fn freed_memory_returns_its_address_range() {
    // Allocate, record, free through the drop path, allocate again:
    // the first-fit scan hands the same address back.
    let nodes = vec![gpu_props(0x1234, 90000)];
    let infos = vec![aperture_record(0x1234)];
    let mut m = MemoryManager::new(&infos, &nodes);
    let p = m.begin_allocate(0x10000, 0, AllocFlags::new().vram(), None).unwrap();
    let a = m.complete_allocate(&p, 0x77, 0);
    assert!(m.free_memory(0x77).is_some());
    let q = m.begin_allocate(0x10000, 0, AllocFlags::new().vram(), None).unwrap();
    assert_eq!(q.va_addr, p.va_addr, "the freed range is reused");
}

#[test]
fn manager_reclaims_a_thousand_buffers() {
    let nodes = vec![gpu_props(0x1234, 90000)];
    let infos = vec![aperture_record(0x1234)];
    let mut m = MemoryManager::new(&infos, &nodes);
    let mut first = Vec::new();
    for h in 0..1000u64 {
        let p = m.begin_allocate(0x10000, 0, AllocFlags::new().vram(), None).expect("in span");
        let a = m.complete_allocate(&p, h + 1, 0);
        first.push(a.gpu_va);
    }
    for h in 0..1000u64 {
        assert!(m.free_memory(h + 1).is_some());
    }
    let mut second = Vec::new();
    for h in 0..1000u64 {
        let p = m.begin_allocate(0x10000, 0, AllocFlags::new().vram(), None).expect("reclaimed");
        m.complete_allocate(&p, 2000 + h, 0);
        second.push(p.va_addr);
    }
    assert_eq!(first, second, "full reclamation re-yields the same addresses");
}

#[test]
fn first_fit_prefers_the_lowest_hole() {
    let mut ap = Aperture::new(0x1000, 0x100_0000, 4096, 0);
    let a = ap.allocate_va(0x1000, 0).unwrap();
    let b = ap.allocate_va(0x1000, 0).unwrap();
    let c = ap.allocate_va(0x1000, 0).unwrap();
    assert!(a < b && b < c);
    // Free the middle range: the next fit lands exactly there, not at
    // the tail.
    ap.free_va(b, 0x1000);
    assert_eq!(ap.allocate_va(0x1000, 0).unwrap(), b);
}

#[test]
fn hex_and_isa_names_render_exactly() {
    assert_eq!(hex_bytes(0), b"00".to_vec());
    assert_eq!(hex_bytes(10), b"0a".to_vec());
    assert_eq!(hex_bytes(90000), b"15f90".to_vec());
    assert_eq!(hex_bytes(u32::MAX), b"ffffffff".to_vec());
}

#[test]
fn enrichment_names_hits_and_misses() {
    // A known part: table row wins, codename is taken.
    let mut p = gpu_props(1, 90000);
    p.device_id = 0x7388;
    enrich_gpu_properties(&mut p, None, None);
    assert_eq!(p.engine_id.major, 9);
    assert_eq!(p.engine_id.minor, 0);
    assert_eq!(p.engine_id.stepping, 8);
    assert_eq!(p.amd_name, b"Arcturus".to_vec());
    // An unknown part: decoded version and the hexadecimal tag.
    let mut q = gpu_props(1, 90000);
    q.device_id = 0xFFFF;
    enrich_gpu_properties(&mut q, None, None);
    assert_eq!(q.engine_id.major, 9);
    assert_eq!(q.amd_name, b"GFX15f90".to_vec());
    // A resolved marketing name always wins.
    let mut r = gpu_props(1, 90000);
    r.device_id = 0x7388;
    enrich_gpu_properties(&mut r, None, Some(b"Workstation Card".to_vec()));
    assert_eq!(r.marketing_name, b"Workstation Card".to_vec());
}

#[test]
fn system_properties_parse_their_three_keys() {
    let text = b"platform_oem 7\nplatform_id 21\nplatform_rev 3\njunk 9\n";
    let p = kfd_thunk::parse::parse_system_properties(text, 25_000_000);
    assert_eq!(p.platform_oem, 7);
    assert_eq!(p.platform_id, 21);
    assert_eq!(p.platform_rev, 3);
    assert_eq!(p.timestamp_frequency, 25_000_000);
    assert_eq!(p.num_nodes, 0);
}

#[test]
fn snapshot_retry_rule_accepts_stable_or_exhausted_scans() {
    assert!(snapshot_accepted(4, 4, 0));
    assert!(!snapshot_accepted(4, 5, 0));
    assert!(!snapshot_accepted(4, 5, 5));
    assert!(snapshot_accepted(4, 5, 6), "the sixth retry accepts the last scan");
}

#[test]
fn marketing_name_file_lookup_matches_device_and_revision() {
    let ids = b"# header line\n\n1002,\t0, Some Other Card\n73BF,C1, Named Card 6800\n73BF,C3, Named Card 6900\n";
    assert_eq!(
        lookup_marketing_name(ids, 0x73BF, 0xC3),
        Some(b"Named Card 6900".to_vec())
    );
    assert_eq!(
        lookup_marketing_name(ids, 0x73BF, 0xC1),
        Some(b"Named Card 6800".to_vec())
    );
    assert_eq!(lookup_marketing_name(ids, 0x73BF, 0xC2), None);
    assert_eq!(lookup_marketing_name(ids, 0x9999, 0xC1), None);

    assert_eq!(parse_pci_revision(b"0xc1\n"), Some(0xC1));
    assert_eq!(parse_pci_revision(b"  C3 "), Some(0xC3));
    assert_eq!(parse_pci_revision(b"zz"), None);
}

#[test]
fn snapshot_appends_exactly_the_synthesized_links() {
    // A CPU and two GPUs, each GPU directly linked to the CPU, the CPU
    // linked to both: each GPU gains exactly one indirect link to the
    // other GPU.
    let mut cpu_links = Vec::new();
    for to in [1u32, 2] {
        let mut l = kfd_thunk::sysfs::HsaIoLinkProperties::default();
        l.type_ = kfd_thunk::sysfs::HSA_IOLINKTYPE_PCIEXPRESS;
        l.node_from = 0;
        l.node_to = to;
        l.weight = 20;
        cpu_links.push(l);
    }
    let cpu = Node {
        properties: HsaNodeProperties::default(),
        mem_banks: Vec::new(),
        caches: Vec::new(),
        io_links: cpu_links,
    };
    let mut gpu_nodes = Vec::new();
    for from in [1u32, 2] {
        let mut l = kfd_thunk::sysfs::HsaIoLinkProperties::default();
        l.type_ = kfd_thunk::sysfs::HSA_IOLINKTYPE_PCIEXPRESS;
        l.node_from = from;
        l.node_to = 0;
        l.weight = 20;
        let mut props = gpu_props(0x10 * from, 90000);
        props.io_links_count = 1;
        gpu_nodes.push(Node {
            properties: props,
            mem_banks: Vec::new(),
            caches: Vec::new(),
            io_links: vec![l],
        });
    }
    let mut nodes = vec![cpu];
    nodes.extend(gpu_nodes);
    let topo = kfd_thunk::topology::get_snapshot(HsaSystemProperties::default(), nodes);
    assert_eq!(topo.system_props.num_nodes, 3);
    // The CPU gains one synthesized link per GPU (its own direct hop,
    // weight 20); each GPU gains one link to the other GPU of weight
    // 40 through the shared CPU.
    assert_eq!(topo.nodes[0].io_links.len(), 4);
    assert_eq!(topo.nodes[0].io_links[2].node_to, 1);
    assert_eq!(topo.nodes[0].io_links[2].weight, 20);
    assert_eq!(topo.nodes[0].io_links[3].node_to, 2);
    assert_eq!(topo.nodes[1].io_links.len(), 2);
    assert_eq!(topo.nodes[1].properties.io_links_count, 2);
    let added = topo.nodes[1].io_links[1];
    assert_eq!(added.node_from, 1);
    assert_eq!(added.node_to, 2);
    assert_eq!(added.weight, 40);
    assert_eq!(topo.nodes[2].io_links[1].node_to, 1);
}
