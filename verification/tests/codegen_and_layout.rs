use std::collections::hash_map::DefaultHasher;
use std::hash::{Hash, Hasher};
use geobacter_runtime::codegen::{add_kd_suffixes, apply_kernel_metadata, desc_for, exe_metadata_note, find_record,
    metadata_note, take_link_input, LinkInput, CodegenDesc, ElfNote, ElfNotes, KernelMetadata, MetadataError, NT_AMDGPU_METADATA};
use geobacter_runtime::target::VkFeatures;
use geobacter_runtime::products::{CodegenKernelInstance, CodegenResults, EntryDesc, OutputType};
use geobacter_runtime::spirv::{compute_entry, frag_entry, vertex_entry, ExeModel, SpirvLangItemStorageClass};
use geobacter_runtime::target::{amdgpu_target, isa_cpu_model, AcceleratorTargetDesc, Abi, CodeModel,
    PanicStrategy, TargetSpec};
use geobacter_runtime::device::{host_agents, nth_kernel_agent, queue_size, select_device_pools,
    select_kernarg_region, select_pool, AgentInfo, PoolInfo, RegionInfo};
use geobacter_runtime::descriptors::{convert_descriptor_desc, CompilerDescriptorBufferDesc, CompilerDescriptorDesc,
    CompilerDescriptorDescTy, CompilerDescriptorKind, CompilerShaderStages, DescriptorBufferDesc, DescriptorDescTy,
    Format};
use geobacter_runtime::layout::{CompilerDescriptorBindingsDesc, CompilerShaderInterfaceDefEntry, StaticDescSet,
    StaticPipelineLayoutDesc, StaticShaderInterfaceDef};
use geobacter_runtime::error::Error;
use geobacter_runtime::loader::{find_kernel_symbol, kernel_object, LoadError, SymbolInfo};
use geobacter_runtime::accessible::HsaError;

fn kernel_md(name: &str, symbol: &str, kernarg: u32, align: u32) -> KernelMetadata {
    KernelMetadata {
        name: name.to_string(),
        kernel_desc_symbol: symbol.to_string(),
        kernarg_segment_size: kernarg,
        group_segment_size: 512,
        private_segment_size: 16,
        kernarg_segment_align: align,
        wavefront_size: 64,
        sgpr_count: 10,
        vgpr_count: 20,
        max_flat_workgroup_size: 256,
    }
}

fn entry(symbol: &str) -> EntryDesc<CodegenDesc> {
    EntryDesc {
        kernel_instance: CodegenKernelInstance { name: symbol.to_string(), instance: vec![1, 2] },
        symbol: symbol.to_string(),
        platform: CodegenDesc {
            group_segment_size: 0,
            kernarg_segment_size: 0,
            private_segment_size: 0,
            workgroup_fbarrier_count: 0,
            group_segment_p2align: 0,
            kernarg_segment_p2align: 0,
            private_segment_p2align: 0,
        },
    }
}

#[test]
fn kd_suffixes_and_records() {
    let mut codegen: CodegenResults<CodegenDesc> = CodegenResults::new();
    codegen.entries.push(entry("a"));
    codegen.entries.push(entry("kernel_b"));
    add_kd_suffixes(&mut codegen);
    assert_eq!(codegen.entries[0].symbol, "a.kd");
    assert_eq!(codegen.entries[1].symbol, "kernel_b.kd");
    assert_eq!(codegen.entries[1].kernel_instance.name, "kernel_b");
    let kernels = vec![kernel_md("a", "a.kd", 8, 8), kernel_md("b", "kernel_b.kd", 16, 16), kernel_md("a2", "a.kd", 24, 4)];
    // the last record for a symbol wins
    assert_eq!(find_record(&kernels, &"a.kd".to_string()), Some(2));
    assert_eq!(find_record(&kernels, &"c.kd".to_string()), None);
    assert_eq!(apply_kernel_metadata(&mut codegen, &kernels), Ok(()));
    assert_eq!(codegen.entries[0].platform, CodegenDesc {
        group_segment_size: 512,
        kernarg_segment_size: 24,
        private_segment_size: 16,
        workgroup_fbarrier_count: 0,
        group_segment_p2align: 5,
        kernarg_segment_p2align: 2,
        private_segment_p2align: 5,
    });
    assert_eq!(codegen.entries[1].platform.kernarg_segment_p2align, 4);
    assert_eq!(desc_for(&kernels[1]).kernarg_segment_size, 16);
}

#[test]
fn missing_kernel_record_stops_there() {
    let kernels = vec![kernel_md("a", "a.kd", 8, 8)];
    let mut codegen: CodegenResults<CodegenDesc> = CodegenResults::new();
    codegen.entries.push(entry("a.kd"));
    codegen.entries.push(entry("zz.kd"));
    codegen.entries.push(entry("a.kd"));
    assert_eq!(apply_kernel_metadata(&mut codegen, &kernels), Err(MetadataError::MissingKernelRecord));
    // the entry before the missing one is filled in, the others are not
    assert_eq!(codegen.entries[0].platform.kernarg_segment_size, 8);
    assert_eq!(codegen.entries[0].platform.kernarg_segment_p2align, 3);
    assert_eq!(codegen.entries[1].platform.kernarg_segment_size, 0);
    assert_eq!(codegen.entries[2].platform.kernarg_segment_size, 0);
    assert_eq!(codegen.entries[2].platform.group_segment_p2align, 0);
}

#[test]
fn link_input_prefers_object() {
    let mut codegen: CodegenResults<CodegenDesc> = CodegenResults::new();
    assert!(take_link_input(&mut codegen).is_none());
    codegen.put(OutputType::Bitcode, vec![1]);
    codegen.put(OutputType::Object, vec![2]);
    match take_link_input(&mut codegen) {
        Some(LinkInput::Object(o)) => assert_eq!(o, vec![2]),
        _ => panic!("expected the object"),
    }
    assert!(codegen.object_ref().is_none());
    assert_eq!(codegen.bitcode_ref(), Some(&[1u8][..]));
    match take_link_input(&mut codegen) {
        Some(LinkInput::Bitcode(b)) => assert_eq!(b, vec![1]),
        _ => panic!("expected the bitcode"),
    }
    assert!(codegen.bitcode_ref().is_none());
    assert!(take_link_input(&mut codegen).is_none());
}

#[test]
fn codegen_outputs_put_take() {
    let mut codegen: CodegenResults<CodegenDesc> = CodegenResults::new();
    assert_eq!(codegen.exe_ref(), None);
    assert_eq!(codegen.put_exe(vec![1, 2, 3]), None);
    assert_eq!(codegen.exe_ref(), Some(&[1u8, 2, 3][..]));
    assert_eq!(codegen.put_exe(vec![4]), Some(vec![1, 2, 3]));
    assert_eq!(codegen.exe_ref(), Some(&[4u8][..]));
    assert_eq!(codegen.take_bitcode(), None);
    codegen.put(OutputType::Bitcode, vec![7]);
    assert_eq!(codegen.take_bitcode(), Some(vec![7]));
    assert_eq!(codegen.bitcode_ref(), None);
    assert_eq!(codegen.take_object(), None);
    assert_eq!(codegen.take(OutputType::Exe), Some(vec![4]));
    assert_eq!(codegen.output_ref(OutputType::Exe), None);
}

#[test]
fn codegen_assembly_text() {
    let mut codegen: CodegenResults<CodegenDesc> = CodegenResults::new();
    assert_eq!(codegen.assembly_str_ref(), None);
    codegen.put(OutputType::Assembly, b"s_endpgm".to_vec());
    assert_eq!(codegen.assembly_bytes_ref(), Some(&b"s_endpgm"[..]));
    assert_eq!(codegen.assembly_str_ref(), Some("s_endpgm"));
    codegen.put(OutputType::LlvmAssembly, vec![0xff, 0xfe]);
    assert_eq!(codegen.llvm_assembly_bytes_ref(), Some(&[0xffu8, 0xfe][..]));
    assert_eq!(codegen.llvm_assembly_str_ref(), None);
    codegen.put(OutputType::LlvmAssembly, b"define void @k()".to_vec());
    assert_eq!(codegen.llvm_assembly_str_ref(), Some("define void @k()"));
}

#[test]
fn codegen_root_is_first_entry() {
    let mut codegen: CodegenResults<CodegenDesc> = CodegenResults::new();
    codegen.entries.push(entry("first"));
    codegen.entries.push(entry("second"));
    assert_eq!(codegen.root().symbol, "first");
}

#[test]
fn metadata_note_search() {
    let notes = ElfNotes::Notes(vec![
        Some(ElfNote { n_type: 1, desc: vec![1] }),
        Some(ElfNote { n_type: NT_AMDGPU_METADATA, desc: vec![9, 8, 7] }),
        Some(ElfNote { n_type: NT_AMDGPU_METADATA, desc: vec![6] }),
    ]);
    assert_eq!(metadata_note(&notes), Ok(vec![9, 8, 7]));
    let bad_first = ElfNotes::Notes(vec![None, Some(ElfNote { n_type: NT_AMDGPU_METADATA, desc: vec![1] })]);
    assert_eq!(metadata_note(&bad_first), Err(MetadataError::Malformed));
    let none = ElfNotes::Notes(vec![Some(ElfNote { n_type: 3, desc: vec![] })]);
    assert_eq!(metadata_note(&none), Err(MetadataError::MissingMetadataNote));
    assert_eq!(metadata_note(&ElfNotes::Malformed), Err(MetadataError::Malformed));
}

fn push_u16(b: &mut Vec<u8>, v: u16) { b.extend_from_slice(&v.to_le_bytes()); }
fn push_u32(b: &mut Vec<u8>, v: u32) { b.extend_from_slice(&v.to_le_bytes()); }
fn push_u64(b: &mut Vec<u8>, v: u64) { b.extend_from_slice(&v.to_le_bytes()); }

/// A relocatable 64 bit ELF image with one note section holding one note.
fn elf_with_note(n_type: u32, desc: &[u8]) -> Vec<u8> {
    let mut note = Vec::new();
    push_u32(&mut note, 4);
    push_u32(&mut note, desc.len() as u32);
    push_u32(&mut note, n_type);
    note.extend_from_slice(b"AMD\0");
    note.extend_from_slice(desc);
    while note.len() % 4 != 0 { note.push(0); }
    let shstrtab = b"\0.note\0.shstrtab\0".to_vec();
    let note_off = 64u64;
    let strtab_off = note_off + note.len() as u64;
    let mut sh_off = strtab_off + shstrtab.len() as u64;
    while sh_off % 8 != 0 { sh_off += 1; }

    let mut b = Vec::new();
    b.extend_from_slice(&[0x7f, b'E', b'L', b'F', 2, 1, 1, 0, 0, 0, 0, 0, 0, 0, 0, 0]);
    push_u16(&mut b, 1); // relocatable
    push_u16(&mut b, 224); // AMDGPU
    push_u32(&mut b, 1);
    push_u64(&mut b, 0); // entry
    push_u64(&mut b, 0); // program headers
    push_u64(&mut b, sh_off);
    push_u32(&mut b, 0); // flags
    push_u16(&mut b, 64);
    push_u16(&mut b, 56);
    push_u16(&mut b, 0);
    push_u16(&mut b, 64);
    push_u16(&mut b, 3);
    push_u16(&mut b, 2);
    b.extend_from_slice(&note);
    b.extend_from_slice(&shstrtab);
    while (b.len() as u64) < sh_off { b.push(0); }
    // null section
    b.extend_from_slice(&[0u8; 64]);
    // .note
    push_u32(&mut b, 1);
    push_u32(&mut b, 7);
    push_u64(&mut b, 0);
    push_u64(&mut b, 0);
    push_u64(&mut b, note_off);
    push_u64(&mut b, note.len() as u64);
    push_u32(&mut b, 0);
    push_u32(&mut b, 0);
    push_u64(&mut b, 4);
    push_u64(&mut b, 0);
    // .shstrtab
    push_u32(&mut b, 7);
    push_u32(&mut b, 3);
    push_u64(&mut b, 0);
    push_u64(&mut b, 0);
    push_u64(&mut b, strtab_off);
    push_u64(&mut b, shstrtab.len() as u64);
    push_u32(&mut b, 0);
    push_u32(&mut b, 0);
    push_u64(&mut b, 1);
    push_u64(&mut b, 0);
    b
}

#[test]
fn exe_metadata_note_reads_elf() {
    let exe = elf_with_note(NT_AMDGPU_METADATA, &[0x81, 0xa1, 0x61, 0x01]);
    assert_eq!(exe_metadata_note(&exe), Some(Ok(vec![0x81, 0xa1, 0x61, 0x01])));
    let other = elf_with_note(5, &[1, 2, 3]);
    assert_eq!(exe_metadata_note(&other), Some(Err(MetadataError::MissingMetadataNote)));
    assert_eq!(exe_metadata_note(&[1, 2, 3]), Some(Err(MetadataError::Malformed)));
    // a well-formed object of no known format is not an ELF image
    assert_eq!(exe_metadata_note(&[0u8; 64]), None);
}

fn host_target() -> TargetSpec {
    TargetSpec {
        llvm_target: "x86_64-unknown-linux-gnu".to_string(),
        target_endian: "little".to_string(),
        target_pointer_width: "64".to_string(),
        arch: "x86_64".to_string(),
        data_layout: "e-m:e-i64:64-f80:128-n8:16:32:64-S128".to_string(),
        cpu: "x86-64".to_string(),
        features: String::new(),
        panic_strategy: PanicStrategy::Unwind,
        trap_unreachable: true,
        position_independent_executables: true,
        dynamic_linking: true,
        executables: true,
        requires_lto: false,
        atomic_cas: true,
        default_codegen_units: None,
        obj_is_bitcode: false,
        is_builtin: true,
        simd_types_indirect: true,
        stack_probes: true,
        code_model: None,
        addr_spaces: vec![],
    }
}

#[test]
fn accelerator_target_descs() {
    let mut desc = AcceleratorTargetDesc::new(host_target(), 7u32);
    assert!(desc.is_host());
    assert!(!desc.is_amdgpu());
    assert!(!desc.is_spirv());
    assert!(!desc.is_cuda());
    assert!(desc.allow_indirect_function_calls());
    assert_eq!(desc.kernel_abi, Abi::C);
    desc.init_amdgpu("amdgcn-amd-amdhsa--gfx900", true);
    assert!(desc.is_amdgpu());
    assert!(!desc.is_host());
    assert_eq!(desc.kernel_abi, Abi::AmdGpuKernel);
    assert_eq!(desc.target.cpu, "gfx900");
    assert_eq!(desc.target.features, "+dpp,+s-memrealtime,+code-object-v3,+16-bit-insts");
    assert_eq!(desc.target.panic_strategy, PanicStrategy::Abort);
    assert_eq!(desc.target.code_model, Some(CodeModel::Small));
    assert_eq!(desc.target.target_pointer_width, "64");
    assert_eq!(desc.target.addr_spaces.len(), 7);
    let mut t = host_target();
    desc.rustc_target_options(&mut t);
    assert_eq!(t.arch, "amdgpu");
    assert_eq!(desc.platform, 7);
    assert_eq!(isa_cpu_model("amdgcn-amd-amdhsa--gfx1010"), "gfx1010");
    let plain = amdgpu_target(&host_target(), "a-gfx803", false);
    assert_eq!(plain.features, "+dpp,+s-memrealtime,+code-object-v3");
    assert_eq!(plain.cpu, "gfx803");
}

fn pool(alloc_allowed: bool, fine: bool, coarse: bool, size: usize) -> PoolInfo {
    PoolInfo { alloc_allowed, fine_grained: fine, coarse_grained: coarse, total_size: size }
}

#[test]
fn device_selection() {
    let regions = vec![
        RegionInfo { runtime_alloc_allowed: true, kernel_arg: false, fine_grained: true },
        RegionInfo { runtime_alloc_allowed: true, kernel_arg: true, fine_grained: true },
        RegionInfo { runtime_alloc_allowed: true, kernel_arg: true, fine_grained: true },
    ];
    assert_eq!(select_kernarg_region(&regions), Ok(1));
    assert_eq!(select_kernarg_region(&vec![]), Err(Error::MissingKernelArgumentsRegion));
    let pools = vec![pool(true, true, false, 100), pool(true, false, true, 300), pool(true, true, false, 100),
                     pool(false, true, false, 1000)];
    // the largest eligible pool, the last among equals
    assert_eq!(select_pool(&pools, true), Some(2));
    assert_eq!(select_pool(&pools, false), Some(1));
    assert_eq!(select_pool(&vec![pool(false, true, true, 5)], true), None);
    assert_eq!(queue_size(64, 4096, None), 1024);
    assert_eq!(queue_size(64, 4096, Some(16)), 64);
    assert_eq!(queue_size(64, 4096, Some(128)), 128);
    let agents = vec![
        AgentInfo { is_cpu: true, is_kernel: false },
        AgentInfo { is_cpu: false, is_kernel: true },
        AgentInfo { is_cpu: true, is_kernel: false },
        AgentInfo { is_cpu: false, is_kernel: true },
    ];
    assert_eq!(host_agents(&agents), vec![0, 2]);
    assert_eq!(nth_kernel_agent(&agents, 0), Ok(1));
    assert_eq!(nth_kernel_agent(&agents, 1), Ok(3));
    assert_eq!(nth_kernel_agent(&agents, 2), Err(Error::NoGpuAgent));

    let host = vec![vec![pool(true, true, false, 10), pool(true, false, true, 20)]];
    let dev = vec![pool(true, false, true, 50), pool(true, true, false, 5)];
    let d = select_device_pools(&host, &regions, &dev, 1).unwrap();
    assert_eq!(d.kernarg_region, 1);
    assert_eq!(d.host_nodes, vec![(0, 1)]);
    assert_eq!(d.device_fine, Some(1));
    assert_eq!(d.device_coarse, 0);
    assert_eq!(select_device_pools(&vec![], &regions, &dev, 1).unwrap_err(), Error::NoCpuAgent);
    assert_eq!(select_device_pools(&host, &vec![], &dev, 1).unwrap_err(), Error::MissingKernelArgumentsRegion);
    assert_eq!(select_device_pools(&host, &regions, &dev, 0).unwrap_err(), Error::NoGpuAgentIsa);
}

fn buffer_binding(binding: u32, storage: bool) -> CompilerDescriptorDesc {
    CompilerDescriptorDesc(
        binding,
        CompilerDescriptorDescTy(CompilerDescriptorKind::Buffer, vec![], vec![], vec![], vec![],
            vec![CompilerDescriptorBufferDesc(vec![false], storage)]),
        1,
        CompilerShaderStages(false, false, false, false, false, true),
        false,
    )
}

#[test]
fn descriptor_conversion() {
    let d = convert_descriptor_desc(&buffer_binding(0, true));
    assert_eq!(d.ty, DescriptorDescTy::Buffer(DescriptorBufferDesc { dynamic: Some(false), storage: true }));
    assert_eq!(d.array_count, 1);
    assert!(d.stages.compute);
    assert!(!d.stages.vertex);
}

#[test]
fn descriptor_set_slots() {
    let bindings = vec![buffer_binding(1, true), buffer_binding(3, false)];
    let set = StaticDescSet { set: 2, bindings: &bindings };
    assert_eq!(set.len(), 4);
    let slots = set.slots();
    assert_eq!(slots.len(), 4);
    assert!(slots[0].is_none());
    assert!(slots[1].is_some());
    assert!(slots[2].is_none());
    assert_eq!(slots[3].unwrap().ty, DescriptorDescTy::Buffer(DescriptorBufferDesc { dynamic: Some(false), storage: false }));
    let mut it = set.iter();
    assert_eq!(it.set_id(), 2);
    assert_eq!(it.remaining(), 4);
    assert!(it.next().unwrap().is_none());
    assert!(it.next().unwrap().is_some());
    assert_eq!(it.remaining(), 2);
    let empty: Vec<CompilerDescriptorDesc> = vec![];
    let empty_set = StaticDescSet { set: 0, bindings: &empty };
    assert_eq!(empty_set.len(), 0);
    assert!(empty_set.slots().is_empty());
}

#[test]
fn pipeline_layout_lookup() {
    let layout = StaticPipelineLayoutDesc(vec![
        CompilerDescriptorBindingsDesc(0, vec![buffer_binding(0, true), buffer_binding(2, true)]),
        CompilerDescriptorBindingsDesc(3, vec![buffer_binding(5, false)]),
        CompilerDescriptorBindingsDesc(4, vec![]),
    ]);
    assert_eq!(layout.num_sets(), 5);
    assert_eq!(layout.num_bindings_in_set(0), Some(3));
    assert_eq!(layout.num_bindings_in_set(3), Some(6));
    assert_eq!(layout.num_bindings_in_set(4), None);
    assert_eq!(layout.num_bindings_in_set(1), None);
    assert!(layout.descriptor(0, 2).is_some());
    assert!(layout.descriptor(0, 1).is_none());
    assert!(layout.descriptor(2, 0).is_none());
    assert_eq!(layout.descriptor(3, 5).unwrap().ty,
               DescriptorDescTy::Buffer(DescriptorBufferDesc { dynamic: Some(false), storage: false }));
    let sets = layout.set_iter();
    assert_eq!(sets.len(), 3);
    assert_eq!(sets[1].set, 3);
    assert_eq!(StaticPipelineLayoutDesc(vec![]).num_sets(), 0);
}

#[test]
fn shader_interface_entries() {
    let def = StaticShaderInterfaceDef(vec![
        CompilerShaderInterfaceDefEntry((0, 1), 37, vec!["color".to_string()]),
        CompilerShaderInterfaceDefEntry((1, 3), 109, vec![]),
    ]);
    let mut it = def.elements();
    assert_eq!(it.len(), 2);
    let a = it.next().unwrap();
    assert_eq!((a.location_start, a.location_end), (0, 1));
    assert_eq!(a.format, Format(37));
    assert_eq!(a.name, Some("color".to_string()));
    let b = it.next().unwrap();
    assert_eq!(b.format, Format(109));
    assert_eq!(b.name, None);
    assert!(it.next().is_none());
    assert_eq!(it.len(), 0);
}

#[test]
fn kernel_symbol_lookup() {
    let syms = vec![
        SymbolInfo { is_kernel: false, name: Some("main.kd".to_string()) },
        SymbolInfo { is_kernel: true, name: None },
        SymbolInfo { is_kernel: true, name: Some("other.kd".to_string()) },
        SymbolInfo { is_kernel: true, name: Some("main.kd".to_string()) },
        SymbolInfo { is_kernel: true, name: Some("main.kd".to_string()) },
    ];
    assert_eq!(find_kernel_symbol(&syms, &"main.kd".to_string(), &"main".to_string()), Ok(3));
    assert_eq!(find_kernel_symbol(&syms, &"gone.kd".to_string(), &"gone".to_string()),
               Err(LoadError::MissingKernelSymbol("gone".to_string())));
    assert_eq!(kernel_object(Ok(Some(77))), Ok(77));
    assert_eq!(kernel_object(Ok(None)), Err(LoadError::UnexpectedNullKernelObject));
    assert_eq!(kernel_object(Err(HsaError::General)), Err(LoadError::Hsa(HsaError::General)));
}

#[test]
fn spirv_target_descs() {
    let mut desc = AcceleratorTargetDesc::new(host_target(), ());
    let f = VkFeatures {
        variable_pointers: false,
        variable_pointers_storage_buffer: true,
        shader_int8: true,
        shader_int64: true,
        storage_uniform_8bit: true,
        storage_buffer_8bit: true,
        buffer_device_address: true,
        ..Default::default()
    };
    desc.init_spirv(&f);
    assert!(!desc.allow_indirect_function_calls());
    assert_eq!(desc.kernel_abi, Abi::SpirKernel);
    assert!(!desc.is_amdgpu());
    assert!(!desc.is_host());
    assert_eq!(desc.target.llvm_target, "spirv64-vulkan-unknown");
    assert_eq!(desc.target.arch, "spirv64");
    assert_eq!(desc.target.features,
               "+shader,+variable-pointers-storage-buffer,+i8,+i64,+storage-uniform-i8-access,+physical-storage-buffer-addresses");
    assert_eq!(desc.target.addr_spaces.len(), 11);
    // unchanged from the host target
    assert!(desc.target.stack_probes);
    assert_eq!(desc.target.code_model, None);
    // features already present are kept
    let mut host = host_target();
    host.features = "+sse2".to_string();
    let mut d2 = AcceleratorTargetDesc::new(host, ());
    d2.init_spirv(&VkFeatures::default());
    assert_eq!(d2.target.features, "+sse2,+shader");
}

#[test]
fn spirv_entries() {
    let models = vec![ExeModel::Vertex, ExeModel::Fragment, ExeModel::GLCompute, ExeModel::Fragment];
    assert_eq!(compute_entry(&models), Some(2));
    assert_eq!(vertex_entry(&models), Some(0));
    assert_eq!(frag_entry(&models), Some(1));
    let kernels = vec![ExeModel::Kernel];
    assert_eq!(compute_entry(&kernels), Some(0));
    assert_eq!(vertex_entry(&kernels), None);
    assert_eq!(frag_entry(&vec![]), None);
    assert_eq!(SpirvLangItemStorageClass::BuiltinInput.addr_space(), 5);
    assert_eq!(SpirvLangItemStorageClass::ShaderOutput.addr_space(), 6);
    assert_eq!(SpirvLangItemStorageClass::Uniform.addr_space(), 7);
    assert_eq!(SpirvLangItemStorageClass::Buffer.addr_space(), 8);
}

#[test]
fn equal_targets_hash_equally() {
    let h = |t: &TargetSpec| {
        let mut s = DefaultHasher::new();
        t.hash(&mut s);
        s.finish()
    };
    let a = amdgpu_target(&host_target(), "amdgcn-amd-amdhsa-gfx900", false);
    let b = amdgpu_target(&host_target(), "amdgcn-amd-amdhsa-gfx900", false);
    assert_eq!(h(&a), h(&b));
    assert_ne!(h(&a), h(&amdgpu_target(&host_target(), "amdgcn-amd-amdhsa-gfx1030", false)));
}
