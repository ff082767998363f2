use ocp::ld::{generate, template_outcome, LdFailure};
use ocp::manifest::{Binary, ExecMemory, Manifest, Memory, MemoryError, Platform};

fn binary(name: &str, exec: u64, exec_align: Option<u64>, ram: u64, stack: u64, estack: u64) -> Binary {
    Binary {
        name: name.to_string(),
        exec_mem: ExecMemory { size: exec, alignment: exec_align },
        ram,
        ram_alignment: None,
        stack_size: stack,
        exception_stack: estack,
    }
}

fn platform(page_size: Option<u64>) -> Platform {
    Platform {
        tuple: "riscv32imc-unknown-none-elf".to_string(),
        rom: Memory { offset: 0x0, size: 0x10000 },
        itcm: Memory { offset: 0x4000_0000, size: 0x40000 },
        ram: Memory { offset: 0x5000_0000, size: 0x20000 },
        page_size,
        alignment: 0x100,
    }
}

fn full_manifest() -> Manifest {
    Manifest {
        platform: platform(Some(256)),
        rom: Some(binary("rom", 0x1000, None, 0x800, 0x400, 0x100)),
        kernel: binary("kernel", 0x2000, None, 0x1000, 0x800, 0),
        apps: vec![
            binary("app_a", 0x300, None, 0x180, 0x100, 0),
            binary("app_b", 0x100, Some(0x1000), 0x80, 0x80, 0),
        ],
    }
}

#[test]
fn generate_lays_out_rom_kernel_and_apps() {
    let out = generate(&full_manifest(), "/tmp/ld").unwrap();
    let def = &out.definition;

    let rom = def.rom.as_ref().unwrap();
    assert_eq!(rom.name, "rom");
    assert_eq!(rom.linker_script, "/tmp/ld/rom.ld");
    assert_eq!(
        out.rom_script.as_deref().unwrap(),
        "\nROM_START = 0x0;\nROM_LENGTH = 0x1000;\nRAM_START = 0x50000000;\nRAM_LENGTH = 0x800;\nSTACK_SIZE = 0x400;\nESTACK_SIZE = 0x100;\nINCLUDE /tmp/ld/rom-layout.ld\n"
    );

    assert_eq!(def.kernel.name, "kernel");
    assert_eq!(def.kernel.linker_script, "/tmp/ld/kernel.ld");
    let kernel = &out.kernel_script;
    assert!(kernel.contains("rom (rx)  : ORIGIN = 0x40000000, LENGTH = 0x2000\n"));
    assert!(kernel.contains("prog (rx) : ORIGIN = 0x40002000, LENGTH = 0x3e000\n"));
    assert!(kernel.contains("ram (rwx) : ORIGIN = 0x50000000, LENGTH = 0x1000\n"));
    assert!(kernel.contains("flash (r) : ORIGIN = 0x0, LENGTH = 0x0\n"));
    assert!(kernel.contains("\nPAGE_SIZE = 256\n"));
    assert!(kernel.ends_with("INCLUDE /tmp/ld/kernel-layout.ld\n"));

    assert_eq!(def.apps.len(), 2);
    assert_eq!(def.apps[0].name, "app_a");
    assert_eq!(def.apps[0].linker_script, "/tmp/ld/app_a.ld");
    assert_eq!(def.apps[1].name, "app_b");
    assert_eq!(def.apps[1].linker_script, "/tmp/ld/app_b.ld");
    assert_eq!(
        out.app_scripts[0],
        "\nTBF_HEADER_SIZE = 0x84;\nFLASH_START = 0x40002000;\nFLASH_LENGTH = 0x300;\nRAM_START = 0x50001000;\nRAM_LENGTH = 0x180;\nSTACK_SIZE = 0x100;\nINCLUDE /tmp/ld/app-layout.ld\n"
    );
    // app_b asks for 4 KiB alignment of its instructions; its data follows
    // app_a's at the platform alignment.
    assert_eq!(
        out.app_scripts[1],
        "\nTBF_HEADER_SIZE = 0x84;\nFLASH_START = 0x40003000;\nFLASH_LENGTH = 0x100;\nRAM_START = 0x50001200;\nRAM_LENGTH = 0x80;\nSTACK_SIZE = 0x80;\nINCLUDE /tmp/ld/app-layout.ld\n"
    );
}

#[test]
fn generate_without_rom_or_apps() {
    let manifest = Manifest {
        platform: platform(None),
        rom: None,
        kernel: binary("kernel", 0x2000, None, 0x1000, 0x800, 0),
        apps: vec![],
    };
    let out = generate(&manifest, "out").unwrap();
    assert!(out.definition.rom.is_none());
    assert!(out.rom_script.is_none());
    assert!(out.definition.apps.is_empty());
    assert!(out.app_scripts.is_empty());
    assert_eq!(out.definition.kernel.linker_script, "out/kernel.ld");
    let kernel = &out.kernel_script;
    assert!(kernel.contains("prog (rx) : ORIGIN = 0x0, LENGTH = 0x0\n"));
    assert!(kernel.contains("}\n\n\n\nINCLUDE out/kernel-layout.ld\n"));
}

#[test]
fn generate_reports_application_that_does_not_fit() {
    let mut manifest = full_manifest();
    manifest.apps.insert(1, binary("big", 0x100000, None, 0x10, 0x10, 0));
    let err = generate(&manifest, "/tmp/ld").unwrap_err();
    assert_eq!(err.binary, "big");
    match err.failure {
        LdFailure::Memory(e) => assert_eq!(
            e,
            MemoryError::Exhausted { requested: 0x100000, available: 0x3dd00 }
        ),
        LdFailure::Template(_) => panic!("expected a memory error"),
    }
}

#[test]
fn generate_reports_rom_that_does_not_fit() {
    let mut manifest = full_manifest();
    manifest.rom = Some(binary("rom", 0x20000, None, 0x800, 0x400, 0x100));
    let err = generate(&manifest, "/tmp/ld").unwrap_err();
    assert_eq!(err.binary, "rom");
    match err.failure {
        LdFailure::Memory(e) => {
            assert_eq!(e, MemoryError::Exhausted { requested: 0x20000, available: 0x10000 })
        }
        LdFailure::Template(_) => panic!("expected a memory error"),
    }
}

#[test]
fn generate_reports_kernel_data_that_does_not_fit() {
    let mut manifest = full_manifest();
    manifest.kernel.ram = 0x30000;
    let err = generate(&manifest, "/tmp/ld").unwrap_err();
    assert_eq!(err.binary, "kernel");
    match err.failure {
        LdFailure::Memory(e) => {
            assert_eq!(e, MemoryError::Exhausted { requested: 0x30000, available: 0x20000 })
        }
        LdFailure::Template(_) => panic!("expected a memory error"),
    }
}

#[test]
fn padding_that_does_not_fit_is_reported() {
    let mut manifest = full_manifest();
    manifest.platform.itcm = Memory { offset: 0x4000_0010, size: 0x80 };
    let err = generate(&manifest, "/tmp/ld").unwrap_err();
    assert_eq!(err.binary, "kernel");
    match err.failure {
        LdFailure::Memory(e) => {
            assert_eq!(e, MemoryError::Exhausted { requested: 0xf0, available: 0x80 })
        }
        LdFailure::Template(_) => panic!("expected a memory error"),
    }
}

#[test]
fn template_outcome_keeps_text_and_names_binary_on_error() {
    let b = binary("app_a", 0x300, None, 0x180, 0x100, 0);
    let ok = template_outcome(&b, Ok("text".to_string())).unwrap();
    assert_eq!(ok, "text");

    let vars: std::collections::HashMap<&str, &str> = std::collections::HashMap::new();
    let rendered = subst::substitute("$MISSING", &vars);
    assert!(rendered.is_err());
    let err = template_outcome(&b, rendered).unwrap_err();
    assert_eq!(err.binary, "app_a");
    assert!(matches!(err.failure, LdFailure::Template(_)));
}
