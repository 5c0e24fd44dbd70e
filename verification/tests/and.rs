use gameboy::cpu::Cpu;
use gameboy::mmu::Mmu;

fn init(memory: Option<&[u8]>) -> (Cpu, Mmu) {
    let cpu = Cpu::new();
    let mut mmu = Mmu::new();
    if let Some(bytes) = memory {
        mmu.set_bytes(bytes);
    }
    (cpu, mmu)
}

fn run(cpu: &mut Cpu, mmu: &mut Mmu, cycles: usize, index: usize) {
    let prev: usize = cpu.cycles;
    cpu.execute(mmu, index);
    assert_eq!(cpu.cycles, prev + cycles);
}

#[test]
fn test_and_r() {
    let (mut cpu, mut ram) = init(None);
    cpu.a = 0xA3;
    cpu.b = 0x11;
    let expected: u8 = cpu.a & cpu.b;
    run(&mut cpu, &mut ram, 4, 0xA0);
    assert_eq!(cpu.a, expected);
    assert_eq!(cpu.f.z(), expected == 0);
    assert!(!cpu.f.n());
    assert!(cpu.f.h());
    assert!(!cpu.f.c());
    cpu.a = 0xA0;
    cpu.b = 0x1;
    let expected: u8 = cpu.a & cpu.b;
    run(&mut cpu, &mut ram, 4, 0xA0);
    assert_eq!(cpu.a, expected);
    assert_eq!(cpu.f.z(), expected == 0);
    assert!(!cpu.f.n());
    assert!(cpu.f.h());
    assert!(!cpu.f.c());
    let (mut cpu, mut ram) = init(None);
    cpu.a = 0xA3;
    cpu.c = 0x11;
    let expected: u8 = cpu.a & cpu.c;
    run(&mut cpu, &mut ram, 4, 0xA1);
    assert_eq!(cpu.a, expected);
    assert_eq!(cpu.f.z(), expected == 0);
    assert!(!cpu.f.n());
    assert!(cpu.f.h());
    assert!(!cpu.f.c());
    cpu.a = 0xA0;
    cpu.c = 0x1;
    let expected: u8 = cpu.a & cpu.c;
    run(&mut cpu, &mut ram, 4, 0xA1);
    assert_eq!(cpu.a, expected);
    assert_eq!(cpu.f.z(), expected == 0);
    assert!(!cpu.f.n());
    assert!(cpu.f.h());
    assert!(!cpu.f.c());
    let (mut cpu, mut ram) = init(None);
    cpu.a = 0xA3;
    cpu.d = 0x11;
    let expected: u8 = cpu.a & cpu.d;
    run(&mut cpu, &mut ram, 4, 0xA2);
    assert_eq!(cpu.a, expected);
    assert_eq!(cpu.f.z(), expected == 0);
    assert!(!cpu.f.n());
    assert!(cpu.f.h());
    assert!(!cpu.f.c());
    cpu.a = 0xA0;
    cpu.d = 0x1;
    let expected: u8 = cpu.a & cpu.d;
    run(&mut cpu, &mut ram, 4, 0xA2);
    assert_eq!(cpu.a, expected);
    assert_eq!(cpu.f.z(), expected == 0);
    assert!(!cpu.f.n());
    assert!(cpu.f.h());
    assert!(!cpu.f.c());
    let (mut cpu, mut ram) = init(None);
    cpu.a = 0xA3;
    cpu.e = 0x11;
    let expected: u8 = cpu.a & cpu.e;
    run(&mut cpu, &mut ram, 4, 0xA3);
    assert_eq!(cpu.a, expected);
    assert_eq!(cpu.f.z(), expected == 0);
    assert!(!cpu.f.n());
    assert!(cpu.f.h());
    assert!(!cpu.f.c());
    cpu.a = 0xA0;
    cpu.e = 0x1;
    let expected: u8 = cpu.a & cpu.e;
    run(&mut cpu, &mut ram, 4, 0xA3);
    assert_eq!(cpu.a, expected);
    assert_eq!(cpu.f.z(), expected == 0);
    assert!(!cpu.f.n());
    assert!(cpu.f.h());
    assert!(!cpu.f.c());
    let (mut cpu, mut ram) = init(None);
    cpu.a = 0xA3;
    cpu.h = 0x11;
    let expected: u8 = cpu.a & cpu.h;
    run(&mut cpu, &mut ram, 4, 0xA4);
    assert_eq!(cpu.a, expected);
    assert_eq!(cpu.f.z(), expected == 0);
    assert!(!cpu.f.n());
    assert!(cpu.f.h());
    assert!(!cpu.f.c());
    cpu.a = 0xA0;
    cpu.h = 0x1;
    let expected: u8 = cpu.a & cpu.h;
    run(&mut cpu, &mut ram, 4, 0xA4);
    assert_eq!(cpu.a, expected);
    assert_eq!(cpu.f.z(), expected == 0);
    assert!(!cpu.f.n());
    assert!(cpu.f.h());
    assert!(!cpu.f.c());
    let (mut cpu, mut ram) = init(None);
    cpu.a = 0xA3;
    cpu.l = 0x11;
    let expected: u8 = cpu.a & cpu.l;
    run(&mut cpu, &mut ram, 4, 0xA5);
    assert_eq!(cpu.a, expected);
    assert_eq!(cpu.f.z(), expected == 0);
    assert!(!cpu.f.n());
    assert!(cpu.f.h());
    assert!(!cpu.f.c());
    cpu.a = 0xA0;
    cpu.l = 0x1;
    let expected: u8 = cpu.a & cpu.l;
    run(&mut cpu, &mut ram, 4, 0xA5);
    assert_eq!(cpu.a, expected);
    assert_eq!(cpu.f.z(), expected == 0);
    assert!(!cpu.f.n());
    assert!(cpu.f.h());
    assert!(!cpu.f.c());
    let (mut cpu, mut ram) = init(None);
    cpu.a = 0xA3;
    cpu.a = 0x11;
    let expected: u8 = cpu.a & cpu.a;
    run(&mut cpu, &mut ram, 4, 0xA7);
    assert_eq!(cpu.a, expected);
    assert_eq!(cpu.f.z(), expected == 0);
    assert!(!cpu.f.n());
    assert!(cpu.f.h());
    assert!(!cpu.f.c());
    cpu.a = 0xA0;
    cpu.a = 0x1;
    let expected: u8 = cpu.a & cpu.a;
    run(&mut cpu, &mut ram, 4, 0xA7);
    assert_eq!(cpu.a, expected);
    assert_eq!(cpu.f.z(), expected == 0);
    assert!(!cpu.f.n());
    assert!(cpu.f.h());
    assert!(!cpu.f.c());
}

#[test]
fn test_and_a_deref_hl() {
    let (mut cpu, mut ram) = init(None);
    cpu.h = 0x1F;
    cpu.l = 0x1;
    cpu.a = 0xA3;
    ram.write_u8(0x1F01, 0x11);
    let expected: u8 = cpu.a & ram.read_u8(0x1F01);
    run(&mut cpu, &mut ram, 8, 0xA6);
    assert_eq!(cpu.a, expected);
    assert_eq!(cpu.f.z(), expected == 0);
    assert!(!cpu.f.n());
    assert!(cpu.f.h());
    assert!(!cpu.f.c());
    cpu.a = 0xA0;
    ram.write_u8(0x1F01, 0x1);
    let expected: u8 = cpu.a & ram.read_u8(0x1F01);
    run(&mut cpu, &mut ram, 8, 0xA6);
    assert_eq!(cpu.a, expected);
    assert_eq!(cpu.f.z(), expected == 0);
    assert!(!cpu.f.n());
    assert!(cpu.f.h());
    assert!(!cpu.f.c());
}
