use gameboy::cpu::Cpu;
use gameboy::mmu::Mmu;

fn init(memory: Option<&[u8]>) -> (Cpu, Mmu) {
    let cpu = Cpu::new();
    let mut mmu = Mmu::new();
    if let Some(bytes) = memory {
        mmu.set_bytes(bytes);
    }
    (cpu, mmu)
}

fn run(cpu: &mut Cpu, mmu: &mut Mmu, cycles: usize, index: usize) {
    let prev: usize = cpu.cycles;
    cpu.execute(mmu, index);
    assert_eq!(cpu.cycles, prev + cycles);
}

#[test]
fn test_daa() {
    let (mut cpu, mut ram) = init(None);

    cpu.a = 0x13;
    cpu.b = 0x19;

    cpu.execute(&mut ram, 0x80);
    assert_eq!(cpu.a, 0x13 + 0x19);

    let expected: u8 = 0x32;

    run(&mut cpu, &mut ram, 4, 0x27);
    assert_eq!(cpu.a, expected);

    cpu.a = 0x90;
    cpu.b = 0x20;
    cpu.execute(&mut ram, 0x80);
    assert_eq!(cpu.a, 0x90 + 0x20);

    assert!(!cpu.f.z());
    assert!(!cpu.f.n());
    assert!(!cpu.f.h());
    assert!(!cpu.f.c());

    let expected: u8 = 0x10;

    run(&mut cpu, &mut ram, 4, 0x27);

    assert!(!cpu.f.z());
    assert!(!cpu.f.n());
    assert!(!cpu.f.h());
    assert!(cpu.f.c());
    assert_eq!(cpu.a, expected);
}
