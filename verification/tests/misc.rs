use gameboy::cpu::Cpu;
use gameboy::mmu::Mmu;

fn init(memory: Option<&[u8]>) -> (Cpu, Mmu) {
    let cpu = Cpu::new();
    let mut mmu = Mmu::new();
    if let Some(bytes) = memory {
        mmu.set_bytes(bytes);
    }
    (cpu, mmu)
}

fn run(cpu: &mut Cpu, mmu: &mut Mmu, cycles: usize, index: usize) {
    let prev: usize = cpu.cycles;
    cpu.execute(mmu, index);
    assert_eq!(cpu.cycles, prev + cycles);
}

#[test]
fn test_cpl() {
    let (mut cpu, mut ram) = init(None);
    cpu.a = 0x13;
    let expected: u8 = 0xEC;

    assert!(!cpu.f.z());
    assert!(!cpu.f.c());
    assert!(!cpu.f.n());
    assert!(!cpu.f.h());
    run(&mut cpu, &mut ram, 4, 0x2F);
    assert!(!cpu.f.z());
    assert!(!cpu.f.c());
    assert!(cpu.f.n());
    assert!(cpu.f.h());
    assert_eq!(cpu.a, expected);
}

#[test]
fn test_scf() {
    let (mut cpu, mut ram) = init(None);
    assert!(!cpu.f.z());
    assert!(!cpu.f.c());
    assert!(!cpu.f.n());
    assert!(!cpu.f.h());
    run(&mut cpu, &mut ram, 4, 0x37);
    assert!(!cpu.f.z());
    assert!(cpu.f.c());
    assert!(!cpu.f.n());
    assert!(!cpu.f.h());
}
