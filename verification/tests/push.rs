use gameboy::cpu::Cpu;
use gameboy::mmu::Mmu;

fn init(memory: Option<&[u8]>) -> (Cpu, Mmu) {
    let cpu = Cpu::new();
    let mut mmu = Mmu::new();
    if let Some(bytes) = memory {
        mmu.set_bytes(bytes);
    }
    (cpu, mmu)
}

fn run(cpu: &mut Cpu, mmu: &mut Mmu, cycles: usize, index: usize) {
    let prev: usize = cpu.cycles;
    cpu.execute(mmu, index);
    assert_eq!(cpu.cycles, prev + cycles);
}

#[test]
fn test_push() {
    let (mut cpu, mut mmu) = init(None);
    cpu.reset();

    cpu.b = 0x12;
    cpu.c = 0x34;

    run(&mut cpu, &mut mmu, 16, 0xC5);

    assert_eq!(mmu.read_u8(cpu.sp + 1), 0x34);
    assert_eq!(mmu.read_u8(cpu.sp + 2), 0x12);
    assert_eq!(cpu.sp, 0xFFFE - 2);
    let (mut cpu, mut mmu) = init(None);
    cpu.reset();

    cpu.d = 0x12;
    cpu.e = 0x34;

    run(&mut cpu, &mut mmu, 16, 0xD5);

    assert_eq!(mmu.read_u8(cpu.sp + 1), 0x34);
    assert_eq!(mmu.read_u8(cpu.sp + 2), 0x12);
    assert_eq!(cpu.sp, 0xFFFE - 2);
    let (mut cpu, mut mmu) = init(None);
    cpu.reset();

    cpu.h = 0x12;
    cpu.l = 0x34;

    run(&mut cpu, &mut mmu, 16, 0xE5);

    assert_eq!(mmu.read_u8(cpu.sp + 1), 0x34);
    assert_eq!(mmu.read_u8(cpu.sp + 2), 0x12);
    assert_eq!(cpu.sp, 0xFFFE - 2);
    let (mut cpu, mut mmu) = init(None);
    cpu.reset();

    cpu.a = 0x12;
    cpu.f.0 = 0x34;

    run(&mut cpu, &mut mmu, 16, 0xF5);

    assert_eq!(mmu.read_u8(cpu.sp + 1), 0x34);
    assert_eq!(mmu.read_u8(cpu.sp + 2), 0x12);
    assert_eq!(cpu.sp, 0xFFFE - 2);
}
