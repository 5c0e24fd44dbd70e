use gameboy::cpu::Cpu;
use gameboy::mmu::Mmu;

fn init(memory: Option<&[u8]>) -> (Cpu, Mmu) {
    let cpu = Cpu::new();
    let mut mmu = Mmu::new();
    if let Some(bytes) = memory {
        mmu.set_bytes(bytes);
    }
    (cpu, mmu)
}

fn run(cpu: &mut Cpu, mmu: &mut Mmu, cycles: usize, index: usize) {
    let prev: usize = cpu.cycles;
    cpu.execute(mmu, index);
    assert_eq!(cpu.cycles, prev + cycles);
}
use gameboy::cpu::RunState;

#[test]
fn test_stop() {
    let (mut cpu, mut ram) = init(None);
    cpu.reset();
    assert_eq!(cpu.run_state, RunState::Running);
    run(&mut cpu, &mut ram, 4, 0x10);
    assert_eq!(cpu.run_state, RunState::Stopped);
}

#[test]
fn test_halt() {
    let (mut cpu, mut ram) = init(None);
    cpu.reset();
    assert_eq!(cpu.run_state, RunState::Running);
    run(&mut cpu, &mut ram, 4, 0x76);
    assert_eq!(cpu.run_state, RunState::Halted);
}
