use gbc_emulator::cartridge::load;
use gbc_emulator::cpu::registers::Registers;
use gbc_emulator::cpu::Cpu;
use gbc_emulator::mmu::Mmu;

/// A ROM-only cartridge with `program` at 0x0100, a CPU at boot state and its bus.
fn machine_with(program: &[u8]) -> (Cpu, Mmu) {
    let mut rom = vec![0u8; 0x8000];
    rom[0x100..0x100 + program.len()].copy_from_slice(program);
    (Cpu::new(false), Mmu::new(load(rom), false))
}

#[test]
fn test_registers_boot_values() {
    let r = Registers::new(false);
    assert_eq!(r.af(), 0x01B0);
    assert_eq!(r.bc(), 0x0013);
    assert_eq!(r.de(), 0x00D8);
    assert_eq!(r.hl(), 0x014D);
    assert_eq!(r.sp, 0xFFFE);
    assert_eq!(r.pc, 0x0100);
    assert!(r.flag_z() && !r.flag_n() && r.flag_h() && r.flag_c());
    assert_eq!(Registers::new(true).a, 0x11);
}

#[test]
fn test_register_pairs_write_read() {
    let mut r = Registers::new(false);
    r.set_bc(0x1234);
    r.set_de(0x5678);
    r.set_hl(0x9ABC);
    r.set_af(0x12FF);
    assert_eq!(r.bc(), 0x1234);
    assert_eq!((r.b, r.c), (0x12, 0x34));
    assert_eq!(r.de(), 0x5678);
    assert_eq!(r.hl(), 0x9ABC);
    // The low nibble of F always reads as zero.
    assert_eq!(r.af(), 0x12F0);
}

#[test]
fn test_flag_setters() {
    let mut r = Registers::new(false);
    r.set_flags(false, true, false, true);
    assert_eq!(r.f, 0x50);
    r.set_z(true);
    r.set_c(false);
    assert_eq!(r.f, 0xC0);
    r.set_n(false);
    r.set_h(true);
    assert_eq!(r.f, 0xA0);
    assert!(r.flag_z() && !r.flag_n() && r.flag_h() && !r.flag_c());
}

#[test]
fn test_alu_add_carries() {
    let mut cpu = Cpu::new(false);
    cpu.regs.a = 0x3A;
    cpu.alu_add(0xC6, false);
    assert_eq!(cpu.regs.a, 0x00);
    assert_eq!(cpu.regs.f, 0xB0);
    cpu.regs.a = 0x0F;
    cpu.alu_add(0x00, true);
    assert_eq!(cpu.regs.a, 0x10);
    assert_eq!(cpu.regs.f, 0x20);
}

#[test]
fn test_alu_sub_and_cp() {
    let mut cpu = Cpu::new(false);
    cpu.regs.a = 0x3B;
    cpu.regs.f = 0x10;
    cpu.alu_sub(0x2A, true, true);
    assert_eq!(cpu.regs.a, 0x10);
    assert_eq!(cpu.regs.f, 0x40);
    cpu.regs.a = 0x3E;
    cpu.alu_cp(0x3E);
    assert_eq!(cpu.regs.a, 0x3E);
    assert_eq!(cpu.regs.f, 0xC0);
    cpu.alu_cp(0x40);
    assert_eq!(cpu.regs.f, 0x50);
}

#[test]
fn test_alu_logic() {
    let mut cpu = Cpu::new(false);
    cpu.regs.a = 0x5A;
    cpu.alu_and(0x3F);
    assert_eq!((cpu.regs.a, cpu.regs.f), (0x1A, 0x20));
    cpu.alu_or(0x00);
    assert_eq!((cpu.regs.a, cpu.regs.f), (0x1A, 0x00));
    cpu.alu_xor(0x1A);
    assert_eq!((cpu.regs.a, cpu.regs.f), (0x00, 0x80));
}

#[test]
fn test_alu_inc_dec() {
    let mut cpu = Cpu::new(false);
    cpu.regs.f = 0x10;
    assert_eq!(cpu.alu_inc(0x0F), 0x10);
    assert_eq!(cpu.regs.f, 0x30);
    assert_eq!(cpu.alu_inc(0xFF), 0x00);
    assert_eq!(cpu.regs.f, 0xB0);
    assert_eq!(cpu.alu_dec(0x10), 0x0F);
    assert_eq!(cpu.regs.f, 0x70);
    assert_eq!(cpu.alu_dec(0x01), 0x00);
    assert_eq!(cpu.regs.f, 0xD0);
}

#[test]
fn test_alu_rotates_and_shifts() {
    let mut cpu = Cpu::new(false);
    assert_eq!(cpu.alu_rlc(0x85), 0x0B);
    assert_eq!(cpu.regs.f, 0x10);
    assert_eq!(cpu.alu_rrc(0x01), 0x80);
    assert_eq!(cpu.regs.f, 0x10);
    // RL shifts the carry in.
    assert_eq!(cpu.alu_rl(0x80), 0x01);
    assert_eq!(cpu.regs.f, 0x10);
    assert_eq!(cpu.alu_rr(0x01), 0x80);
    assert_eq!(cpu.regs.f, 0x10);
    assert_eq!(cpu.alu_sla(0x80), 0x00);
    assert_eq!(cpu.regs.f, 0x90);
    assert_eq!(cpu.alu_sra(0x8A), 0xC5);
    assert_eq!(cpu.regs.f, 0x00);
    assert_eq!(cpu.alu_srl(0x01), 0x00);
    assert_eq!(cpu.regs.f, 0x90);
    assert_eq!(cpu.alu_swap(0xF0), 0x0F);
    assert_eq!(cpu.regs.f, 0x00);
}

#[test]
fn test_alu_bit_keeps_carry() {
    let mut cpu = Cpu::new(false);
    cpu.regs.f = 0x10;
    cpu.alu_bit(7, 0x7F);
    assert_eq!(cpu.regs.f, 0xB0);
    cpu.alu_bit(0, 0x01);
    assert_eq!(cpu.regs.f, 0x30);
}

#[test]
fn test_step_load_and_add() {
    let (mut cpu, mut mmu) = machine_with(&[0x3E, 0x12, 0x47, 0x80]);
    assert_eq!(cpu.step(&mut mmu), 8);
    assert_eq!(cpu.regs.a, 0x12);
    assert_eq!(cpu.step(&mut mmu), 4);
    assert_eq!(cpu.regs.b, 0x12);
    assert_eq!(cpu.step(&mut mmu), 4);
    assert_eq!(cpu.regs.a, 0x24);
    assert_eq!(cpu.regs.f, 0x00);
    assert_eq!(cpu.regs.pc, 0x0104);
}

#[test]
fn test_step_call_ret() {
    let mut program = vec![0u8; 0x200];
    program[0..3].copy_from_slice(&[0xCD, 0x00, 0x02]);
    program[0x100] = 0xC9;
    let (mut cpu, mut mmu) = machine_with(&program);
    assert_eq!(cpu.step(&mut mmu), 24);
    assert_eq!(cpu.regs.pc, 0x0200);
    assert_eq!(cpu.regs.sp, 0xFFFC);
    assert_eq!(mmu.read_byte(0xFFFD), 0x01);
    assert_eq!(mmu.read_byte(0xFFFC), 0x03);
    assert_eq!(cpu.step(&mut mmu), 16);
    assert_eq!(cpu.regs.pc, 0x0103);
    assert_eq!(cpu.regs.sp, 0xFFFE);
}

#[test]
fn test_step_push_pop() {
    let (mut cpu, mut mmu) = machine_with(&[0xC5, 0xD1, 0xF5, 0xC1]);
    assert_eq!(cpu.step(&mut mmu), 16);
    assert_eq!(cpu.step(&mut mmu), 12);
    assert_eq!(cpu.regs.de(), 0x0013);
    assert_eq!(cpu.regs.sp, 0xFFFE);
    cpu.step(&mut mmu);
    cpu.step(&mut mmu);
    assert_eq!(cpu.regs.bc(), 0x01B0);
}

#[test]
fn test_step_jr() {
    let (mut cpu, mut mmu) = machine_with(&[0x18, 0xFE]);
    assert_eq!(cpu.step(&mut mmu), 12);
    assert_eq!(cpu.regs.pc, 0x0100);
    // Z is set at boot: JR NZ is not taken.
    let (mut cpu, mut mmu) = machine_with(&[0x20, 0x05, 0x28, 0x05]);
    assert_eq!(cpu.step(&mut mmu), 8);
    assert_eq!(cpu.regs.pc, 0x0102);
    assert_eq!(cpu.step(&mut mmu), 12);
    assert_eq!(cpu.regs.pc, 0x0109);
}

#[test]
fn test_step_daa() {
    let (mut cpu, mut mmu) = machine_with(&[0x3E, 0x15, 0xC6, 0x27, 0x27]);
    cpu.step(&mut mmu);
    cpu.step(&mut mmu);
    assert_eq!(cpu.regs.a, 0x3C);
    assert_eq!(cpu.step(&mut mmu), 4);
    assert_eq!(cpu.regs.a, 0x42);
    assert_eq!(cpu.regs.f, 0x00);
    let (mut cpu, mut mmu) = machine_with(&[0x3E, 0x42, 0xD6, 0x15, 0x27]);
    cpu.step(&mut mmu);
    cpu.step(&mut mmu);
    assert_eq!(cpu.regs.a, 0x2D);
    cpu.step(&mut mmu);
    assert_eq!(cpu.regs.a, 0x27);
    assert_eq!(cpu.regs.f, 0x40);
}

#[test]
fn test_step_cb_prefix() {
    let (mut cpu, mut mmu) = machine_with(&[0x3E, 0xF0, 0xCB, 0x37, 0xCB, 0x7F, 0xCB, 0xC0, 0xCB, 0x80]);
    cpu.step(&mut mmu);
    assert_eq!(cpu.step(&mut mmu), 8);
    assert_eq!(cpu.regs.a, 0x0F);
    assert_eq!(cpu.regs.f, 0x00);
    assert_eq!(cpu.step(&mut mmu), 8);
    assert_eq!(cpu.regs.f, 0xA0);
    cpu.step(&mut mmu);
    assert_eq!(cpu.regs.b, 0x01);
    cpu.step(&mut mmu);
    assert_eq!(cpu.regs.b, 0x00);
}

#[test]
fn test_step_cb_on_memory() {
    // LD HL,0xC000; LD (HL),0x81; RLC (HL); SET 1,(HL)
    let (mut cpu, mut mmu) = machine_with(&[0x21, 0x00, 0xC0, 0x36, 0x81, 0xCB, 0x06, 0xCB, 0xCE]);
    cpu.step(&mut mmu);
    assert_eq!(cpu.step(&mut mmu), 12);
    assert_eq!(cpu.step(&mut mmu), 16);
    assert_eq!(mmu.read_byte(0xC000), 0x03);
    assert_eq!(cpu.regs.f, 0x10);
    assert_eq!(cpu.step(&mut mmu), 16);
    assert_eq!(mmu.read_byte(0xC000), 0x03);
}

#[test]
fn test_interrupt_after_ei_delay() {
    let (mut cpu, mut mmu) = machine_with(&[0xFB, 0x00, 0x00]);
    mmu.write_byte(0xFFFF, 0x04);
    mmu.write_byte(0xFF0F, 0x04);
    assert_eq!(cpu.step(&mut mmu), 4); // EI
    assert!(!cpu.ime);
    assert_eq!(cpu.step(&mut mmu), 4); // NOP; IME becomes set before it
    assert!(cpu.ime);
    assert_eq!(cpu.regs.pc, 0x0102);
    assert_eq!(cpu.step(&mut mmu), 20); // timer interrupt served
    assert_eq!(cpu.regs.pc, 0x0050);
    assert!(!cpu.ime);
    assert_eq!(cpu.regs.sp, 0xFFFC);
    assert_eq!(mmu.read_byte(0xFFFC), 0x02);
    assert_eq!(mmu.read_byte(0xFFFD), 0x01);
    assert_eq!(mmu.read_byte(0xFF0F), 0xE0);
}

#[test]
fn test_interrupt_priority() {
    let (mut cpu, mut mmu) = machine_with(&[0x00]);
    cpu.ime = true;
    mmu.write_byte(0xFFFF, 0x1F);
    mmu.write_byte(0xFF0F, 0x0A);
    assert_eq!(cpu.step(&mut mmu), 20);
    assert_eq!(cpu.regs.pc, 0x0048);
    assert_eq!(mmu.read_byte(0xFF0F), 0xE8);
}

#[test]
fn test_halt_wakes_without_ime() {
    let (mut cpu, mut mmu) = machine_with(&[0x76, 0x00]);
    assert_eq!(cpu.step(&mut mmu), 4);
    assert!(cpu.halted);
    assert_eq!(cpu.step(&mut mmu), 4);
    assert!(cpu.halted);
    assert_eq!(cpu.regs.pc, 0x0101);
    mmu.write_byte(0xFFFF, 0x01);
    mmu.write_byte(0xFF0F, 0x01);
    assert_eq!(cpu.step(&mut mmu), 4);
    assert!(!cpu.halted);
    assert_eq!(cpu.regs.pc, 0x0102);
}

#[test]
fn test_step_ldh() {
    let (mut cpu, mut mmu) = machine_with(&[0x3E, 0x5A, 0xE0, 0x80, 0x3E, 0x00, 0xF0, 0x80]);
    cpu.step(&mut mmu);
    assert_eq!(cpu.step(&mut mmu), 12);
    assert_eq!(mmu.read_byte(0xFF80), 0x5A);
    cpu.step(&mut mmu);
    assert_eq!(cpu.step(&mut mmu), 12);
    assert_eq!(cpu.regs.a, 0x5A);
}

#[test]
fn test_step_sp_offsets() {
    let (mut cpu, mut mmu) = machine_with(&[0x31, 0xF8, 0xFF, 0xE8, 0x02, 0xE8, 0xFE, 0xF8, 0x01]);
    assert_eq!(cpu.step(&mut mmu), 12);
    assert_eq!(cpu.regs.sp, 0xFFF8);
    assert_eq!(cpu.step(&mut mmu), 16);
    assert_eq!(cpu.regs.sp, 0xFFFA);
    assert_eq!(cpu.regs.f, 0x00);
    cpu.step(&mut mmu);
    assert_eq!(cpu.regs.sp, 0xFFF8);
    assert_eq!(cpu.regs.f, 0x30);
    assert_eq!(cpu.step(&mut mmu), 12);
    assert_eq!(cpu.regs.hl(), 0xFFF9);
    assert_eq!(cpu.regs.f, 0x00);
}

#[test]
fn test_step_add_hl() {
    let (mut cpu, mut mmu) = machine_with(&[0x21, 0xFF, 0x0F, 0x01, 0x01, 0x00, 0x09]);
    cpu.step(&mut mmu);
    cpu.step(&mut mmu);
    assert_eq!(cpu.step(&mut mmu), 8);
    assert_eq!(cpu.regs.hl(), 0x1000);
    assert_eq!(cpu.regs.f, 0xA0);
}

#[test]
fn test_step_inc_memory() {
    let (mut cpu, mut mmu) = machine_with(&[0x21, 0x00, 0xC0, 0x36, 0x0F, 0x34]);
    cpu.step(&mut mmu);
    assert_eq!(cpu.step(&mut mmu), 12);
    assert_eq!(cpu.step(&mut mmu), 12);
    assert_eq!(mmu.read_byte(0xC000), 0x10);
    assert_eq!(cpu.regs.f, 0x30);
}

#[test]
fn test_step_hl_increment_loads() {
    // LD HL,0xC000; LD A,0x77; LD (HL+),A; LD (HL-),A; LD A,(HL+)
    let (mut cpu, mut mmu) = machine_with(&[0x21, 0x00, 0xC0, 0x3E, 0x77, 0x22, 0x32, 0x2A]);
    cpu.step(&mut mmu);
    cpu.step(&mut mmu);
    assert_eq!(cpu.step(&mut mmu), 8);
    assert_eq!(cpu.regs.hl(), 0xC001);
    cpu.step(&mut mmu);
    assert_eq!(cpu.regs.hl(), 0xC000);
    assert_eq!(mmu.read_byte(0xC001), 0x77);
    cpu.step(&mut mmu);
    assert_eq!(cpu.regs.a, 0x77);
    assert_eq!(cpu.regs.hl(), 0xC001);
}

#[test]
fn test_step_store_sp() {
    let (mut cpu, mut mmu) = machine_with(&[0x08, 0x00, 0xC0]);
    assert_eq!(cpu.step(&mut mmu), 20);
    assert_eq!(mmu.read_byte(0xC000), 0xFE);
    assert_eq!(mmu.read_byte(0xC001), 0xFF);
}

#[test]
fn test_step_illegal_opcode_is_nop() {
    let (mut cpu, mut mmu) = machine_with(&[0xD3]);
    let before = cpu.regs.af();
    assert_eq!(cpu.step(&mut mmu), 4);
    assert_eq!(cpu.regs.pc, 0x0101);
    assert_eq!(cpu.regs.af(), before);
}

#[test]
fn test_step_stop() {
    let (mut cpu, mut mmu) = machine_with(&[0x10, 0x00]);
    assert_eq!(cpu.step(&mut mmu), 8);
    assert!(cpu.stopped);
    assert_eq!(cpu.regs.pc, 0x0102);
}

#[test]
fn test_step_accumulator_rotates() {
    let (mut cpu, mut mmu) = machine_with(&[0x3E, 0x85, 0x07, 0x1F, 0x2F, 0x37, 0x3F]);
    cpu.step(&mut mmu);
    cpu.step(&mut mmu);
    assert_eq!(cpu.regs.a, 0x0B);
    assert_eq!(cpu.regs.f, 0x10);
    cpu.step(&mut mmu); // RRA with carry in
    assert_eq!(cpu.regs.a, 0x85);
    assert_eq!(cpu.regs.f, 0x10);
    cpu.step(&mut mmu); // CPL
    assert_eq!(cpu.regs.a, 0x7A);
    assert_eq!(cpu.regs.f, 0x70);
    cpu.step(&mut mmu); // SCF
    assert_eq!(cpu.regs.f, 0x10);
    cpu.step(&mut mmu); // CCF
    assert_eq!(cpu.regs.f, 0x00);
}

#[test]
fn test_step_conditional_call_and_ret() {
    // Z set at boot: CALL NZ not taken (12 cycles), CALL Z taken, RET NC not taken... C set.
    let mut program = vec![0u8; 0x200];
    program[0..6].copy_from_slice(&[0xC4, 0x00, 0x02, 0xCC, 0x00, 0x02]);
    program[0x100] = 0xD0; // RET NC (C set at boot: not taken)
    program[0x101] = 0xD8; // RET C
    let (mut cpu, mut mmu) = machine_with(&program);
    assert_eq!(cpu.step(&mut mmu), 12);
    assert_eq!(cpu.regs.pc, 0x0103);
    assert_eq!(cpu.step(&mut mmu), 24);
    assert_eq!(cpu.regs.pc, 0x0200);
    assert_eq!(cpu.step(&mut mmu), 8);
    assert_eq!(cpu.regs.pc, 0x0201);
    assert_eq!(cpu.step(&mut mmu), 20);
    assert_eq!(cpu.regs.pc, 0x0106);
}

#[test]
fn test_step_rst_and_jp_hl() {
    let (mut cpu, mut mmu) = machine_with(&[0xEF]);
    assert_eq!(cpu.step(&mut mmu), 16);
    assert_eq!(cpu.regs.pc, 0x0028);
    let (mut cpu, mut mmu) = machine_with(&[0xE9]);
    assert_eq!(cpu.step(&mut mmu), 4);
    assert_eq!(cpu.regs.pc, 0x014D);
}

#[test]
fn test_alu_inverse_pairs() {
    let mut cpu = Cpu::new(false);
    for x in [0x00u8, 0x01, 0x5A, 0x80, 0xFF] {
        let s = cpu.alu_swap(x);
        assert_eq!(cpu.alu_swap(s), x);
        let r = cpu.alu_rlc(x);
        assert_eq!(cpu.alu_rrc(r), x);
        cpu.regs.a = x;
        cpu.alu_add(0x37, false);
        let carry = cpu.regs.flag_c();
        cpu.alu_sub(0x37, false, true);
        assert_eq!(cpu.regs.a, x);
        assert_eq!(cpu.regs.flag_c(), carry);
    }
}

#[test]
fn test_rl_then_rr_restores() {
    let mut cpu = Cpu::new(false);
    cpu.regs.f = 0x00;
    let r = cpu.alu_rl(0xC3); // carry out = 1, carry in = 0
    assert_eq!(r, 0x86);
    assert!(cpu.regs.flag_c());
    assert_eq!(cpu.alu_rr(r), 0xC3);
}

#[test]
fn test_execute_push_then_pop() {
    let (mut cpu, mut mmu) = machine_with(&[]);
    cpu.regs.sp = 0xD000;
    cpu.regs.set_bc(0xBEEF);
    let de_before = cpu.regs.de();
    cpu.execute(&mut mmu, 0xC5); // PUSH BC
    assert_eq!(cpu.regs.sp, 0xCFFE);
    assert_eq!(cpu.regs.de(), de_before);
    cpu.execute(&mut mmu, 0xD1); // POP DE
    assert_eq!(cpu.regs.de(), 0xBEEF);
    assert_eq!(cpu.regs.bc(), 0xBEEF);
    assert_eq!(cpu.regs.sp, 0xD000);
    cpu.execute(&mut mmu, 0xC5); // PUSH BC
    cpu.execute(&mut mmu, 0xF1); // POP AF: the low nibble of F is dropped
    assert_eq!(cpu.regs.af(), 0xBEE0);
}
