use vstd::prelude::*;

use crate::cpu::{Cpu, ExecutionError, family, inc16, refusal, set_pc};
use crate::instructions::{Instruction, decode, decode_prefix};
use crate::interrupts::{Interrupt, InterruptFlags};
use crate::mbc::{CreateError, accepts, new_mbc_from_buffer};
use crate::serial::LogSerial;
use crate::graphics::timing_next;
use crate::lcd::PpuMode;
use crate::system::System;
use crate::tile::zeros;
use crate::trace::{trace_line, trace_text};

verus! {

/// The PPU timing after the two PPU steps of one M-cycle, and whether
/// either step raised the V-blank interrupt.
pub open spec fn ppu_two_steps(t: (PpuMode, u16, u8)) -> ((PpuMode, u16, u8), bool) {
    let (m1, c1, l1, i1) = timing_next(t.0, t.1, t.2);
    let (m2, c2, l2, i2) = timing_next(m1, c1, l1);
    ((m2, c2, l2), i1 || i2)
}

/// Whether `fin` follows the processor's cycle that left it as `c`: when
/// the instruction `prior` did not retire, the processor is `c`; when it
/// retired, the next instruction was fetched: an interrupt's service routine
/// (IME cleared), or the byte at PC decoded (as a prefixed opcode after a
/// prefix) with PC stepped.
pub open spec fn after_cpu(c: Cpu, retired: bool, prior: Instruction, fin: Emulator) -> bool {
    if !retired {
        &&& fin.cpu.registers == c.registers
        &&& fin.cpu.current_instruction == c.current_instruction
        &&& fin.cpu.current_instruction_cycle == c.current_instruction_cycle
    } else {
        &&& fin.cpu.current_instruction_cycle == 0
        &&& ((fin.cpu.current_instruction is isr && fin.cpu.registers == c.registers
            && !fin.cpu.interrupt_enabled) || (fin.cpu.registers == set_pc(c.registers, inc16(c.registers.pc))
            && fin.cpu.current_instruction == if prior is prefix {
            decode_prefix(fin.system.bus_value(c.registers.pc))
        } else {
            decode(fin.system.bus_value(c.registers.pc))
        }))
    }
}

/// Whether `fin` is `old` after one M-cycle in which the running processor
/// went from `old.cpu` to `c` on the bus `d` (the bus after the DMA step),
/// leaving the bus `b`: the processor's cycle is as `Cpu::cycle_effect`
/// states, the timer then steps once from what the processor left, and the
/// next instruction is fetched after a retirement.
pub open spec fn cpu_cycle(old: Emulator, d: System, c: Cpu, b: System, fin: Emulator) -> bool {
    &&& (!old.system.oam_transfer ==> d == old.system)
    &&& d.io == old.system.io && d.mbc == old.system.mbc && d.w_ram@ == old.system.w_ram@
    &&& d.h_ram@ == old.system.h_ram@
    &&& old.cpu.cycle_effect(c, d, b)
    &&& fin.system.io.timer == b.io.timer.next()
    &&& old.system.io.timer.touched(b.io.timer)
    &&& after_cpu(c, old.cpu.completes(), old.cpu.current_instruction, fin)
}

/// The whole handheld: processor and bus, stepped one M-cycle at a time.
#[derive(Debug)]
pub struct Emulator {
    pub cpu: Cpu,
    pub system: System,
    pub graphics_enabled: bool,
    pub retired: usize,
}

impl Emulator {
    pub open spec fn wf(&self) -> bool {
        self.system.wf() && self.cpu.registers.wf()
    }

    /// An emulator running an empty 32 KiB cartridge.
    pub fn new() -> (r: Result<Self, CreateError>)
        ensures
            r is Ok,
            r->Ok_0.wf(),
    {
        let rom = zeros(0x8000);
        proof {
            assert(rom@[0x0147] == 0);
            assert(rom@[0x0148] == 0);
            assert(rom@[0x0149] == 0);
        }
        Emulator::new_from_buffer(rom, true, None, None)
    }

    /// Builds an emulator for a ROM image. The processor is `cpu_option`, or
    /// the post-boot state; the serial port is `serial_option`, or a fresh
    /// text capture. The instruction at PC is fetched at once.
    pub fn new_from_buffer(
        rom: Vec<u8>,
        graphics_enabled: bool,
        cpu_option: Option<Cpu>,
        serial_option: Option<LogSerial>,
    ) -> (r: Result<Self, CreateError>)
        ensures
            r is Ok <==> accepts(rom@),
            r is Ok ==> r->Ok_0.system.wf(),
            r is Ok ==> r->Ok_0.graphics_enabled == graphics_enabled,
            r is Ok ==> r->Ok_0.retired == 0,
            r is Ok && cpu_option is Some ==> ({
                let c = cpu_option->Some_0;
                let e = r->Ok_0;
                &&& e.cpu.current_instruction == decode(e.system.bus_value(c.registers.pc))
                &&& e.cpu.registers == (crate::registers::Registers {
                    pc: ((c.registers.pc as int + 1) % 0x10000) as u16,
                    ..c.registers
                })
                &&& e.cpu.current_instruction_cycle == 0
            }),
            r is Ok && cpu_option is None ==> ({
                let e = r->Ok_0;
                &&& e.wf()
                &&& e.cpu.registers == set_pc(
                    Cpu::boot_registers(
                        if e.system.bus_value(0x014D) == 0 {
                            0x80u8
                        } else {
                            0xB0u8
                        },
                    ),
                    0x0101,
                )
                &&& e.cpu.current_instruction == decode(e.system.bus_value(0x0100))
                &&& e.cpu.current_instruction_cycle == 0
                &&& !e.cpu.interrupt_enabled
                &&& !e.cpu.interrupt_enable_pending
                &&& !e.cpu.halted
                &&& e.system.io.interrupt_enable == 0
                &&& e.system.io.interrupt_flags == InterruptFlags::from_bits(0)
                &&& !e.system.oam_transfer
            }),
            r is Ok && serial_option is Some ==> r->Ok_0.system.io.serial == serial_option->Some_0,
    {
        let cartridge = match new_mbc_from_buffer(rom) {
            Ok(c) => c,
            Err(e) => {
                return Err(e);
            },
        };
        let serial = match serial_option {
            Some(s) => s,
            None => LogSerial::default(),
        };
        let system = System::new(cartridge, serial);
        let cpu = match cpu_option {
            Some(c) => c,
            None => Cpu::new(&system),
        };
        let mut result = Emulator { cpu, system, graphics_enabled, retired: 0 };
        result.init();
        Ok(result)
    }

    /// Fetches the first instruction.
    fn init(&mut self)
        requires
            old(self).system.wf(),
        ensures
            final(self).system == old(self).system,
            final(self).graphics_enabled == old(self).graphics_enabled,
            final(self).retired == old(self).retired,
            final(self).cpu.current_instruction == decode(old(self).system.bus_value(old(self).cpu.registers.pc)),
            final(self).cpu.current_instruction_cycle == 0,
            final(self).cpu.registers == (crate::registers::Registers {
                pc: ((old(self).cpu.registers.pc as int + 1) % 0x10000) as u16,
                ..old(self).cpu.registers
            }),
            final(self).cpu.halted == old(self).cpu.halted,
            final(self).cpu.interrupt_enabled == old(self).cpu.interrupt_enabled,
            final(self).cpu.interrupt_enable_pending == old(self).cpu.interrupt_enable_pending,
    {
        let opcode = self.cpu.read_byte_pc(&self.system);
        self.cpu.current_instruction = Instruction::decode_instruction(opcode);
        self.cpu.current_instruction_cycle = 0;
    }

    /// The register trace line of the processor, with the four bytes the
    /// guest reads at PC, PC+1, PC+2 and PC+3.
    #[verifier::rlimit(100)]
    pub fn trace_line(&self) -> (r: Vec<u8>)
        requires
            self.system.wf(),
        ensures
            r@ == trace_text(
                self.cpu.registers,
                self.system.bus_value(self.cpu.registers.pc),
                self.system.bus_value(((self.cpu.registers.pc as int + 1) % 0x10000) as u16),
                self.system.bus_value(((self.cpu.registers.pc as int + 2) % 0x10000) as u16),
                self.system.bus_value(((self.cpu.registers.pc as int + 3) % 0x10000) as u16),
            ),
    {
        let pc = self.cpu.registers.pc;
        let m0 = self.system.read_byte(pc);
        let m1 = self.system.read_byte(pc.wrapping_add(1));
        let m2 = self.system.read_byte(pc.wrapping_add(2));
        let m3 = self.system.read_byte(pc.wrapping_add(3));
        trace_line(&self.cpu.registers, m0, m1, m2, m3)
    }

    /// Instructions retired so far, prefixes and service routines not counted.
    pub fn instruction_counter(&self) -> (r: usize)
        ensures
            r == self.retired,
    {
        self.retired
    }

    /// Whether an enabled interrupt is requested.
    pub open spec fn interrupt_pending(&self) -> bool {
        self.system.io.interrupt_flags.highest_pending(self.system.io.interrupt_enable) is Some
    }

    /// One M-cycle: the DMA transfer advances, the processor runs a cycle
    /// unless halted, the PPU takes two steps when graphics are enabled,
    /// the timer steps, the joypad latch is sampled, each raised source is
    /// requested in IF, HALT ends when an enabled interrupt is requested,
    /// and after a retired instruction the next one is fetched.
    /// Steps the PPU (twice, when graphics are enabled), the timer and the
    /// joypad latch; returns which of V-blank, timer and joypad were raised.
    fn advance_devices(&mut self) -> (r: (bool, bool, bool))
        requires
            old(self).system.wf(),
        ensures
            final(self).system.wf(),
            final(self).cpu == old(self).cpu,
            final(self).graphics_enabled == old(self).graphics_enabled,
            final(self).retired == old(self).retired,
            final(self).system.io.timer == old(self).system.io.timer.next(),
            r.1 == old(self).system.io.timer.pending_overflow,
            r.2 == old(self).system.io.joypad.interrupt,
            final(self).system.io.joypad == old(self).system.io.joypad.with_interrupt(false),
            final(self).system.io.interrupt_flags == old(self).system.io.interrupt_flags,
            final(self).system.io.interrupt_enable == old(self).system.io.interrupt_enable,
            final(self).system.oam_transfer == old(self).system.oam_transfer,
            final(self).system.oam_transfer_source == old(self).system.oam_transfer_source,
            final(self).system.oam_transfer_cycle == old(self).system.oam_transfer_cycle,
            final(self).system.mbc == old(self).system.mbc,
            final(self).system.w_ram@ == old(self).system.w_ram@,
            final(self).system.h_ram@ == old(self).system.h_ram@,
            final(self).system.io.serial == old(self).system.io.serial,
            !old(self).graphics_enabled ==> final(self).system.graphics == old(self).system.graphics
                && !r.0,
            old(self).graphics_enabled ==> final(self).system.ppu_timing() == ppu_two_steps(
                old(self).system.ppu_timing(),
            ).0 && r.0 == ppu_two_steps(old(self).system.ppu_timing()).1,
    {
        let mut v_blank_interrupt = false;
        if self.graphics_enabled {
            let first = self.system.graphics.step();
            let second = self.system.graphics.step();
            v_blank_interrupt = first || second;
        }
        let timer_interrupt = self.system.io.timer.step();
        let joypad_interrupt = self.system.io.joypad.interrupt();
        (v_blank_interrupt, timer_interrupt, joypad_interrupt)
    }

    /// Requests the raised sources in IF and ends HALT when an enabled
    /// interrupt is requested.
    fn post_interrupts(&mut self, v_blank: bool, timer: bool, joypad: bool)
        requires
            old(self).system.wf(),
        ensures
            final(self).system.wf(),
            final(self).cpu.registers == old(self).cpu.registers,
            final(self).cpu.current_instruction == old(self).cpu.current_instruction,
            final(self).graphics_enabled == old(self).graphics_enabled,
            final(self).retired == old(self).retired,
            final(self).cpu.halted ==> !final(self).interrupt_pending(),
            !old(self).cpu.halted ==> !final(self).cpu.halted,
            final(self).system.io.timer == old(self).system.io.timer,
            final(self).system.ppu_timing() == old(self).system.ppu_timing(),
            final(self).cpu.current_instruction_cycle == old(self).cpu.current_instruction_cycle,
            final(self).cpu.interrupt_enabled == old(self).cpu.interrupt_enabled,
            final(self).system.oam_transfer == old(self).system.oam_transfer,
            final(self).system.oam_transfer_source == old(self).system.oam_transfer_source,
            final(self).system.oam_transfer_cycle == old(self).system.oam_transfer_cycle,
            final(self).system.graphics == old(self).system.graphics,
            final(self).system.mbc == old(self).system.mbc,
            final(self).system.w_ram@ == old(self).system.w_ram@,
            final(self).system.h_ram@ == old(self).system.h_ram@,
            final(self).system.io.interrupt_enable == old(self).system.io.interrupt_enable,
            final(self).system.io.serial == old(self).system.io.serial,
            final(self).system.io.joypad == old(self).system.io.joypad,
            v_blank ==> final(self).system.io.interrupt_flags.v_blank,
            timer ==> final(self).system.io.interrupt_flags.timer,
            joypad ==> final(self).system.io.interrupt_flags.joypad,
    {
        if v_blank {
            self.cpu.request_interrupt(&mut self.system, Interrupt::VBlank);
        }
        if timer {
            self.cpu.request_interrupt(&mut self.system, Interrupt::Timer);
        }
        if joypad {
            self.cpu.request_interrupt(&mut self.system, Interrupt::Joypad);
        }
        if self.system.io.interrupt_flags.highest(self.system.io.interrupt_enable).is_some() {
            self.cpu.halted = false;
        }
    }

    /// Runs the processor's M-cycle unless it is halted; returns whether an
    /// instruction retired.
    fn advance_cpu(&mut self) -> (r: Result<bool, ExecutionError>)
        requires
            old(self).system.wf(),
        ensures
            final(self).system.wf(),
            old(self).cpu.registers.wf() ==> final(self).cpu.registers.wf(),
            !old(self).cpu.halted && family(old(self).cpu.current_instruction) == 7 <==> r is Err,
            r is Err ==> r == Err::<bool, ExecutionError>(refusal(old(self).cpu.current_instruction)),
            final(self).graphics_enabled == old(self).graphics_enabled,
            old(self).cpu.halted ==> final(self).system == old(self).system && r == Ok::<bool, ExecutionError>(false),
            old(self).system.cpu_keeps(final(self).system),
            final(self).cpu.current_instruction == old(self).cpu.current_instruction,
            !old(self).cpu.halted && r is Ok ==> old(self).cpu.cycle_effect(
                final(self).cpu,
                old(self).system,
                final(self).system,
            ),
            !old(self).cpu.halted && r is Ok ==> r == Ok::<bool, ExecutionError>(old(self).cpu.completes()),
            !old(self).cpu.halted && r is Ok && old(self).cpu.completes() ==> !final(self).cpu.halted,
            !old(self).cpu.halted && r is Ok && !old(self).cpu.completes() ==> final(self).cpu.current_instruction
                == old(self).cpu.current_instruction && final(self).cpu.current_instruction_cycle == (
            old(self).cpu.current_instruction_cycle + 1) as u8,
    {
        if self.cpu.halted {
            return Ok(false);
        }
        let prior = self.cpu.current_instruction;
        let done = self.cpu.step(&mut self.system)?;
        if done && !matches!(prior, Instruction::prefix) && !matches!(prior, Instruction::isr { .. })
            && self.retired < usize::MAX {
            self.retired = self.retired + 1;
        }
        Ok(done)
    }

    /// One M-cycle: the DMA transfer advances, the processor runs a cycle
    /// unless halted, the PPU takes two steps when graphics are enabled,
    /// the timer steps, the joypad latch is sampled, each raised source is
    /// requested in IF, HALT ends when an enabled interrupt is requested,
    /// and after a retired instruction the next one is fetched.
    pub fn step(&mut self) -> (r: Result<(), ExecutionError>)
        requires
            old(self).system.wf(),
        ensures
            final(self).system.wf(),
            old(self).cpu.registers.wf() ==> final(self).cpu.registers.wf(),
            !old(self).cpu.halted && family(old(self).cpu.current_instruction) == 7 <==> r is Err,
            r is Err ==> r == Err::<(), ExecutionError>(refusal(old(self).cpu.current_instruction)),
            r is Ok && final(self).cpu.halted ==> !final(self).interrupt_pending(),
            final(self).graphics_enabled == old(self).graphics_enabled,
            r is Ok && !old(self).cpu.halted && old(self).cpu.completes()
                ==> final(self).cpu.current_instruction_cycle == 0,
            r is Ok && old(self).graphics_enabled ==> final(self).system.ppu_timing() == ppu_two_steps(
                old(self).system.ppu_timing(),
            ).0,
            r is Ok && !old(self).graphics_enabled ==> final(self).system.ppu_timing()
                == old(self).system.ppu_timing(),
            r is Ok && old(self).graphics_enabled && ppu_two_steps(old(self).system.ppu_timing()).1
                ==> final(self).system.io.interrupt_flags.v_blank || final(self).cpu.current_instruction
                == (Instruction::isr { interrupt: Interrupt::VBlank }),
            r is Ok && !old(self).cpu.halted && !old(self).cpu.completes() ==> final(self).cpu.current_instruction
                == old(self).cpu.current_instruction && final(self).cpu.current_instruction_cycle == (
            old(self).cpu.current_instruction_cycle + 1) as u8,
            r is Ok && !old(self).cpu.halted ==> exists|d: System, c: Cpu, b: System|
                #[trigger] cpu_cycle(*old(self), d, c, b, *final(self)),
            r is Ok && old(self).system.io.timer.pending_overflow ==> final(self).system.io.interrupt_flags.timer
                || final(self).cpu.current_instruction == (Instruction::isr { interrupt: Interrupt::Timer }),
            r is Ok && old(self).system.io.joypad.interrupt ==> final(self).system.io.interrupt_flags.joypad
                || final(self).cpu.current_instruction == (Instruction::isr { interrupt: Interrupt::Joypad }),
            r is Ok && old(self).system.oam_transfer && old(self).system.oam_transfer_cycle < 162
                ==> final(self).system.oam_transfer && final(self).system.oam_transfer_cycle
                == old(self).system.oam_transfer_cycle + 1 && final(self).system.oam_transfer_source
                == old(self).system.oam_transfer_source,
            r is Ok && old(self).system.oam_transfer && old(self).system.oam_transfer_cycle == 162
                ==> !final(self).system.oam_transfer || final(self).system.oam_transfer_cycle == 0,
            old(self).cpu.halted && !old(self).system.oam_transfer ==> final(self).system.io.timer
                == old(self).system.io.timer.next() && (old(self).system.io.timer.pending_overflow
                ==> final(self).system.io.interrupt_flags.timer) && (old(self).system.io.joypad.interrupt
                ==> final(self).system.io.interrupt_flags.joypad),
    {
        if self.system.oam_transfer {
            self.system.oam_transfer_step();
        }
        let ghost d = self.system;
        let ghost prior = self.cpu;
        let cpu_completed = self.advance_cpu()?;
        let ghost c = self.cpu;
        let ghost b = self.system;
        let (v_blank, timer, joypad) = self.advance_devices();
        self.post_interrupts(v_blank, timer, joypad);
        if !self.cpu.halted && cpu_completed {
            let fetched = self.cpu.generic_fetch(&mut self.system);
        }
        proof {
            if !old(self).cpu.halted {
                assert(!old(self).system.oam_transfer ==> d == old(self).system);
                assert(d.io == old(self).system.io);
                assert(d.mbc == old(self).system.mbc);
                assert(d.w_ram@ == old(self).system.w_ram@);
                assert(d.h_ram@ == old(self).system.h_ram@);
                assert(prior.cycle_effect(c, d, b));
                assert(self.system.io.timer == b.io.timer.next());
                assert(old(self).system.io.timer.touched(b.io.timer));
                if old(self).cpu.completes() {
                    assert(!c.halted);
                    assert(c.current_instruction == old(self).cpu.current_instruction);
                    assert(self.cpu.current_instruction_cycle == 0);
                }
                assert(after_cpu(c, old(self).cpu.completes(), old(self).cpu.current_instruction, *self));
                assert(cpu_cycle(*old(self), d, c, b, *self));
            }
        }
        Ok(())
    }
}

/// In one M-cycle (two PPU steps) the V-blank interrupt is raised exactly
/// when horizontal blank of line 143 ends within it.
pub proof fn lemma_vblank_in_cycle(t: (PpuMode, u16, u8))
    requires
        t.1 < 114,
        t.0 == PpuMode::OamScan ==> t.1 < 20,
        t.0 == PpuMode::Drawing ==> t.1 < 63,
    ensures
        ppu_two_steps(t).1 <==> (t.0 == PpuMode::HBlank && t.2 == 143 && t.1 >= 112),
{
}

/// With every source enabled and requested and IME set, the first service
/// routine is the V-blank one, and the other four requests stay pending.
pub proof fn lemma_interrupt_priority(flags: InterruptFlags)
    requires
        flags == InterruptFlags::from_bits(0x1F),
    ensures
        flags.highest_pending(0x1F) == Some(Interrupt::VBlank),
        flags.with(Interrupt::VBlank, false).lcd,
        flags.with(Interrupt::VBlank, false).timer,
        flags.with(Interrupt::VBlank, false).serial,
        flags.with(Interrupt::VBlank, false).joypad,
        !flags.with(Interrupt::VBlank, false).v_blank,
{
    assert(0x1Fu8 & 0x01 != 0) by (bit_vector);
    assert(0x1Fu8 & 0x02 != 0) by (bit_vector);
    assert(0x1Fu8 & 0x04 != 0) by (bit_vector);
    assert(0x1Fu8 & 0x08 != 0) by (bit_vector);
    assert(0x1Fu8 & 0x10 != 0) by (bit_vector);
}

} // verus!
