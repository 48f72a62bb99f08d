//! The mathematical model of the machine: its state as sequences and
//! fixed-width registers, and the effect of every operation as a function
//! from state to state.

use crate::fault::Fault;
use crate::font::{FONTS_SPRITES, FONT_SIZE};
use crate::instruction::{decode_word, Instruction};
use crate::keypad::lowest_pressed;
use crate::rng::{next_state, output_byte};
use crate::screen::blank;
use crate::sprite::{collides, xor_sprite};
use vstd::prelude::*;

verus! {

/// Number of addressable memory bytes.
pub const MEMORY_SIZE: usize = 4096;

/// Number of call-stack slots.
pub const STACK_SIZE: u8 = 16;

/// Address at which programs are loaded and execution starts.
pub const PROGRAM_START: u16 = 0x200;

/// The whole state of the virtual machine.
#[verifier::ext_equal]
pub struct Machine {
    /// 4096 bytes of memory.
    pub memory: Seq<u8>,
    /// The registers `V0` to `VF`.
    pub v: Seq<u8>,
    /// The index register `I`.
    pub i: u16,
    /// The program counter.
    pub pc: u16,
    /// The sixteen call-stack slots.
    pub stack: Seq<u16>,
    /// The next free call-stack slot.
    pub sp: u8,
    /// The delay timer.
    pub dtimer: u8,
    /// The sound timer.
    pub stimer: u8,
    /// 64x32 pixel bytes, row-major.
    pub pixels: Seq<u8>,
    /// Pressed state of the sixteen keys.
    pub keys: Seq<bool>,
    /// State of the pseudo-random generator.
    pub rng: u32,
}

/// `n` reduced to eight bits.
pub open spec fn wrap8(n: int) -> u8 {
    (n % 0x100) as u8
}

/// `n` reduced to sixteen bits.
pub open spec fn wrap16(n: int) -> u16 {
    (n % 0x1_0000) as u16
}

/// 1 if `b` holds, else 0: the way a condition is stored in `VF`.
pub open spec fn flag(b: bool) -> u8 {
    if b {
        1
    } else {
        0
    }
}

impl Machine {
    /// Every component has the size the machine gives it.
    pub open spec fn shaped(self) -> bool {
        &&& self.memory.len() == 4096
        &&& self.v.len() == 16
        &&& self.stack.len() == 16
        &&& self.pixels.len() == 2048
        &&& self.keys.len() == 16
    }

    /// The stack pointer names a slot or the position just past the last.
    pub open spec fn wf(self) -> bool {
        self.shaped() && self.sp <= STACK_SIZE
    }

    /// This state with register `x` holding `byte`.
    pub open spec fn set_v(self, x: int, byte: u8) -> Machine {
        Machine { v: self.v.update(x, byte), ..self }
    }

    /// This state with `VF` holding `byte`.
    pub open spec fn set_vf(self, byte: u8) -> Machine {
        self.set_v(15, byte)
    }

    /// This state with the program counter moved past one more instruction
    /// if `cond` holds.
    pub open spec fn skip_if(self, cond: bool) -> Machine {
        if cond {
            Machine { pc: wrap16(self.pc + 2), ..self }
        } else {
            self
        }
    }

    /// Whether the key a register value names is held down. Values above
    /// `0xF` name no key.
    pub open spec fn key_down(self, key: u8) -> bool {
        key < 16 && self.keys[key as int]
    }

    /// `CLS`.
    pub open spec fn cls(self) -> Machine {
        Machine { pixels: blank(), ..self }
    }

    /// `RET`: the stack pointer steps back, then the slot it names is
    /// loaded into the program counter.
    pub open spec fn ret(self) -> Result<Machine, Fault> {
        if self.sp == 0 {
            Err(Fault::StackUnderflow)
        } else {
            Ok(Machine { sp: (self.sp - 1) as u8, pc: self.stack[self.sp - 1], ..self })
        }
    }

    /// `JP nnn`.
    pub open spec fn jp_nnn(self, nnn: u16) -> Machine {
        Machine { pc: nnn, ..self }
    }

    /// `CALL nnn`: the program counter is stored in the free slot, the
    /// stack pointer steps forward, and execution continues at `nnn`.
    pub open spec fn call_nnn(self, nnn: u16) -> Result<Machine, Fault> {
        if self.sp >= STACK_SIZE {
            Err(Fault::StackOverflow)
        } else {
            Ok(
                Machine {
                    stack: self.stack.update(self.sp as int, self.pc),
                    sp: (self.sp + 1) as u8,
                    pc: nnn,
                    ..self
                },
            )
        }
    }

    /// `SE Vx, kk`.
    pub open spec fn se_vx_kk(self, x: int, kk: u8) -> Machine {
        self.skip_if(self.v[x] == kk)
    }

    /// `SNE Vx, kk`.
    pub open spec fn sne_vx_kk(self, x: int, kk: u8) -> Machine {
        self.skip_if(self.v[x] != kk)
    }

    /// `SE Vx, Vy`.
    pub open spec fn se_vx_vy(self, x: int, y: int) -> Machine {
        self.skip_if(self.v[x] == self.v[y])
    }

    /// `SNE Vx, Vy`.
    pub open spec fn sne_vx_vy(self, x: int, y: int) -> Machine {
        self.skip_if(self.v[x] != self.v[y])
    }

    /// `LD Vx, kk`.
    pub open spec fn ld_vx_kk(self, x: int, kk: u8) -> Machine {
        self.set_v(x, kk)
    }

    /// `ADD Vx, kk`: the sum modulo 256; `VF` is not involved.
    pub open spec fn add_vx_kk(self, x: int, kk: u8) -> Machine {
        self.set_v(x, wrap8(self.v[x] + kk))
    }

    /// `LD Vx, Vy`.
    pub open spec fn ld_vx_vy(self, x: int, y: int) -> Machine {
        self.set_v(x, self.v[y])
    }

    /// `OR Vx, Vy`.
    pub open spec fn or_vx_vy(self, x: int, y: int) -> Machine {
        self.set_v(x, self.v[x] | self.v[y])
    }

    /// `AND Vx, Vy`.
    pub open spec fn and_vx_vy(self, x: int, y: int) -> Machine {
        self.set_v(x, self.v[x] & self.v[y])
    }

    /// `XOR Vx, Vy`.
    pub open spec fn xor_vx_vy(self, x: int, y: int) -> Machine {
        self.set_v(x, self.v[x] ^ self.v[y])
    }

    /// `ADD Vx, Vy`: the sum modulo 256 goes to `Vx`, then the carry to
    /// `VF`.
    pub open spec fn add_vx_vy(self, x: int, y: int) -> Machine {
        let sum = self.v[x] + self.v[y];
        self.set_v(x, wrap8(sum)).set_vf(flag(sum >= 0x100))
    }

    /// `SUB Vx, Vy`: the difference modulo 256 goes to `Vx`, then
    /// `Vx > Vy` (of the values before) to `VF`.
    pub open spec fn sub_vx_vy(self, x: int, y: int) -> Machine {
        self.set_v(x, wrap8(self.v[x] - self.v[y])).set_vf(flag(self.v[x] > self.v[y]))
    }

    /// `SUBN Vx, Vy`: the difference `Vy - Vx` modulo 256 goes to `Vx`,
    /// then `Vy > Vx` (of the values before) to `VF`.
    pub open spec fn subn_vx_vy(self, x: int, y: int) -> Machine {
        self.set_v(x, wrap8(self.v[y] - self.v[x])).set_vf(flag(self.v[y] > self.v[x]))
    }

    /// `SHR Vx`: `Vx` shifted right by one goes to `Vx`, then the bit
    /// shifted out to `VF`.
    pub open spec fn shr_vx(self, x: int) -> Machine {
        self.set_v(x, self.v[x] >> 1).set_vf(self.v[x] & 1)
    }

    /// `SHL Vx`: `Vx` shifted left by one goes to `Vx`, then the bit
    /// shifted out to `VF`.
    pub open spec fn shl_vx(self, x: int) -> Machine {
        self.set_v(x, self.v[x] << 1).set_vf((self.v[x] & 0x80) >> 7)
    }

    /// `LD I, nnn`.
    pub open spec fn ld_i_nnn(self, nnn: u16) -> Machine {
        Machine { i: nnn, ..self }
    }

    /// `JP V0, nnn`.
    pub open spec fn jp_v0_nnn(self, nnn: u16) -> Machine {
        Machine { pc: wrap16(nnn + self.v[0]), ..self }
    }

    /// `RND Vx, kk`: the generator advances and the byte it yields, masked
    /// with `kk`, goes to `Vx`.
    pub open spec fn rnd_vx_kk(self, x: int, kk: u8) -> Machine {
        let next = next_state(self.rng);
        Machine { rng: next, ..self }.set_v(x, output_byte(next) & kk)
    }

    /// Whether the `n` sprite rows at `I` reach past the end of memory.
    pub open spec fn sprite_out_of_bounds(self, n: u8) -> bool {
        self.i + n > MEMORY_SIZE
    }

    /// The `n` sprite rows `DRW` reads: `memory[I .. I + n]`.
    pub open spec fn sprite(self, n: u8) -> Seq<u8> {
        self.memory.subrange(self.i as int, self.i + n)
    }

    /// `DRW Vx, Vy, n`: the sprite is XORed onto the screen at
    /// `(Vx mod 64, Vy mod 32)`, wrapping around the edges, then the
    /// collision flag goes to `VF`.
    pub open spec fn drw_vx_vy_n(self, x: int, y: int, n: u8) -> Result<Machine, Fault> {
        if self.sprite_out_of_bounds(n) {
            Err(Fault::MemoryOutOfBounds)
        } else {
            let col = self.v[x] % 64;
            let row = self.v[y] % 32;
            let rows = self.sprite(n);
            let drawn = Machine {
                pixels: xor_sprite(self.pixels, rows, col as int, row as int),
                ..self
            };
            Ok(drawn.set_vf(flag(collides(self.pixels, rows, col as int, row as int))))
        }
    }

    /// `SKP Vx`.
    pub open spec fn skp_vx(self, x: int) -> Machine {
        self.skip_if(self.key_down(self.v[x]))
    }

    /// `SKNP Vx`.
    pub open spec fn sknp_vx(self, x: int) -> Machine {
        self.skip_if(!self.key_down(self.v[x]))
    }

    /// `LD Vx, DT`.
    pub open spec fn ld_vx_dt(self, x: int) -> Machine {
        self.set_v(x, self.dtimer)
    }

    /// `LD Vx, K`: with a key down, the lowest one goes to `Vx`; with none,
    /// the program counter steps back onto this instruction.
    pub open spec fn ld_vx_k(self, x: int) -> Machine {
        match lowest_pressed(self.keys) {
            Some(key) => self.set_v(x, key),
            None => Machine { pc: wrap16(self.pc - 2), ..self },
        }
    }

    /// `LD DT, Vx`.
    pub open spec fn ld_dt_vx(self, x: int) -> Machine {
        Machine { dtimer: self.v[x], ..self }
    }

    /// `LD ST, Vx`.
    pub open spec fn ld_st_vx(self, x: int) -> Machine {
        Machine { stimer: self.v[x], ..self }
    }

    /// `ADD I, Vx`: the sum modulo 2^16; no masking to 12 bits.
    pub open spec fn add_i_vx(self, x: int) -> Machine {
        Machine { i: wrap16(self.i + self.v[x]), ..self }
    }

    /// The effect of one operation, or the fault that stops it.
    pub open spec fn execute(self, op: Instruction) -> Result<Machine, Fault> {
        match op {
            Instruction::Cls => Ok(self.cls()),
            Instruction::Ret => self.ret(),
            Instruction::JpNnn { nnn } => Ok(self.jp_nnn(nnn)),
            Instruction::CallNnn { nnn } => self.call_nnn(nnn),
            Instruction::SeVxKk { x, kk } => Ok(self.se_vx_kk(x as int, kk)),
            Instruction::SneVxKk { x, kk } => Ok(self.sne_vx_kk(x as int, kk)),
            Instruction::SeVxVy { x, y } => Ok(self.se_vx_vy(x as int, y as int)),
            Instruction::LdVxKk { x, kk } => Ok(self.ld_vx_kk(x as int, kk)),
            Instruction::AddVxKk { x, kk } => Ok(self.add_vx_kk(x as int, kk)),
            Instruction::LdVxVy { x, y } => Ok(self.ld_vx_vy(x as int, y as int)),
            Instruction::OrVxVy { x, y } => Ok(self.or_vx_vy(x as int, y as int)),
            Instruction::AndVxVy { x, y } => Ok(self.and_vx_vy(x as int, y as int)),
            Instruction::XorVxVy { x, y } => Ok(self.xor_vx_vy(x as int, y as int)),
            Instruction::AddVxVy { x, y } => Ok(self.add_vx_vy(x as int, y as int)),
            Instruction::SubVxVy { x, y } => Ok(self.sub_vx_vy(x as int, y as int)),
            Instruction::ShrVx { x } => Ok(self.shr_vx(x as int)),
            Instruction::SubnVxVy { x, y } => Ok(self.subn_vx_vy(x as int, y as int)),
            Instruction::ShlVx { x } => Ok(self.shl_vx(x as int)),
            Instruction::SneVxVy { x, y } => Ok(self.sne_vx_vy(x as int, y as int)),
            Instruction::LdINnn { nnn } => Ok(self.ld_i_nnn(nnn)),
            Instruction::JpV0Nnn { nnn } => Ok(self.jp_v0_nnn(nnn)),
            Instruction::RndVxKk { x, kk } => Ok(self.rnd_vx_kk(x as int, kk)),
            Instruction::DrwVxVyN { x, y, n } => self.drw_vx_vy_n(x as int, y as int, n),
            Instruction::SkpVx { x } => Ok(self.skp_vx(x as int)),
            Instruction::SknpVx { x } => Ok(self.sknp_vx(x as int)),
            Instruction::LdVxDt { x } => Ok(self.ld_vx_dt(x as int)),
            Instruction::LdVxK { x } => Ok(self.ld_vx_k(x as int)),
            Instruction::LdDtVx { x } => Ok(self.ld_dt_vx(x as int)),
            Instruction::LdStVx { x } => Ok(self.ld_st_vx(x as int)),
            Instruction::AddIVx { x } => Ok(self.add_i_vx(x as int)),
            Instruction::Unknown => Ok(self),
        }
    }

    /// Whether the two bytes of the next instruction lie inside memory.
    pub open spec fn can_fetch(self) -> bool {
        self.pc + 1 < MEMORY_SIZE
    }

    /// The instruction word at the program counter: two bytes, big-endian.
    pub open spec fn word_at_pc(self) -> u16 {
        (self.memory[self.pc as int] * 0x100 + self.memory[self.pc + 1]) as u16
    }

    /// The effect of a fetch: the word read and the program counter moved
    /// past it, or the fault if the word lies outside memory.
    pub open spec fn fetch(self) -> Result<(u16, Machine), Fault> {
        if self.can_fetch() {
            Ok((self.word_at_pc(), Machine { pc: (self.pc + 2) as u16, ..self }))
        } else {
            Err(Fault::MemoryOutOfBounds)
        }
    }

    /// The effect of one whole instruction cycle: fetch, decode, execute.
    pub open spec fn step(self) -> Result<Machine, Fault> {
        match self.fetch() {
            Ok((word, fetched)) => fetched.execute(decode_word(word)),
            Err(fault) => Err(fault),
        }
    }

    /// The effect of one timer tick: both timers count down, stopping at
    /// zero.
    pub open spec fn tick(self) -> Machine {
        Machine {
            dtimer: if self.dtimer > 0 {
                (self.dtimer - 1) as u8
            } else {
                0
            },
            stimer: if self.stimer > 0 {
                (self.stimer - 1) as u8
            } else {
                0
            },
            ..self
        }
    }

    /// Whether `len` bytes placed at `base` end inside memory.
    pub open spec fn image_fits(base: int, len: int) -> bool {
        base + len <= MEMORY_SIZE
    }

    /// This state with `image` copied into memory from `base` on.
    pub open spec fn load_at(self, base: int, image: Seq<u8>) -> Machine {
        Machine {
            memory: Seq::new(
                4096,
                |a: int|
                    if base <= a < base + image.len() {
                        image[a - base]
                    } else {
                        self.memory[a]
                    },
            ),
            ..self
        }
    }

    /// This state with `program` copied into memory from the program start
    /// on.
    pub open spec fn load_program(self, program: Seq<u8>) -> Machine {
        self.load_at(PROGRAM_START as int, program)
    }

    /// The state right after construction: everything zero, every key up.
    pub open spec fn zero() -> Machine {
        Machine {
            memory: Seq::new(4096, |a: int| 0u8),
            v: Seq::new(16, |r: int| 0u8),
            i: 0,
            pc: 0,
            stack: Seq::new(16, |s: int| 0u16),
            sp: 0,
            dtimer: 0,
            stimer: 0,
            pixels: blank(),
            keys: Seq::new(16, |k: int| false),
            rng: 0,
        }
    }

    /// The state after initialisation: the font in the low 80 bytes of
    /// memory, registers, stack and timers zero, the screen blank, and the
    /// program counter at the program start. Memory above the font, the
    /// keys and the generator are kept.
    pub open spec fn init(self) -> Machine {
        Machine {
            memory: Seq::new(
                4096,
                |a: int|
                    if 0 <= a < FONT_SIZE {
                        FONTS_SPRITES@[a]
                    } else {
                        self.memory[a]
                    },
            ),
            v: Seq::new(16, |r: int| 0u8),
            i: 0,
            pc: PROGRAM_START,
            stack: Seq::new(16, |s: int| 0u16),
            sp: 0,
            dtimer: 0,
            stimer: 0,
            pixels: blank(),
            keys: self.keys,
            rng: self.rng,
        }
    }
}

} // verus!
