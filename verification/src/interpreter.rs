//! The interpreter core: the machine state and the operations that drive
//! it, each proved against the model in `machine`.

use crate::fault::Fault;
use crate::font::{FONTS_SPRITES, FONT_SIZE};
use crate::keypad::Keypad;
use crate::machine::{Machine, MEMORY_SIZE, PROGRAM_START, STACK_SIZE};
use crate::screen::Screen;
use vstd::prelude::*;

verus! {

/// A CHIP-8 machine: memory, registers, call stack, timers, screen, keypad
/// and the state of its pseudo-random generator.
pub struct Interpreter {
    /// Memory, addresses `0x000` to `0xFFF`.
    pub memory: [u8; 4096],
    /// The registers `V0` to `VF`.
    pub v: [u8; 16],
    /// The index register `I`.
    pub i: u16,
    /// The program counter: the address of the next instruction.
    pub pc: u16,
    /// Return addresses of the calls in progress.
    pub stack: [u16; 16],
    /// The next free slot of `stack`; 0 when no call is in progress.
    pub sp: u8,
    /// The delay timer.
    pub dtimer: u8,
    /// The sound timer; sound is due while it is not zero.
    pub stimer: u8,
    /// The framebuffer.
    pub screen: Screen,
    /// The keys.
    pub keypad: Keypad,
    /// State of the pseudo-random generator that `RND` draws from.
    pub rng: u32,
}

impl View for Interpreter {
    type V = Machine;

    open spec fn view(&self) -> Machine {
        Machine {
            memory: self.memory@,
            v: self.v@,
            i: self.i,
            pc: self.pc,
            stack: self.stack@,
            sp: self.sp,
            dtimer: self.dtimer,
            stimer: self.stimer,
            pixels: self.screen.pixels@,
            keys: self.keypad.keys@,
            rng: self.rng,
        }
    }
}

/// An operation met its model: on success the state after it is the one
/// the model gives, and on a fault the fault is the model's and the state
/// is exactly as before.
pub open spec fn agrees(
    before: Interpreter,
    after: Interpreter,
    done: Result<(), Fault>,
    model: Result<Machine, Fault>,
) -> bool {
    match done {
        Ok(()) => model == Ok::<Machine, Fault>(after@),
        Err(fault) => model == Err::<Machine, Fault>(fault) && after == before,
    }
}

impl Interpreter {
    /// Well-formedness: the stack pointer names one of the sixteen slots
    /// or the position just past the last one.
    pub open spec fn wf(&self) -> bool {
        self.sp <= STACK_SIZE
    }

    /// A machine in the all-zero state.
    pub fn new() -> (machine: Self)
        ensures
            machine@ == Machine::zero(),
            machine.wf(),
            machine.screen.wf(),
    {
        Self {
            memory: [0; 4096],
            v: [0; 16],
            i: 0,
            pc: 0,
            stack: [0; 16],
            sp: 0,
            dtimer: 0,
            stimer: 0,
            screen: Screen::new(),
            keypad: Keypad::new(),
            rng: 0,
        }
    }

    /// Resets the machine for a new program: loads the font into the low
    /// 80 bytes of memory, zeroes registers, stack and timers, blanks the
    /// screen and points the program counter at `0x200`.
    pub fn init(&mut self)
        ensures
            final(self)@ == old(self)@.init(),
            final(self).wf(),
            final(self).screen.wf(),
    {
        let mut a: usize = 0;
        while a < FONT_SIZE
            invariant
                a <= FONT_SIZE,
                forall|b: int| 0 <= b < a ==> self.memory@[b] == FONTS_SPRITES@[b],
                forall|b: int| a <= b < 4096 ==> self.memory@[b] == old(self).memory@[b],
                self.keypad == old(self).keypad,
                self.rng == old(self).rng,
            decreases FONT_SIZE - a,
        {
            self.memory[a] = FONTS_SPRITES[a];
            a += 1;
        }

        self.v = [0; 16];
        self.i = 0;
        self.pc = PROGRAM_START;
        self.stack = [0; 16];
        self.sp = 0;
        self.dtimer = 0;
        self.stimer = 0;
        self.screen.clear();
    }

    /// Replaces the state of the pseudo-random generator.
    pub fn seed(&mut self, seed: u32)
        ensures
            final(self)@ == (Machine { rng: seed, ..old(self)@ }),
    {
        self.rng = seed;
    }

    /// Copies `image` into memory from address `base` on, or refuses it if
    /// it would reach past the end of memory.
    pub fn load_program_at(&mut self, image: &[u8], base: u16) -> (loaded: Result<(), Fault>)
        ensures
            loaded is Ok <==> Machine::image_fits(base as int, image@.len() as int),
            loaded is Ok ==> final(self)@ == old(self)@.load_at(base as int, image@),
            loaded is Err ==> loaded == Err::<(), Fault>(Fault::MemoryOutOfBounds),
            loaded is Err ==> *final(self) == *old(self),
    {
        let start = base as usize;
        if start > MEMORY_SIZE || image.len() > MEMORY_SIZE - start {
            return Err(Fault::MemoryOutOfBounds);
        }
        let ghost before = self.memory@;
        let mut k: usize = 0;
        while k < image.len()
            invariant
                start == base,
                before == old(self).memory@,
                k <= image.len(),
                start + image.len() <= 4096,
                forall|a: int| start <= a < start + k ==> self.memory@[a] == image@[a - start],
                forall|a: int|
                    0 <= a < start || start + k <= a < 4096 ==> self.memory@[a] == before[a],
                self.v == old(self).v,
                self.i == old(self).i,
                self.pc == old(self).pc,
                self.stack == old(self).stack,
                self.sp == old(self).sp,
                self.dtimer == old(self).dtimer,
                self.stimer == old(self).stimer,
                self.screen == old(self).screen,
                self.keypad == old(self).keypad,
                self.rng == old(self).rng,
            decreases image.len() - k,
        {
            self.memory[start + k] = image[k];
            k += 1;
        }
        Ok(())
    }

    /// Copies `program` into memory from address `0x200` on, or refuses it
    /// if it does not fit below the end of memory.
    pub fn load_program(&mut self, program: &[u8]) -> (loaded: Result<(), Fault>)
        ensures
            loaded is Ok <==> program@.len() <= 4096 - 0x200,
            loaded is Ok ==> final(self)@ == old(self)@.load_program(program@),
            loaded is Err ==> loaded == Err::<(), Fault>(Fault::MemoryOutOfBounds),
            loaded is Err ==> *final(self) == *old(self),
    {
        self.load_program_at(program, PROGRAM_START)
    }

    /// Reads the instruction word at the program counter, big-endian, and
    /// moves the program counter past it.
    pub fn fetch(&mut self) -> (word: Result<u16, Fault>)
        ensures
            match word {
                Ok(w) => old(self)@.fetch() == Ok::<(u16, Machine), Fault>((w, final(self)@)),
                Err(fault) => {
                    &&& old(self)@.fetch() == Err::<(u16, Machine), Fault>(fault)
                    &&& *final(self) == *old(self)
                },
            },
            word is Err <==> old(self).pc >= 4095,
            final(self).wf() == old(self).wf(),
    {
        let pc = self.pc as usize;
        if pc + 1 >= MEMORY_SIZE {
            return Err(Fault::MemoryOutOfBounds);
        }
        let instruction: u16 = self.memory[pc] as u16 * 0x100 + self.memory[pc + 1] as u16;
        self.pc += 2;
        Ok(instruction)
    }

    /// Counts both timers down by one, stopping at zero.
    pub fn tick(&mut self)
        ensures
            final(self)@ == old(self)@.tick(),
    {
        if self.dtimer > 0 {
            self.dtimer -= 1;
        }
        if self.stimer > 0 {
            self.stimer -= 1;
        }
    }

    /// Records key `index` as held down.
    pub fn set_key_down(&mut self, index: usize)
        requires
            index < 16,
        ensures
            final(self)@ == (Machine {
                keys: old(self)@.keys.update(index as int, true),
                ..old(self)@
            }),
    {
        self.keypad.set_down(index);
    }

    /// Records key `index` as released.
    pub fn set_key_up(&mut self, index: usize)
        requires
            index < 16,
        ensures
            final(self)@ == (Machine {
                keys: old(self)@.keys.update(index as int, false),
                ..old(self)@
            }),
    {
        self.keypad.set_up(index);
    }

    /// The pixel buffer, one byte per pixel, row-major.
    pub fn read_framebuffer(&self) -> (pixels: &[u8; 2048])
        ensures
            pixels@ == self@.pixels,
    {
        &self.screen.pixels
    }

    /// The whole memory image.
    pub fn read_memory(&self) -> (memory: &[u8; 4096])
        ensures
            memory@ == self@.memory,
    {
        &self.memory
    }

    /// Whether the sound timer is running, which is when sound is due.
    pub fn sound_active(&self) -> (active: bool)
        ensures
            active == (self@.stimer > 0),
    {
        self.stimer > 0
    }
}

} // verus!
