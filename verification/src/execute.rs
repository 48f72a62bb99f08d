//! The instruction handlers: one method per operation, and the dispatch
//! that selects among them.

use crate::fault::Fault;
use crate::instruction::{decode_word, Instruction};
use crate::interpreter::{agrees, Interpreter};
use crate::machine::{flag, MEMORY_SIZE, STACK_SIZE};
use crate::rng::{advance, next_state, output_byte};
use crate::screen::blank;
use crate::sprite::{collides, draw_sprite, xor_sprite};
use vstd::slice::slice_subrange;
use vstd::prelude::*;

verus! {

impl Interpreter {
    /// Moves the program counter past one more instruction if `cond`
    /// holds.
    fn skip_if(&mut self, cond: bool)
        ensures
            final(self)@ == old(self)@.skip_if(cond),
    {
        if cond {
            self.pc = self.pc.wrapping_add(2);
        }
    }

    /// `00E0`: turns every pixel off.
    pub fn execute_cls(&mut self)
        ensures
            final(self)@ == old(self)@.cls(),
            final(self)@.pixels == blank(),
            final(self).screen.wf(),
    {
        self.screen.clear();
    }

    /// `00EE`: steps the stack pointer back and continues at the return
    /// address it then names. Faults on an empty stack.
    pub fn execute_ret(&mut self) -> (done: Result<(), Fault>)
        requires
            old(self).wf(),
        ensures
            agrees(*old(self), *final(self), done, old(self)@.ret()),
            done is Err <==> old(self).sp == 0,
            done is Ok ==> final(self).sp == old(self).sp - 1,
            done is Ok ==> final(self).pc == old(self).stack@[old(self).sp - 1],
            final(self).wf(),
    {
        if self.sp == 0 {
            return Err(Fault::StackUnderflow);
        }
        self.sp -= 1;
        self.pc = self.stack[self.sp as usize];
        Ok(())
    }

    /// `1nnn`: continues at `nnn`.
    pub fn execute_jp_nnn(&mut self, nnn: u16)
        ensures
            final(self)@ == old(self)@.jp_nnn(nnn),
            final(self).pc == nnn,
    {
        self.pc = nnn;
    }

    /// `2nnn`: stores the program counter in the free stack slot, steps
    /// the stack pointer forward and continues at `nnn`. Faults when all
    /// sixteen slots are in use.
    pub fn execute_call_nnn(&mut self, nnn: u16) -> (done: Result<(), Fault>)
        requires
            old(self).wf(),
        ensures
            agrees(*old(self), *final(self), done, old(self)@.call_nnn(nnn)),
            done is Err <==> old(self).sp == 16,
            done is Ok ==> final(self).sp == old(self).sp + 1 && final(self).pc == nnn,
            done is Ok ==> final(self).stack@[old(self).sp as int] == old(self).pc,
            final(self).wf(),
    {
        if self.sp >= STACK_SIZE {
            return Err(Fault::StackOverflow);
        }
        self.stack[self.sp as usize] = self.pc;
        self.sp += 1;
        self.pc = nnn;
        Ok(())
    }

    /// `3xkk`: skips the next instruction if `Vx == kk`.
    pub fn execute_se_vx_kk(&mut self, x: usize, kk: u8)
        requires
            x < 16,
        ensures
            final(self)@ == old(self)@.se_vx_kk(x as int, kk),
    {
        self.skip_if(self.v[x] == kk);
    }

    /// `4xkk`: skips the next instruction if `Vx != kk`.
    pub fn execute_sne_vx_kk(&mut self, x: usize, kk: u8)
        requires
            x < 16,
        ensures
            final(self)@ == old(self)@.sne_vx_kk(x as int, kk),
    {
        self.skip_if(self.v[x] != kk);
    }

    /// `9xy0`: skips the next instruction if `Vx != Vy`.
    pub fn execute_sne_vx_vy(&mut self, x: usize, y: usize)
        requires
            x < 16,
            y < 16,
        ensures
            final(self)@ == old(self)@.sne_vx_vy(x as int, y as int),
    {
        self.skip_if(self.v[x] != self.v[y]);
    }

    /// `5xy0`: skips the next instruction if `Vx == Vy`.
    pub fn execute_se_vx_vy(&mut self, x: usize, y: usize)
        requires
            x < 16,
            y < 16,
        ensures
            final(self)@ == old(self)@.se_vx_vy(x as int, y as int),
    {
        let vx = self.v[x];
        let vy = self.v[y];

        self.skip_if(vx == vy);
    }

    /// `6xkk`: `Vx = kk`. Nothing else changes.
    pub fn execute_ld_vx_kk(&mut self, x: usize, kk: u8)
        requires
            x < 16,
        ensures
            final(self)@ == old(self)@.ld_vx_kk(x as int, kk),
            final(self).v@[x as int] == kk,
            forall|r: int| 0 <= r < 16 && r != x ==> final(self).v@[r] == old(self).v@[r],
    {
        self.v[x] = kk;
    }

    /// `7xkk`: `Vx = (Vx + kk) mod 256`. `VF` is not written unless it is
    /// `Vx` itself.
    pub fn execute_add_vx_kk(&mut self, x: usize, kk: u8)
        requires
            x < 16,
        ensures
            final(self)@ == old(self)@.add_vx_kk(x as int, kk),
            final(self).v@[x as int] == (old(self).v@[x as int] + kk) % 256,
            forall|r: int| 0 <= r < 16 && r != x ==> final(self).v@[r] == old(self).v@[r],
    {
        self.v[x] = self.v[x].wrapping_add(kk);
    }

    /// `8xy4`: `Vx = (Vx + Vy) mod 256`, then `VF` = 1 if the sum did not
    /// fit in eight bits, else 0.
    pub fn execute_add_vx_vy(&mut self, x: usize, y: usize)
        requires
            x < 16,
            y < 16,
        ensures
            final(self)@ == old(self)@.add_vx_vy(x as int, y as int),
            ({
                let sum = old(self).v@[x as int] + old(self).v@[y as int];
                &&& final(self).v@[15] == flag(sum >= 256)
                &&& x != 15 ==> final(self).v@[x as int] == sum % 256
                &&& forall|r: int| 0 <= r < 15 && r != x ==> final(self).v@[r] == old(self).v@[r]
            }),
    {
        let sum: u16 = self.v[x] as u16 + self.v[y] as u16;
        self.v[x] = (sum % 0x100) as u8;
        self.v[15] = if sum >= 0x100 {
            1
        } else {
            0
        };
    }

    /// `8xy0`: `Vx = Vy`.
    pub fn execute_ld_vx_vy(&mut self, x: usize, y: usize)
        requires
            x < 16,
            y < 16,
        ensures
            final(self)@ == old(self)@.ld_vx_vy(x as int, y as int),
    {
        self.v[x] = self.v[y];
    }

    /// `8xy1`: `Vx = Vx | Vy`.
    pub fn execute_or_vx_vy(&mut self, x: usize, y: usize)
        requires
            x < 16,
            y < 16,
        ensures
            final(self)@ == old(self)@.or_vx_vy(x as int, y as int),
    {
        self.v[x] = self.v[x] | self.v[y];
    }

    /// `8xy2`: `Vx = Vx & Vy`.
    pub fn execute_and_vx_vy(&mut self, x: usize, y: usize)
        requires
            x < 16,
            y < 16,
        ensures
            final(self)@ == old(self)@.and_vx_vy(x as int, y as int),
    {
        self.v[x] = self.v[x] & self.v[y];
    }

    /// `8xy3`: `Vx = Vx ^ Vy`.
    pub fn execute_xor_vx_vy(&mut self, x: usize, y: usize)
        requires
            x < 16,
            y < 16,
        ensures
            final(self)@ == old(self)@.xor_vx_vy(x as int, y as int),
    {
        self.v[x] = self.v[x] ^ self.v[y];
    }

    /// `8xy5`: `Vx = (Vx - Vy) mod 256`, then `VF` = 1 if `Vx` was greater
    /// than `Vy`, else 0.
    pub fn execute_sub_vx_vy(&mut self, x: usize, y: usize)
        requires
            x < 16,
            y < 16,
        ensures
            final(self)@ == old(self)@.sub_vx_vy(x as int, y as int),
            ({
                let (a, b) = (old(self).v@[x as int], old(self).v@[y as int]);
                &&& final(self).v@[15] == flag(a > b)
                &&& x != 15 ==> final(self).v@[x as int] == (a - b) % 256
            }),
    {
        let borrow_free = self.v[x] > self.v[y];
        self.v[x] = self.v[x].wrapping_sub(self.v[y]);
        self.v[15] = if borrow_free {
            1
        } else {
            0
        };
    }

    /// `8xy7`: `Vx = (Vy - Vx) mod 256`, then `VF` = 1 if `Vy` was greater
    /// than `Vx`, else 0.
    pub fn execute_subn_vx_vy(&mut self, x: usize, y: usize)
        requires
            x < 16,
            y < 16,
        ensures
            final(self)@ == old(self)@.subn_vx_vy(x as int, y as int),
            ({
                let (a, b) = (old(self).v@[x as int], old(self).v@[y as int]);
                &&& final(self).v@[15] == flag(b > a)
                &&& x != 15 ==> final(self).v@[x as int] == (b - a) % 256
            }),
    {
        let borrow_free = self.v[y] > self.v[x];
        self.v[x] = self.v[y].wrapping_sub(self.v[x]);
        self.v[15] = if borrow_free {
            1
        } else {
            0
        };
    }

    /// `8xy6`: `Vx = Vx >> 1`, then `VF` = the bit shifted out, `Vx & 1`.
    pub fn execute_shr_vx_vy(&mut self, x: usize)
        requires
            x < 16,
        ensures
            final(self)@ == old(self)@.shr_vx(x as int),
            ({
                let a = old(self).v@[x as int];
                &&& final(self).v@[15] == a & 1
                &&& final(self).v@[15] == a % 2
                &&& x != 15 ==> final(self).v@[x as int] == a >> 1
                &&& x != 15 ==> final(self).v@[x as int] == a / 2
                &&& forall|r: int| 0 <= r < 15 && r != x ==> final(self).v@[r] == old(self).v@[r]
            }),
    {
        let vx = self.v[x];
        proof {
            lemma_shift_right(vx);
        }
        self.v[x] = vx >> 1;
        self.v[15] = vx & 0x1;
    }

    /// `8xyE`: `Vx = Vx << 1`, then `VF` = the bit shifted out, bit 7 of
    /// `Vx`.
    pub fn execute_shl_vx_vy(&mut self, x: usize)
        requires
            x < 16,
        ensures
            final(self)@ == old(self)@.shl_vx(x as int),
            ({
                let a = old(self).v@[x as int];
                &&& final(self).v@[15] == a / 128
                &&& x != 15 ==> final(self).v@[x as int] == (a * 2) % 256
            }),
    {
        let vx = self.v[x];
        proof {
            lemma_shift_left(vx);
        }
        self.v[x] = vx << 1;
        self.v[15] = (vx & 0x80) >> 7;
    }

    /// `Annn`: `I = nnn`.
    pub fn execute_ld_i_nnn(&mut self, nnn: u16)
        ensures
            final(self)@ == old(self)@.ld_i_nnn(nnn),
    {
        self.i = nnn;
    }

    /// `Bnnn`: continues at `nnn + V0`.
    pub fn execute_jp_v0_nnn(&mut self, nnn: u16)
        ensures
            final(self)@ == old(self)@.jp_v0_nnn(nnn),
            nnn < 0x1000 ==> final(self).pc == nnn + old(self).v@[0],
    {
        self.pc = nnn.wrapping_add(self.v[0] as u16);
    }

    /// `Cxkk`: advances the pseudo-random generator and stores the byte it
    /// yields, masked with `kk`, in `Vx`.
    pub fn execute_rnd_vx_kk(&mut self, x: usize, kk: u8)
        requires
            x < 16,
        ensures
            final(self)@ == old(self)@.rnd_vx_kk(x as int, kk),
            final(self).rng == next_state(old(self).rng),
            final(self).v@[x as int] == output_byte(final(self).rng) & kk,
    {
        let (next, rand) = advance(self.rng);
        self.rng = next;
        self.v[x] = rand & kk;
    }

    /// `Dxyn`: XORs the `n`-byte sprite at `memory[I .. I + n]` onto the
    /// screen at `(Vx mod 64, Vy mod 32)`, wrapping around the edges, then
    /// sets `VF` to 1 if a lit pixel was turned off, else to 0. Faults,
    /// drawing nothing, if the sprite reaches past the end of memory.
    pub fn execute_drw_vx_vy_n(&mut self, x: usize, y: usize, n: u8) -> (done: Result<(), Fault>)
        requires
            x < 16,
            y < 16,
            n < 16,
        ensures
            agrees(*old(self), *final(self), done, old(self)@.drw_vx_vy_n(x as int, y as int, n)),
            done is Err <==> old(self).i + n > 4096,
            done is Ok ==> final(self)@.pixels == xor_sprite(
                old(self)@.pixels,
                old(self)@.sprite(n),
                (old(self).v@[x as int] % 64) as int,
                (old(self).v@[y as int] % 32) as int,
            ),
            done is Ok ==> final(self).v@[15] == flag(
                collides(
                    old(self)@.pixels,
                    old(self)@.sprite(n),
                    (old(self).v@[x as int] % 64) as int,
                    (old(self).v@[y as int] % 32) as int,
                ),
            ),
            old(self).screen.wf() ==> final(self).screen.wf(),
    {
        let base = self.i as usize;
        let height = n as usize;
        if base + height > MEMORY_SIZE {
            return Err(Fault::MemoryOutOfBounds);
        }
        let left = (self.v[x] % 64) as usize;
        let top = (self.v[y] % 32) as usize;
        let rows = slice_subrange(self.memory.as_slice(), base, base + height);
        let collision = draw_sprite(&mut self.screen, rows, left, top);
        self.v[15] = if collision {
            1
        } else {
            0
        };
        Ok(())
    }

    /// `Ex9E`: skips the next instruction if the key `Vx` names is down.
    pub fn execute_skp_vx(&mut self, x: usize)
        requires
            x < 16,
        ensures
            final(self)@ == old(self)@.skp_vx(x as int),
    {
        let key = self.v[x] as usize;
        let down = key < 16 && self.keypad.is_pressed(key);
        self.skip_if(down);
    }

    /// `ExA1`: skips the next instruction if the key `Vx` names is up.
    pub fn execute_skpn_vx(&mut self, x: usize)
        requires
            x < 16,
        ensures
            final(self)@ == old(self)@.sknp_vx(x as int),
    {
        let key = self.v[x] as usize;
        let down = key < 16 && self.keypad.is_pressed(key);
        self.skip_if(!down);
    }

    /// `Fx07`: `Vx = delay timer`.
    pub fn execute_ld_vx_dt(&mut self, x: usize)
        requires
            x < 16,
        ensures
            final(self)@ == old(self)@.ld_vx_dt(x as int),
    {
        self.v[x] = self.dtimer;
    }

    /// `Fx0A`: with a key down, stores the lowest such key in `Vx`; with
    /// none, steps the program counter back by two so that this
    /// instruction is fetched again.
    pub fn execute_ld_vx_k(&mut self, x: usize)
        requires
            x < 16,
        ensures
            final(self)@ == old(self)@.ld_vx_k(x as int),
    {
        match self.keypad.get_key_pressed() {
            Some(i) => self.v[x] = i,
            None => self.pc = self.pc.wrapping_sub(2),
        }
    }

    /// `Fx15`: `delay timer = Vx`.
    pub fn execute_ld_dt_vx(&mut self, x: usize)
        requires
            x < 16,
        ensures
            final(self)@ == old(self)@.ld_dt_vx(x as int),
    {
        self.dtimer = self.v[x];
    }

    /// `Fx18`: `sound timer = Vx`.
    pub fn execute_ld_st_vx(&mut self, x: usize)
        requires
            x < 16,
        ensures
            final(self)@ == old(self)@.ld_st_vx(x as int),
    {
        self.stimer = self.v[x];
    }

    /// `Fx1E`: `I = (I + Vx) mod 2^16`.
    pub fn execute_add_i_vx(&mut self, x: usize)
        requires
            x < 16,
        ensures
            final(self)@ == old(self)@.add_i_vx(x as int),
    {
        self.i = self.i.wrapping_add(self.v[x] as u16);
    }

    /// Carries out one decoded operation.
    pub fn execute(&mut self, op: Instruction) -> (done: Result<(), Fault>)
        requires
            old(self).wf(),
            op.wf(),
        ensures
            agrees(*old(self), *final(self), done, old(self)@.execute(op)),
            final(self).wf(),
            old(self).screen.wf() ==> final(self).screen.wf(),
    {
        match op {
            Instruction::Cls => self.execute_cls(),
            Instruction::Ret => return self.execute_ret(),
            Instruction::JpNnn { nnn } => self.execute_jp_nnn(nnn),
            Instruction::CallNnn { nnn } => return self.execute_call_nnn(nnn),
            Instruction::SeVxKk { x, kk } => self.execute_se_vx_kk(x, kk),
            Instruction::SneVxKk { x, kk } => self.execute_sne_vx_kk(x, kk),
            Instruction::SeVxVy { x, y } => self.execute_se_vx_vy(x, y),
            Instruction::LdVxKk { x, kk } => self.execute_ld_vx_kk(x, kk),
            Instruction::AddVxKk { x, kk } => self.execute_add_vx_kk(x, kk),
            Instruction::LdVxVy { x, y } => self.execute_ld_vx_vy(x, y),
            Instruction::OrVxVy { x, y } => self.execute_or_vx_vy(x, y),
            Instruction::AndVxVy { x, y } => self.execute_and_vx_vy(x, y),
            Instruction::XorVxVy { x, y } => self.execute_xor_vx_vy(x, y),
            Instruction::AddVxVy { x, y } => self.execute_add_vx_vy(x, y),
            Instruction::SubVxVy { x, y } => self.execute_sub_vx_vy(x, y),
            Instruction::ShrVx { x } => self.execute_shr_vx_vy(x),
            Instruction::SubnVxVy { x, y } => self.execute_subn_vx_vy(x, y),
            Instruction::ShlVx { x } => self.execute_shl_vx_vy(x),
            Instruction::SneVxVy { x, y } => self.execute_sne_vx_vy(x, y),
            Instruction::LdINnn { nnn } => self.execute_ld_i_nnn(nnn),
            Instruction::JpV0Nnn { nnn } => self.execute_jp_v0_nnn(nnn),
            Instruction::RndVxKk { x, kk } => self.execute_rnd_vx_kk(x, kk),
            Instruction::DrwVxVyN { x, y, n } => return self.execute_drw_vx_vy_n(x, y, n),
            Instruction::SkpVx { x } => self.execute_skp_vx(x),
            Instruction::SknpVx { x } => self.execute_skpn_vx(x),
            Instruction::LdVxDt { x } => self.execute_ld_vx_dt(x),
            Instruction::LdVxK { x } => self.execute_ld_vx_k(x),
            Instruction::LdDtVx { x } => self.execute_ld_dt_vx(x),
            Instruction::LdStVx { x } => self.execute_ld_st_vx(x),
            Instruction::AddIVx { x } => self.execute_add_i_vx(x),
            Instruction::Unknown => (),
        }
        Ok(())
    }

    /// Decodes an instruction word and carries out the operation it
    /// selects. A word that matches no operation does nothing.
    pub fn decode(&mut self, instruction: u16) -> (done: Result<(), Fault>)
        requires
            old(self).wf(),
        ensures
            agrees(*old(self), *final(self), done, old(self)@.execute(decode_word(instruction))),
            final(self).wf(),
            old(self).screen.wf() ==> final(self).screen.wf(),
    {
        self.execute(Instruction::from_word(instruction))
    }

    /// Runs one instruction cycle: fetches the word at the program
    /// counter, decodes it and carries it out. On a fault nothing has
    /// changed, the program counter included.
    pub fn step(&mut self) -> (done: Result<(), Fault>)
        requires
            old(self).wf(),
        ensures
            agrees(*old(self), *final(self), done, old(self)@.step()),
            final(self).wf(),
            old(self).screen.wf() ==> final(self).screen.wf(),
    {
        let pc = self.pc;
        match self.fetch() {
            Ok(word) => {
                let done = self.decode(word);
                if done.is_err() {
                    self.pc = pc;
                    proof {
                        lemma_view_is_injective(*self, *old(self));
                    }
                }
                done
            },
            Err(fault) => Err(fault),
        }
    }
}

/// Two machines with the same view are the same machine.
proof fn lemma_view_is_injective(a: Interpreter, b: Interpreter)
    requires
        a@ == b@,
    ensures
        a == b,
{
    assert(a.memory =~= b.memory);
    assert(a.v =~= b.v);
    assert(a.stack =~= b.stack);
    assert(a.screen.pixels =~= b.screen.pixels);
    assert(a.keypad.keys =~= b.keypad.keys);
}

/// A right shift by one halves, and the bit shifted out is the remainder.
pub proof fn lemma_shift_right(a: u8)
    ensures
        a >> 1 == a / 2,
        a & 1 == a % 2,
{
    assert(a >> 1 == a / 2) by (bit_vector);
    assert(a & 1 == a % 2) by (bit_vector);
}

/// A left shift by one doubles modulo 256, and the bit shifted out is the
/// quotient by 128.
pub proof fn lemma_shift_left(a: u8)
    ensures
        a << 1 == (a * 2) % 256,
        (a & 0x80) >> 7 == a / 128,
{
    assert(a << 1 == (a * 2) % 256) by (bit_vector);
    assert((a & 0x80) >> 7 == a / 128) by (bit_vector);
}

} // verus!
