//! Laws of the machine: what holds of every state when instruction words
//! are decoded and carried out, alone or one after another. They are proved
//! over the model that the operations' contracts are stated in.

use crate::execute::lemma_shift_right;
use crate::fault::Fault;
use crate::instruction::{
    decode_word, low12, low8, nibble1, nibble2, nibble3, nibble4, Instruction,
};
use crate::interpreter::Interpreter;
use crate::keypad::{
    is_lowest_pressed, lemma_lowest_pressed_is, lemma_lowest_pressed_none, none_pressed,
};
use crate::machine::{flag, Machine};
use crate::screen::binary;
use crate::sprite::{collides, sprite_hits, xor_sprite};
use vstd::prelude::*;

verus! {

/// The outcome of calling the subroutines `targets` one inside the other,
/// first to last.
pub open spec fn nested_calls(m: Machine, targets: Seq<u16>) -> Result<Machine, Fault>
    decreases targets.len(),
{
    if targets.len() == 0 {
        Ok(m)
    } else {
        match nested_calls(m, targets.drop_last()) {
            Ok(inner) => inner.call_nnn(targets.last()),
            Err(fault) => Err(fault),
        }
    }
}

/// The outcome of `n` instruction cycles in a row.
pub open spec fn steps(m: Machine, n: nat) -> Result<Machine, Fault>
    decreases n,
{
    if n == 0 {
        Ok(m)
    } else {
        match steps(m, (n - 1) as nat) {
            Ok(before) => before.step(),
            Err(fault) => Err(fault),
        }
    }
}

/// The operands of a word are its bit fields: four nibbles, most
/// significant first, the low twelve bits and the low eight bits.
pub proof fn law_operands_are_bit_fields(word: u16)
    ensures
        nibble1(word) == word >> 12,
        nibble2(word) == (word >> 8) & 0xF,
        nibble3(word) == (word >> 4) & 0xF,
        nibble4(word) == word & 0xF,
        low12(word) == word & 0x0FFF,
        low8(word) == word & 0x00FF,
{
    assert(word / 0x1000 == word >> 12) by (bit_vector);
    assert(word / 0x100 % 0x10 == (word >> 8) & 0xF) by (bit_vector);
    assert(word / 0x10 % 0x10 == (word >> 4) & 0xF) by (bit_vector);
    assert(word % 0x10 == word & 0xF) by (bit_vector);
    assert(word % 0x1000 == word & 0x0FFF) by (bit_vector);
    assert(word % 0x100 == word & 0x00FF) by (bit_vector);
}

/// `6xkk` puts `kk` in `Vx` and changes nothing else: no other register,
/// and no other part of the machine.
pub proof fn law_load_immediate(s: Interpreter, x: usize, kk: u8)
    requires
        x < 16,
    ensures
        decode_word((0x6000 + x * 0x100 + kk) as u16) == (Instruction::LdVxKk { x, kk }),
        ({
            let done = s@.execute(Instruction::LdVxKk { x, kk });
            &&& done is Ok
            &&& done.unwrap().v[x as int] == kk
            &&& forall|r: int| 0 <= r < 16 && r != x ==> done.unwrap().v[r] == s.v@[r]
            &&& done.unwrap() == (Machine { v: done.unwrap().v, ..s@ })
        }),
{
}

/// `8xy4` leaves the sum modulo 256 in `Vx` and sets `VF` to 1 exactly when
/// the sum is 256 or more. When `Vx` is `VF` itself, the flag is what
/// remains.
pub proof fn law_add_registers(s: Interpreter, x: usize, y: usize)
    requires
        x < 16,
        y < 16,
    ensures
        decode_word((0x8004 + x * 0x100 + y * 0x10) as u16) == (Instruction::AddVxVy { x, y }),
        ({
            let done = s@.execute(Instruction::AddVxVy { x, y });
            let sum = s.v@[x as int] + s.v@[y as int];
            &&& done is Ok
            &&& done.unwrap().v[15] == flag(sum >= 256)
            &&& x != 15 ==> done.unwrap().v[x as int] == sum % 256
            &&& forall|r: int| 0 <= r < 15 && r != x ==> done.unwrap().v[r] == s.v@[r]
        }),
{
}

/// `8xy6` leaves `Vx >> 1`, which is half of `Vx` rounded down, in `Vx` and
/// sets `VF` to `Vx & 1`, the remainder. When `Vx` is `VF` itself, the flag
/// is what remains.
pub proof fn law_shift_right(s: Interpreter, x: usize, y: usize)
    requires
        x < 16,
        y < 16,
    ensures
        decode_word((0x8006 + x * 0x100 + y * 0x10) as u16) == (Instruction::ShrVx { x }),
        ({
            let done = s@.execute(Instruction::ShrVx { x });
            let a = s.v@[x as int];
            &&& done is Ok
            &&& done.unwrap().v[15] == a & 1
            &&& done.unwrap().v[15] == a % 2
            &&& x != 15 ==> done.unwrap().v[x as int] == a >> 1
            &&& x != 15 ==> done.unwrap().v[x as int] == a / 2
            &&& forall|r: int| 0 <= r < 15 && r != x ==> done.unwrap().v[r] == s.v@[r]
        }),
{
    lemma_shift_right(s.v@[x as int]);
}

/// A `CALL` followed by a `RET` comes back to where the `CALL` was issued
/// from: the program counter is the one the `CALL` saved, which after a
/// fetch is the address right behind the `CALL` instruction, and the stack
/// pointer is what it was. Only the stack slot that held the return
/// address keeps a trace of the call.
pub proof fn law_call_then_ret(s: Interpreter, nnn: u16)
    requires
        s.wf(),
        s.sp < 16,
    ensures
        ({
            let called = s@.call_nnn(nnn);
            &&& called is Ok
            &&& called.unwrap().ret() is Ok
            &&& called.unwrap().ret().unwrap().pc == s.pc
            &&& called.unwrap().ret().unwrap().sp == s.sp
            &&& called.unwrap().ret().unwrap() == (Machine {
                stack: s@.stack.update(s.sp as int, s.pc),
                ..s@
            })
        }),
{
}

/// The same over whole instruction cycles: when the word at the program
/// counter is a `CALL` and the word at its target is a `RET`, two cycles
/// leave the program counter right behind the `CALL` instruction and the
/// stack pointer where it was.
pub proof fn law_call_then_ret_cycles(s: Interpreter, nnn: u16)
    requires
        s.wf(),
        s.sp < 16,
        s@.can_fetch(),
        decode_word(s@.word_at_pc()) == (Instruction::CallNnn { nnn }),
        nnn + 1 < 4096,
        decode_word((s.memory@[nnn as int] * 0x100 + s.memory@[nnn + 1]) as u16)
            == Instruction::Ret,
    ensures
        steps(s@, 2) is Ok,
        steps(s@, 2).unwrap().pc == s.pc + 2,
        steps(s@, 2).unwrap().sp == s.sp,
{
    reveal_with_fuel(steps, 3);
    let called = s@.step().unwrap();
    assert(called.pc == nnn);
    assert(called.memory == s.memory@);
}

/// Calls nest as long as there is a free slot: from a stack holding `sp`
/// addresses, any `16 - sp` or fewer calls in a row all succeed and fill
/// one slot each.
pub proof fn law_calls_fill_stack(s: Interpreter, targets: Seq<u16>)
    requires
        s.wf(),
        s.sp + targets.len() <= 16,
    ensures
        nested_calls(s@, targets) is Ok,
        nested_calls(s@, targets).unwrap().sp == s.sp + targets.len(),
        nested_calls(s@, targets).unwrap().wf(),
    decreases targets.len(),
{
    if targets.len() > 0 {
        law_calls_fill_stack(s, targets.drop_last());
    }
}

/// Sixteen calls in a row from an empty stack succeed, and whatever the
/// seventeenth targets, it is refused with a stack overflow. (A refused
/// operation leaves the machine untouched: see `agrees`.)
pub proof fn law_seventeenth_call_overflows(s: Interpreter, targets: Seq<u16>, nnn: u16)
    requires
        s.wf(),
        s.sp == 0,
        targets.len() == 16,
    ensures
        nested_calls(s@, targets) is Ok,
        nested_calls(s@, targets).unwrap().call_nnn(nnn) == Err::<Machine, Fault>(
            Fault::StackOverflow,
        ),
        nested_calls(s@, targets.push(nnn)) == Err::<Machine, Fault>(Fault::StackOverflow),
{
    law_calls_fill_stack(s, targets);
    assert(targets.push(nnn).drop_last() =~= targets);
}

/// Drawing is its own inverse: XORing the same sprite onto the same place
/// twice gives back the pixel buffer exactly, and the second drawing
/// collides exactly when the first one lit a pixel.
pub proof fn law_draw_twice(pixels: Seq<u8>, rows: Seq<u8>, left: int, top: int)
    requires
        binary(pixels),
    ensures
        ({
            let once = xor_sprite(pixels, rows, left, top);
            &&& xor_sprite(once, rows, left, top) == pixels
            &&& collides(once, rows, left, top) <==> exists|p: int|
                0 <= p < pixels.len() && pixels[p] == 0 && #[trigger] once[p] == 1
        }),
{
    let once = xor_sprite(pixels, rows, left, top);
    assert(xor_sprite(once, rows, left, top) =~= pixels) by {
        assert forall|p: int| 0 <= p < pixels.len() implies xor_sprite(once, rows, left, top)[p]
            == pixels[p] by {
            assert(pixels[p] <= 1);
        }
    }
    if collides(once, rows, left, top) {
        let p = choose|p: int|
            0 <= p < once.len() && sprite_hits(rows, left, top, p) && once[p] != 0;
        assert(pixels[p] <= 1);
        assert(pixels[p] == 0 && once[p] == 1);
    }
    if exists|p: int| 0 <= p < pixels.len() && pixels[p] == 0 && #[trigger] once[p] == 1 {
        let p = choose|p: int| 0 <= p < pixels.len() && pixels[p] == 0 && #[trigger] once[p] == 1;
        assert(sprite_hits(rows, left, top, p));
        assert(0 <= p < once.len() && sprite_hits(rows, left, top, p) && once[p] != 0);
    }
}

/// The same for the instruction: two `DRW` in a row with the same
/// operands restore the screen, and `VF` then tells whether the first one
/// lit a pixel. The coordinate registers must not be `VF`, which the first
/// `DRW` overwrites and so would move the second.
pub proof fn law_drw_twice(s: Interpreter, x: usize, y: usize, n: u8)
    requires
        s.screen.wf(),
        x < 15,
        y < 15,
        !s@.sprite_out_of_bounds(n),
    ensures
        ({
            let once = s@.drw_vx_vy_n(x as int, y as int, n);
            let twice = once.unwrap().drw_vx_vy_n(x as int, y as int, n);
            &&& once is Ok
            &&& twice is Ok
            &&& twice.unwrap().pixels == s@.pixels
            &&& twice.unwrap().v[15] == flag(
                exists|p: int|
                    0 <= p < 2048 && s@.pixels[p] == 0 && #[trigger] once.unwrap().pixels[p] == 1,
            )
        }),
{
    let left = (s.v@[x as int] % 64) as int;
    let top = (s.v@[y as int] % 32) as int;
    law_draw_twice(s@.pixels, s@.sprite(n), left, top);
}

/// The key wait blocks: while no key is down, a cycle that executes
/// `LD Vx, K` changes nothing at all, so any number of cycles leaves the
/// machine, its program counter included, as it was.
pub proof fn law_key_wait_blocks(s: Interpreter, x: usize, n: nat)
    requires
        s@.can_fetch(),
        decode_word(s@.word_at_pc()) == (Instruction::LdVxK { x }),
        none_pressed(s@.keys),
    ensures
        s@.step() == Ok::<Machine, Fault>(s@),
        steps(s@, n) == Ok::<Machine, Fault>(s@),
    decreases n,
{
    lemma_lowest_pressed_none(s@.keys);
    if n > 0 {
        law_key_wait_blocks(s, x, (n - 1) as nat);
    }
}

/// The key wait resumes: once a key is down, the cycle that executes
/// `LD Vx, K` moves the program counter on by two and puts the lowest
/// pressed key in `Vx`, and does nothing else.
pub proof fn law_key_wait_resumes(s: Interpreter, x: usize, key: int)
    requires
        s@.can_fetch(),
        decode_word(s@.word_at_pc()) == (Instruction::LdVxK { x }),
        is_lowest_pressed(s@.keys, key),
    ensures
        ({
            let done = s@.step();
            &&& done is Ok
            &&& done.unwrap().pc == s.pc + 2
            &&& done.unwrap().v[x as int] == key
            &&& done.unwrap() == (Machine {
                pc: (s.pc + 2) as u16,
                v: s@.v.update(x as int, key as u8),
                ..s@
            })
        }),
{
    lemma_lowest_pressed_is(s@.keys, key);
}

} // verus!
