//! Properties of the machine that hold across operations or over every
//! input, proved over the model that the emulator's contracts speak of.
use vstd::prelude::*;

use crate::machine::{
    alu_result, draw_pixels, op_class, op_n, op_x, op_y, sets_flag, Machine, Outcome, FLAG, RAM_SIZE,
};

verus! {

/// A fetch from an even address, with room in memory for the opcode and for
/// the advance, leaves the program counter even and inside memory.
pub proof fn lemma_fetch_keeps_counter_aligned(m: Machine)
    requires
        m.pc % 2 == 0,
        m.pc + 2 < RAM_SIZE,
    ensures
        match m.fetch() {
            Ok((fetched, _)) => fetched.pc % 2 == 0 && fetched.pc < RAM_SIZE,
            Err(_) => false,
        },
{
}

/// Every instruction that writes the flag register as a carry, borrow,
/// shifted-out bit or collision writes 0 or 1 there.
pub proof fn lemma_flag_is_bit(m: Machine, op: u16, rnd: u8)
    requires
        m.wf(),
        sets_flag(op),
    ensures
        match m.execute(op, rnd) {
            Ok((after, Outcome::Executed)) => after.v[FLAG as int] == 0 || after.v[FLAG as int] == 1,
            _ => true,
        },
{
    reveal(Machine::alu);
    reveal(Machine::draw);
    assert((op >> 8u16) & 0xF < 16 && (op >> 4u16) & 0xF < 16) by (bit_vector);
    let vx = m.v[op_x(op) as int];
    let vy = m.v[op_y(op) as int];
    assert(vx % 2 < 2 && vx / 128 < 2);
    if op_class(op) == 0x8 {
        match alu_result(vx, vy, op_n(op)) {
            Some((val, Some(flag))) => {
                assert(flag == 0 || flag == 1);
                assert(m.set_reg_flag(op_x(op) as int, val, flag).v[FLAG as int] == flag);
            },
            _ => {},
        }
    }
}

/// XOR-ing the same sprite in twice at the same anchor gives back the
/// framebuffer it started from.
proof fn lemma_draw_pixels_twice(screen: Seq<bool>, ram: Seq<u8>, addr: int, n: int, x0: int, y0: int)
    ensures
        draw_pixels(draw_pixels(screen, ram, addr, n, x0, y0), ram, addr, n, x0, y0) == screen,
{
    assert(draw_pixels(draw_pixels(screen, ram, addr, n, x0, y0), ram, addr, n, x0, y0) =~= screen);
}

/// Executing the same sprite draw twice, with neither coordinate taken from
/// the flag register (so that the anchor stays put), restores the
/// framebuffer exactly.
pub proof fn lemma_draw_twice_restores(m: Machine, op: u16, rnd: u8)
    requires
        m.wf(),
        op_class(op) == 0xD,
        op_x(op) != FLAG,
        op_y(op) != FLAG,
    ensures
        match m.execute(op, rnd) {
            Ok((once, _)) => match once.execute(op, rnd) {
                Ok((twice, _)) => twice.screen == m.screen,
                Err(_) => false,
            },
            Err(_) => true,
        },
{
    reveal(Machine::draw);
    assert((op >> 12u16) == 0xD ==> (op >> 8u16) & 0xF < 16 && (op >> 4u16) & 0xF < 16) by (bit_vector);
    let x0 = m.v[op_x(op) as int] as int % 64;
    let y0 = m.v[op_y(op) as int] as int % 32;
    lemma_draw_pixels_twice(m.screen, m.ram, m.i as int, (op & 0xF) as int, x0, y0);
}

/// Timers never go below zero: after `count` timer steps each timer holds
/// its old value less `count`, or zero once that would be negative.
pub proof fn lemma_timers_saturate(m: Machine, count: nat)
    ensures
        m.tick_timers_n(count).dt == if m.dt >= count { m.dt - count } else { 0 },
        m.tick_timers_n(count).st == if m.st >= count { m.st - count } else { 0 },
    decreases count,
{
    if count > 0 {
        lemma_timers_saturate(m.tick_timers(), (count - 1) as nat);
    }
}

} // verus!
