//! The mathematical model of the CHIP-8 machine: its state as sequences and
//! integers, and the effect of every operation on that state.
use vstd::prelude::*;

verus! {

/// Bytes of addressable memory.
pub const RAM_SIZE: usize = 4096;

/// General registers; the last one doubles as the flag register.
pub const NUM_REGISTERS: usize = 16;

/// Return addresses the call stack can hold.
pub const STACK_SIZE: usize = 16;

/// Keys on the keypad.
pub const NUM_KEYS: usize = 16;

/// Width of the framebuffer in pixels.
pub const SCREEN_WIDTH: usize = 64;

/// Height of the framebuffer in pixels.
pub const SCREEN_HEIGHT: usize = 32;

/// Pixels in the framebuffer, stored row by row.
pub const DISPLAY_SIZE: usize = 2048;

/// Where programs are loaded and where execution starts.
pub const START_ADDRESS: u16 = 0x200;

/// Index of the flag register.
pub const FLAG: usize = 15;

/// Bytes of the built-in font.
pub const FONTSET_SIZE: usize = 80;

/// Sprites of the hexadecimal digits 0 to F, five rows each, resident at the
/// bottom of memory.
pub const FONTSET: [u8; FONTSET_SIZE] = [
    0xF0, 0x90, 0x90, 0x90, 0xF0,
    0x20, 0x60, 0x20, 0x20, 0x70,
    0xF0, 0x10, 0xF0, 0x80, 0xF0,
    0xF0, 0x10, 0xF0, 0x10, 0xF0,
    0x90, 0x90, 0xF0, 0x10, 0x10,
    0xF0, 0x80, 0xF0, 0x10, 0xF0,
    0xF0, 0x80, 0xF0, 0x90, 0xF0,
    0xF0, 0x10, 0x20, 0x40, 0x40,
    0xF0, 0x90, 0xF0, 0x90, 0xF0,
    0xF0, 0x90, 0xF0, 0x10, 0xF0,
    0xF0, 0x90, 0xF0, 0x90, 0x90,
    0xE0, 0x90, 0xE0, 0x90, 0xE0,
    0xF0, 0x80, 0x80, 0x80, 0xF0,
    0xE0, 0x90, 0x90, 0x90, 0xE0,
    0xF0, 0x80, 0xF0, 0x80, 0xF0,
    0xF0, 0x80, 0xF0, 0x80, 0x80,
];

/// A condition that stops the machine, or a request that cannot be met.
#[derive(PartialEq, Eq, Structural, Debug, Clone, Copy)]
pub enum Fault {
    /// The machine stopped after an earlier fault; `reset` restarts it.
    Halted,
    /// The program counter or a sprite row points outside memory.
    AddressOutOfRange,
    /// A call with all stack slots in use.
    StackOverflow,
    /// A return with an empty stack.
    StackUnderflow,
    /// A key instruction names a key beyond the keypad.
    KeyOutOfRange,
    /// A program larger than the memory above the start address.
    RomTooLarge,
}

/// What one completed instruction step did.
#[derive(PartialEq, Eq, Structural, Debug, Clone, Copy)]
pub enum Outcome {
    /// The opcode was recognised and carried out.
    Executed,
    /// The opcode matched no instruction; nothing but the fetch took effect.
    Unknown(u16),
}

/// The whole state of the machine.
pub struct Machine {
    pub ram: Seq<u8>,
    pub v: Seq<u8>,
    pub pc: u16,
    pub stack: Seq<u16>,
    pub sp: u8,
    pub screen: Seq<bool>,
    pub keys: Seq<bool>,
    pub i: u16,
    pub dt: u8,
    pub st: u8,
    pub running: bool,
}

/// Memory right after construction: the font at the bottom, zeros elsewhere.
pub open spec fn initial_ram() -> Seq<u8> {
    Seq::new(RAM_SIZE as nat, |k: int| if k < FONTSET_SIZE { FONTSET@[k] } else { 0u8 })
}

/// The opcode stored big-endian at `addr` and `addr + 1`.
pub open spec fn opcode_at(ram: Seq<u8>, addr: int) -> u16 {
    (ram[addr] as int * 256 + ram[addr + 1] as int) as u16
}

/// The instruction class: the most significant nibble.
pub open spec fn op_class(op: u16) -> u16 {
    op >> 12
}

/// The second nibble, usually a register index.
pub open spec fn op_x(op: u16) -> u16 {
    (op >> 8) & 0xF
}

/// The third nibble, a register index or a sub-selector.
pub open spec fn op_y(op: u16) -> u16 {
    (op >> 4) & 0xF
}

/// The least significant nibble.
pub open spec fn op_n(op: u16) -> u16 {
    op & 0xF
}

/// The low byte, an immediate value or a sub-opcode.
pub open spec fn op_nn(op: u16) -> u16 {
    op & 0xFF
}

/// The low twelve bits, an address.
pub open spec fn op_nnn(op: u16) -> u16 {
    op & 0xFFF
}

/// The lowest index at or after `k` of a pressed key, if any.
pub open spec fn first_pressed_from(keys: Seq<bool>, k: int) -> Option<int>
    decreases keys.len() - k,
{
    if k < 0 || k >= keys.len() {
        None
    } else if keys[k] {
        Some(k)
    } else {
        first_pressed_from(keys, k + 1)
    }
}

/// Whether the sprite of `n` rows at `addr`, anchored at column `x0` and
/// row `y0`, has a set bit over pixel `k`. Columns wrap modulo the width and
/// rows modulo the height.
pub open spec fn sprite_covers(ram: Seq<u8>, addr: int, n: int, x0: int, y0: int, k: int) -> bool {
    let col = (k % 64 + 64 - x0) % 64;
    let row = (k / 64 + 32 - y0) % 32;
    col < 8 && row < n && ram[addr + row] & (0x80u8 >> (col as u8)) != 0
}

/// The framebuffer after XOR-ing that sprite in.
pub open spec fn draw_pixels(screen: Seq<bool>, ram: Seq<u8>, addr: int, n: int, x0: int, y0: int) -> Seq<bool> {
    Seq::new(
        screen.len(),
        |k: int| if sprite_covers(ram, addr, n, x0, y0, k) { !screen[k] } else { screen[k] },
    )
}

/// Whether drawing that sprite turns some set pixel off.
pub open spec fn collides(screen: Seq<bool>, ram: Seq<u8>, addr: int, n: int, x0: int, y0: int) -> bool {
    exists|k: int| 0 <= k < screen.len() && #[trigger] sprite_covers(ram, addr, n, x0, y0, k) && screen[k]
}

/// What 8XYN computes from VX and VY: the new VX and, for the operations
/// that report a carry, borrow or shifted-out bit, the new flag register.
/// `None` where N names no operation.
pub open spec fn alu_result(vx: u8, vy: u8, n: u16) -> Option<(u8, Option<u8>)> {
    if n == 0 {
        Some((vy, None))
    } else if n == 1 {
        Some((vx | vy, None))
    } else if n == 2 {
        Some((vx & vy, None))
    } else if n == 3 {
        Some((vx ^ vy, None))
    } else if n == 4 {
        let sum = vx as int + vy as int;
        Some(((sum % 256) as u8, Some(if sum > 255 { 1u8 } else { 0u8 })))
    } else if n == 5 {
        Some((((vx as int - vy as int + 256) % 256) as u8, Some(if vx >= vy { 1u8 } else { 0u8 })))
    } else if n == 6 {
        Some((vx / 2, Some(vx % 2)))
    } else if n == 7 {
        Some((((vy as int - vx as int + 256) % 256) as u8, Some(if vy >= vx { 1u8 } else { 0u8 })))
    } else if n == 0xE {
        Some((((vx as int * 2) % 256) as u8, Some(vx / 128)))
    } else {
        None
    }
}

/// The opcodes whose effect includes a write of the flag register.
pub open spec fn sets_flag(op: u16) -> bool {
    ||| op_class(op) == 0xD
    ||| op_class(op) == 0x8 && (op_n(op) == 4 || op_n(op) == 5 || op_n(op) == 6 || op_n(op) == 7 || op_n(op) == 0xE)
}

/// Whether an operation that returned `r` and left the state `after`, on the
/// state `before`, did what `expected` says: on success the expected state
/// and outcome, on a fault that fault with the state untouched.
pub open spec fn applied(
    before: Machine,
    after: Machine,
    r: Result<Outcome, Fault>,
    expected: Result<(Machine, Outcome), Fault>,
) -> bool {
    match expected {
        Ok((m, out)) => after == m && r == Ok::<Outcome, Fault>(out),
        Err(f) => after == before && r == Err::<Outcome, Fault>(f),
    }
}

impl Machine {
    /// The state of a freshly constructed emulator.
    pub open spec fn initial() -> Machine {
        Machine {
            ram: initial_ram(),
            v: Seq::new(NUM_REGISTERS as nat, |k: int| 0u8),
            pc: START_ADDRESS,
            stack: Seq::new(STACK_SIZE as nat, |k: int| 0u16),
            sp: 0,
            screen: Seq::new(DISPLAY_SIZE as nat, |k: int| false),
            keys: Seq::new(NUM_KEYS as nat, |k: int| false),
            i: 0,
            dt: 0,
            st: 0,
            running: true,
        }
    }

    /// Every sequence has its fixed size and the stack pointer is in range.
    pub open spec fn wf(self) -> bool {
        &&& self.ram.len() == RAM_SIZE
        &&& self.v.len() == NUM_REGISTERS
        &&& self.stack.len() == STACK_SIZE
        &&& self.sp <= STACK_SIZE
        &&& self.screen.len() == DISPLAY_SIZE
        &&& self.keys.len() == NUM_KEYS
    }

    /// The state with execution stopped.
    pub open spec fn halt(self) -> Machine {
        Machine { running: false, ..self }
    }

    /// Register `x` set to `val`.
    pub open spec fn set_reg(self, x: int, val: u8) -> Machine {
        Machine { v: self.v.update(x, val), ..self }
    }

    /// Register `x` set to `val`, then the flag register to `flag`.
    pub open spec fn set_reg_flag(self, x: int, val: u8, flag: u8) -> Machine {
        Machine { v: self.v.update(x, val).update(FLAG as int, flag), ..self }
    }

    /// The next instruction skipped when `cond` holds.
    pub open spec fn skip_if(self, cond: bool) -> Machine {
        if cond {
            Machine { pc: (self.pc + 2) as u16, ..self }
        } else {
            self
        }
    }

    /// The opcode at the program counter, with the counter advanced past it.
    pub open spec fn fetch(self) -> Result<(Machine, u16), Fault> {
        if self.pc as int + 1 >= RAM_SIZE {
            Err(Fault::AddressOutOfRange)
        } else {
            Ok((Machine { pc: (self.pc + 2) as u16, ..self }, opcode_at(self.ram, self.pc as int)))
        }
    }

    /// A return address pushed onto the call stack.
    pub open spec fn push(self, value: u16) -> Result<Machine, Fault> {
        if self.sp as int >= STACK_SIZE {
            Err(Fault::StackOverflow)
        } else {
            Ok(Machine { stack: self.stack.update(self.sp as int, value), sp: (self.sp + 1) as u8, ..self })
        }
    }

    /// The topmost return address, taken off the call stack.
    pub open spec fn pop(self) -> Result<(Machine, u16), Fault> {
        if self.sp == 0 {
            Err(Fault::StackUnderflow)
        } else {
            Ok((Machine { sp: (self.sp - 1) as u8, ..self }, self.stack[self.sp - 1]))
        }
    }

    /// The effect of the 8XYN arithmetic and logic group.
    #[verifier::opaque]
    pub open spec fn alu(self, op: u16) -> Result<(Machine, Outcome), Fault> {
        let x = op_x(op) as int;
        match alu_result(self.v[x], self.v[op_y(op) as int], op_n(op)) {
            Some((val, Some(flag))) => Ok((self.set_reg_flag(x, val, flag), Outcome::Executed)),
            Some((val, None)) => Ok((self.set_reg(x, val), Outcome::Executed)),
            None => Ok((self, Outcome::Unknown(op))),
        }
    }

    /// The effect of the DXYN sprite draw.
    #[verifier::opaque]
    pub open spec fn draw(self, op: u16) -> Result<(Machine, Outcome), Fault> {
        let n = op_n(op) as int;
        let x0 = self.v[op_x(op) as int] as int % 64;
        let y0 = self.v[op_y(op) as int] as int % 32;
        if n > 0 && self.i as int + n > RAM_SIZE {
            Err(Fault::AddressOutOfRange)
        } else {
            let flag: u8 = if collides(self.screen, self.ram, self.i as int, n, x0, y0) { 1 } else { 0 };
            let screen = draw_pixels(self.screen, self.ram, self.i as int, n, x0, y0);
            Ok((Machine { screen, v: self.v.update(FLAG as int, flag), ..self }, Outcome::Executed))
        }
    }

    /// The effect of the EX9E and EXA1 key skips.
    pub open spec fn key_skip(self, op: u16, when_pressed: bool) -> Result<(Machine, Outcome), Fault> {
        let key = self.v[op_x(op) as int];
        if key as int >= NUM_KEYS {
            Err(Fault::KeyOutOfRange)
        } else {
            Ok((self.skip_if(self.keys[key as int] == when_pressed), Outcome::Executed))
        }
    }

    /// The effect of the FX0A key wait: the lowest pressed key into
    /// register X, or the counter rewound so the wait runs again.
    pub open spec fn wait_key(self, op: u16) -> Machine {
        match first_pressed_from(self.keys, 0) {
            Some(k) => self.set_reg(op_x(op) as int, k as u8),
            None => Machine { pc: (self.pc - 2) as u16, ..self },
        }
    }

    /// The control-flow opcodes: 0000 (no operation), 00E0 (clear the
    /// screen), 00EE (return), 1NNN (jump), 2NNN (call) and BNNN (jump
    /// offset by V0).
    #[verifier::opaque]
    pub open spec fn flow(self, op: u16) -> Result<(Machine, Outcome), Fault> {
        let c = op_class(op);
        let nnn = op_nnn(op);
        if op == 0x0000 {
            Ok((self, Outcome::Executed))
        } else if op == 0x00E0 {
            Ok((Machine { screen: Seq::new(DISPLAY_SIZE as nat, |k: int| false), ..self }, Outcome::Executed))
        } else if op == 0x00EE {
            match self.pop() {
                Ok((m, addr)) => Ok((Machine { pc: addr, ..m }, Outcome::Executed)),
                Err(f) => Err(f),
            }
        } else if c == 0x1 {
            Ok((Machine { pc: nnn, ..self }, Outcome::Executed))
        } else if c == 0x2 {
            match self.push(self.pc) {
                Ok(m) => Ok((Machine { pc: nnn, ..m }, Outcome::Executed)),
                Err(f) => Err(f),
            }
        } else if c == 0xB {
            Ok((Machine { pc: (nnn + self.v[0] as u16) as u16, ..self }, Outcome::Executed))
        } else {
            Ok((self, Outcome::Unknown(op)))
        }
    }

    /// The conditional skips on registers: 3XNN, 4XNN, 5XY0 and 9XY0.
    #[verifier::opaque]
    pub open spec fn skip(self, op: u16) -> Result<(Machine, Outcome), Fault> {
        let c = op_class(op);
        let vx = self.v[op_x(op) as int];
        let vy = self.v[op_y(op) as int];
        let nn = op_nn(op);
        if c == 0x3 {
            Ok((self.skip_if(vx as u16 == nn), Outcome::Executed))
        } else if c == 0x4 {
            Ok((self.skip_if(vx as u16 != nn), Outcome::Executed))
        } else if c == 0x5 && op_n(op) == 0 {
            Ok((self.skip_if(vx == vy), Outcome::Executed))
        } else if c == 0x9 && op_n(op) == 0 {
            Ok((self.skip_if(vx != vy), Outcome::Executed))
        } else {
            Ok((self, Outcome::Unknown(op)))
        }
    }

    /// The opcodes with an immediate operand: 6XNN (set), 7XNN (add,
    /// wrapping), ANNN (set the index register) and CXNN (random byte masked
    /// by NN, the byte being `rnd`).
    #[verifier::opaque]
    pub open spec fn immediate(self, op: u16, rnd: u8) -> Result<(Machine, Outcome), Fault> {
        let c = op_class(op);
        let x = op_x(op) as int;
        let nn = op_nn(op);
        if c == 0x6 {
            Ok((self.set_reg(x, nn as u8), Outcome::Executed))
        } else if c == 0x7 {
            Ok((self.set_reg(x, ((self.v[x] as int + nn as int) % 256) as u8), Outcome::Executed))
        } else if c == 0xA {
            Ok((Machine { i: op_nnn(op), ..self }, Outcome::Executed))
        } else if c == 0xC {
            Ok((self.set_reg(x, rnd & (nn as u8)), Outcome::Executed))
        } else {
            Ok((self, Outcome::Unknown(op)))
        }
    }

    /// The keypad and timer opcodes: EX9E, EXA1, FX07, FX0A, FX15, FX18 and
    /// FX1E.
    #[verifier::opaque]
    pub open spec fn io(self, op: u16) -> Result<(Machine, Outcome), Fault> {
        let c = op_class(op);
        let x = op_x(op) as int;
        let vx = self.v[x];
        let nn = op_nn(op);
        if c == 0xE && nn == 0x9E {
            self.key_skip(op, true)
        } else if c == 0xE && nn == 0xA1 {
            self.key_skip(op, false)
        } else if c == 0xF && nn == 0x07 {
            Ok((self.set_reg(x, self.dt), Outcome::Executed))
        } else if c == 0xF && nn == 0x0A {
            Ok((self.wait_key(op), Outcome::Executed))
        } else if c == 0xF && nn == 0x15 {
            Ok((Machine { dt: vx, ..self }, Outcome::Executed))
        } else if c == 0xF && nn == 0x18 {
            Ok((Machine { st: vx, ..self }, Outcome::Executed))
        } else if c == 0xF && nn == 0x1E {
            Ok((Machine { i: ((self.i as int + vx as int) % 0x10000) as u16, ..self }, Outcome::Executed))
        } else {
            Ok((self, Outcome::Unknown(op)))
        }
    }

    /// The effect of opcode `op` on a state whose counter has already been
    /// advanced past it; `rnd` is the random byte CXNN masks. The class
    /// nibble selects a group; within each group the most specific pattern
    /// is tried first, and an opcode that matches none changes nothing.
    pub open spec fn execute(self, op: u16, rnd: u8) -> Result<(Machine, Outcome), Fault> {
        let c = op_class(op);
        if c == 0x0 || c == 0x1 || c == 0x2 || c == 0xB {
            self.flow(op)
        } else if c == 0x3 || c == 0x4 || c == 0x5 || c == 0x9 {
            self.skip(op)
        } else if c == 0x6 || c == 0x7 || c == 0xA || c == 0xC {
            self.immediate(op, rnd)
        } else if c == 0x8 {
            self.alu(op)
        } else if c == 0xD {
            self.draw(op)
        } else {
            self.io(op)
        }
    }

    /// One instruction step: fetch, then execute. A halted machine does
    /// nothing; a fault leaves the state as it was before the step, halted.
    pub open spec fn step(self, rnd: u8) -> (Machine, Result<Outcome, Fault>) {
        if !self.running {
            (self, Err(Fault::Halted))
        } else {
            match self.fetch() {
                Err(f) => (self.halt(), Err(f)),
                Ok((fetched, op)) => match fetched.execute(op, rnd) {
                    Ok((m, out)) => (m, Ok(out)),
                    Err(f) => (self.halt(), Err(f)),
                },
            }
        }
    }

    /// One timer step: each nonzero timer goes down by one.
    pub open spec fn tick_timers(self) -> Machine {
        Machine {
            dt: if self.dt > 0 { (self.dt - 1) as u8 } else { 0 },
            st: if self.st > 0 { (self.st - 1) as u8 } else { 0 },
            ..self
        }
    }

    /// `count` timer steps in a row.
    pub open spec fn tick_timers_n(self, count: nat) -> Machine
        decreases count,
    {
        if count == 0 {
            self
        } else {
            self.tick_timers().tick_timers_n((count - 1) as nat)
        }
    }

    /// `rom` copied into memory at the start address, if it fits.
    pub open spec fn load(self, rom: Seq<u8>) -> Result<Machine, Fault> {
        if rom.len() > RAM_SIZE - START_ADDRESS {
            Err(Fault::RomTooLarge)
        } else {
            Ok(Machine {
                ram: Seq::new(
                    self.ram.len(),
                    |k: int|
                        if START_ADDRESS <= k < START_ADDRESS + rom.len() {
                            rom[k - START_ADDRESS]
                        } else {
                            self.ram[k]
                        },
                ),
                ..self
            })
        }
    }

    /// Key `key` set to `pressed`.
    pub open spec fn set_key(self, key: int, pressed: bool) -> Machine {
        Machine { keys: self.keys.update(key, pressed), ..self }
    }
}

} // verus!
