//! The emulator itself: fixed-size state and the operations the host drives.
use vstd::prelude::*;

use crate::machine::{
    alu_result, applied, collides, draw_pixels, first_pressed_from, initial_ram, op_x,
    sprite_covers, Fault, Machine, Outcome, DISPLAY_SIZE, FLAG, FONTSET, FONTSET_SIZE, NUM_KEYS,
    NUM_REGISTERS, RAM_SIZE, STACK_SIZE, START_ADDRESS,
};

verus! {

/// A CHIP-8 virtual machine. All storage is allocated once, at construction.
pub struct Emu {
    ram: [u8; RAM_SIZE],
    v: [u8; NUM_REGISTERS],
    pc: u16,
    stack: [u16; STACK_SIZE],
    screen: [bool; DISPLAY_SIZE],
    keys: [bool; NUM_KEYS],
    sp: u8,
    i: u16,
    dt: u8,
    st: u8,
    running: bool,
}

impl View for Emu {
    type V = Machine;

    closed spec fn view(&self) -> Machine {
        Machine {
            ram: self.ram@,
            v: self.v@,
            pc: self.pc,
            stack: self.stack@,
            sp: self.sp,
            screen: self.screen@,
            keys: self.keys@,
            i: self.i,
            dt: self.dt,
            st: self.st,
            running: self.running,
        }
    }
}

/// Copies the font into the bottom of `ram`, leaving the rest as it was.
fn install_font(ram: &mut [u8; RAM_SIZE])
    ensures
        forall|k: int| 0 <= k < FONTSET_SIZE ==> final(ram)@[k] == FONTSET@[k],
        forall|k: int| FONTSET_SIZE <= k < RAM_SIZE ==> final(ram)@[k] == old(ram)@[k],
{
    let mut k: usize = 0;
    while k < FONTSET_SIZE
        invariant
            k <= FONTSET_SIZE,
            forall|j: int| 0 <= j < k ==> ram@[j] == FONTSET@[j],
            forall|j: int| k <= j < RAM_SIZE ==> ram@[j] == old(ram)@[j],
        decreases FONTSET_SIZE - k,
    {
        ram[k] = FONTSET[k];
        k = k + 1;
    }
}

impl Emu {
    /// The state invariant: the stack pointer never passes the stack's end.
    pub closed spec fn wf(&self) -> bool {
        self@.wf()
    }

    /// A machine with the font resident, everything else zeroed, and the
    /// program counter at the start address.
    pub fn new() -> (r: Emu)
        ensures
            r.wf(),
            r@ == Machine::initial(),
    {
        let mut emu = Emu {
            ram: [0u8; RAM_SIZE],
            v: [0u8; NUM_REGISTERS],
            pc: START_ADDRESS,
            stack: [0u16; STACK_SIZE],
            screen: [false; DISPLAY_SIZE],
            keys: [false; NUM_KEYS],
            sp: 0,
            i: 0,
            dt: 0,
            st: 0,
            running: true,
        };
        install_font(&mut emu.ram);
        proof {
            emu.lemma_initial();
        }
        emu
    }

    proof fn lemma_initial(&self)
        requires
            forall|k: int| 0 <= k < FONTSET_SIZE ==> self.ram@[k] == FONTSET@[k],
            forall|k: int| FONTSET_SIZE <= k < RAM_SIZE ==> self.ram@[k] == 0,
            forall|k: int| 0 <= k < NUM_REGISTERS ==> self.v@[k] == 0,
            forall|k: int| 0 <= k < STACK_SIZE ==> self.stack@[k] == 0,
            forall|k: int| 0 <= k < DISPLAY_SIZE ==> !self.screen@[k],
            forall|k: int| 0 <= k < NUM_KEYS ==> !self.keys@[k],
            self.pc == START_ADDRESS,
            self.sp == 0,
            self.i == 0,
            self.dt == 0,
            self.st == 0,
            self.running,
        ensures
            self.wf(),
            self@ == Machine::initial(),
    {
        assert(self.ram@ =~= initial_ram());
        assert(self.v@ =~= Machine::initial().v);
        assert(self.stack@ =~= Machine::initial().stack);
        assert(self.screen@ =~= Machine::initial().screen);
        assert(self.keys@ =~= Machine::initial().keys);
    }

    /// Restores the state of a fresh machine in place.
    pub fn reset(&mut self)
        ensures
            final(self).wf(),
            final(self)@ == Machine::initial(),
    {
        self.ram = [0u8; RAM_SIZE];
        self.v = [0u8; NUM_REGISTERS];
        self.pc = START_ADDRESS;
        self.stack = [0u16; STACK_SIZE];
        self.screen = [false; DISPLAY_SIZE];
        self.keys = [false; NUM_KEYS];
        self.sp = 0;
        self.i = 0;
        self.dt = 0;
        self.st = 0;
        self.running = true;
        install_font(&mut self.ram);
        proof {
            self.lemma_initial();
        }
    }

    /// Reads the big-endian opcode at the program counter and advances the
    /// counter by two; fails, changing nothing, where the opcode would reach
    /// past the end of memory.
    pub fn fetch(&mut self) -> (r: Result<u16, Fault>)
        requires
            old(self).wf(),
        ensures
            final(self).wf(),
            match old(self)@.fetch() {
                Ok((m, op)) => r == Ok::<u16, Fault>(op) && final(self)@ == m,
                Err(f) => r == Err::<u16, Fault>(f) && final(self)@ == old(self)@,
            },
    {
        if self.pc as usize + 1 >= RAM_SIZE {
            return Err(Fault::AddressOutOfRange);
        }
        let hi = self.ram[self.pc as usize] as u16;
        let lo = self.ram[self.pc as usize + 1] as u16;
        self.pc = self.pc + 2;
        let op = hi << 8u16 | lo;
        assert(hi << 8u16 | lo == hi * 256 + lo) by (bit_vector)
            requires
                hi < 256,
                lo < 256,
        ;
        Ok(op)
    }

    /// Pushes a return address; fails, changing nothing, when the stack is
    /// full.
    pub fn push(&mut self, value: u16) -> (r: Result<(), Fault>)
        requires
            old(self).wf(),
        ensures
            final(self).wf(),
            match old(self)@.push(value) {
                Ok(m) => r == Ok::<(), Fault>(()) && final(self)@ == m,
                Err(f) => r == Err::<(), Fault>(f) && final(self)@ == old(self)@,
            },
    {
        if self.sp as usize >= STACK_SIZE {
            return Err(Fault::StackOverflow);
        }
        self.stack[self.sp as usize] = value;
        self.sp = self.sp + 1;
        Ok(())
    }

    /// Pops the most recent return address; fails, changing nothing, when
    /// the stack is empty.
    pub fn pop(&mut self) -> (r: Result<u16, Fault>)
        requires
            old(self).wf(),
        ensures
            final(self).wf(),
            match old(self)@.pop() {
                Ok((m, addr)) => r == Ok::<u16, Fault>(addr) && final(self)@ == m,
                Err(f) => r == Err::<u16, Fault>(f) && final(self)@ == old(self)@,
            },
    {
        if self.sp == 0 {
            return Err(Fault::StackUnderflow);
        }
        self.sp = self.sp - 1;
        Ok(self.stack[self.sp as usize])
    }

    /// The 8XYN group: register-to-register moves, logic and arithmetic.
    fn alu(&mut self, op: u16) -> (r: Result<Outcome, Fault>)
        requires
            old(self).wf(),
        ensures
            final(self).wf(),
            applied(old(self)@, final(self)@, r, old(self)@.alu(op)),
    {
        reveal(Machine::alu);
        let x = ((op >> 8u16) & 0xF) as usize;
        let y = ((op >> 4u16) & 0xF) as usize;
        assert((op >> 8u16) & 0xF < 16 && (op >> 4u16) & 0xF < 16) by (bit_vector);
        match alu_value(self.v[x], self.v[y], op & 0xF) {
            Some((val, Some(flag))) => {
                self.v[x] = val;
                self.v[FLAG] = flag;
            },
            Some((val, None)) => {
                self.v[x] = val;
            },
            None => {
                return Ok(Outcome::Unknown(op));
            },
        }
        Ok(Outcome::Executed)
    }

    /// DXYN: XORs an N-row sprite from the index register's address onto the
    /// framebuffer at (VX, VY), setting the flag register on a collision.
    fn draw(&mut self, op: u16) -> (r: Result<Outcome, Fault>)
        requires
            old(self).wf(),
        ensures
            final(self).wf(),
            applied(old(self)@, final(self)@, r, old(self)@.draw(op)),
    {
        let x = ((op >> 8u16) & 0xF) as usize;
        let y = ((op >> 4u16) & 0xF) as usize;
        let n = (op & 0xF) as usize;
        assert((op >> 8u16) & 0xF < 16 && (op >> 4u16) & 0xF < 16 && op & 0xF < 16) by (bit_vector);
        reveal(Machine::draw);
        let addr = self.i as usize;
        if n > 0 && addr + n > RAM_SIZE {
            return Err(Fault::AddressOutOfRange);
        }
        let x0 = (self.v[x] % 64) as usize;
        let y0 = (self.v[y] % 32) as usize;
        let flipped = xor_sprite(&mut self.screen, &self.ram, addr, n, x0, y0);
        self.v[FLAG] = if flipped { 1 } else { 0 };
        Ok(Outcome::Executed)
    }

    /// EX9E and EXA1: skips the next instruction when the key named by VX
    /// is in the state `when_pressed`.
    fn key_skip(&mut self, op: u16, when_pressed: bool) -> (r: Result<Outcome, Fault>)
        requires
            old(self).wf(),
            old(self).pc <= RAM_SIZE,
        ensures
            final(self).wf(),
            applied(old(self)@, final(self)@, r, old(self)@.key_skip(op, when_pressed)),
    {
        let x = ((op >> 8u16) & 0xF) as usize;
        assert((op >> 8u16) & 0xF < 16) by (bit_vector);
        let key = self.v[x] as usize;
        if key >= NUM_KEYS {
            return Err(Fault::KeyOutOfRange);
        }
        if self.keys[key] == when_pressed {
            self.pc = self.pc + 2;
        }
        Ok(Outcome::Executed)
    }

    /// FX0A: stores the lowest pressed key in VX, or, with no key pressed,
    /// rewinds the counter so that the wait runs again on the next step.
    fn wait_key(&mut self, op: u16)
        requires
            old(self).wf(),
            old(self).pc >= 2,
        ensures
            final(self).wf(),
            final(self)@ == old(self)@.wait_key(op),
    {
        let x = ((op >> 8u16) & 0xF) as usize;
        assert((op >> 8u16) & 0xF < 16) by (bit_vector);
        let mut k: usize = 0;
        while k < NUM_KEYS
            invariant
                k <= NUM_KEYS,
                x == op_x(op),
                x < NUM_REGISTERS,
                self.wf(),
                self@ == old(self)@,
                first_pressed_from(self.keys@, 0) == first_pressed_from(self.keys@, k as int),
            decreases NUM_KEYS - k,
        {
            if self.keys[k] {
                assert(first_pressed_from(self.keys@, k as int) == Some(k as int));
                self.v[x] = k as u8;
                return;
            }
            k = k + 1;
        }
        self.pc = self.pc - 2;
    }

    /// 0000, 00E0, 00EE, 1NNN, 2NNN and BNNN.
    fn flow(&mut self, op: u16) -> (r: Result<Outcome, Fault>)
        requires
            old(self).wf(),
            old(self).pc <= RAM_SIZE,
        ensures
            final(self).wf(),
            applied(old(self)@, final(self)@, r, old(self)@.flow(op)),
    {
        reveal(Machine::flow);
        let c = op >> 12u16;
        let nnn = op & 0xFFF;
        assert(op & 0xFFF < 4096) by (bit_vector);
        if op == 0x0000 {
        } else if op == 0x00E0 {
            self.screen = [false; DISPLAY_SIZE];
            assert(self.screen@ =~= Seq::new(DISPLAY_SIZE as nat, |k: int| false));
        } else if op == 0x00EE {
            match self.pop() {
                Ok(addr) => self.pc = addr,
                Err(f) => return Err(f),
            }
        } else if c == 0x1 {
            self.pc = nnn;
        } else if c == 0x2 {
            let ret = self.pc;
            match self.push(ret) {
                Ok(()) => self.pc = nnn,
                Err(f) => return Err(f),
            }
        } else if c == 0xB {
            self.pc = nnn + self.v[0] as u16;
        } else {
            return Ok(Outcome::Unknown(op));
        }
        Ok(Outcome::Executed)
    }

    /// 3XNN, 4XNN, 5XY0 and 9XY0.
    fn skip(&mut self, op: u16) -> (r: Result<Outcome, Fault>)
        requires
            old(self).wf(),
            old(self).pc <= RAM_SIZE,
        ensures
            final(self).wf(),
            applied(old(self)@, final(self)@, r, old(self)@.skip(op)),
    {
        reveal(Machine::skip);
        let c = op >> 12u16;
        let x = ((op >> 8u16) & 0xF) as usize;
        let y = ((op >> 4u16) & 0xF) as usize;
        let n = op & 0xF;
        let nn = op & 0xFF;
        assert((op >> 8u16) & 0xF < 16 && (op >> 4u16) & 0xF < 16) by (bit_vector);
        let cond = if c == 0x3 {
            self.v[x] as u16 == nn
        } else if c == 0x4 {
            self.v[x] as u16 != nn
        } else if c == 0x5 && n == 0x0 {
            self.v[x] == self.v[y]
        } else if c == 0x9 && n == 0x0 {
            self.v[x] != self.v[y]
        } else {
            return Ok(Outcome::Unknown(op));
        };
        if cond {
            self.pc = self.pc + 2;
        }
        Ok(Outcome::Executed)
    }

    /// 6XNN, 7XNN, ANNN and CXNN, the last with `rnd` as the random byte.
    fn immediate(&mut self, op: u16, rnd: u8) -> (r: Result<Outcome, Fault>)
        requires
            old(self).wf(),
        ensures
            final(self).wf(),
            applied(old(self)@, final(self)@, r, old(self)@.immediate(op, rnd)),
    {
        reveal(Machine::immediate);
        let c = op >> 12u16;
        let x = ((op >> 8u16) & 0xF) as usize;
        let nn = op & 0xFF;
        assert((op >> 8u16) & 0xF < 16 && op & 0xFF < 256) by (bit_vector);
        if c == 0x6 {
            self.v[x] = nn as u8;
        } else if c == 0x7 {
            self.v[x] = self.v[x].wrapping_add(nn as u8);
        } else if c == 0xA {
            self.i = op & 0xFFF;
        } else if c == 0xC {
            self.v[x] = rnd & nn as u8;
        } else {
            return Ok(Outcome::Unknown(op));
        }
        Ok(Outcome::Executed)
    }

    /// EX9E, EXA1, FX07, FX0A, FX15, FX18 and FX1E.
    fn io(&mut self, op: u16) -> (r: Result<Outcome, Fault>)
        requires
            old(self).wf(),
            2 <= old(self).pc <= RAM_SIZE,
        ensures
            final(self).wf(),
            applied(old(self)@, final(self)@, r, old(self)@.io(op)),
    {
        reveal(Machine::io);
        let c = op >> 12u16;
        let x = ((op >> 8u16) & 0xF) as usize;
        let nn = op & 0xFF;
        assert((op >> 8u16) & 0xF < 16) by (bit_vector);
        if c == 0xE && nn == 0x9E {
            return self.key_skip(op, true);
        } else if c == 0xE && nn == 0xA1 {
            return self.key_skip(op, false);
        } else if c == 0xF && nn == 0x07 {
            self.v[x] = self.dt;
        } else if c == 0xF && nn == 0x0A {
            self.wait_key(op);
        } else if c == 0xF && nn == 0x15 {
            self.dt = self.v[x];
        } else if c == 0xF && nn == 0x18 {
            self.st = self.v[x];
        } else if c == 0xF && nn == 0x1E {
            self.i = self.i.wrapping_add(self.v[x] as u16);
        } else {
            return Ok(Outcome::Unknown(op));
        }
        Ok(Outcome::Executed)
    }

    /// Decodes and carries out `op` on a machine whose counter already
    /// points past it; `rnd` is the byte that CXNN masks. The class nibble
    /// picks the group, and each group tries its most specific patterns
    /// first. An opcode that matches nothing changes nothing and is
    /// reported as unknown.
    fn execute(&mut self, op: u16, rnd: u8) -> (r: Result<Outcome, Fault>)
        requires
            old(self).wf(),
            2 <= old(self).pc <= RAM_SIZE,
        ensures
            final(self).wf(),
            applied(old(self)@, final(self)@, r, old(self)@.execute(op, rnd)),
    {
        let c = op >> 12u16;
        if c == 0x0 || c == 0x1 || c == 0x2 || c == 0xB {
            self.flow(op)
        } else if c == 0x3 || c == 0x4 || c == 0x5 || c == 0x9 {
            self.skip(op)
        } else if c == 0x6 || c == 0x7 || c == 0xA || c == 0xC {
            self.immediate(op, rnd)
        } else if c == 0x8 {
            self.alu(op)
        } else if c == 0xD {
            self.draw(op)
        } else {
            self.io(op)
        }
    }

    /// One instruction step with `rnd` as the random byte: fetch, then
    /// execute. A halted machine reports `Halted` and does nothing. On a
    /// fault the state is left as it was before the step, and halted.
    pub fn tick_with(&mut self, rnd: u8) -> (r: Result<Outcome, Fault>)
        requires
            old(self).wf(),
        ensures
            final(self).wf(),
            (final(self)@, r) == old(self)@.step(rnd),
    {
        if !self.running {
            return Err(Fault::Halted);
        }
        let start = self.pc;
        let op = match self.fetch() {
            Ok(op) => op,
            Err(f) => {
                self.running = false;
                return Err(f);
            },
        };
        match self.execute(op, rnd) {
            Ok(out) => Ok(out),
            Err(f) => {
                self.pc = start;
                self.running = false;
                Err(f)
            },
        }
    }

    /// One instruction step, with the byte for CXNN drawn at random. Its
    /// effect is that of `tick_with` for some byte.
    pub fn tick(&mut self) -> (r: Result<Outcome, Fault>)
        requires
            old(self).wf(),
        ensures
            final(self).wf(),
            exists|b: u8| #[trigger] old(self)@.step(b) == (final(self)@, r),
    {
        let b = random_byte();
        let r = self.tick_with(b);
        assert(old(self)@.step(b) == (self@, r));
        r
    }

    /// One timer step: each timer that is not zero goes down by one.
    pub fn tick_timers(&mut self)
        requires
            old(self).wf(),
        ensures
            final(self).wf(),
            final(self)@ == old(self)@.tick_timers(),
    {
        if self.dt > 0 {
            self.dt = self.dt - 1;
        }
        if self.st > 0 {
            self.st = self.st - 1;
        }
    }

    /// Copies `rom` into memory from the start address on. A program that
    /// does not fit is refused before anything is written.
    pub fn load(&mut self, rom: &[u8]) -> (r: Result<(), Fault>)
        requires
            old(self).wf(),
        ensures
            final(self).wf(),
            match old(self)@.load(rom@) {
                Ok(m) => r == Ok::<(), Fault>(()) && final(self)@ == m,
                Err(f) => r == Err::<(), Fault>(f) && final(self)@ == old(self)@,
            },
    {
        let start = START_ADDRESS as usize;
        if rom.len() > RAM_SIZE - start {
            return Err(Fault::RomTooLarge);
        }
        let mut k: usize = 0;
        while k < rom.len()
            invariant
                k <= rom@.len(),
                rom@.len() <= RAM_SIZE - start,
                start == START_ADDRESS,
                self.wf(),
                self@ == (Machine { ram: self.ram@, ..old(self)@ }),
                forall|j: int| start <= j < start + k ==> self.ram@[j] == rom@[j - start],
                forall|j: int| 0 <= j < start || start + k <= j < RAM_SIZE ==> self.ram@[j] == old(self)@.ram[j],
            decreases rom@.len() - k,
        {
            self.ram[start + k] = rom[k];
            k = k + 1;
        }
        assert(self.ram@ =~= old(self)@.load(rom@).unwrap().ram);
        Ok(())
    }

    /// Records key `key` as pressed or released.
    pub fn keypress(&mut self, key: usize, pressed: bool)
        requires
            old(self).wf(),
            key < NUM_KEYS,
        ensures
            final(self).wf(),
            final(self)@ == old(self)@.set_key(key as int, pressed),
    {
        self.keys[key] = pressed;
    }

    /// The framebuffer, row by row, one flag per pixel.
    pub fn get_display(&self) -> (r: &[bool; DISPLAY_SIZE])
        ensures
            r@ == self@.screen,
    {
        &self.screen
    }

    /// The program counter.
    pub fn pc(&self) -> (r: u16)
        ensures
            r == self@.pc,
    {
        self.pc
    }

    /// General register `x`.
    pub fn register(&self, x: usize) -> (r: u8)
        requires
            x < NUM_REGISTERS,
        ensures
            r == self@.v[x as int],
    {
        self.v[x]
    }

    /// The index register.
    pub fn index_register(&self) -> (r: u16)
        ensures
            r == self@.i,
    {
        self.i
    }

    /// The delay timer.
    pub fn delay_timer(&self) -> (r: u8)
        ensures
            r == self@.dt,
    {
        self.dt
    }

    /// The sound timer; the host plays a tone while it is not zero.
    pub fn sound_timer(&self) -> (r: u8)
        ensures
            r == self@.st,
    {
        self.st
    }

    /// The number of return addresses on the call stack.
    pub fn stack_depth(&self) -> (r: u8)
        ensures
            r == self@.sp,
    {
        self.sp
    }

    /// The byte at `addr`.
    pub fn memory(&self, addr: usize) -> (r: u8)
        requires
            addr < RAM_SIZE,
        ensures
            r == self@.ram[addr as int],
    {
        self.ram[addr]
    }

    /// Whether the machine still runs, that is, no fault has stopped it
    /// since construction or the last reset.
    pub fn is_running(&self) -> (r: bool)
        ensures
            r == self@.running,
    {
        self.running
    }
}

/// Relies on rand::random: a byte from the thread-local generator. Nothing
/// is assumed of its value.
#[verifier::external_body]
fn random_byte() -> (r: u8) {
    rand::random::<u8>()
}

/// What 8XYN computes from `vx` and `vy`: the new VX and, where the
/// operation reports one, the new flag register.
fn alu_value(vx: u8, vy: u8, n: u16) -> (r: Option<(u8, Option<u8>)>)
    ensures
        r == alu_result(vx, vy, n),
{
    if n == 0x0 {
        Some((vy, None))
    } else if n == 0x1 {
        Some((vx | vy, None))
    } else if n == 0x2 {
        Some((vx & vy, None))
    } else if n == 0x3 {
        Some((vx ^ vy, None))
    } else if n == 0x4 {
        let carry: bool = vx as u16 + vy as u16 > 0xFF;
        Some((vx.wrapping_add(vy), Some(if carry { 1 } else { 0 })))
    } else if n == 0x5 {
        Some((vx.wrapping_sub(vy), Some(if vx >= vy { 1 } else { 0 })))
    } else if n == 0x6 {
        assert(vx >> 1u8 == vx / 2 && vx & 1u8 == vx % 2) by (bit_vector);
        Some((vx >> 1u8, Some(vx & 1u8)))
    } else if n == 0x7 {
        Some((vy.wrapping_sub(vx), Some(if vy >= vx { 1 } else { 0 })))
    } else if n == 0xE {
        assert(vx << 1u8 == (vx * 2) % 256 && vx >> 7u8 == vx / 128) by (bit_vector);
        Some((vx << 1u8, Some(vx >> 7u8)))
    } else {
        None
    }
}

/// XORs the sprite of `n` rows at `addr` into `screen`, anchored at column
/// `x0` and row `y0` and wrapping at both edges; returns whether a set pixel
/// was turned off.
fn xor_sprite(
    screen: &mut [bool; DISPLAY_SIZE],
    ram: &[u8; RAM_SIZE],
    addr: usize,
    n: usize,
    x0: usize,
    y0: usize,
) -> (flipped: bool)
    requires
        n < 16,
        x0 < 64,
        y0 < 32,
        n == 0 || addr + n <= RAM_SIZE,
    ensures
        final(screen)@ == draw_pixels(old(screen)@, ram@, addr as int, n as int, x0 as int, y0 as int),
        flipped == collides(old(screen)@, ram@, addr as int, n as int, x0 as int, y0 as int),
{
    let ghost before = screen@;
    let ghost after = draw_pixels(before, ram@, addr as int, n as int, x0 as int, y0 as int);
    let mut flipped = false;
    let mut k: usize = 0;
    while k < DISPLAY_SIZE
        invariant
            k <= DISPLAY_SIZE,
            n < 16,
            x0 < 64,
            y0 < 32,
            n == 0 || addr + n <= RAM_SIZE,
            before.len() == DISPLAY_SIZE,
            after == draw_pixels(before, ram@, addr as int, n as int, x0 as int, y0 as int),
            forall|j: int| 0 <= j < k ==> screen@[j] == after[j],
            forall|j: int| k <= j < DISPLAY_SIZE ==> screen@[j] == before[j],
            flipped <==> exists|j: int|
                0 <= j < k && #[trigger] sprite_covers(ram@, addr as int, n as int, x0 as int, y0 as int, j)
                    && before[j],
        decreases DISPLAY_SIZE - k,
    {
        let col = (k % 64 + 64 - x0) % 64;
        let row = (k / 64 + 32 - y0) % 32;
        let mut covered = false;
        if col < 8 && row < n {
            covered = ram[addr + row] & (0x80u8 >> (col as u8)) != 0;
        }
        assert(covered == sprite_covers(ram@, addr as int, n as int, x0 as int, y0 as int, k as int));
        if covered {
            flipped = flipped || screen[k];
            screen[k] = !screen[k];
        }
        k = k + 1;
    }
    assert(screen@ =~= after);
    flipped
}

} // verus!
