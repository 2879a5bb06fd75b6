use vstd::prelude::*;
use crate::bus::{Bus, BusModel};
use crate::display::{blank_screen, sprite_blit, sprite_collides};
use crate::fault::Fault;
use crate::instruction::{Instruction, decode, decode_spec, lemma_undefined_words, undefined_word};
use crate::keyboard::{lemma_lowest_pressed, lowest_pressed, KEY_COUNT};
use crate::ram::{MEMORY_SIZE, PROGRAM_START, GLYPH_BYTES};

verus! {

/// Number of general registers; the last one doubles as the flag register.
pub const REGISTER_COUNT: usize = 16;

/// Index of the flag register.
pub const FLAG: u8 = 0xF;

/// How many return addresses the call stack holds.
pub const STACK_DEPTH: usize = 16;

/// The processor's architectural state.
pub struct CpuModel {
    pub v: Seq<u8>,
    pub pc: u16,
    /// Program counter of the last instruction executed.
    pub prev_pc: u16,
    pub i: u16,
    pub stack: Seq<u16>,
}

impl CpuModel {
    pub open spec fn wf(self) -> bool {
        &&& self.v.len() == REGISTER_COUNT
        &&& self.stack.len() <= STACK_DEPTH
    }
}

/// The first address at or after `a` that lies outside memory.
pub open spec fn first_outside(a: int) -> u32 {
    if a >= MEMORY_SIZE {
        a as u32
    } else {
        MEMORY_SIZE as u32
    }
}

/// `c` after an instruction at `c.pc` that moves on by `len` bytes.
pub open spec fn advance(c: CpuModel, len: int) -> CpuModel {
    CpuModel { pc: (c.pc + len) as u16, prev_pc: c.pc, ..c }
}

/// `c` after an instruction that moves on to the next one.
pub open spec fn next(c: CpuModel) -> CpuModel {
    advance(c, 2)
}

/// `c` after an instruction that skips the next one exactly when `cond` holds.
pub open spec fn skip_if(c: CpuModel, cond: bool) -> CpuModel {
    advance(c, if cond { 4 } else { 2 })
}

/// `c` with register `x` set to `val`.
pub open spec fn set_reg(c: CpuModel, x: u8, val: u8) -> CpuModel {
    CpuModel { v: c.v.update(x as int, val), ..c }
}

/// `c` with register `x` set to `val` and then the flag register to `flag`.
pub open spec fn set_reg_flag(c: CpuModel, x: u8, val: u8, flag: bool) -> CpuModel {
    CpuModel { v: c.v.update(x as int, val).update(FLAG as int, if flag { 1u8 } else { 0u8 }), ..c }
}

/// Whether key `k` is held down; codes outside the keypad never are.
pub open spec fn key_down(b: BusModel, k: u8) -> bool {
    k < 16 && b.keys[k as int]
}

/// Memory with `regs[0..=x]` written from address `i` on.
pub open spec fn stored_block(ram: Seq<u8>, i: int, regs: Seq<u8>, x: int) -> Seq<u8> {
    Seq::new(ram.len(), |a: int| if i <= a <= i + x { regs[a - i] } else { ram[a] })
}

/// Registers with `v[0..=x]` read from memory at address `i` on.
pub open spec fn loaded_block(v: Seq<u8>, ram: Seq<u8>, i: int, x: int) -> Seq<u8> {
    Seq::new(v.len(), |k: int| if k <= x { ram[i + k] } else { v[k] })
}

/// What executing `ins` does to processor `c` and bus `b`: the new state, or the
/// fault, in which case nothing changes.
pub open spec fn execute_spec(c: CpuModel, b: BusModel, ins: Instruction) -> Result<
    (CpuModel, BusModel),
    Fault,
> {
    match ins {
        Instruction::ClearScreen => Ok(
            (next(c), BusModel { screen: blank_screen(), present_requested: true, ..b }),
        ),
        Instruction::Return => if c.stack.len() == 0 {
            Err(Fault::StackUnderflow)
        } else {
            Ok(
                (
                    CpuModel { pc: c.stack.last(), prev_pc: c.pc, stack: c.stack.drop_last(), ..c },
                    b,
                ),
            )
        },
        Instruction::Jump { addr } => Ok((CpuModel { pc: addr, prev_pc: c.pc, ..c }, b)),
        Instruction::Call { addr } => if c.stack.len() >= STACK_DEPTH {
            Err(Fault::StackOverflow)
        } else {
            Ok(
                (
                    CpuModel {
                        pc: addr,
                        prev_pc: c.pc,
                        stack: c.stack.push((c.pc + 2) as u16),
                        ..c
                    },
                    b,
                ),
            )
        },
        Instruction::SkipEqImm { x, byte } => Ok((skip_if(c, c.v[x as int] == byte), b)),
        Instruction::SkipNeqImm { x, byte } => Ok((skip_if(c, c.v[x as int] != byte), b)),
        Instruction::SetImm { x, byte } => Ok((next(set_reg(c, x, byte)), b)),
        Instruction::AddImm { x, byte } => Ok(
            (next(set_reg(c, x, ((c.v[x as int] + byte) % 256) as u8)), b),
        ),
        Instruction::Assign { x, y } => Ok((next(set_reg(c, x, c.v[y as int])), b)),
        Instruction::And { x, y } => Ok((next(set_reg(c, x, c.v[x as int] & c.v[y as int])), b)),
        Instruction::Xor { x, y } => Ok((next(set_reg(c, x, c.v[x as int] ^ c.v[y as int])), b)),
        Instruction::Add { x, y } => {
            let sum = c.v[x as int] + c.v[y as int];
            Ok((next(set_reg_flag(c, x, (sum % 256) as u8, sum > 255)), b))
        },
        Instruction::Sub { x, y } => {
            let (vx, vy) = (c.v[x as int], c.v[y as int]);
            Ok((next(set_reg_flag(c, x, ((vx - vy) % 256) as u8, vx >= vy)), b))
        },
        Instruction::SubN { x, y } => {
            let (vx, vy) = (c.v[x as int], c.v[y as int]);
            Ok((next(set_reg_flag(c, x, ((vy - vx) % 256) as u8, vy >= vx)), b))
        },
        Instruction::ShiftRight { x } => {
            let vx = c.v[x as int];
            Ok((next(set_reg(set_reg(c, FLAG, vx % 2), x, vx / 2)), b))
        },
        Instruction::ShiftLeft { x } => {
            let vx = c.v[x as int];
            Ok((next(set_reg(set_reg(c, FLAG, vx / 128), x, ((vx * 2) % 256) as u8)), b))
        },
        Instruction::SetIndex { addr } => Ok((next(CpuModel { i: addr, ..c }), b)),
        Instruction::Draw { x, y, n } => if c.i + n > MEMORY_SIZE {
            Err(Fault::AddressOutOfRange { address: first_outside(c.i as int) })
        } else {
            let rows = b.ram.subrange(c.i as int, c.i + n);
            let (vx, vy) = (c.v[x as int] as int, c.v[y as int] as int);
            Ok(
                (
                    next(set_reg(c, FLAG, if sprite_collides(b.screen, vx, vy, rows) {
                        1u8
                    } else {
                        0u8
                    })),
                    BusModel {
                        screen: sprite_blit(b.screen, vx, vy, rows),
                        present_requested: true,
                        ..b
                    },
                ),
            )
        },
        Instruction::SkipKeyPressed { x } => Ok((skip_if(c, key_down(b, c.v[x as int])), b)),
        Instruction::SkipKeyNotPressed { x } => Ok((skip_if(c, !key_down(b, c.v[x as int])), b)),
        Instruction::GetTimer { x } => Ok((next(set_reg(c, x, b.delay_timer)), b)),
        Instruction::WaitKey { x } => match lowest_pressed(b.keys, 0) {
            None => Ok((c, b)),
            Some(k) => Ok((next(set_reg(c, x, k)), b)),
        },
        Instruction::SetTimer { x } => Ok((next(c), BusModel { delay_timer: c.v[x as int], ..b })),
        Instruction::SetSoundTimer { x } => Ok(
            (next(c), BusModel { sound_timer: c.v[x as int], ..b }),
        ),
        Instruction::AddIndex { x } => Ok(
            (next(CpuModel { i: ((c.i + c.v[x as int]) % 0x10000) as u16, ..c }), b),
        ),
        Instruction::FontCharAddr { x } => Ok(
            (next(CpuModel { i: (c.v[x as int] * GLYPH_BYTES) as u16, ..c }), b),
        ),
        Instruction::StoreBcd { x } => if c.i + 3 > MEMORY_SIZE {
            Err(Fault::AddressOutOfRange { address: first_outside(c.i as int) })
        } else {
            let vx = c.v[x as int];
            Ok(
                (
                    next(c),
                    BusModel {
                        ram: b.ram.update(c.i as int, vx / 100).update(
                            c.i + 1,
                            (vx % 100) / 10,
                        ).update(c.i + 2, vx % 10),
                        ..b
                    },
                ),
            )
        },
        Instruction::StoreBlock { x } => if c.i + x + 1 > MEMORY_SIZE {
            Err(Fault::AddressOutOfRange { address: first_outside(c.i as int) })
        } else {
            Ok(
                (
                    next(CpuModel { i: (c.i + x + 1) as u16, ..c }),
                    BusModel { ram: stored_block(b.ram, c.i as int, c.v, x as int), ..b },
                ),
            )
        },
        Instruction::LoadBlock { x } => if c.i + x + 1 > MEMORY_SIZE {
            Err(Fault::AddressOutOfRange { address: first_outside(c.i as int) })
        } else {
            Ok(
                (
                    next(
                        CpuModel {
                            v: loaded_block(c.v, b.ram, c.i as int, x as int),
                            i: (c.i + x + 1) as u16,
                            ..c
                        },
                    ),
                    b,
                ),
            )
        },
    }
}

/// Whether `ins` is one that clears the screen, or decides where the program goes next.
spec fn is_control(ins: Instruction) -> bool {
    ins is ClearScreen
    || ins is Return
    || ins is Jump
    || ins is Call
    || ins is SkipEqImm
    || ins is SkipNeqImm
    || ins is SkipKeyPressed
    || ins is SkipKeyNotPressed
    || ins is WaitKey
}

/// Whether `ins` is one that computes on registers.
spec fn is_alu(ins: Instruction) -> bool {
    ins is SetImm
    || ins is AddImm
    || ins is Assign
    || ins is And
    || ins is Xor
    || ins is Add
    || ins is Sub
    || ins is SubN
    || ins is ShiftRight
    || ins is ShiftLeft
}

/// Whether `ins` is one that uses the index register, memory, the display or the timers.
spec fn is_memory(ins: Instruction) -> bool {
    ins is SetIndex
    || ins is Draw
    || ins is GetTimer
    || ins is SetTimer
    || ins is SetSoundTimer
    || ins is AddIndex
    || ins is FontCharAddr
    || ins is StoreBcd
    || ins is StoreBlock
    || ins is LoadBlock
}

/// The instruction word at address `pc`, high byte first.
pub open spec fn fetch_spec(ram: Seq<u8>, pc: int) -> u16 {
    (ram[pc] * 256 + ram[pc + 1]) as u16
}

/// One fetch-decode-execute step from processor `c` and bus `b`.
pub open spec fn step(c: CpuModel, b: BusModel) -> Result<(CpuModel, BusModel), Fault> {
    if c.prev_pc == c.pc {
        Err(Fault::NoProgress { pc: c.pc })
    } else if c.pc + 1 >= MEMORY_SIZE {
        Err(Fault::AddressOutOfRange { address: first_outside(c.pc as int) })
    } else {
        let w = fetch_spec(b.ram, c.pc as int);
        match decode_spec(w) {
            None => Err(Fault::UnknownInstruction { word: w }),
            Some(ins) => execute_spec(c, b, ins),
        }
    }
}

/// Whether result `r` and the states after a call agree with `expected`: on
/// success the new states are the expected ones, on a fault nothing changed.
pub open spec fn outcome(
    r: Result<(), Fault>,
    c0: CpuModel,
    b0: BusModel,
    c1: CpuModel,
    b1: BusModel,
    expected: Result<(CpuModel, BusModel), Fault>,
) -> bool {
    match expected {
        Ok((c, b)) => r is Ok && c1 == c && b1 == b,
        Err(f) => r == Err::<(), Fault>(f) && c1 == c0 && b1 == b0,
    }
}

/// Setting `Vx` to `byte` and then comparing `Vx` with `other` skips the
/// following instruction exactly when `byte == other`: the program counter moves
/// on by 4 when they are equal and by 2 when not.
pub proof fn lemma_set_then_skip_eq(c: CpuModel, b: BusModel, x: u8, byte: u8, other: u8)
    requires
        c.wf(),
        b.wf(),
        x < REGISTER_COUNT,
        c.pc + 3 < MEMORY_SIZE,
    ensures
        execute_spec(c, b, Instruction::SetImm { x, byte }) matches Ok((c1, b1)) && execute_spec(
            c1,
            b1,
            Instruction::SkipEqImm { x, byte: other },
        ) matches Ok((c2, b2)) && c2.pc == c1.pc + if byte == other {
            4int
        } else {
            2int
        },
{
}

/// Adding two registers is commutative: `Vx + Vy` leaves in `Vx` what `Vy + Vx`
/// leaves in `Vy`, the sum modulo 256, and both set the flag register to 1
/// exactly when the sum exceeds 255, else to 0. (Neither operand is the flag
/// register, which the carry overwrites.)
pub proof fn lemma_add_commutes(c: CpuModel, b: BusModel, x: u8, y: u8)
    requires
        c.wf(),
        x < FLAG,
        y < FLAG,
    ensures
        execute_spec(c, b, Instruction::Add { x, y }) matches Ok((c1, b1)) && execute_spec(
            c,
            b,
            Instruction::Add { x: y, y: x },
        ) matches Ok((c2, b2)) && c1.v[x as int] == c2.v[y as int] && c1.v[x as int] == (c.v[x as int]
            + c.v[y as int]) % 256 && c1.v[FLAG as int] == c2.v[FLAG as int] && c1.v[FLAG as int]
            == if c.v[x as int] + c.v[y as int] > 255 {
            1u8
        } else {
            0u8
        },
{
}

/// Storing `V0..=Vx` at the index register and later loading `V0..=Vx` with the
/// index register back at the same address restores those registers, whatever
/// they held in between.
pub proof fn lemma_store_load_round_trip(c: CpuModel, b: BusModel, x: u8, later: CpuModel)
    requires
        c.wf(),
        b.wf(),
        later.wf(),
        x < REGISTER_COUNT,
        c.i + x + 1 <= MEMORY_SIZE,
        later.i == c.i,
    ensures
        execute_spec(c, b, Instruction::StoreBlock { x }) matches Ok((c1, b1)) && execute_spec(
            later,
            b1,
            Instruction::LoadBlock { x },
        ) matches Ok((c2, b2)) && forall|k: int| 0 <= k <= x ==> #[trigger] c2.v[k] == c.v[k],
{
}

/// A call followed at once by a return comes back to the instruction after the
/// call, with the call stack as it was.
pub proof fn lemma_call_then_return(c: CpuModel, b: BusModel, addr: u16)
    requires
        c.wf(),
        c.stack.len() < STACK_DEPTH,
        c.pc < MEMORY_SIZE,
    ensures
        execute_spec(c, b, Instruction::Call { addr }) matches Ok((c1, b1)) && execute_spec(
            c1,
            b1,
            Instruction::Return,
        ) matches Ok((c2, b2)) && c2.pc == c.pc + 2 && c2.stack == c.stack && b2 == b,
{
    let c1 = CpuModel {
        pc: addr,
        prev_pc: c.pc,
        stack: c.stack.push((c.pc + 2) as u16),
        ..c
    };
    assert(c1.stack.drop_last() =~= c.stack);
}

/// A step that fetches a word of an undefined class or sub-operation ends in a
/// decode fault naming that word; it never passes over it silently.
pub proof fn lemma_undefined_word_faults(c: CpuModel, b: BusModel)
    requires
        c.wf(),
        b.wf(),
        c.prev_pc != c.pc,
        c.pc + 1 < MEMORY_SIZE,
        undefined_word(fetch_spec(b.ram, c.pc as int)),
    ensures
        step(c, b) == Err::<(CpuModel, BusModel), Fault>(
            Fault::UnknownInstruction { word: fetch_spec(b.ram, c.pc as int) },
        ),
{
    lemma_undefined_words(fetch_spec(b.ram, c.pc as int));
}

/// Waiting for a key (`FX0A`) changes nothing, so repeated steps change nothing,
/// while no key is pressed; once a single key is pressed the step puts its code
/// in `Vx` and moves on to the next instruction.
pub proof fn lemma_wait_key(c: CpuModel, b: BusModel, x: u8, key: u8)
    requires
        c.wf(),
        b.wf(),
        c.prev_pc != c.pc,
        c.pc + 1 < MEMORY_SIZE,
        x < REGISTER_COUNT,
        key < KEY_COUNT,
        fetch_spec(b.ram, c.pc as int) == 0xF00A + 0x100 * x,
    ensures
        (forall|j: int| 0 <= j < KEY_COUNT ==> !#[trigger] b.keys[j]) ==> step(c, b) == Ok::<
            (CpuModel, BusModel),
            Fault,
        >((c, b)),
        (b.keys[key as int] && forall|j: int| 0 <= j < KEY_COUNT && j != key ==> !#[trigger] b.keys[j])
            ==> (step(c, b) matches Ok((c2, b2)) && c2.v[x as int] == key && c2.pc == c.pc + 2
            && b2 == b),
{
    let w = fetch_spec(b.ram, c.pc as int);
    assert(decode_spec(w) == Some(Instruction::WaitKey { x }));
    lemma_lowest_pressed(b.keys, 0);
}

/// The processor: registers, program counter, index register and call stack.
#[derive(Debug)]
pub struct Cpu {
    vx: Vec<u8>,
    pc: u16,
    prev_pc: u16,
    i: u16,
    ret_stack: Vec<u16>,
}

impl View for Cpu {
    type V = CpuModel;

    closed spec fn view(&self) -> CpuModel {
        CpuModel {
            v: self.vx@,
            pc: self.pc,
            prev_pc: self.prev_pc,
            i: self.i,
            stack: self.ret_stack@,
        }
    }
}

/// The first address at or after `a` that lies outside memory.
fn outside_from(a: usize) -> (r: u32)
    requires
        a <= 0x20000,
    ensures
        r == first_outside(a as int),
{
    if a >= MEMORY_SIZE {
        a as u32
    } else {
        MEMORY_SIZE as u32
    }
}

/// `a + b` modulo 256.
fn add_wrap(a: u8, b: u8) -> (r: u8)
    ensures
        r == ((a + b) % 256) as u8,
{
    ((a as u16 + b as u16) % 256) as u8
}

/// `a - b` modulo 256.
fn sub_wrap(a: u8, b: u8) -> (r: u8)
    ensures
        r == ((a - b) % 256) as u8,
{
    let r = ((a as u16 + 256 - b as u16) % 256) as u8;
    assert((a + 256 - b) % 256 == (a - b) % 256) by (nonlinear_arith);
    r
}

/// `2 * a` modulo 256.
fn double_wrap(a: u8) -> (r: u8)
    ensures
        r == ((a * 2) % 256) as u8,
{
    ((a as u16 * 2) % 256) as u8
}

impl Cpu {
    pub open spec fn wf(&self) -> bool {
        self@.wf()
    }

    /// A processor as it is switched on: registers zero, empty call stack, program
    /// counter at the program origin.
    pub fn new() -> (c: Cpu)
        ensures
            c.wf(),
            c@ == (CpuModel {
                v: Seq::new(REGISTER_COUNT as nat, |k: int| 0u8),
                pc: PROGRAM_START,
                prev_pc: 0,
                i: 0,
                stack: Seq::empty(),
            }),
    {
        let c = Cpu {
            vx: vec![0u8; REGISTER_COUNT],
            pc: PROGRAM_START,
            i: 0,
            prev_pc: 0,
            ret_stack: Vec::new(),
        };
        assert(c@.v =~= Seq::new(REGISTER_COUNT as nat, |k: int| 0u8));
        c
    }

    /// The program counter.
    pub fn pc(&self) -> (pc: u16)
        ensures
            pc == self@.pc,
    {
        self.pc
    }

    /// The index register.
    pub fn index(&self) -> (i: u16)
        ensures
            i == self@.i,
    {
        self.i
    }

    /// How many return addresses the call stack holds.
    pub fn stack_depth(&self) -> (d: usize)
        ensures
            d == self@.stack.len(),
    {
        self.ret_stack.len()
    }

    /// Sets register `index` to `value`.
    pub fn write_reg_vx(&mut self, index: u8, value: u8)
        requires
            old(self).wf(),
            index < REGISTER_COUNT,
        ensures
            final(self).wf(),
            final(self)@ == set_reg(old(self)@, index, value),
    {
        self.vx.set(index as usize, value);
    }

    /// The value of register `index`.
    pub fn read_reg_vx(&self, index: u8) -> (value: u8)
        requires
            self.wf(),
            index < REGISTER_COUNT,
        ensures
            value == self@.v[index as int],
    {
        self.vx[index as usize]
    }

    /// Moves on past the instruction at the program counter, `len` bytes long.
    fn advance(&mut self, len: u16)
        requires
            old(self).pc < MEMORY_SIZE,
            len <= 4,
        ensures
            final(self)@ == advance(old(self)@, len as int),
    {
        self.prev_pc = self.pc;
        self.pc = self.pc + len;
    }

    /// Reads `n` bytes of memory from the index register on and draws them as a
    /// sprite at `(Vx, Vy)`; the flag register records whether a set pixel was
    /// turned off.
    fn draw(&mut self, bus: &mut Bus, x: u8, y: u8, n: u8)
        requires
            old(self).wf(),
            old(bus).wf(),
            x < REGISTER_COUNT,
            y < REGISTER_COUNT,
            n < 16,
            old(self)@.i + n <= MEMORY_SIZE,
        ensures
            final(self).wf(),
            final(bus).wf(),
            ({
                let c = old(self)@;
                let b = old(bus)@;
                let rows = b.ram.subrange(c.i as int, c.i + n);
                let (vx, vy) = (c.v[x as int] as int, c.v[y as int] as int);
                &&& final(self)@ == set_reg(c, FLAG, if sprite_collides(b.screen, vx, vy, rows) {
                    1u8
                } else {
                    0u8
                })
                &&& final(bus)@ == (BusModel {
                    screen: sprite_blit(b.screen, vx, vy, rows),
                    present_requested: true,
                    ..b
                })
            }),
    {
        let mut rows: Vec<u8> = Vec::new();
        let mut k: u16 = 0;
        while k < n as u16
            invariant
                k <= n,
                self.i + n <= MEMORY_SIZE,
                bus.wf(),
                rows@ == bus@.ram.subrange(self.i as int, self.i + k),
            decreases n - k,
        {
            rows.push(bus.ram_read_byte(self.i + k));
            k = k + 1;
        }
        let vx = self.read_reg_vx(x);
        let vy = self.read_reg_vx(y);
        let hit = bus.draw_sprite(vx, vy, rows.as_slice());
        self.write_reg_vx(FLAG, if hit { 1 } else { 0 });
        bus.present_screen();
    }

    /// Writes registers `V0..=Vx` to memory from the index register on.
    fn store_block(&self, bus: &mut Bus, x: u8)
        requires
            self.wf(),
            old(bus).wf(),
            x < REGISTER_COUNT,
            self@.i + x + 1 <= MEMORY_SIZE,
        ensures
            final(bus).wf(),
            final(bus)@ == (BusModel {
                ram: stored_block(old(bus)@.ram, self@.i as int, self@.v, x as int),
                ..old(bus)@
            }),
    {
        let ghost b0 = bus@;
        let mut k: u8 = 0;
        while k <= x
            invariant
                k <= x + 1,
                x < REGISTER_COUNT,
                self.wf(),
                self.i + x + 1 <= MEMORY_SIZE,
                bus.wf(),
                b0.wf(),
                bus@ == (BusModel { ram: bus@.ram, ..b0 }),
                forall|a: int|
                    0 <= a < MEMORY_SIZE ==> #[trigger] bus@.ram[a] == if self.i <= a < self.i + k {
                        self@.v[a - self.i]
                    } else {
                        b0.ram[a]
                    },
            decreases x + 1 - k,
        {
            let value = self.read_reg_vx(k);
            bus.ram_write_byte(self.i + k as u16, value);
            k = k + 1;
        }
        assert(bus@.ram =~= stored_block(b0.ram, self@.i as int, self@.v, x as int));
    }

    /// Reads registers `V0..=Vx` from memory from the index register on.
    fn load_block(&mut self, bus: &Bus, x: u8)
        requires
            old(self).wf(),
            bus.wf(),
            x < REGISTER_COUNT,
            old(self)@.i + x + 1 <= MEMORY_SIZE,
        ensures
            final(self).wf(),
            final(self)@ == (CpuModel {
                v: loaded_block(old(self)@.v, bus@.ram, old(self)@.i as int, x as int),
                ..old(self)@
            }),
    {
        let ghost c0 = self@;
        let mut k: u8 = 0;
        while k <= x
            invariant
                k <= x + 1,
                x < REGISTER_COUNT,
                self.wf(),
                c0.wf(),
                c0.i + x + 1 <= MEMORY_SIZE,
                bus.wf(),
                self@ == (CpuModel { v: self@.v, ..c0 }),
                forall|j: int|
                    0 <= j < REGISTER_COUNT ==> #[trigger] self@.v[j] == if j < k {
                        bus@.ram[c0.i + j]
                    } else {
                        c0.v[j]
                    },
            decreases x + 1 - k,
        {
            let value = bus.ram_read_byte(self.i + k as u16);
            self.write_reg_vx(k, value);
            k = k + 1;
        }
        assert(self@.v =~= loaded_block(c0.v, bus@.ram, c0.i as int, x as int));
    }

    /// Executes one decoded instruction, fetched from the program counter.
    /// On a fault nothing changes.
    pub fn execute(&mut self, bus: &mut Bus, ins: Instruction) -> (r: Result<(), Fault>)
        requires
            old(self).wf(),
            old(bus).wf(),
            ins.wf(),
            old(self)@.pc < MEMORY_SIZE,
        ensures
            final(self).wf(),
            final(bus).wf(),
            outcome(r, old(self)@, old(bus)@, final(self)@, final(bus)@, execute_spec(old(self)@, old(bus)@, ins)),
    {
        match ins {
            Instruction::ClearScreen
            | Instruction::Return
            | Instruction::Jump { .. }
            | Instruction::Call { .. }
            | Instruction::SkipEqImm { .. }
            | Instruction::SkipNeqImm { .. }
            | Instruction::SkipKeyPressed { .. }
            | Instruction::SkipKeyNotPressed { .. }
            | Instruction::WaitKey { .. } => self.execute_control(bus, ins),
            Instruction::SetImm { .. }
            | Instruction::AddImm { .. }
            | Instruction::Assign { .. }
            | Instruction::And { .. }
            | Instruction::Xor { .. }
            | Instruction::Add { .. }
            | Instruction::Sub { .. }
            | Instruction::SubN { .. }
            | Instruction::ShiftRight { .. }
            | Instruction::ShiftLeft { .. } => self.execute_alu(bus, ins),
            _ => self.execute_memory(bus, ins),
        }
    }

    /// Executes an instruction that clears the screen, or decides where the program goes next.
    fn execute_control(&mut self, bus: &mut Bus, ins: Instruction) -> (r: Result<(), Fault>)
        requires
            old(self).wf(),
            old(bus).wf(),
            ins.wf(),
            is_control(ins),
            old(self)@.pc < MEMORY_SIZE,
        ensures
            final(self).wf(),
            final(bus).wf(),
            outcome(r, old(self)@, old(bus)@, final(self)@, final(bus)@, execute_spec(old(self)@, old(bus)@, ins)),
    {
        match ins {
            Instruction::ClearScreen => {
                bus.clear_screen();
                bus.present_screen();
                self.advance(2);
            },
            Instruction::Return => {
                if self.ret_stack.len() == 0 {
                    return Err(Fault::StackUnderflow);
                }
                let ghost c0 = self@;
                let target = self.ret_stack.pop().unwrap();
                self.prev_pc = self.pc;
                self.pc = target;
                assert(self@.stack == c0.stack.drop_last());
            },
            Instruction::Jump { addr } => {
                self.prev_pc = self.pc;
                self.pc = addr;
            },
            Instruction::Call { addr } => {
                if self.ret_stack.len() >= STACK_DEPTH {
                    return Err(Fault::StackOverflow);
                }
                self.ret_stack.push(self.pc + 2);
                self.prev_pc = self.pc;
                self.pc = addr;
            },
            Instruction::SkipEqImm { x, byte } => {
                let vx = self.read_reg_vx(x);
                self.advance(if vx == byte { 4 } else { 2 });
            },
            Instruction::SkipNeqImm { x, byte } => {
                let vx = self.read_reg_vx(x);
                self.advance(if vx != byte { 4 } else { 2 });
            },
            Instruction::SkipKeyPressed { x } => {
                let vx = self.read_reg_vx(x);
                let pressed = bus.is_key_pressed(vx);
                self.advance(if pressed { 4 } else { 2 });
            },
            Instruction::SkipKeyNotPressed { x } => {
                let vx = self.read_reg_vx(x);
                let pressed = bus.is_key_pressed(vx);
                self.advance(if !pressed { 4 } else { 2 });
            },
            Instruction::WaitKey { x } => {
                match bus.first_pressed_key() {
                    None => {},
                    Some(k) => {
                        self.write_reg_vx(x, k);
                        self.advance(2);
                    },
                }
            },
            _ => {},
        }
        Ok(())
    }

    /// Executes an instruction that computes on registers.
    fn execute_alu(&mut self, bus: &mut Bus, ins: Instruction) -> (r: Result<(), Fault>)
        requires
            old(self).wf(),
            old(bus).wf(),
            ins.wf(),
            is_alu(ins),
            old(self)@.pc < MEMORY_SIZE,
        ensures
            final(self).wf(),
            final(bus).wf(),
            outcome(r, old(self)@, old(bus)@, final(self)@, final(bus)@, execute_spec(old(self)@, old(bus)@, ins)),
    {
        match ins {
            Instruction::SetImm { x, byte } => {
                self.write_reg_vx(x, byte);
                self.advance(2);
            },
            Instruction::AddImm { x, byte } => {
                let vx = self.read_reg_vx(x);
                self.write_reg_vx(x, add_wrap(vx, byte));
                self.advance(2);
            },
            Instruction::Assign { x, y } => {
                let vy = self.read_reg_vx(y);
                self.write_reg_vx(x, vy);
                self.advance(2);
            },
            Instruction::And { x, y } => {
                let vx = self.read_reg_vx(x);
                let vy = self.read_reg_vx(y);
                self.write_reg_vx(x, vx & vy);
                self.advance(2);
            },
            Instruction::Xor { x, y } => {
                let vx = self.read_reg_vx(x);
                let vy = self.read_reg_vx(y);
                self.write_reg_vx(x, vx ^ vy);
                self.advance(2);
            },
            Instruction::Add { x, y } => {
                let vx = self.read_reg_vx(x);
                let vy = self.read_reg_vx(y);
                self.write_reg_vx(x, add_wrap(vx, vy));
                self.write_reg_vx(FLAG, if vx as u16 + vy as u16 > 255 { 1 } else { 0 });
                self.advance(2);
            },
            Instruction::Sub { x, y } => {
                let vx = self.read_reg_vx(x);
                let vy = self.read_reg_vx(y);
                self.write_reg_vx(x, sub_wrap(vx, vy));
                self.write_reg_vx(FLAG, if vx >= vy { 1 } else { 0 });
                self.advance(2);
            },
            Instruction::SubN { x, y } => {
                let vx = self.read_reg_vx(x);
                let vy = self.read_reg_vx(y);
                self.write_reg_vx(x, sub_wrap(vy, vx));
                self.write_reg_vx(FLAG, if vy >= vx { 1 } else { 0 });
                self.advance(2);
            },
            Instruction::ShiftRight { x } => {
                let vx = self.read_reg_vx(x);
                self.write_reg_vx(FLAG, vx % 2);
                self.write_reg_vx(x, vx / 2);
                self.advance(2);
            },
            Instruction::ShiftLeft { x } => {
                let vx = self.read_reg_vx(x);
                self.write_reg_vx(FLAG, vx / 128);
                self.write_reg_vx(x, double_wrap(vx));
                self.advance(2);
            },
            _ => {},
        }
        Ok(())
    }

    /// Executes an instruction that uses the index register, memory, the display or the timers.
    fn execute_memory(&mut self, bus: &mut Bus, ins: Instruction) -> (r: Result<(), Fault>)
        requires
            old(self).wf(),
            old(bus).wf(),
            ins.wf(),
            is_memory(ins),
            old(self)@.pc < MEMORY_SIZE,
        ensures
            final(self).wf(),
            final(bus).wf(),
            outcome(r, old(self)@, old(bus)@, final(self)@, final(bus)@, execute_spec(old(self)@, old(bus)@, ins)),
    {
        match ins {
            Instruction::SetIndex { addr } => {
                self.i = addr;
                self.advance(2);
            },
            Instruction::Draw { x, y, n } => {
                if self.i as usize + n as usize > MEMORY_SIZE {
                    return Err(Fault::AddressOutOfRange { address: outside_from(self.i as usize) });
                }
                self.draw(bus, x, y, n);
                self.advance(2);
            },
            Instruction::GetTimer { x } => {
                let t = bus.get_delay_timer();
                self.write_reg_vx(x, t);
                self.advance(2);
            },
            Instruction::SetTimer { x } => {
                let vx = self.read_reg_vx(x);
                bus.delay_timer(vx);
                self.advance(2);
            },
            Instruction::SetSoundTimer { x } => {
                let vx = self.read_reg_vx(x);
                bus.sound_timer(vx);
                self.advance(2);
            },
            Instruction::AddIndex { x } => {
                let vx = self.read_reg_vx(x);
                self.i = ((self.i as u32 + vx as u32) % 0x10000) as u16;
                self.advance(2);
            },
            Instruction::FontCharAddr { x } => {
                let vx = self.read_reg_vx(x);
                self.i = vx as u16 * GLYPH_BYTES as u16;
                self.advance(2);
            },
            Instruction::StoreBcd { x } => {
                if self.i as usize + 3 > MEMORY_SIZE {
                    return Err(Fault::AddressOutOfRange { address: outside_from(self.i as usize) });
                }
                let vx = self.read_reg_vx(x);
                bus.ram_write_byte(self.i, vx / 100);
                bus.ram_write_byte(self.i + 1, (vx % 100) / 10);
                bus.ram_write_byte(self.i + 2, vx % 10);
                self.advance(2);
            },
            Instruction::StoreBlock { x } => {
                if self.i as usize + x as usize + 1 > MEMORY_SIZE {
                    return Err(Fault::AddressOutOfRange { address: outside_from(self.i as usize) });
                }
                self.store_block(bus, x);
                self.i = self.i + x as u16 + 1;
                self.advance(2);
            },
            Instruction::LoadBlock { x } => {
                if self.i as usize + x as usize + 1 > MEMORY_SIZE {
                    return Err(Fault::AddressOutOfRange { address: outside_from(self.i as usize) });
                }
                self.load_block(bus, x);
                self.i = self.i + x as u16 + 1;
                self.advance(2);
            },
            _ => {},
        }
        Ok(())
    }

    /// Fetches the instruction word at the program counter (high byte first),
    /// decodes it and executes it. Faults when the program counter has not moved
    /// since the previous instruction, when the word lies outside memory, or when
    /// it encodes no instruction; on a fault nothing changes.
    pub fn run_instruction(&mut self, bus: &mut Bus) -> (r: Result<(), Fault>)
        requires
            old(self).wf(),
            old(bus).wf(),
        ensures
            final(self).wf(),
            final(bus).wf(),
            outcome(r, old(self)@, old(bus)@, final(self)@, final(bus)@, step(old(self)@, old(bus)@)),
    {
        if self.prev_pc == self.pc {
            return Err(Fault::NoProgress { pc: self.pc });
        }
        if self.pc as usize + 1 >= MEMORY_SIZE {
            return Err(Fault::AddressOutOfRange { address: outside_from(self.pc as usize) });
        }
        let hi = bus.ram_read_byte(self.pc);
        let lo = bus.ram_read_byte(self.pc + 1);
        let word: u16 = (hi as u16) * 256 + lo as u16;
        match decode(word) {
            None => Err(Fault::UnknownInstruction { word }),
            Some(ins) => self.execute(bus, ins),
        }
    }

}

} // verus!
