use vstd::prelude::*;

verus! {

/// A decoded instruction. `x` and `y` name registers, `byte`, `n` and `addr` are
/// the 8-, 4- and 12-bit operands taken from the instruction word.
#[derive(Clone, Copy, Debug, PartialEq, Eq, Structural)]
pub enum Instruction {
    ClearScreen,
    Return,
    Jump { addr: u16 },
    Call { addr: u16 },
    SkipEqImm { x: u8, byte: u8 },
    SkipNeqImm { x: u8, byte: u8 },
    SetImm { x: u8, byte: u8 },
    AddImm { x: u8, byte: u8 },
    Assign { x: u8, y: u8 },
    And { x: u8, y: u8 },
    Xor { x: u8, y: u8 },
    Add { x: u8, y: u8 },
    Sub { x: u8, y: u8 },
    ShiftRight { x: u8 },
    SubN { x: u8, y: u8 },
    ShiftLeft { x: u8 },
    SetIndex { addr: u16 },
    Draw { x: u8, y: u8, n: u8 },
    SkipKeyPressed { x: u8 },
    SkipKeyNotPressed { x: u8 },
    GetTimer { x: u8 },
    WaitKey { x: u8 },
    SetTimer { x: u8 },
    SetSoundTimer { x: u8 },
    AddIndex { x: u8 },
    FontCharAddr { x: u8 },
    StoreBcd { x: u8 },
    StoreBlock { x: u8 },
    LoadBlock { x: u8 },
}

/// Top four bits of an instruction word.
pub open spec fn class_of(w: u16) -> int {
    w as int / 0x1000
}

/// Bits 8 to 11: the first register operand.
pub open spec fn x_of(w: u16) -> u8 {
    ((w as int / 0x100) % 16) as u8
}

/// Bits 4 to 7: the second register operand.
pub open spec fn y_of(w: u16) -> u8 {
    ((w as int / 0x10) % 16) as u8
}

/// Low four bits.
pub open spec fn nibble_of(w: u16) -> u8 {
    (w as int % 0x10) as u8
}

/// Low eight bits.
pub open spec fn byte_of(w: u16) -> u8 {
    (w as int % 0x100) as u8
}

/// Low twelve bits.
pub open spec fn addr_of(w: u16) -> u16 {
    (w as int % 0x1000) as u16
}

/// The instruction that word `w` encodes, or `None` where it encodes none.
pub open spec fn decode_spec(w: u16) -> Option<Instruction> {
    let class = class_of(w);
    let x = x_of(w);
    let y = y_of(w);
    let n = nibble_of(w);
    let nn = byte_of(w);
    let nnn = addr_of(w);
    if class == 0x0 {
        if nn == 0xE0 {
            Some(Instruction::ClearScreen)
        } else if nn == 0xEE {
            Some(Instruction::Return)
        } else {
            None
        }
    } else if class == 0x1 {
        Some(Instruction::Jump { addr: nnn })
    } else if class == 0x2 {
        Some(Instruction::Call { addr: nnn })
    } else if class == 0x3 {
        Some(Instruction::SkipEqImm { x, byte: nn })
    } else if class == 0x4 {
        Some(Instruction::SkipNeqImm { x, byte: nn })
    } else if class == 0x6 {
        Some(Instruction::SetImm { x, byte: nn })
    } else if class == 0x7 {
        Some(Instruction::AddImm { x, byte: nn })
    } else if class == 0x8 {
        if n == 0x0 {
            Some(Instruction::Assign { x, y })
        } else if n == 0x2 {
            Some(Instruction::And { x, y })
        } else if n == 0x3 {
            Some(Instruction::Xor { x, y })
        } else if n == 0x4 {
            Some(Instruction::Add { x, y })
        } else if n == 0x5 {
            Some(Instruction::Sub { x, y })
        } else if n == 0x6 {
            Some(Instruction::ShiftRight { x })
        } else if n == 0x7 {
            Some(Instruction::SubN { x, y })
        } else if n == 0xE {
            Some(Instruction::ShiftLeft { x })
        } else {
            None
        }
    } else if class == 0xA {
        Some(Instruction::SetIndex { addr: nnn })
    } else if class == 0xD {
        Some(Instruction::Draw { x, y, n })
    } else if class == 0xE {
        if nn == 0x9E {
            Some(Instruction::SkipKeyPressed { x })
        } else if nn == 0xA1 {
            Some(Instruction::SkipKeyNotPressed { x })
        } else {
            None
        }
    } else if class == 0xF {
        if nn == 0x07 {
            Some(Instruction::GetTimer { x })
        } else if nn == 0x0A {
            Some(Instruction::WaitKey { x })
        } else if nn == 0x15 {
            Some(Instruction::SetTimer { x })
        } else if nn == 0x18 {
            Some(Instruction::SetSoundTimer { x })
        } else if nn == 0x1E {
            Some(Instruction::AddIndex { x })
        } else if nn == 0x29 {
            Some(Instruction::FontCharAddr { x })
        } else if nn == 0x33 {
            Some(Instruction::StoreBcd { x })
        } else if nn == 0x55 {
            Some(Instruction::StoreBlock { x })
        } else if nn == 0x65 {
            Some(Instruction::LoadBlock { x })
        } else {
            None
        }
    } else {
        None
    }
}

impl Instruction {
    /// Register operands name one of the sixteen registers, addresses fit in
    /// twelve bits and sprite heights in four.
    pub open spec fn wf(self) -> bool {
        match self {
            Instruction::Jump { addr } => addr < 0x1000,
            Instruction::Call { addr } => addr < 0x1000,
            Instruction::SetIndex { addr } => addr < 0x1000,
            Instruction::SkipEqImm { x, .. } => x < 16,
            Instruction::SkipNeqImm { x, .. } => x < 16,
            Instruction::SetImm { x, .. } => x < 16,
            Instruction::AddImm { x, .. } => x < 16,
            Instruction::Assign { x, y } => x < 16 && y < 16,
            Instruction::And { x, y } => x < 16 && y < 16,
            Instruction::Xor { x, y } => x < 16 && y < 16,
            Instruction::Add { x, y } => x < 16 && y < 16,
            Instruction::Sub { x, y } => x < 16 && y < 16,
            Instruction::SubN { x, y } => x < 16 && y < 16,
            Instruction::Draw { x, y, n } => x < 16 && y < 16 && n < 16,
            Instruction::ShiftRight { x } => x < 16,
            Instruction::ShiftLeft { x } => x < 16,
            Instruction::SkipKeyPressed { x } => x < 16,
            Instruction::SkipKeyNotPressed { x } => x < 16,
            Instruction::GetTimer { x } => x < 16,
            Instruction::WaitKey { x } => x < 16,
            Instruction::SetTimer { x } => x < 16,
            Instruction::SetSoundTimer { x } => x < 16,
            Instruction::AddIndex { x } => x < 16,
            Instruction::FontCharAddr { x } => x < 16,
            Instruction::StoreBcd { x } => x < 16,
            Instruction::StoreBlock { x } => x < 16,
            Instruction::LoadBlock { x } => x < 16,
            Instruction::ClearScreen => true,
            Instruction::Return => true,
        }
    }
}

proof fn lemma_fields(w: u16)
    ensures
        w >> 12u16 == class_of(w),
        (w >> 8u16) & 0xFu16 == x_of(w),
        (w >> 4u16) & 0xFu16 == y_of(w),
        w & 0xFu16 == nibble_of(w),
        w & 0xFFu16 == byte_of(w),
        w & 0xFFFu16 == addr_of(w),
{
    assert(w >> 12u16 == w / 0x1000) by (bit_vector);
    assert((w >> 8u16) & 0xFu16 == (w / 0x100) % 16) by (bit_vector);
    assert((w >> 4u16) & 0xFu16 == (w / 0x10) % 16) by (bit_vector);
    assert(w & 0xFu16 == w % 0x10) by (bit_vector);
    assert(w & 0xFFu16 == w % 0x100) by (bit_vector);
    assert(w & 0xFFFu16 == w % 0x1000) by (bit_vector);
}

/// Splits an instruction word into its instruction, or `None` where the word
/// encodes no instruction.
pub fn decode(w: u16) -> (ins: Option<Instruction>)
    ensures
        ins == decode_spec(w),
        ins matches Some(i) ==> i.wf(),
{
    proof {
        lemma_fields(w);
    }
    let class: u16 = w >> 12u16;
    let x: u8 = ((w >> 8u16) & 0xFu16) as u8;
    let y: u8 = ((w >> 4u16) & 0xFu16) as u8;
    let n: u8 = (w & 0xFu16) as u8;
    let nn: u8 = (w & 0xFFu16) as u8;
    let nnn: u16 = w & 0xFFFu16;
    if class == 0x0 {
        if nn == 0xE0 {
            Some(Instruction::ClearScreen)
        } else if nn == 0xEE {
            Some(Instruction::Return)
        } else {
            None
        }
    } else if class == 0x1 {
        Some(Instruction::Jump { addr: nnn })
    } else if class == 0x2 {
        Some(Instruction::Call { addr: nnn })
    } else if class == 0x3 {
        Some(Instruction::SkipEqImm { x, byte: nn })
    } else if class == 0x4 {
        Some(Instruction::SkipNeqImm { x, byte: nn })
    } else if class == 0x6 {
        Some(Instruction::SetImm { x, byte: nn })
    } else if class == 0x7 {
        Some(Instruction::AddImm { x, byte: nn })
    } else if class == 0x8 {
        if n == 0x0 {
            Some(Instruction::Assign { x, y })
        } else if n == 0x2 {
            Some(Instruction::And { x, y })
        } else if n == 0x3 {
            Some(Instruction::Xor { x, y })
        } else if n == 0x4 {
            Some(Instruction::Add { x, y })
        } else if n == 0x5 {
            Some(Instruction::Sub { x, y })
        } else if n == 0x6 {
            Some(Instruction::ShiftRight { x })
        } else if n == 0x7 {
            Some(Instruction::SubN { x, y })
        } else if n == 0xE {
            Some(Instruction::ShiftLeft { x })
        } else {
            None
        }
    } else if class == 0xA {
        Some(Instruction::SetIndex { addr: nnn })
    } else if class == 0xD {
        Some(Instruction::Draw { x, y, n })
    } else if class == 0xE {
        if nn == 0x9E {
            Some(Instruction::SkipKeyPressed { x })
        } else if nn == 0xA1 {
            Some(Instruction::SkipKeyNotPressed { x })
        } else {
            None
        }
    } else if class == 0xF {
        if nn == 0x07 {
            Some(Instruction::GetTimer { x })
        } else if nn == 0x0A {
            Some(Instruction::WaitKey { x })
        } else if nn == 0x15 {
            Some(Instruction::SetTimer { x })
        } else if nn == 0x18 {
            Some(Instruction::SetSoundTimer { x })
        } else if nn == 0x1E {
            Some(Instruction::AddIndex { x })
        } else if nn == 0x29 {
            Some(Instruction::FontCharAddr { x })
        } else if nn == 0x33 {
            Some(Instruction::StoreBcd { x })
        } else if nn == 0x55 {
            Some(Instruction::StoreBlock { x })
        } else if nn == 0x65 {
            Some(Instruction::LoadBlock { x })
        } else {
            None
        }
    } else {
        None
    }
}

/// Whether word `w` has an instruction class that no instruction uses (5, 9, B,
/// C), or a sub-operation that its class does not define.
pub open spec fn undefined_word(w: u16) -> bool {
    let (class, n, nn) = (class_of(w), nibble_of(w), byte_of(w));
    ||| class == 0x5 || class == 0x9 || class == 0xB || class == 0xC
    ||| class == 0x0 && nn != 0xE0 && nn != 0xEE
    ||| class == 0x8 && !(n <= 0x7 && n != 0x1) && n != 0xE
    ||| class == 0xE && nn != 0x9E && nn != 0xA1
    ||| class == 0xF && nn != 0x07 && nn != 0x0A && nn != 0x15 && nn != 0x18 && nn != 0x1E
        && nn != 0x29 && nn != 0x33 && nn != 0x55 && nn != 0x65
}

/// Words of an undefined class or sub-operation decode to no instruction.
pub proof fn lemma_undefined_words(w: u16)
    requires
        undefined_word(w),
    ensures
        decode_spec(w) is None,
{
}

} // verus!
