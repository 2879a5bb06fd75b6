use vstd::prelude::*;

verus! {

/// Size of the byte-addressable memory.
pub const MEMORY_SIZE: usize = 4096;

/// Address at which a program image is placed.
pub const PROGRAM_START: u16 = 0x200;

/// Bytes taken by one hexadecimal digit glyph.
pub const GLYPH_BYTES: usize = 5;

/// The glyphs of the sixteen hexadecimal digits, five rows each; glyph `d`
/// starts at byte `5 * d`.
pub open spec fn font_glyphs() -> Seq<u8> {
    seq![
        0xF0u8, 0x90, 0x90, 0x90, 0xF0, // 0
        0x20, 0x60, 0x20, 0x20, 0x70, // 1
        0xF0, 0x10, 0xF0, 0x80, 0xF0, // 2
        0xF0, 0x10, 0xF0, 0x10, 0xF0, // 3
        0x90, 0x90, 0xF0, 0x10, 0x10, // 4
        0xF0, 0x80, 0xF0, 0x10, 0xF0, // 5
        0xF0, 0x80, 0xF0, 0x90, 0xF0, // 6
        0xF0, 0x10, 0x20, 0x40, 0x40, // 7
        0xF0, 0x90, 0xF0, 0x90, 0xF0, // 8
        0xF0, 0x90, 0xF0, 0x10, 0xF0, // 9
        0xF0, 0x90, 0xF0, 0x90, 0x90, // A
        0xE0, 0x90, 0xE0, 0x90, 0xE0, // B
        0xF0, 0x80, 0x80, 0x80, 0xF0, // C
        0xE0, 0x90, 0x90, 0x90, 0xE0, // D
        0xF0, 0x80, 0xF0, 0x80, 0xF0, // E
        0xF0, 0x80, 0xF0, 0x80, 0x80, // F
    ]
}

/// Memory as a machine starts with it: the glyph table, then zeros.
pub open spec fn initial_memory() -> Seq<u8> {
    font_glyphs() + Seq::new((MEMORY_SIZE - font_glyphs().len()) as nat, |i: int| 0u8)
}

/// Memory with `image` placed at the program origin, the rest kept.
pub open spec fn with_program(m: Seq<u8>, image: Seq<u8>) -> Seq<u8> {
    Seq::new(
        m.len(),
        |a: int|
            if PROGRAM_START <= a < PROGRAM_START + image.len() {
                image[a - PROGRAM_START]
            } else {
                m[a]
            },
    )
}

/// A fixed-size byte store.
pub struct Ram {
    bytes: Vec<u8>,
}

impl View for Ram {
    type V = Seq<u8>;

    closed spec fn view(&self) -> Seq<u8> {
        self.bytes@
    }
}

impl Ram {
    pub open spec fn wf(&self) -> bool {
        self@.len() == MEMORY_SIZE
    }

    /// Memory holding the glyph table at address zero and zeros elsewhere.
    pub fn new() -> (r: Ram)
        ensures
            r.wf(),
            r@ == initial_memory(),
    {
        let glyphs: Vec<u8> = vec![
            0xF0u8, 0x90, 0x90, 0x90, 0xF0, 0x20, 0x60, 0x20, 0x20, 0x70,
            0xF0, 0x10, 0xF0, 0x80, 0xF0, 0xF0, 0x10, 0xF0, 0x10, 0xF0,
            0x90, 0x90, 0xF0, 0x10, 0x10, 0xF0, 0x80, 0xF0, 0x10, 0xF0,
            0xF0, 0x80, 0xF0, 0x90, 0xF0, 0xF0, 0x10, 0x20, 0x40, 0x40,
            0xF0, 0x90, 0xF0, 0x90, 0xF0, 0xF0, 0x90, 0xF0, 0x10, 0xF0,
            0xF0, 0x90, 0xF0, 0x90, 0x90, 0xE0, 0x90, 0xE0, 0x90, 0xE0,
            0xF0, 0x80, 0x80, 0x80, 0xF0, 0xE0, 0x90, 0x90, 0x90, 0xE0,
            0xF0, 0x80, 0xF0, 0x80, 0xF0, 0xF0, 0x80, 0xF0, 0x80, 0x80,
        ];
        assert(glyphs@ =~= font_glyphs());
        let mut bytes: Vec<u8> = vec![0u8; MEMORY_SIZE];
        let mut a: usize = 0;
        while a < glyphs.len()
            invariant
                glyphs@ == font_glyphs(),
                a <= glyphs@.len(),
                bytes@.len() == MEMORY_SIZE,
                forall|i: int| 0 <= i < a ==> #[trigger] bytes@[i] == glyphs@[i],
                forall|i: int| a <= i < MEMORY_SIZE ==> #[trigger] bytes@[i] == 0u8,
            decreases glyphs@.len() - a,
        {
            bytes.set(a, glyphs[a]);
            a = a + 1;
        }
        assert(bytes@ =~= initial_memory());
        Ram { bytes }
    }

    /// The byte at `address`.
    pub fn read_byte(&self, address: u16) -> (b: u8)
        requires
            self.wf(),
            address < MEMORY_SIZE,
        ensures
            b == self@[address as int],
    {
        self.bytes[address as usize]
    }

    /// Stores `value` at `address`.
    pub fn write_byte(&mut self, address: u16, value: u8)
        requires
            old(self).wf(),
            address < MEMORY_SIZE,
        ensures
            final(self).wf(),
            final(self)@ == old(self)@.update(address as int, value),
    {
        self.bytes.set(address as usize, value);
    }

    /// Copies `image` into memory at the program origin.
    pub fn load_program(&mut self, image: &[u8])
        requires
            old(self).wf(),
            PROGRAM_START + image@.len() <= MEMORY_SIZE,
        ensures
            final(self).wf(),
            final(self)@ == with_program(old(self)@, image@),
    {
        let ghost m0 = self@;
        let mut k: usize = 0;
        while k < image.len()
            invariant
                k <= image@.len(),
                PROGRAM_START + image@.len() <= MEMORY_SIZE,
                self.wf(),
                m0.len() == MEMORY_SIZE,
                forall|a: int|
                    0 <= a < MEMORY_SIZE ==> #[trigger] self@[a] == if PROGRAM_START <= a
                        < PROGRAM_START + k {
                        image@[a - PROGRAM_START]
                    } else {
                        m0[a]
                    },
            decreases image@.len() - k,
        {
            let ghost before = self@;
            self.bytes.set(PROGRAM_START as usize + k, image[k]);
            assert(self@ == before.update(PROGRAM_START + k, image@[k as int]));
            k = k + 1;
        }
        assert(self@ =~= with_program(m0, image@));
    }
}

} // verus!
