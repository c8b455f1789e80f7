//! The mathematical model of the machine: its state as sequences and
//! integers, and one execution step as a function from state to state.

use vstd::prelude::*;

verus! {

/// Number of bytes of memory.
pub const MEMORY_SIZE: usize = 4096;

/// Number of general-purpose registers.
pub const REGISTER_COUNT: usize = 16;

/// Offset at which programs are loaded and start to run.
pub const PROGRAM_START: usize = 0x200;

/// Offset of the first byte of the framebuffer.
pub const DISPLAY_START: usize = 0xF00;

/// Number of bytes in the built-in font: sixteen glyphs of five bytes.
pub const FONT_SIZE: usize = 80;

/// The built-in font, one five-byte glyph for each hexadecimal digit.
pub open spec fn font() -> Seq<u8> {
    seq![
        0xF0u8, 0x90, 0x90, 0x90, 0xF0,
        0x20, 0x60, 0x20, 0x20, 0x70,
        0xF0, 0x10, 0xF0, 0x80, 0xF0,
        0xF0, 0x10, 0xF0, 0x10, 0xF0,
        0x90, 0x90, 0xF0, 0x10, 0x10,
        0xF0, 0x80, 0xF0, 0x10, 0xF0,
        0xF0, 0x80, 0xF0, 0x90, 0xF0,
        0xF0, 0x10, 0x20, 0x40, 0x40,
        0xF0, 0x90, 0xF0, 0x90, 0xF0,
        0xF0, 0x90, 0xF0, 0x10, 0xF0,
        0xF0, 0x90, 0xF0, 0x90, 0x90,
        0xE0, 0x90, 0xE0, 0x90, 0xE0,
        0xF0, 0x80, 0x80, 0x80, 0xF0,
        0xE0, 0x90, 0x90, 0x90, 0xE0,
        0xF0, 0x80, 0xF0, 0x80, 0xF0,
        0xF0, 0x80, 0xF0, 0x80, 0x80,
    ]
}

/// What keeps a machine from taking its next step.
#[derive(Clone, Copy, Debug, PartialEq, Eq, Structural)]
pub enum Fault {
    /// The program counter leaves no room in memory for a two-byte
    /// instruction.
    FetchOutOfBounds,
    /// The instruction word at the program counter is not part of the
    /// instruction set.
    UnsupportedOpcode(u16),
    /// A sprite draw would read its source or write a straddling byte past
    /// the end of memory.
    DrawOutOfBounds,
}

/// The leading nibble of an instruction word, which selects its family.
pub open spec fn op_kind(op: int) -> int {
    op / 4096
}

/// The second nibble: the index of the register `Vx`.
pub open spec fn op_x(op: int) -> int {
    (op / 256) % 16
}

/// The third nibble: the index of the register `Vy`.
pub open spec fn op_y(op: int) -> int {
    (op / 16) % 16
}

/// The last nibble.
pub open spec fn op_n(op: int) -> int {
    op % 16
}

/// The low byte: an immediate value.
pub open spec fn op_kk(op: int) -> int {
    op % 256
}

/// The low twelve bits: an address.
pub open spec fn op_nnn(op: int) -> int {
    op % 4096
}

/// Whether an instruction word belongs to the instruction set.
pub open spec fn recognized(op: int) -> bool {
    let kind = op_kind(op);
    ||| op == 0x00E0
    ||| kind == 0x1
    ||| kind == 0x3
    ||| kind == 0x4
    ||| (kind == 0x5 && op_n(op) == 0)
    ||| kind == 0x6
    ||| kind == 0x7
    ||| (kind == 0x8 && op_n(op) <= 3)
    ||| kind == 0xA
    ||| kind == 0xD
}

/// Eight-bit addition that wraps around at 256.
pub open spec fn wrapping_sum(a: u8, b: u8) -> u8 {
    ((a + b) % 256) as u8
}

/// The result of the register-to-register instruction selected by `n`:
/// copy, OR, AND or XOR.
pub open spec fn combine(n: int, vx: u8, vy: u8) -> u8 {
    if n == 0 {
        vy
    } else if n == 1 {
        vx | vy
    } else if n == 2 {
        vx & vy
    } else {
        vx ^ vy
    }
}

/// The part of a sprite byte that lands in the framebuffer byte holding the
/// sprite's leftmost pixel, for a column `shift` bits into that byte.
pub open spec fn high_part(value: u8, shift: u8) -> u8 {
    value >> shift
}

/// The part of a sprite byte that spills into the following framebuffer
/// byte; zero when the column is byte-aligned.
pub open spec fn low_part(value: u8, shift: u8) -> u8 {
    if shift == 0 {
        0
    } else {
        value << ((8 - shift) as u8)
    }
}

/// The memory offset of the framebuffer byte that holds the leftmost pixel
/// of sprite row `k`, for a sprite drawn at (`vx`, `vy`). The column wraps
/// once, at the start of the row; the row wraps for every `k`.
pub open spec fn row_target(vx: u8, vy: u8, k: int) -> int {
    DISPLAY_START + ((vy + k) % 32) * 8 + (vx % 64) / 8
}

/// The state of the machine as plain mathematical values.
pub struct Machine {
    pub memory: Seq<u8>,
    pub registers: Seq<u8>,
    pub index_register: int,
    pub program_counter: int,
}

impl Machine {
    /// The shape every machine state has: 4096 bytes, 16 registers, and two
    /// 16-bit address registers.
    pub open spec fn wf(self) -> bool {
        &&& self.memory.len() == MEMORY_SIZE
        &&& self.registers.len() == REGISTER_COUNT
        &&& 0 <= self.index_register < 0x10000
        &&& 0 <= self.program_counter < 0x10000
    }

    /// The state a fresh machine starts in: the font at offset 0, everything
    /// else zero, and the program counter at the start of the program region.
    pub open spec fn initial() -> Machine {
        Machine {
            memory: font() + Seq::new((MEMORY_SIZE - FONT_SIZE) as nat, |i: int| 0u8),
            registers: Seq::new(REGISTER_COUNT as nat, |i: int| 0u8),
            index_register: 0,
            program_counter: PROGRAM_START as int,
        }
    }

    /// The state after `program` has been copied to the program region.
    pub open spec fn with_program(self, program: Seq<u8>) -> Machine {
        Machine {
            memory: self.memory.subrange(0, PROGRAM_START as int) + program
                + self.memory.subrange(PROGRAM_START + program.len(), MEMORY_SIZE as int),
            ..self
        }
    }

    /// The instruction word at the program counter, big-endian.
    pub open spec fn opcode(self) -> int {
        self.memory[self.program_counter] * 256 + self.memory[self.program_counter + 1]
    }

    /// The value of the register `Vx` that the instruction word names.
    pub open spec fn vx(self) -> u8 {
        self.registers[op_x(self.opcode())]
    }

    /// The value of the register `Vy` that the instruction word names.
    pub open spec fn vy(self) -> u8 {
        self.registers[op_y(self.opcode())]
    }

    /// The program counter moved forward by `by` bytes.
    pub open spec fn advance(self, by: int) -> Machine {
        Machine { program_counter: self.program_counter + by, ..self }
    }

    /// Register `x` set to `value`.
    pub open spec fn set_register(self, x: int, value: u8) -> Machine {
        Machine { registers: self.registers.update(x, value), ..self }
    }

    /// The framebuffer region filled with zeros.
    pub open spec fn clear_display(self) -> Machine {
        Machine {
            memory: self.memory.subrange(0, DISPLAY_START as int) + Seq::new(
                (MEMORY_SIZE - DISPLAY_START) as nat,
                |i: int| 0u8,
            ),
            ..self
        }
    }

    /// One part of a sprite byte XORed into the memory byte at `target`,
    /// with the pixels it meets there ORed into the collision flag.
    pub open spec fn blend(self, target: int, part: u8) -> Machine {
        Machine {
            memory: self.memory.update(target, self.memory[target] ^ part),
            registers: self.registers.update(15, self.registers[15] | (part & self.memory[target])),
            ..self
        }
    }

    /// The byte of sprite row `k`, read from memory at the index register.
    pub open spec fn sprite_byte(self, k: int) -> u8 {
        self.memory[self.index_register + k]
    }

    /// Whether sprite row `k` can be drawn: its source byte lies in memory,
    /// and so does the straddling byte if the row has one.
    pub open spec fn row_defined(self, vx: u8, vy: u8, k: int) -> bool {
        &&& self.index_register + k < MEMORY_SIZE
        &&& low_part(self.sprite_byte(k), vx % 8) != 0 ==> row_target(vx, vy, k) + 1 < MEMORY_SIZE
    }

    /// Whether sprite row `k` would turn on a pixel that is already lit.
    pub open spec fn row_collides(self, vx: u8, vy: u8, k: int) -> bool {
        let value = self.sprite_byte(k);
        let target = row_target(vx, vy, k);
        ||| high_part(value, vx % 8) & self.memory[target] != 0
        ||| (low_part(value, vx % 8) != 0 && low_part(value, vx % 8) & self.memory[target + 1]
            != 0)
    }

    /// The state after sprite row `k` has been drawn.
    pub open spec fn draw_row(self, vx: u8, vy: u8, k: int) -> Machine {
        let value = self.sprite_byte(k);
        let target = row_target(vx, vy, k);
        let first = self.blend(target, high_part(value, vx % 8));
        if low_part(value, vx % 8) != 0 {
            first.blend(target + 1, low_part(value, vx % 8))
        } else {
            first
        }
    }

    /// The state after the first `rows` rows of a sprite have been drawn,
    /// one after the other. Each row reads its source byte from the memory
    /// that the rows before it left.
    pub open spec fn draw_rows(self, vx: u8, vy: u8, rows: nat) -> Machine
        decreases rows,
    {
        if rows == 0 {
            self
        } else {
            self.draw_rows(vx, vy, (rows - 1) as nat).draw_row(vx, vy, rows - 1)
        }
    }

    /// Whether each of the first `rows` rows can be drawn in its turn.
    pub open spec fn rows_defined(self, vx: u8, vy: u8, rows: nat) -> bool
        decreases rows,
    {
        rows == 0 || (self.rows_defined(vx, vy, (rows - 1) as nat) && self.draw_rows(
            vx,
            vy,
            (rows - 1) as nat,
        ).row_defined(vx, vy, rows - 1))
    }

    /// The state after a whole sprite draw: the collision flag is reset,
    /// then the rows are drawn.
    pub open spec fn draw(self, vx: u8, vy: u8, rows: nat) -> Machine {
        self.set_register(15, 0).draw_rows(vx, vy, rows)
    }

    /// Whether a whole sprite draw can be carried out.
    pub open spec fn draw_defined(self, vx: u8, vy: u8, rows: nat) -> bool {
        self.set_register(15, 0).rows_defined(vx, vy, rows)
    }

    /// What keeps the machine from taking its next step, if anything does.
    pub open spec fn fault(self) -> Option<Fault> {
        let op = self.opcode();
        if self.program_counter + 1 >= MEMORY_SIZE {
            Some(Fault::FetchOutOfBounds)
        } else if !recognized(op) {
            Some(Fault::UnsupportedOpcode(op as u16))
        } else if op_kind(op) == 0xD && !self.draw_defined(self.vx(), self.vy(), op_n(op) as nat) {
            Some(Fault::DrawOutOfBounds)
        } else {
            None
        }
    }

    /// Whether the machine can take its next step.
    pub open spec fn can_step(self) -> bool {
        self.fault() is None
    }

    /// The state after one fetch-decode-execute step, for a machine that
    /// can take one.
    pub open spec fn step(self) -> Machine {
        let op = self.opcode();
        let kind = op_kind(op);
        let x = op_x(op);
        let vx = self.vx();
        let vy = self.vy();
        if op == 0x00E0 {
            self.clear_display().advance(2)
        } else if kind == 0x1 {
            Machine { program_counter: op_nnn(op), ..self }
        } else if kind == 0x3 {
            self.advance(if vx == op_kk(op) { 4 } else { 2 })
        } else if kind == 0x4 {
            self.advance(if vx != op_kk(op) { 4 } else { 2 })
        } else if kind == 0x5 {
            self.advance(if vx == vy { 4 } else { 2 })
        } else if kind == 0x6 {
            self.set_register(x, op_kk(op) as u8).advance(2)
        } else if kind == 0x7 {
            self.set_register(x, wrapping_sum(vx, op_kk(op) as u8)).advance(2)
        } else if kind == 0x8 {
            self.set_register(x, combine(op_n(op), vx, vy)).advance(2)
        } else if kind == 0xA {
            Machine { index_register: op_nnn(op), ..self }.advance(2)
        } else {
            self.draw(vx, vy, op_n(op) as nat).advance(2)
        }
    }
}

} // verus!
