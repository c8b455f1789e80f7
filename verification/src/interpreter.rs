//! The executable interpreter and its contracts over the machine model.

use vstd::prelude::*;
use crate::machine::{
    op_kind, op_kk, op_n, op_nnn, op_x, op_y, recognized, Fault, Machine, MEMORY_SIZE,
    PROGRAM_START,
};
use crate::theorems::defined_rows_have_defined_prefixes;

verus! {

/// The interpreter state: one instance per running program.
#[derive(Clone, Copy, Debug)]
pub struct Interpreter {
    pub memory: [u8; 4096],
    pub registers: [u8; 16],
    pub index_register: u16,
    pub program_counter: u16,
}

/// A program that does not fit into the program region.
#[derive(Clone, Copy, Debug, PartialEq, Eq, Structural)]
pub struct CapacityExceeded {
    /// Length of the program that was offered.
    pub requested: usize,
    /// Number of bytes the program region holds.
    pub available: usize,
}

impl View for Interpreter {
    type V = Machine;

    open spec fn view(&self) -> Machine {
        Machine {
            memory: self.memory@,
            registers: self.registers@,
            index_register: self.index_register as int,
            program_counter: self.program_counter as int,
        }
    }
}

/// The leading nibble of an instruction word.
fn kind_of(opcode: u16) -> (r: u16)
    ensures
        r == op_kind(opcode as int),
{
    let r: u16 = (opcode & 0xF000) >> 12;
    assert(r == opcode / 4096) by (bit_vector)
        requires
            r == (opcode & 0xF000) >> 12,
    ;
    r
}

/// The register index in the second nibble of an instruction word.
fn x_of(opcode: u16) -> (r: usize)
    ensures
        r == op_x(opcode as int),
        r < 16,
{
    let r: u16 = (opcode & 0x0F00) >> 8;
    assert(r == (opcode / 256) % 16) by (bit_vector)
        requires
            r == (opcode & 0x0F00) >> 8,
    ;
    r as usize
}

/// The register index in the third nibble of an instruction word.
fn y_of(opcode: u16) -> (r: usize)
    ensures
        r == op_y(opcode as int),
        r < 16,
{
    let r: u16 = (opcode & 0x00F0) >> 4;
    assert(r == (opcode / 16) % 16) by (bit_vector)
        requires
            r == (opcode & 0x00F0) >> 4,
    ;
    r as usize
}

/// The last nibble of an instruction word.
fn n_of(opcode: u16) -> (r: u8)
    ensures
        r == op_n(opcode as int),
        r < 16,
{
    let r: u16 = opcode & 0x000F;
    assert(r == opcode % 16) by (bit_vector)
        requires
            r == opcode & 0x000F,
    ;
    r as u8
}

/// The immediate byte of an instruction word.
fn kk_of(opcode: u16) -> (r: u8)
    ensures
        r == op_kk(opcode as int),
{
    let r: u16 = opcode & 0x00FF;
    assert(r == opcode % 256) by (bit_vector)
        requires
            r == opcode & 0x00FF,
    ;
    r as u8
}

/// The address in the low twelve bits of an instruction word.
fn nnn_of(opcode: u16) -> (r: u16)
    ensures
        r == op_nnn(opcode as int),
        r < 4096,
{
    let r: u16 = opcode & 0x0FFF;
    assert(r == opcode % 4096) by (bit_vector)
        requires
            r == opcode & 0x0FFF,
    ;
    r
}

/// Whether an instruction word belongs to the instruction set.
fn is_recognized(opcode: u16) -> (r: bool)
    ensures
        r == recognized(opcode as int),
{
    let kind = kind_of(opcode);
    let n = n_of(opcode);
    opcode == 0x00E0 || kind == 0x1 || kind == 0x3 || kind == 0x4 || (kind == 0x5 && n == 0)
        || kind == 0x6 || kind == 0x7 || (kind == 0x8 && n <= 3) || kind == 0xA || kind == 0xD
}

impl Interpreter {
    /// Width of the display in pixels.
    pub const DISPLAY_WIDTH: usize = 64;

    /// Height of the display in pixels.
    pub const DISPLAY_HEIGHT: usize = 32;

    /// Size of the framebuffer in bytes: one bit for each pixel.
    pub const DISPLAY_SIZE: usize = Self::DISPLAY_WIDTH * Self::DISPLAY_HEIGHT / 8;

    /// A fresh machine with the font loaded.
    pub fn new() -> (r: Interpreter)
        ensures
            r@ == Machine::initial(),
    {
        let mut memory: [u8; 4096] = [0; 4096];
        let character_rom: [u8; 80] = [
            0xF0, 0x90, 0x90, 0x90, 0xF0,
            0x20, 0x60, 0x20, 0x20, 0x70,
            0xF0, 0x10, 0xF0, 0x80, 0xF0,
            0xF0, 0x10, 0xF0, 0x10, 0xF0,
            0x90, 0x90, 0xF0, 0x10, 0x10,
            0xF0, 0x80, 0xF0, 0x10, 0xF0,
            0xF0, 0x80, 0xF0, 0x90, 0xF0,
            0xF0, 0x10, 0x20, 0x40, 0x40,
            0xF0, 0x90, 0xF0, 0x90, 0xF0,
            0xF0, 0x90, 0xF0, 0x10, 0xF0,
            0xF0, 0x90, 0xF0, 0x90, 0x90,
            0xE0, 0x90, 0xE0, 0x90, 0xE0,
            0xF0, 0x80, 0x80, 0x80, 0xF0,
            0xE0, 0x90, 0x90, 0x90, 0xE0,
            0xF0, 0x80, 0xF0, 0x80, 0xF0,
            0xF0, 0x80, 0xF0, 0x80, 0x80,
        ];
        assert(character_rom@ =~= crate::machine::font());
        let mut i: usize = 0;
        while i < 80
            invariant
                i <= 80,
                character_rom@ == crate::machine::font(),
                forall|j: int| 0 <= j < i ==> memory@[j] == character_rom@[j],
                forall|j: int| i <= j < 4096 ==> memory@[j] == 0u8,
            decreases 80 - i,
        {
            memory[i] = character_rom[i];
            i += 1;
        }
        let r = Interpreter {
            memory,
            registers: [0; 16],
            index_register: 0,
            program_counter: 0x200,
        };
        assert(r@.memory =~= Machine::initial().memory);
        assert(r@.registers =~= Machine::initial().registers);
        r
    }

    /// Copies `rom_data` to the program region, or refuses it as too large
    /// and changes nothing.
    pub fn load_program(&mut self, rom_data: &[u8]) -> (r: Result<(), CapacityExceeded>)
        ensures
            rom_data@.len() <= MEMORY_SIZE - PROGRAM_START ==> r is Ok
                && final(self)@ == old(self)@.with_program(rom_data@),
            rom_data@.len() > MEMORY_SIZE - PROGRAM_START ==> *final(self) == *old(self)
                && r == Err::<(), CapacityExceeded>(
                CapacityExceeded {
                    requested: rom_data@.len() as usize,
                    available: (MEMORY_SIZE - PROGRAM_START) as usize,
                },
            ),
    {
        let program_offset: usize = 0x200;
        let available_space: usize = 4096 - program_offset;
        if rom_data.len() > available_space {
            return Err(CapacityExceeded { requested: rom_data.len(), available: available_space });
        }
        let mut i: usize = 0;
        while i < rom_data.len()
            invariant
                i <= rom_data@.len() <= 3584,
                program_offset == 0x200,
                self.registers == old(self).registers,
                self.index_register == old(self).index_register,
                self.program_counter == old(self).program_counter,
                forall|j: int| 0 <= j < i ==> self.memory@[0x200 + j] == rom_data@[j],
                forall|j: int| 0 <= j < 0x200 ==> self.memory@[j] == old(self).memory@[j],
                forall|j: int| 0x200 + i <= j < 4096 ==> self.memory@[j] == old(self).memory@[j],
            decreases rom_data@.len() - i,
        {
            self.memory[program_offset + i] = rom_data[i];
            i += 1;
        }
        assert(self@.memory =~= old(self)@.with_program(rom_data@).memory);
        Ok(())
    }

    /// The instruction word at the program counter.
    fn fetch(&self) -> (opcode: u16)
        requires
            self.program_counter + 1 < MEMORY_SIZE,
        ensures
            opcode == self@.opcode(),
    {
        let pc = self.program_counter as usize;
        let high_byte = self.memory[pc];
        let low_byte = self.memory[pc + 1];
        let opcode = (high_byte as u16) << 8 | (low_byte as u16);
        assert(opcode == high_byte * 256 + low_byte) by (bit_vector)
            requires
                opcode == (high_byte as u16) << 8 | (low_byte as u16),
        ;
        opcode
    }

    /// What keeps the machine from taking its next step, if anything does.
    /// `execute_cycle` may be called exactly when this is `None`.
    pub fn fault(&self) -> (r: Option<Fault>)
        ensures
            r == self@.fault(),
    {
        if self.program_counter as usize + 1 >= 4096 {
            return Some(Fault::FetchOutOfBounds);
        }
        let opcode = self.fetch();
        if !is_recognized(opcode) {
            return Some(Fault::UnsupportedOpcode(opcode));
        }
        if kind_of(opcode) == 0xD {
            let vx = self.registers[x_of(opcode)];
            let vy = self.registers[y_of(opcode)];
            let mut probe = *self;
            if !probe.draw_sprite(vx, vy, n_of(opcode)) {
                return Some(Fault::DrawOutOfBounds);
            }
        }
        None
    }

    /// Performs one fetch-decode-execute step.
    pub fn execute_cycle(&mut self)
        requires
            old(self)@.can_step(),
        ensures
            final(self)@ == old(self)@.step(),
    {
        let opcode = self.fetch();
        let kind = kind_of(opcode);
        let x = x_of(opcode);
        let y = y_of(opcode);
        if opcode == 0x00E0 {
            self.clear_display();
            self.step_to_next_instruction();
        } else if kind == 0x1 {
            self.program_counter = nnn_of(opcode);
        } else if kind == 0x3 {
            if self.registers[x] == kk_of(opcode) {
                self.skip_next_instruction();
            } else {
                self.step_to_next_instruction();
            }
        } else if kind == 0x4 {
            if self.registers[x] != kk_of(opcode) {
                self.skip_next_instruction();
            } else {
                self.step_to_next_instruction();
            }
        } else if kind == 0x5 {
            if self.registers[x] == self.registers[y] {
                self.skip_next_instruction();
            } else {
                self.step_to_next_instruction();
            }
        } else if kind == 0x6 {
            self.registers[x] = kk_of(opcode);
            self.step_to_next_instruction();
        } else if kind == 0x7 {
            self.registers[x] = self.registers[x].wrapping_add(kk_of(opcode));
            self.step_to_next_instruction();
        } else if kind == 0x8 {
            let n = n_of(opcode);
            let vx = self.registers[x];
            let vy = self.registers[y];
            if n == 0 {
                self.registers[x] = vy;
            } else if n == 1 {
                self.registers[x] = vx | vy;
            } else if n == 2 {
                self.registers[x] = vx & vy;
            } else {
                self.registers[x] = vx ^ vy;
            }
            self.step_to_next_instruction();
        } else if kind == 0xA {
            self.index_register = nnn_of(opcode);
            self.step_to_next_instruction();
        } else {
            let vx = self.registers[x];
            let vy = self.registers[y];
            self.draw_sprite(vx, vy, n_of(opcode));
            self.step_to_next_instruction();
        }
    }

    /// Moves the program counter to the next instruction.
    fn step_to_next_instruction(&mut self)
        requires
            old(self).program_counter + 2 <= u16::MAX,
        ensures
            final(self)@ == old(self)@.advance(2),
    {
        self.program_counter += 2;
    }

    /// Moves the program counter past the next instruction.
    fn skip_next_instruction(&mut self)
        requires
            old(self).program_counter + 4 <= u16::MAX,
        ensures
            final(self)@ == old(self)@.advance(4),
    {
        self.program_counter += 4;
    }

    /// Fills the framebuffer with zeros.
    fn clear_display(&mut self)
        ensures
            final(self)@ == old(self)@.clear_display(),
    {
        let mut i: usize = 0xF00;
        while i < 0xF00 + Self::DISPLAY_SIZE
            invariant
                0xF00 <= i <= 0x1000,
                self.registers == old(self).registers,
                self.index_register == old(self).index_register,
                self.program_counter == old(self).program_counter,
                forall|j: int| 0 <= j < 0xF00 ==> self.memory@[j] == old(self).memory@[j],
                forall|j: int| 0xF00 <= j < i ==> self.memory@[j] == 0u8,
            decreases 0x1000 - i,
        {
            self.memory[i] = 0;
            i += 1;
        }
        assert(self@.memory =~= old(self)@.clear_display().memory);
    }

    /// Draws `rows` sprite rows at (`vx`, `vy`), stopping at the first row
    /// that would reach past the end of memory. Returns whether every row
    /// was drawn.
    fn draw_sprite(&mut self, vx: u8, vy: u8, rows: u8) -> (complete: bool)
        requires
            rows < 16,
        ensures
            complete == old(self)@.draw_defined(vx, vy, rows as nat),
            complete ==> final(self)@ == old(self)@.draw(vx, vy, rows as nat),
            final(self).program_counter == old(self).program_counter,
    {
        let i = self.index_register as usize;
        let column_index = (vx as usize) % 64;
        let byte_remainder: u8 = vx % 8;
        self.registers[0xF] = 0;
        let ghost start = self@;
        let mut byte: usize = 0;
        while byte < rows as usize
            invariant
                byte <= rows < 16,
                i == self.index_register,
                self.program_counter == old(self).program_counter,
                column_index == vx % 64,
                byte_remainder == vx % 8,
                start == old(self)@.set_register(15, 0),
                start.rows_defined(vx, vy, byte as nat),
                self@ == start.draw_rows(vx, vy, byte as nat),
            decreases rows - byte,
        {
            let ghost before = self@;
            if i + byte >= 4096 {
                proof {
                    if start.rows_defined(vx, vy, rows as nat) {
                        defined_rows_have_defined_prefixes(start, vx, vy, (byte + 1) as nat, rows as nat);
                    }
                }
                return false;
            }
            let row_index = (vy as usize + byte) % 32;
            let value = self.memory[i + byte];
            let first_byte = value >> byte_remainder;
            let display_offset = row_index * 8 + column_index / 8;
            let existing = self.memory[0xF00 + display_offset];
            self.registers[0xF] = self.registers[0xF] | (first_byte & existing);
            self.memory[0xF00 + display_offset] = existing ^ first_byte;
            if byte_remainder > 0 {
                let second_byte = value << (8 - byte_remainder);
                if second_byte > 0 {
                    if 0xF00 + display_offset + 1 >= 4096 {
                        proof {
                            if start.rows_defined(vx, vy, rows as nat) {
                                defined_rows_have_defined_prefixes(
                                    start,
                                    vx,
                                    vy,
                                    (byte + 1) as nat,
                                    rows as nat,
                                );
                            }
                        }
                        return false;
                    }
                    let existing = self.memory[0xF00 + display_offset + 1];
                    self.registers[0xF] = self.registers[0xF] | (second_byte & existing);
                    self.memory[0xF00 + display_offset + 1] = existing ^ second_byte;
                }
            }
            assert(self@ == before.draw_row(vx, vy, byte as int));
            byte += 1;
        }
        true
    }
}

} // verus!
