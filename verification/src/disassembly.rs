//! Instruction words as mnemonics, for listing a program.

use vstd::prelude::*;
use crate::machine::{op_kind, op_kk, op_n, op_nnn, op_x, op_y};

verus! {

/// What an instruction word means to a reader of a listing.
#[derive(Clone, Copy, Debug, PartialEq, Eq, Structural)]
pub enum Mnemonic {
    /// `0000`: no operation.
    Nop,
    /// `00E0`: clear the screen.
    Cls,
    /// `00EE`: return from a subroutine.
    Ret,
    /// `0nnn`: call the machine routine at an address.
    Sys { address: u16 },
    /// `1nnn`: jump to an address.
    Jp { address: u16 },
    /// `2nnn`: call the subroutine at an address.
    Call { address: u16 },
    /// `3xkk`: skip the next instruction if `Vx` equals a value.
    Se { x: u8, value: u8 },
    /// `6xkk`: load a value into `Vx`.
    Ld { x: u8, value: u8 },
    /// `7xkk`: add a value to `Vx`.
    Add { x: u8, value: u8 },
    /// `Annn`: load an address into the index register.
    LdI { address: u16 },
    /// `Dxyn`: draw a sprite of `rows` rows at (`Vx`, `Vy`).
    Drw { x: u8, y: u8, rows: u8 },
    /// Any other word.
    Unknown,
}

/// The mnemonic of the instruction word made of `high` and `low`.
pub open spec fn mnemonic_of(high: u8, low: u8) -> Mnemonic {
    let op = high * 256 + low;
    let kind = op_kind(op);
    if op == 0x0000 {
        Mnemonic::Nop
    } else if op == 0x00E0 {
        Mnemonic::Cls
    } else if op == 0x00EE {
        Mnemonic::Ret
    } else if kind == 0x0 {
        Mnemonic::Sys { address: op_nnn(op) as u16 }
    } else if kind == 0x1 {
        Mnemonic::Jp { address: op_nnn(op) as u16 }
    } else if kind == 0x2 {
        Mnemonic::Call { address: op_nnn(op) as u16 }
    } else if kind == 0x3 {
        Mnemonic::Se { x: op_x(op) as u8, value: op_kk(op) as u8 }
    } else if kind == 0x6 {
        Mnemonic::Ld { x: op_x(op) as u8, value: op_kk(op) as u8 }
    } else if kind == 0x7 {
        Mnemonic::Add { x: op_x(op) as u8, value: op_kk(op) as u8 }
    } else if kind == 0xA {
        Mnemonic::LdI { address: op_nnn(op) as u16 }
    } else if kind == 0xD {
        Mnemonic::Drw { x: op_x(op) as u8, y: op_y(op) as u8, rows: op_n(op) as u8 }
    } else {
        Mnemonic::Unknown
    }
}

/// Reads one instruction word, given as its two bytes in memory order.
pub fn disassemble(high_byte: u8, low_byte: u8) -> (mnemonic: Mnemonic)
    ensures
        mnemonic == mnemonic_of(high_byte, low_byte),
{
    let nnn: u16 = ((high_byte & 0x0F) as u16) << 8 | (low_byte as u16);
    let kind: u8 = (high_byte >> 4) & 0xF;
    let x: u8 = high_byte & 0x0F;
    let y: u8 = low_byte >> 4;
    let kk: u8 = low_byte;
    let n: u8 = low_byte & 0x0F;
    proof {
        assert(nnn == (high_byte % 16) * 256 + low_byte) by (bit_vector)
            requires
                nnn == ((high_byte & 0x0F) as u16) << 8 | (low_byte as u16),
        ;
        assert(kind == high_byte / 16) by (bit_vector)
            requires
                kind == (high_byte >> 4) & 0xF,
        ;
        assert(x == high_byte % 16) by (bit_vector)
            requires
                x == high_byte & 0x0F,
        ;
        assert(y == low_byte / 16) by (bit_vector)
            requires
                y == low_byte >> 4,
        ;
        assert(n == low_byte % 16) by (bit_vector)
            requires
                n == low_byte & 0x0F,
        ;
    }
    if kind == 0x0 {
        if x == 0x0 && y == 0x0 && n == 0x0 {
            Mnemonic::Nop
        } else if x == 0x0 && y == 0xE && n == 0x0 {
            Mnemonic::Cls
        } else if x == 0x0 && y == 0xE && n == 0xE {
            Mnemonic::Ret
        } else {
            Mnemonic::Sys { address: nnn }
        }
    } else if kind == 0x1 {
        Mnemonic::Jp { address: nnn }
    } else if kind == 0x2 {
        Mnemonic::Call { address: nnn }
    } else if kind == 0x3 {
        Mnemonic::Se { x, value: kk }
    } else if kind == 0x6 {
        Mnemonic::Ld { x, value: kk }
    } else if kind == 0x7 {
        Mnemonic::Add { x, value: kk }
    } else if kind == 0xA {
        Mnemonic::LdI { address: nnn }
    } else if kind == 0xD {
        Mnemonic::Drw { x, y, rows: n }
    } else {
        Mnemonic::Unknown
    }
}

} // verus!
