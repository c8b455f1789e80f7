//! Laws of the machine model, proved once for every state.

use vstd::prelude::*;
use crate::interpreter::Interpreter;
use crate::machine::{
    high_part, low_part, op_kind, op_kk, op_n, op_nnn, op_x, op_y, row_target, Machine,
    DISPLAY_START, MEMORY_SIZE, PROGRAM_START,
};

verus! {

/// A program that fits can be read back byte for byte from the program
/// region; memory outside the bytes it covers, the registers, the index
/// register and the program counter stay as they were.
pub proof fn loaded_program_is_readable(m: Machine, program: Seq<u8>)
    requires
        m.wf(),
        program.len() <= MEMORY_SIZE - PROGRAM_START,
    ensures
        m.with_program(program).wf(),
        m.with_program(program).memory.subrange(
            PROGRAM_START as int,
            PROGRAM_START + program.len(),
        ) == program,
        forall|j: int|
            0 <= j < MEMORY_SIZE && !(PROGRAM_START <= j < PROGRAM_START + program.len())
                ==> m.with_program(program).memory[j] == m.memory[j],
        m.with_program(program).registers == m.registers,
        m.with_program(program).index_register == m.index_register,
        m.with_program(program).program_counter == m.program_counter,
{
    assert(m.with_program(program).memory.subrange(
        PROGRAM_START as int,
        PROGRAM_START + program.len(),
    ) =~= program);
}

/// Every interpreter state is a well-formed machine.
pub proof fn interpreter_is_well_formed(interpreter: Interpreter)
    ensures
        interpreter@.wf(),
{
}

/// A step leaves the machine well-formed.
pub proof fn step_preserves_wf(m: Machine)
    requires
        m.wf(),
        m.can_step(),
    ensures
        m.step().wf(),
{
    let op = m.opcode();
    if op != 0x00E0 && op_kind(op) == 0xD {
        let vx = m.registers[op_x(op)];
        let vy = m.registers[op_y(op)];
        draw_stays_in_framebuffer(m.set_register(15, 0), vx, vy, op_n(op) as nat);
    }
}

/// The clear-screen instruction `00E0` zeroes every byte of the framebuffer,
/// whatever it held, changes nothing else, and moves the program counter
/// forward by 2.
pub proof fn clear_screen_zeroes_framebuffer(m: Machine)
    requires
        m.wf(),
        m.program_counter + 1 < MEMORY_SIZE,
        m.opcode() == 0x00E0,
    ensures
        m.can_step(),
        m.step().memory.len() == MEMORY_SIZE,
        forall|j: int| DISPLAY_START <= j < MEMORY_SIZE ==> m.step().memory[j] == 0,
        forall|j: int| 0 <= j < DISPLAY_START ==> m.step().memory[j] == m.memory[j],
        m.step().registers == m.registers,
        m.step().index_register == m.index_register,
        m.step().program_counter == m.program_counter + 2,
{
}

/// The jump instruction `1nnn` sets the program counter to `nnn` and changes
/// nothing else.
pub proof fn jump_sets_program_counter(m: Machine)
    requires
        m.wf(),
        m.program_counter + 1 < MEMORY_SIZE,
        op_kind(m.opcode()) == 0x1,
    ensures
        m.can_step(),
        m.step() == (Machine { program_counter: op_nnn(m.opcode()), ..m }),
        0 <= m.step().program_counter < 4096,
{
}

/// The skip instructions `3xkk`, `4xkk` and `5xy0` move the program counter
/// forward by 4 when their condition holds and by 2 when it does not, and
/// change nothing else: `Vx == kk`, `Vx != kk` and `Vx == Vy` in turn.
pub proof fn skips_move_only_the_program_counter(m: Machine)
    requires
        m.wf(),
        m.program_counter + 1 < MEMORY_SIZE,
        op_kind(m.opcode()) == 0x3 || op_kind(m.opcode()) == 0x4 || (op_kind(m.opcode()) == 0x5
            && op_n(m.opcode()) == 0),
    ensures
        m.can_step(),
        m.step().memory == m.memory,
        m.step().registers == m.registers,
        m.step().index_register == m.index_register,
        m.step().program_counter == m.program_counter + 4 || m.step().program_counter
            == m.program_counter + 2,
        op_kind(m.opcode()) == 0x3 ==> (m.step().program_counter == m.program_counter + 4 <==> m.vx()
            == op_kk(m.opcode())),
        op_kind(m.opcode()) == 0x4 ==> (m.step().program_counter == m.program_counter + 4 <==> m.vx()
            != op_kk(m.opcode())),
        op_kind(m.opcode()) == 0x5 ==> (m.step().program_counter == m.program_counter + 4 <==> m.vx()
            == m.vy()),
{
}

/// The load instruction `6xkk` sets `Vx` to `kk`, leaves every other
/// register, the memory and the index register as they were, and moves the
/// program counter forward by 2.
pub proof fn load_immediate_sets_one_register(m: Machine)
    requires
        m.wf(),
        m.program_counter + 1 < MEMORY_SIZE,
        op_kind(m.opcode()) == 0x6,
    ensures
        m.can_step(),
        m.step().registers.len() == m.registers.len(),
        m.step().registers[op_x(m.opcode())] == op_kk(m.opcode()),
        forall|r: int|
            0 <= r < 16 && r != op_x(m.opcode()) ==> m.step().registers[r] == m.registers[r],
        m.step().memory == m.memory,
        m.step().index_register == m.index_register,
        m.step().program_counter == m.program_counter + 2,
{
}

/// The instructions `8xy1`, `8xy2` and `8xy3` leave in `Vx` the bitwise OR,
/// AND and XOR of `Vx` and `Vy`. `Vy` keeps its value, except where `x` and
/// `y` name the same register and XOR clears it.
pub proof fn bitwise_instructions_combine_registers(m: Machine)
    requires
        m.wf(),
        m.program_counter + 1 < MEMORY_SIZE,
        op_kind(m.opcode()) == 0x8,
        1 <= op_n(m.opcode()) <= 3,
    ensures
        m.can_step(),
        m.step().registers.len() == m.registers.len(),
        op_n(m.opcode()) == 1 ==> m.step().registers[op_x(m.opcode())] == m.vx() | m.vy(),
        op_n(m.opcode()) == 2 ==> m.step().registers[op_x(m.opcode())] == m.vx() & m.vy(),
        op_n(m.opcode()) == 3 ==> m.step().registers[op_x(m.opcode())] == m.vx() ^ m.vy(),
        !(op_n(m.opcode()) == 3 && op_x(m.opcode()) == op_y(m.opcode()) && m.vy() != 0)
            ==> m.step().registers[op_y(m.opcode())] == m.vy(),
        forall|r: int|
            0 <= r < 16 && r != op_x(m.opcode()) ==> m.step().registers[r] == m.registers[r],
        m.step().memory == m.memory,
        m.step().index_register == m.index_register,
        m.step().program_counter == m.program_counter + 2,
{
    let v = m.vy();
    assert(v | v == v) by (bit_vector);
    assert(v & v == v) by (bit_vector);
    assert(v == 0 ==> v ^ v == 0) by (bit_vector);
}

/// If a sprite can be drawn to some number of rows, it can be drawn to any
/// smaller number.
pub proof fn defined_rows_have_defined_prefixes(m: Machine, vx: u8, vy: u8, k: nat, n: nat)
    requires
        k <= n,
        m.rows_defined(vx, vy, n),
    ensures
        m.rows_defined(vx, vy, k),
    decreases n,
{
    if k < n {
        defined_rows_have_defined_prefixes(m, vx, vy, k, (n - 1) as nat);
    }
}

/// Every sprite row starts inside the framebuffer: its row index is
/// `(vy + k)` reduced modulo the display height, so a sprite that runs past
/// the bottom edge continues at the top, and its byte column is that of
/// `vx` reduced modulo the display width.
pub proof fn rows_wrap_inside_framebuffer(vx: u8, vy: u8, k: int)
    requires
        0 <= k,
    ensures
        DISPLAY_START <= row_target(vx, vy, k) < MEMORY_SIZE,
        (row_target(vx, vy, k) - DISPLAY_START) / 8 == (vy + k) % 32,
        (row_target(vx, vy, k) - DISPLAY_START) % 8 == (vx % 64) / 8,
        row_target(vx, vy, k + 32) == row_target(vx, vy, k),
{
}

/// Drawing sprite rows writes to the framebuffer and the collision flag and
/// to nothing else.
pub proof fn draw_stays_in_framebuffer(m: Machine, vx: u8, vy: u8, rows: nat)
    requires
        m.wf(),
        m.rows_defined(vx, vy, rows),
    ensures
        m.draw_rows(vx, vy, rows).wf(),
        forall|j: int| 0 <= j < DISPLAY_START ==> m.draw_rows(vx, vy, rows).memory[j] == m.memory[j],
        forall|r: int| 0 <= r < 15 ==> m.draw_rows(vx, vy, rows).registers[r] == m.registers[r],
        m.draw_rows(vx, vy, rows).index_register == m.index_register,
        m.draw_rows(vx, vy, rows).program_counter == m.program_counter,
    decreases rows,
{
    if rows > 0 {
        draw_stays_in_framebuffer(m, vx, vy, (rows - 1) as nat);
        rows_wrap_inside_framebuffer(vx, vy, rows - 1);
    }
}

/// The draw instruction `Dxyn` writes to the framebuffer and the collision
/// flag and to nothing else, however far the sprite runs past the bottom
/// edge, and moves the program counter forward by 2.
pub proof fn draw_instruction_stays_in_framebuffer(m: Machine)
    requires
        m.wf(),
        op_kind(m.opcode()) == 0xD,
        m.can_step(),
    ensures
        m.step() == m.draw(m.vx(), m.vy(), op_n(m.opcode()) as nat).advance(2),
        m.step().memory.len() == MEMORY_SIZE,
        forall|j: int| 0 <= j < DISPLAY_START ==> m.step().memory[j] == m.memory[j],
        forall|r: int| 0 <= r < 15 ==> m.step().registers[r] == m.registers[r],
        m.step().index_register == m.index_register,
        m.step().program_counter == m.program_counter + 2,
{
    let drawn = m.set_register(15, 0).draw_rows(m.vx(), m.vy(), op_n(m.opcode()) as nat);
    draw_stays_in_framebuffer(m.set_register(15, 0), m.vx(), m.vy(), op_n(m.opcode()) as nat);
    let cleared = m.set_register(15, 0);
    assert forall|j: int| 0 <= j < DISPLAY_START implies m.step().memory[j] == m.memory[j] by {
        assert(drawn.memory[j] == cleared.memory[j]);
    }
    assert forall|r: int| 0 <= r < 15 implies m.step().registers[r] == m.registers[r] by {
        assert(drawn.registers[r] == cleared.registers[r]);
    }
}

/// The bits that sprite row `k` flips in the memory byte at offset `j`, for a
/// row whose source byte is `value`.
spec fn row_mask(value: u8, vx: u8, vy: u8, k: int, j: int) -> u8 {
    if j == row_target(vx, vy, k) {
        high_part(value, vx % 8)
    } else if j == row_target(vx, vy, k) + 1 {
        low_part(value, vx % 8)
    } else {
        0
    }
}

/// The bits that the first `rows` rows of the sprite stored in `source` flip
/// in the memory byte at offset `j`.
spec fn sprite_mask(source: Machine, vx: u8, vy: u8, rows: nat, j: int) -> u8
    decreases rows,
{
    if rows == 0 {
        0
    } else {
        sprite_mask(source, vx, vy, (rows - 1) as nat, j) ^ row_mask(
            source.sprite_byte(rows - 1),
            vx,
            vy,
            rows - 1,
            j,
        )
    }
}

/// Drawing one row XORs the row's mask into memory, byte by byte.
proof fn lemma_row_flips_mask(m: Machine, vx: u8, vy: u8, k: int)
    requires
        m.wf(),
        0 <= k,
        m.row_defined(vx, vy, k),
    ensures
        m.draw_row(vx, vy, k).memory.len() == MEMORY_SIZE,
        forall|j: int|
            0 <= j < MEMORY_SIZE ==> m.draw_row(vx, vy, k).memory[j] == m.memory[j] ^ row_mask(
                m.sprite_byte(k),
                vx,
                vy,
                k,
                j,
            ),
{
    rows_wrap_inside_framebuffer(vx, vy, k);
    assert forall|j: int| 0 <= j < MEMORY_SIZE implies m.draw_row(vx, vy, k).memory[j]
        == m.memory[j] ^ row_mask(m.sprite_byte(k), vx, vy, k, j) by {
        let a = m.memory[j];
        assert(a ^ 0 == a) by (bit_vector);
    }
}

/// On a machine that agrees with `source` below the framebuffer, drawing the
/// sprite that lies below the framebuffer is defined wherever it is defined
/// on `source`, and XORs the sprite's mask into memory, byte by byte.
proof fn lemma_draw_flips_mask(m: Machine, source: Machine, vx: u8, vy: u8, rows: nat)
    requires
        m.wf(),
        source.wf(),
        m.index_register == source.index_register,
        forall|j: int| 0 <= j < DISPLAY_START ==> m.memory[j] == source.memory[j],
        source.index_register + rows <= DISPLAY_START,
        source.rows_defined(vx, vy, rows),
    ensures
        m.rows_defined(vx, vy, rows),
        m.draw_rows(vx, vy, rows).memory.len() == MEMORY_SIZE,
        forall|j: int|
            0 <= j < MEMORY_SIZE ==> m.draw_rows(vx, vy, rows).memory[j] == m.memory[j]
                ^ sprite_mask(source, vx, vy, rows, j),
    decreases rows,
{
    if rows == 0 {
        assert forall|j: int| 0 <= j < MEMORY_SIZE implies m.draw_rows(vx, vy, rows).memory[j]
            == m.memory[j] ^ sprite_mask(source, vx, vy, rows, j) by {
            let a = m.memory[j];
            assert(a ^ 0 == a) by (bit_vector);
        }
    } else {
        let k = (rows - 1) as nat;
        let before = m.draw_rows(vx, vy, k);
        lemma_draw_flips_mask(m, source, vx, vy, k);
        draw_stays_in_framebuffer(m, vx, vy, k);
        draw_stays_in_framebuffer(source, vx, vy, k);
        assert(before.sprite_byte(k as int) == source.sprite_byte(k as int));
        assert(source.draw_rows(vx, vy, k).sprite_byte(k as int) == source.sprite_byte(k as int));
        assert(before.row_defined(vx, vy, k as int));
        lemma_row_flips_mask(before, vx, vy, k as int);
        assert forall|j: int| 0 <= j < MEMORY_SIZE implies m.draw_rows(vx, vy, rows).memory[j]
            == m.memory[j] ^ sprite_mask(source, vx, vy, rows, j) by {
            let a = m.memory[j];
            let b = sprite_mask(source, vx, vy, k, j);
            let c = row_mask(source.sprite_byte(k as int), vx, vy, k as int, j);
            assert((a ^ b) ^ c == a ^ (b ^ c)) by (bit_vector);
        }
    }
}

/// Drawing a sprite twice in the same place, with nothing in between,
/// restores the memory that was there before the first draw. This holds for
/// a sprite stored below the framebuffer, where drawing cannot alter it.
pub proof fn drawing_twice_restores_memory(m: Machine, vx: u8, vy: u8, rows: nat)
    requires
        m.wf(),
        m.index_register + rows <= DISPLAY_START,
        m.draw_defined(vx, vy, rows),
    ensures
        m.draw(vx, vy, rows).draw_defined(vx, vy, rows),
        m.draw(vx, vy, rows).draw(vx, vy, rows).memory == m.memory,
{
    let source = m.set_register(15, 0);
    let once = m.draw(vx, vy, rows);
    lemma_draw_flips_mask(source, source, vx, vy, rows);
    draw_stays_in_framebuffer(source, vx, vy, rows);
    let again = once.set_register(15, 0);
    lemma_draw_flips_mask(again, source, vx, vy, rows);
    let twice = once.draw(vx, vy, rows);
    assert forall|j: int| 0 <= j < MEMORY_SIZE implies twice.memory[j] == m.memory[j] by {
        let a = m.memory[j];
        let b = sprite_mask(source, vx, vy, rows, j);
        assert((a ^ b) ^ b == a) by (bit_vector);
    }
    assert(twice.memory =~= m.memory);
}

/// The collision flag after some rows is nonzero exactly if it was nonzero
/// before or one of the rows, drawn in its turn, met a lit pixel.
proof fn lemma_flag_accumulates(m: Machine, vx: u8, vy: u8, rows: nat)
    requires
        m.wf(),
        m.rows_defined(vx, vy, rows),
    ensures
        m.draw_rows(vx, vy, rows).registers[15] != 0 <==> m.registers[15] != 0 || exists|k: nat|
            k < rows && #[trigger] m.draw_rows(vx, vy, k).row_collides(vx, vy, k as int),
    decreases rows,
{
    if rows > 0 {
        let n = (rows - 1) as nat;
        let before = m.draw_rows(vx, vy, n);
        lemma_flag_accumulates(m, vx, vy, n);
        draw_stays_in_framebuffer(m, vx, vy, n);
        rows_wrap_inside_framebuffer(vx, vy, n as int);
        let value = before.sprite_byte(n as int);
        let target = row_target(vx, vy, n as int);
        let flag = before.registers[15];
        let high = high_part(value, vx % 8) & before.memory[target];
        let low = low_part(value, vx % 8) & before.memory[target + 1];
        assert((flag | high) != 0 <==> flag != 0 || high != 0) by (bit_vector);
        assert(((flag | high) | low) != 0 <==> flag != 0 || high != 0 || low != 0)
            by (bit_vector);
        assert(m.draw_rows(vx, vy, rows).registers[15] != 0 <==> flag != 0
            || before.row_collides(vx, vy, n as int));
        if m.draw_rows(vx, vy, rows).registers[15] != 0 && m.registers[15] == 0 {
            if before.row_collides(vx, vy, n as int) {
                assert(n < rows && m.draw_rows(vx, vy, n).row_collides(vx, vy, n as int));
            } else {
                let k = choose|k: nat|
                    k < n && #[trigger] m.draw_rows(vx, vy, k).row_collides(vx, vy, k as int);
                assert(k < rows && m.draw_rows(vx, vy, k).row_collides(vx, vy, k as int));
            }
        }
        if exists|k: nat|
            k < rows && #[trigger] m.draw_rows(vx, vy, k).row_collides(vx, vy, k as int) {
            let k = choose|k: nat|
                k < rows && #[trigger] m.draw_rows(vx, vy, k).row_collides(vx, vy, k as int);
            if k < n {
                assert(k < n && m.draw_rows(vx, vy, k).row_collides(vx, vy, k as int));
            }
        }
    }
}

/// A sprite draw ends with a nonzero collision flag exactly if some row, at
/// the moment it was drawn, turned on a pixel that was already lit. What
/// the flag held before the draw plays no part.
pub proof fn collision_flag_reports_overlap(m: Machine, vx: u8, vy: u8, rows: nat)
    requires
        m.wf(),
        m.draw_defined(vx, vy, rows),
    ensures
        m.draw(vx, vy, rows).registers[15] != 0 <==> exists|k: nat|
            k < rows && #[trigger] m.set_register(15, 0).draw_rows(vx, vy, k).row_collides(
                vx,
                vy,
                k as int,
            ),
{
    lemma_flag_accumulates(m.set_register(15, 0), vx, vy, rows);
}

/// The last of the first `rows` sprite rows that has a pixel, or -1 if all
/// of them are blank.
spec fn last_lit_row(m: Machine, rows: nat) -> int
    decreases rows,
{
    if rows == 0 {
        -1
    } else if m.sprite_byte(rows - 1) != 0 {
        rows - 1
    } else {
        last_lit_row(m, (rows - 1) as nat)
    }
}

/// A sprite with a pixel has a last row with a pixel, and only blank rows
/// after it.
proof fn lemma_last_lit_row(m: Machine, rows: nat, lit: nat)
    requires
        lit < rows,
        m.sprite_byte(lit as int) != 0,
    ensures
        lit <= last_lit_row(m, rows) < rows,
        m.sprite_byte(last_lit_row(m, rows)) != 0,
        forall|k: int| last_lit_row(m, rows) < k < rows ==> m.sprite_byte(k) == 0,
    decreases rows,
{
    if m.sprite_byte(rows - 1) == 0 {
        lemma_last_lit_row(m, (rows - 1) as nat, lit);
    }
}

/// Blank rows at the end of a sprite flip nothing.
proof fn lemma_blank_rows_flip_nothing(
    source: Machine,
    vx: u8,
    vy: u8,
    from: nat,
    rows: nat,
    j: int,
)
    requires
        from <= rows,
        forall|k: int| from <= k < rows ==> source.sprite_byte(k) == 0,
    ensures
        sprite_mask(source, vx, vy, rows, j) == sprite_mask(source, vx, vy, from, j),
    decreases rows,
{
    if from < rows {
        lemma_blank_rows_flip_nothing(source, vx, vy, from, (rows - 1) as nat, j);
        let shift = vx % 8;
        let rest = sprite_mask(source, vx, vy, (rows - 1) as nat, j);
        assert(high_part(0, shift) == 0) by (bit_vector);
        assert(low_part(0, shift) == 0) by (bit_vector);
        assert(rest ^ 0 == rest) by (bit_vector);
    }
}

/// Drawing a sprite that has at least one pixel onto a clear framebuffer and
/// then drawing it again in the same place, with nothing in between, ends
/// with a nonzero collision flag. This holds for a sprite stored below the
/// framebuffer, where drawing cannot alter it.
pub proof fn drawing_twice_reports_collision(m: Machine, vx: u8, vy: u8, rows: nat, lit: nat)
    requires
        m.wf(),
        m.index_register + rows <= DISPLAY_START,
        m.draw_defined(vx, vy, rows),
        forall|j: int| DISPLAY_START <= j < MEMORY_SIZE ==> m.memory[j] == 0,
        lit < rows,
        m.sprite_byte(lit as int) != 0,
    ensures
        m.draw(vx, vy, rows).draw_defined(vx, vy, rows),
        m.draw(vx, vy, rows).draw(vx, vy, rows).registers[15] != 0,
{
    let source = m.set_register(15, 0);
    let once = m.draw(vx, vy, rows);
    let again = once.set_register(15, 0);
    lemma_last_lit_row(source, rows, lit);
    let last = last_lit_row(source, rows) as nat;
    let value = source.sprite_byte(last as int);
    let shift = vx % 8;
    let target = row_target(vx, vy, last as int);
    rows_wrap_inside_framebuffer(vx, vy, last as int);

    lemma_draw_flips_mask(source, source, vx, vy, rows);
    draw_stays_in_framebuffer(source, vx, vy, rows);
    lemma_draw_flips_mask(again, source, vx, vy, rows);

    defined_rows_have_defined_prefixes(source, vx, vy, last, rows);
    defined_rows_have_defined_prefixes(source, vx, vy, last + 1, rows);
    lemma_draw_flips_mask(again, source, vx, vy, last);
    draw_stays_in_framebuffer(again, vx, vy, last);
    draw_stays_in_framebuffer(source, vx, vy, last);
    let before = again.draw_rows(vx, vy, last);
    assert(before.sprite_byte(last as int) == value);
    assert(source.draw_rows(vx, vy, last).sprite_byte(last as int) == value);
    assert(source.draw_rows(vx, vy, last).row_defined(vx, vy, last as int));

    assert forall|j: int| DISPLAY_START <= j < MEMORY_SIZE implies before.memory[j] == row_mask(
        value,
        vx,
        vy,
        last as int,
        j,
    ) by {
        lemma_blank_rows_flip_nothing(source, vx, vy, last + 1, rows, j);
        let a = sprite_mask(source, vx, vy, last, j);
        let r = row_mask(value, vx, vy, last as int, j);
        assert((0u8 ^ (a ^ r)) ^ a == r) by (bit_vector);
    }
    let high = high_part(value, shift);
    let low = low_part(value, shift);
    assert(value != 0 ==> (value >> shift) != 0 || (shift != 0 && (value << ((8 - shift) as u8))
        != 0)) by (bit_vector)
        requires
            shift < 8,
    ;
    assert(high & high == high) by (bit_vector);
    assert(low & low == low) by (bit_vector);
    assert(before.row_collides(vx, vy, last as int));
    lemma_flag_accumulates(again, vx, vy, rows);
}

} // verus!
