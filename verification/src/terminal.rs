use vstd::prelude::*;
use crate::memory::{Memory, byte_at, with_byte};
use crate::types::Address;

verus! {

/// Address of the first character cell of the text terminal.
pub const TERMINAL_BUFFER_START: Address = 0x00F0_0000;

/// Number of character cells per terminal row.
pub const TERMINAL_WIDTH: u32 = 80;

/// Number of terminal rows.
pub const TERMINAL_HEIGHT: u32 = 25;

/// The character a terminal cell shows for a byte: printable ASCII as it is,
/// anything else as a blank.
pub open spec fn display_byte(b: u8) -> u8 {
    if 0x20 <= b && b < 0x7F {
        b
    } else {
        0x20
    }
}

/// Row `y` of the terminal as the characters it shows.
pub open spec fn terminal_row(mem: Seq<u8>, y: int) -> Seq<u8> {
    Seq::new(
        TERMINAL_WIDTH as nat,
        |x: int| display_byte(byte_at(mem, TERMINAL_BUFFER_START + y * TERMINAL_WIDTH + x)),
    )
}

fn display(b: u8) -> (c: u8)
    ensures
        c == display_byte(b),
{
    if 0x20 <= b && b < 0x7F {
        b
    } else {
        0x20
    }
}

/// The rows of the terminal, each as the characters it shows.
pub fn read_terminal(memory: &Memory) -> (rows: Vec<Vec<u8>>)
    ensures
        rows@.len() == TERMINAL_HEIGHT,
        forall|y: int| 0 <= y < TERMINAL_HEIGHT ==> #[trigger] rows@[y]@ == terminal_row(memory@, y),
{
    let mut rows: Vec<Vec<u8>> = Vec::new();
    let mut y: u32 = 0;
    while y < TERMINAL_HEIGHT
        invariant
            y <= TERMINAL_HEIGHT,
            rows@.len() == y,
            forall|j: int| 0 <= j < y ==> #[trigger] rows@[j]@ == terminal_row(memory@, j),
        decreases TERMINAL_HEIGHT - y,
    {
        let mut row: Vec<u8> = Vec::new();
        let mut x: u32 = 0;
        while x < TERMINAL_WIDTH
            invariant
                y < TERMINAL_HEIGHT,
                x <= TERMINAL_WIDTH,
                row@.len() == x,
                forall|i: int| 0 <= i < x ==> #[trigger] row@[i] == terminal_row(memory@, y as int)[i],
            decreases TERMINAL_WIDTH - x,
        {
            let a = TERMINAL_BUFFER_START as u64 + (y * TERMINAL_WIDTH + x) as u64;
            row.push(display(memory.read_byte(a)));
            x = x + 1;
        }
        assert(row@ =~= terminal_row(memory@, y as int));
        rows.push(row);
        y = y + 1;
    }
    rows
}

/// A printable character stored in the cell at column `x` of row `y` is what
/// the terminal shows there; a byte that is not printable ASCII shows as a
/// blank; every other cell keeps what it showed.
pub proof fn lemma_terminal_shows_stored_character(mem: Seq<u8>, x: int, y: int, c: u8, x2: int, y2: int)
    requires
        mem.len() >= TERMINAL_BUFFER_START + TERMINAL_WIDTH * TERMINAL_HEIGHT,
        0 <= x < TERMINAL_WIDTH,
        0 <= y < TERMINAL_HEIGHT,
        0 <= x2 < TERMINAL_WIDTH,
        0 <= y2 < TERMINAL_HEIGHT,
    ensures
        ({
            let stored = with_byte(mem, TERMINAL_BUFFER_START + y * TERMINAL_WIDTH + x, c);
            &&& 0x20 <= c < 0x7F ==> terminal_row(stored, y)[x] == c
            &&& !(0x20 <= c < 0x7F) ==> terminal_row(stored, y)[x] == 0x20
            &&& (x2 != x || y2 != y) ==> terminal_row(stored, y2)[x2] == terminal_row(mem, y2)[x2]
        }),
{
    if x2 != x || y2 != y {
        assert(y2 * TERMINAL_WIDTH + x2 != y * TERMINAL_WIDTH + x) by (nonlinear_arith)
            requires
                0 <= x < 80,
                0 <= x2 < 80,
                x2 != x || y2 != y,
        ;
    }
}

} // verus!
