//! Memory and display rendered as text, for inspection.
//!
//! A memory dump is a heading followed by memory, sixteen bytes to a line:
//! the address of the first byte as four hexadecimal digits, a colon and a
//! space, then each byte as two hexadecimal digits followed by a space. A
//! display dump is a heading, the display with one row to a line and one
//! character per pixel, and a closing line.

use vstd::prelude::*;
use crate::state::{RAM_SIZE, SCREEN_SIZE};
use crate::{SCREEN_HEIGHT, SCREEN_WIDTH};

verus! {

/// The character that shows a lit pixel: a black square.
pub const PIXEL_ON: char = '\u{25A0}';

/// The character that shows a dark pixel: a dot operator.
pub const PIXEL_OFF: char = '\u{22C5}';

/// Number of bytes shown on one line of a memory dump.
pub const BYTES_PER_LINE: usize = 16;

/// Number of characters of one line of a memory dump.
pub const RAM_LINE_LENGTH: usize = 54;

/// The upper-case hexadecimal digit for `value`.
pub open spec fn hex_digit_of(value: int) -> char {
    if value == 0 {
        '0'
    } else if value == 1 {
        '1'
    } else if value == 2 {
        '2'
    } else if value == 3 {
        '3'
    } else if value == 4 {
        '4'
    } else if value == 5 {
        '5'
    } else if value == 6 {
        '6'
    } else if value == 7 {
        '7'
    } else if value == 8 {
        '8'
    } else if value == 9 {
        '9'
    } else if value == 10 {
        'A'
    } else if value == 11 {
        'B'
    } else if value == 12 {
        'C'
    } else if value == 13 {
        'D'
    } else if value == 14 {
        'E'
    } else {
        'F'
    }
}

/// The line of a memory dump that shows the sixteen bytes from `address` on.
pub open spec fn ram_line(memory: Seq<u8>, address: int) -> Seq<char> {
    Seq::new(
        RAM_LINE_LENGTH as nat,
        |i: int|
            if i == 0 {
                hex_digit_of(address / 0x1000 % 16)
            } else if i == 1 {
                hex_digit_of(address / 0x100 % 16)
            } else if i == 2 {
                hex_digit_of(address / 0x10 % 16)
            } else if i == 3 {
                hex_digit_of(address % 16)
            } else if i == 4 {
                ':'
            } else if i == 5 {
                ' '
            } else if (i - 6) % 3 == 0 {
                hex_digit_of(memory[address + (i - 6) / 3] as int / 16)
            } else if (i - 6) % 3 == 1 {
                hex_digit_of(memory[address + (i - 6) / 3] as int % 16)
            } else {
                ' '
            },
    )
}

/// The line that shows row `y` of the display.
pub open spec fn screen_line(screen: Seq<bool>, y: int) -> Seq<char> {
    Seq::new(
        SCREEN_WIDTH as nat,
        |x: int|
            if screen[y * 64 + x] {
                PIXEL_ON
            } else {
                PIXEL_OFF
            },
    )
}

/// The upper-case hexadecimal digit for `value`.
pub fn hex_digit(value: u8) -> (digit: char)
    requires
        value < 16,
    ensures
        digit == hex_digit_of(value as int),
{
    match value {
        0 => '0',
        1 => '1',
        2 => '2',
        3 => '3',
        4 => '4',
        5 => '5',
        6 => '6',
        7 => '7',
        8 => '8',
        9 => '9',
        10 => 'A',
        11 => 'B',
        12 => 'C',
        13 => 'D',
        14 => 'E',
        _ => 'F',
    }
}

/// Renders the sixteen bytes of `ram` from `address` on as one line.
pub fn render_ram_line(ram: &[u8; RAM_SIZE], address: usize) -> (line: Vec<char>)
    requires
        address + BYTES_PER_LINE <= RAM_SIZE,
    ensures
        line@ == ram_line(ram@, address as int),
{
    let mut line: Vec<char> = Vec::new();
    line.push(hex_digit(((address / 0x1000) % 16) as u8));
    line.push(hex_digit(((address / 0x100) % 16) as u8));
    line.push(hex_digit(((address / 0x10) % 16) as u8));
    line.push(hex_digit((address % 16) as u8));
    line.push(':');
    line.push(' ');
    let mut i: usize = 0;
    while i < BYTES_PER_LINE
        invariant
            i <= BYTES_PER_LINE,
            address + BYTES_PER_LINE <= RAM_SIZE,
            line@.len() == 6 + 3 * i,
            forall|k: int| 0 <= k < line@.len() ==> line@[k] == ram_line(ram@, address as int)[k],
        decreases BYTES_PER_LINE - i,
    {
        let byte = ram[address + i];
        line.push(hex_digit(byte / 16));
        line.push(hex_digit(byte % 16));
        line.push(' ');
        i += 1;
    }
    assert(line@ =~= ram_line(ram@, address as int));
    line
}

/// Renders row `y` of the display as one line.
pub fn render_screen_line(screen: &[bool; SCREEN_SIZE], y: usize) -> (line: Vec<char>)
    requires
        y < SCREEN_HEIGHT,
    ensures
        line@ == screen_line(screen@, y as int),
{
    let mut line: Vec<char> = Vec::new();
    let mut x: usize = 0;
    while x < SCREEN_WIDTH
        invariant
            x <= SCREEN_WIDTH,
            y < SCREEN_HEIGHT,
            line@.len() == x,
            forall|k: int| 0 <= k < x ==> line@[k] == screen_line(screen@, y as int)[k],
        decreases SCREEN_WIDTH - x,
    {
        if screen[y * SCREEN_WIDTH + x] {
            line.push(PIXEL_ON);
        } else {
            line.push(PIXEL_OFF);
        }
        x += 1;
    }
    assert(line@ =~= screen_line(screen@, y as int));
    line
}

/// The first line of a memory dump.
pub open spec fn ram_heading() -> Seq<char> {
    "CHIP-8 RAM Dump (0x000 - 0xFFF):"@
}

/// The first line of a display dump.
pub open spec fn screen_heading() -> Seq<char> {
    "CHIP-8 Screen (64x32):"@
}

/// The last line of a display dump.
pub open spec fn screen_closing() -> Seq<char> {
    "--- End of screen ---"@
}

/// The whole text of a memory dump: the heading, then the 256 lines that
/// show memory in the order of the addresses.
pub open spec fn ram_dump(memory: Seq<u8>) -> Seq<Seq<char>> {
    Seq::new(
        1 + RAM_SIZE as nat / BYTES_PER_LINE as nat,
        |k: int|
            if k == 0 {
                ram_heading()
            } else {
                ram_line(memory, 16 * (k - 1))
            },
    )
}

/// The whole text of a display dump: the heading, then the 32 rows from top
/// to bottom, then the closing line.
pub open spec fn screen_dump(screen: Seq<bool>) -> Seq<Seq<char>> {
    Seq::new(
        2 + SCREEN_HEIGHT as nat,
        |k: int|
            if k == 0 {
                screen_heading()
            } else if k <= SCREEN_HEIGHT {
                screen_line(screen, k - 1)
            } else {
                screen_closing()
            },
    )
}

/// The lines of `lines` are, one by one, the lines of `text`.
pub open spec fn shows(lines: Seq<Vec<char>>, text: Seq<Seq<char>>) -> bool {
    &&& lines.len() == text.len()
    &&& forall|k: int| 0 <= k < lines.len() ==> (#[trigger] lines[k])@ == text[k]
}

/// Writes the first line of a memory dump.
pub fn write_ram_heading() -> (line: Vec<char>)
    ensures
        line@ == ram_heading(),
{
    let line = vec![
        'C', 'H', 'I', 'P', '-', '8', ' ', 'R', 'A', 'M', ' ', 'D', 'u', 'm', 'p', ' ', '(', '0', 'x', '0',
        '0', '0', ' ', '-', ' ', '0', 'x', 'F', 'F', 'F', ')', ':',
    ];
    proof {
        reveal_strlit("CHIP-8 RAM Dump (0x000 - 0xFFF):");
        assert(line@ =~= ram_heading());
    }
    line
}

/// Writes the first line of a display dump.
pub fn write_screen_heading() -> (line: Vec<char>)
    ensures
        line@ == screen_heading(),
{
    let line = vec![
        'C', 'H', 'I', 'P', '-', '8', ' ', 'S', 'c', 'r', 'e', 'e', 'n', ' ', '(', '6', '4', 'x', '3', '2',
        ')', ':',
    ];
    proof {
        reveal_strlit("CHIP-8 Screen (64x32):");
        assert(line@ =~= screen_heading());
    }
    line
}

/// Writes the last line of a display dump.
pub fn write_screen_closing() -> (line: Vec<char>)
    ensures
        line@ == screen_closing(),
{
    let line = vec![
        '-', '-', '-', ' ', 'E', 'n', 'd', ' ', 'o', 'f', ' ', 's', 'c', 'r', 'e', 'e', 'n', ' ', '-', '-',
        '-',
    ];
    proof {
        reveal_strlit("--- End of screen ---");
        assert(line@ =~= screen_closing());
    }
    line
}

/// Writes the whole text of a memory dump.
pub fn write_ram_dump(ram: &[u8; RAM_SIZE]) -> (lines: Vec<Vec<char>>)
    ensures
        shows(lines@, ram_dump(ram@)),
{
    let mut lines: Vec<Vec<char>> = Vec::new();
    lines.push(write_ram_heading());
    let mut address: usize = 0;
    while address < RAM_SIZE
        invariant
            address <= RAM_SIZE,
            address % BYTES_PER_LINE == 0,
            lines@.len() == 1 + address / 16,
            forall|k: int| 0 <= k < lines@.len() ==> (#[trigger] lines@[k])@ == ram_dump(ram@)[k],
        decreases RAM_SIZE - address,
    {
        let line = render_ram_line(ram, address);
        lines.push(line);
        address += BYTES_PER_LINE;
    }
    lines
}

/// Writes the whole text of a display dump.
pub fn write_screen_dump(screen: &[bool; SCREEN_SIZE]) -> (lines: Vec<Vec<char>>)
    ensures
        shows(lines@, screen_dump(screen@)),
{
    let mut lines: Vec<Vec<char>> = Vec::new();
    lines.push(write_screen_heading());
    let mut y: usize = 0;
    while y < SCREEN_HEIGHT
        invariant
            y <= SCREEN_HEIGHT,
            lines@.len() == 1 + y,
            forall|k: int| 0 <= k < lines@.len() ==> (#[trigger] lines@[k])@ == screen_dump(screen@)[k],
        decreases SCREEN_HEIGHT - y,
    {
        let line = render_screen_line(screen, y);
        lines.push(line);
        y += 1;
    }
    lines.push(write_screen_closing());
    lines
}

} // verus!
