//! The demo game's display and input conventions: a 32x32 screen whose pixels
//! are the bytes at `$0200..$0600`, and the key last pressed at `$FF`.
use vstd::prelude::*;
use super::cpu::Cpu;

verus! {

pub const SCREEN_START: u16 = 0x0200;
pub const SCREEN_PIXELS: usize = 1024;
pub const FRAME_BYTES: usize = 3072;
pub const INPUT_ADDR: u16 = 0xFF;
pub const RANDOM_ADDR: u16 = 0xFE;

/// The RGB colour that a screen byte shows.
pub open spec fn palette(byte: u8) -> (u8, u8, u8) {
    match byte {
        0 => (0, 0, 0),
        1 => (255, 255, 255),
        2 | 9 => (128, 128, 128),
        3 | 10 => (255, 0, 0),
        4 | 11 => (0, 255, 0),
        5 | 12 => (0, 0, 255),
        6 | 13 => (255, 0, 255),
        7 | 14 => (255, 255, 0),
        _ => (0, 255, 255),
    }
}

pub open spec fn channel(rgb: (u8, u8, u8), k: int) -> u8 {
    if k == 0 {
        rgb.0
    } else if k == 1 {
        rgb.1
    } else {
        rgb.2
    }
}

/// Byte `i` of the RGB frame for screen memory `mem`: three bytes per pixel.
pub open spec fn frame_byte(mem: Seq<u8>, i: int) -> u8 {
    channel(palette(mem[SCREEN_START + i / 3]), i % 3)
}

pub open spec fn frame_of(mem: Seq<u8>) -> Seq<u8> {
    Seq::new(FRAME_BYTES as nat, |i: int| frame_byte(mem, i))
}

pub fn color(byte: u8) -> (rgb: (u8, u8, u8))
    ensures
        rgb == palette(byte),
{
    match byte {
        0 => (0, 0, 0),
        1 => (255, 255, 255),
        2 | 9 => (128, 128, 128),
        3 | 10 => (255, 0, 0),
        4 | 11 => (0, 255, 0),
        5 | 12 => (0, 0, 255),
        6 | 13 => (255, 0, 255),
        7 | 14 => (255, 255, 0),
        _ => (0, 255, 255),
    }
}

/// Redraws `frame` from the screen memory of `cpu`; returns whether any byte changed.
pub fn read_screen_state(cpu: &Cpu, frame: &mut [u8; 3072]) -> (update: bool)
    requires
        cpu.wf(),
    ensures
        final(frame)@ == frame_of(cpu@.mem),
        update == (old(frame)@ != frame_of(cpu@.mem)),
{
    let ghost target = frame_of(cpu@.mem);
    let mut update = false;
    let mut i: usize = 0;
    while i < SCREEN_PIXELS
        invariant
            cpu.wf(),
            i <= SCREEN_PIXELS,
            target == frame_of(cpu@.mem),
            frame@.len() == FRAME_BYTES,
            forall|k: int| 0 <= k < 3 * i ==> frame@[k] == target[k],
            forall|k: int| 3 * i <= k < FRAME_BYTES ==> frame@[k] == old(frame)@[k],
            update == exists|k: int| 0 <= k < 3 * i && old(frame)@[k] != target[k],
        decreases SCREEN_PIXELS - i,
    {
        let (b1, b2, b3) = color(cpu.mem_read(SCREEN_START + i as u16));
        let idx = 3 * i;
        assert(target[idx as int] == b1 && target[idx + 1] == b2 && target[idx + 2] == b3) by {
            assert((3 * i) / 3 == i && (3 * i + 1) / 3 == i && (3 * i + 2) / 3 == i);
            assert((3 * i) % 3 == 0 && (3 * i + 1) % 3 == 1 && (3 * i + 2) % 3 == 2);
        }
        let changed = frame[idx] != b1 || frame[idx + 1] != b2 || frame[idx + 2] != b3;
        if changed {
            frame[idx] = b1;
            frame[idx + 1] = b2;
            frame[idx + 2] = b3;
        }
        proof {
            if changed {
                let k = if old(frame)@[idx as int] != b1 {
                    idx as int
                } else if old(frame)@[idx + 1] != b2 {
                    idx + 1
                } else {
                    idx + 2
                };
                assert(old(frame)@[k] != target[k]);
            }
        }
        update = update || changed;
        i = i + 1;
    }
    assert(frame@ =~= target);
    proof {
        if update {
            let k = choose|k: int| 0 <= k < FRAME_BYTES && old(frame)@[k] != target[k];
            assert(old(frame)@[k] != target[k]);
        } else {
            assert(old(frame)@ =~= target);
        }
    }
    update
}

/// The keys the demo game reads.
#[derive(Clone, Copy, Debug, PartialEq, Eq, Structural)]
pub enum GameKey {
    Up,
    Down,
    Left,
    Right,
}

/// The byte the game expects at `$FF` for a key: its lower-case ASCII letter.
pub open spec fn key_byte(key: GameKey) -> u8 {
    match key {
        GameKey::Up => 0x77,
        GameKey::Down => 0x73,
        GameKey::Left => 0x61,
        GameKey::Right => 0x64,
    }
}

/// Records `key` as the last key pressed.
pub fn press_key(cpu: &mut Cpu, key: GameKey)
    requires
        old(cpu).wf(),
    ensures
        final(cpu).wf(),
        final(cpu)@ == super::state::write_byte(old(cpu)@, INPUT_ADDR, key_byte(key)),
{
    let byte = match key {
        GameKey::Up => 0x77,
        GameKey::Down => 0x73,
        GameKey::Left => 0x61,
        GameKey::Right => 0x64,
    };
    cpu.mem_write(INPUT_ADDR, byte);
}

} // verus!
