use nestacean::nes::cpu::Cpu;
use nestacean::nes::screen::{color, press_key, read_screen_state, GameKey, FRAME_BYTES};

#[test]
fn palette_maps_screen_bytes() {
    assert_eq!(color(0), (0, 0, 0));
    assert_eq!(color(1), (255, 255, 255));
    assert_eq!(color(9), (128, 128, 128));
    assert_eq!(color(3), (255, 0, 0));
    assert_eq!(color(11), (0, 255, 0));
    assert_eq!(color(5), (0, 0, 255));
    assert_eq!(color(13), (255, 0, 255));
    assert_eq!(color(7), (255, 255, 0));
    assert_eq!(color(200), (0, 255, 255));
}

#[test]
fn screen_refresh_reports_changes() {
    let mut cpu = Cpu::new();
    let mut frame = [0u8; FRAME_BYTES];
    assert!(!read_screen_state(&cpu, &mut frame));
    cpu.mem_write(0x0200, 1);
    cpu.mem_write(0x05FF, 3);
    assert!(read_screen_state(&cpu, &mut frame));
    assert_eq!(&frame[0..3], &[255, 255, 255]);
    assert_eq!(&frame[3..6], &[0, 0, 0]);
    assert_eq!(&frame[FRAME_BYTES - 3..], &[255, 0, 0]);
    assert!(!read_screen_state(&cpu, &mut frame));
}

#[test]
fn keys_become_ascii_letters() {
    let mut cpu = Cpu::new();
    press_key(&mut cpu, GameKey::Up);
    assert_eq!(cpu.mem_read(0xFF), 0x77);
    press_key(&mut cpu, GameKey::Down);
    assert_eq!(cpu.mem_read(0xFF), 0x73);
    press_key(&mut cpu, GameKey::Left);
    assert_eq!(cpu.mem_read(0xFF), 0x61);
    press_key(&mut cpu, GameKey::Right);
    assert_eq!(cpu.mem_read(0xFF), 0x64);
}

fn cycles_of(program: &[u8]) -> u32 {
    let mut cpu = Cpu::new();
    cpu.load_program(program);
    cpu.reset();
    cpu.tick().unwrap();
    let mut cycles = 1;
    while !cpu.is_at_instruction_boundary() {
        cpu.tick().unwrap();
        cycles += 1;
    }
    cycles
}

#[test]
fn documented_cycle_counts() {
    let cases: [(&[u8], u32); 16] = [
        (&[0xA9, 0x01], 2),
        (&[0xA5, 0x10], 3),
        (&[0xB5, 0x10], 4),
        (&[0xAD, 0x00, 0x30], 4),
        (&[0xA1, 0x10], 6),
        (&[0xB1, 0x10], 5),
        (&[0x91, 0x10], 6),
        (&[0x81, 0x10], 6),
        (&[0x99, 0x00, 0x30], 5),
        (&[0x06, 0x10], 5),
        (&[0x16, 0x10], 6),
        (&[0x0E, 0x00, 0x30], 6),
        (&[0x1E, 0x00, 0x30], 7),
        (&[0x20, 0x00, 0x30], 6),
        (&[0x4C, 0x00, 0x30], 3),
        (&[0x68], 4),
    ];
    for (program, expected) in cases {
        assert_eq!(cycles_of(program), expected, "program {:02X?}", program);
    }
}
