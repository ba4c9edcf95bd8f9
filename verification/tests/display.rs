use freqmeter::{busy_probe, command_frame, decode_busy_and_ac, decode_frame, DisplayCommand,
    I2cDisplay, PollVerdict, ShiftDirection};
use freqmeter::display::poll_verdict;

#[test]
fn clear_display_frame_bytes() {
    // payload 0x01, instruction register, write: control bits are just the
    // power bit 0x08. Upper nibble byte 0x08, lower nibble byte 0x18, each
    // pulsed Enable low-high-low.
    let frame = command_frame(&DisplayCommand::ClearDisplay);
    assert_eq!(frame, vec![0x08, 0x0C, 0x08, 0x18, 0x1C, 0x18]);
}

#[test]
fn write_data_frame_bytes() {
    // payload 'A' = 0x41, data register: control bits 0x09.
    let frame = command_frame(&DisplayCommand::WriteData { byte: 0x41 });
    assert_eq!(frame, vec![0x49, 0x4D, 0x49, 0x19, 0x1D, 0x19]);
}

#[test]
fn function_set_frame_repeats_upper_nibble() {
    // FunctionSet default: payload 0x28. The initialization handshake
    // transmits the upper-nibble pulse once more, with the power bit masked
    // off, before the ordinary two-nibble frame.
    let frame = command_frame(&DisplayCommand::FunctionSet {
        eight_bit_mode: false,
        two_line_mode: true,
        big_fonts: false,
    });
    assert_eq!(frame, vec![0x20, 0x24, 0x20, 0x28, 0x2C, 0x28, 0x88, 0x8C, 0x88]);
}

#[test]
fn set_ddram_address_truncates_to_seven_bits() {
    let frame = command_frame(&DisplayCommand::SetDDRAMAddress { address: 0x85 });
    let decoded = decode_frame(&frame).unwrap();
    // 0x85 & 0x7F = 0x05, so the payload is 0x80 | 0x05.
    assert_eq!(decoded.2, 0x85);
    let frame2 = command_frame(&DisplayCommand::SetDDRAMAddress { address: 0x05 });
    assert_eq!(frame, frame2);
}

fn roundtrip(cmd: DisplayCommand, rs: bool, payload: u8) {
    let frame = command_frame(&cmd);
    let (got_rs, got_rw, got_payload) = decode_frame(&frame).unwrap();
    assert_eq!(got_rs, rs);
    assert!(!got_rw);
    assert_eq!(got_payload, payload);
}

#[test]
fn every_variant_round_trips() {
    roundtrip(DisplayCommand::ClearDisplay, false, 0x01);
    roundtrip(DisplayCommand::ReturnHome, false, 0x02);
    for &eight in &[false, true] {
        for &two in &[false, true] {
            for &big in &[false, true] {
                let payload = 0x20
                    | if eight { 0x10 } else { 0 }
                    | if two { 0x08 } else { 0 }
                    | if big { 0x04 } else { 0 };
                roundtrip(
                    DisplayCommand::FunctionSet {
                        eight_bit_mode: eight,
                        two_line_mode: two,
                        big_fonts: big,
                    },
                    false,
                    payload,
                );
            }
        }
    }
    for &on in &[false, true] {
        for &cur in &[false, true] {
            for &blink in &[false, true] {
                let payload = 0x08
                    | if on { 0x04 } else { 0 }
                    | if cur { 0x02 } else { 0 }
                    | if blink { 0x01 } else { 0 };
                roundtrip(
                    DisplayCommand::DisplayControls {
                        display_on: on,
                        cursor_on: cur,
                        cursor_blink: blink,
                    },
                    false,
                    payload,
                );
            }
        }
    }
    for &inc in &[false, true] {
        for &shift in &[false, true] {
            let payload = 0x04 | if inc { 0x02 } else { 0 } | if shift { 0x01 } else { 0 };
            roundtrip(
                DisplayCommand::EntryModeSet { increment_cursor: inc, shift_display: shift },
                false,
                payload,
            );
        }
    }
    for &ds in &[false, true] {
        for &dir in &[ShiftDirection::Left, ShiftDirection::Right] {
            let payload = 0x10
                | if ds { 0x08 } else { 0 }
                | if dir == ShiftDirection::Right { 0x04 } else { 0 };
            roundtrip(
                DisplayCommand::CursorDisplayShift { display_shift: ds, direction: dir },
                false,
                payload,
            );
        }
    }
    for addr in 0u8..128 {
        roundtrip(DisplayCommand::SetDDRAMAddress { address: addr }, false, 0x80 | addr);
    }
    for byte in [0u8, 0x41, 0x7F, 0xFF] {
        roundtrip(DisplayCommand::WriteData { byte }, true, byte);
    }
}

#[test]
fn default_cursor_shift_moves_cursor_right() {
    let cmd = DisplayCommand::cursor_shift_default();
    assert_eq!(
        cmd,
        DisplayCommand::CursorDisplayShift {
            display_shift: false,
            direction: ShiftDirection::Right,
        }
    );
    // payload 0001 SC RL 00 with SC=0, RL=right
    let (_, _, payload) = decode_frame(&command_frame(&cmd)).unwrap();
    assert_eq!(payload, 0x14);
}

#[test]
fn init_issues_canonical_sequence() {
    let mut d = I2cDisplay::new(0x27);
    assert_eq!(d.get_address(), 0x27);
    let cmds = d.init();
    assert_eq!(
        cmds,
        vec![
            DisplayCommand::FunctionSet {
                eight_bit_mode: false,
                two_line_mode: true,
                big_fonts: false,
            },
            DisplayCommand::ClearDisplay,
            DisplayCommand::DisplayControls {
                display_on: true,
                cursor_on: false,
                cursor_blink: false,
            },
            DisplayCommand::EntryModeSet { increment_cursor: true, shift_display: false },
            DisplayCommand::ReturnHome,
            DisplayCommand::SetDDRAMAddress { address: 0 },
        ]
    );
}

#[test]
fn clear_issues_clear_then_home() {
    let mut d = I2cDisplay::new(0x27);
    let cmds = d.clear();
    assert_eq!(cmds, vec![DisplayCommand::ClearDisplay, DisplayCommand::ReturnHome]);
}

#[test]
fn cursor_addresses_map_onto_segmented_ddram() {
    let mut d = I2cDisplay::new(0x27);
    let expect = [
        (0u8, 0x00u8),
        (15, 0x0F),
        (16, 0x40),
        (31, 0x4F),
    ];
    for &(pos, addr) in &expect {
        let cmds = d.move_cursor(pos);
        assert_eq!(cmds, vec![DisplayCommand::SetDDRAMAddress { address: addr }]);
    }
}

#[test]
fn cursor_out_of_range_is_a_no_op() {
    let mut d = I2cDisplay::new(0x27);
    assert_eq!(d.move_cursor(32), vec![]);
    assert_eq!(d.move_cursor(255), vec![]);
}

#[test]
fn write_string_issues_one_data_write_per_byte() {
    let mut d = I2cDisplay::new(0x27);
    let mut msg: heapless::String<32> = heapless::String::new();
    msg.push_str("Hi!").unwrap();
    let cmds = d.write_string(&msg);
    assert_eq!(
        cmds,
        vec![
            DisplayCommand::WriteData { byte: b'H' },
            DisplayCommand::WriteData { byte: b'i' },
            DisplayCommand::WriteData { byte: b'!' },
        ]
    );
}

#[test]
fn write_string_empty_issues_nothing() {
    let mut d = I2cDisplay::new(0x27);
    let msg: heapless::String<32> = heapless::String::new();
    assert_eq!(d.write_string(&msg), vec![]);
}

/// A little simulated controller, driven exactly by the commands the driver
/// issues: enough state to observe what clear leaves behind.
struct SimLcd {
    ddram: [u8; 128],
    addr: usize,
    increment: bool,
}

impl SimLcd {
    fn new() -> SimLcd {
        // Arbitrary dirty power-up state.
        SimLcd { ddram: [0xAA; 128], addr: 17, increment: false }
    }

    fn apply(&mut self, cmd: &DisplayCommand) {
        match *cmd {
            DisplayCommand::ClearDisplay => {
                self.ddram = [0x20; 128];
                self.addr = 0;
                self.increment = true;
            }
            DisplayCommand::ReturnHome => {
                self.addr = 0;
            }
            DisplayCommand::SetDDRAMAddress { address } => {
                self.addr = (address & 0x7F) as usize;
            }
            DisplayCommand::WriteData { byte } => {
                self.ddram[self.addr] = byte;
                self.addr = if self.increment {
                    (self.addr + 1) % 128
                } else {
                    (self.addr + 127) % 128
                };
            }
            _ => {}
        }
    }

    fn apply_all(&mut self, cmds: &[DisplayCommand]) {
        for cmd in cmds {
            self.apply(cmd);
        }
    }
}

#[test]
fn clear_twice_equals_clear_once() {
    let mut d1 = I2cDisplay::new(0x27);
    let mut sim_once = SimLcd::new();
    sim_once.apply_all(&d1.clear());

    let mut d2 = I2cDisplay::new(0x27);
    let mut sim_twice = SimLcd::new();
    sim_twice.apply_all(&d2.clear());
    sim_twice.apply_all(&d2.clear());

    assert_eq!(sim_once.ddram, sim_twice.ddram);
    assert_eq!(sim_once.addr, sim_twice.addr);
    assert_eq!(sim_once.addr, 0);
    assert!(sim_once.ddram.iter().all(|&b| b == 0x20));
}

#[test]
fn busy_probe_is_a_status_read_pulse() {
    assert_eq!(busy_probe(), [0x0A, 0x0E, 0x0A]);
}

#[test]
fn busy_and_address_counter_decode() {
    // Busy flag is the top bit of the first byte; the address counter
    // combines the first byte's middle bits with the second byte's high
    // nibble.
    assert_eq!(decode_busy_and_ac(0x80, 0x00), (true, 0x00));
    assert_eq!(decode_busy_and_ac(0x00, 0x00), (false, 0x00));
    assert_eq!(decode_busy_and_ac(0x75, 0xA0), (false, 0x7A));
    assert_eq!(decode_busy_and_ac(0xC3, 0x5F), (true, 0x45));
}

#[test]
fn poll_verdicts() {
    assert_eq!(poll_verdict(false, 0), PollVerdict::Ready);
    assert_eq!(poll_verdict(false, 10), PollVerdict::Ready);
    assert_eq!(poll_verdict(true, 3), PollVerdict::Again);
    assert_eq!(poll_verdict(true, 0), PollVerdict::TimedOut);
}
