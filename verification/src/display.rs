//! Command/protocol layer for a Hitachi-style character LCD driven in 4-bit
//! nibble mode through an 8-bit serial bus expander.
//!
//! The driver is split from the wire: every public operation decides which
//! commands to issue and what controller state they leave behind, and
//! `command_frame` turns one command into the exact byte sequence the bus
//! must carry (two nibbles, each framed as a 3-phase Enable pulse). The
//! caller owns the bus: it writes the frame bytes in order, with the
//! controller's required inter-phase delay, and polls the busy flag between
//! commands using `busy_probe` and `decode_busy_and_ac`.

use vstd::prelude::*;

verus! {

/// Expander bit wired to the controller's Enable line; data is latched on
/// its high-to-low transition.
pub const ENABLE_BIT: u8 = 4;

/// Expander bit that keeps the display power/backlight on.
pub const ON_BIT: u8 = 8;

/// Number of DDRAM bytes the controller state model tracks (7-bit address
/// space).
pub const DDRAM_SIZE: usize = 128;

/// DDRAM address of the first character of the second display row.
pub const SECOND_ROW_BASE: u8 = 0x40;

/// The blank character the controller fills DDRAM with on a clear.
pub const BLANK: u8 = 0x20;

/// Direction of a cursor or display shift.
#[derive(Clone, Copy, PartialEq, Eq, Structural, Debug)]
pub enum ShiftDirection {
    Right,
    Left,
}

/// The closed command vocabulary of the display controller. Every command is
/// a transient value: constructed, encoded into one frame, and forgotten.
#[derive(Clone, Copy, PartialEq, Eq, Structural, Debug)]
pub enum DisplayCommand {
    ClearDisplay,
    ReturnHome,
    FunctionSet { eight_bit_mode: bool, two_line_mode: bool, big_fonts: bool },
    DisplayControls { display_on: bool, cursor_on: bool, cursor_blink: bool },
    EntryModeSet { increment_cursor: bool, shift_display: bool },
    CursorDisplayShift { display_shift: bool, direction: ShiftDirection },
    SetDDRAMAddress { address: u8 },
    WriteData { byte: u8 },
}

/// The 8-bit payload of a command, by its variant-specific bit layout.
pub open spec fn spec_payload(cmd: DisplayCommand) -> u8 {
    match cmd {
        DisplayCommand::ClearDisplay => 1,
        DisplayCommand::ReturnHome => 2,
        DisplayCommand::FunctionSet { eight_bit_mode, two_line_mode, big_fonts } => (0x20u8 + if eight_bit_mode {
            0x10u8
        } else {
            0u8
        } + if two_line_mode {
            8u8
        } else {
            0u8
        } + if big_fonts {
            4u8
        } else {
            0u8
        }) as u8,
        DisplayCommand::DisplayControls { display_on, cursor_on, cursor_blink } => (8u8 + if display_on {
            4u8
        } else {
            0u8
        } + if cursor_on {
            2u8
        } else {
            0u8
        } + if cursor_blink {
            1u8
        } else {
            0u8
        }) as u8,
        DisplayCommand::EntryModeSet { increment_cursor, shift_display } => (4u8 + if increment_cursor {
            2u8
        } else {
            0u8
        } + if shift_display {
            1u8
        } else {
            0u8
        }) as u8,
        DisplayCommand::CursorDisplayShift { display_shift, direction } => (0x10u8 + if display_shift {
            8u8
        } else {
            0u8
        } + if direction is Right {
            4u8
        } else {
            0u8
        }) as u8,
        DisplayCommand::SetDDRAMAddress { address } => (0x80u8 + address % 0x80) as u8,
        DisplayCommand::WriteData { byte } => byte,
    }
}

/// Register-select bit: data register for DDRAM writes, instruction register
/// for everything else.
pub open spec fn spec_rs(cmd: DisplayCommand) -> bool {
    cmd is WriteData
}

/// Read/write bit: every command is a write; reads happen only through the
/// separate status probe.
pub open spec fn spec_rw(cmd: DisplayCommand) -> bool {
    false
}

/// The three control bits packed into the low nibble of every frame byte:
/// register select, read/write, and the always-on power bit.
pub open spec fn spec_ctrl(cmd: DisplayCommand) -> u8 {
    (if spec_rs(cmd) {
        1u8
    } else {
        0u8
    }) | ((if spec_rw(cmd) {
        1u8
    } else {
        0u8
    }) << 1) | ON_BIT
}

/// A nibble byte framed as the 3-phase Enable pulse: Enable low, high, low.
/// The controller latches the nibble on the high-to-low edge, so the three
/// phases must reach the bus in exactly this order.
pub open spec fn spec_pulse(b: u8) -> Seq<u8> {
    seq![b, b | ENABLE_BIT, b]
}

/// The same pulse with the power bit masked off; only used for the repeated
/// upper nibble of the initialization handshake, which power-cycles a
/// display that was already on.
pub open spec fn spec_dark_pulse(b: u8) -> Seq<u8> {
    seq![b & !ON_BIT, (b | ENABLE_BIT) & !ON_BIT, b & !ON_BIT]
}

/// Upper-nibble frame byte: high nibble of the payload plus control bits.
pub open spec fn spec_upper_byte(cmd: DisplayCommand) -> u8 {
    (spec_payload(cmd) & 0xF0) | spec_ctrl(cmd)
}

/// Lower-nibble frame byte: low nibble of the payload, shifted high, plus
/// control bits.
pub open spec fn spec_lower_byte(cmd: DisplayCommand) -> u8 {
    ((spec_payload(cmd) & 0x0F) << 4) | spec_ctrl(cmd)
}

/// The full byte sequence one command puts on the bus: upper-nibble pulse,
/// then lower-nibble pulse. A FunctionSet command is preceded by one extra
/// upper-nibble pulse: right after power-up the controller still expects
/// 8-bit commands and must see the mode-set nibble once on its own before it
/// accepts two-nibble traffic. The repeat is gated on the variant, not on
/// driver state, since only a cold controller ever receives one.
pub open spec fn spec_frame(cmd: DisplayCommand) -> Seq<u8> {
    let body = spec_pulse(spec_upper_byte(cmd)) + spec_pulse(spec_lower_byte(cmd));
    if cmd is FunctionSet {
        spec_dark_pulse(spec_upper_byte(cmd)) + body
    } else {
        body
    }
}

impl DisplayCommand {
    /// A FunctionSet with the configuration this driver brings the display
    /// up in: 4-bit bus, two rows, small font.
    pub fn function_set_default() -> (cmd: DisplayCommand)
        ensures
            cmd == (DisplayCommand::FunctionSet {
                eight_bit_mode: false,
                two_line_mode: true,
                big_fonts: false,
            }),
    {
        DisplayCommand::FunctionSet { eight_bit_mode: false, two_line_mode: true, big_fonts: false }
    }

    /// A DisplayControls with the bring-up configuration: display on, cursor
    /// hidden, no blinking.
    pub fn display_controls_default() -> (cmd: DisplayCommand)
        ensures
            cmd == (DisplayCommand::DisplayControls {
                display_on: true,
                cursor_on: false,
                cursor_blink: false,
            }),
    {
        DisplayCommand::DisplayControls { display_on: true, cursor_on: false, cursor_blink: false }
    }

    /// An EntryModeSet with the bring-up configuration: the cursor advances
    /// after each write and the display window stays put.
    pub fn entry_mode_default() -> (cmd: DisplayCommand)
        ensures
            cmd == (DisplayCommand::EntryModeSet { increment_cursor: true, shift_display: false }),
    {
        DisplayCommand::EntryModeSet { increment_cursor: true, shift_display: false }
    }

    /// A CursorDisplayShift that moves only the cursor, one position right.
    pub fn cursor_shift_default() -> (cmd: DisplayCommand)
        ensures
            cmd == (DisplayCommand::CursorDisplayShift {
                display_shift: false,
                direction: ShiftDirection::Right,
            }),
    {
        DisplayCommand::CursorDisplayShift {
            display_shift: false,
            direction: ShiftDirection::Right,
        }
    }

    /// The command's 8-bit payload.
    pub fn payload(&self) -> (r: u8)
        ensures
            r == spec_payload(*self),
    {
        match *self {
            DisplayCommand::ClearDisplay => 1,
            DisplayCommand::ReturnHome => 2,
            DisplayCommand::FunctionSet { eight_bit_mode, two_line_mode, big_fonts } => {
                0x20 + if eight_bit_mode {
                    0x10
                } else {
                    0
                } + if two_line_mode {
                    8
                } else {
                    0
                } + if big_fonts {
                    4
                } else {
                    0
                }
            },
            DisplayCommand::DisplayControls { display_on, cursor_on, cursor_blink } => {
                8 + if display_on {
                    4
                } else {
                    0
                } + if cursor_on {
                    2
                } else {
                    0
                } + if cursor_blink {
                    1
                } else {
                    0
                }
            },
            DisplayCommand::EntryModeSet { increment_cursor, shift_display } => {
                4 + if increment_cursor {
                    2
                } else {
                    0
                } + if shift_display {
                    1
                } else {
                    0
                }
            },
            DisplayCommand::CursorDisplayShift { display_shift, direction } => {
                0x10 + if display_shift {
                    8
                } else {
                    0
                } + match direction {
                    ShiftDirection::Right => 4,
                    ShiftDirection::Left => 0,
                }
            },
            DisplayCommand::SetDDRAMAddress { address } => 0x80 + address % 0x80,
            DisplayCommand::WriteData { byte } => byte,
        }
    }

    /// The register-select bit, as the frame carries it.
    pub fn rs_bit(&self) -> (r: u8)
        ensures
            r == if spec_rs(*self) {
                1u8
            } else {
                0u8
            },
    {
        match *self {
            DisplayCommand::WriteData { .. } => 1,
            _ => 0,
        }
    }

    /// The read/write bit, as the frame carries it: always write.
    pub fn rw_bit(&self) -> (r: u8)
        ensures
            r == if spec_rw(*self) {
                1u8
            } else {
                0u8
            },
    {
        0
    }
}

/// Frame one nibble byte as its 3-phase Enable pulse.
pub fn expand_cmd_sequence(data: u8) -> (r: [u8; 3])
    ensures
        r@ == spec_pulse(data),
{
    let r = [data, data | ENABLE_BIT, data];
    proof {
        assert(r@ =~= spec_pulse(data));
    }
    r
}

/// Encode one command into the exact byte sequence its frame puts on the
/// bus: 6 bytes, or 9 for the FunctionSet initialization handshake.
pub fn command_frame(cmd: &DisplayCommand) -> (frame: Vec<u8>)
    ensures
        frame@ == spec_frame(*cmd),
{
    let payload = cmd.payload();
    let ctrl = cmd.rs_bit() | (cmd.rw_bit() << 1) | ON_BIT;
    let upper = (payload & 0xF0) | ctrl;
    let lower = ((payload & 0x0F) << 4) | ctrl;
    let mut frame: Vec<u8> = Vec::new();
    if matches!(cmd, DisplayCommand::FunctionSet { .. }) {
        let dark = expand_cmd_sequence(upper);
        let mut i: usize = 0;
        while i < 3
            invariant
                i <= 3,
                dark@ == spec_pulse(upper),
                frame@ == spec_dark_pulse(upper).take(i as int),
            decreases 3 - i,
        {
            frame.push(dark[i] & !ON_BIT);
            proof {
                assert(frame@ =~= spec_dark_pulse(upper).take(i + 1));
            }
            i = i + 1;
        }
        proof {
            assert(frame@ =~= spec_dark_pulse(upper));
        }
    }
    let up = expand_cmd_sequence(upper);
    let lo = expand_cmd_sequence(lower);
    frame.push(up[0]);
    frame.push(up[1]);
    frame.push(up[2]);
    frame.push(lo[0]);
    frame.push(lo[1]);
    frame.push(lo[2]);
    proof {
        assert(frame@ =~= spec_frame(*cmd));
    }
    frame
}

/// What a frame decodes back to: the register-select bit, the read/write
/// bit, and the 8-bit payload, read off the Enable-low phases of the two
/// nibble pulses.
pub open spec fn spec_decode_frame(frame: Seq<u8>) -> Option<(bool, bool, u8)> {
    if frame.len() < 6 {
        None
    } else {
        let b0 = frame[frame.len() - 6];
        let b3 = frame[frame.len() - 3];
        Some(((b0 & 1) == 1, ((b0 >> 1) & 1) == 1, (b0 & 0xF0) | (b3 >> 4)))
    }
}

/// Decode an emitted frame back into its register-select bit, read/write
/// bit, and payload byte. The frame's last 6 bytes are the two nibble
/// pulses; an initialization handshake's extra leading pulse is skipped.
pub fn decode_frame(frame: &Vec<u8>) -> (r: Option<(bool, bool, u8)>)
    ensures
        r == spec_decode_frame(frame@),
{
    if frame.len() < 6 {
        None
    } else {
        let b0 = frame[frame.len() - 6];
        let b3 = frame[frame.len() - 3];
        Some(((b0 & 1) == 1, ((b0 >> 1) & 1) == 1, (b0 & 0xF0) | (b3 >> 4)))
    }
}

/// The bit packing of one command round-trips: the two Enable-low frame
/// bytes give back the payload and both control bits.
proof fn lemma_nibble_roundtrip(p: u8, r: u8, w: u8)
    by (bit_vector)
    requires
        r <= 1,
        w <= 1,
    ensures
        ((((p & 0xF0) | (r | (w << 1) | 8)) & 0xF0) | ((((p & 0x0F) << 4) | (r | (w << 1) | 8))
            >> 4)) == p,
        (((p & 0xF0) | (r | (w << 1) | 8)) & 1) == r,
        ((((p & 0xF0) | (r | (w << 1) | 8)) >> 1) & 1) == w,
{
}

/// Round-trip encoding: for every command, decoding the emitted 3-phase
/// byte sequence recovers the original register-select bit, read/write bit,
/// and 8-bit payload.
pub proof fn lemma_frame_round_trip(cmd: DisplayCommand)
    ensures
        spec_decode_frame(spec_frame(cmd)) == Some(
            (spec_rs(cmd), spec_rw(cmd), spec_payload(cmd)),
        ),
{
    let p = spec_payload(cmd);
    let r: u8 = if spec_rs(cmd) {
        1u8
    } else {
        0u8
    };
    let w: u8 = if spec_rw(cmd) {
        1u8
    } else {
        0u8
    };
    let f = spec_frame(cmd);
    assert(f[f.len() - 6] == spec_upper_byte(cmd));
    assert(f[f.len() - 3] == spec_lower_byte(cmd));
    lemma_nibble_roundtrip(p, r, w);
}

/// Model of the controller state that the driver's command stream
/// determines: the DDRAM contents, the address counter, the display window
/// shift, and the mode flags. It is exactly as fine-grained as the driver's
/// own operations need; the hardware's out-of-window addressing quirks are
/// folded into a plain 7-bit address space.
#[verifier::ext_equal]
pub ghost struct LcdModel {
    /// The 128 addressable DDRAM bytes.
    pub ddram: Seq<u8>,
    /// The address counter the next data write goes to.
    pub addr: int,
    /// How far the visible window has been shifted.
    pub shift: int,
    pub eight_bit_mode: bool,
    pub two_line_mode: bool,
    pub big_fonts: bool,
    pub display_on: bool,
    pub cursor_on: bool,
    pub cursor_blink: bool,
    /// Entry mode: the address counter steps forward (true) or back after a
    /// data write.
    pub increment_cursor: bool,
    /// Entry mode: a data write also shifts the display window.
    pub shift_display: bool,
}

/// Where the address counter lands after one data write.
pub open spec fn spec_addr_step(addr: int, increment: bool) -> int {
    if increment {
        (addr + 1) % (DDRAM_SIZE as int)
    } else {
        (addr + DDRAM_SIZE - 1) % (DDRAM_SIZE as int)
    }
}

/// The controller state one command leaves behind.
pub open spec fn spec_apply(m: LcdModel, cmd: DisplayCommand) -> LcdModel {
    match cmd {
        DisplayCommand::ClearDisplay => LcdModel {
            ddram: Seq::new(DDRAM_SIZE as nat, |i: int| BLANK),
            addr: 0,
            shift: 0,
            increment_cursor: true,
            ..m
        },
        DisplayCommand::ReturnHome => LcdModel { addr: 0, shift: 0, ..m },
        DisplayCommand::FunctionSet { eight_bit_mode, two_line_mode, big_fonts } => LcdModel {
            eight_bit_mode,
            two_line_mode,
            big_fonts,
            ..m
        },
        DisplayCommand::DisplayControls { display_on, cursor_on, cursor_blink } => LcdModel {
            display_on,
            cursor_on,
            cursor_blink,
            ..m
        },
        DisplayCommand::EntryModeSet { increment_cursor, shift_display } => LcdModel {
            increment_cursor,
            shift_display,
            ..m
        },
        DisplayCommand::CursorDisplayShift { display_shift, direction } => {
            if display_shift {
                LcdModel {
                    shift: if direction is Right {
                        m.shift + 1
                    } else {
                        m.shift - 1
                    },
                    ..m
                }
            } else {
                LcdModel { addr: spec_addr_step(m.addr, direction is Right), ..m }
            }
        },
        DisplayCommand::SetDDRAMAddress { address } => LcdModel {
            addr: (address % 0x80) as int,
            ..m
        },
        DisplayCommand::WriteData { byte } => LcdModel {
            ddram: m.ddram.update(m.addr, byte),
            addr: spec_addr_step(m.addr, m.increment_cursor),
            shift: if m.shift_display {
                if m.increment_cursor {
                    m.shift + 1
                } else {
                    m.shift - 1
                }
            } else {
                m.shift
            },
            ..m
        },
    }
}

/// The state a whole command sequence leaves behind, applied in call order.
pub open spec fn spec_apply_all(m: LcdModel, cmds: Seq<DisplayCommand>) -> LcdModel
    decreases cmds.len(),
{
    if cmds.len() == 0 {
        m
    } else {
        spec_apply(spec_apply_all(m, cmds.drop_last()), cmds.last())
    }
}

/// Applying a two-command sequence is applying the two commands in order.
proof fn lemma_apply_all_pair(m: LcdModel, a: DisplayCommand, b: DisplayCommand)
    ensures
        spec_apply_all(m, seq![a, b]) == spec_apply(spec_apply(m, a), b),
{
    let s = seq![a, b];
    assert(s.drop_last() =~= seq![a]);
    assert(seq![a].drop_last() =~= Seq::<DisplayCommand>::empty());
    assert(spec_apply_all(m, Seq::<DisplayCommand>::empty()) == m);
    assert(spec_apply_all(m, seq![a]) == spec_apply(m, a));
    assert(spec_apply_all(m, s) == spec_apply(spec_apply_all(m, seq![a]), b));
}

/// The commands a `clear` issues: clear the DDRAM, then return the cursor
/// home.
pub open spec fn spec_clear_cmds() -> Seq<DisplayCommand> {
    seq![DisplayCommand::ClearDisplay, DisplayCommand::ReturnHome]
}

/// Idempotence of `clear`: issuing the clear sequence twice leaves the
/// controller in the same state as issuing it once — cursor at home, every
/// DDRAM byte blank — whatever state it started from.
pub proof fn lemma_clear_idempotent(m: LcdModel)
    ensures
        spec_apply_all(spec_apply_all(m, spec_clear_cmds()), spec_clear_cmds()) == spec_apply_all(
            m,
            spec_clear_cmds(),
        ),
{
    let once = spec_apply_all(m, spec_clear_cmds());
    lemma_apply_all_pair(m, DisplayCommand::ClearDisplay, DisplayCommand::ReturnHome);
    lemma_apply_all_pair(once, DisplayCommand::ClearDisplay, DisplayCommand::ReturnHome);
    assert(spec_apply_all(once, spec_clear_cmds()) =~= once);
}

/// The canonical bring-up sequence: set the bus width and geometry, clear,
/// switch the display on, set the entry mode, return home, and park the
/// cursor at address zero.
pub open spec fn spec_init_cmds() -> Seq<DisplayCommand> {
    seq![
        (DisplayCommand::FunctionSet {
            eight_bit_mode: false,
            two_line_mode: true,
            big_fonts: false,
        }),
        DisplayCommand::ClearDisplay,
        (DisplayCommand::DisplayControls {
            display_on: true,
            cursor_on: false,
            cursor_blink: false,
        }),
        (DisplayCommand::EntryModeSet { increment_cursor: true, shift_display: false }),
        DisplayCommand::ReturnHome,
        (DisplayCommand::SetDDRAMAddress { address: 0 }),
    ]
}

/// The state the bring-up sequence establishes: a blank two-line display,
/// switched on with the cursor hidden, entry mode incrementing, and the
/// address counter at zero.
pub open spec fn spec_ready_model() -> LcdModel {
    LcdModel {
        ddram: Seq::new(DDRAM_SIZE as nat, |i: int| BLANK),
        addr: 0,
        shift: 0,
        eight_bit_mode: false,
        two_line_mode: true,
        big_fonts: false,
        display_on: true,
        cursor_on: false,
        cursor_blink: false,
        increment_cursor: true,
        shift_display: false,
    }
}

/// Initialization forgets the unknown power-up state: the bring-up sequence
/// leaves the controller in the ready state, whatever state it started in.
pub proof fn lemma_init_from_any_state(m: LcdModel)
    ensures
        spec_apply_all(m, spec_init_cmds()) == spec_ready_model(),
{
    let s = spec_init_cmds();
    let s1 = seq![s[0]];
    let s2 = seq![s[0], s[1]];
    let s3 = seq![s[0], s[1], s[2]];
    let s4 = seq![s[0], s[1], s[2], s[3]];
    let s5 = seq![s[0], s[1], s[2], s[3], s[4]];
    assert(s1.drop_last() =~= Seq::<DisplayCommand>::empty());
    assert(s2.drop_last() =~= s1);
    assert(s3.drop_last() =~= s2);
    assert(s4.drop_last() =~= s3);
    assert(s5.drop_last() =~= s4);
    assert(s.drop_last() =~= s5);
    assert(spec_apply_all(m, Seq::<DisplayCommand>::empty()) == m);
    assert(spec_apply_all(m, s1) == spec_apply(m, s[0]));
    assert(spec_apply_all(m, s2) == spec_apply(spec_apply_all(m, s1), s[1]));
    assert(spec_apply_all(m, s3) == spec_apply(spec_apply_all(m, s2), s[2]));
    assert(spec_apply_all(m, s4) == spec_apply(spec_apply_all(m, s3), s[3]));
    assert(spec_apply_all(m, s5) == spec_apply(spec_apply_all(m, s4), s[4]));
    assert(spec_apply_all(m, s) == spec_apply(spec_apply_all(m, s5), s[5]));
    assert(spec_apply_all(m, s) =~= spec_ready_model());
}

/// The DDRAM address a logical cursor position 0..=31 maps to: the first row
/// directly, the second row at its 0x40 base.
pub open spec fn spec_cursor_address(position: u8) -> u8 {
    if position <= 15 {
        position
    } else {
        (SECOND_ROW_BASE + (position - 16)) as u8
    }
}

/// The commands a `move_cursor` issues: one address set for a position on
/// the 2x16 grid, nothing for a position off it.
pub open spec fn spec_move_cursor_cmds(position: u8) -> Seq<DisplayCommand> {
    if position <= 31 {
        seq![(DisplayCommand::SetDDRAMAddress { address: spec_cursor_address(position) })]
    } else {
        Seq::<DisplayCommand>::empty()
    }
}

/// The commands a `write_string` issues: one data write per byte, in order.
pub open spec fn spec_write_cmds(bytes: Seq<u8>) -> Seq<DisplayCommand> {
    Seq::new(bytes.len(), |i: int| DisplayCommand::WriteData { byte: bytes[i] })
}

/// Driver for one display on the 2-wire bus. It owns the command stream:
/// each operation returns the commands to put on the bus, in order, and
/// tracks the controller state they determine. The caller transmits each
/// command's `command_frame` bytes and busy-polls between commands; no two
/// commands' phase sequences may interleave.
pub struct I2cDisplay {
    address: u8,
    model: Ghost<LcdModel>,
}

impl I2cDisplay {
    /// The 7-bit bus address of the display's expander.
    pub closed spec fn bus_address(&self) -> u8 {
        self.address
    }

    /// The controller state after every command issued so far has been
    /// carried out on the bus. Until `init` runs, the power-up state is
    /// unknown.
    pub closed spec fn model(&self) -> LcdModel {
        self.model@
    }

    /// A driver for the display at the given bus address. The controller
    /// state is whatever power-up left behind.
    pub fn new(address: u8) -> (d: I2cDisplay)
        ensures
            d.bus_address() == address,
    {
        I2cDisplay { address, model: Ghost(arbitrary()) }
    }

    /// The bus address commands must be transmitted to.
    pub fn get_address(&self) -> (r: u8)
        ensures
            r == self.bus_address(),
    {
        self.address
    }

    /// The canonical bring-up sequence. Once its commands are carried out,
    /// the controller is in the ready state whatever power-up left behind.
    pub fn init(&mut self) -> (cmds: Vec<DisplayCommand>)
        ensures
            cmds@ == spec_init_cmds(),
            final(self).model() == spec_apply_all(old(self).model(), cmds@),
            final(self).model() == spec_ready_model(),
            final(self).bus_address() == old(self).bus_address(),
    {
        proof {
            lemma_init_from_any_state(old(self).model());
        }
        let mut cmds: Vec<DisplayCommand> = Vec::new();
        cmds.push(DisplayCommand::function_set_default());
        cmds.push(DisplayCommand::ClearDisplay);
        cmds.push(DisplayCommand::display_controls_default());
        cmds.push(DisplayCommand::entry_mode_default());
        cmds.push(DisplayCommand::ReturnHome);
        cmds.push(DisplayCommand::SetDDRAMAddress { address: 0 });
        proof {
            assert(cmds@ =~= spec_init_cmds());
        }
        self.model = Ghost(spec_apply_all(self.model@, cmds@));
        cmds
    }

    /// Clear the display: every DDRAM byte blank, cursor back at home.
    pub fn clear(&mut self) -> (cmds: Vec<DisplayCommand>)
        ensures
            cmds@ == spec_clear_cmds(),
            final(self).model() == spec_apply_all(old(self).model(), cmds@),
            final(self).model().addr == 0,
            final(self).model().ddram == Seq::new(DDRAM_SIZE as nat, |i: int| BLANK),
            final(self).bus_address() == old(self).bus_address(),
    {
        proof {
            lemma_apply_all_pair(
                old(self).model(),
                DisplayCommand::ClearDisplay,
                DisplayCommand::ReturnHome,
            );
        }
        let mut cmds: Vec<DisplayCommand> = Vec::new();
        cmds.push(DisplayCommand::ClearDisplay);
        cmds.push(DisplayCommand::ReturnHome);
        proof {
            assert(cmds@ =~= spec_clear_cmds());
        }
        self.model = Ghost(spec_apply_all(self.model@, cmds@));
        cmds
    }

    /// Move the cursor to a logical position on the 2x16 grid: 0..=15 on the
    /// first row, 16..=31 on the second. A position off the grid issues
    /// nothing at all rather than a malformed address, and the controller
    /// state — the address counter included — stays as it was.
    pub fn move_cursor(&mut self, position: u8) -> (cmds: Vec<DisplayCommand>)
        ensures
            cmds@ == spec_move_cursor_cmds(position),
            final(self).model() == spec_apply_all(old(self).model(), cmds@),
            position <= 31 ==> final(self).model().addr == spec_cursor_address(position),
            position > 31 ==> final(self).model() == old(self).model(),
            final(self).bus_address() == old(self).bus_address(),
    {
        proof {
            if position <= 31 {
                let c = (DisplayCommand::SetDDRAMAddress {
                    address: spec_cursor_address(position),
                });
                assert(seq![c].drop_last() =~= Seq::<DisplayCommand>::empty());
                assert(spec_apply_all(old(self).model(), Seq::<DisplayCommand>::empty())
                    == old(self).model());
                assert(spec_apply_all(old(self).model(), seq![c]) == spec_apply(
                    old(self).model(),
                    c,
                ));
            }
        }
        let mut cmds: Vec<DisplayCommand> = Vec::new();
        if position <= 15 {
            cmds.push(DisplayCommand::SetDDRAMAddress { address: position });
        } else if position <= 31 {
            cmds.push(DisplayCommand::SetDDRAMAddress { address: SECOND_ROW_BASE + (position - 16) });
        }
        proof {
            assert(cmds@ =~= spec_move_cursor_cmds(position));
        }
        self.model = Ghost(spec_apply_all(self.model@, cmds@));
        cmds
    }

    /// Write a line of text at the cursor: one data write per byte, in
    /// order. The fixed-capacity buffer bounds the line at 32 bytes.
    pub fn write_string(&mut self, msg: &heapless::String<32>) -> (cmds: Vec<DisplayCommand>)
        ensures
            cmds@ == spec_write_cmds(crate::hstring::str32_bytes(*msg)),
            final(self).model() == spec_apply_all(old(self).model(), cmds@),
            final(self).bus_address() == old(self).bus_address(),
    {
        let bytes = crate::hstring::str32_as_bytes(msg);
        let ghost target = spec_write_cmds(crate::hstring::str32_bytes(*msg));
        let mut cmds: Vec<DisplayCommand> = Vec::new();
        let mut i: usize = 0;
        while i < bytes.len()
            invariant
                i <= bytes.len(),
                bytes@ == crate::hstring::str32_bytes(*msg),
                target == spec_write_cmds(bytes@),
                cmds@ == target.take(i as int),
            decreases bytes.len() - i,
        {
            cmds.push(DisplayCommand::WriteData { byte: bytes[i] });
            proof {
                assert(cmds@ =~= target.take(i + 1));
            }
            i = i + 1;
        }
        proof {
            assert(cmds@ =~= target);
        }
        self.model = Ghost(spec_apply_all(self.model@, cmds@));
        cmds
    }
}

/// The 3-phase status probe that asks the controller for its busy flag and
/// address counter: register-select low, read mode, power bit on, Enable
/// pulsed. The caller transmits it, reads one byte, transmits it again and
/// reads the second byte.
pub fn busy_probe() -> (r: [u8; 3])
    ensures
        r@ == spec_pulse(0x0A),
{
    let r = [0x0A, 0x0E, 0x0A];
    proof {
        assert(0x0Au8 | 4u8 == 0x0Eu8) by (bit_vector);
        assert(r@ =~= spec_pulse(0x0A));
    }
    r
}

/// Decode the two bytes a status probe reads back: the busy flag is the top
/// bit of the first byte; the address counter combines the first byte's
/// middle bits with the second byte's high nibble.
pub fn decode_busy_and_ac(first: u8, second: u8) -> (r: (bool, u8))
    ensures
        r.0 == (first >= 128),
        r.1 == ((first / 16) % 8) * 16 + second / 16,
        r.1 < 128,
{
    let busy = (first & 0x80) != 0;
    let ac = (first & 0x70) | ((second & 0xF0) >> 4);
    proof {
        assert(((first & 0x80) != 0) == (first >= 128)) by (bit_vector);
        assert(((first & 0x70) | ((second & 0xF0) >> 4)) == ((first / 16) % 8) * 16 + second
            / 16) by (bit_vector);
        assert(((first & 0x70) | ((second & 0xF0) >> 4)) < 128) by (bit_vector);
    }
    (busy, ac)
}

/// What a busy-poll loop should do next, given the flag it just read and how
/// many polls its budget still allows: a stuck controller surfaces as a
/// timeout instead of hanging the control loop.
#[derive(Clone, Copy, PartialEq, Eq, Structural, Debug)]
pub enum PollVerdict {
    /// The controller accepted the last command; the next one may go out.
    Ready,
    /// Still busy; probe again.
    Again,
    /// Still busy with the retry budget exhausted; report an error.
    TimedOut,
}

/// Decide one step of a bounded busy-poll loop.
pub fn poll_verdict(busy: bool, polls_left: u32) -> (v: PollVerdict)
    ensures
        v == if !busy {
            PollVerdict::Ready
        } else if polls_left > 0 {
            PollVerdict::Again
        } else {
            PollVerdict::TimedOut
        },
{
    if !busy {
        PollVerdict::Ready
    } else if polls_left > 0 {
        PollVerdict::Again
    } else {
        PollVerdict::TimedOut
    }
}

} // verus!
