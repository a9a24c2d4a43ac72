//! NEC infrared codec: a (device address, command) pair to a train of
//! mark/space pulses, and a received pulse train back to the pair.

use vstd::prelude::*;

use crate::events::Remote;

verus! {

/// Output level of one half of a pulse.
#[derive(Clone, Copy, Debug, PartialEq, Eq, Structural)]
pub enum PulseLevel {
    Low,
    High,
}

/// One pulse: a first half (the mark) and a second half (the space), each
/// with a level and a duration in microseconds.
#[derive(Clone, Copy, Debug, PartialEq, Eq, Structural)]
pub struct Pulse {
    pub level1: PulseLevel,
    pub length1: u16,
    pub level2: PulseLevel,
    pub length2: u16,
}

/// Pulses in an encoded frame: leader, 32 data bits, stop, and one idle slot.
pub const NEC_PULSES: usize = 35;

/// Pulses that carry signal in a frame: leader, 32 data bits, stop.
pub const NEC_FRAME_PULSES: usize = 34;

pub const LEADER_MARK_US: u16 = 9000;
pub const LEADER_SPACE_US: u16 = 4500;
pub const BIT_MARK_US: u16 = 560;
pub const ZERO_SPACE_US: u16 = 560;
pub const ONE_SPACE_US: u16 = 1690;

pub const LEADER_MARK_MIN_US: u16 = 7200;
pub const LEADER_MARK_MAX_US: u16 = 10800;
pub const REPEAT_SPACE_MIN_US: u16 = 1800;
pub const REPEAT_SPACE_MAX_US: u16 = 2700;
pub const LEADER_SPACE_MIN_US: u16 = 3600;
pub const LEADER_SPACE_MAX_US: u16 = 5400;
pub const ZERO_SPACE_MIN_US: u16 = 450;
pub const ZERO_SPACE_MAX_US: u16 = 675;
pub const ONE_SPACE_MIN_US: u16 = 1350;
pub const ONE_SPACE_MAX_US: u16 = 2025;

/// Device address of the television the remote drives.
pub const NEC_ADDRESS: u8 = 0x04;

impl Pulse {
    pub open spec fn spec_new(level1: PulseLevel, length1: u16, level2: PulseLevel, length2: u16) -> Pulse {
        Pulse { level1, length1, level2, length2 }
    }

    /// A pulse from its two halves.
    pub fn new(level1: PulseLevel, length1: u16, level2: PulseLevel, length2: u16) -> (r: Pulse)
        ensures
            r == Pulse::spec_new(level1, length1, level2, length2),
    {
        Pulse { level1, length1, level2, length2 }
    }

    /// Both halves low and of zero length: a slot that carries no signal.
    pub open spec fn spec_idle() -> Pulse {
        Pulse::spec_new(PulseLevel::Low, 0, PulseLevel::Low, 0)
    }

    pub fn idle() -> (r: Pulse)
        ensures
            r == Pulse::spec_idle(),
    {
        Pulse::new(PulseLevel::Low, 0, PulseLevel::Low, 0)
    }
}

// ----- encoding -----

/// The 32-bit payload: address, inverted address, command, inverted command,
/// from the low byte up.
pub open spec fn nec_word(address: u8, command: u8) -> u32 {
    (address as u32) | ((!address) as u32) << 8u32 | (command as u32) << 16u32 | ((!command) as u32)
        << 24u32
}

/// Bit `i` of the payload, counting from the least significant.
pub open spec fn nec_bit(address: u8, command: u8, i: u32) -> bool {
    (nec_word(address, command) >> i) & 1u32 == 1u32
}

pub open spec fn leader_pulse() -> Pulse {
    Pulse::spec_new(PulseLevel::High, LEADER_MARK_US, PulseLevel::Low, LEADER_SPACE_US)
}

pub open spec fn bit_pulse(one: bool) -> Pulse {
    Pulse::spec_new(
        PulseLevel::High,
        BIT_MARK_US,
        PulseLevel::Low,
        if one {
            ONE_SPACE_US
        } else {
            ZERO_SPACE_US
        },
    )
}

pub open spec fn stop_pulse() -> Pulse {
    Pulse::spec_new(PulseLevel::High, BIT_MARK_US, PulseLevel::Low, 0)
}

/// The pulse train of a frame: the leader, one pulse per payload bit from
/// the least significant, the stop pulse, and an idle slot.
pub open spec fn nec_pulses(address: u8, command: u8) -> Seq<Pulse> {
    Seq::new(
        NEC_PULSES as nat,
        |i: int|
            if i == 0 {
                leader_pulse()
            } else if i <= 32 {
                bit_pulse(nec_bit(address, command, (i - 1) as u32))
            } else if i == 33 {
                stop_pulse()
            } else {
                Pulse::spec_idle()
            },
    )
}

/// Encodes `command` for the device at `address` as an NEC pulse train.
pub fn encode_nec_command(address: u8, command: u8) -> (r: [Pulse; 35])
    ensures
        r@ == nec_pulses(address, command),
{
    let address_inv = !address;
    let command_inv = !command;

    let data: u32 = (address as u32) | ((address_inv as u32) << 8u32) | ((command as u32) << 16u32)
        | ((command_inv as u32) << 24u32);

    let mut pulses = [Pulse::idle();35];

    pulses[0] = Pulse::new(PulseLevel::High, LEADER_MARK_US, PulseLevel::Low, LEADER_SPACE_US);

    let mut i: u32 = 0;
    while i < 32
        invariant
            i <= 32,
            data == nec_word(address, command),
            pulses@.len() == NEC_PULSES,
            pulses@[0] == leader_pulse(),
            forall|j: int| 1 <= j <= i ==> pulses@[j] == #[trigger] nec_pulses(address, command)[j],
            forall|j: int| i < j < NEC_PULSES ==> pulses@[j] == Pulse::spec_idle(),
        decreases 32 - i,
    {
        let bit = (data >> i) & 1;
        assert(bit == 0 <==> !((data >> i) & 1u32 == 1u32)) by (bit_vector)
            requires
                bit == (data >> i) & 1u32,
        ;
        let space: u16 = if bit == 0 {
            ZERO_SPACE_US
        } else {
            ONE_SPACE_US
        };
        pulses[1 + i as usize] = Pulse::new(PulseLevel::High, BIT_MARK_US, PulseLevel::Low, space);
        i = i + 1;
    }

    pulses[33] = Pulse::new(PulseLevel::High, BIT_MARK_US, PulseLevel::Low, 0);

    assert(pulses@ =~= nec_pulses(address, command));
    pulses
}

/// The one-byte NEC command that the television understands for each remote
/// command.
pub open spec fn spec_command_code(remote: Remote) -> u8 {
    match remote {
        Remote::OnOff => 0x08,
        Remote::Home => 0x7C,
        Remote::Back => 0x28,
        Remote::Okay => 0x44,
        Remote::Up => 0x40,
        Remote::Right => 0x06,
        Remote::Down => 0x41,
        Remote::Left => 0x07,
        Remote::Mute => 0x09,
        Remote::VolumeUp => 0x02,
        Remote::VolumeDown => 0x03,
    }
}

pub fn command_code(remote: Remote) -> (r: u8)
    ensures
        r == spec_command_code(remote),
{
    match remote {
        Remote::OnOff => 0x08,
        Remote::Home => 0x7C,
        Remote::Back => 0x28,
        Remote::Okay => 0x44,
        Remote::Up => 0x40,
        Remote::Right => 0x06,
        Remote::Down => 0x41,
        Remote::Left => 0x07,
        Remote::Mute => 0x09,
        Remote::VolumeUp => 0x02,
        Remote::VolumeDown => 0x03,
    }
}

/// The pulse train that sends `remote` to the television.
pub fn encode_remote(remote: Remote) -> (r: [Pulse; 35])
    ensures
        r@ == nec_pulses(NEC_ADDRESS, spec_command_code(remote)),
{
    encode_nec_command(NEC_ADDRESS, command_code(remote))
}

// ----- decoding -----

/// The four payload bytes of a received frame, as read from the pulses. The
/// inverted bytes are kept so that a caller can check them.
#[derive(Clone, Copy, Debug, PartialEq, Eq, Structural)]
pub struct NecFrame {
    pub address: u8,
    pub address_inv: u8,
    pub command: u8,
    pub command_inv: u8,
}

impl NecFrame {
    /// The inverted address byte is the complement of the address byte.
    pub fn address_checked(&self) -> (r: bool)
        ensures
            r == (self.address == !self.address_inv),
    {
        self.address == !self.address_inv
    }

    /// The inverted command byte is the complement of the command byte.
    pub fn command_checked(&self) -> (r: bool)
        ensures
            r == (self.command == !self.command_inv),
    {
        self.command == !self.command_inv
    }
}

pub open spec fn within(v: u16, lo: u16, hi: u16) -> bool {
    lo <= v && v <= hi
}

/// A first pulse that announces a repeat code rather than a frame.
pub open spec fn is_repeat(p: Pulse) -> bool {
    within(p.length1, LEADER_MARK_MIN_US, LEADER_MARK_MAX_US) && within(
        p.length2,
        REPEAT_SPACE_MIN_US,
        REPEAT_SPACE_MAX_US,
    )
}

/// A first pulse that opens a frame.
pub open spec fn is_leader(p: Pulse) -> bool {
    within(p.length1, LEADER_MARK_MIN_US, LEADER_MARK_MAX_US) && within(
        p.length2,
        LEADER_SPACE_MIN_US,
        LEADER_SPACE_MAX_US,
    )
}

/// The bit that a space duration stands for, if it stands for one.
pub open spec fn space_bit(space: u16) -> Option<u8> {
    if within(space, ZERO_SPACE_MIN_US, ZERO_SPACE_MAX_US) {
        Some(0u8)
    } else if within(space, ONE_SPACE_MIN_US, ONE_SPACE_MAX_US) {
        Some(1u8)
    } else {
        None
    }
}

/// The bit carried by pulse `i` (zero where its space stands for none).
pub open spec fn pulse_bit(p: Seq<Pulse>, i: int) -> u8 {
    match space_bit(p[i].length2) {
        Some(b) => b,
        None => 0u8,
    }
}

/// The byte whose low `n` bits are the bits of pulses `start .. start + n`,
/// least significant first.
pub open spec fn low_bits(p: Seq<Pulse>, start: int, n: nat) -> u8
    decreases n,
{
    if n == 0 {
        0u8
    } else {
        low_bits(p, start, (n - 1) as nat) | (pulse_bit(p, start + n - 1) << ((n - 1) as u8))
    }
}

/// The byte carried by the eight pulses from `start`.
pub open spec fn pulse_byte(p: Seq<Pulse>, start: int) -> u8 {
    low_bits(p, start, 8)
}

/// Every data pulse of the frame has a space that stands for a bit.
pub open spec fn data_bits_valid(p: Seq<Pulse>) -> bool {
    forall|i: int| 1 <= i <= 32 ==> (#[trigger] space_bit(p[i].length2)).is_some()
}

/// What a received pulse train decodes to: nothing for an empty train, a
/// repeat code, a short train, a bad leader or a data pulse whose space
/// stands for no bit; else the four payload bytes, checked or not.
pub open spec fn nec_frame(p: Seq<Pulse>) -> Option<NecFrame> {
    if p.len() == 0 || is_repeat(p[0]) || p.len() < NEC_FRAME_PULSES || !is_leader(p[0])
        || !data_bits_valid(p) {
        None
    } else {
        Some(
            NecFrame {
                address: pulse_byte(p, 1),
                address_inv: pulse_byte(p, 9),
                command: pulse_byte(p, 17),
                command_inv: pulse_byte(p, 25),
            },
        )
    }
}

/// The (address, command) pair that a pulse train decodes to.
pub open spec fn nec_decode(p: Seq<Pulse>) -> Option<(u8, u8)> {
    match nec_frame(p) {
        Some(f) => Some((f.address, f.command)),
        None => None,
    }
}

fn within_exec(v: u16, lo: u16, hi: u16) -> (r: bool)
    ensures
        r == within(v, lo, hi),
{
    lo <= v && v <= hi
}

proof fn lemma_low_bits_step(p: Seq<Pulse>, start: int, n: nat)
    ensures
        low_bits(p, start, n + 1) == low_bits(p, start, n) | (pulse_bit(p, start + n) << (n as u8)),
{
    assert(low_bits(p, start, n + 1) == low_bits(p, start, n) | (pulse_bit(p, start + n) << (n as u8)));
}

/// Reads the four payload bytes of a received pulse train.
pub fn decode_nec_frame(pulses: &[Pulse]) -> (r: Option<NecFrame>)
    ensures
        r == nec_frame(pulses@),
{
    if pulses.len() == 0 {
        return None;
    }
    let first = pulses[0];
    let t1 = first.length1;
    let t2 = first.length2;

    if within_exec(t1, LEADER_MARK_MIN_US, LEADER_MARK_MAX_US) && within_exec(
        t2,
        REPEAT_SPACE_MIN_US,
        REPEAT_SPACE_MAX_US,
    ) {
        return None;
    }
    if pulses.len() < NEC_FRAME_PULSES {
        return None;
    }
    if !within_exec(t1, LEADER_MARK_MIN_US, LEADER_MARK_MAX_US) || !within_exec(
        t2,
        LEADER_SPACE_MIN_US,
        LEADER_SPACE_MAX_US,
    ) {
        return None;
    }

    let ghost p = pulses@;
    let mut bytes = [0u8;4];
    let mut byte_idx: usize = 0;
    while byte_idx < 4
        invariant
            p == pulses@,
            p.len() >= NEC_FRAME_PULSES,
            byte_idx <= 4,
            forall|i: int| 1 <= i < 1 + 8 * byte_idx ==> (#[trigger] space_bit(p[i].length2)).is_some(),
            forall|k: int| 0 <= k < byte_idx ==> bytes@[k] == #[trigger] pulse_byte(p, 1 + 8 * k),
        decreases 4 - byte_idx,
    {
        let start: usize = 1 + byte_idx * 8;
        let mut byte: u8 = 0;
        let mut bit_idx: u8 = 0;
        while bit_idx < 8
            invariant
                p == pulses@,
                p.len() >= NEC_FRAME_PULSES,
                byte_idx < 4,
                start == 1 + byte_idx * 8,
                bit_idx <= 8,
                forall|i: int| 1 <= i < start + bit_idx ==> (#[trigger] space_bit(p[i].length2)).is_some(),
                byte == low_bits(p, start as int, bit_idx as nat),
            decreases 8 - bit_idx,
        {
            let pulse = pulses[start + bit_idx as usize];
            let space = pulse.length2;
            let bit: u8 = if within_exec(space, ZERO_SPACE_MIN_US, ZERO_SPACE_MAX_US) {
                0
            } else if within_exec(space, ONE_SPACE_MIN_US, ONE_SPACE_MAX_US) {
                1
            } else {
                assert(!data_bits_valid(p)) by {
                    assert(space_bit(p[start + bit_idx].length2).is_none());
                }
                return None;
            };
            proof {
                lemma_low_bits_step(p, start as int, bit_idx as nat);
            }
            byte = byte | (bit << bit_idx);
            bit_idx = bit_idx + 1;
        }
        bytes[byte_idx] = byte;
        byte_idx = byte_idx + 1;
    }
    assert(data_bits_valid(p));
    assert(bytes@[0] == pulse_byte(p, 1 + 8 * 0 as int));
    assert(bytes@[1] == pulse_byte(p, 1 + 8 * 1 as int));
    assert(bytes@[2] == pulse_byte(p, 1 + 8 * 2 as int));
    assert(bytes@[3] == pulse_byte(p, 1 + 8 * 3 as int));

    Some(
        NecFrame {
            address: bytes[0],
            address_inv: bytes[1],
            command: bytes[2],
            command_inv: bytes[3],
        },
    )
}

/// Decodes a received pulse train to its (address, command) pair. A frame
/// whose inverted bytes do not match still decodes.
pub fn decode_nec_command(pulses: &[Pulse]) -> (r: Option<(u8, u8)>)
    ensures
        r == nec_decode(pulses@),
{
    match decode_nec_frame(pulses) {
        Some(frame) => Some((frame.address, frame.command)),
        None => None,
    }
}

// ----- round trip -----

proof fn lemma_byte_from_word(p: Seq<Pulse>, w: u32, k: u32)
    requires
        k < 4,
        forall|i: u32| i < 32 ==> #[trigger] pulse_bit(p, 1 + i) == ((w >> i) & 1u32) as u8,
    ensures
        pulse_byte(p, 1 + 8 * k) == ((w >> (8 * k)) & 0xffu32) as u8,
{
    reveal_with_fuel(low_bits, 9);
    let b0 = pulse_bit(p, 1 + (8 * k + 0) as u32);
    let b1 = pulse_bit(p, 1 + (8 * k + 1) as u32);
    let b2 = pulse_bit(p, 1 + (8 * k + 2) as u32);
    let b3 = pulse_bit(p, 1 + (8 * k + 3) as u32);
    let b4 = pulse_bit(p, 1 + (8 * k + 4) as u32);
    let b5 = pulse_bit(p, 1 + (8 * k + 5) as u32);
    let b6 = pulse_bit(p, 1 + (8 * k + 6) as u32);
    let b7 = pulse_bit(p, 1 + (8 * k + 7) as u32);
    assert(low_bits(p, 1 + 8 * k, 8) == (((((((0u8 | (b0 << 0u8)) | (b1 << 1u8)) | (b2 << 2u8))
        | (b3 << 3u8)) | (b4 << 4u8)) | (b5 << 5u8)) | (b6 << 6u8)) | (b7 << 7u8));
    assert((((((((0u8 | (b0 << 0u8)) | (b1 << 1u8)) | (b2 << 2u8)) | (b3 << 3u8)) | (b4 << 4u8)) | (
    b5 << 5u8)) | (b6 << 6u8)) | (b7 << 7u8) == ((w >> (8 * k)) & 0xffu32) as u8) by (bit_vector)
        requires
            k < 4,
            b0 == ((w >> (8 * k + 0u32)) & 1u32) as u8,
            b1 == ((w >> (8 * k + 1u32)) & 1u32) as u8,
            b2 == ((w >> (8 * k + 2u32)) & 1u32) as u8,
            b3 == ((w >> (8 * k + 3u32)) & 1u32) as u8,
            b4 == ((w >> (8 * k + 4u32)) & 1u32) as u8,
            b5 == ((w >> (8 * k + 5u32)) & 1u32) as u8,
            b6 == ((w >> (8 * k + 6u32)) & 1u32) as u8,
            b7 == ((w >> (8 * k + 7u32)) & 1u32) as u8,
    ;
}

/// Decoding the pulse train that encodes `(address, command)` gives back
/// that pair, and the inverted bytes check out.
pub proof fn lemma_nec_round_trip(address: u8, command: u8)
    ensures
        nec_decode(nec_pulses(address, command)) == Some((address, command)),
        nec_frame(nec_pulses(address, command)) == Some(
            NecFrame { address, address_inv: !address, command, command_inv: !command },
        ),
{
    let p = nec_pulses(address, command);
    let w = nec_word(address, command);
    assert forall|i: int| 1 <= i <= 32 implies (#[trigger] space_bit(p[i].length2)).is_some() by {
        assert(p[i] == bit_pulse(nec_bit(address, command, (i - 1) as u32)));
    }
    assert forall|i: u32| i < 32 implies #[trigger] pulse_bit(p, 1 + i) == ((w >> i) & 1u32) as u8 by {
        assert(p[1 + i] == bit_pulse(nec_bit(address, command, i)));
        let b = (w >> i) & 1u32;
        assert(b == 0u32 || b == 1u32) by (bit_vector)
            requires
                b == (w >> i) & 1u32,
        ;
    }
    lemma_byte_from_word(p, w, 0);
    lemma_byte_from_word(p, w, 1);
    lemma_byte_from_word(p, w, 2);
    lemma_byte_from_word(p, w, 3);
    assert(((w >> (8 * 0u32)) & 0xffu32) as u8 == address && ((w >> (8 * 1u32)) & 0xffu32) as u8
        == !address && ((w >> (8 * 2u32)) & 0xffu32) as u8 == command && ((w >> (8 * 3u32))
        & 0xffu32) as u8 == !command) by (bit_vector)
        requires
            w == (address as u32) | ((!address) as u32) << 8u32 | (command as u32) << 16u32 | ((
            !command) as u32) << 24u32,
    ;
}

} // verus!
