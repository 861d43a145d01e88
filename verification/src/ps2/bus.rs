//! The wire protocol: what is done to the clock, command and attention lines, and when the data
//! line is sampled. Bytes travel in both directions at once, the lowest bit first.
use vstd::prelude::*;

use crate::gpio::Level;

verus! {

broadcast use vstd::seq_lib::group_seq_properties;

pub const CMD_ENTER_CONFIG: [u8; 5] = [0x01, 0x43, 0x00, 0x01, 0x00];

pub const CMD_SET_MODE: [u8; 9] = [0x01, 0x44, 0x00, 0x01, 0x03, 0x00, 0x00, 0x00, 0x00];

pub const CMD_EXIT_CONFIG: [u8; 9] = [0x01, 0x43, 0x00, 0x00, 0x5A, 0x5A, 0x5A, 0x5A, 0x5A];

pub const CMD_READ_DATA: [u8; 9] = [0x01, 0x42, 0x00, 0x00, 0x00, 0x00, 0x00, 0x00, 0x00];

/// Half a clock period, in microseconds.
pub const CTRL_CLK_DELAY: u32 = 5;

/// The pause after a byte, in microseconds.
pub const CTRL_BYTE_DELAY: u32 = 18;

/// A step on the bus.
#[derive(Clone, Copy, Debug, PartialEq, Eq, Structural)]
pub enum BusOp {
    /// Set the clock line.
    Clk(Level),
    /// Set the command line.
    Cmd(Level),
    /// Set the attention line, which is low during a transaction.
    Att(Level),
    /// Wait.
    DelayMicros(u32),
    /// Note the level of the data line.
    SampleDat,
}

// ---------------------------------------------------------------------------
// What is done on the bus
// ---------------------------------------------------------------------------

/// Bit `i` of a byte.
pub open spec fn bit(byte: u8, i: u8) -> bool {
    byte & (1u8 << i) != 0
}

/// High for a one, low for a zero.
pub open spec fn level_of(on: bool) -> Level {
    if on {
        Level::High
    } else {
        Level::Low
    }
}

/// Puts one bit on the command line, and samples the data line while the clock is low.
pub open spec fn bit_steps(on: bool) -> Seq<BusOp> {
    seq![
        BusOp::Cmd(level_of(on)),
        BusOp::Clk(Level::Low),
        BusOp::DelayMicros(CTRL_CLK_DELAY),
        BusOp::SampleDat,
        BusOp::Clk(Level::High),
        BusOp::DelayMicros(CTRL_CLK_DELAY),
    ]
}

/// The first `count` bits of a byte, the lowest one first.
pub open spec fn bits_steps(byte: u8, count: nat) -> Seq<BusOp>
    decreases count,
{
    if count == 0 {
        Seq::empty()
    } else {
        bits_steps(byte, (count - 1) as nat) + bit_steps(bit(byte, (count - 1) as u8))
    }
}

/// One byte: its eight bits, then a pause with the command line high.
pub open spec fn byte_steps(byte: u8) -> Seq<BusOp> {
    bits_steps(byte, 8) + seq![BusOp::Cmd(Level::High), BusOp::DelayMicros(CTRL_BYTE_DELAY)]
}

/// Bytes, one after the other.
pub open spec fn bytes_steps(data: Seq<u8>) -> Seq<BusOp>
    decreases data.len(),
{
    if data.len() == 0 {
        Seq::empty()
    } else {
        bytes_steps(data.drop_last()) + byte_steps(data.last())
    }
}

/// A transaction that sends a command.
pub open spec fn command_steps(data: Seq<u8>) -> Seq<BusOp> {
    seq![BusOp::Att(Level::Low), BusOp::DelayMicros(CTRL_BYTE_DELAY)] + bytes_steps(data) + seq![
        BusOp::Att(Level::High),
        BusOp::DelayMicros(CTRL_BYTE_DELAY),
    ]
}

/// A transaction that reads the state of the controller.
pub open spec fn read_steps() -> Seq<BusOp> {
    seq![
        BusOp::Cmd(Level::High),
        BusOp::Clk(Level::High),
        BusOp::Att(Level::Low),
        BusOp::DelayMicros(CTRL_BYTE_DELAY),
    ] + bytes_steps(CMD_READ_DATA@) + seq![BusOp::Att(Level::High)]
}

/// The transactions that lock the controller in analog mode, after two reads.
pub open spec fn lock_steps() -> Seq<BusOp> {
    let pause = seq![BusOp::DelayMicros(CTRL_BYTE_DELAY)];
    read_steps() + read_steps() + command_steps(CMD_ENTER_CONFIG@) + pause + command_steps(
        CMD_SET_MODE@,
    ) + pause + command_steps(CMD_EXIT_CONFIG@) + pause
}

/// Locks the controller in analog mode, and reads it.
pub open spec fn config_steps() -> Seq<BusOp> {
    lock_steps() + read_steps()
}

/// Adds the steps for one byte.
pub fn shift_in_out(steps: &mut Vec<BusOp>, byte: u8)
    ensures
        final(steps)@ == old(steps)@ + byte_steps(byte),
{
    let mut i: u8 = 0;
    while i < 8
        invariant
            i <= 8,
            steps@ == old(steps)@ + bits_steps(byte, i as nat),
        decreases 8 - i,
    {
        let ghost before = steps@;
        if (byte & (1u8 << i)) != 0 {
            steps.push(BusOp::Cmd(Level::High));
        } else {
            steps.push(BusOp::Cmd(Level::Low));
        }
        steps.push(BusOp::Clk(Level::Low));
        steps.push(BusOp::DelayMicros(CTRL_CLK_DELAY));
        steps.push(BusOp::SampleDat);
        steps.push(BusOp::Clk(Level::High));
        steps.push(BusOp::DelayMicros(CTRL_CLK_DELAY));
        assert(steps@ =~= before + bit_steps(bit(byte, i)));
        i += 1;
        assert(steps@ =~= old(steps)@ + bits_steps(byte, i as nat));
    }
    steps.push(BusOp::Cmd(Level::High));
    steps.push(BusOp::DelayMicros(CTRL_BYTE_DELAY));
    assert(steps@ =~= old(steps)@ + byte_steps(byte));
}

/// Adds the steps for several bytes.
fn shift_all(steps: &mut Vec<BusOp>, data: &[u8])
    ensures
        final(steps)@ == old(steps)@ + bytes_steps(data@),
{
    let mut i: usize = 0;
    assert(steps@ =~= old(steps)@ + bytes_steps(data@.take(0)));
    while i < data.len()
        invariant
            i <= data@.len(),
            steps@ == old(steps)@ + bytes_steps(data@.take(i as int)),
        decreases data@.len() - i,
    {
        shift_in_out(steps, data[i]);
        assert(data@.take(i + 1).drop_last() =~= data@.take(i as int));
        i += 1;
        assert(steps@ =~= old(steps)@ + bytes_steps(data@.take(i as int)));
    }
    assert(data@.take(i as int) =~= data@);
}

/// Adds the steps that send a command.
pub fn send_command_string(steps: &mut Vec<BusOp>, data: &[u8])
    ensures
        final(steps)@ == old(steps)@ + command_steps(data@),
{
    steps.push(BusOp::Att(Level::Low));
    steps.push(BusOp::DelayMicros(CTRL_BYTE_DELAY));
    shift_all(steps, data);
    steps.push(BusOp::Att(Level::High));
    steps.push(BusOp::DelayMicros(CTRL_BYTE_DELAY));
    assert(steps@ =~= old(steps)@ + command_steps(data@));
}

/// Adds the steps that read the state of the controller.
fn push_read(steps: &mut Vec<BusOp>)
    ensures
        final(steps)@ == old(steps)@ + read_steps(),
{
    steps.push(BusOp::Cmd(Level::High));
    steps.push(BusOp::Clk(Level::High));
    steps.push(BusOp::Att(Level::Low));
    steps.push(BusOp::DelayMicros(CTRL_BYTE_DELAY));
    let cmd: [u8; 9] = CMD_READ_DATA;
    shift_all(steps, &cmd);
    steps.push(BusOp::Att(Level::High));
    assert(steps@ =~= old(steps)@ + read_steps());
}

/// The steps that read the state of the controller.
pub fn read_program() -> (steps: Vec<BusOp>)
    ensures
        steps@ == read_steps(),
{
    let mut steps: Vec<BusOp> = Vec::new();
    push_read(&mut steps);
    assert(steps@ =~= read_steps());
    steps
}

/// Adds the steps that lock the controller in analog mode.
pub fn push_config(steps: &mut Vec<BusOp>)
    ensures
        final(steps)@ == old(steps)@ + config_steps(),
{
    let enter: [u8; 5] = CMD_ENTER_CONFIG;
    let set_mode: [u8; 9] = CMD_SET_MODE;
    let exit: [u8; 9] = CMD_EXIT_CONFIG;
    push_read(steps);
    push_read(steps);
    send_command_string(steps, &enter);
    steps.push(BusOp::DelayMicros(CTRL_BYTE_DELAY));
    send_command_string(steps, &set_mode);
    steps.push(BusOp::DelayMicros(CTRL_BYTE_DELAY));
    send_command_string(steps, &exit);
    steps.push(BusOp::DelayMicros(CTRL_BYTE_DELAY));
    push_read(steps);
    assert(steps@ =~= old(steps)@ + config_steps());
}

/// The steps that lock the controller in analog mode.
pub fn config_program() -> (steps: Vec<BusOp>)
    ensures
        steps@ == config_steps(),
{
    let mut steps: Vec<BusOp> = Vec::new();
    push_config(&mut steps);
    assert(steps@ =~= config_steps());
    steps
}

// ---------------------------------------------------------------------------
// What is sampled from the bus
// ---------------------------------------------------------------------------

/// One for a high level, zero for a low one.
pub open spec fn weight(level: Level) -> int {
    if level is High {
        1
    } else {
        0
    }
}

/// The number that the first `count` levels from `at` stand for, the lowest bit first.
pub open spec fn sampled(samples: Seq<Level>, at: int, count: nat) -> int
    decreases count,
{
    if count == 0 {
        0
    } else {
        sampled(samples, at, (count - 1) as nat) + weight(samples[at + count - 1])
            * vstd::arithmetic::power2::pow2((count - 1) as nat)
    }
}

/// The byte that the eight levels from `at` stand for.
pub open spec fn sampled_byte(samples: Seq<Level>, at: int) -> u8 {
    sampled(samples, at, 8) as u8
}

/// The bytes that all the levels from `at` stand for.
pub open spec fn sampled_bytes(samples: Seq<Level>, at: int, count: nat) -> Seq<u8> {
    Seq::new(count, |i: int| sampled_byte(samples, at + 8 * i))
}

proof fn lemma_sampled_is_bounded(samples: Seq<Level>, at: int, count: nat)
    ensures
        0 <= sampled(samples, at, count) < vstd::arithmetic::power2::pow2(count),
    decreases count,
{
    if count == 0 {
        vstd::arithmetic::power2::lemma2_to64();
    } else {
        lemma_sampled_is_bounded(samples, at, (count - 1) as nat);
        vstd::arithmetic::power2::lemma_pow2_unfold(count);
        let half = vstd::arithmetic::power2::pow2((count - 1) as nat);
        assert(weight(samples[at + count - 1]) * half == 0 || weight(samples[at + count - 1]) * half
            == half) by (nonlinear_arith)
            requires
                weight(samples[at + count - 1]) == 0 || weight(samples[at + count - 1]) == 1,
        ;
    }
}

/// The byte that the eight samples from `at` stand for.
pub fn receive_byte(samples: &Vec<Level>, at: usize) -> (received: u8)
    requires
        at + 8 <= samples.len(),
    ensures
        received == sampled_byte(samples@, at as int),
        received == sampled(samples@, at as int, 8),
{
    let mut received: u8 = 0;
    let mut i: u8 = 0;
    proof {
        vstd::arithmetic::power2::lemma2_to64();
    }
    while i < 8
        invariant
            i <= 8,
            at + 8 <= samples.len(),
            received == sampled(samples@, at as int, i as nat),
        decreases 8 - i,
    {
        proof {
            lemma_sampled_is_bounded(samples@, at as int, i as nat);
            vstd::arithmetic::power2::lemma2_to64();
            assert(1u8 << 0u8 == 1 && 1u8 << 1u8 == 2 && 1u8 << 2u8 == 4 && 1u8 << 3u8 == 8 && 1u8
                << 4u8 == 16 && 1u8 << 5u8 == 32 && 1u8 << 6u8 == 64 && 1u8 << 7u8 == 128)
                by (bit_vector);
            assert(1u8 << i == vstd::arithmetic::power2::pow2(i as nat));
            assert(received < 1u8 << i ==> received | (1u8 << i) == received + (1u8 << i))
                by (bit_vector)
                requires
                    i < 8,
            ;
        }
        if samples[at + i as usize] == Level::High {
            received = received | (1u8 << i);
        }
        i += 1;
    }
    proof {
        lemma_sampled_is_bounded(samples@, at as int, 8);
        vstd::arithmetic::power2::lemma2_to64();
    }
    received
}

// ---------------------------------------------------------------------------
// Laws
// ---------------------------------------------------------------------------

/// A byte goes out with its lowest bit first: each of its eight bits is on the command line
/// when the clock falls, and the data line is sampled before the clock rises again.
pub proof fn law_a_byte_is_clocked_out_lowest_bit_first(byte: u8, i: int)
    requires
        0 <= i < 8,
    ensures
        byte_steps(byte).len() == 50,
        byte_steps(byte)[6 * i] == BusOp::Cmd(level_of(bit(byte, i as u8))),
        byte_steps(byte)[6 * i + 1] == BusOp::Clk(Level::Low),
        byte_steps(byte)[6 * i + 2] == BusOp::DelayMicros(5),
        byte_steps(byte)[6 * i + 3] == BusOp::SampleDat,
        byte_steps(byte)[6 * i + 4] == BusOp::Clk(Level::High),
        byte_steps(byte)[6 * i + 5] == BusOp::DelayMicros(5),
        byte_steps(byte)[48] == BusOp::Cmd(Level::High),
        byte_steps(byte)[49] == BusOp::DelayMicros(18),
{
    lemma_bits_steps(byte, 8, i);
    assert(bits_steps(byte, 8)[6 * i + 0] == bit_steps(bit(byte, i as u8))[0]);
}

proof fn lemma_bits_steps(byte: u8, count: nat, i: int)
    requires
        0 <= i < count,
    ensures
        bits_steps(byte, count).len() == 6 * count,
        forall|k: int|
            0 <= k < 6 ==> #[trigger] bits_steps(byte, count)[6 * i + k] == bit_steps(
                bit(byte, i as u8),
            )[k],
    decreases count,
{
    if count > 1 {
        lemma_bits_steps(byte, (count - 1) as nat, if i < count - 1 { i } else { 0 });
    } else {
        assert(bits_steps(byte, 0).len() == 0);
    }
    if i == count - 1 {
        assert forall|k: int| 0 <= k < 6 implies #[trigger] bits_steps(byte, count)[6 * i + k]
            == bit_steps(bit(byte, i as u8))[k] by {
            assert(bits_steps(byte, (count - 1) as nat).len() == 6 * i);
        }
    } else {
        assert forall|k: int| 0 <= k < 6 implies #[trigger] bits_steps(byte, count)[6 * i + k]
            == bit_steps(bit(byte, i as u8))[k] by {
            assert(bits_steps(byte, (count - 1) as nat)[6 * i + k] == bit_steps(
                bit(byte, i as u8),
            )[k]);
        }
    }
}

proof fn lemma_sampled_bit(samples: Seq<Level>, at: int, i: u8, on: bool)
    requires
        samples[at + i] == level_of(on),
    ensures
        sampled(samples, at, (i + 1) as nat) == sampled(samples, at, i as nat) + (if on {
            vstd::arithmetic::power2::pow2(i as nat) as int
        } else {
            0
        }),
{
    let scale = vstd::arithmetic::power2::pow2(i as nat);
    assert(1 * scale == scale && 0 * scale == 0) by (nonlinear_arith);
}

/// What goes out is what comes in where the data line follows the command line: the levels
/// that a byte puts on the command line are sampled as that byte.
pub proof fn law_a_looped_back_byte_is_received_unchanged(byte: u8, samples: Seq<Level>, at: int)
    requires
        0 <= at,
        at + 8 <= samples.len(),
        forall|i: u8| i < 8 ==> #[trigger] samples[at + i] == level_of(bit(byte, i)),
    ensures
        sampled_byte(samples, at) == byte,
{
    vstd::arithmetic::power2::lemma2_to64();
    lemma_sampled_bit(samples, at, 0, bit(byte, 0));
    lemma_sampled_bit(samples, at, 1, bit(byte, 1));
    lemma_sampled_bit(samples, at, 2, bit(byte, 2));
    lemma_sampled_bit(samples, at, 3, bit(byte, 3));
    lemma_sampled_bit(samples, at, 4, bit(byte, 4));
    lemma_sampled_bit(samples, at, 5, bit(byte, 5));
    lemma_sampled_bit(samples, at, 6, bit(byte, 6));
    lemma_sampled_bit(samples, at, 7, bit(byte, 7));
    assert(byte == (if byte & (1u8 << 0u8) != 0 { 1int } else { 0int }) + (if byte & (1u8 << 1u8)
        != 0 { 2int } else { 0int }) + (if byte & (1u8 << 2u8) != 0 { 4int } else { 0int }) + (if byte
        & (1u8 << 3u8) != 0 { 8int } else { 0int }) + (if byte & (1u8 << 4u8) != 0 { 16int } else {
        0int }) + (if byte & (1u8 << 5u8) != 0 { 32int } else { 0int }) + (if byte & (1u8 << 6u8)
        != 0 { 64int } else { 0int }) + (if byte & (1u8 << 7u8) != 0 { 128int } else { 0int }))
        by (bit_vector);
}

/// The lines of the bus, how often the data line was sampled, and whether each time a
/// transaction was on and the clock was low.
pub struct Lines {
    pub clk: Level,
    pub cmd: Level,
    pub att: Level,
    pub samples: nat,
    pub in_turn: bool,
}

impl Lines {
    /// The lines after one step.
    pub open spec fn step(self, op: BusOp) -> Lines {
        match op {
            BusOp::Clk(clk) => Lines { clk, ..self },
            BusOp::Cmd(cmd) => Lines { cmd, ..self },
            BusOp::Att(att) => Lines { att, ..self },
            BusOp::DelayMicros(_) => self,
            BusOp::SampleDat => Lines {
                samples: self.samples + 1,
                in_turn: self.in_turn && self.att is Low && self.clk is Low,
                ..self
            },
        }
    }

    /// The lines after several steps.
    pub open spec fn after(self, steps: Seq<BusOp>) -> Lines
        decreases steps.len(),
    {
        if steps.len() == 0 {
            self
        } else {
            self.after(steps.drop_last()).step(steps.last())
        }
    }

    /// The bus between transactions, `samples` samples later.
    pub open spec fn idle(self, samples: nat) -> Lines {
        Lines {
            clk: Level::High,
            cmd: Level::High,
            att: Level::High,
            samples: self.samples + samples,
            in_turn: self.in_turn,
        }
    }
}

proof fn lemma_after_both(lines: Lines, first: Seq<BusOp>, second: Seq<BusOp>)
    ensures
        lines.after(first + second) == lines.after(first).after(second),
    decreases second.len(),
{
    if second.len() == 0 {
        assert(first + second =~= first);
    } else {
        lemma_after_both(lines, first, second.drop_last());
        assert((first + second).drop_last() =~= first + second.drop_last());
    }
}

proof fn lemma_after_bit(lines: Lines, on: bool)
    requires
        lines.att is Low,
    ensures
        lines.after(bit_steps(on)) == (Lines {
            clk: Level::High,
            cmd: level_of(on),
            samples: lines.samples + 1,
            ..lines
        }),
{
    reveal_with_fuel(Lines::after, 7);
    let steps = bit_steps(on);
    assert(steps.drop_last() =~= steps.take(5));
    assert(steps.take(5).drop_last() =~= steps.take(4));
    assert(steps.take(4).drop_last() =~= steps.take(3));
    assert(steps.take(3).drop_last() =~= steps.take(2));
    assert(steps.take(2).drop_last() =~= steps.take(1));
    assert(steps.take(1).drop_last() =~= Seq::empty());
}

proof fn lemma_after_bits(lines: Lines, byte: u8, count: nat)
    requires
        lines.att is Low,
        count <= 8,
    ensures
        lines.after(bits_steps(byte, count)).att is Low,
        lines.after(bits_steps(byte, count)).samples == lines.samples + count,
        lines.after(bits_steps(byte, count)).in_turn == lines.in_turn,
        count > 0 ==> lines.after(bits_steps(byte, count)).clk is High,
    decreases count,
{
    if count > 0 {
        lemma_after_bits(lines, byte, (count - 1) as nat);
        let first = bits_steps(byte, (count - 1) as nat);
        let on = bit(byte, (count - 1) as u8);
        lemma_after_both(lines, first, bit_steps(on));
        lemma_after_bit(lines.after(first), on);
    }
}

proof fn lemma_after_byte(lines: Lines, byte: u8)
    requires
        lines.att is Low,
    ensures
        lines.after(byte_steps(byte)) == (Lines {
            clk: Level::High,
            cmd: Level::High,
            samples: lines.samples + 8,
            ..lines
        }),
{
    lemma_after_bits(lines, byte, 8);
    let tail = seq![BusOp::Cmd(Level::High), BusOp::DelayMicros(CTRL_BYTE_DELAY)];
    lemma_after_both(lines, bits_steps(byte, 8), tail);
    reveal_with_fuel(Lines::after, 3);
    assert(tail.drop_last() =~= seq![BusOp::Cmd(Level::High)]);
}

proof fn lemma_after_bytes(lines: Lines, data: Seq<u8>)
    requires
        lines.att is Low,
        lines.clk is High,
        lines.cmd is High,
    ensures
        lines.after(bytes_steps(data)) == (Lines {
            samples: lines.samples + 8 * data.len(),
            ..lines
        }),
    decreases data.len(),
{
    if data.len() > 0 {
        lemma_after_bytes(lines, data.drop_last());
        lemma_after_both(lines, bytes_steps(data.drop_last()), byte_steps(data.last()));
        lemma_after_byte(lines.after(bytes_steps(data.drop_last())), data.last());
    }
}

/// Sending a command from an idle bus leaves the bus idle, with eight samples for each byte,
/// all taken with the attention and clock lines low.
pub proof fn law_a_command_leaves_the_bus_idle(lines: Lines, data: Seq<u8>)
    requires
        lines.clk is High,
        lines.cmd is High,
    ensures
        lines.after(command_steps(data)) == lines.idle(8 * data.len()),
{
    let head = seq![BusOp::Att(Level::Low), BusOp::DelayMicros(CTRL_BYTE_DELAY)];
    let tail = seq![BusOp::Att(Level::High), BusOp::DelayMicros(CTRL_BYTE_DELAY)];
    lemma_after_both(lines, head + bytes_steps(data), tail);
    lemma_after_both(lines, head, bytes_steps(data));
    reveal_with_fuel(Lines::after, 3);
    assert(head.drop_last() =~= seq![BusOp::Att(Level::Low)]);
    assert(tail.drop_last() =~= seq![BusOp::Att(Level::High)]);
    lemma_after_bytes(lines.after(head), data);
}

/// Reading the controller leaves the bus idle, with 72 samples, all taken with the attention
/// and clock lines low.
pub proof fn law_a_read_leaves_the_bus_idle(lines: Lines)
    ensures
        lines.after(read_steps()) == lines.idle(72),
{
    let head = seq![
        BusOp::Cmd(Level::High),
        BusOp::Clk(Level::High),
        BusOp::Att(Level::Low),
        BusOp::DelayMicros(CTRL_BYTE_DELAY),
    ];
    let tail = seq![BusOp::Att(Level::High)];
    lemma_after_both(lines, head + bytes_steps(CMD_READ_DATA@), tail);
    lemma_after_both(lines, head, bytes_steps(CMD_READ_DATA@));
    reveal_with_fuel(Lines::after, 5);
    assert(head.drop_last() =~= head.take(3));
    assert(head.take(3).drop_last() =~= head.take(2));
    assert(head.take(2).drop_last() =~= head.take(1));
    lemma_after_bytes(lines.after(head), CMD_READ_DATA@);
}

/// Locking the controller in analog mode leaves the bus idle, with 400 samples, all taken with
/// the attention and clock lines low. The last read begins on an idle bus, after 328 of them.
pub proof fn law_locking_the_mode_leaves_the_bus_idle(lines: Lines)
    ensures
        lines.after(lock_steps()) == lines.idle(328),
        lines.after(config_steps()) == lines.idle(400),
{
    let pause = seq![BusOp::DelayMicros(CTRL_BYTE_DELAY)];
    let p1 = read_steps();
    let p2 = p1 + read_steps();
    let p3 = p2 + command_steps(CMD_ENTER_CONFIG@);
    let p4 = p3 + pause;
    let p5 = p4 + command_steps(CMD_SET_MODE@);
    let p6 = p5 + pause;
    let p7 = p6 + command_steps(CMD_EXIT_CONFIG@);
    let p8 = p7 + pause;
    law_a_read_leaves_the_bus_idle(lines);
    lemma_after_both(lines, p1, read_steps());
    law_a_read_leaves_the_bus_idle(lines.after(p1));
    lemma_after_both(lines, p2, command_steps(CMD_ENTER_CONFIG@));
    law_a_command_leaves_the_bus_idle(lines.after(p2), CMD_ENTER_CONFIG@);
    lemma_after_pause(lines, p3);
    lemma_after_both(lines, p4, command_steps(CMD_SET_MODE@));
    law_a_command_leaves_the_bus_idle(lines.after(p4), CMD_SET_MODE@);
    lemma_after_pause(lines, p5);
    lemma_after_both(lines, p6, command_steps(CMD_EXIT_CONFIG@));
    law_a_command_leaves_the_bus_idle(lines.after(p6), CMD_EXIT_CONFIG@);
    lemma_after_pause(lines, p7);
    lemma_after_both(lines, p8, read_steps());
    law_a_read_leaves_the_bus_idle(lines.after(p8));
}

proof fn lemma_after_pause(lines: Lines, steps: Seq<BusOp>)
    ensures
        lines.after(steps + seq![BusOp::DelayMicros(CTRL_BYTE_DELAY)]) == lines.after(steps),
{
    let pause = seq![BusOp::DelayMicros(CTRL_BYTE_DELAY)];
    lemma_after_both(lines, steps, pause);
    reveal_with_fuel(Lines::after, 2);
    assert(pause.drop_last() =~= Seq::empty());
}

/// The bits of a byte are its binary digits, the lowest one first; a one is high and a zero low.
pub proof fn law_bits_are_binary_digits(byte: u8)
    ensures
        bit(byte, 0) == (byte % 2 == 1),
        bit(byte, 1) == (byte / 2 % 2 == 1),
        bit(byte, 2) == (byte / 4 % 2 == 1),
        bit(byte, 3) == (byte / 8 % 2 == 1),
        bit(byte, 4) == (byte / 16 % 2 == 1),
        bit(byte, 5) == (byte / 32 % 2 == 1),
        bit(byte, 6) == (byte / 64 % 2 == 1),
        bit(byte, 7) == (byte / 128 % 2 == 1),
        level_of(true) is High,
        level_of(false) is Low,
{
    assert(((byte & (1u8 << 0u8) != 0) == (byte % 2 == 1))
        && ((byte & (1u8 << 1u8) != 0) == (byte / 2 % 2 == 1))
        && ((byte & (1u8 << 2u8) != 0) == (byte / 4 % 2 == 1))
        && ((byte & (1u8 << 3u8) != 0) == (byte / 8 % 2 == 1))
        && ((byte & (1u8 << 4u8) != 0) == (byte / 16 % 2 == 1))
        && ((byte & (1u8 << 5u8) != 0) == (byte / 32 % 2 == 1))
        && ((byte & (1u8 << 6u8) != 0) == (byte / 64 % 2 == 1))
        && ((byte & (1u8 << 7u8) != 0) == (byte / 128 % 2 == 1))) by (bit_vector);
}

/// Eight samples make a byte: each is one of its binary digits, the first one the lowest.
pub proof fn law_samples_are_binary_digits(samples: Seq<Level>, at: int)
    ensures
        sampled_byte(samples, at) % 2 == 1 <==> samples[at] is High,
        sampled_byte(samples, at) / 2 % 2 == 1 <==> samples[at + 1] is High,
        sampled_byte(samples, at) / 4 % 2 == 1 <==> samples[at + 2] is High,
        sampled_byte(samples, at) / 8 % 2 == 1 <==> samples[at + 3] is High,
        sampled_byte(samples, at) / 16 % 2 == 1 <==> samples[at + 4] is High,
        sampled_byte(samples, at) / 32 % 2 == 1 <==> samples[at + 5] is High,
        sampled_byte(samples, at) / 64 % 2 == 1 <==> samples[at + 6] is High,
        sampled_byte(samples, at) / 128 % 2 == 1 <==> samples[at + 7] is High,
{
    vstd::arithmetic::power2::lemma2_to64();
    lemma_sampled_bit(samples, at, 0, samples[at + 0] is High);
    lemma_sampled_bit(samples, at, 1, samples[at + 1] is High);
    lemma_sampled_bit(samples, at, 2, samples[at + 2] is High);
    lemma_sampled_bit(samples, at, 3, samples[at + 3] is High);
    lemma_sampled_bit(samples, at, 4, samples[at + 4] is High);
    lemma_sampled_bit(samples, at, 5, samples[at + 5] is High);
    lemma_sampled_bit(samples, at, 6, samples[at + 6] is High);
    lemma_sampled_bit(samples, at, 7, samples[at + 7] is High);
    let b0: u8 = if samples[at + 0] is High { 1 } else { 0 };
    let b1: u8 = if samples[at + 1] is High { 1 } else { 0 };
    let b2: u8 = if samples[at + 2] is High { 1 } else { 0 };
    let b3: u8 = if samples[at + 3] is High { 1 } else { 0 };
    let b4: u8 = if samples[at + 4] is High { 1 } else { 0 };
    let b5: u8 = if samples[at + 5] is High { 1 } else { 0 };
    let b6: u8 = if samples[at + 6] is High { 1 } else { 0 };
    let b7: u8 = if samples[at + 7] is High { 1 } else { 0 };
    let byte: u8 = sampled_byte(samples, at);
    assert(sampled(samples, at, 0) == 0);
    lemma_sampled_is_bounded(samples, at, 8);
    assert(byte == b0 + 2 * b1 + 4 * b2 + 8 * b3 + 16 * b4 + 32 * b5 + 64 * b6 + 128 * b7);
    assert((byte % 2 == b0)
        && (byte / 2 % 2 == b1)
        && (byte / 4 % 2 == b2)
        && (byte / 8 % 2 == b3)
        && (byte / 16 % 2 == b4)
        && (byte / 32 % 2 == b5)
        && (byte / 64 % 2 == b6)
        && (byte / 128 % 2 == b7)) by (bit_vector)
        requires
            byte == b0 + 2 * b1 + 4 * b2 + 8 * b3 + 16 * b4 + 32 * b5 + 64 * b6 + 128 * b7,
            b0 <= 1,
            b1 <= 1,
            b2 <= 1,
            b3 <= 1,
            b4 <= 1,
            b5 <= 1,
            b6 <= 1,
            b7 <= 1,
    ;
}

/// The commands of the protocol.
pub proof fn law_the_commands_are_those_of_the_protocol()
    ensures
        CMD_READ_DATA@ == seq![0x01u8, 0x42, 0x00, 0x00, 0x00, 0x00, 0x00, 0x00, 0x00],
        CMD_ENTER_CONFIG@ == seq![0x01u8, 0x43, 0x00, 0x01, 0x00],
        CMD_SET_MODE@ == seq![0x01u8, 0x44, 0x00, 0x01, 0x03, 0x00, 0x00, 0x00, 0x00],
        CMD_EXIT_CONFIG@ == seq![0x01u8, 0x43, 0x00, 0x00, 0x5A, 0x5A, 0x5A, 0x5A, 0x5A],
{
    assert(CMD_READ_DATA@ =~= seq![0x01u8, 0x42, 0x00, 0x00, 0x00, 0x00, 0x00, 0x00, 0x00]);
    assert(CMD_ENTER_CONFIG@ =~= seq![0x01u8, 0x43, 0x00, 0x01, 0x00]);
    assert(CMD_SET_MODE@ =~= seq![0x01u8, 0x44, 0x00, 0x01, 0x03, 0x00, 0x00, 0x00, 0x00]);
    assert(CMD_EXIT_CONFIG@ =~= seq![0x01u8, 0x43, 0x00, 0x00, 0x5A, 0x5A, 0x5A, 0x5A, 0x5A]);
}

proof fn lemma_byte_length(byte: u8)
    ensures
        byte_steps(byte).len() == 50,
{
    law_a_byte_is_clocked_out_lowest_bit_first(byte, 0);
}

proof fn lemma_bytes_in_order(data: Seq<u8>, i: int)
    requires
        0 <= i < data.len(),
    ensures
        bytes_steps(data).len() == 50 * data.len(),
        bytes_steps(data).subrange(50 * i, 50 * i + 50) == byte_steps(data[i]),
    decreases data.len(),
{
    lemma_byte_length(data.last());
    let front = data.drop_last();
    if front.len() > 0 {
        lemma_bytes_in_order(front, if i < front.len() { i } else { 0 });
    } else {
        assert(bytes_steps(front).len() == 0);
    }
    if i < front.len() {
        assert(bytes_steps(data).subrange(50 * i, 50 * i + 50) =~= bytes_steps(front).subrange(
            50 * i,
            50 * i + 50,
        ));
    } else {
        assert(bytes_steps(data).subrange(50 * i, 50 * i + 50) =~= byte_steps(data.last()));
    }
}

/// A command goes out byte by byte, in order and nothing else, while the attention line is low:
/// it falls 18 microseconds before the first byte and rises 18 microseconds before anything
/// that follows.
pub proof fn law_a_command_is_sent_byte_by_byte(data: Seq<u8>, i: int)
    requires
        0 <= i < data.len(),
    ensures
        command_steps(data).len() == 50 * data.len() + 4,
        command_steps(data)[0] == BusOp::Att(Level::Low),
        command_steps(data)[1] == BusOp::DelayMicros(18),
        command_steps(data).subrange(50 * i + 2, 50 * i + 52) == byte_steps(data[i]),
        command_steps(data)[50 * data.len() as int + 2] == BusOp::Att(Level::High),
        command_steps(data)[50 * data.len() as int + 3] == BusOp::DelayMicros(18),
{
    lemma_bytes_in_order(data, i);
    assert(command_steps(data).subrange(50 * i + 2, 50 * i + 52) =~= bytes_steps(data).subrange(
        50 * i,
        50 * i + 50,
    ));
}

/// A read sets the command and clock lines high and the attention line low, waits for 18
/// microseconds, sends the nine bytes of the read command in order, and lets the attention
/// line rise.
pub proof fn law_a_read_sends_the_read_command(i: int)
    requires
        0 <= i < 9,
    ensures
        read_steps().len() == 455,
        read_steps()[0] == BusOp::Cmd(Level::High),
        read_steps()[1] == BusOp::Clk(Level::High),
        read_steps()[2] == BusOp::Att(Level::Low),
        read_steps()[3] == BusOp::DelayMicros(18),
        read_steps().subrange(50 * i + 4, 50 * i + 54) == byte_steps(
            seq![0x01u8, 0x42, 0x00, 0x00, 0x00, 0x00, 0x00, 0x00, 0x00][i],
        ),
        read_steps()[454] == BusOp::Att(Level::High),
{
    law_the_commands_are_those_of_the_protocol();
    lemma_bytes_in_order(CMD_READ_DATA@, i);
    assert(read_steps().subrange(50 * i + 4, 50 * i + 54) =~= bytes_steps(
        CMD_READ_DATA@,
    ).subrange(50 * i, 50 * i + 50));
}

/// To lock the mode is to read twice, to send the three commands that enter the configuration,
/// set the mode and leave it again, each followed by a pause of 18 microseconds, and to read
/// once more.
pub proof fn law_locking_the_mode_sends_three_commands()
    ensures
        config_steps().len() == 455 + 455 + 255 + 455 + 455 + 455,
        config_steps().subrange(0, 455) == read_steps(),
        config_steps().subrange(455, 910) == read_steps(),
        config_steps().subrange(910, 1164) == command_steps(CMD_ENTER_CONFIG@),
        config_steps()[1164] == BusOp::DelayMicros(18),
        config_steps().subrange(1165, 1619) == command_steps(CMD_SET_MODE@),
        config_steps()[1619] == BusOp::DelayMicros(18),
        config_steps().subrange(1620, 2074) == command_steps(CMD_EXIT_CONFIG@),
        config_steps()[2074] == BusOp::DelayMicros(18),
        config_steps().subrange(2075, 2530) == read_steps(),
{
    law_a_read_sends_the_read_command(0);
    law_a_command_is_sent_byte_by_byte(CMD_ENTER_CONFIG@, 0);
    law_a_command_is_sent_byte_by_byte(CMD_SET_MODE@, 0);
    law_a_command_is_sent_byte_by_byte(CMD_EXIT_CONFIG@, 0);
    let steps = config_steps();
    assert(steps.subrange(0, 455) =~= read_steps());
    assert(steps.subrange(455, 910) =~= read_steps());
    assert(steps.subrange(910, 1164) =~= command_steps(CMD_ENTER_CONFIG@));
    assert(steps.subrange(1165, 1619) =~= command_steps(CMD_SET_MODE@));
    assert(steps.subrange(1620, 2074) =~= command_steps(CMD_EXIT_CONFIG@));
    assert(steps.subrange(2075, 2530) =~= read_steps());
}

} // verus!
