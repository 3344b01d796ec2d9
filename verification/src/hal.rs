//! The signal codec of one panel.
//!
//! A panel hangs on a 16-bit shift register: eight outputs drive the rows,
//! eight drive the columns. One row is lit at a time. A control word lights
//! the cells of one row: the row's bit is set, and the bit of each lit column
//! is cleared, since the columns are driven low to light.
//!
//! Nothing here touches a pin. What would be written to the pins is listed,
//! write by write, and the caller carries the list out. What the register
//! then shows is stated over a model of it, [`Register`].

use crate::graphics::{is_frame, Graphic};
use vstd::prelude::*;

verus! {

/// The output of the shift register that drives each row, counted from 1.
pub const ROW_MAP: [u8; 8] = [9, 14, 8, 12, 1, 7, 2, 5];

/// The output of the shift register that drives each column, counted from 1.
pub const COL_MAP: [u8; 8] = [13, 3, 4, 10, 6, 11, 15, 16];

/// The control word that lights nothing: every column bit set, every row bit
/// clear.
pub const EMPTY_SIGNAL: u16 = 0b1101011000101100;

/// How rows and columns are wired to the outputs of the shift register, and
/// the control word that lights nothing under that wiring.
pub struct Wiring {
    pub rows: [u8; 8],
    pub cols: [u8; 8],
    pub blank: u16,
}

/// Whether bit `p` of `word` is set.
pub open spec fn bit(word: u16, p: u16) -> bool {
    word & (1u16 << p) != 0
}

impl Wiring {
    /// The bit of a control word that drives row `r`.
    pub open spec fn row_bit(self, r: int) -> u16 {
        (self.rows[r] - 1) as u16
    }

    /// The bit of a control word that drives column `c`.
    pub open spec fn col_bit(self, c: int) -> u16 {
        (self.cols[c] - 1) as u16
    }

    /// A wiring is valid when every row and every column has an output of its
    /// own among the sixteen, and the blank word sets the column bits and
    /// clears the row bits.
    pub open spec fn valid(self) -> bool {
        &&& forall|i: int| 0 <= i < 8 ==> 1 <= #[trigger] self.rows[i] <= 16
        &&& forall|i: int| 0 <= i < 8 ==> 1 <= #[trigger] self.cols[i] <= 16
        &&& forall|i: int, j: int|
            0 <= i < 8 && 0 <= j < 8 && i != j ==> #[trigger] self.rows[i] != #[trigger] self.rows[j]
        &&& forall|i: int, j: int|
            0 <= i < 8 && 0 <= j < 8 && i != j ==> #[trigger] self.cols[i] != #[trigger] self.cols[j]
        &&& forall|i: int, j: int|
            0 <= i < 8 && 0 <= j < 8 ==> #[trigger] self.rows[i] != #[trigger] self.cols[j]
        &&& forall|i: int| 0 <= i < 8 ==> #[trigger] bit(self.blank, self.col_bit(i))
        &&& forall|i: int| 0 <= i < 8 ==> !#[trigger] bit(self.blank, self.row_bit(i))
    }

    /// The control word for row `r` of `g` after its first `n` columns have
    /// been looked at: each lit cell among them sets the row's bit and clears
    /// its column's bit.
    pub open spec fn row_word_upto(self, g: Graphic, r: int, n: int) -> u16
        decreases n,
    {
        if n <= 0 {
            self.blank
        } else {
            let word = self.row_word_upto(g, r, n - 1);
            if g[r][n - 1] == 1 {
                (word | (1u16 << self.row_bit(r))) & !(1u16 << self.col_bit(n - 1))
            } else {
                word
            }
        }
    }

    /// The control word that lights row `r` of `g`.
    pub open spec fn row_word(self, g: Graphic, r: int) -> u16 {
        self.row_word_upto(g, r, 8)
    }

    /// The cell (`r`, `c`) that a control word for row `r` stands for: lit
    /// when the row's bit is set and the column's bit is clear.
    pub open spec fn decoded_cell(self, word: u16, r: int, c: int) -> u8 {
        if bit(word, self.row_bit(r)) && !bit(word, self.col_bit(c)) {
            1
        } else {
            0
        }
    }
}

/// The wiring of the panels that this crate drives.
pub open spec fn reference() -> Wiring {
    Wiring { rows: ROW_MAP, cols: COL_MAP, blank: EMPTY_SIGNAL }
}

/// The reference wiring is valid.
pub proof fn reference_is_valid()
    ensures
        reference().valid(),
{
    assert(0b1101011000101100u16 & (1u16 << 12u16) != 0 && 0b1101011000101100u16 & (1u16 << 2u16)
        != 0 && 0b1101011000101100u16 & (1u16 << 3u16) != 0 && 0b1101011000101100u16 & (1u16
        << 9u16) != 0 && 0b1101011000101100u16 & (1u16 << 5u16) != 0 && 0b1101011000101100u16 & (
    1u16 << 10u16) != 0 && 0b1101011000101100u16 & (1u16 << 14u16) != 0 && 0b1101011000101100u16
        & (1u16 << 15u16) != 0) by (bit_vector);
    assert(0b1101011000101100u16 & (1u16 << 8u16) == 0 && 0b1101011000101100u16 & (1u16 << 13u16)
        == 0 && 0b1101011000101100u16 & (1u16 << 7u16) == 0 && 0b1101011000101100u16 & (1u16
        << 11u16) == 0 && 0b1101011000101100u16 & (1u16 << 0u16) == 0 && 0b1101011000101100u16 & (
    1u16 << 6u16) == 0 && 0b1101011000101100u16 & (1u16 << 1u16) == 0 && 0b1101011000101100u16
        & (1u16 << 4u16) == 0) by (bit_vector);
}

/// Setting one bit of a word leaves its other bits as they were.
proof fn set_bit(word: u16, p: u16, q: u16)
    requires
        p < 16,
        q < 16,
    ensures
        bit(word | (1u16 << p), q) == (q == p || bit(word, q)),
{
    assert((word | (1u16 << p)) & (1u16 << q) != 0 <==> (q == p || word & (1u16 << q) != 0))
        by (bit_vector)
        requires
            p < 16,
            q < 16,
    ;
}

/// Clearing one bit of a word leaves its other bits as they were.
proof fn clear_bit(word: u16, p: u16, q: u16)
    requires
        p < 16,
        q < 16,
    ensures
        bit(word & !(1u16 << p), q) == (q != p && bit(word, q)),
{
    assert((word & !(1u16 << p)) & (1u16 << q) != 0 <==> (q != p && word & (1u16 << q) != 0))
        by (bit_vector)
        requires
            p < 16,
            q < 16,
    ;
}

/// What each bit of a control word says, after `n` columns: a column's bit
/// is clear exactly when the column is among the first `n` and its cell is
/// lit; the row's own bit is set exactly when one of those cells is lit; the
/// bits of the other rows are clear.
pub proof fn row_word_bits(w: Wiring, g: Graphic, r: int, n: int)
    requires
        w.valid(),
        0 <= r < 8,
        0 <= n <= 8,
    ensures
        forall|c: int|
            0 <= c < 8 ==> (#[trigger] bit(w.row_word_upto(g, r, n), w.col_bit(c)) <==> !(c < n
                && g[r][c] == 1)),
        bit(w.row_word_upto(g, r, n), w.row_bit(r)) <==> exists|c: int|
            0 <= c < n && g[r][c] == 1,
        forall|k: int|
            0 <= k < 8 && k != r ==> !#[trigger] bit(w.row_word_upto(g, r, n), w.row_bit(k)),
    decreases n,
{
    if n > 0 {
        row_word_bits(w, g, r, n - 1);
        let before = w.row_word_upto(g, r, n - 1);
        let after = w.row_word_upto(g, r, n);
        let rb = w.row_bit(r);
        let cb = w.col_bit(n - 1);
        if g[r][n - 1] == 1 {
            let set = before | (1u16 << rb);
            assert forall|c: int| 0 <= c < 8 implies (#[trigger] bit(after, w.col_bit(c)) <==> !(c
                < n && g[r][c] == 1)) by {
                set_bit(before, rb, w.col_bit(c));
                clear_bit(set, cb, w.col_bit(c));
            }
            assert(bit(after, rb)) by {
                set_bit(before, rb, rb);
                clear_bit(set, cb, rb);
            }
            assert forall|k: int| 0 <= k < 8 && k != r implies !#[trigger] bit(
                after,
                w.row_bit(k),
            ) by {
                set_bit(before, rb, w.row_bit(k));
                clear_bit(set, cb, w.row_bit(k));
            }
        }
    }
}

/// The row words hold the whole frame: read back through the same wiring,
/// the control word of a row gives each cell of that row again. This holds
/// of every valid wiring, whatever outputs it uses.
pub proof fn codec_round_trip(w: Wiring, g: Graphic, r: int, c: int)
    requires
        w.valid(),
        is_frame(g),
        0 <= r < 8,
        0 <= c < 8,
    ensures
        w.decoded_cell(w.row_word(g, r), r, c) == g[r][c],
{
    row_word_bits(w, g, r, 8);
}

/// A row without a lit cell has the blank word for its control word.
pub proof fn dark_row_is_blank(w: Wiring, g: Graphic, r: int, n: int)
    requires
        0 <= n <= 8,
        forall|c: int| 0 <= c < 8 ==> g[r][c] != 1,
    ensures
        w.row_word_upto(g, r, n) == w.blank,
    decreases n,
{
    if n > 0 {
        dark_row_is_blank(w, g, r, n - 1);
    }
}

/// The control word that lights row `row` of `graphic`.
fn encode_row(graphic: &Graphic, row: usize) -> (signal: u16)
    requires
        row < 8,
    ensures
        signal == reference().row_word(*graphic, row as int),
{
    let mut signal = EMPTY_SIGNAL;
    let mut col: usize = 0;
    while col < 8
        invariant
            row < 8,
            col <= 8,
            signal == reference().row_word_upto(*graphic, row as int, col as int),
        decreases 8 - col,
    {
        if graphic[row][col] == 1 {
            signal = signal | (1u16 << (ROW_MAP[row] - 1));
            signal = signal & !(1u16 << (COL_MAP[col] - 1));
        }
        col += 1;
    }
    signal
}

/// The eight control words of a frame, one for each row from the top. A
/// well-formed frame can be read back from them, cell by cell.
pub fn encode(graphic: &Graphic) -> (words: [u16; 8])
    ensures
        forall|r: int| 0 <= r < 8 ==> #[trigger] words[r] == reference().row_word(*graphic, r),
        is_frame(*graphic) ==> forall|r: int, c: int|
            0 <= r < 8 && 0 <= c < 8 ==> reference().decoded_cell(#[trigger] words[r], r, c)
                == #[trigger] graphic[r][c],
{
    let mut words = [EMPTY_SIGNAL;8];
    let mut row: usize = 0;
    while row < 8
        invariant
            row <= 8,
            forall|r: int| 0 <= r < row ==> #[trigger] words[r] == reference().row_word(*graphic, r),
        decreases 8 - row,
    {
        words[row] = encode_row(graphic, row);
        row += 1;
    }
    proof {
        reference_is_valid();
        if is_frame(*graphic) {
            assert forall|r: int, c: int| 0 <= r < 8 && 0 <= c < 8 implies reference().decoded_cell(
                #[trigger] words[r],
                r,
                c,
            ) == #[trigger] graphic[r][c] by {
                codec_round_trip(reference(), *graphic, r, c);
            }
        }
    }
    words
}

/// The four control lines of the shift register.
#[derive(Debug, Clone, Copy, PartialEq, Eq, Structural)]
pub enum Wire {
    /// Serial data.
    Ser,
    /// The latch: its pulse puts what was shifted in onto the outputs.
    Rclk,
    /// The shift clock: its pulse takes one bit in.
    Srclk,
    /// The line that empties the shift register.
    Srclr,
}

/// One write to a pin: the line, and the level to drive it to.
#[derive(Debug, Clone, Copy, PartialEq, Eq, Structural)]
pub struct PinWrite {
    pub wire: Wire,
    pub high: bool,
}

/// An output line with its polarity. An anode is enabled by the high level,
/// a cathode by the low level.
#[derive(Debug, Clone, Copy, PartialEq, Eq, Structural)]
pub enum Line {
    Anode,
    Cathode,
}

impl Line {
    /// The level that puts the line into the state `enabled`.
    pub open spec fn level(self, enabled: bool) -> bool {
        match self {
            Line::Anode => enabled,
            Line::Cathode => !enabled,
        }
    }

    /// A line that the high level enables. It starts out disabled: low.
    pub fn new_anode() -> (line: Self)
        ensures
            line == Line::Anode,
    {
        Line::Anode
    }

    /// A line that the low level enables. It starts out disabled: high.
    pub fn new_cathode() -> (line: Self)
        ensures
            line == Line::Cathode,
    {
        Line::Cathode
    }

    /// The level that enables the line.
    pub fn enable(&self) -> (high: bool)
        ensures
            high == self.level(true),
    {
        match self {
            Line::Anode => true,
            Line::Cathode => false,
        }
    }

    /// The level that disables the line.
    pub fn disable(&self) -> (high: bool)
        ensures
            high == self.level(false),
    {
        match self {
            Line::Anode => false,
            Line::Cathode => true,
        }
    }
}

/// The lines of one shift register, each with its polarity.
#[derive(Debug, Clone, Copy, PartialEq, Eq, Structural)]
pub struct ShiftRegister {
    pub ser: Line,
    pub rclk: Line,
    pub srclk: Line,
    pub srclr: Line,
}

/// The two writes of a pulse: the line is enabled, then disabled.
pub open spec fn pulse(line: Line, wire: Wire) -> Seq<PinWrite> {
    seq![PinWrite { wire, high: line.level(true) }, PinWrite { wire, high: line.level(false) }]
}

impl ShiftRegister {
    /// The writes that shift in bit `i` of `data`: the data line takes the
    /// bit, then the shift clock pulses.
    pub open spec fn bit_writes(self, data: u16, i: int) -> Seq<PinWrite> {
        seq![PinWrite { wire: Wire::Ser, high: self.ser.level(bit(data, i as u16)) }] + pulse(
            self.srclk,
            Wire::Srclk,
        )
    }

    /// The writes that shift in the lowest `n` bits of `data`, bit 0 first.
    pub open spec fn bits_writes(self, data: u16, n: int) -> Seq<PinWrite>
        decreases n,
    {
        if n <= 0 {
            Seq::empty()
        } else {
            self.bits_writes(data, n - 1) + self.bit_writes(data, n - 1)
        }
    }

    /// Write `k` of the fifty that send the word `data`. Bit `i` of the word
    /// takes the writes `3 * i` to `3 * i + 2`: the data line is set to the
    /// bit, then the shift clock is enabled and disabled. The writes 48 and
    /// 49 enable and disable the latch.
    pub open spec fn write_at(self, data: u16, k: int) -> PinWrite {
        if k >= 48 {
            PinWrite { wire: Wire::Rclk, high: self.rclk.level(k == 48) }
        } else if k % 3 == 0 {
            PinWrite { wire: Wire::Ser, high: self.ser.level(bit(data, (k / 3) as u16)) }
        } else {
            PinWrite { wire: Wire::Srclk, high: self.srclk.level(k % 3 == 1) }
        }
    }

    /// The writes that put the word `data` onto the outputs: its sixteen bits
    /// are shifted in, bit 0 first, and then the latch pulses once.
    pub open spec fn word_writes(self, data: u16) -> Seq<PinWrite> {
        self.bits_writes(data, 16) + pulse(self.rclk, Wire::Rclk)
    }

    /// One pulse of the shift clock.
    pub fn tick(&self, out: &mut Vec<PinWrite>)
        ensures
            final(out)@ == old(out)@ + pulse(self.srclk, Wire::Srclk),
    {
        out.push(PinWrite { wire: Wire::Srclk, high: self.srclk.enable() });
        out.push(PinWrite { wire: Wire::Srclk, high: self.srclk.disable() });
    }

    /// One pulse of the latch.
    pub fn latch(&self, out: &mut Vec<PinWrite>)
        ensures
            final(out)@ == old(out)@ + pulse(self.rclk, Wire::Rclk),
    {
        out.push(PinWrite { wire: Wire::Rclk, high: self.rclk.enable() });
        out.push(PinWrite { wire: Wire::Rclk, high: self.rclk.disable() });
    }

    /// One pulse of the line that empties the shift register.
    pub fn clear(&self, out: &mut Vec<PinWrite>)
        ensures
            final(out)@ == old(out)@ + pulse(self.srclr, Wire::Srclr),
    {
        out.push(PinWrite { wire: Wire::Srclr, high: self.srclr.enable() });
        out.push(PinWrite { wire: Wire::Srclr, high: self.srclr.disable() });
    }

    /// Sends one word: the writes are added to `out` in the order in which
    /// they are to be carried out.
    pub fn write_short(&self, data: u16, out: &mut Vec<PinWrite>)
        ensures
            final(out)@ == old(out)@ + self.word_writes(data),
    {
        let mut i: u16 = 0;
        while i < 16
            invariant
                i <= 16,
                out@ == old(out)@ + self.bits_writes(data, i as int),
            decreases 16 - i,
        {
            let set = data & (1u16 << i) != 0;
            let high = if set {
                self.ser.enable()
            } else {
                self.ser.disable()
            };
            out.push(PinWrite { wire: Wire::Ser, high });
            self.tick(out);
            i += 1;
        }
        self.latch(out);
    }
}

/// The first `n` bits of a word take three writes each.
proof fn bits_writes_layout(sr: ShiftRegister, data: u16, n: int)
    requires
        0 <= n <= 16,
    ensures
        sr.bits_writes(data, n) == Seq::new((3 * n) as nat, |k: int| sr.write_at(data, k)),
    decreases n,
{
    if n > 0 {
        bits_writes_layout(sr, data, n - 1);
        assert(sr.bits_writes(data, n) =~= Seq::new(
            (3 * n) as nat,
            |k: int| sr.write_at(data, k),
        ));
    } else {
        assert(sr.bits_writes(data, n) =~= Seq::new(
            (3 * n) as nat,
            |k: int| sr.write_at(data, k),
        ));
    }
}

/// A word goes out in fifty writes, and [`ShiftRegister::write_at`] says
/// which: three for each bit, from the lowest bit up, and the two of the
/// latch at the end. No write before those two touches the latch, so what
/// the outputs show changes once, from the word before to this word.
pub proof fn word_writes_layout(sr: ShiftRegister, data: u16)
    ensures
        sr.word_writes(data) == Seq::new(50, |k: int| sr.write_at(data, k)),
        forall|k: int| 0 <= k < 48 ==> (#[trigger] sr.word_writes(data)[k]).wire != Wire::Rclk,
{
    bits_writes_layout(sr, data, 16);
}

/// A 16-bit shift register with an output latch, as far as the pin writes
/// decide what it holds. A rising shift clock takes the level of the data
/// line in; a rising latch puts the sixteen bits that were taken in last onto
/// the outputs; the low level on the line that empties the register empties
/// it.
pub struct Register {
    /// The level of the data line.
    pub ser: bool,
    /// The level of the shift clock.
    pub srclk: bool,
    /// The level of the latch.
    pub rclk: bool,
    /// The bits that were taken in, the oldest first.
    pub taken: Seq<bool>,
    /// What the outputs show, in the order in which the bits were taken in.
    pub shown: Seq<bool>,
    /// How often the outputs have changed.
    pub changes: nat,
}

/// The sixteen newest of the bits that were taken in.
pub open spec fn newest_sixteen(taken: Seq<bool>) -> Seq<bool> {
    if taken.len() >= 16 {
        taken.subrange(taken.len() - 16, taken.len() as int)
    } else {
        taken
    }
}

impl Register {
    /// The register after one write.
    pub open spec fn step(self, write: PinWrite) -> Register {
        match write.wire {
            Wire::Ser => Register { ser: write.high, ..self },
            Wire::Srclk => Register {
                srclk: write.high,
                taken: if write.high && !self.srclk {
                    self.taken.push(self.ser)
                } else {
                    self.taken
                },
                ..self
            },
            Wire::Rclk => if write.high && !self.rclk {
                Register {
                    rclk: true,
                    shown: newest_sixteen(self.taken),
                    changes: self.changes + 1,
                    ..self
                }
            } else {
                Register { rclk: write.high, ..self }
            },
            Wire::Srclr => if write.high {
                self
            } else {
                Register { taken: Seq::empty(), ..self }
            },
        }
    }

    /// The register after the writes, carried out in their order.
    pub open spec fn run(self, writes: Seq<PinWrite>) -> Register
        decreases writes.len(),
    {
        if writes.len() == 0 {
            self
        } else {
            self.run(writes.drop_last()).step(writes.last())
        }
    }
}

impl ShiftRegister {
    /// The levels that the data line takes for the sixteen bits of `data`,
    /// from bit 0 on.
    pub open spec fn sent_bits(self, data: u16) -> Seq<bool> {
        Seq::new(16, |i: int| self.ser.level(bit(data, i as u16)))
    }
}

/// One write more is one step more.
proof fn run_one_more(reg: Register, writes: Seq<PinWrite>, k: int)
    requires
        0 <= k < writes.len(),
    ensures
        reg.run(writes.take(k + 1)) == reg.run(writes.take(k)).step(writes[k]),
{
    assert(writes.take(k + 1).drop_last() =~= writes.take(k));
}

/// While a word is shifted in, the outputs stay as they are.
proof fn word_is_taken_in(sr: ShiftRegister, reg: Register, data: u16, i: int)
    requires
        reg.srclk == sr.srclk.level(false),
        0 <= i <= 16,
    ensures
        reg.run(sr.word_writes(data).take(3 * i)) == (Register {
            ser: if i == 0 {
                reg.ser
            } else {
                sr.sent_bits(data)[i - 1]
            },
            taken: reg.taken + sr.sent_bits(data).take(i),
            ..reg
        }),
    decreases i,
{
    let writes = sr.word_writes(data);
    word_writes_layout(sr, data);
    if i > 0 {
        word_is_taken_in(sr, reg, data, i - 1);
        let k = 3 * (i - 1);
        run_one_more(reg, writes, k);
        run_one_more(reg, writes, k + 1);
        run_one_more(reg, writes, k + 2);
        assert(reg.taken + sr.sent_bits(data).take(i) =~= (reg.taken + sr.sent_bits(data).take(
            i - 1,
        )).push(sr.sent_bits(data)[i - 1]));
    }
}

/// A word is shown whole and at once. Where the shift clock and the latch
/// are idle before the word is sent, the outputs stay as they are through the
/// first 48 of its writes; after the last one they show the sixteen bits of
/// the word, they have changed once, and the two lines are idle again.
pub proof fn word_is_shown_at_once(sr: ShiftRegister, reg: Register, data: u16, k: int)
    requires
        reg.srclk == sr.srclk.level(false),
        reg.rclk == sr.rclk.level(false),
        0 <= k <= 48,
    ensures
        reg.run(sr.word_writes(data).take(k)).shown == reg.shown,
        reg.run(sr.word_writes(data).take(k)).changes == reg.changes,
        reg.run(sr.word_writes(data)).shown == sr.sent_bits(data),
        reg.run(sr.word_writes(data)).changes == reg.changes + 1,
        reg.run(sr.word_writes(data)).srclk == sr.srclk.level(false),
        reg.run(sr.word_writes(data)).rclk == sr.rclk.level(false),
{
    let writes = sr.word_writes(data);
    word_writes_layout(sr, data);
    let i = k / 3;
    word_is_taken_in(sr, reg, data, i);
    if k > 3 * i {
        run_one_more(reg, writes, 3 * i);
        if k > 3 * i + 1 {
            run_one_more(reg, writes, 3 * i + 1);
        }
    }
    word_is_taken_in(sr, reg, data, 16);
    run_one_more(reg, writes, 48);
    run_one_more(reg, writes, 49);
}

/// One panel: its shift register, the frame that it shows, and its override
/// flag.
#[derive(Debug, Clone, Copy)]
pub struct DotMatrixLed {
    pub sr: ShiftRegister,
    pub graphic: Graphic,
    pub overridden: bool,
}

impl DotMatrixLed {
    /// The writes that show the top `n` rows of `g`, one after the other.
    pub open spec fn rows_writes(sr: ShiftRegister, g: Graphic, n: int) -> Seq<PinWrite>
        decreases n,
    {
        if n <= 0 {
            Seq::empty()
        } else {
            Self::rows_writes(sr, g, n - 1) + sr.word_writes(reference().row_word(g, n - 1))
        }
    }

    /// The writes of one scan of the frame `g`: its eight rows from the top,
    /// then the blank word, so that no row stays lit until the next scan.
    pub open spec fn scan_writes(sr: ShiftRegister, g: Graphic) -> Seq<PinWrite> {
        Self::rows_writes(sr, g, 8) + sr.word_writes(EMPTY_SIGNAL)
    }

    /// Blanks the panel.
    pub fn clear(&self, out: &mut Vec<PinWrite>)
        ensures
            final(out)@ == old(out)@ + self.sr.word_writes(EMPTY_SIGNAL),
    {
        self.sr.write_short(EMPTY_SIGNAL, out);
    }

    /// Scans the frame once. The frame is read and nothing else: the
    /// override flag plays no part.
    pub fn render(&self, out: &mut Vec<PinWrite>)
        ensures
            final(out)@ == old(out)@ + Self::scan_writes(self.sr, self.graphic),
    {
        let mut row: usize = 0;
        while row < 8
            invariant
                row <= 8,
                out@ == old(out)@ + Self::rows_writes(self.sr, self.graphic, row as int),
            decreases 8 - row,
        {
            let signal = encode_row(&self.graphic, row);
            self.sr.write_short(signal, out);
            row += 1;
        }
        self.clear(out);
    }
}

/// Writes carried out in two parts leave the register as they do in one.
proof fn run_in_two_parts(reg: Register, first: Seq<PinWrite>, second: Seq<PinWrite>)
    ensures
        reg.run(first + second) == reg.run(first).run(second),
    decreases second.len(),
{
    if second.len() > 0 {
        run_in_two_parts(reg, first, second.drop_last());
        assert((first + second).drop_last() =~= first + second.drop_last());
    }
}

/// After the top `n` rows of a scan the outputs have changed `n` times, once
/// for each row, and the shift clock and the latch are idle.
proof fn rows_are_shown_in_turn(sr: ShiftRegister, g: Graphic, reg: Register, n: int)
    requires
        reg.srclk == sr.srclk.level(false),
        reg.rclk == sr.rclk.level(false),
        0 <= n <= 8,
    ensures
        reg.run(DotMatrixLed::rows_writes(sr, g, n)).changes == reg.changes + n,
        reg.run(DotMatrixLed::rows_writes(sr, g, n)).srclk == sr.srclk.level(false),
        reg.run(DotMatrixLed::rows_writes(sr, g, n)).rclk == sr.rclk.level(false),
        n > 0 ==> reg.run(DotMatrixLed::rows_writes(sr, g, n)).shown == sr.sent_bits(
            reference().row_word(g, n - 1),
        ),
    decreases n,
{
    if n > 0 {
        let before = DotMatrixLed::rows_writes(sr, g, n - 1);
        let word = reference().row_word(g, n - 1);
        rows_are_shown_in_turn(sr, g, reg, n - 1);
        run_in_two_parts(reg, before, sr.word_writes(word));
        word_is_shown_at_once(sr, reg.run(before), word, 0);
    }
}

/// A scan shows the eight rows of the frame in turn and leaves the panel
/// dark: the outputs change nine times, once for each row and once for the
/// blank word, which is what they show in the end.
pub proof fn scan_ends_dark(sr: ShiftRegister, g: Graphic, reg: Register)
    requires
        reg.srclk == sr.srclk.level(false),
        reg.rclk == sr.rclk.level(false),
    ensures
        reg.run(DotMatrixLed::scan_writes(sr, g)).changes == reg.changes + 9,
        reg.run(DotMatrixLed::scan_writes(sr, g)).shown == sr.sent_bits(EMPTY_SIGNAL),
        reg.run(DotMatrixLed::scan_writes(sr, g)).srclk == sr.srclk.level(false),
        reg.run(DotMatrixLed::scan_writes(sr, g)).rclk == sr.rclk.level(false),
{
    let rows = DotMatrixLed::rows_writes(sr, g, 8);
    rows_are_shown_in_turn(sr, g, reg, 8);
    run_in_two_parts(reg, rows, sr.word_writes(EMPTY_SIGNAL));
    word_is_shown_at_once(sr, reg.run(rows), EMPTY_SIGNAL, 0);
}

} // verus!
