//! Packets of a sigrok data feed.

use vstd::prelude::*;

use crate::text::{digit_char, digit_to_char, push_char};

verus! {

/// Header of a sigrok data feed.
///
/// The header is the first packet ever received for a data feed.
#[derive(Debug, Clone, Copy)]
pub struct HeaderPacket {
    /// Data feed version.
    feed_version: u32,
    /// Time when the data feed started, in microseconds.
    time_us: u64,
}

impl HeaderPacket {
    /// The data feed version.
    pub closed spec fn spec_feed_version(&self) -> u32 {
        self.feed_version
    }

    /// The start time of the feed, in microseconds.
    pub closed spec fn spec_time_us(&self) -> u64 {
        self.time_us
    }

    /// Builds a header from the three numbers of its payload: the feed
    /// version, then the start time as seconds and microseconds.
    pub fn new(feed_version: u32, time_seconds: u32, time_us: u32) -> (h: HeaderPacket)
        ensures
            h.spec_feed_version() == feed_version,
            h.spec_time_us() == time_us + time_seconds * 1_000_000,
    {
        let seconds: u64 = time_seconds as u64;
        let micros: u64 = time_us as u64;
        HeaderPacket { feed_version, time_us: micros + seconds * 1_000_000 }
    }

    /// Returns the data feed version.
    pub fn feed_version(&self) -> (v: u32)
        ensures
            v == self.spec_feed_version(),
    {
        self.feed_version
    }

    /// Returns the start time of the feed, in microseconds.
    pub fn time_us(&self) -> (t: u64)
        ensures
            t == self.spec_time_us(),
    {
        self.time_us
    }
}

/// Whether bit `k` of a sample is set: the logic state of channel `k`.
pub open spec fn bit_of(v: u16, k: u8) -> bool {
    (v >> k) & 1u16 != 0
}

/// Channel `k` is the bit of weight 2^k: the state is the remainder by two
/// of the sample divided by 2^k.
pub proof fn lemma_bit_of_is_binary_digit(v: u16, k: u8)
    requires
        k < 16,
    ensures
        bit_of(v, k) == ((v / (1u16 << k)) % 2 == 1),
{
    assert(((v >> k) & 1u16 != 0) == ((v / (1u16 << k)) % 2 == 1)) by (bit_vector)
        requires
            k < 16,
    ;
}

/// The number of bytes of a sample that carry channel states: two when
/// samples are at least two bytes wide (channels 0 to 15), else one.
pub open spec fn sample_width(unit_size: int) -> int {
    if unit_size >= 2 {
        2
    } else {
        1
    }
}

/// The sample that starts at byte `start` of a payload: its first byte,
/// and when samples are at least two bytes wide, its second byte as the
/// high byte (little-endian).
pub open spec fn sample_at(raw: Seq<u8>, start: int, unit_size: int) -> u16 {
    if unit_size >= 2 {
        (raw[start] as int + raw[start + 1] as int * 256) as u16
    } else {
        raw[start] as u16
    }
}

/// The character that shows a logic state.
pub open spec fn bit_char(b: bool) -> char {
    if b {
        '1'
    } else {
        '0'
    }
}

/// The line that shows channel `k` for the samples from `start` to `end`:
/// "D", the channel's digit, a space, one character per sample and a line
/// break.
pub open spec fn row_text(data: Seq<u16>, k: u8, start: int, end: int) -> Seq<char> {
    seq!['D', digit_char(k as int), ' '] + Seq::new(
        (end - start) as nat,
        |j: int| bit_char(bit_of(data[start + j], k)),
    ) + seq!['\n']
}

/// The lines of channels `k` to 7 for the samples from `start` to `end`.
pub open spec fn rows_text(data: Seq<u16>, k: int, start: int, end: int) -> Seq<char>
    decreases 8 - k,
{
    if k < 0 || k >= 8 {
        Seq::empty()
    } else {
        row_text(data, k as u8, start, end) + rows_text(data, k + 1, start, end)
    }
}

/// The end of the block of at most 80 samples that starts at `start`.
pub open spec fn block_end(len: int, start: int) -> int {
    if start + 80 < len {
        start + 80
    } else {
        len
    }
}

/// The text of the samples from `start` on, in blocks of 80 samples, each
/// block showing the eight channels one per line and ending with an empty
/// line.
pub open spec fn render_from(data: Seq<u16>, start: int) -> Seq<char>
    decreases data.len() - start,
{
    if start < 0 || start >= data.len() {
        Seq::empty()
    } else {
        rows_text(data, 0, start, block_end(data.len() as int, start)) + seq!['\n'] + if start + 80
            < data.len() {
            render_from(data, start + 80)
        } else {
            Seq::empty()
        }
    }
}

/// Given "N" logic channels, where `1 <= N <= 16`, each sample holds in
/// each bit the logical state of one channel, ordered by channel index:
///
///         D7 D6 D5 D4 D3 D2 D1 D0
///  0x0E    0  0  0  0  1  1  1  0
///  0xF6    1  1  1  1  0  1  1  0
///  0xD2    1  1  0  1  0  0  1  0
pub struct LogicPacket {
    /// Logic data from each logic channel, up to 16 channels.
    data: Vec<u16>,
}

impl View for LogicPacket {
    type V = Seq<u16>;

    closed spec fn view(&self) -> Seq<u16> {
        self.data@
    }
}

impl LogicPacket {
    /// Builds a packet from its samples.
    pub fn new(data: Vec<u16>) -> (p: LogicPacket)
        ensures
            p@ == data@,
    {
        LogicPacket { data }
    }

    /// Builds a packet from the raw payload of a logic block: `length`
    /// samples of `unit_size` bytes each. The first byte of a sample holds
    /// channels 0 to 7 and, when samples are at least two bytes wide, the
    /// second byte holds channels 8 to 15.
    pub fn from_samples(raw: &[u8], length: usize, unit_size: usize) -> (p: LogicPacket)
        requires
            length > 0 ==> (length - 1) * unit_size + sample_width(unit_size as int) <= raw@.len(),
        ensures
            p@.len() == length,
            forall|i: int|
                0 <= i < length ==> p@[i] == sample_at(raw@, i * unit_size, unit_size as int),
    {
        let mut data: Vec<u16> = Vec::new();
        let mut i: usize = 0;
        let mut offset: usize = 0;
        while i < length
            invariant
                i <= length,
                length > 0 ==> (length - 1) * unit_size + sample_width(unit_size as int)
                    <= raw@.len(),
                i < length ==> offset == i * unit_size,
                data@.len() == i,
                forall|j: int|
                    0 <= j < i ==> data@[j] == sample_at(raw@, j * unit_size, unit_size as int),
            decreases length - i,
        {
            proof {
                assert(i * unit_size <= (length - 1) * unit_size) by (nonlinear_arith)
                    requires
                        i < length,
                ;
            }
            let low: u16 = raw[offset] as u16;
            let sample: u16 = if unit_size >= 2 {
                let high: u16 = raw[offset + 1] as u16;
                low + high * 256
            } else {
                low
            };
            data.push(sample);
            if i + 1 < length {
                proof {
                    assert((i + 1) * unit_size <= (length - 1) * unit_size) by (nonlinear_arith)
                        requires
                            i + 1 < length,
                    ;
                    assert((i + 1) * unit_size == i * unit_size + unit_size) by (nonlinear_arith);
                }
                offset = offset + unit_size;
            } else {
                proof {
                    assert((i + 1) * unit_size == i * unit_size + unit_size) by (nonlinear_arith);
                }
                offset = 0;
            }
            i = i + 1;
            proof {
                if i < length {
                    assert(offset == i * unit_size);
                }
            }
        }
        LogicPacket { data }
    }

    /// Returns all the values corresponding to a single channel. Channels
    /// are identified by an index, from 0 (LSB) to 15 (MSB).
    pub fn get_channel_data(&self, index: u8) -> (r: Vec<bool>)
        requires
            index < 16,
        ensures
            r@.len() == self@.len(),
            forall|i: int| 0 <= i < self@.len() ==> r@[i] == bit_of(self@[i], index),
    {
        let mut channel_data: Vec<bool> = Vec::new();
        let mut i: usize = 0;
        while i < self.data.len()
            invariant
                i <= self.data@.len(),
                index < 16,
                channel_data@.len() == i,
                forall|j: int| 0 <= j < i ==> channel_data@[j] == bit_of(self.data@[j], index),
            decreases self.data.len() - i,
        {
            let value = self.data[i];
            channel_data.push((value >> index) & 1u16 != 0);
            i = i + 1;
        }
        channel_data
    }

    /// Appends the line of channel `k` for the samples from `start` to
    /// `end`.
    fn push_row(&self, s: &mut String, k: u8, start: usize, end: usize)
        requires
            k < 8,
            start <= end <= self@.len(),
        ensures
            final(s)@ == old(s)@ + row_text(self@, k, start as int, end as int),
    {
        let ghost base = s@;
        push_char(s, 'D');
        push_char(s, digit_to_char(k as u64));
        push_char(s, ' ');
        let mut j: usize = start;
        while j < end
            invariant
                start <= j <= end,
                end <= self.data@.len(),
                self@ == self.data@,
                k < 8,
                s@ == base + seq!['D', digit_char(k as int), ' '] + Seq::new(
                    (j - start) as nat,
                    |m: int| bit_char(bit_of(self@[start + m], k)),
                ),
            decreases end - j,
        {
            let bit = (self.data[j] >> k) & 1u16 != 0;
            push_char(s, if bit { '1' } else { '0' });
            proof {
                let prev = Seq::new(
                    (j - start) as nat,
                    |m: int| bit_char(bit_of(self@[start + m], k)),
                );
                let next = Seq::new(
                    (j + 1 - start) as nat,
                    |m: int| bit_char(bit_of(self@[start + m], k)),
                );
                assert(next =~= prev.push(bit_char(bit_of(self@[j as int], k))));
            }
            j = j + 1;
        }
        push_char(s, '\n');
        assert(s@ =~= base + row_text(self@, k, start as int, end as int));
    }

    /// The text of the packet: its samples in blocks of 80, each block
    /// showing channels D0 to D7 one per line, as ones and zeros, and ending
    /// with an empty line.
    pub fn render(&self) -> (s: String)
        ensures
            s@ == render_from(self@, 0),
    {
        let n = self.data.len();
        let mut s = String::new();
        let mut start: usize = 0;
        while start < n
            invariant
                n == self@.len(),
                start <= n,
                s@ + render_from(self@, start as int) == render_from(self@, 0),
            decreases n - start,
        {
            let end: usize = if n - start > 80 {
                start + 80
            } else {
                n
            };
            assert(end == block_end(n as int, start as int));
            let ghost before = s@;
            let mut k: u8 = 0;
            while k < 8
                invariant
                    k <= 8,
                    start < end <= n,
                    n == self@.len(),
                    s@ + rows_text(self@, k as int, start as int, end as int) == before + rows_text(
                        self@,
                        0,
                        start as int,
                        end as int,
                    ),
                decreases 8 - k,
            {
                let ghost row_before = s@;
                self.push_row(&mut s, k, start, end);
                assert(rows_text(self@, k as int, start as int, end as int) == row_text(
                    self@,
                    k,
                    start as int,
                    end as int,
                ) + rows_text(self@, k + 1, start as int, end as int));
                assert(s@ + rows_text(self@, k + 1, start as int, end as int) =~= row_before
                    + rows_text(self@, k as int, start as int, end as int));
                k = k + 1;
            }
            push_char(&mut s, '\n');
            proof {
                assert(rows_text(self@, 8, start as int, end as int) =~= Seq::<char>::empty());
                let block = rows_text(self@, 0, start as int, end as int) + seq!['\n'];
                assert(s@ =~= before + block);
                if end == n {
                    assert(render_from(self@, start as int) =~= block);
                    assert(render_from(self@, end as int) =~= Seq::<char>::empty());
                } else {
                    assert(end == start + 80);
                    assert(render_from(self@, start as int) == block + render_from(
                        self@,
                        end as int,
                    ));
                }
                assert(s@ + render_from(self@, end as int) =~= before + render_from(
                    self@,
                    start as int,
                ));
            }
            start = end;
        }
        assert(render_from(self@, start as int) =~= Seq::<char>::empty());
        assert(s@ =~= render_from(self@, 0));
        s
    }
}


/// The lines of channels `k0` to 7 are the rows one after the other: each
/// row is `w + 4` characters long, where `w` is the number of samples
/// shown.
proof fn lemma_rows_text_layout(data: Seq<u16>, k0: int, start: int, end: int, k: int, off: int)
    requires
        0 <= k0 <= 8,
        start <= end,
    ensures
        rows_text(data, k0, start, end).len() == (8 - k0) * (end - start + 4),
        k0 <= k < 8 && 0 <= off < end - start + 4 ==> rows_text(data, k0, start, end)[(k - k0) * (
        end - start + 4) + off] == row_text(data, k as u8, start, end)[off],
    decreases 8 - k0,
{
    let w4 = end - start + 4;
    if k0 < 8 {
        lemma_rows_text_layout(data, k0 + 1, start, end, k, off);
        let row = row_text(data, k0 as u8, start, end);
        let rest = rows_text(data, k0 + 1, start, end);
        assert(rows_text(data, k0, start, end) == row + rest);
        assert(row.len() == w4);
        assert((8 - k0) * w4 == w4 + (8 - (k0 + 1)) * w4) by (nonlinear_arith);
        if k == k0 && 0 <= off < w4 {
            assert((k - k0) * w4 + off == off) by (nonlinear_arith)
                requires
                    k == k0,
            ;
            assert((row + rest)[off] == row[off]);
        }
        if k0 < k < 8 && 0 <= off < w4 {
            let x = (k - (k0 + 1)) * w4 + off;
            assert((k - k0) * w4 + off == w4 + (k - (k0 + 1)) * w4 + off) by (nonlinear_arith);
            assert(0 <= (k - (k0 + 1)) * w4) by (nonlinear_arith)
                requires
                    k > k0,
                    w4 >= 4,
            ;
            assert((k - (k0 + 1)) * w4 + off < (8 - (k0 + 1)) * w4) by (nonlinear_arith)
                requires
                    k < 8,
                    0 <= off < w4,
            ;
            assert((row + rest)[w4 + x] == rest[x]);
        }
    }
}

/// The text of the samples from block `c` on is the blocks one after the
/// other, each full block being 673 characters long.
proof fn lemma_render_blocks_layout(data: Seq<u16>, c: int, b: int, off: int)
    requires
        0 <= c <= b,
        80 * b < data.len(),
        0 <= off <= 8 * (block_end(data.len() as int, 80 * b) - 80 * b + 4),
    ensures
        (b - c) * 673 + off < render_from(data, 80 * c).len(),
        render_from(data, 80 * c)[(b - c) * 673 + off] == (rows_text(
            data,
            0,
            80 * b,
            block_end(data.len() as int, 80 * b),
        ) + seq!['\n'])[off],
    decreases b - c,
{
    let s = 80 * c;
    let e = block_end(data.len() as int, s);
    lemma_rows_text_layout(data, 0, s, e, 0, 0);
    let head = rows_text(data, 0, s, e) + seq!['\n'];
    let tail = if s + 80 < data.len() {
        render_from(data, s + 80)
    } else {
        Seq::empty()
    };
    assert(render_from(data, s) == head + tail);
    if c < b {
        assert(80 * (c + 1) == s + 80);
        assert(s + 80 <= 80 * b);
        assert(e == s + 80);
        assert(head.len() == 673);
        lemma_render_blocks_layout(data, c + 1, b, off);
        let x = (b - (c + 1)) * 673 + off;
        assert((b - c) * 673 + off == 673 + x);
        assert(0 <= (b - (c + 1)) * 673) by (nonlinear_arith)
            requires
                b > c,
        ;
        assert(tail == render_from(data, 80 * (c + 1)));
        assert((head + tail)[673 + x] == tail[x]);
    } else {
        assert(c == b);
        assert(s == 80 * b);
        assert(head.len() == 8 * (e - s + 4) + 1);
        assert((b - c) * 673 + off == off);
        assert((head + tail)[off] == head[off]);
    }
}

/// Where each sample stands in the rendered text: in block `b`, which
/// shows the samples from `80 * b` on (at most 80 of them, `w`), the row of
/// channel `k` is "D", the channel's digit, a space, then for `j` below `w`
/// the state of channel `k` in sample `80 * b + j`, then a line break.
pub proof fn lemma_render_shows_each_sample(data: Seq<u16>, b: int, k: int, j: int)
    requires
        0 <= b,
        80 * b < data.len(),
        0 <= k < 8,
        0 <= j < (if data.len() - 80 * b > 80 {
            80
        } else {
            data.len() - 80 * b
        }),
    ensures
        ({
            let s = 80 * b;
            let w = if data.len() - s > 80 {
                80
            } else {
                data.len() - s
            };
            let row = b * 673 + k * (w + 4);
            let text = render_from(data, 0);
            &&& text[row] == 'D'
            &&& text[row + 1] == digit_char(k)
            &&& text[row + 2] == ' '
            &&& text[row + 3 + j] == (if (data[s + j] >> (k as u8)) & 1u16 != 0 {
                '1'
            } else {
                '0'
            })
            &&& text[row + 3 + w] == '\n'
        }),
{
    let s = 80 * b;
    let e = block_end(data.len() as int, s);
    let w = e - s;
    let rows = rows_text(data, 0, s, e);
    lemma_rows_text_layout(data, 0, s, e, k, 0);
    assert(0 <= k * (w + 4) && k * (w + 4) + w + 3 < 8 * (w + 4)) by (nonlinear_arith)
        requires
            0 <= k < 8,
            w >= 1,
    ;
    let r = row_text(data, k as u8, s, e);
    assert forall|off: int| 0 <= off < w + 4 implies render_from(data, 0)[b * 673 + k * (w + 4)
        + off] == #[trigger] r[off] by {
        lemma_rows_text_layout(data, 0, s, e, k, off);
        assert(0 <= k * (w + 4) + off < 8 * (w + 4)) by (nonlinear_arith)
            requires
                0 <= k < 8,
                0 <= off < w + 4,
        ;
        lemma_render_blocks_layout(data, 0, b, k * (w + 4) + off);
        assert((rows + seq!['\n'])[k * (w + 4) + off] == rows[k * (w + 4) + off]);
    }
    assert(r[0] == 'D');
    assert(r[1] == digit_char(k));
    assert(r[2] == ' ');
    assert(r[3 + j] == bit_char(bit_of(data[s + j], k as u8)));
    assert(r[3 + w] == '\n');
}

} // verus!
