//! Random access plans: word and dword items shared out over commands under
//! the limits of a series.

use super::frame::addr::McLogicalAddress;
use super::types::McSeries;
use crate::wire::bytes_content;
use bytes::Bytes;
use vstd::prelude::*;

verus! {

/// Logical random read specification for a single MC item.
#[derive(Debug, Clone, Copy, PartialEq, Eq, Structural)]
pub struct RandomReadEntry {
    /// Index into the caller-provided logical item list.
    pub index: usize,
    /// Parsed logical address.
    pub addr: McLogicalAddress,
    /// Encoded device code used by the MC protocol.
    pub device_code: u16,
}

/// One random read command.
#[derive(Debug, Clone)]
pub struct RandomReadBatchSpec {
    /// Word-sized entries (16-bit units).
    pub word_entries: Vec<RandomReadEntry>,
    /// Dword-sized entries (32-bit units).
    pub dword_entries: Vec<RandomReadEntry>,
}

/// Logical random write specification for a single MC item.
#[derive(Debug, Clone)]
pub struct RandomWriteEntry {
    /// Parsed logical address.
    pub addr: McLogicalAddress,
    /// Encoded device code used by the MC protocol.
    pub device_code: u16,
    /// Number of logical word units (16-bit) covered by this write.
    pub word_len: u16,
    /// Fully encoded payload bytes for this entry.
    pub data: Bytes,
}

/// One random write command.
#[derive(Debug, Clone)]
pub struct RandomWriteBatchSpec {
    /// Word-sized entries (16-bit units).
    pub word_entries: Vec<RandomWriteEntry>,
    /// Dword-sized entries (32-bit units).
    pub dword_entries: Vec<RandomWriteEntry>,
}

/// A random write entry as mathematical data.
pub struct RandomWrite {
    pub addr: McLogicalAddress,
    pub device_code: u16,
    pub word_len: u16,
    pub data: Seq<u8>,
}

impl View for RandomWriteEntry {
    type V = RandomWrite;

    open spec fn view(&self) -> RandomWrite {
        RandomWrite {
            addr: self.addr,
            device_code: self.device_code,
            word_len: self.word_len,
            data: bytes_content(self.data),
        }
    }
}

/// How a command weighs its items.
#[derive(Debug, Clone, Copy, PartialEq, Eq, Structural)]
pub enum RandomWeight {
    /// Random read: every item counts 1.
    Read,
    /// Random write: a word item counts 12, a dword item 14.
    Write,
}

impl RandomWeight {
    /// Weight of `w` word items and `d` dword items.
    pub open spec fn of(self, w: int, d: int) -> int {
        match self {
            RandomWeight::Read => w + d,
            RandomWeight::Write => 12 * w + 14 * d,
        }
    }
}

/// A run of word items and a run of dword items that one command takes.
#[derive(Debug, Clone, Copy, PartialEq, Eq, Structural)]
pub struct RandomWindow {
    pub w_off: usize,
    pub w_len: usize,
    pub d_off: usize,
    pub d_len: usize,
}

/// How many word and dword items the next command takes when `w` and `d` of
/// them are taken and `w_left` and `d_left` remained at its start: items are
/// taken one at a time, words first, until the weight reaches the limit.
/// A limit of 0 is no limit.
pub open spec fn filled(
    weight: RandomWeight,
    max: int,
    w_left: int,
    d_left: int,
    w: int,
    d: int,
) -> (int, int)
    decreases (w_left - w) + (d_left - d),
    when w <= w_left && d <= d_left
{
    if max > 0 && weight.of(w, d) >= max {
        (w, d)
    } else if w < w_left {
        filled(weight, max, w_left, d_left, w + 1, d)
    } else if d < d_left {
        filled(weight, max, w_left, d_left, w, d + 1)
    } else {
        (w, d)
    }
}

/// The commands for the items from `w_off` and `d_off` on.
pub open spec fn windows(
    weight: RandomWeight,
    max: int,
    w_total: int,
    d_total: int,
    w_off: int,
    d_off: int,
) -> Seq<RandomWindow>
    decreases (w_total - w_off) + (d_total - d_off),
    when 0 <= w_off <= w_total && 0 <= d_off <= d_total
    via windows_decreases
{
    if w_off == w_total && d_off == d_total {
        Seq::empty()
    } else {
        let (w, d) = filled(weight, max, w_total - w_off, d_total - d_off, 0, 0);
        seq![
            RandomWindow {
                w_off: w_off as usize,
                w_len: w as usize,
                d_off: d_off as usize,
                d_len: d as usize,
            },
        ] + windows(weight, max, w_total, d_total, w_off + w, d_off + d)
    }
}

#[via_fn]
proof fn windows_decreases(
    weight: RandomWeight,
    max: int,
    w_total: int,
    d_total: int,
    w_off: int,
    d_off: int,
) {
    if 0 <= w_off <= w_total && 0 <= d_off <= d_total && !(w_off == w_total && d_off == d_total) {
        lemma_filled_bounds(weight, max, w_total - w_off, d_total - d_off, 0, 0);
    }
}

/// A command takes no more than there is, no dword before the last word, and
/// at least one item where one is left. It stops at the limit, but for the
/// last item, and falls short of it only where nothing is left.
proof fn lemma_filled_bounds(
    weight: RandomWeight,
    max: int,
    w_left: int,
    d_left: int,
    w: int,
    d: int,
)
    requires
        0 <= w <= w_left,
        0 <= d <= d_left,
        d > 0 ==> w == w_left,
    ensures
        ({
            let (a, b) = filled(weight, max, w_left, d_left, w, d);
            &&& w <= a <= w_left
            &&& d <= b <= d_left
            &&& b > 0 ==> a == w_left
            &&& w == 0 && d == 0 && (w_left > 0 || d_left > 0) ==> a > 0 || b > 0
            &&& (max > 0 && weight.of(a, b) >= max) || (a == w_left && b == d_left)
            &&& max > 0 && !(a == w && b == d) ==> if b > 0 {
                weight.of(a, b - 1) < max
            } else {
                weight.of(a - 1, b) < max
            }
        }),
    decreases (w_left - w) + (d_left - d),
{
    if max > 0 && weight.of(w, d) >= max {
    } else if w < w_left {
        lemma_filled_bounds(weight, max, w_left, d_left, w + 1, d);
    } else if d < d_left {
        lemma_filled_bounds(weight, max, w_left, d_left, w, d + 1);
    }
}

/// Where the command behind command `i` starts: at the next command, and at
/// the end of the lists behind the last one.
pub open spec fn start_after(
    ws: Seq<RandomWindow>,
    w_total: int,
    d_total: int,
    i: int,
) -> (int, int) {
    if i + 1 < ws.len() {
        (ws[i + 1].w_off as int, ws[i + 1].d_off as int)
    } else {
        (w_total, d_total)
    }
}

/// The commands take every item exactly once and in order: the first starts
/// at the front, each next one where the one before it ends, and the last ends
/// at the end. None is empty. Each but the last reaches the limit, and none
/// would have reached it without its last item.
pub proof fn random_commands_cover_all_items(
    weight: RandomWeight,
    max: int,
    w_total: int,
    d_total: int,
    w_off: int,
    d_off: int,
)
    requires
        0 <= w_off <= w_total <= usize::MAX,
        0 <= d_off <= d_total <= usize::MAX,
    ensures
        ({
            let ws = windows(weight, max, w_total, d_total, w_off, d_off);
            &&& ws.len() == 0 <==> w_off == w_total && d_off == d_total
            &&& ws.len() > 0 ==> ws[0].w_off == w_off && ws[0].d_off == d_off
            &&& forall|i: int|
                0 <= i < ws.len() ==> {
                    let x = #[trigger] ws[i];
                    &&& (x.w_off + x.w_len, x.d_off + x.d_len) == start_after(
                        ws,
                        w_total,
                        d_total,
                        i,
                    )
                    &&& x.w_off + x.w_len <= w_total
                    &&& x.d_off + x.d_len <= d_total
                    &&& x.w_len > 0 || x.d_len > 0
                    &&& i + 1 < ws.len() ==> max > 0 && weight.of(x.w_len as int, x.d_len as int)
                        >= max
                    &&& max > 0 ==> if x.d_len > 0 {
                        weight.of(x.w_len as int, x.d_len - 1) < max
                    } else {
                        weight.of(x.w_len - 1, 0) < max
                    }
                }
        }),
    decreases (w_total - w_off) + (d_total - d_off),
{
    if !(w_off == w_total && d_off == d_total) {
        lemma_filled_bounds(weight, max, w_total - w_off, d_total - d_off, 0, 0);
        let (w, d) = filled(weight, max, w_total - w_off, d_total - d_off, 0, 0);
        random_commands_cover_all_items(weight, max, w_total, d_total, w_off + w, d_off + d);
        let rest = windows(weight, max, w_total, d_total, w_off + w, d_off + d);
        let ws = windows(weight, max, w_total, d_total, w_off, d_off);
        assert(ws.len() == rest.len() + 1);
        assert forall|i: int| 0 <= i < ws.len() implies {
            let x = #[trigger] ws[i];
            &&& (x.w_off + x.w_len, x.d_off + x.d_len) == start_after(ws, w_total, d_total, i)
            &&& x.w_off + x.w_len <= w_total
            &&& x.d_off + x.d_len <= d_total
            &&& x.w_len > 0 || x.d_len > 0
            &&& i + 1 < ws.len() ==> max > 0 && weight.of(x.w_len as int, x.d_len as int) >= max
            &&& max > 0 ==> if x.d_len > 0 {
                weight.of(x.w_len as int, x.d_len - 1) < max
            } else {
                weight.of(x.w_len - 1, 0) < max
            }
        } by {
            if i > 0 {
                assert(ws[i] == rest[i - 1]);
                if i + 1 < ws.len() {
                    assert(ws[i + 1] == rest[i]);
                }
            } else if ws.len() > 1 {
                assert(ws[1] == rest[0]);
            }
        }
    }
}

/// Share out `word_total` word items and `dword_total` dword items over
/// commands of at most `max_len` weight, but for the last item of each.
fn bi_loop_execute(
    word_total: usize,
    dword_total: usize,
    max_len: u16,
    weight: RandomWeight,
) -> (r: Vec<RandomWindow>)
    ensures
        r@ == windows(
            weight,
            max_len as int,
            word_total as int,
            dword_total as int,
            0,
            0,
        ),
{
    let mut out: Vec<RandomWindow> = Vec::new();
    let mut w_off: usize = 0;
    let mut w_len: usize = 0;
    let mut d_off: usize = 0;
    let mut d_len: usize = 0;
    let ghost max = max_len as int;
    let ghost wt = word_total as int;
    let ghost dt = dword_total as int;
    proof {
        assert(Seq::<RandomWindow>::empty() + windows(weight, max, wt, dt, 0, 0) =~= windows(
            weight,
            max,
            wt,
            dt,
            0,
            0,
        ));
    }
    while w_off + w_len < word_total || d_off + d_len < dword_total
        invariant
            max == max_len,
            wt == word_total,
            dt == dword_total,
            w_off + w_len <= word_total,
            d_off + d_len <= dword_total,
            d_len > 0 ==> w_off + w_len == word_total,
            max > 0 ==> weight.of(w_len as int, d_len as int) < max + 14,
            out@ + windows(weight, max, wt, dt, w_off as int, d_off as int) == windows(
                weight,
                max,
                wt,
                dt,
                0,
                0,
            ),
            filled(weight, max, wt - w_off, dt - d_off, w_len as int, d_len as int) == filled(
                weight,
                max,
                wt - w_off,
                dt - d_off,
                0,
                0,
            ),
        decreases (wt - w_off) + (dt - d_off), (wt - w_off - w_len) + (dt - d_off - d_len),
    {
        let full: bool = max_len > 0 && match weight {
            RandomWeight::Read => w_len + d_len,
            RandomWeight::Write => w_len * 12 + d_len * 14,
        } >= max_len as usize;
        if full {
            let x = RandomWindow { w_off, w_len, d_off, d_len };
            proof {
                let rest = windows(weight, max, wt, dt, w_off + w_len, d_off + d_len);
                assert(out@ + (seq![x] + rest) =~= out@.push(x) + rest);
            }
            out.push(x);
            w_off += w_len;
            w_len = 0;
            d_off += d_len;
            d_len = 0;
        } else if w_off + w_len < word_total {
            w_len += 1;
        } else {
            d_len += 1;
        }
    }
    if w_off < word_total || d_off < dword_total {
        let x = RandomWindow { w_off, w_len, d_off, d_len };
        proof {
            let rest = windows(weight, max, wt, dt, wt, dt);
            assert(rest =~= Seq::<RandomWindow>::empty());
            assert(out@ + (seq![x] + rest) =~= out@.push(x));
        }
        out.push(x);
    } else {
        proof {
            assert(out@ + Seq::<RandomWindow>::empty() =~= out@);
        }
    }
    out
}

/// The random read command for a window.
pub open spec fn read_command_of(
    b: RandomReadBatchSpec,
    words: Seq<RandomReadEntry>,
    dwords: Seq<RandomReadEntry>,
    x: RandomWindow,
) -> bool {
    &&& b.word_entries@ == words.subrange(x.w_off as int, x.w_off + x.w_len)
    &&& b.dword_entries@ == dwords.subrange(x.d_off as int, x.d_off + x.d_len)
}

/// The windows of the random read commands for lists of word and dword items.
pub open spec fn random_read_windows(series: McSeries, words: nat, dwords: nat) -> Seq<
    RandomWindow,
> {
    windows(
        RandomWeight::Read,
        series.random_read_words_max() as int,
        words as int,
        dwords as int,
        0,
        0,
    )
}

/// The windows of the random write commands for lists of word and dword items.
pub open spec fn random_write_windows(series: McSeries, words: nat, dwords: nat) -> Seq<
    RandomWindow,
> {
    windows(
        RandomWeight::Write,
        series.random_write_words_max() as int,
        words as int,
        dwords as int,
        0,
        0,
    )
}

fn read_run(v: &Vec<RandomReadEntry>, from: usize, len: usize) -> (r: Vec<RandomReadEntry>)
    requires
        from + len <= v@.len(),
    ensures
        r@ == v@.subrange(from as int, from + len),
{
    let mut out: Vec<RandomReadEntry> = Vec::with_capacity(len);
    for i in 0..len
        invariant
            from + len <= v.len(),
            out@ == v@.subrange(from as int, from + i),
    {
        out.push(v[from + i]);
        assert(out@ =~= v@.subrange(from as int, from + i + 1));
    }
    out
}

/// Plan MC random read commands for word/dword items under series-specific
/// limits: words first, then dwords, as many per command as the limit takes.
pub fn plan_random_read_batches(
    series: McSeries,
    word_entries: Vec<RandomReadEntry>,
    dword_entries: Vec<RandomReadEntry>,
) -> (r: Vec<RandomReadBatchSpec>)
    ensures
        ({
            let ws = random_read_windows(series, word_entries@.len(), dword_entries@.len());
            &&& r@.len() == ws.len()
            &&& forall|i: int|
                0 <= i < ws.len() ==> read_command_of(
                    #[trigger] r@[i],
                    word_entries@,
                    dword_entries@,
                    ws[i],
                )
        }),
{
    let max_len: u16 = series.device_random_read_in_word_points_max();
    let plan = bi_loop_execute(
        word_entries.len(),
        dword_entries.len(),
        max_len,
        RandomWeight::Read,
    );
    proof {
        random_commands_cover_all_items(
            RandomWeight::Read,
            max_len as int,
            word_entries@.len() as int,
            dword_entries@.len() as int,
            0,
            0,
        );
    }
    let mut out: Vec<RandomReadBatchSpec> = Vec::with_capacity(plan.len());
    for i in 0..plan.len()
        invariant
            forall|k: int|
                0 <= k < plan@.len() ==> (#[trigger] plan@[k]).w_off + plan@[k].w_len
                    <= word_entries@.len() && plan@[k].d_off + plan@[k].d_len
                    <= dword_entries@.len(),
            out@.len() == i,
            forall|k: int|
                0 <= k < i ==> read_command_of(
                    #[trigger] out@[k],
                    word_entries@,
                    dword_entries@,
                    plan@[k],
                ),
    {
        let x = plan[i];
        assert(plan@[i as int] == x);
        out.push(
            RandomReadBatchSpec {
                word_entries: read_run(&word_entries, x.w_off, x.w_len),
                dword_entries: read_run(&dword_entries, x.d_off, x.d_len),
            },
        );
    }
    out
}

/// Random write entries as mathematical data.
pub open spec fn writes_view(v: Seq<RandomWriteEntry>) -> Seq<RandomWrite> {
    v.map_values(|e: RandomWriteEntry| e@)
}

/// The random write command for a window.
pub open spec fn write_command_of(
    b: RandomWriteBatchSpec,
    words: Seq<RandomWriteEntry>,
    dwords: Seq<RandomWriteEntry>,
    x: RandomWindow,
) -> bool {
    &&& writes_view(b.word_entries@) == writes_view(words).subrange(
        x.w_off as int,
        x.w_off + x.w_len,
    )
    &&& writes_view(b.dword_entries@) == writes_view(dwords).subrange(
        x.d_off as int,
        x.d_off + x.d_len,
    )
}

fn write_run(v: &Vec<RandomWriteEntry>, from: usize, len: usize) -> (r: Vec<RandomWriteEntry>)
    requires
        from + len <= v@.len(),
    ensures
        writes_view(r@) == writes_view(v@).subrange(from as int, from + len),
{
    let mut out: Vec<RandomWriteEntry> = Vec::with_capacity(len);
    for i in 0..len
        invariant
            from + len <= v.len(),
            writes_view(out@) == writes_view(v@).subrange(from as int, from + i),
    {
        let e = &v[from + i];
        let copy = RandomWriteEntry {
            addr: e.addr,
            device_code: e.device_code,
            word_len: e.word_len,
            data: e.data.clone(),
        };
        proof {
            assert(writes_view(out@.push(copy)) =~= writes_view(out@).push(copy@));
            assert(writes_view(v@)[from + i] == copy@);
        }
        out.push(copy);
        assert(writes_view(out@) =~= writes_view(v@).subrange(from as int, from + i + 1));
    }
    out
}

/// Plan MC random write commands for word/dword items under series-specific
/// limits: a command is full when 12 per word and 14 per dword item reach the
/// limit.
pub fn plan_random_write_batches(
    series: McSeries,
    word_entries: Vec<RandomWriteEntry>,
    dword_entries: Vec<RandomWriteEntry>,
) -> (r: Vec<RandomWriteBatchSpec>)
    ensures
        ({
            let ws = random_write_windows(series, word_entries@.len(), dword_entries@.len());
            &&& r@.len() == ws.len()
            &&& forall|i: int|
                0 <= i < ws.len() ==> write_command_of(
                    #[trigger] r@[i],
                    word_entries@,
                    dword_entries@,
                    ws[i],
                )
        }),
{
    let max_len: u16 = series.device_random_write_in_word_points_max();
    let plan = bi_loop_execute(
        word_entries.len(),
        dword_entries.len(),
        max_len,
        RandomWeight::Write,
    );
    proof {
        random_commands_cover_all_items(
            RandomWeight::Write,
            max_len as int,
            word_entries@.len() as int,
            dword_entries@.len() as int,
            0,
            0,
        );
    }
    let mut out: Vec<RandomWriteBatchSpec> = Vec::with_capacity(plan.len());
    for i in 0..plan.len()
        invariant
            forall|k: int|
                0 <= k < plan@.len() ==> (#[trigger] plan@[k]).w_off + plan@[k].w_len
                    <= word_entries@.len() && plan@[k].d_off + plan@[k].d_len
                    <= dword_entries@.len(),
            out@.len() == i,
            forall|k: int|
                0 <= k < i ==> write_command_of(
                    #[trigger] out@[k],
                    word_entries@,
                    dword_entries@,
                    plan@[k],
                ),
    {
        let x = plan[i];
        assert(plan@[i as int] == x);
        out.push(
            RandomWriteBatchSpec {
                word_entries: write_run(&word_entries, x.w_off, x.w_len),
                dword_entries: write_run(&dword_entries, x.d_off, x.d_len),
            },
        );
    }
    out
}

} // verus!
