//! Lays a table out as an aligned grid of text.

use super::dom::{element_height, height, lemma_child_height, named, HtmlElement, HtmlNode};
use super::{render_node, rendered};
use super::wrap::{display_width, find_words, width, words};
use crate::text::{
    extend, extend_repeated, repeated, same, split, split_at, to_chars, to_string, trim_end,
    trimmed_len,
};
use vstd::prelude::*;

verus! {

/// How wide the cells of one column are.
#[derive(Debug)]
pub struct ColumnStat {
    /// The widest single word: the least width that wraps without breaking
    /// a word.
    pub min: usize,
    /// The mean over the cells of the width of the widest line.
    pub avg: usize,
    /// The widest line.
    pub max: usize,
}

/// `a / d`, rounded up.
pub open spec fn div_ceil(a: nat, d: nat) -> nat {
    if a % d == 0 {
        a / d
    } else {
        a / d + 1
    }
}

/// The sum of `values`.
pub open spec fn total(values: Seq<nat>) -> nat
    decreases values.len(),
{
    if values.len() == 0 {
        0
    } else {
        total(values.drop_last()) + values.last()
    }
}

/// The columns that separate `columns` columns: three between each two.
pub open spec fn separators(columns: nat) -> nat {
    if columns == 0 {
        0
    } else {
        (3 * (columns - 1)) as nat
    }
}

impl ColumnStat {
    /// The width to start from: the average, but at least the minimum.
    pub open spec fn base(self) -> nat {
        if self.avg >= self.min {
            self.avg as nat
        } else {
            self.min as nat
        }
    }

    /// How far the column can grow from its base before nothing wraps.
    pub open spec fn headroom(self) -> nat {
        if self.max >= self.base() {
            (self.max - self.base()) as nat
        } else {
            0
        }
    }

    /// How far the column can shrink from its base before words break.
    pub open spec fn slack(self) -> nat {
        (self.base() - self.min) as nat
    }
}

/// The least width of each column.
pub open spec fn minima(stats: Seq<ColumnStat>) -> Seq<nat> {
    Seq::new(stats.len(), |i: int| stats[i].min as nat)
}

/// The greatest width of each column.
pub open spec fn maxima(stats: Seq<ColumnStat>) -> Seq<nat> {
    Seq::new(stats.len(), |i: int| stats[i].max as nat)
}

/// The base width of each column.
pub open spec fn bases(stats: Seq<ColumnStat>) -> Seq<nat> {
    Seq::new(stats.len(), |i: int| stats[i].base())
}

/// The headroom of each column.
pub open spec fn headrooms(stats: Seq<ColumnStat>) -> Seq<nat> {
    Seq::new(stats.len(), |i: int| stats[i].headroom())
}

/// The slack of each column.
pub open spec fn slacks(stats: Seq<ColumnStat>) -> Seq<nat> {
    Seq::new(stats.len(), |i: int| stats[i].slack())
}

/// The base widths, with `extra` more columns handed out in proportion to
/// each column's headroom, rounded down.
pub open spec fn grown(stats: Seq<ColumnStat>, extra: nat) -> Seq<nat> {
    Seq::new(
        stats.len(),
        |i: int| stats[i].base() + extra * stats[i].headroom() / total(headrooms(stats)),
    )
}

/// The base widths, with `extra` columns taken away in proportion to each
/// column's slack, rounded up.
pub open spec fn shrunk(stats: Seq<ColumnStat>, extra: nat) -> Seq<nat> {
    Seq::new(
        stats.len(),
        |i: int|
            (stats[i].base() - div_ceil(extra * stats[i].slack(), total(slacks(stats)))) as nat,
    )
}

/// The width of each column under an optional limit on the width of the
/// whole table, separators included. Without a limit, or where everything
/// fits, each column is as wide as its widest line. Where not even the
/// widest words fit, each is as wide as its widest word. In between, the
/// columns start from their base widths and share what is left over or
/// missing.
pub open spec fn allocation(stats: Seq<ColumnStat>, max_width: Option<nat>) -> Seq<nat> {
    match max_width {
        None => maxima(stats),
        Some(limit) => {
            let between = separators(stats.len());
            let based = total(bases(stats)) + between;
            if total(maxima(stats)) + between <= limit {
                maxima(stats)
            } else if total(minima(stats)) + between >= limit {
                minima(stats)
            } else if based < limit {
                grown(stats, (limit - based) as nat)
            } else if based == limit {
                bases(stats)
            } else {
                shrunk(stats, (based - limit) as nat)
            }
        },
    }
}

/// The sum of a sequence grows by what is appended.
pub proof fn lemma_total_push(values: Seq<nat>, value: nat)
    ensures
        total(values.push(value)) == total(values) + value,
{
    assert(values.push(value).drop_last() =~= values);
}

/// The base widths are what the minima and the slacks add up to.
proof fn lemma_bases_split(stats: Seq<ColumnStat>)
    ensures
        total(bases(stats)) == total(minima(stats)) + total(slacks(stats)),
        total(maxima(stats)) <= total(bases(stats)) + total(headrooms(stats)),
    decreases stats.len(),
{
    if stats.len() > 0 {
        let front = stats.drop_last();
        lemma_bases_split(front);
        assert(bases(stats).drop_last() =~= bases(front));
        assert(minima(stats).drop_last() =~= minima(front));
        assert(maxima(stats).drop_last() =~= maxima(front));
        assert(slacks(stats).drop_last() =~= slacks(front));
        assert(headrooms(stats).drop_last() =~= headrooms(front));
    }
}

/// Shares that are rounded down add up to no more than what is shared out.
proof fn lemma_grown_total(stats: Seq<ColumnStat>, k: int, extra: nat, delta: nat)
    requires
        0 <= k <= stats.len(),
        delta > 0,
    ensures
        total(Seq::new(k as nat, |i: int| extra * stats[i].headroom() / delta)) * delta <= extra
            * total(headrooms(stats).take(k)),
    decreases k,
{
    let shares = Seq::new(k as nat, |i: int| extra * stats[i].headroom() / delta);
    if k > 0 {
        lemma_grown_total(stats, k - 1, extra, delta);
        let fewer = Seq::new((k - 1) as nat, |i: int| extra * stats[i].headroom() / delta);
        assert(shares.drop_last() =~= fewer);
        assert(headrooms(stats).take(k).drop_last() =~= headrooms(stats).take(k - 1));
        let h = stats[k - 1].headroom();
        let before = total(headrooms(stats).take(k - 1));
        assert(total(headrooms(stats).take(k)) == before + h);
        assert(total(shares) == total(fewer) + extra * h / delta);
        assert((extra * h / delta) * delta <= extra * h) by (nonlinear_arith)
            requires
                delta > 0,
        ;
        assert((total(fewer) + extra * h / delta) * delta == total(fewer) * delta + (extra * h
            / delta) * delta) by (nonlinear_arith);
        assert(extra * (before + h) == extra * before + extra * h) by (nonlinear_arith);
    } else {
        assert(total(shares) == 0);
        assert(total(headrooms(stats).take(k)) == 0);
        assert(0 * delta == 0 && extra * 0 == 0) by (nonlinear_arith);
    }
}

/// Shares that are rounded up add up to at least what is shared out.
proof fn lemma_shrunk_total(stats: Seq<ColumnStat>, k: int, extra: nat, delta: nat)
    requires
        0 <= k <= stats.len(),
        delta > 0,
    ensures
        total(Seq::new(k as nat, |i: int| div_ceil(extra * stats[i].slack(), delta))) * delta
            >= extra * total(slacks(stats).take(k)),
    decreases k,
{
    let shares = Seq::new(k as nat, |i: int| div_ceil(extra * stats[i].slack(), delta));
    if k > 0 {
        lemma_shrunk_total(stats, k - 1, extra, delta);
        let fewer = Seq::new((k - 1) as nat, |i: int| div_ceil(extra * stats[i].slack(), delta));
        assert(shares.drop_last() =~= fewer);
        assert(slacks(stats).take(k).drop_last() =~= slacks(stats).take(k - 1));
        let s = stats[k - 1].slack();
        let before = total(slacks(stats).take(k - 1));
        assert(total(slacks(stats).take(k)) == before + s);
        let share = div_ceil(extra * s, delta);
        assert(total(shares) == total(fewer) + share);
        lemma_div_ceil(extra * s, delta);
        assert((total(fewer) + share) * delta == total(fewer) * delta + share * delta)
            by (nonlinear_arith);
        assert(extra * (before + s) == extra * before + extra * s) by (nonlinear_arith);
    } else {
        assert(total(shares) == 0);
        assert(total(slacks(stats).take(k)) == 0);
        assert(0 * delta == 0 && extra * 0 == 0) by (nonlinear_arith);
    }
}

/// Rounding up gives the least multiple that is large enough.
pub proof fn lemma_div_ceil(a: nat, d: nat)
    requires
        d > 0,
    ensures
        div_ceil(a, d) * d >= a,
        (div_ceil(a, d) - 1) * d < a || a == 0,
{
    assert(a == (a / d) * d + a % d && 0 <= a % d < d) by (nonlinear_arith)
        requires
            d > 0,
    ;
    assert((a / d + 1) * d == (a / d) * d + d) by (nonlinear_arith);
    assert((a / d - 1) * d == (a / d) * d - d) by (nonlinear_arith);
}

/// A share of `extra` in proportion `part` of `whole` is no more than the
/// part, as long as no more is shared out than the whole.
pub proof fn lemma_share_bounded(extra: nat, part: nat, whole: nat)
    requires
        whole > 0,
        extra <= whole,
    ensures
        extra * part / whole <= part,
        div_ceil(extra * part, whole) <= part,
{
    assert(extra * part <= whole * part) by (nonlinear_arith)
        requires
            extra <= whole,
    ;
    assert(extra * part / whole <= part) by (nonlinear_arith)
        requires
            whole > 0,
            extra * part <= whole * part,
    ;
    if (extra * part) % whole != 0 {
        assert(extra * part / whole < part) by (nonlinear_arith)
            requires
                whole > 0,
                extra * part <= whole * part,
                (extra * part) % whole != 0,
        ;
    }
}

/// The widths that are allotted never add up, with their separators, to
/// more than the limit, unless not even the widest words fit.
pub proof fn allocation_fits(stats: Seq<ColumnStat>, limit: nat)
    requires
        total(minima(stats)) + separators(stats.len()) < limit,
    ensures
        total(allocation(stats, Some(limit))) + separators(stats.len()) <= limit,
{
    let between = separators(stats.len());
    let based = total(bases(stats)) + between;
    lemma_bases_split(stats);
    if total(maxima(stats)) + between <= limit {
    } else if based < limit {
        let extra = (limit - based) as nat;
        let delta = total(headrooms(stats));
        let shares = Seq::new(stats.len(), |i: int| extra * stats[i].headroom() / delta);
        lemma_grown_total(stats, stats.len() as int, extra, delta);
        assert(headrooms(stats).take(stats.len() as int) =~= headrooms(stats));
        assert(total(shares) <= extra) by (nonlinear_arith)
            requires
                total(shares) * delta <= extra * delta,
                delta > 0,
        ;
        lemma_total_sum(bases(stats), shares);
        assert(grown(stats, extra) =~= Seq::new(
            stats.len(),
            |i: int| bases(stats)[i] + shares[i],
        ));
    } else if based == limit {
    } else {
        let extra = (based - limit) as nat;
        let delta = total(slacks(stats));
        let shares = Seq::new(stats.len(), |i: int| div_ceil(extra * stats[i].slack(), delta));
        lemma_shrunk_total(stats, stats.len() as int, extra, delta);
        assert(slacks(stats).take(stats.len() as int) =~= slacks(stats));
        assert(total(shares) >= extra) by (nonlinear_arith)
            requires
                total(shares) * delta >= extra * delta,
                delta > 0,
        ;
        assert forall|i: int| 0 <= i < stats.len() implies #[trigger] shares[i] <= bases(
            stats,
        )[i] by {
            lemma_share_bounded(extra, stats[i].slack(), delta);
        }
        lemma_total_sum(shrunk(stats, extra), shares);
        assert(bases(stats) =~= Seq::new(
            stats.len(),
            |i: int| shrunk(stats, extra)[i] + shares[i],
        ));
    }
}

/// The sum of the sums in each place is the sum of the two sums.
pub proof fn lemma_total_sum(a: Seq<nat>, b: Seq<nat>)
    requires
        a.len() == b.len(),
    ensures
        total(Seq::new(a.len(), |i: int| a[i] + b[i])) == total(a) + total(b),
    decreases a.len(),
{
    let sums = Seq::new(a.len(), |i: int| a[i] + b[i]);
    if a.len() > 0 {
        lemma_total_sum(a.drop_last(), b.drop_last());
        assert(sums.drop_last() =~= Seq::new(
            a.drop_last().len(),
            |i: int| a.drop_last()[i] + b.drop_last()[i],
        ));
    }
}

/// The five sums that the allocation rests on, over the first `k` columns.
struct Totals {
    min: u128,
    max: u128,
    base: u128,
    headroom: u128,
    slack: u128,
}

fn sum_columns(stats: &Vec<ColumnStat>) -> (sums: Totals)
    ensures
        sums.min == total(minima(stats@)),
        sums.max == total(maxima(stats@)),
        sums.base == total(bases(stats@)),
        sums.headroom == total(headrooms(stats@)),
        sums.slack == total(slacks(stats@)),
        sums.base <= stats@.len() * usize::MAX,
{
    let mut sums = Totals { min: 0, max: 0, base: 0, headroom: 0, slack: 0 };
    let mut i: usize = 0;
    while i < stats.len()
        invariant
            i <= stats.len(),
            sums.min == total(minima(stats@).take(i as int)),
            sums.max == total(maxima(stats@).take(i as int)),
            sums.base == total(bases(stats@).take(i as int)),
            sums.headroom == total(headrooms(stats@).take(i as int)),
            sums.slack == total(slacks(stats@).take(i as int)),
            sums.min <= i * usize::MAX,
            sums.max <= i * usize::MAX,
            sums.base <= i * usize::MAX,
            sums.headroom <= i * usize::MAX,
            sums.slack <= i * usize::MAX,
        decreases stats.len() - i,
    {
        let stat = &stats[i];
        let base = if stat.avg >= stat.min {
            stat.avg
        } else {
            stat.min
        };
        let headroom = if stat.max >= base {
            stat.max - base
        } else {
            0
        };
        proof {
            let k = i as int;
            assert(minima(stats@).take(k + 1).drop_last() =~= minima(stats@).take(k));
            assert(maxima(stats@).take(k + 1).drop_last() =~= maxima(stats@).take(k));
            assert(bases(stats@).take(k + 1).drop_last() =~= bases(stats@).take(k));
            assert(headrooms(stats@).take(k + 1).drop_last() =~= headrooms(stats@).take(k));
            assert(slacks(stats@).take(k + 1).drop_last() =~= slacks(stats@).take(k));
            assert(i * usize::MAX + usize::MAX == (i + 1) * usize::MAX) by (nonlinear_arith);
            assert((i + 1) * usize::MAX <= usize::MAX * usize::MAX) by (nonlinear_arith)
                requires
                    i + 1 <= usize::MAX,
            ;
            assert(usize::MAX * usize::MAX < u128::MAX) by (nonlinear_arith)
                requires
                    usize::MAX <= u64::MAX,
            ;
        }
        sums.min = sums.min + stat.min as u128;
        sums.max = sums.max + stat.max as u128;
        sums.base = sums.base + base as u128;
        sums.headroom = sums.headroom + headroom as u128;
        sums.slack = sums.slack + (base - stat.min) as u128;
        i += 1;
    }
    proof {
        let n = stats@.len() as int;
        assert(minima(stats@).take(n) =~= minima(stats@));
        assert(maxima(stats@).take(n) =~= maxima(stats@));
        assert(bases(stats@).take(n) =~= bases(stats@));
        assert(headrooms(stats@).take(n) =~= headrooms(stats@));
        assert(slacks(stats@).take(n) =~= slacks(stats@));
    }
    sums
}

/// The widths as mathematical values.
pub open spec fn widths_view(widths: Seq<usize>) -> Seq<nat> {
    Seq::new(widths.len(), |i: int| widths[i] as nat)
}

/// The limit as a mathematical value.
pub open spec fn limit_view(max_width: Option<usize>) -> Option<nat> {
    match max_width {
        Some(limit) => Some(limit as nat),
        None => None,
    }
}

/// Which of the ways to allot the widths applies.
enum Plan {
    Widest,
    Narrowest,
    Base,
    /// What is left over, and the headroom of all columns.
    Grow(u128, u128),
    /// The room above the minima, and the slack of all columns.
    Shrink(u128, u128),
}

/// Taking away a share of what is missing, rounded up, leaves the share of
/// the room that there is, rounded down.
pub proof fn lemma_shrink_share(room: nat, slack: nat, delta: nat)
    requires
        0 < room <= delta,
    ensures
        div_ceil(((delta - room) * slack) as nat, delta) == slack - room * slack / delta,
        room * slack / delta <= slack,
{
    let q = room * slack / delta;
    let m = room * slack % delta;
    let missing = (delta - room) * slack;
    lemma_share_bounded(room, slack, delta);
    assert(room * slack == q * delta + m && 0 <= m < delta) by (nonlinear_arith)
        requires
            delta > 0,
            q == room * slack / delta,
            m == room * slack % delta,
    ;
    assert(missing == delta * slack - room * slack) by (nonlinear_arith)
        requires
            missing == (delta - room) * slack,
    ;
    if m == 0 {
        assert(missing == (slack - q) * delta) by (nonlinear_arith)
            requires
                missing == delta * slack - room * slack,
                room * slack == q * delta,
        ;
        vstd::arithmetic::div_mod::lemma_fundamental_div_mod_converse(
            missing,
            delta as int,
            slack - q,
            0,
        );
    } else {
        assert(missing == (slack - q - 1) * delta + (delta - m)) by (nonlinear_arith)
            requires
                missing == delta * slack - room * slack,
                room * slack == q * delta + m,
        ;
        vstd::arithmetic::div_mod::lemma_fundamental_div_mod_converse(
            missing,
            delta as int,
            slack - q - 1,
            delta - m,
        );
    }
}

/// Allots a width to each column, under an optional limit on the width of
/// the whole table.
pub fn compute_widths(column_stats: Vec<ColumnStat>, max_width: Option<usize>) -> (widths: Vec<
    usize,
>)
    ensures
        widths_view(widths@) == allocation(column_stats@, limit_view(max_width)),
{
    let stats = &column_stats;
    let sums = sum_columns(stats);
    let ghost spec_stats = stats@;
    let ghost expected = allocation(spec_stats, limit_view(max_width));
    let plan = match max_width {
        None => Plan::Widest,
        Some(limit) => {
            proof {
                lemma_bases_split(spec_stats);
            }
            if stats.len() > 0 && stats.len() - 1 > limit / 3 {
                Plan::Narrowest
            } else {
                let between: usize = if stats.len() == 0 {
                    0
                } else {
                    3 * (stats.len() - 1)
                };
                assert(between == separators(spec_stats.len()));
                let available = (limit - between) as u128;
                if sums.max <= available {
                    Plan::Widest
                } else if sums.min >= available {
                    Plan::Narrowest
                } else if sums.base < available {
                    Plan::Grow(available - sums.base, sums.headroom)
                } else if sums.base == available {
                    Plan::Base
                } else {
                    Plan::Shrink(available - sums.min, sums.slack)
                }
            }
        },
    };
    let mut widths: Vec<usize> = Vec::new();
    let mut i: usize = 0;
    while i < stats.len()
        invariant
            i <= stats.len(),
            stats@ == spec_stats,
            widths@.len() == i,
            expected.len() == stats@.len(),
            forall|j: int| 0 <= j < i ==> widths@[j] as nat == expected[j],
            match plan {
                Plan::Widest => expected == maxima(spec_stats),
                Plan::Narrowest => expected == minima(spec_stats),
                Plan::Base => expected == bases(spec_stats),
                Plan::Grow(extra, delta) => {
                    &&& expected == grown(spec_stats, extra as nat)
                    &&& delta == total(headrooms(spec_stats))
                    &&& extra < delta
                    &&& extra <= usize::MAX
                },
                Plan::Shrink(room, delta) => {
                    &&& expected == shrunk(spec_stats, (delta - room) as nat)
                    &&& delta == total(slacks(spec_stats))
                    &&& 0 < room < delta
                    &&& room <= usize::MAX
                },
            },
        decreases stats.len() - i,
    {
        let stat = &stats[i];
        let base = if stat.avg >= stat.min {
            stat.avg
        } else {
            stat.min
        };
        proof {
            assert(usize::MAX * usize::MAX < u128::MAX) by (nonlinear_arith)
                requires
                    usize::MAX <= u64::MAX,
            ;
        }
        let width = match plan {
            Plan::Widest => stat.max,
            Plan::Narrowest => stat.min,
            Plan::Base => base,
            Plan::Grow(extra, delta) => {
                let headroom = if stat.max >= base {
                    stat.max - base
                } else {
                    0
                };
                proof {
                    lemma_share_bounded(extra as nat, headroom as nat, delta as nat);
                    assert(extra * headroom <= usize::MAX * usize::MAX) by (nonlinear_arith)
                        requires
                            extra <= usize::MAX,
                            headroom <= usize::MAX,
                    ;
                }
                let share = extra * (headroom as u128) / delta;
                base + share as usize
            },
            Plan::Shrink(room, delta) => {
                let slack = base - stat.min;
                proof {
                    lemma_shrink_share(room as nat, slack as nat, delta as nat);
                    assert(room * slack <= usize::MAX * usize::MAX) by (nonlinear_arith)
                        requires
                            room <= usize::MAX,
                            slack <= usize::MAX,
                    ;
                }
                let share = room * (slack as u128) / delta;
                stat.min + share as usize
            },
        };
        widths.push(width);
        i += 1;
    }
    assert(widths_view(widths@) =~= expected);
    widths
}

/// The greatest of `values`, or zero where there are none.
pub open spec fn greatest(values: Seq<nat>) -> nat
    decreases values.len(),
{
    if values.len() == 0 {
        0
    } else {
        let before = greatest(values.drop_last());
        if before >= values.last() {
            before
        } else {
            values.last()
        }
    }
}

/// The display width of each of `pieces`.
pub open spec fn widths_of(pieces: Seq<Seq<char>>) -> Seq<nat> {
    Seq::new(pieces.len(), |i: int| display_width(pieces[i]))
}

/// The width of the widest word of `text`.
pub open spec fn widest_word(text: Seq<char>) -> nat {
    greatest(widths_of(words(text)))
}

/// The width of the widest line of `text`.
pub open spec fn widest_line(text: Seq<char>) -> nat {
    greatest(widths_of(split(text, '\n')))
}

/// The cells of column `c` in the first `k` rows, skipping the rows that
/// are too short to have one.
pub open spec fn column_cells(texts: Seq<Seq<Seq<char>>>, c: int, k: nat) -> Seq<Seq<char>>
    decreases k,
{
    if k == 0 || k > texts.len() {
        Seq::empty()
    } else if 0 <= c < texts[k - 1].len() {
        column_cells(texts, c, (k - 1) as nat).push(texts[k - 1][c])
    } else {
        column_cells(texts, c, (k - 1) as nat)
    }
}

/// The number of columns: the length of the longest row.
pub open spec fn column_count(texts: Seq<Seq<Seq<char>>>) -> nat {
    greatest(Seq::new(texts.len(), |i: int| texts[i].len()))
}

/// The statistics of a column with these cells: the widest word, the mean
/// of the widest lines, rounded down, and the widest line.
pub open spec fn column_stat(cells: Seq<Seq<char>>) -> ColumnStat {
    let lines = Seq::new(cells.len(), |i: int| widest_line(cells[i]));
    ColumnStat {
        min: greatest(Seq::new(cells.len(), |i: int| widest_word(cells[i]))) as usize,
        avg: (total(lines) / cells.len()) as usize,
        max: greatest(lines) as usize,
    }
}

/// The statistics of each column of a table whose cells render to `texts`.
pub open spec fn column_stats(texts: Seq<Seq<Seq<char>>>) -> Seq<ColumnStat> {
    Seq::new(
        column_count(texts),
        |c: int| column_stat(column_cells(texts, c, texts.len())),
    )
}

/// The texts of a table, row by row, as mathematical values.
pub open spec fn texts_view(texts: Seq<Vec<String>>) -> Seq<Seq<Seq<char>>> {
    Seq::new(texts.len(), |i: int| Seq::new(texts[i]@.len(), |j: int| texts[i]@[j]@))
}

/// A list of texts as mathematical values.
pub open spec fn pieces_view(pieces: Seq<Vec<char>>) -> Seq<Seq<char>> {
    Seq::new(pieces.len(), |i: int| pieces[i]@)
}

proof fn lemma_greatest_push(values: Seq<nat>, value: nat)
    ensures
        greatest(values.push(value)) == (if greatest(values) >= value {
            greatest(values)
        } else {
            value
        }),
{
    assert(values.push(value).drop_last() =~= values);
}

/// The greatest of some values is one of them and no less than any.
pub proof fn lemma_greatest(values: Seq<nat>)
    ensures
        forall|i: int| 0 <= i < values.len() ==> values[i] <= greatest(values),
        values.len() > 0 ==> exists|i: int| 0 <= i < values.len() && values[i] == greatest(values),
    decreases values.len(),
{
    if values.len() > 0 {
        let front = values.drop_last();
        lemma_greatest(front);
        assert forall|i: int| 0 <= i < values.len() implies values[i] <= greatest(values) by {
            if i < front.len() {
                assert(values[i] == front[i]);
            }
        }
        if front.len() > 0 && greatest(front) >= values.last() {
            let i = choose|i: int| 0 <= i < front.len() && front[i] == greatest(front);
            assert(values[i] == greatest(values));
        } else {
            assert(values[values.len() - 1] == greatest(values));
        }
    }
}

/// The width of the widest of `pieces`.
fn widest(pieces: &Vec<Vec<char>>) -> (columns: usize)
    ensures
        columns == greatest(widths_of(pieces_view(pieces@))),
{
    let mut columns: usize = 0;
    let mut i: usize = 0;
    let ghost all = widths_of(pieces_view(pieces@));
    while i < pieces.len()
        invariant
            i <= pieces.len(),
            all == widths_of(pieces_view(pieces@)),
            columns == greatest(all.take(i as int)),
        decreases pieces.len() - i,
    {
        let piece = width(pieces[i].as_slice());
        proof {
            assert(all.take(i + 1) =~= all.take(i as int).push(all[i as int]));
            lemma_greatest_push(all.take(i as int), all[i as int]);
        }
        if piece > columns {
            columns = piece;
        }
        i += 1;
    }
    assert(all.take(pieces.len() as int) =~= all);
    columns
}

/// Measures the widest word and the widest line of `text`.
fn measure(text: &str) -> (measured: (usize, usize))
    ensures
        measured.0 == widest_word(text@),
        measured.1 == widest_line(text@),
{
    let chars = to_chars(text);
    let found = find_words(chars.as_slice());
    let lines = split_at(chars.as_slice(), '\n');
    assert(pieces_view(found@) =~= words(text@));
    assert(pieces_view(lines@) =~= split(text@, '\n'));
    (widest(&found), widest(&lines))
}

/// The statistics of each column of a table, from the texts that its cells
/// render to when nothing limits their width.
pub fn measure_columns(texts: &Vec<Vec<String>>) -> (stats: Vec<ColumnStat>)
    ensures
        stats@ == column_stats(texts_view(texts@)),
{
    let ghost view = texts_view(texts@);
    let ghost lens = Seq::new(view.len(), |i: int| view[i].len());
    let mut columns: usize = 0;
    let mut i: usize = 0;
    while i < texts.len()
        invariant
            i <= texts.len(),
            view == texts_view(texts@),
            lens == Seq::new(view.len(), |i: int| view[i].len()),
            columns == greatest(lens.take(i as int)),
        decreases texts.len() - i,
    {
        proof {
            assert(lens.take(i + 1) =~= lens.take(i as int).push(lens[i as int]));
            lemma_greatest_push(lens.take(i as int), lens[i as int]);
        }
        if texts[i].len() > columns {
            columns = texts[i].len();
        }
        i += 1;
    }
    assert(lens.take(texts.len() as int) =~= lens);
    assert(columns == column_count(view));
    let mut stats: Vec<ColumnStat> = Vec::new();
    let mut c: usize = 0;
    while c < columns
        invariant
            c <= columns,
            columns == column_count(view),
            view == texts_view(texts@),
            stats@.len() == c,
            forall|j: int| 0 <= j < c ==> stats@[j] == column_stat(
                column_cells(view, j, view.len()),
            ),
        decreases columns - c,
    {
        let stat = measure_column(texts, c);
        stats.push(stat);
        c += 1;
    }
    assert(stats@ =~= column_stats(view));
    stats
}

/// The statistics of column `c`.
fn measure_column(texts: &Vec<Vec<String>>, c: usize) -> (stat: ColumnStat)
    requires
        c < column_count(texts_view(texts@)),
    ensures
        stat == column_stat(column_cells(texts_view(texts@), c as int, texts@.len())),
{
    let ghost view = texts_view(texts@);
    let mut count: usize = 0;
    let mut min: usize = 0;
    let mut max: usize = 0;
    let mut sum: u128 = 0;
    let mut i: usize = 0;
    while i < texts.len()
        invariant
            i <= texts.len(),
            view == texts_view(texts@),
            count == column_cells(view, c as int, i as nat).len(),
            count <= i,
            min == greatest(
                Seq::new(
                    count as nat,
                    |k: int| widest_word(column_cells(view, c as int, i as nat)[k]),
                ),
            ),
            max == greatest(
                Seq::new(
                    count as nat,
                    |k: int| widest_line(column_cells(view, c as int, i as nat)[k]),
                ),
            ),
            sum == total(
                Seq::new(
                    count as nat,
                    |k: int| widest_line(column_cells(view, c as int, i as nat)[k]),
                ),
            ),
            sum <= count * usize::MAX,
        decreases texts.len() - i,
    {
        let ghost before = column_cells(view, c as int, i as nat);
        let ghost words_before = Seq::new(count as nat, |k: int| widest_word(before[k]));
        let ghost lines_before = Seq::new(count as nat, |k: int| widest_line(before[k]));
        if c < texts[i].len() {
            let (word, line) = measure(texts[i][c].as_str());
            proof {
                let now = column_cells(view, c as int, (i + 1) as nat);
                assert(now == before.push(view[i as int][c as int]));
                assert(Seq::new((count + 1) as nat, |k: int| widest_word(now[k]))
                    =~= words_before.push(word as nat));
                assert(Seq::new((count + 1) as nat, |k: int| widest_line(now[k]))
                    =~= lines_before.push(line as nat));
                lemma_greatest_push(words_before, word as nat);
                lemma_greatest_push(lines_before, line as nat);
                lemma_total_push(lines_before, line as nat);
                assert(count * usize::MAX + usize::MAX == (count + 1) * usize::MAX)
                    by (nonlinear_arith);
                assert((count + 1) * usize::MAX <= usize::MAX * usize::MAX) by (nonlinear_arith)
                    requires
                        count + 1 <= usize::MAX,
                ;
                assert(usize::MAX * usize::MAX < u128::MAX) by (nonlinear_arith)
                    requires
                        usize::MAX <= u64::MAX,
                ;
            }
            count += 1;
            if word > min {
                min = word;
            }
            if line > max {
                max = line;
            }
            sum = sum + line as u128;
        } else {
            proof {
                let now = column_cells(view, c as int, (i + 1) as nat);
                assert(now == before);
            }
        }
        i += 1;
    }
    let ghost cells = column_cells(view, c as int, texts@.len());
    let ghost lines = Seq::new(cells.len(), |k: int| widest_line(cells[k]));
    proof {
        let lens = Seq::new(view.len(), |i: int| view[i].len());
        assert(lens.take(view.len() as int) =~= lens);
        lemma_column_present(view, c as int, view.len());
        lemma_greatest(lines);
        lemma_total_bounded(lines, max as nat);
        assert(total(lines) / cells.len() <= max) by (nonlinear_arith)
            requires
                total(lines) <= cells.len() * max,
                cells.len() > 0,
        ;
    }
    let avg = (sum / count as u128) as usize;
    ColumnStat { min, avg, max }
}

/// A sum of values that are each at most `bound` is at most as many times
/// the bound.
pub proof fn lemma_total_bounded(values: Seq<nat>, bound: nat)
    requires
        forall|i: int| 0 <= i < values.len() ==> values[i] <= bound,
    ensures
        total(values) <= values.len() * bound,
    decreases values.len(),
{
    if values.len() > 0 {
        lemma_total_bounded(values.drop_last(), bound);
        assert((values.len() - 1) * bound + bound == values.len() * bound) by (nonlinear_arith);
    } else {
        assert(0 * bound == 0) by (nonlinear_arith);
    }
}

/// A column within the column count has a cell in some row.
proof fn lemma_column_present(texts: Seq<Seq<Seq<char>>>, c: int, k: nat)
    requires
        k <= texts.len(),
        0 <= c,
    ensures
        c < greatest(Seq::new(texts.len(), |i: int| texts[i].len()).take(k as int))
            ==> column_cells(texts, c, k).len() > 0,
    decreases k,
{
    let lens = Seq::new(texts.len(), |i: int| texts[i].len());
    if k > 0 {
        lemma_column_present(texts, c, (k - 1) as nat);
        assert(lens.take(k as int) =~= lens.take(k - 1).push(lens[k - 1]));
        lemma_greatest_push(lens.take(k - 1), lens[k - 1]);
    }
    if k == texts.len() {
        assert(lens.take(k as int) =~= lens);
    }
}

/// The elements among the first `k` children of `element`.
pub open spec fn child_elements(element: HtmlElement, k: nat) -> Seq<HtmlNode>
    decreases k,
{
    if k == 0 || k > element.children@.len() {
        Seq::empty()
    } else if element.children@[k - 1] is Element {
        child_elements(element, (k - 1) as nat).push(element.children@[k - 1])
    } else {
        child_elements(element, (k - 1) as nat)
    }
}

/// The elements named `name` among the first `k` children of `element`.
pub open spec fn named_children(element: HtmlElement, name: Seq<char>, k: nat) -> Seq<HtmlNode>
    decreases k,
{
    if k == 0 || k > element.children@.len() {
        Seq::empty()
    } else if named(element.children@[k - 1], name) {
        named_children(element, name, (k - 1) as nat).push(element.children@[k - 1])
    } else {
        named_children(element, name, (k - 1) as nat)
    }
}

/// The child of `element` that is named `name`, where there is exactly one.
pub open spec fn only_child(element: HtmlElement, name: Seq<char>) -> Option<HtmlNode> {
    let found = named_children(element, name, element.children@.len());
    if found.len() == 1 {
        Some(found[0])
    } else {
        None
    }
}

/// The elements that `node` holds.
pub open spec fn elements_of(node: HtmlNode) -> Seq<HtmlNode> {
    match node {
        HtmlNode::Element(element) => child_elements(element, element.children@.len()),
        _ => Seq::empty(),
    }
}

/// The rows of a part of a table, where the table has that part.
pub open spec fn section_rows(section: Option<HtmlNode>) -> Seq<HtmlNode> {
    match section {
        Some(node) => elements_of(node),
        None => Seq::empty(),
    }
}

/// The rows of the head of a table.
pub open spec fn header_rows(table: HtmlElement) -> Seq<HtmlNode> {
    section_rows(only_child(table, "thead"@))
}

/// The rows of the body of a table: those of its `tbody`, or without one
/// the rows that the table holds directly.
pub open spec fn body_rows(table: HtmlElement) -> Seq<HtmlNode> {
    match only_child(table, "tbody"@) {
        Some(node) => elements_of(node),
        None => named_children(table, "tr"@, table.children@.len()),
    }
}

/// The rows of the foot of a table.
pub open spec fn footer_rows(table: HtmlElement) -> Seq<HtmlNode> {
    section_rows(only_child(table, "tfoot"@))
}

/// All rows of a table: head, body, foot.
pub open spec fn table_rows(table: HtmlElement) -> Seq<HtmlNode> {
    header_rows(table) + body_rows(table) + footer_rows(table)
}

/// The width that a cell is wrapped to: none where the column has no width.
pub open spec fn cell_limit(width: nat) -> Option<nat> {
    if width == 0 {
        None
    } else {
        Some(width)
    }
}

/// The limit for the cell in column `j`: that of its column, or none where
/// no widths are given.
pub open spec fn limit_at(widths: Option<Seq<nat>>, j: int) -> Option<nat> {
    match widths {
        Some(widths) => cell_limit(widths[j]),
        None => None,
    }
}

/// How many cells of a row with `cells` cells are rendered: all of them, or
/// with widths given no more than there are widths.
pub open spec fn cells_shown(widths: Option<Seq<nat>>, cells: nat) -> nat {
    match widths {
        Some(widths) => if cells <= widths.len() {
            cells
        } else {
            widths.len()
        },
        None => cells,
    }
}

/// The text that the cell in row `i` and column `j` of `table` renders to.
pub open spec fn cell_text(
    table: HtmlElement,
    i: int,
    j: int,
    url: Seq<char>,
    max_width: Option<nat>,
) -> Seq<char>
    decreases element_height(table), 0nat, 0nat,
{
    if 0 <= i < table_rows(table).len() && 0 <= j < elements_of(table_rows(table)[i]).len() {
        proof {
            lemma_cell_height(table, i, j);
        }
        rendered(elements_of(table_rows(table)[i])[j], url, max_width)
    } else {
        Seq::empty()
    }
}

/// The texts that the cells of `table` render to, row by row: each within
/// the width of its column, or without any limit where no widths are given.
pub open spec fn cell_texts(table: HtmlElement, url: Seq<char>, widths: Option<Seq<nat>>) -> Seq<
    Seq<Seq<char>>,
>
    decreases element_height(table), 0nat, 1nat,
{
    Seq::new(
        table_rows(table).len(),
        |i: int|
            Seq::new(
                cells_shown(widths, elements_of(table_rows(table)[i]).len()),
                |j: int| cell_text(table, i, j, url, limit_at(widths, j)),
            ),
    )
}

/// The text that `table` renders to under an optional limit on its width:
/// nothing where it has no rows, and otherwise its cells in a grid whose
/// columns are as wide as the allocation says.
pub open spec fn table_text(table: HtmlElement, url: Seq<char>, max_width: Option<nat>) -> Seq<
    char,
>
    decreases element_height(table), 1nat, 0nat,
{
    if table_rows(table).len() == 0 {
        Seq::empty()
    } else {
        let widths = allocation(column_stats(cell_texts(table, url, None)), max_width);
        grid(
            cell_texts(table, url, Some(widths)),
            widths,
            header_rows(table).len(),
            footer_rows(table).len(),
        )
    }
}

/// A child that is an element is less high than its parent, and so is
/// every element among the children.
proof fn lemma_child_elements_height(element: HtmlElement, k: nat, i: int)
    requires
        k <= element.children@.len(),
        0 <= i < child_elements(element, k).len(),
    ensures
        height(child_elements(element, k)[i]) < element_height(element),
        child_elements(element, k)[i] is Element,
    decreases k,
{
    if k > 0 {
        if element.children@[k - 1] is Element {
            if i < child_elements(element, (k - 1) as nat).len() {
                lemma_child_elements_height(element, (k - 1) as nat, i);
            } else {
                lemma_child_height(element, k - 1);
            }
        } else {
            lemma_child_elements_height(element, (k - 1) as nat, i);
        }
    }
}

proof fn lemma_named_children_height(element: HtmlElement, name: Seq<char>, k: nat, i: int)
    requires
        k <= element.children@.len(),
        0 <= i < named_children(element, name, k).len(),
    ensures
        height(named_children(element, name, k)[i]) < element_height(element),
        named_children(element, name, k)[i] is Element,
    decreases k,
{
    if k > 0 {
        if named(element.children@[k - 1], name) {
            if i < named_children(element, name, (k - 1) as nat).len() {
                lemma_named_children_height(element, name, (k - 1) as nat, i);
            } else {
                lemma_child_height(element, k - 1);
            }
        } else {
            lemma_named_children_height(element, name, (k - 1) as nat, i);
        }
    }
}

proof fn lemma_section_height(table: HtmlElement, name: Seq<char>, i: int)
    requires
        0 <= i < section_rows(only_child(table, name)).len(),
    ensures
        height(section_rows(only_child(table, name))[i]) + 1 < element_height(table),
{
    let found = named_children(table, name, table.children@.len());
    lemma_named_children_height(table, name, table.children@.len(), 0);
    let section = found[0]->Element_0;
    lemma_child_elements_height(section, section.children@.len(), i);
}

/// A row is less high than its table by two levels at least, or by one
/// where the table holds it directly.
proof fn lemma_row_height(table: HtmlElement, i: int)
    requires
        0 <= i < table_rows(table).len(),
    ensures
        height(table_rows(table)[i]) < element_height(table),
{
    let head = header_rows(table);
    let body = body_rows(table);
    if i < head.len() {
        lemma_section_height(table, "thead"@, i);
    } else if i < head.len() + body.len() {
        let at = i - head.len();
        match only_child(table, "tbody"@) {
            Some(node) => {
                lemma_section_height(table, "tbody"@, at);
            },
            None => {
                lemma_named_children_height(table, "tr"@, table.children@.len(), at);
            },
        }
    } else {
        lemma_section_height(table, "tfoot"@, i - head.len() - body.len());
    }
}

/// A cell is less high than its table.
pub proof fn lemma_cell_height(table: HtmlElement, i: int, j: int)
    requires
        0 <= i < table_rows(table).len(),
        0 <= j < elements_of(table_rows(table)[i]).len(),
    ensures
        height(elements_of(table_rows(table)[i])[j]) < element_height(table),
{
    lemma_row_height(table, i);
    let row = table_rows(table)[i]->Element_0;
    lemma_child_elements_height(row, row.children@.len(), j);
}

/// The line that separates the head or the foot from the body, over the
/// first `k` columns: each column filled with `fill`, and a bar between
/// each two.
pub open spec fn rule(widths: Seq<nat>, k: nat, fill: char) -> Seq<char>
    decreases k,
{
    if k == 0 || k > widths.len() {
        Seq::empty()
    } else if k == 1 {
        repeated(fill, widths[0])
    } else {
        rule(widths, (k - 1) as nat, fill) + seq![fill, '|', fill] + repeated(fill, widths[k - 1])
    }
}

/// `content` with spaces behind it up to `width` columns.
pub open spec fn padded(content: Seq<char>, width: nat) -> Seq<char> {
    let taken = display_width(content);
    if taken < width {
        content + repeated(' ', (width - taken) as nat)
    } else {
        content
    }
}

/// Line `line` of a cell, or nothing where the cell has fewer lines.
pub open spec fn cell_line(lines: Seq<Seq<char>>, line: int) -> Seq<char> {
    if 0 <= line < lines.len() {
        lines[line]
    } else {
        Seq::empty()
    }
}

/// What stands between two cells: a bar on the first line of a row, and
/// blanks on the others.
pub open spec fn cell_separator(line: int) -> Seq<char> {
    if line == 0 {
        seq![' ', '|', ' ']
    } else {
        seq![' ', ' ', ' ']
    }
}

/// The first `k` cells of physical line `line` of a row, each padded to the
/// width of its column.
pub open spec fn line_cells(cells: Seq<Seq<Seq<char>>>, widths: Seq<nat>, line: int, k: nat) -> Seq<
    char,
>
    decreases k,
{
    if k == 0 || k > cells.len() || k > widths.len() {
        Seq::empty()
    } else if k == 1 {
        padded(cell_line(cells[0], line), widths[0])
    } else {
        line_cells(cells, widths, line, (k - 1) as nat) + cell_separator(line) + padded(
            cell_line(cells[k - 1], line),
            widths[k - 1],
        )
    }
}

/// How many cells of a row are written: those that have a column.
pub open spec fn shown(cells: Seq<Seq<Seq<char>>>, widths: Seq<nat>) -> nat {
    if cells.len() <= widths.len() {
        cells.len()
    } else {
        widths.len()
    }
}

/// The output after the first `count` physical lines of a row are added to
/// `before`. After each line the whitespace at the end of the output is
/// taken off.
pub open spec fn row_lines(
    before: Seq<char>,
    cells: Seq<Seq<Seq<char>>>,
    widths: Seq<nat>,
    count: nat,
) -> Seq<char>
    decreases count,
{
    if count == 0 {
        before
    } else {
        let above = row_lines(before, cells, widths, (count - 1) as nat);
        let started = if count > 1 {
            above.push('\n')
        } else {
            above
        };
        trim_end(started + line_cells(cells, widths, count - 1, shown(cells, widths)))
    }
}

/// The lines of each cell of a row.
pub open spec fn lines_of(row: Seq<Seq<char>>) -> Seq<Seq<Seq<char>>> {
    Seq::new(row.len(), |j: int| split(row[j], '\n'))
}

/// How many physical lines a row takes: as many as its longest cell.
pub open spec fn line_count(cells: Seq<Seq<Seq<char>>>) -> nat {
    greatest(Seq::new(cells.len(), |j: int| cells[j].len()))
}

/// The output after the first `k` rows. A rule of `-` stands above the
/// first row of the foot and a rule of `=` below the last row of the head.
pub open spec fn rows_rendered(
    texts: Seq<Seq<Seq<char>>>,
    widths: Seq<nat>,
    headers: nat,
    footers: nat,
    k: nat,
) -> Seq<char>
    decreases k,
{
    if k == 0 || k > texts.len() {
        Seq::empty()
    } else {
        let above = rows_rendered(texts, widths, headers, footers, (k - 1) as nat);
        let started = if k > 1 {
            above.push('\n')
        } else {
            above
        };
        let ruled = if k - 1 + footers == texts.len() {
            (started + rule(widths, widths.len(), '-')).push('\n')
        } else {
            started
        };
        let cells = lines_of(texts[k - 1]);
        let filled = row_lines(ruled, cells, widths, line_count(cells));
        if k == headers {
            filled.push('\n') + rule(widths, widths.len(), '=')
        } else {
            filled
        }
    }
}

/// The grid that the texts of the cells make, in columns of the given
/// widths.
pub open spec fn grid(texts: Seq<Seq<Seq<char>>>, widths: Seq<nat>, headers: nat, footers: nat) -> Seq<
    char,
> {
    rows_rendered(texts, widths, headers, footers, texts.len())
}

/// The rows of a table, each with its cells, and how many of the rows
/// belong to the head and to the foot.
pub struct Table<'a> {
    pub data: Vec<Vec<&'a HtmlNode>>,
    pub headers: usize,
    pub footers: usize,
}

/// Whether `found` holds the nodes `expected`, in order.
pub open spec fn holds(found: Seq<&HtmlNode>, expected: Seq<HtmlNode>) -> bool {
    &&& found.len() == expected.len()
    &&& forall|i: int| 0 <= i < found.len() ==> *#[trigger] found[i] == expected[i]
}

/// The children of `element` that are elements.
fn child_element_nodes<'a>(element: &'a HtmlElement) -> (found: Vec<&'a HtmlNode>)
    ensures
        holds(found@, child_elements(*element, element.children@.len())),
{
    let mut found: Vec<&HtmlNode> = Vec::new();
    let mut k: usize = 0;
    while k < element.children.len()
        invariant
            k <= element.children.len(),
            holds(found@, child_elements(*element, k as nat)),
        decreases element.children.len() - k,
    {
        if let HtmlNode::Element(_) = &element.children[k] {
            found.push(&element.children[k]);
        }
        k += 1;
    }
    found
}

/// The children of `element` that are elements named `name`.
fn named_child_nodes<'a>(element: &'a HtmlElement, name: &str) -> (found: Vec<&'a HtmlNode>)
    ensures
        holds(found@, named_children(*element, name@, element.children@.len())),
{
    let mut found: Vec<&HtmlNode> = Vec::new();
    let mut k: usize = 0;
    while k < element.children.len()
        invariant
            k <= element.children.len(),
            holds(found@, named_children(*element, name@, k as nat)),
        decreases element.children.len() - k,
    {
        if super::dom::is_named(&element.children[k], name) {
            found.push(&element.children[k]);
        }
        k += 1;
    }
    found
}

/// The elements that `node` holds.
fn element_nodes<'a>(node: &'a HtmlNode) -> (found: Vec<&'a HtmlNode>)
    ensures
        holds(found@, elements_of(*node)),
{
    match node {
        HtmlNode::Element(element) => child_element_nodes(element),
        _ => Vec::new(),
    }
}

/// The rows of the part of `table` that is named `name`.
fn section_nodes<'a>(table: &'a HtmlElement, name: &str) -> (found: Vec<&'a HtmlNode>)
    ensures
        holds(found@, section_rows(only_child(*table, name@))),
{
    let sections = named_child_nodes(table, name);
    if sections.len() == 1 {
        element_nodes(sections[0])
    } else {
        Vec::new()
    }
}

/// The rows of the body of `table`.
fn body_nodes<'a>(table: &'a HtmlElement) -> (found: Vec<&'a HtmlNode>)
    ensures
        holds(found@, body_rows(*table)),
{
    let sections = named_child_nodes(table, "tbody");
    if sections.len() == 1 {
        element_nodes(sections[0])
    } else {
        named_child_nodes(table, "tr")
    }
}

impl<'a> Table<'a> {
    /// Whether this is what `table` parses to.
    pub open spec fn parsed_from(self, table: HtmlElement) -> bool {
        &&& self.headers == header_rows(table).len()
        &&& self.footers == footer_rows(table).len()
        &&& self.data@.len() == table_rows(table).len()
        &&& forall|i: int|
            0 <= i < self.data@.len() ==> holds(
                (#[trigger] self.data@[i])@,
                elements_of(table_rows(table)[i]),
            )
    }
}

/// Finds the rows of a table and the cells of each row.
pub fn parse_table<'a>(table: &'a HtmlElement) -> (parsed: Table<'a>)
    ensures
        parsed.parsed_from(*table),
{
    let header = section_nodes(table, "thead");
    let body = body_nodes(table);
    let footer = section_nodes(table, "tfoot");
    let headers = header.len();
    let footers = footer.len();
    let mut data: Vec<Vec<&HtmlNode>> = Vec::new();
    collect_rows(&header, &mut data, Ghost(Seq::empty()));
    collect_rows(&body, &mut data, Ghost(header_rows(*table)));
    collect_rows(&footer, &mut data, Ghost(header_rows(*table) + body_rows(*table)));
    Table { data, headers, footers }
}

/// Adds the cells of each of `rows` to `data`.
fn collect_rows<'a>(
    rows: &Vec<&'a HtmlNode>,
    data: &mut Vec<Vec<&'a HtmlNode>>,
    Ghost(before): Ghost<Seq<HtmlNode>>,
)
    requires
        old(data)@.len() == before.len(),
        forall|i: int|
            0 <= i < old(data)@.len() ==> holds(
                (#[trigger] old(data)@[i])@,
                elements_of(before[i]),
            ),
    ensures
        final(data)@.len() == before.len() + rows@.len(),
        forall|i: int|
            0 <= i < final(data)@.len() ==> holds(
                (#[trigger] final(data)@[i])@,
                elements_of((before + Seq::new(rows@.len(), |j: int| *rows@[j]))[i]),
            ),
{
    let ghost added = Seq::new(rows@.len(), |j: int| *rows@[j]);
    let mut k: usize = 0;
    while k < rows.len()
        invariant
            k <= rows.len(),
            added == Seq::new(rows@.len(), |j: int| *rows@[j]),
            data@.len() == before.len() + k,
            forall|i: int|
                0 <= i < data@.len() ==> holds(
                    (#[trigger] data@[i])@,
                    elements_of((before + added)[i]),
                ),
        decreases rows.len() - k,
    {
        let cells = element_nodes(rows[k]);
        data.push(cells);
        k += 1;
    }
}

/// The lines of the cells of a row as mathematical values.
pub open spec fn lines_view(lines: Seq<Vec<Vec<char>>>) -> Seq<Seq<Seq<char>>> {
    Seq::new(lines.len(), |j: int| pieces_view(lines[j]@))
}

/// Writes the rule that separates the head or the foot from the body.
fn push_rule(out: &mut Vec<char>, widths: &Vec<usize>, fill: char)
    ensures
        final(out)@ == old(out)@ + rule(widths_view(widths@), widths@.len(), fill),
{
    let ghost view = widths_view(widths@);
    let mut k: usize = 0;
    assert(out@ =~= old(out)@ + rule(view, 0, fill));
    while k < widths.len()
        invariant
            k <= widths.len(),
            view == widths_view(widths@),
            out@ == old(out)@ + rule(view, k as nat, fill),
        decreases widths.len() - k,
    {
        let ghost before = out@;
        if k > 0 {
            out.push(fill);
            out.push('|');
            out.push(fill);
        }
        extend_repeated(out, fill, widths[k]);
        k += 1;
        proof {
            if k == 1 {
                assert(out@ =~= old(out)@ + rule(view, 1, fill));
            } else {
                assert(out@ =~= before + seq![fill, '|', fill] + repeated(fill, view[k - 1]));
                assert(out@ =~= old(out)@ + rule(view, k as nat, fill));
            }
        }
    }
}

/// Writes `content` and pads it to `columns` columns.
fn push_cell(out: &mut Vec<char>, content: &[char], columns: usize)
    ensures
        final(out)@ == old(out)@ + padded(content@, columns as nat),
{
    extend(out, content);
    let taken = width(content);
    if taken < columns {
        extend_repeated(out, ' ', columns - taken);
    }
    assert(out@ =~= old(out)@ + padded(content@, columns as nat));
}

/// Writes one physical line of a row.
fn push_line(out: &mut Vec<char>, cells: &Vec<Vec<Vec<char>>>, widths: &Vec<usize>, line: usize)
    ensures
        final(out)@ == old(out)@ + line_cells(
            lines_view(cells@),
            widths_view(widths@),
            line as int,
            shown(lines_view(cells@), widths_view(widths@)),
        ),
{
    let ghost lines = lines_view(cells@);
    let ghost view = widths_view(widths@);
    let count = if cells.len() <= widths.len() {
        cells.len()
    } else {
        widths.len()
    };
    let mut k: usize = 0;
    assert(out@ =~= old(out)@ + line_cells(lines, view, line as int, 0));
    while k < count
        invariant
            k <= count,
            count == shown(lines, view),
            lines == lines_view(cells@),
            view == widths_view(widths@),
            out@ == old(out)@ + line_cells(lines, view, line as int, k as nat),
        decreases count - k,
    {
        let ghost before = out@;
        if k > 0 {
            out.push(' ');
            out.push(if line == 0 {
                '|'
            } else {
                ' '
            });
            out.push(' ');
        }
        let ghost content = cell_line(lines[k as int], line as int);
        let nothing: Vec<char> = Vec::new();
        let text: &[char] = if line < cells[k].len() {
            cells[k][line].as_slice()
        } else {
            nothing.as_slice()
        };
        assert(text@ =~= content);
        push_cell(out, text, widths[k]);
        k += 1;
        proof {
            let cell = padded(content, view[k - 1]);
            if k == 1 {
                assert(out@ =~= old(out)@ + cell);
            } else {
                assert(out@ =~= before + cell_separator(line as int) + cell);
                assert(out@ =~= old(out)@ + line_cells(lines, view, line as int, k as nat));
            }
        }
    }
}

/// Writes the physical lines of a row.
fn push_row(out: &mut Vec<char>, row: &Vec<String>, widths: &Vec<usize>)
    ensures
        final(out)@ == row_lines(
            old(out)@,
            lines_of(Seq::new(row@.len(), |j: int| row@[j]@)),
            widths_view(widths@),
            line_count(lines_of(Seq::new(row@.len(), |j: int| row@[j]@))),
        ),
{
    let ghost texts = Seq::new(row@.len(), |j: int| row@[j]@);
    let ghost lens = Seq::new(row@.len(), |j: int| lines_of(texts)[j].len());
    let mut cells: Vec<Vec<Vec<char>>> = Vec::new();
    let mut count: usize = 0;
    let mut j: usize = 0;
    while j < row.len()
        invariant
            j <= row.len(),
            texts == Seq::new(row@.len(), |j: int| row@[j]@),
            lens == Seq::new(row@.len(), |j: int| lines_of(texts)[j].len()),
            cells@.len() == j,
            forall|i: int| 0 <= i < j ==> pieces_view((#[trigger] cells@[i])@) == lines_of(texts)[i],
            count == greatest(lens.take(j as int)),
        decreases row.len() - j,
    {
        let chars = to_chars(row[j].as_str());
        let lines = split_at(chars.as_slice(), '\n');
        assert(pieces_view(lines@) =~= lines_of(texts)[j as int]);
        proof {
            assert(lens.take(j + 1) =~= lens.take(j as int).push(lens[j as int]));
            lemma_greatest_push(lens.take(j as int), lens[j as int]);
        }
        if lines.len() > count {
            count = lines.len();
        }
        cells.push(lines);
        j += 1;
    }
    assert(lens.take(row@.len() as int) =~= lens);
    assert(lines_view(cells@) =~= lines_of(texts));
    assert(count == line_count(lines_of(texts)));
    let mut line: usize = 0;
    while line < count
        invariant
            line <= count,
            lines_view(cells@) == lines_of(texts),
            out@ == row_lines(old(out)@, lines_of(texts), widths_view(widths@), line as nat),
        decreases count - line,
    {
        if line > 0 {
            out.push('\n');
        }
        push_line(out, &cells, widths, line);
        let kept = trimmed_len(out.as_slice());
        out.truncate(kept);
        line += 1;
    }
}

/// Lays the texts of the cells of a table out in columns of the given
/// widths. The first `headers` rows are the head and the last `footers`
/// the foot.
pub fn render_grid(texts: &Vec<Vec<String>>, widths: &Vec<usize>, headers: usize, footers: usize) -> (out:
    String)
    ensures
        out@ == grid(texts_view(texts@), widths_view(widths@), headers as nat, footers as nat),
{
    let ghost view = texts_view(texts@);
    let ghost columns = widths_view(widths@);
    let mut out: Vec<char> = Vec::new();
    let mut i: usize = 0;
    while i < texts.len()
        invariant
            i <= texts.len(),
            view == texts_view(texts@),
            columns == widths_view(widths@),
            out@ == rows_rendered(view, columns, headers as nat, footers as nat, i as nat),
        decreases texts.len() - i,
    {
        if i > 0 {
            out.push('\n');
        }
        if footers <= texts.len() && i == texts.len() - footers {
            push_rule(&mut out, widths, '-');
            out.push('\n');
        }
        assert(Seq::new(texts@[i as int]@.len(), |j: int| texts@[i as int]@[j]@) =~= view[i as int]);
        push_row(&mut out, &texts[i], widths);
        if i + 1 == headers {
            out.push('\n');
            push_rule(&mut out, widths, '=');
        }
        i += 1;
    }
    to_string(out.as_slice())
}

/// The widths that the cells are fitted to, as mathematical values.
pub open spec fn fit_view(widths: Option<&Vec<usize>>) -> Option<Seq<nat>> {
    match widths {
        Some(widths) => Some(widths_view(widths@)),
        None => None,
    }
}

/// Renders each cell of a table: within the width of its column, or
/// without any limit where no widths are given.
fn render_cells(
    table: &HtmlElement,
    parsed: &Table,
    url: &str,
    widths: Option<&Vec<usize>>,
) -> (texts: Vec<Vec<String>>)
    requires
        parsed.parsed_from(*table),
    ensures
        texts_view(texts@) == cell_texts(*table, url@, fit_view(widths)),
    decreases element_height(*table), 0nat,
{
    let ghost expected = cell_texts(*table, url@, fit_view(widths));
    let mut texts: Vec<Vec<String>> = Vec::new();
    let mut i: usize = 0;
    while i < parsed.data.len()
        invariant
            i <= parsed.data.len(),
            parsed.parsed_from(*table),
            expected == cell_texts(*table, url@, fit_view(widths)),
            texts@.len() == i,
            forall|a: int|
                0 <= a < i ==> Seq::new(
                    (#[trigger] texts@[a])@.len(),
                    |j: int| texts@[a]@[j]@,
                ) == expected[a],
        decreases parsed.data.len() - i,
    {
        let cells = &parsed.data[i];
        let count = match widths {
            Some(widths) => if cells.len() <= widths.len() {
                cells.len()
            } else {
                widths.len()
            },
            None => cells.len(),
        };
        let mut row: Vec<String> = Vec::new();
        let mut j: usize = 0;
        while j < count
            invariant
                j <= count,
                i < parsed.data.len(),
                cells == &parsed.data[i as int],
                parsed.parsed_from(*table),
                count == cells_shown(fit_view(widths), cells@.len() as nat),
                expected == cell_texts(*table, url@, fit_view(widths)),
                row@.len() == j,
                forall|b: int| 0 <= b < j ==> (#[trigger] row@[b])@ == expected[i as int][b],
            decreases count - j,
        {
            let limit = match widths {
                Some(widths) => if widths[j] == 0 {
                    None
                } else {
                    Some(widths[j])
                },
                None => None,
            };
            proof {
                lemma_cell_height(*table, i as int, j as int);
            }
            let text = render_node(cells[j], url, limit);
            row.push(text);
            j += 1;
        }
        assert(Seq::new(row@.len(), |j: int| row@[j]@) =~= expected[i as int]);
        texts.push(row);
        i += 1;
    }
    assert(texts_view(texts@) =~= expected);
    texts
}

/// Renders a table as a grid of text that is at most `max_width` columns
/// wide, if its widest words allow.
pub fn render_table(table: &HtmlElement, url: &str, max_width: Option<usize>) -> (out: String)
    ensures
        out@ == table_text(*table, url@, limit_view(max_width)),
    decreases element_height(*table), 1nat,
{
    let parsed = parse_table(table);
    if parsed.data.len() == 0 {
        return String::new();
    }
    let natural = render_cells(table, &parsed, url, None);
    let stats = measure_columns(&natural);
    let widths = compute_widths(stats, max_width);
    let fitted = render_cells(table, &parsed, url, Some(&widths));
    render_grid(&fitted, &widths, parsed.headers, parsed.footers)
}

} // verus!
