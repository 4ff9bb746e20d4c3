//! Isolation experiments: their kinds, sweep-list parsing and percentiles.
use vstd::prelude::*;

pub mod load_bell;
pub mod load_ramp;
pub mod volume_ramp;

use crate::stats::{lemma_sorted_keys_facts, lemma_sorted_rearrangement, percentile_of};
use crate::text::{decimal_text, digit_char, is_white_space, trim, trim_bounds, trim_end, trim_start};

verus! {

/// The isolation experiment to run.
#[derive(Debug, Clone, Copy, PartialEq, Eq, Structural)]
pub enum ExperimentKind {
    /// Raw store vs the model layer at seeded row counts.
    VolumeRamp,
    /// Concurrency / capacity sweep (in-process and optionally over HTTP).
    LoadRamp,
    /// Open-loop bell-curve HTTP load (floor -> peak -> floor).
    LoadBell,
    /// Single-connection raw read-modify-write on the bell schedule.
    RawFloorBell,
    /// Direct key-value floor vs raw store vs the model layer.
    RocksdbFloor,
    /// Index on/off within the volume ramp.
    IndexAb,
    /// Query-plan capture on hot queries.
    Explain,
    /// Debug vs release build comparison.
    DebugRelease,
    /// Fixed volume with background job load on and off.
    Contention,
    /// Hot-key overwrite sweep.
    HotKey,
}

pub open spec fn is_ascii_digit(c: char) -> bool {
    '0' <= c <= '9'
}

/// The number that a run of decimal digits denotes.
pub open spec fn decimal_value(d: Seq<char>) -> int
    decreases d.len(),
{
    if d.len() == 0 {
        0
    } else {
        decimal_value(d.drop_last()) * 10 + (d.last() as int - '0' as int)
    }
}

pub open spec fn all_ascii_digits(d: Seq<char>) -> bool {
    forall|i: int| 0 <= i < d.len() ==> is_ascii_digit(#[trigger] d[i])
}

/// `usize::from_str`: an optional `+` followed by one or more ASCII digits
/// whose value fits in a `usize`.
pub open spec fn parse_usize(t: Seq<char>) -> Option<usize> {
    let d = if t.len() > 0 && t[0] == '+' { t.drop_first() } else { t };
    if d.len() > 0 && all_ascii_digits(d) && decimal_value(d) <= usize::MAX {
        Some(decimal_value(d) as usize)
    } else {
        None
    }
}

/// `str::split(',')`: the pieces between commas, in order; `k` commas give
/// `k + 1` pieces, some of which may be empty.
pub open spec fn split_commas(s: Seq<char>) -> Seq<Seq<char>>
    decreases s.len(),
{
    if s.len() == 0 {
        seq![Seq::empty()]
    } else {
        let prev = split_commas(s.drop_last());
        if s.last() == ',' {
            prev.push(Seq::empty())
        } else {
            prev.update(prev.len() - 1, prev.last().push(s.last()))
        }
    }
}

/// The numbers that the pieces denote once trimmed, skipping pieces that are
/// not numbers.
pub open spec fn parsed_values(pieces: Seq<Seq<char>>) -> Seq<usize>
    decreases pieces.len(),
{
    if pieces.len() == 0 {
        Seq::empty()
    } else {
        let rest = parsed_values(pieces.drop_last());
        match parse_usize(trim(pieces.last())) {
            Some(v) => rest.push(v),
            None => rest,
        }
    }
}

/// The value of a prefix of a digit run never exceeds the value of the run.
proof fn lemma_decimal_prefix_le(d: Seq<char>, k: int)
    requires
        0 <= k <= d.len(),
        all_ascii_digits(d),
    ensures
        0 <= decimal_value(d.take(k)) <= decimal_value(d),
    decreases d.len(),
{
    if d.len() > 0 {
        let p = d.drop_last();
        assert(all_ascii_digits(p)) by {
            assert forall|i: int| 0 <= i < p.len() implies is_ascii_digit(#[trigger] p[i]) by {
                assert(p[i] == d[i]);
            }
        }
        lemma_decimal_nonneg(p);
        if k == d.len() {
            assert(d.take(k) == d);
        } else {
            assert(d.take(k) == p.take(k));
            lemma_decimal_prefix_le(p, k);
            assert(is_ascii_digit(d[d.len() - 1]));
        }
    } else {
        assert(d.take(k) == d);
    }
}

proof fn lemma_decimal_nonneg(d: Seq<char>)
    requires
        all_ascii_digits(d),
    ensures
        decimal_value(d) >= 0,
    decreases d.len(),
{
    if d.len() > 0 {
        let p = d.drop_last();
        assert(all_ascii_digits(p)) by {
            assert forall|i: int| 0 <= i < p.len() implies is_ascii_digit(#[trigger] p[i]) by {
                assert(p[i] == d[i]);
            }
        }
        lemma_decimal_nonneg(p);
        assert(is_ascii_digit(d[d.len() - 1]));
    }
}

/// `usize::from_str` applied to `piece[lo..hi]`.
fn parse_usize_range(piece: &Vec<char>, lo: usize, hi: usize) -> (r: Option<usize>)
    requires
        lo <= hi <= piece@.len(),
    ensures
        r == parse_usize(piece@.subrange(lo as int, hi as int)),
{
    let ghost t = piece@.subrange(lo as int, hi as int);
    let start = if lo < hi && piece[lo] == '+' { lo + 1 } else { lo };
    let ghost d = piece@.subrange(start as int, hi as int);
    assert(d == (if t.len() > 0 && t[0] == '+' { t.drop_first() } else { t }));
    if start == hi {
        return None;
    }
    let mut acc: usize = 0;
    let mut i: usize = start;
    while i < hi
        invariant
            start <= i <= hi <= piece@.len(),
            lo <= start,
            t == piece@.subrange(lo as int, hi as int),
            d == piece@.subrange(start as int, hi as int),
            d == (if t.len() > 0 && t[0] == '+' { t.drop_first() } else { t }),
            d.len() > 0,
            all_ascii_digits(d.take(i - start)),
            acc as int == decimal_value(d.take(i - start)),
        decreases hi - i,
    {
        let c = piece[i];
        let ghost k = i - start;
        assert(d.take(k + 1) == d.take(k).push(c));
        assert(d.take(k + 1).drop_last() == d.take(k));
        assert(d[k as int] == c);
        if !('0' <= c && c <= '9') {
            assert(!is_ascii_digit(d[k]));
            return None;
        }
        let digit = (c as u32 - '0' as u32) as usize;
        assert(decimal_value(d.take(k + 1)) == decimal_value(d.take(k)) * 10 + digit);
        match acc.checked_mul(10) {
            Some(m) => match m.checked_add(digit) {
                Some(v) => {
                    acc = v;
                },
                None => {
                    proof {
                        lemma_overflow_is_none(d, k + 1);
                    }
                    return None;
                },
            },
            None => {
                proof {
                    lemma_decimal_nonneg(d.take(k));
                    lemma_overflow_is_none(d, k + 1);
                }
                return None;
            },
        }
        proof {
            assert forall|j: int| 0 <= j < d.take(k + 1).len() implies is_ascii_digit(
                #[trigger] d.take(k + 1)[j],
            ) by {
                if j < k {
                    assert(d.take(k + 1)[j] == d.take(k)[j]);
                }
            }
        }
        i = i + 1;
    }
    assert(d.take(d.len() as int) == d);
    Some(acc)
}

/// Once a prefix of the digits exceeds `usize::MAX`, the piece is no number.
proof fn lemma_overflow_is_none(d: Seq<char>, k: int)
    requires
        0 <= k <= d.len(),
        decimal_value(d.take(k)) > usize::MAX,
    ensures
        !(d.len() > 0 && all_ascii_digits(d) && decimal_value(d) <= usize::MAX),
{
    if all_ascii_digits(d) {
        lemma_decimal_prefix_le(d, k);
    }
}

/// Parses a comma-separated list of sweep values: each piece is trimmed and
/// parsed as a `usize`; pieces that are not numbers are skipped.
pub fn parse_usize_list(s: &str) -> (values: Vec<usize>)
    ensures
        values@ == parsed_values(split_commas(s@)),
{
    broadcast use vstd::string::group_string_axioms;

    let mut values: Vec<usize> = Vec::new();
    let mut cur: Vec<char> = Vec::new();
    let ghost mut done: Seq<Seq<char>> = Seq::empty();
    for c in it: s.chars()
        invariant
            it.seq() == s@,
            split_commas(s@.take(it.index())) == done.push(cur@),
            values@ == parsed_values(done),
    {
        proof {
            let pre = s@.take(it.index());
            assert(s@.take(it.index() + 1) == pre.push(c));
            assert(pre.push(c).drop_last() == pre);
            assert(done.push(cur@).last() == cur@);
            assert(done.push(cur@).drop_last() == done);
        }
        if c == ',' {
            let (lo, hi) = trim_bounds(&cur);
            let parsed = parse_usize_range(&cur, lo, hi);
            proof {
                assert(done.push(cur@).drop_last() == done);
            }
            match parsed {
                Some(v) => values.push(v),
                None => {},
            }
            proof {
                done = done.push(cur@);
            }
            cur = Vec::new();
        } else {
            let ghost old_cur = cur@;
            cur.push(c);
            proof {
                assert(done.push(cur@) =~= done.push(old_cur).update(
                    done.len() as int,
                    old_cur.push(c),
                ));
            }
        }
    }
    proof {
        assert(s@.take(s@.len() as int) == s@);
        assert(done.push(cur@).drop_last() == done);
    }
    let (lo, hi) = trim_bounds(&cur);
    match parse_usize_range(&cur, lo, hi) {
        Some(v) => values.push(v),
        None => {},
    }
    values
}

/// The pieces joined with `,` between them, as `[String]::join(",")` does.
pub open spec fn join_commas(pieces: Seq<Seq<char>>) -> Seq<char>
    decreases pieces.len(),
{
    if pieces.len() == 0 {
        Seq::empty()
    } else if pieces.len() == 1 {
        pieces[0]
    } else {
        join_commas(pieces.drop_last()) + seq![','] + pieces.last()
    }
}

/// The decimal forms of the numbers, in order.
pub open spec fn decimal_list(v: Seq<usize>) -> Seq<Seq<char>> {
    v.map_values(|x: usize| decimal_text(x as nat))
}

pub open spec fn comma_free(b: Seq<char>) -> bool {
    forall|i: int| 0 <= i < b.len() ==> #[trigger] b[i] != ','
}

proof fn lemma_decimal_text_facts(n: nat)
    ensures
        decimal_text(n).len() > 0,
        all_ascii_digits(decimal_text(n)),
        decimal_value(decimal_text(n)) == n,
    decreases n,
{
    if n >= 10 {
        lemma_decimal_text_facts(n / 10);
        let d = decimal_text(n / 10);
        let t = d.push(digit_char(n % 10));
        assert(t.drop_last() == d);
        assert(t.last() == digit_char(n % 10));
        assert(digit_char(n % 10) as int - '0' as int == n % 10);
        assert(n == (n / 10) * 10 + n % 10);
        assert(decimal_text(n) == t);
        assert(decimal_value(t) == decimal_value(d) * 10 + (n % 10));
        assert forall|i: int| 0 <= i < t.len() implies is_ascii_digit(#[trigger] t[i]) by {
            if i < d.len() {
                assert(t[i] == d[i]);
            }
        }
    } else {
        let t = seq![digit_char(n)];
        assert(t.drop_last() == Seq::<char>::empty());
        assert(t.last() == digit_char(n));
        assert(digit_char(n) as int - '0' as int == n);
        assert(decimal_text(n) == t);
        assert(decimal_value(t) == decimal_value(Seq::<char>::empty()) * 10 + n);
        assert(is_ascii_digit(t[0]));
    }
}

proof fn lemma_split_no_commas(b: Seq<char>)
    requires
        comma_free(b),
    ensures
        split_commas(b) == seq![b],
    decreases b.len(),
{
    if b.len() > 0 {
        let p = b.drop_last();
        assert(comma_free(p)) by {
            assert forall|i: int| 0 <= i < p.len() implies #[trigger] p[i] != ',' by {
                assert(p[i] == b[i]);
            }
        }
        lemma_split_no_commas(p);
        assert(b[b.len() - 1] != ',');
        assert(p.push(b.last()) == b);
    } else {
        assert(b == Seq::<char>::empty());
    }
}

proof fn lemma_split_after_comma(a: Seq<char>, b: Seq<char>)
    requires
        comma_free(b),
    ensures
        split_commas(a + seq![','] + b) == split_commas(a).push(b),
    decreases b.len(),
{
    let s = a + seq![','] + b;
    if b.len() == 0 {
        assert(b =~= Seq::<char>::empty());
        assert(s =~= a.push(','));
        assert(s.drop_last() =~= a);
        assert(s.last() == ',');
        assert(split_commas(s) == split_commas(s.drop_last()).push(Seq::<char>::empty()));
    } else {
        let p = b.drop_last();
        assert(comma_free(p)) by {
            assert forall|i: int| 0 <= i < p.len() implies #[trigger] p[i] != ',' by {
                assert(p[i] == b[i]);
            }
        }
        lemma_split_after_comma(a, p);
        assert(s.drop_last() == a + seq![','] + p);
        assert(s.last() == b.last());
        assert(b[b.len() - 1] != ',');
        assert(p.push(b.last()) == b);
    }
}

proof fn lemma_split_join(pieces: Seq<Seq<char>>)
    requires
        pieces.len() > 0,
        forall|i: int| 0 <= i < pieces.len() ==> comma_free(#[trigger] pieces[i]),
    ensures
        split_commas(join_commas(pieces)) == pieces,
    decreases pieces.len(),
{
    if pieces.len() == 1 {
        lemma_split_no_commas(pieces[0]);
        assert(pieces == seq![pieces[0]]);
    } else {
        let p = pieces.drop_last();
        assert forall|i: int| 0 <= i < p.len() implies comma_free(#[trigger] p[i]) by {
            assert(p[i] == pieces[i]);
        }
        lemma_split_join(p);
        assert(comma_free(pieces[pieces.len() - 1]));
        lemma_split_after_comma(join_commas(p), pieces.last());
        assert(p.push(pieces.last()) == pieces);
    }
}

proof fn lemma_decimal_parses(n: usize)
    ensures
        trim(decimal_text(n as nat)) == decimal_text(n as nat),
        parse_usize(trim(decimal_text(n as nat))) == Some(n),
        comma_free(decimal_text(n as nat)),
{
    let t = decimal_text(n as nat);
    lemma_decimal_text_facts(n as nat);
    assert(is_ascii_digit(t[0]));
    assert(is_ascii_digit(t[t.len() - 1]));
    assert(!is_white_space(t[0]));
    assert(trim_start(t) == t);
    assert(!is_white_space(t.last()));
    assert(trim_end(t) == t);
    assert forall|i: int| 0 <= i < t.len() implies #[trigger] t[i] != ',' by {
        assert(is_ascii_digit(t[i]));
    }
}

proof fn lemma_parsed_decimals(v: Seq<usize>)
    ensures
        parsed_values(decimal_list(v)) == v,
    decreases v.len(),
{
    if v.len() > 0 {
        let p = v.drop_last();
        lemma_parsed_decimals(p);
        assert(decimal_list(v).drop_last() == decimal_list(p));
        assert(decimal_list(v).last() == decimal_text(v.last() as nat));
        lemma_decimal_parses(v.last());
        assert(p.push(v.last()) == v);
    } else {
        assert(decimal_list(v) == Seq::<Seq<char>>::empty());
    }
}

/// Law: a list of numbers written in decimal and joined with `,` parses back
/// to the same list (the empty list included).
pub proof fn lemma_parse_round_trip(v: Seq<usize>)
    ensures
        parsed_values(split_commas(join_commas(decimal_list(v)))) == v,
{
    let pieces = decimal_list(v);
    if v.len() == 0 {
        assert(pieces.len() == 0);
        let e = Seq::<char>::empty();
        assert(join_commas(pieces) == e);
        assert(split_commas(e) == seq![e]);
        assert(trim_start(e) == e);
        assert(trim_end(e) == e);
        assert(parse_usize(trim(e)) is None);
        assert(seq![e].drop_last() =~= Seq::<Seq<char>>::empty());
        assert(parsed_values(Seq::<Seq<char>>::empty()) == Seq::<usize>::empty());
        assert(parsed_values(seq![e]) == Seq::<usize>::empty());
        assert(v =~= Seq::<usize>::empty());
    } else {
        assert forall|i: int| 0 <= i < pieces.len() implies comma_free(#[trigger] pieces[i]) by {
            lemma_decimal_parses(v[i]);
        }
        lemma_split_join(pieces);
        lemma_parsed_decimals(v);
    }
}

/// The `per_mille`/1000 percentile of samples in any order (zero when there
/// are none): the samples are sorted first, then ranked.
pub fn percentile(samples: &[u64], per_mille: u32) -> (v: u64)
    ensures
        v == percentile_of(samples@, per_mille as nat),
{
    let mut sorted = vstd::slice::slice_to_vec(samples);
    crate::stats::sort_keys(&mut sorted);
    proof {
        lemma_sorted_rearrangement(samples@, sorted@);
        lemma_sorted_keys_facts(samples@);
    }
    crate::stats::percentile_sorted(&sorted, per_mille)
}

} // verus!
