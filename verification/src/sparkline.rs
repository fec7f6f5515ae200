use vstd::prelude::*;

verus! {

/// `String::push` appends one character.
pub assume_specification[ String::push ](s: &mut String, ch: char)
    ensures
        final(s)@ == old(s)@.push(ch),
;

/// The eight block characters of a trend line, lowest first.
pub open spec fn block_char(level: nat) -> char {
    if level == 0 {
        '\u{2581}'
    } else if level == 1 {
        '\u{2582}'
    } else if level == 2 {
        '\u{2583}'
    } else if level == 3 {
        '\u{2584}'
    } else if level == 4 {
        '\u{2585}'
    } else if level == 5 {
        '\u{2586}'
    } else if level == 6 {
        '\u{2587}'
    } else {
        '\u{2588}'
    }
}

/// Largest value of `s`; 0 for an empty sequence.
pub open spec fn seq_max(s: Seq<u64>) -> u64
    decreases s.len(),
{
    if s.len() == 0 {
        0
    } else {
        let m = seq_max(s.drop_last());
        if s.last() > m {
            s.last()
        } else {
            m
        }
    }
}

/// The block level of `v` on a scale whose top is `max`: `7 * v / max`
/// rounded to the nearest whole number (halves up), at most 7; 0 when the
/// scale is all zeros.
pub open spec fn spark_level(v: u64, max: u64) -> nat {
    if max == 0 {
        0
    } else {
        let l = ((14 * v + max) / (2 * max)) as nat;
        if l > 7 {
            7
        } else {
            l
        }
    }
}

/// The trend line of `data`: one block character per value, scaled so
/// that the largest value gets the full block.
pub open spec fn spec_sparkline(data: Seq<u64>) -> Seq<char> {
    Seq::new(data.len(), |i: int| block_char(spark_level(data[i], seq_max(data))))
}

/// The block character of a level.
fn block(level: u128) -> (c: char)
    requires
        level <= 7,
    ensures
        c == block_char(level as nat),
{
    if level == 0 {
        '\u{2581}'
    } else if level == 1 {
        '\u{2582}'
    } else if level == 2 {
        '\u{2583}'
    } else if level == 3 {
        '\u{2584}'
    } else if level == 4 {
        '\u{2585}'
    } else if level == 5 {
        '\u{2586}'
    } else if level == 6 {
        '\u{2587}'
    } else {
        '\u{2588}'
    }
}

/// Largest value of `data`; 0 when it is empty.
fn max_of(data: &[u64]) -> (m: u64)
    ensures
        m == seq_max(data@),
{
    let mut m: u64 = 0;
    let mut i: usize = 0;
    while i < data.len()
        invariant
            i <= data@.len(),
            m == seq_max(data@.subrange(0, i as int)),
        decreases data@.len() - i,
    {
        proof {
            assert(data@.subrange(0, i + 1).drop_last() =~= data@.subrange(0, i as int));
        }
        if data[i] > m {
            m = data[i];
        }
        i = i + 1;
    }
    proof {
        assert(data@.subrange(0, data@.len() as int) =~= data@);
    }
    m
}

/// Renders `data` as a line of block characters, one per value, the
/// largest value as the full block.
pub fn sparkline_str(data: &[u64]) -> (s: String)
    ensures
        s@ == spec_sparkline(data@),
{
    let max = max_of(data);
    let mut s = String::new();
    let mut i: usize = 0;
    while i < data.len()
        invariant
            i <= data@.len(),
            max == seq_max(data@),
            s@.len() == i,
            forall|j: int| 0 <= j < i ==> s@[j] == block_char(spark_level(data@[j], max)),
        decreases data@.len() - i,
    {
        let v = data[i];
        let level: u128 = if max == 0 {
            0
        } else {
            let l = (14 * (v as u128) + max as u128) / (2 * (max as u128));
            if l > 7 {
                7
            } else {
                l
            }
        };
        s.push(block(level));
        i = i + 1;
    }
    proof {
        assert(s@ =~= spec_sparkline(data@));
    }
    s
}

/// Every value is at most the largest one.
proof fn lemma_seq_max_bound(s: Seq<u64>, i: int)
    requires
        0 <= i < s.len(),
    ensures
        s[i] <= seq_max(s),
    decreases s.len(),
{
    if i < s.len() - 1 {
        assert(s.drop_last()[i] == s[i]);
        lemma_seq_max_bound(s.drop_last(), i);
    }
}

/// The shape of a trend line: one character per value, a larger value
/// never gets a lower block, the largest (non-zero) value gets the full
/// block, and zero gets the lowest block.
pub proof fn law_sparkline_shape(data: Seq<u64>, i: int, j: int)
    requires
        0 <= i < data.len(),
        0 <= j < data.len(),
    ensures
        spec_sparkline(data).len() == data.len(),
        data[i] <= data[j] ==> spark_level(data[i], seq_max(data)) <= spark_level(
            data[j],
            seq_max(data),
        ),
        data[i] == seq_max(data) && data[i] > 0 ==> spec_sparkline(data)[i] == '\u{2588}',
        data[i] == 0 ==> spec_sparkline(data)[i] == '\u{2581}',
{
    let m = seq_max(data);
    lemma_seq_max_bound(data, i);
    lemma_seq_max_bound(data, j);
    if m > 0 {
        if data[i] <= data[j] {
            vstd::arithmetic::div_mod::lemma_div_is_ordered(
                14 * data[i] + m,
                14 * data[j] + m,
                2 * m,
            );
        }
        if data[i] == m {
            assert((14 * m + m) / (2 * m) == 7) by (nonlinear_arith)
                requires
                    m > 0,
            ;
        }
        if data[i] == 0 {
            assert((m as int) / (2 * m) == 0) by (nonlinear_arith)
                requires
                    m > 0,
            ;
        }
    }
}

/// The scale's top is the largest value: every value is at most it, and
/// some value reaches it (0 for no values).
pub proof fn law_scale_top_is_largest(data: Seq<u64>)
    ensures
        forall|i: int| 0 <= i < data.len() ==> #[trigger] data[i] <= seq_max(data),
        data.len() > 0 ==> exists|i: int| 0 <= i < data.len() && #[trigger] data[i] == seq_max(data),
        data.len() == 0 ==> seq_max(data) == 0,
    decreases data.len(),
{
    assert forall|i: int| 0 <= i < data.len() implies #[trigger] data[i] <= seq_max(data) by {
        lemma_seq_max_bound(data, i);
    }
    if data.len() > 0 {
        let t = data.drop_last();
        law_scale_top_is_largest(t);
        if data.last() > seq_max(t) || t.len() == 0 {
            assert(data[data.len() - 1] == seq_max(data));
        } else {
            let k = choose|k: int| 0 <= k < t.len() && #[trigger] t[k] == seq_max(t);
            assert(data[k] == t[k]);
        }
    }
}

/// Each value's block is its share of the top, in eighths of the full
/// range rounded to the nearest block (halves up): the `L`-th block
/// (`U+2581 + L`) with `2 * top * L <= 14 * v + top < 2 * top * (L + 1)`;
/// the lowest block when the top is 0.
pub proof fn law_sparkline_rounding(data: Seq<u64>, i: int)
    requires
        0 <= i < data.len(),
    ensures
        ({
            let m = seq_max(data) as int;
            let v = data[i] as int;
            let l = spec_sparkline(data)[i] as int - 0x2581;
            &&& 0 <= l <= 7
            &&& m == 0 ==> l == 0
            &&& m > 0 ==> 2 * m * l <= 14 * v + m < 2 * m * (l + 1)
        }),
{
    let m = seq_max(data) as int;
    let v = data[i] as int;
    lemma_seq_max_bound(data, i);
    if m > 0 {
        let q = (14 * v + m) / (2 * m);
        assert(2 * m * q <= 14 * v + m < 2 * m * (q + 1)) by (nonlinear_arith)
            requires
                m > 0,
                v >= 0,
                q == (14 * v + m) / (2 * m),
        ;
        assert(q <= 7) by (nonlinear_arith)
            requires
                m > 0,
                0 <= v <= m,
                q == (14 * v + m) / (2 * m),
        ;
        assert(q >= 0) by (nonlinear_arith)
            requires
                m > 0,
                v >= 0,
                q == (14 * v + m) / (2 * m),
        ;
        assert(spark_level(data[i], seq_max(data)) == q);
    }
}

} // verus!
