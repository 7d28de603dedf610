use crate::numerals::spec_dec;
use crate::render::{
    spec_bar_chars, spec_bar_space, spec_emph, spec_fill, spec_passed_chars, spec_pct,
    spec_ratio_chars, spec_sign, spec_term_chars,
};
use crate::state::{spec_overshoot, spec_rem, PassedTime};
use vstd::prelude::*;

verus! {

/// While the elapsed time has not passed the target, the snapshot reports
/// no overshoot and the signed remainder is non-negative.
pub proof fn lemma_within_target_no_overshoot(e: int, t: int)
    requires
        0 <= e <= t,
    ensures
        !spec_overshoot(e, t),
        spec_rem(e, t) >= 0,
{
}

/// Once the elapsed time has passed the target, the snapshot reports
/// overshoot and the textual segment carries the `'-'` sign marker, at the
/// column right after `" | "`.
pub proof fn lemma_overshoot_sign(e: int, t: int)
    requires
        0 <= t < e,
    ensures
        spec_overshoot(e, t),
        spec_sign(e, t) == '-',
        spec_rem(e, t) < 0,
        spec_passed_chars(e, t).index(
            (spec_dec(spec_pct(e, t)).len() + 2 + spec_ratio_chars(e, t).len() + 3) as int,
        ) == '-',
{
    let prefix = spec_dec(spec_pct(e, t)) + seq!['%', ' '] + spec_ratio_chars(e, t)
        + seq![' ', '|', ' '];
    let rest = crate::numerals::spec_pad2(crate::state::spec_hours(e, t)) + seq![':']
        + crate::numerals::spec_pad2(crate::state::spec_mins(e, t)) + seq![':']
        + crate::numerals::spec_pad2(crate::state::spec_tenths(e, t) / 10) + seq!['.'] + seq![
        crate::numerals::digit_char(crate::state::spec_tenths(e, t) % 10),
    ];
    assert(spec_passed_chars(e, t) =~= prefix + (seq![spec_sign(e, t)] + rest));
    assert((prefix + (seq![spec_sign(e, t)] + rest)).index(prefix.len() as int) == spec_sign(e, t));
}

/// At the start the displayed ratio is exactly zero, and at the target it
/// is exactly one: a positive target gives percentage 0 and ratio text
/// `0.0000` for zero elapsed, and percentage 100 and ratio text `1.0000`
/// when the elapsed time equals the target.
pub proof fn lemma_ratio_endpoints(t: int)
    requires
        t > 0,
    ensures
        spec_pct(0, t) == 0,
        spec_ratio_chars(0, t) == seq!['0', '.', '0', '0', '0', '0'],
        spec_pct(t, t) == 100,
        spec_ratio_chars(t, t) == seq!['1', '.', '0', '0', '0', '0'],
{
    vstd::arithmetic::div_mod::lemma_div_by_self(t);
    vstd::arithmetic::div_mod::lemma_mod_self_0(t);
    assert((t * 100) / t == 100) by {
        vstd::arithmetic::div_mod::lemma_div_multiples_vanish(100, t);
        vstd::arithmetic::mul::lemma_mul_is_commutative(t, 100);
    }
    assert(spec_ratio_chars(0, t) =~= seq!['0', '.', '0', '0', '0', '0']);
    assert(spec_ratio_chars(t, t) =~= seq!['1', '.', '0', '0', '0', '0']);
}

/// A zero target is the accepted degenerate case: the ratio is non-finite
/// (`NaN` for zero elapsed, `inf` otherwise), the clamped percentage is
/// 100, and the bar is empty or full accordingly — every renderer output
/// is still well formed.
pub proof fn lemma_zero_target(e: int, inner: int)
    requires
        e >= 0,
        inner >= 0,
    ensures
        spec_pct(e, 0) == 100,
        e == 0 ==> spec_ratio_chars(e, 0) == seq!['N', 'a', 'N'] && !spec_emph(e, 0) && spec_fill(
            e,
            0,
            inner,
        ) == 0,
        e > 0 ==> spec_ratio_chars(e, 0) == seq!['i', 'n', 'f'] && spec_emph(e, 0) && spec_fill(
            e,
            0,
            inner,
        ) == inner,
{
}

/// A terminal too narrow for the textual segment plus three columns leaves
/// no room for a bracketed bar: the bar renders empty, never with a
/// negative length, and the status line is just the textual segment.
pub proof fn lemma_narrow_width(e: int, t: int, width: int)
    requires
        0 <= e,
        0 <= t,
        0 <= width,
        width < spec_passed_chars(e, t).len() + 3,
    ensures
        spec_bar_chars(e, t, spec_bar_space(e, t, width)) == Seq::<char>::empty(),
        spec_term_chars(e, t, width) == seq!['\r'] + spec_passed_chars(e, t) + seq![' '],
{
    assert(spec_bar_space(e, t, width) < 2);
    assert(spec_term_chars(e, t, width) =~= seq!['\r'] + spec_passed_chars(e, t) + seq![' ']);
}

/// The calculator is a pure function: two well-formed snapshots taken from
/// the same elapsed/target pair are identical in every field.
pub proof fn lemma_compute_deterministic(a: PassedTime, b: PassedTime)
    requires
        a.wf(),
        b.wf(),
        a.ratio_num == b.ratio_num,
        a.ratio_den == b.ratio_den,
    ensures
        a == b,
{
}

} // verus!
