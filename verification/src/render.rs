use crate::numerals::{digit_char, digit_str, spec_dec, spec_pad2, spec_pad4, u64_to_dec, u64_to_pad2, u64_to_pad4};
use crate::state::{spec_hours, spec_mins, spec_overshoot, spec_tenths, PassedTime};
use vstd::prelude::*;

verus! {

/// The displayed percentage: `floor(min(ratio * 100, 100))`. Clamped at 100
/// for display even while the ratio itself is not. A zero target gives a
/// non-finite ratio, whose clamped percentage is 100.
pub open spec fn spec_pct(e: int, t: int) -> int {
    if t == 0 {
        100
    } else if e * 100 / t > 100 {
        100
    } else {
        e * 100 / t
    }
}

/// The progress ratio to four decimal places, truncated. A zero target is
/// the non-finite case: `NaN` for zero elapsed, `inf` otherwise.
pub open spec fn spec_ratio_chars(e: int, t: int) -> Seq<char> {
    if t == 0 {
        if e == 0 {
            seq!['N', 'a', 'N']
        } else {
            seq!['i', 'n', 'f']
        }
    } else {
        spec_dec(e / t) + seq!['.'] + spec_pad4((e % t) * 10000 / t)
    }
}

/// The sign marker: `'-'` once the target has been passed, otherwise a
/// space, which keeps the columns aligned.
pub open spec fn spec_sign(e: int, t: int) -> char {
    if spec_overshoot(e, t) {
        '-'
    } else {
        ' '
    }
}

/// The textual segment: percentage, ratio, and signed H:MM:SS.s readout.
pub open spec fn spec_passed_chars(e: int, t: int) -> Seq<char> {
    spec_dec(spec_pct(e, t)) + seq!['%', ' '] + spec_ratio_chars(e, t) + seq![' ', '|', ' ']
        + seq![spec_sign(e, t)] + spec_pad2(spec_hours(e, t)) + seq![':'] + spec_pad2(
        spec_mins(e, t),
    ) + seq![':'] + spec_pad2(spec_tenths(e, t) / 10) + seq!['.'] + seq![
        digit_char(spec_tenths(e, t) % 10),
    ]
}

/// Filled cells of the bar: `floor(ratio * inner)`, clamped to
/// `[0, inner]`. A zero target fills nothing for zero elapsed (the `NaN`
/// ratio) and everything otherwise (the `inf` ratio).
pub open spec fn spec_fill(e: int, t: int, inner: int) -> int {
    if t == 0 {
        if e == 0 {
            0
        } else {
            inner
        }
    } else if e * inner / t > inner {
        inner
    } else {
        e * inner / t
    }
}

/// The progress bar for the given total width: brackets around filled
/// cells, a `'>'` marker, and space padding. Below a width of 2 there is
/// no room for the brackets and the bar is empty.
pub open spec fn spec_bar_chars(e: int, t: int, length: int) -> Seq<char> {
    if length < 2 {
        Seq::empty()
    } else {
        let inner = length - 2;
        let fill = spec_fill(e, t, inner);
        seq!['['] + Seq::new(fill as nat, |i: int| '=') + (if fill < inner {
            seq!['>'] + Seq::new((inner - fill - 1) as nat, |i: int| ' ')
        } else {
            Seq::empty()
        }) + seq![']']
    }
}

/// The SGR code that turns the background red.
pub open spec fn red_prefix() -> Seq<char> {
    seq!['\u{1b}', '[', '4', '1', 'm']
}

/// The SGR code that resets all styling.
pub open spec fn reset_suffix() -> Seq<char> {
    seq!['\u{1b}', '[', '0', 'm']
}

/// The emphasis rule: the bar is highlighted once the progress ratio has
/// reached 1. A zero target compares as its non-finite ratio does: `inf`
/// has reached 1, `NaN` has not.
pub open spec fn spec_emph(e: int, t: int) -> bool {
    if t == 0 {
        e > 0
    } else {
        e >= t
    }
}

/// Width left over for the bar: the terminal width less the textual
/// segment and one separating space, never negative.
pub open spec fn spec_bar_space(e: int, t: int, width: int) -> int {
    if width > spec_passed_chars(e, t).len() {
        width - spec_passed_chars(e, t).len() - 1
    } else {
        0
    }
}

/// The whole status line, unstyled: carriage return, textual segment, one
/// space, and the bar sized to the remaining width.
pub open spec fn spec_term_chars(e: int, t: int, width: int) -> Seq<char> {
    seq!['\r'] + spec_passed_chars(e, t) + seq![' '] + spec_bar_chars(
        e,
        t,
        spec_bar_space(e, t, width),
    )
}

/// The whole status line with the bar wrapped in the emphasis codes.
pub open spec fn spec_term_chars_styled(e: int, t: int, width: int) -> Seq<char> {
    seq!['\r'] + spec_passed_chars(e, t) + seq![' '] + red_prefix() + spec_bar_chars(
        e,
        t,
        spec_bar_space(e, t, width),
    ) + reset_suffix()
}

/// Relies on console::Style::on_red applied through console::StyledObject's
/// Display impl: the text is written either unchanged, or (when colors are
/// enabled) wrapped in the red-background SGR prefix and the reset suffix.
#[verifier::external_body]
fn style_on_red(s: &str) -> (r: String)
    ensures
        r@ == s@ || r@ == red_prefix() + s@ + reset_suffix(),
{
    console::Style::new().on_red().apply_to(s).to_string()
}

impl PassedTime {
    /// Formats the textual segment of the status line:
    /// `"{pct}% {ratio} | {sign}{H}:{MM}:{SS.s}"`.
    #[verifier::rlimit(80)]
    pub fn format_passed(&self) -> (r: String)
        requires
            self.wf(),
        ensures
            r@ == spec_passed_chars(self.ratio_num as int, self.ratio_den as int),
    {
        let num = self.ratio_num;
        let den = self.ratio_den;
        let pct: u64 = if den == 0 {
            100
        } else {
            let p: u128 = (num as u128) * 100 / (den as u128);
            if p > 100 {
                100
            } else {
                p as u64
            }
        };
        let mut s = u64_to_dec(pct);
        s.append("% ");
        if den == 0 {
            if num == 0 {
                s.append("NaN");
            } else {
                s.append("inf");
            }
        } else {
            let ipart = u64_to_dec(num / den);
            s.append(ipart.as_str());
            s.append(".");
            proof {
                let e = num as int;
                let t = den as int;
                assert((e % t) * 10000 < t * 10000) by {
                    vstd::arithmetic::mul::lemma_mul_strict_inequality(e % t, t, 10000);
                }
                vstd::arithmetic::div_mod::lemma_multiply_divide_lt((e % t) * 10000, t, 10000);
                assert((e % t) * 10000 / t < 10000);
            }
            let frac: u64 = ((num % den) as u128 * 10000 / (den as u128)) as u64;
            let frac_str = u64_to_pad4(frac);
            s.append(frac_str.as_str());
        }
        s.append(" | ");
        if self.milli < 0 {
            s.append("-");
        } else {
            s.append(" ");
        }
        let hours_str = u64_to_pad2(self.hours);
        s.append(hours_str.as_str());
        s.append(":");
        let mins_str = u64_to_pad2(self.mins);
        s.append(mins_str.as_str());
        s.append(":");
        let secs_str = u64_to_pad2(self.tenths / 10);
        s.append(secs_str.as_str());
        s.append(".");
        s.append(digit_str(self.tenths % 10));
        proof {
            reveal_strlit("% ");
            reveal_strlit("NaN");
            reveal_strlit("inf");
            reveal_strlit(".");
            reveal_strlit(" | ");
            reveal_strlit("-");
            reveal_strlit(" ");
            reveal_strlit(":");
            assert(s@ =~= spec_passed_chars(self.ratio_num as int, self.ratio_den as int));
        }
        s
    }

    /// Formats the progress bar for the given total width.
    pub fn format_progress(&self, length: usize) -> (r: String)
        ensures
            r@ == spec_bar_chars(self.ratio_num as int, self.ratio_den as int, length as int),
    {
        if length < 2 {
            return String::new();
        }
        let inner: usize = length - 2;
        let num = self.ratio_num;
        let den = self.ratio_den;
        let fill: usize = if den == 0 {
            if num == 0 {
                0
            } else {
                inner
            }
        } else {
            proof {
                vstd::arithmetic::mul::lemma_mul_upper_bound(
                    num as int,
                    u64::MAX as int,
                    inner as int,
                    u64::MAX as int,
                );
            }
            let f: u128 = (num as u128) * (inner as u128) / (den as u128);
            if f > inner as u128 {
                inner
            } else {
                f as usize
            }
        };
        assert(fill == spec_fill(num as int, den as int, inner as int));
        let ghost eq_cells = Seq::new(
            spec_fill(num as int, den as int, inner as int) as nat,
            |i: int| '=',
        );
        let mut s = "[".to_owned();
        proof {
            reveal_strlit("[");
            assert(s@ =~= seq!['['] + Seq::new(0nat, |i: int| '='));
        }
        let mut i: usize = 0;
        while i < fill
            invariant
                i <= fill,
                s@ == seq!['['] + Seq::new(i as nat, |j: int| '='),
            decreases fill - i,
        {
            s.append("=");
            i = i + 1;
            proof {
                reveal_strlit("=");
                assert(s@ =~= seq!['['] + Seq::new(i as nat, |j: int| '='));
            }
        }
        if fill < inner {
            s.append(">");
            let pad: usize = inner - fill - 1;
            let ghost base = s@;
            proof {
                reveal_strlit(">");
            }
            let mut k: usize = 0;
            while k < pad
                invariant
                    k <= pad,
                    s@ == base + Seq::new(k as nat, |j: int| ' '),
                decreases pad - k,
            {
                s.append(" ");
                k = k + 1;
                proof {
                    reveal_strlit(" ");
                    assert(s@ =~= base + Seq::new(k as nat, |j: int| ' '));
                }
            }
        }
        s.append("]");
        proof {
            reveal_strlit("]");
            assert(s@ =~= spec_bar_chars(num as int, den as int, length as int));
        }
        s
    }

    /// Formats the full status line for a terminal of the given width,
    /// beginning with a carriage return so that repeated writes replace the
    /// line in place. Once the target has been reached the bar is
    /// emphasized, which wraps it in escape codes when colors are enabled.
    pub fn format_term(&self, width: usize) -> (r: String)
        requires
            self.wf(),
        ensures
            !spec_emph(self.ratio_num as int, self.ratio_den as int) ==> r@ == spec_term_chars(
                self.ratio_num as int,
                self.ratio_den as int,
                width as int,
            ),
            spec_emph(self.ratio_num as int, self.ratio_den as int) ==> (r@ == spec_term_chars(
                self.ratio_num as int,
                self.ratio_den as int,
                width as int,
            ) || r@ == spec_term_chars_styled(
                self.ratio_num as int,
                self.ratio_den as int,
                width as int,
            )),
    {
        let ghost e = self.ratio_num as int;
        let ghost t = self.ratio_den as int;
        let passed = self.format_passed();
        let plen = passed.as_str().unicode_len();
        let space: usize = if width > plen {
            width - plen - 1
        } else {
            0
        };
        assert(space == spec_bar_space(e, t, width as int));
        let bar = self.format_progress(space);
        let emph = if self.ratio_den == 0 {
            self.ratio_num > 0
        } else {
            self.ratio_num >= self.ratio_den
        };
        let mut s = "\r".to_owned();
        s.append(passed.as_str());
        s.append(" ");
        proof {
            reveal_strlit("\r");
            reveal_strlit(" ");
        }
        if emph {
            let styled = style_on_red(bar.as_str());
            s.append(styled.as_str());
            proof {
                if styled@ == bar@ {
                    assert(s@ =~= spec_term_chars(e, t, width as int));
                } else {
                    assert(s@ =~= spec_term_chars_styled(e, t, width as int));
                }
            }
        } else {
            s.append(bar.as_str());
            proof {
                assert(s@ =~= spec_term_chars(e, t, width as int));
            }
        }
        s
    }
}

} // verus!
