//! Human-glanceable size formatting: a byte count reduced to a small value
//! and a unit prefix in a chosen numeral base.

use vstd::arithmetic::div_mod::{
    lemma_div_decreases, lemma_div_non_zero, lemma_fundamental_div_mod, lemma_multiply_divide_lt,
};
use vstd::arithmetic::power::pow;
use vstd::prelude::*;

verus! {

/// The numeral base used to reduce a byte count: binary steps of 1024 or
/// metric steps of 1000.
pub enum Base {
    /// Binary prefixes, steps of 1024 (`Ki`, `Mi`, ...).
    Two,
    /// Metric prefixes, steps of 1000 (`K`, `M`, ...).
    Ten,
}

/// The numeric step size of a [`Base`].
pub open spec fn spec_base_value(base: Base) -> nat {
    match base {
        Base::Two => 1024,
        Base::Ten => 1000,
    }
}

/// How many times `v` can be divided by `base` before falling below it.
pub open spec fn spec_mag(v: nat, base: nat) -> nat
    decreases v,
    via spec_mag_decreases
{
    if base < 2 || v < base {
        0
    } else {
        (1 + spec_mag(v / base, base)) as nat
    }
}

#[via_fn]
proof fn spec_mag_decreases(v: nat, base: nat) {
    if !(base < 2 || v < base) {
        lemma_div_decreases(v as int, base as int);
    }
}

/// The value left after dividing `v` by `base` until it falls below `base`.
pub open spec fn spec_rem(v: nat, base: nat) -> nat
    decreases v,
    via spec_rem_decreases
{
    if base < 2 || v < base {
        v
    } else {
        spec_rem(v / base, base)
    }
}

#[via_fn]
proof fn spec_rem_decreases(v: nat, base: nat) {
    if !(base < 2 || v < base) {
        lemma_div_decreases(v as int, base as int);
    }
}

/// The value just before the final division step, i.e. the last intermediate
/// value still at or above `base`; `v` itself if no division happens.
pub open spec fn spec_prev(v: nat, base: nat) -> nat
    decreases v,
    via spec_prev_decreases
{
    if base < 2 || v < base {
        v
    } else if v / base < base {
        v
    } else {
        spec_prev(v / base, base)
    }
}

#[via_fn]
proof fn spec_prev_decreases(v: nat, base: nat) {
    if !(base < 2 || v < base) {
        lemma_div_decreases(v as int, base as int);
    }
}

/// The reduced value shown next to the unit prefix: the final remainder,
/// rounded up by one unit when the fraction lost in the last division step
/// exceeds nine tenths of a full unit.  With no division step there is
/// nothing to round.
pub open spec fn spec_rounded(v: nat, base: nat) -> nat {
    if spec_mag(v, base) == 0 {
        v
    } else if 10 * (spec_prev(v, base) % base) > 9 * base {
        spec_rem(v, base) + 1
    } else {
        spec_rem(v, base)
    }
}

/// The unit label for a magnitude step in a base, byte marker included.
pub open spec fn spec_unit(base: Base, mag: nat) -> Seq<char> {
    let prefix: Seq<char> = match base {
        Base::Two => {
            if mag == 0 {
                seq![]
            } else if mag == 1 {
                seq!['K', 'i']
            } else if mag == 2 {
                seq!['M', 'i']
            } else if mag == 3 {
                seq!['G', 'i']
            } else if mag == 4 {
                seq!['T', 'i']
            } else if mag == 5 {
                seq!['P', 'i']
            } else if mag == 6 {
                seq!['E', 'i']
            } else if mag == 7 {
                seq!['Z', 'i']
            } else {
                seq!['Y', 'i']
            }
        },
        Base::Ten => {
            if mag == 0 {
                seq![]
            } else if mag == 1 {
                seq!['K']
            } else if mag == 2 {
                seq!['M']
            } else if mag == 3 {
                seq!['G']
            } else if mag == 4 {
                seq!['T']
            } else if mag == 5 {
                seq!['P']
            } else if mag == 6 {
                seq!['E']
            } else if mag == 7 {
                seq!['Z']
            } else {
                seq!['Y']
            }
        },
    };
    prefix.push('B')
}

/// The unit label for a magnitude step, as a string.
fn unit_str(base: &Base, magnitude: u64) -> (r: &'static str)
    requires
        magnitude <= 8,
    ensures
        r@ == spec_unit(*base, magnitude as nat),
{
    proof {
        reveal_strlit("B");
        reveal_strlit("KiB");
        reveal_strlit("MiB");
        reveal_strlit("GiB");
        reveal_strlit("TiB");
        reveal_strlit("PiB");
        reveal_strlit("EiB");
        reveal_strlit("ZiB");
        reveal_strlit("YiB");
        reveal_strlit("KB");
        reveal_strlit("MB");
        reveal_strlit("GB");
        reveal_strlit("TB");
        reveal_strlit("PB");
        reveal_strlit("EB");
        reveal_strlit("ZB");
        reveal_strlit("YB");
    }
    let r = match base {
        Base::Two => {
            match magnitude {
                0 => "B",
                1 => "KiB",
                2 => "MiB",
                3 => "GiB",
                4 => "TiB",
                5 => "PiB",
                6 => "EiB",
                7 => "ZiB",
                _ => "YiB",
            }
        },
        Base::Ten => {
            match magnitude {
                0 => "B",
                1 => "KB",
                2 => "MB",
                3 => "GB",
                4 => "TB",
                5 => "PB",
                6 => "EB",
                7 => "ZB",
                _ => "YB",
            }
        },
    };
    proof {
        assert(r@ =~= spec_unit(*base, magnitude as nat));
    }
    r
}

/// A byte count reduced to a glanceable magnitude: a small value and the
/// matching unit prefix, derived once and never mutated.
pub struct GlancableSizesWithOrdersOfMagnitude {
    /// The unit label, e.g. `KiB` or `TB`; plain `B` for values below the
    /// base.
    pub unit_short: String,
    /// The reduced, rounded value shown before the unit.
    pub value: u64,
}

/// `spec_mag` stays below `k` whenever `v` is below `base^k`.
proof fn lemma_mag_lt(v: nat, base: nat, k: nat)
    requires
        base >= 2,
        k >= 1,
        v < pow(base as int, k),
    ensures
        spec_mag(v, base) < k,
    decreases k,
{
    reveal(pow);
    if v < base {
    } else {
        assert(pow(base as int, k) == base * pow(base as int, (k - 1) as nat));
        lemma_multiply_divide_lt(v as int, base as int, pow(base as int, (k - 1) as nat));
        assert(v / base < pow(base as int, (k - 1) as nat));
        if v / base < base {
            assert(spec_mag(v / base, base) == 0);
            assert(k >= 2) by {
                reveal(pow);
                assert(pow(base as int, 1) == base * pow(base as int, 0));
                assert(pow(base as int, 0) == 1);
                if k == 1 {
                    assert(v < base);
                }
            }
        } else {
            assert(k >= 2) by {
                reveal(pow);
                if k == 1 {
                    assert(pow(base as int, 1) == base * pow(base as int, 0));
                    assert(v < base);
                }
            }
            lemma_mag_lt(v / base, base, (k - 1) as nat);
        }
    }
}

/// The magnitude of any 64-bit byte count never exceeds the largest defined
/// unit prefix (index 8, `Y`/`Yi`); in fact it never exceeds 6.
pub proof fn lemma_magnitude_within_prefixes(v: u64, base: Base)
    ensures
        spec_mag(v as nat, spec_base_value(base)) <= 6,
{
    assert(pow(1000int, 7) == 1000000000000000000000int) by {
        reveal(pow);
        assert(pow(1000int, 0) == 1);
        assert(pow(1000int, 1) == 1000);
        assert(pow(1000int, 2) == 1000000);
        assert(pow(1000int, 3) == 1000000000);
        assert(pow(1000int, 4) == 1000000000000);
        assert(pow(1000int, 5) == 1000000000000000);
        assert(pow(1000int, 6) == 1000000000000000000);
    }
    assert(pow(1024int, 7) == 1180591620717411303424int) by {
        reveal(pow);
        assert(pow(1024int, 0) == 1);
        assert(pow(1024int, 1) == 1024);
        assert(pow(1024int, 2) == 1048576);
        assert(pow(1024int, 3) == 1073741824);
        assert(pow(1024int, 4) == 1099511627776);
        assert(pow(1024int, 5) == 1125899906842624);
        assert(pow(1024int, 6) == 1152921504606846976);
    }
    match base {
        Base::Two => {
            lemma_mag_lt(v as nat, 1024, 7);
        },
        Base::Ten => {
            lemma_mag_lt(v as nat, 1000, 7);
        },
    }
}

/// The final remainder is always below the base.
proof fn lemma_rem_lt_base(v: nat, base: nat)
    requires
        base >= 2,
    ensures
        v < base ==> spec_rem(v, base) == v,
        spec_rem(v, base) < base,
    decreases v,
{
    if v < base {
    } else {
        lemma_div_decreases(v as int, base as int);
        lemma_rem_lt_base(v / base, base);
    }
}

/// The rounded value never exceeds the base itself.
pub proof fn lemma_rounded_at_most_base(v: u64, base: Base)
    ensures
        spec_mag(v as nat, spec_base_value(base)) == 0 ==> spec_rounded(
            v as nat,
            spec_base_value(base),
        ) < spec_base_value(base),
        spec_rounded(v as nat, spec_base_value(base)) <= spec_base_value(base),
{
    let b = spec_base_value(base);
    lemma_rem_lt_base(v as nat, b);
    if spec_mag(v as nat, b) == 0 {
        assert(v < b);
    }
}

/// The rounded value is strictly below the base except in the one corner
/// where rounding bumps a final remainder of `base - 1` up to a full base.
pub proof fn lemma_rounded_below_base(v: u64, base: Base)
    requires
        !(spec_mag(v as nat, spec_base_value(base)) >= 1 && spec_rem(
            v as nat,
            spec_base_value(base),
        ) == spec_base_value(base) - 1 && 10 * (spec_prev(v as nat, spec_base_value(base))
            % spec_base_value(base)) > 9 * spec_base_value(base)),
    ensures
        spec_rounded(v as nat, spec_base_value(base)) < spec_base_value(base),
{
    let b = spec_base_value(base);
    lemma_rem_lt_base(v as nat, b);
    if spec_mag(v as nat, b) == 0 {
        assert(v < b);
    }
}

impl GlancableSizesWithOrdersOfMagnitude {
    /// The rendered label: the reduced value followed by its unit.
    pub open spec fn spec_label(&self) -> Seq<char> {
        crate::digits::spec_dec(self.value as nat).add(self.unit_short@)
    }

    /// Reduces `value` to a glanceable magnitude in the given base.
    ///
    /// The byte count is divided by the base until it falls below it, counting
    /// magnitude steps; the final remainder is rounded up by one when the
    /// fraction lost in the last step exceeds nine tenths of a unit; the
    /// magnitude step picks the unit prefix.  Zero renders as `0B`.
    pub fn new(value: u64, base: Base) -> (r: GlancableSizesWithOrdersOfMagnitude)
        ensures
            r.value as nat == spec_rounded(value as nat, spec_base_value(base)),
            r.unit_short@ == spec_unit(
                base,
                spec_mag(value as nat, spec_base_value(base)),
            ),
    {
        let numerical_base: u64 = match base {
            Base::Two => 1024,
            Base::Ten => 1000,
        };
        proof {
            lemma_magnitude_within_prefixes(value, base);
        }

        if value == 0 {
            return GlancableSizesWithOrdersOfMagnitude {
                unit_short: unit_str(&base, 0).to_owned(),
                value: 0,
            };
        }

        let ghost nb = spec_base_value(base);
        let mut remainder = value;
        let mut previous_remainder = 0u64;
        let mut magnitude = 0u64;

        while remainder >= numerical_base
            invariant
                numerical_base as nat == nb,
                nb == spec_base_value(base),
                2 <= numerical_base <= 1024,
                spec_mag(value as nat, nb) <= 6,
                remainder >= 1,
                spec_rem(value as nat, nb) == spec_rem(remainder as nat, nb),
                spec_mag(value as nat, nb) == magnitude + spec_mag(remainder as nat, nb),
                magnitude == 0 ==> remainder == value,
                magnitude >= 1 ==> remainder as nat == previous_remainder as nat / nb,
                if remainder >= numerical_base {
                    spec_prev(value as nat, nb) == spec_prev(remainder as nat, nb)
                } else {
                    magnitude >= 1 ==> spec_prev(value as nat, nb) == previous_remainder
                },
            decreases remainder,
        {
            previous_remainder = remainder;
            remainder = remainder / numerical_base;
            magnitude = magnitude + 1;
            proof {
                lemma_div_decreases(previous_remainder as int, numerical_base as int);
                lemma_div_non_zero(previous_remainder as int, numerical_base as int);
            }
        }

        // If more than nine tenths of a unit was lost in the last division
        // step, round the shown value up by one.
        if magnitude >= 1 {
            proof {
                lemma_fundamental_div_mod(previous_remainder as int, numerical_base as int);
            }
            let delta = previous_remainder - remainder * numerical_base;
            assert(delta as nat == spec_prev(value as nat, nb) % nb);
            if delta * 10 > numerical_base * 9 {
                remainder = remainder + 1;
            }
        }

        GlancableSizesWithOrdersOfMagnitude {
            unit_short: unit_str(&base, magnitude).to_owned(),
            value: remainder,
        }
    }

    /// The rendered label: the reduced value followed by its unit, e.g. `6TB`.
    pub fn label(&self) -> (r: String)
        ensures
            r@ == self.spec_label(),
    {
        let s = crate::digits::u64_to_string(self.value);
        s.concat(self.unit_short.as_str())
    }
}

} // verus!
