//! Human-readable sizes: a byte count as a short text with a decimal unit.

use crate::decimal::{digit_char, int_text, nat_text, push_int, push_nat};
use vstd::prelude::*;
use vstd::string::*;

verus! {

/// Bytes in a kilobyte.
pub const KILO: i64 = 1_000;

/// Bytes in a megabyte.
pub const MEGA: i64 = 1_000_000;

/// Bytes in a gigabyte.
pub const GIGA: i64 = 1_000_000_000;

/// The unit a size is shown in.
#[derive(Clone, Copy, Debug, PartialEq, Eq, Structural)]
pub enum Unit {
    Byte,
    Kilo,
    Mega,
    Giga,
}

impl Unit {
    /// The largest unit whose size `n` strictly exceeds; a count that equals
    /// a unit's size is still shown in the unit below.
    pub open spec fn of(n: int) -> Unit {
        if n > GIGA {
            Unit::Giga
        } else if n > MEGA {
            Unit::Mega
        } else if n > KILO {
            Unit::Kilo
        } else {
            Unit::Byte
        }
    }

    /// The number of bytes in one unit.
    pub open spec fn bytes(self) -> int {
        match self {
            Unit::Byte => 1,
            Unit::Kilo => KILO as int,
            Unit::Mega => MEGA as int,
            Unit::Giga => GIGA as int,
        }
    }

    /// The unit's symbol.
    pub open spec fn symbol(self) -> Seq<char> {
        match self {
            Unit::Byte => seq!['B'],
            Unit::Kilo => seq!['k', 'B'],
            Unit::Mega => seq!['M', 'B'],
            Unit::Giga => seq!['G', 'B'],
        }
    }

    /// Selects the unit for a byte count.
    pub fn select(n: i64) -> (unit: Unit)
        ensures
            unit == Unit::of(n as int),
    {
        if n > GIGA {
            Unit::Giga
        } else if n > MEGA {
            Unit::Mega
        } else if n > KILO {
            Unit::Kilo
        } else {
            Unit::Byte
        }
    }

    /// Appends the unit's symbol to `out`.
    pub fn push_symbol(self, out: &mut String)
        ensures
            final(out)@ == old(out)@ + self.symbol(),
    {
        proof {
            reveal_strlit("B");
            reveal_strlit("kB");
            reveal_strlit("MB");
            reveal_strlit("GB");
        }
        match self {
            Unit::Byte => out.append("B"),
            Unit::Kilo => out.append("kB"),
            Unit::Mega => out.append("MB"),
            Unit::Giga => out.append("GB"),
        }
        assert(out@ =~= old(out)@ + self.symbol());
    }
}

/// `n` bytes counted in tenths of `unit`, rounded to the nearest tenth; a
/// count halfway between two tenths goes to the one further from zero.
pub open spec fn tenths(n: int, unit: Unit) -> int {
    if n >= 0 {
        (20 * n + unit.bytes()) / (2 * unit.bytes())
    } else {
        -((20 * -n + unit.bytes()) / (2 * unit.bytes()))
    }
}

/// A number of tenths as a decimal: the whole part, then a point and the
/// tenth unless the tenth is zero.
pub open spec fn tenths_text(t: int) -> Seq<char>
    recommends
        t >= 0 || t % 10 == 0,
{
    if t % 10 == 0 {
        int_text(t / 10)
    } else {
        int_text(t / 10) + seq!['.', digit_char(t % 10)]
    }
}

/// The text that shows a size: nothing when the size is unknown, else the
/// count in its unit to one decimal place, a space and the unit's symbol.
pub open spec fn size_text(len: Option<int>) -> Seq<char> {
    match len {
        None => Seq::<char>::empty(),
        Some(n) => tenths_text(tenths(n, Unit::of(n))) + seq![' '] + Unit::of(n).symbol(),
    }
}

/// Counts `n` bytes in tenths of `unit`.
fn round_to_tenths(n: i64, unit: Unit) -> (t: u64)
    requires
        n > KILO,
        unit == Unit::of(n as int),
    ensures
        t == tenths(n as int, unit),
{
    let wide: u128 = n as u128;
    let t: u128 = match unit {
        Unit::Byte => 10 * wide,
        Unit::Kilo => (20 * wide + 1_000) / 2_000,
        Unit::Mega => (20 * wide + 1_000_000) / 2_000_000,
        Unit::Giga => (20 * wide + 1_000_000_000) / 2_000_000_000,
    };
    t as u64
}

/// A length that may be unknown, as a mathematical integer.
pub open spec fn len_view(len: Option<i64>) -> Option<int> {
    match len {
        Some(n) => Some(n as int),
        None => None,
    }
}

/// Shows a size as text.
pub fn format_size(len: Option<i64>) -> (text: String)
    ensures
        text@ == size_text(len_view(len)),
{
    let mut out = String::new();
    match len {
        None => {},
        Some(n) => {
            let unit = Unit::select(n);
            if n <= KILO {
                proof {
                    lemma_bytes_are_whole(n as int);
                }
                push_int(&mut out, n);
            } else {
                let t = round_to_tenths(n, unit);
                push_nat(&mut out, t / 10);
                if t % 10 != 0 {
                    out.append(".");
                    push_nat(&mut out, t % 10);
                }
                proof {
                    reveal_strlit(".");
                    assert(out@ =~= tenths_text(t as int));
                }
            }
            out.append(" ");
            unit.push_symbol(&mut out);
            proof {
                reveal_strlit(" ");
                assert(out@ =~= size_text(Some(n as int)));
            }
        },
    }
    out
}

/// Rounding goes to the nearest tenth: no count lies further than half a
/// tenth of the unit from what is shown for it, and a count halfway between
/// two tenths is shown as the greater.
pub proof fn tenths_are_nearest(n: int, unit: Unit)
    requires
        n >= 0,
    ensures
        -unit.bytes() <= 2 * (10 * n - tenths(n, unit) * unit.bytes()) < unit.bytes(),
{
    let t = tenths(n, unit);
    match unit {
        Unit::Byte => {
            assert(t == (20 * n + 1) / 2);
            assert(t * unit.bytes() == t * 1);
        },
        Unit::Kilo => {
            assert(t == (20 * n + 1_000) / 2_000);
            assert(t * unit.bytes() == t * 1_000);
        },
        Unit::Mega => {
            assert(t == (20 * n + 1_000_000) / 2_000_000);
            assert(t * unit.bytes() == t * 1_000_000);
        },
        Unit::Giga => {
            assert(t == (20 * n + 1_000_000_000) / 2_000_000_000);
            assert(t * unit.bytes() == t * 1_000_000_000);
        },
    }
}

/// A count shown in bytes has no fraction: its text is the count itself.
pub proof fn lemma_bytes_are_whole(n: int)
    ensures
        tenths(n, Unit::Byte) == 10 * n,
        tenths_text(tenths(n, Unit::Byte)) == int_text(n),
{
    assert(Unit::Byte.bytes() == 1);
    if n >= 0 {
        assert((20 * n + 1) / 2 == 10 * n);
    } else {
        assert((20 * -n + 1) / 2 == 10 * -n);
    }
}

} // verus!
