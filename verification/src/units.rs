//! Byte counts in the largest sensible binary unit.

use crate::text::{decimal_text, push_decimal};
use vstd::prelude::*;

verus! {

/// Bytes in one kibibyte.
pub const KIB: u64 = 0x400;

/// Bytes in one mebibyte.
pub const MIB: u64 = 0x10_0000;

/// Bytes in one gibibyte.
pub const GIB: u64 = 0x4000_0000;

/// Bytes in one tebibyte.
pub const TIB: u64 = 0x100_0000_0000;

/// Below this bound every integer is a double-precision number.
pub const EXACT_DOUBLE_BOUND: u64 = 0x20_0000_0000_0000;

/// The unit in which a byte quantity is displayed.
#[derive(Clone, Copy, Debug, PartialEq, Eq, Structural)]
pub enum ByteUnit {
    B,
    KB,
    MB,
    GB,
    TB,
}

impl ByteUnit {
    /// Number of bytes in one of this unit.
    pub open spec fn threshold(self) -> nat {
        match self {
            ByteUnit::B => 1,
            ByteUnit::KB => KIB as nat,
            ByteUnit::MB => MIB as nat,
            ByteUnit::GB => GIB as nat,
            ByteUnit::TB => TIB as nat,
        }
    }

    /// The next larger unit, where there is one.
    pub open spec fn next(self) -> Option<ByteUnit> {
        match self {
            ByteUnit::B => Some(ByteUnit::KB),
            ByteUnit::KB => Some(ByteUnit::MB),
            ByteUnit::MB => Some(ByteUnit::GB),
            ByteUnit::GB => Some(ByteUnit::TB),
            ByteUnit::TB => None,
        }
    }

    /// The text shown after a magnitude in this unit.
    pub open spec fn label_text(self) -> Seq<char> {
        match self {
            ByteUnit::B => "B"@,
            ByteUnit::KB => "KB"@,
            ByteUnit::MB => "MB"@,
            ByteUnit::GB => "GB"@,
            ByteUnit::TB => "TB"@,
        }
    }

    /// Number of bytes in one of this unit.
    pub fn bytes_per_unit(self) -> (t: u64)
        ensures
            t == self.threshold(),
    {
        match self {
            ByteUnit::B => 1,
            ByteUnit::KB => KIB,
            ByteUnit::MB => MIB,
            ByteUnit::GB => GIB,
            ByteUnit::TB => TIB,
        }
    }

    /// The text shown after a magnitude in this unit.
    pub fn label(self) -> (s: &'static str)
        ensures
            s@ == self.label_text(),
    {
        match self {
            ByteUnit::B => "B",
            ByteUnit::KB => "KB",
            ByteUnit::MB => "MB",
            ByteUnit::GB => "GB",
            ByteUnit::TB => "TB",
        }
    }
}

/// A rounded magnitude together with the unit it is counted in.
#[derive(Clone, Copy, Debug, PartialEq, Eq, Structural)]
pub struct ByteQuantity {
    pub magnitude: u64,
    pub unit: ByteUnit,
}

impl ByteQuantity {
    /// What holds of every quantity that `bytes_to_readable` produces: a
    /// magnitude below one unit is shown only in bytes, and rounding lifts a
    /// magnitude at most onto the next unit's threshold, never past it.
    pub open spec fn wf(self) -> bool {
        match self.unit {
            ByteUnit::B => self.magnitude < 1024,
            ByteUnit::KB | ByteUnit::MB | ByteUnit::GB => 1 <= self.magnitude <= 1024,
            ByteUnit::TB => 1 <= self.magnitude <= 0x100_0000,
        }
    }
}

/// The largest unit of which `bytes` holds at least one.
pub open spec fn unit_for(bytes: nat) -> ByteUnit {
    if bytes >= TIB {
        ByteUnit::TB
    } else if bytes >= GIB {
        ByteUnit::GB
    } else if bytes >= MIB {
        ByteUnit::MB
    } else if bytes >= KIB {
        ByteUnit::KB
    } else {
        ByteUnit::B
    }
}

/// Distance between neighbouring double-precision numbers around `bytes`:
/// one up to 2^53, doubling with every further binary digit.
pub open spec fn double_spacing(bytes: nat) -> nat
    decreases bytes,
{
    if bytes < EXACT_DOUBLE_BOUND {
        1
    } else {
        2 * double_spacing(bytes / 2)
    }
}

/// The multiple of `spacing` nearest to `n`; of two equally near multiples,
/// the even one.
pub open spec fn nearest_multiple_ties_even(n: nat, spacing: nat) -> nat {
    let below = n / spacing;
    let rest = n % spacing;
    if 2 * rest < spacing || (2 * rest == spacing && below % 2 == 0) {
        below * spacing
    } else {
        (below + 1) * spacing
    }
}

/// The double-precision number that stands for `bytes`: `bytes` itself up to
/// 2^53, above that the nearest number that a 53-bit significand can hold.
pub open spec fn nearest_double(bytes: nat) -> nat {
    if bytes < EXACT_DOUBLE_BOUND {
        bytes
    } else {
        nearest_multiple_ties_even(bytes, double_spacing(bytes))
    }
}

/// The magnitude displayed for `bytes`: its double-precision value divided by
/// the chosen unit and rounded to the nearest integer, halves away from zero.
/// The unit is chosen first and never revised, so 1023.6 MB shows as 1024 MB.
pub open spec fn readable_magnitude(bytes: nat) -> nat {
    let double = nearest_double(bytes);
    match unit_for(bytes) {
        ByteUnit::B => double,
        ByteUnit::KB => (double + 0x200) / 0x400,
        ByteUnit::MB => (double + 0x8_0000) / 0x10_0000,
        ByteUnit::GB => (double + 0x2000_0000) / 0x4000_0000,
        ByteUnit::TB => (double + 0x80_0000_0000) / 0x100_0000_0000,
    }
}

/// The displayed quantity for `bytes`.
pub open spec fn readable(bytes: nat) -> ByteQuantity {
    ByteQuantity { magnitude: readable_magnitude(bytes) as u64, unit: unit_for(bytes) }
}

/// The spacings that occur on a 64-bit count: the powers of two up to 2^11.
pub open spec fn is_spacing(spacing: nat) -> bool {
    spacing == 0x1 || spacing == 0x2 || spacing == 0x4 || spacing == 0x8 || spacing == 0x10
        || spacing == 0x20 || spacing == 0x40 || spacing == 0x80 || spacing == 0x100 || spacing
        == 0x200 || spacing == 0x400 || spacing == 0x800
}

/// Division by a spacing and by twice a spacing, spelled out for each
/// spacing.
proof fn lemma_spacing_cases(n: nat, steps: nat, spacing: nat)
    requires
        is_spacing(spacing),
    ensures
        n / (2 * spacing) == (n / 2) / spacing,
        spacing * (n / spacing) + n % spacing == n,
        n % spacing < spacing,
        (steps * spacing) % spacing == 0,
        (steps * spacing) / spacing == steps,
        (steps + 1) * spacing == steps * spacing + spacing,
        n / spacing >= 0x10_0000_0000_0000 && n < 0x8000_0000_0000_0000 ==> spacing <= 0x400,
{
    if spacing == 0x1 {
        assert(n / 0x2 == (n / 2) / 0x1);
    } else if spacing == 0x2 {
        assert(n / 0x4 == (n / 2) / 0x2);
    } else if spacing == 0x4 {
        assert(n / 0x8 == (n / 2) / 0x4);
    } else if spacing == 0x8 {
        assert(n / 0x10 == (n / 2) / 0x8);
    } else if spacing == 0x10 {
        assert(n / 0x20 == (n / 2) / 0x10);
    } else if spacing == 0x20 {
        assert(n / 0x40 == (n / 2) / 0x20);
    } else if spacing == 0x40 {
        assert(n / 0x80 == (n / 2) / 0x40);
    } else if spacing == 0x80 {
        assert(n / 0x100 == (n / 2) / 0x80);
    } else if spacing == 0x100 {
        assert(n / 0x200 == (n / 2) / 0x100);
    } else if spacing == 0x200 {
        assert(n / 0x400 == (n / 2) / 0x200);
    } else if spacing == 0x400 {
        assert(n / 0x800 == (n / 2) / 0x400);
    } else {
        assert(n / 0x1000 == (n / 2) / 0x800);
    }
}

/// The spacing around a 64-bit count is the one at which the count has 53
/// significant binary digits: divided by its spacing, a count lies below
/// 2^53, and from 2^52 on wherever the spacing is more than one.
pub proof fn lemma_double_spacing(bytes: nat)
    requires
        bytes <= u64::MAX,
    ensures
        is_spacing(double_spacing(bytes)),
        bytes / double_spacing(bytes) < EXACT_DOUBLE_BOUND,
        double_spacing(bytes) > 1 ==> bytes / double_spacing(bytes) >= EXACT_DOUBLE_BOUND / 2,
        bytes < EXACT_DOUBLE_BOUND <==> double_spacing(bytes) == 1,
    decreases bytes,
{
    if bytes >= EXACT_DOUBLE_BOUND {
        lemma_double_spacing(bytes / 2);
        lemma_spacing_cases(bytes, 0, double_spacing(bytes / 2));
        lemma_spacing_cases(bytes / 2, 0, double_spacing(bytes / 2));
    }
}

/// `nearest_double` is the count rounded to 53 significant binary digits:
/// a multiple of the spacing, no further from the count than half the
/// spacing, and an even multiple where the count lies halfway between two.
pub proof fn lemma_nearest_double(bytes: nat)
    requires
        bytes <= u64::MAX,
    ensures
        ({
            let spacing = double_spacing(bytes);
            let double = nearest_double(bytes);
            &&& double % spacing == 0
            &&& double / spacing <= EXACT_DOUBLE_BOUND
            &&& 2 * (double - bytes) <= spacing
            &&& 2 * (bytes - double) <= spacing
            &&& 2 * (double - bytes) == spacing || 2 * (bytes - double) == spacing ==> (double
                / spacing) % 2 == 0
            &&& bytes < EXACT_DOUBLE_BOUND ==> double == bytes
        }),
{
    let spacing = double_spacing(bytes);
    lemma_double_spacing(bytes);
    lemma_spacing_cases(bytes, bytes / spacing, spacing);
    lemma_spacing_cases(bytes, bytes / spacing + 1, spacing);
    assert(spacing * (bytes / spacing) == (bytes / spacing) * spacing) by (nonlinear_arith);
}

/// Distance between neighbouring double-precision numbers around `bytes`.
fn double_spacing_of(bytes: u64) -> (spacing: u64)
    ensures
        spacing == double_spacing(bytes as nat),
{
    let mut spacing: u64 = 1;
    let mut rest: u64 = bytes;
    proof {
        lemma_double_spacing(bytes as nat);
    }
    while rest >= EXACT_DOUBLE_BOUND
        invariant
            is_spacing(spacing as nat),
            is_spacing(double_spacing(bytes as nat)),
            spacing * double_spacing(rest as nat) == double_spacing(bytes as nat),
        decreases rest,
    {
        proof {
            let inner = double_spacing(rest as nat / 2);
            lemma_double_spacing(rest as nat / 2);
            assert(spacing * (2 * inner) == (2 * spacing) * inner) by (nonlinear_arith);
            assert(2 * spacing <= (2 * spacing) * inner) by (nonlinear_arith)
                requires
                    inner >= 1,
            ;
        }
        rest = rest / 2;
        spacing = spacing * 2;
    }
    assert(spacing * 1 == spacing) by (nonlinear_arith);
    spacing
}

/// The double-precision number that stands for `bytes`. It can be 2^64, one
/// more than the largest count.
fn nearest_double_of(bytes: u64) -> (double: u128)
    ensures
        double == nearest_double(bytes as nat),
        double <= 0x1_0000_0000_0000_0000,
        bytes < EXACT_DOUBLE_BOUND ==> double == bytes,
        bytes <= double + 0x400,
        double <= bytes + 0x400,
{
    let spacing: u64 = double_spacing_of(bytes);
    proof {
        lemma_double_spacing(bytes as nat);
        lemma_nearest_double(bytes as nat);
        assert(1 <= spacing <= 0x800);
        assert(2 * (nearest_double(bytes as nat) - bytes) <= 0x800);
        assert(2 * (bytes - nearest_double(bytes as nat)) <= 0x800);
    }
    let below: u64 = bytes / spacing;
    let rest: u64 = bytes % spacing;
    let twice: u64 = 2 * rest;
    let steps: u128 = if twice < spacing || (twice == spacing && below % 2 == 0) {
        below as u128
    } else {
        below as u128 + 1
    };
    assert(steps * spacing <= 0x20_0000_0000_0000 * spacing) by (nonlinear_arith)
        requires
            steps <= 0x20_0000_0000_0000,
    ;
    steps * (spacing as u128)
}

/// A magnitude and its unit as they are displayed, with one space between.
pub open spec fn quantity_text(magnitude: nat, unit: ByteUnit) -> Seq<char> {
    decimal_text(magnitude) + " "@ + unit.label_text()
}

/// The displayed quantity for `bytes`, as text.
pub open spec fn readable_text(bytes: nat) -> Seq<char> {
    quantity_text(readable_magnitude(bytes), unit_for(bytes))
}

/// The unit chosen for a byte count is no larger than necessary: the count
/// holds at least one of it, and less than one of the next larger unit. A
/// count below 1024 is shown in bytes and is its own magnitude.
pub proof fn lemma_unit_is_tight(bytes: nat)
    ensures
        unit_for(bytes) != ByteUnit::B ==> unit_for(bytes).threshold() <= bytes,
        unit_for(bytes).next() matches Some(larger) ==> bytes < larger.threshold(),
        unit_for(bytes).next() matches Some(larger) ==> larger.threshold() == 1024
            * unit_for(bytes).threshold(),
        bytes < 1024 ==> readable(bytes) == (ByteQuantity {
            magnitude: bytes as u64,
            unit: ByteUnit::B,
        }),
{
}

/// The magnitude is the count's double-precision value divided by the
/// unit's threshold and rounded, whichever the unit; and up to 2^53 the
/// double-precision value is the count itself, with no digit lost.
pub proof fn lemma_magnitude_is_rounded_quotient(bytes: nat)
    ensures
        ({
            let threshold = unit_for(bytes).threshold();
            2 * threshold * readable_magnitude(bytes) <= 2 * nearest_double(bytes) + threshold
                < 2 * threshold * (readable_magnitude(bytes) + 1)
        }),
        bytes < EXACT_DOUBLE_BOUND ==> nearest_double(bytes) == bytes,
{
    let double = nearest_double(bytes);
    let magnitude = readable_magnitude(bytes);
    let threshold = unit_for(bytes).threshold();
    match unit_for(bytes) {
        ByteUnit::B => {
            assert(magnitude == double);
            assert(threshold * magnitude == magnitude) by (nonlinear_arith)
                requires
                    threshold == 1,
            ;
        },
        ByteUnit::KB => {
            assert(0x400 * magnitude <= double + 0x200 < 0x400 * (magnitude + 1));
            assert(threshold * magnitude == 0x400 * magnitude) by (nonlinear_arith)
                requires
                    threshold == 0x400,
            ;
        },
        ByteUnit::MB => {
            assert(0x10_0000 * magnitude <= double + 0x8_0000 < 0x10_0000 * (magnitude + 1));
            assert(threshold * magnitude == 0x10_0000 * magnitude) by (nonlinear_arith)
                requires
                    threshold == 0x10_0000,
            ;
        },
        ByteUnit::GB => {
            assert(0x4000_0000 * magnitude <= double + 0x2000_0000);
            assert(double + 0x2000_0000 < 0x4000_0000 * (magnitude + 1));
            assert(threshold * magnitude == 0x4000_0000 * magnitude) by (nonlinear_arith)
                requires
                    threshold == 0x4000_0000,
            ;
        },
        ByteUnit::TB => {
            assert(0x100_0000_0000 * magnitude <= double + 0x80_0000_0000);
            assert(double + 0x80_0000_0000 < 0x100_0000_0000 * (magnitude + 1));
            assert(threshold * magnitude == 0x100_0000_0000 * magnitude) by (nonlinear_arith)
                requires
                    threshold == 0x100_0000_0000,
            ;
        },
    }
    assert(2 * threshold * magnitude == 2 * (threshold * magnitude)) by (nonlinear_arith);
    assert(2 * threshold * (magnitude + 1) == 2 * (threshold * magnitude) + 2 * threshold)
        by (nonlinear_arith);
    assert(2 * (threshold * magnitude) <= 2 * double + threshold < 2 * (threshold * magnitude)
        + 2 * threshold);
}

/// The largest unit of which `bytes` holds at least one.
fn select_unit(bytes: u64) -> (unit: ByteUnit)
    ensures
        unit == unit_for(bytes as nat),
{
    if bytes >= TIB {
        ByteUnit::TB
    } else if bytes >= GIB {
        ByteUnit::GB
    } else if bytes >= MIB {
        ByteUnit::MB
    } else if bytes >= KIB {
        ByteUnit::KB
    } else {
        ByteUnit::B
    }
}

/// Converts a byte count into the largest unit of which it holds at least
/// one, with the magnitude rounded to the nearest integer in that unit.
///
/// The count is taken at double precision before it is divided, so above
/// 2^53 bytes the last few digits of the count do not take part.
pub fn bytes_to_readable(bytes: u64) -> (quantity: ByteQuantity)
    ensures
        quantity == readable(bytes as nat),
        quantity.unit == unit_for(bytes as nat),
        quantity.magnitude == readable_magnitude(bytes as nat),
        quantity.wf(),
        quantity.unit != ByteUnit::B ==> quantity.unit.threshold() <= bytes,
        quantity.unit.next() matches Some(larger) ==> bytes < larger.threshold(),
        bytes < 1024 ==> quantity.unit == ByteUnit::B && quantity.magnitude == bytes,
{
    let unit = select_unit(bytes);
    let per_unit: u64 = unit.bytes_per_unit();
    let double: u128 = nearest_double_of(bytes);
    let half: u64 = per_unit / 2;
    let rounded: u128 = (double + half as u128) / (per_unit as u128);
    proof {
        match unit {
            ByteUnit::B => {
                assert(rounded == (double + 0) / 1);
            },
            ByteUnit::KB => {
                assert(rounded == (double + 0x200) / 0x400);
                assert(1 <= rounded <= 1024);
            },
            ByteUnit::MB => {
                assert(rounded == (double + 0x8_0000) / 0x10_0000);
                assert(1 <= rounded <= 1024);
            },
            ByteUnit::GB => {
                assert(rounded == (double + 0x2000_0000) / 0x4000_0000);
                assert(1 <= rounded <= 1024);
            },
            ByteUnit::TB => {
                assert(rounded == (double + 0x80_0000_0000) / 0x100_0000_0000);
                assert(1 <= rounded <= 0x100_0000);
            },
        }
    }
    ByteQuantity { magnitude: rounded as u64, unit }
}

/// Appends a quantity as it is displayed: the magnitude, a space, the unit.
pub fn push_quantity(text: &mut String, quantity: ByteQuantity)
    ensures
        final(text)@ == old(text)@ + quantity_text(quantity.magnitude as nat, quantity.unit),
{
    push_decimal(text, quantity.magnitude);
    text.append(" ");
    text.append(quantity.unit.label());
}

/// Appends a byte count as it is displayed in its largest sensible unit.
pub fn push_readable(text: &mut String, bytes: u64)
    ensures
        final(text)@ == old(text)@ + readable_text(bytes as nat),
{
    push_quantity(text, bytes_to_readable(bytes));
}

} // verus!
