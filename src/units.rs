use vstd::prelude::*;

verus! {

/// How the values of a series are displayed. The unit never changes the
/// stored numbers, only their labels.
#[derive(Clone, Copy, Debug, PartialEq, Eq, Structural)]
pub enum ChartUnits {
    /// A plain number, shown with two decimal digits.
    Value,
    /// A size in KiB, shown as a byte magnitude (`1.57MB`).
    KiloBytes,
    /// A duration in seconds, shown in whole milliseconds (`2500ms`).
    Seconds,
}

impl Default for ChartUnits {
    fn default() -> (r: Self)
        ensures
            r == ChartUnits::Value,
    {
        ChartUnits::Value
    }
}

/// What a configured step measures, as far as the choice of units goes.
#[derive(Clone, Copy, Debug, PartialEq, Eq, Structural)]
pub enum StepKind {
    /// An HTTP request: its sample is a duration.
    Http,
    /// One of the system load averages (1, 5 or 15 minutes).
    LoadAverage,
    /// Any other system reading (memory, disk): a size in KiB.
    OtherSystem,
    /// Anything else.
    Other,
}

pub open spec fn units_of(kind: StepKind) -> ChartUnits {
    match kind {
        StepKind::Http => ChartUnits::Seconds,
        StepKind::LoadAverage => ChartUnits::Value,
        StepKind::OtherSystem => ChartUnits::KiloBytes,
        StepKind::Other => ChartUnits::Value,
    }
}

/// The initial units of the chart of a step of the given kind.
pub fn units_for_step(kind: StepKind) -> (r: ChartUnits)
    ensures
        r == units_of(kind),
{
    match kind {
        StepKind::Http => ChartUnits::Seconds,
        StepKind::LoadAverage => ChartUnits::Value,
        StepKind::OtherSystem => ChartUnits::KiloBytes,
        StepKind::Other => ChartUnits::Value,
    }
}

/// Step between two byte magnitudes.
pub const BYTE_BASE: u128 = 1000;

/// Index of the largest magnitude suffix (`YB`).
pub const MAX_BYTE_EXPONENT: usize = 8;

pub open spec fn pow1000(e: nat) -> int
    decreases e,
{
    if e == 0 {
        1
    } else {
        1000 * pow1000((e - 1) as nat)
    }
}

/// The exponent of the byte magnitude of `whole` bytes (`whole >= 1`): the
/// largest `e <= 8` with `1000^e <= whole`.
pub open spec fn is_byte_exponent(whole: int, e: nat) -> bool {
    &&& e <= MAX_BYTE_EXPONENT
    &&& pow1000(e) <= whole
    &&& (e == MAX_BYTE_EXPONENT || whole < pow1000(e + 1))
}

pub proof fn lemma_pow1000_monotone(a: nat, b: nat)
    requires
        a <= b,
    ensures
        1 <= pow1000(a) <= pow1000(b),
    decreases b,
{
    if a < b {
        lemma_pow1000_monotone(a, (b - 1) as nat);
    } else {
        lemma_pow1000_positive(a);
    }
}

pub proof fn lemma_pow1000_positive(a: nat)
    ensures
        pow1000(a) >= 1,
    decreases a,
{
    if a > 0 {
        lemma_pow1000_positive((a - 1) as nat);
    }
}

/// The byte exponent of a magnitude is unique, so the suffix chosen for a
/// number of bytes depends on that number alone.
pub proof fn lemma_byte_exponent_unique(whole: int, e1: nat, e2: nat)
    requires
        is_byte_exponent(whole, e1),
        is_byte_exponent(whole, e2),
    ensures
        e1 == e2,
{
    if e1 < e2 {
        lemma_pow1000_monotone(e1 + 1, e2);
    } else if e2 < e1 {
        lemma_pow1000_monotone(e2 + 1, e1);
    }
}

/// Exponent of the byte magnitude of a value whose whole part is `whole`:
/// the largest unit among B, KB, ..., YB that the value reaches.
pub fn byte_exponent(whole: u128) -> (e: usize)
    requires
        whole >= 1,
    ensures
        is_byte_exponent(whole as int, e as nat),
{
    let mut e: usize = 0;
    let mut scale: u128 = 1;
    while e < MAX_BYTE_EXPONENT && scale <= whole / BYTE_BASE
        invariant
            e <= MAX_BYTE_EXPONENT,
            scale as int == pow1000(e as nat),
            scale <= whole,
        decreases MAX_BYTE_EXPONENT - e,
    {
        scale = scale * BYTE_BASE;
        e = e + 1;
    }
    proof {
        if e < MAX_BYTE_EXPONENT {
            assert(scale > whole / 1000);
            assert(scale * 1000 > whole) by (nonlinear_arith)
                requires
                    scale > whole / 1000,
            ;
        }
    }
    e
}

pub open spec fn byte_suffixes() -> Seq<Seq<char>> {
    seq!["B"@, "KB"@, "MB"@, "GB"@, "TB"@, "PB"@, "EB"@, "ZB"@, "YB"@]
}

/// Suffix of the byte magnitude with the given exponent, the exponent
/// clamped to the largest suffix.
pub fn byte_suffix(e: usize) -> (r: &'static str)
    ensures
        e <= MAX_BYTE_EXPONENT ==> r@ == byte_suffixes()[e as int],
        e > MAX_BYTE_EXPONENT ==> r@ == byte_suffixes()[MAX_BYTE_EXPONENT as int],
{
    match e {
        0 => "B",
        1 => "KB",
        2 => "MB",
        3 => "GB",
        4 => "TB",
        5 => "PB",
        6 => "EB",
        7 => "ZB",
        _ => "YB",
    }
}

} // verus!
