//! Storage capacity and usage summed over volumes.

use vstd::prelude::*;

verus! {

/// Capacity and free space of one volume, in bytes.
#[derive(Clone, Copy, Debug, PartialEq, Eq, Structural)]
pub struct VolumeStat {
    pub total_bytes: u64,
    pub available_bytes: u64,
}

/// Capacity and used space of all volumes together, in bytes.
#[derive(Clone, Copy, Debug, PartialEq, Eq, Structural)]
pub struct StorageSummary {
    pub total_bytes: u64,
    pub used_bytes: u64,
}

impl StorageSummary {
    /// No more is used than there is.
    pub open spec fn wf(self) -> bool {
        self.used_bytes <= self.total_bytes
    }
}

/// Why a set of volume figures was rejected.
#[derive(Clone, Copy, Debug, PartialEq, Eq, Structural)]
pub enum IntegrityError {
    /// The volumes report more free space than capacity.
    AvailableExceedsTotal,
    /// The capacities add up to more than a 64-bit count can hold.
    CapacityOverflow,
}

/// Sum of the capacities of `volumes`.
pub open spec fn total_sum(volumes: Seq<VolumeStat>) -> nat
    decreases volumes.len(),
{
    if volumes.len() == 0 {
        0
    } else {
        total_sum(volumes.drop_last()) + volumes.last().total_bytes as nat
    }
}

/// Sum of the free space of `volumes`.
pub open spec fn available_sum(volumes: Seq<VolumeStat>) -> nat
    decreases volumes.len(),
{
    if volumes.len() == 0 {
        0
    } else {
        available_sum(volumes.drop_last()) + volumes.last().available_bytes as nat
    }
}

/// What `aggregate` returns for `volumes`.
pub open spec fn aggregated(volumes: Seq<VolumeStat>) -> Result<StorageSummary, IntegrityError> {
    let total = total_sum(volumes);
    let available = available_sum(volumes);
    if available > total {
        Err(IntegrityError::AvailableExceedsTotal)
    } else if total > u64::MAX {
        Err(IntegrityError::CapacityOverflow)
    } else {
        Ok(StorageSummary { total_bytes: total as u64, used_bytes: (total - available) as u64 })
    }
}

/// Neither sum exceeds the number of volumes times the largest 64-bit count.
proof fn lemma_sums_bounded(volumes: Seq<VolumeStat>)
    ensures
        total_sum(volumes) <= volumes.len() * u64::MAX,
        available_sum(volumes) <= volumes.len() * u64::MAX,
    decreases volumes.len(),
{
    if volumes.len() > 0 {
        lemma_sums_bounded(volumes.drop_last());
        assert((volumes.len() - 1) * u64::MAX + u64::MAX == volumes.len() * u64::MAX)
            by (nonlinear_arith);
    }
}

/// The sums over two runs of volumes add up to the sums over both: volumes
/// can be summed in parts.
pub proof fn lemma_sums_of_parts(first: Seq<VolumeStat>, second: Seq<VolumeStat>)
    ensures
        total_sum(first + second) == total_sum(first) + total_sum(second),
        available_sum(first + second) == available_sum(first) + available_sum(second),
    decreases second.len(),
{
    if second.len() == 0 {
        assert(first + second =~= first);
    } else {
        lemma_sums_of_parts(first, second.drop_last());
        assert((first + second).drop_last() =~= first + second.drop_last());
    }
}

/// Exchanging two neighbouring runs of volumes changes neither sum: the
/// order in which the volumes are listed does not matter.
pub proof fn lemma_sums_ignore_order(
    before: Seq<VolumeStat>,
    left: Seq<VolumeStat>,
    right: Seq<VolumeStat>,
    after: Seq<VolumeStat>,
)
    ensures
        total_sum(before + left + right + after) == total_sum(before + right + left + after),
        available_sum(before + left + right + after) == available_sum(
            before + right + left + after,
        ),
        aggregated(before + left + right + after) == aggregated(before + right + left + after),
{
    lemma_sums_of_parts(before, left);
    lemma_sums_of_parts(before + left, right);
    lemma_sums_of_parts(before + left + right, after);
    lemma_sums_of_parts(before, right);
    lemma_sums_of_parts(before + right, left);
    lemma_sums_of_parts(before + right + left, after);
}

/// Sums capacity and free space over all volumes and derives the space in
/// use.
///
/// Figures with more free space than capacity are rejected, and so are
/// capacities beyond the range of a 64-bit count; no volumes give a summary
/// of zeros.
pub fn aggregate(volumes: &Vec<VolumeStat>) -> (summary: Result<StorageSummary, IntegrityError>)
    ensures
        summary == aggregated(volumes@),
        summary matches Ok(s) ==> s.wf(),
{
    let mut total: u128 = 0;
    let mut available: u128 = 0;
    let mut i: usize = 0;
    while i < volumes.len()
        invariant
            i <= volumes.len(),
            total == total_sum(volumes@.take(i as int)),
            available == available_sum(volumes@.take(i as int)),
        decreases volumes.len() - i,
    {
        proof {
            lemma_sums_bounded(volumes@.take(i as int));
            assert(i * u64::MAX + u64::MAX <= u128::MAX) by (nonlinear_arith)
                requires
                    i <= u64::MAX,
            ;
            assert(volumes@.take(i + 1).drop_last() =~= volumes@.take(i as int));
        }
        total = total + volumes[i].total_bytes as u128;
        available = available + volumes[i].available_bytes as u128;
        i = i + 1;
    }
    assert(volumes@.take(i as int) =~= volumes@);
    if available > total {
        Err(IntegrityError::AvailableExceedsTotal)
    } else if total > u64::MAX as u128 {
        Err(IntegrityError::CapacityOverflow)
    } else {
        Ok(StorageSummary { total_bytes: total as u64, used_bytes: (total - available) as u64 })
    }
}

} // verus!
