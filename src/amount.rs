use vstd::prelude::*;

use crate::error::Error;

verus! {

/// Width in bytes of the amount stored in a balance-bearing cell.
pub const UDT_LEN: usize = 16;

/// The unsigned number that `s` encodes, least significant byte first.
pub open spec fn le_value(s: Seq<u8>) -> nat
    decreases s.len(),
{
    if s.len() == 0 {
        0
    } else {
        s[0] as nat + 256 * le_value(s.drop_first())
    }
}

/// `256` raised to the power `n`.
pub open spec fn pow256(n: nat) -> nat
    decreases n,
{
    if n == 0 {
        1
    } else {
        256 * pow256((n - 1) as nat)
    }
}

/// Every cell of the group holds exactly `UDT_LEN` bytes.
pub open spec fn well_formed(cells: Seq<Seq<u8>>) -> bool {
    forall|i: int| 0 <= i < cells.len() ==> (#[trigger] cells[i]).len() == UDT_LEN
}

/// The exact sum of the amounts that the cells encode.
pub open spec fn total(cells: Seq<Seq<u8>>) -> nat
    decreases cells.len(),
{
    if cells.len() == 0 {
        0
    } else {
        total(cells.drop_last()) + le_value(cells.last())
    }
}

/// What aggregating a group yields: an encoding failure if some cell is not
/// exactly `UDT_LEN` bytes long, an overflow if the sum does not fit in 128
/// bits, and the sum otherwise.
pub open spec fn group_total(cells: Seq<Seq<u8>>) -> Result<u128, Error> {
    if !well_formed(cells) {
        Err(Error::Encoding)
    } else if total(cells) > u128::MAX {
        Err(Error::Overflow)
    } else {
        Ok(total(cells) as u128)
    }
}

proof fn lemma_le_value_bound(s: Seq<u8>)
    ensures
        le_value(s) < pow256(s.len()),
    decreases s.len(),
{
    if s.len() > 0 {
        lemma_le_value_bound(s.drop_first());
    }
}

proof fn lemma_total_prefix_le(cells: Seq<Seq<u8>>, j: int, k: int)
    requires
        0 <= j <= k <= cells.len(),
    ensures
        total(cells.take(j)) <= total(cells.take(k)),
    decreases k - j,
{
    if j < k {
        lemma_total_prefix_le(cells, j, k - 1);
        assert(cells.take(k).drop_last() =~= cells.take(k - 1));
    }
}

/// Decodes the amount that a cell's data holds: `None` unless the data is
/// exactly `UDT_LEN` bytes long.
pub fn decode_amount(data: &[u8]) -> (r: Option<u128>)
    ensures
        r is Some <==> data@.len() == UDT_LEN,
        r is Some ==> r->Some_0 as nat == le_value(data@),
{
    if data.len() != UDT_LEN {
        return None;
    }
    proof {
        reveal_with_fuel(pow256, 17);
        assert(pow256(16) == u128::MAX as nat + 1);
    }
    let mut acc: u128 = 0;
    let mut i: usize = UDT_LEN;
    while i > 0
        invariant
            i <= UDT_LEN,
            data@.len() == UDT_LEN,
            pow256(16) == u128::MAX as nat + 1,
            acc as nat == le_value(data@.subrange(i as int, UDT_LEN as int)),
        decreases i,
    {
        let ghost rest = data@.subrange(i as int, UDT_LEN as int);
        let ghost next = data@.subrange(i - 1, UDT_LEN as int);
        proof {
            assert(next.drop_first() =~= rest);
            lemma_le_value_bound(next);
            lemma_pow256_mono(next.len(), 16);
        }
        acc = data[i - 1] as u128 + 256 * acc;
        i = i - 1;
    }
    assert(data@.subrange(0, UDT_LEN as int) =~= data@);
    Some(acc)
}

proof fn lemma_pow256_mono(m: nat, n: nat)
    requires
        m <= n,
    ensures
        pow256(m) <= pow256(n),
    decreases n - m,
{
    if m < n {
        lemma_pow256_mono(m, (n - 1) as nat);
    }
}

/// Sums the amounts held by one group of cells. Every cell is checked for
/// its width before anything is added, so a malformed cell is reported as
/// such whatever the other cells hold; an empty group sums to zero.
pub fn sum_amounts(cells: &[Vec<u8>]) -> (r: Result<u128, Error>)
    ensures
        r == group_total(cells.deep_view()),
{
    let ghost groups = cells.deep_view();
    proof {
        assert forall|j: int| 0 <= j < groups.len() implies #[trigger] groups[j] == cells@[j]@ by {
            assert(groups[j] =~= cells@[j]@);
        }
    }
    let n = cells.len();
    let mut i: usize = 0;
    while i < n
        invariant
            n == cells@.len(),
            n == groups.len(),
            groups == cells.deep_view(),
            i <= n,
            forall|j: int| 0 <= j < groups.len() ==> #[trigger] groups[j] == cells@[j]@,
            forall|j: int| 0 <= j < i ==> (#[trigger] groups[j]).len() == UDT_LEN,
        decreases n - i,
    {
        if cells[i].len() != UDT_LEN {
            assert(groups[i as int].len() != UDT_LEN);
            return Err(Error::Encoding);
        }
        i = i + 1;
    }
    assert(well_formed(groups));
    let mut acc: u128 = 0;
    let mut k: usize = 0;
    while k < n
        invariant
            n == cells@.len(),
            n == groups.len(),
            groups == cells.deep_view(),
            k <= n,
            forall|j: int| 0 <= j < groups.len() ==> #[trigger] groups[j] == cells@[j]@,
            well_formed(groups),
            acc as nat == total(groups.take(k as int)),
        decreases n - k,
    {
        let value = match decode_amount(cells[k].as_slice()) {
            Some(v) => v,
            None => {
                assert(groups[k as int].len() == UDT_LEN);
                return Err(Error::Encoding);
            },
        };
        proof {
            assert(groups.take(k + 1).drop_last() =~= groups.take(k as int));
            assert(groups.take(k + 1).last() == groups[k as int]);
            assert(groups.take(n as int) =~= groups);
        }
        if value > u128::MAX - acc {
            proof {
                lemma_total_prefix_le(groups, k + 1, n as int);
            }
            return Err(Error::Overflow);
        }
        acc = acc + value;
        k = k + 1;
    }
    assert(groups.take(n as int) =~= groups);
    Ok(acc)
}

/// An empty group sums to exactly zero.
pub proof fn lemma_empty_group_sums_to_zero(cells: Seq<Seq<u8>>)
    requires
        cells.len() == 0,
    ensures
        group_total(cells) == Ok::<u128, Error>(0),
{
}

/// A group that holds a cell of any width other than `UDT_LEN` is refused
/// with an encoding failure, whatever the other cells hold.
pub proof fn lemma_malformed_cell_rejected(cells: Seq<Seq<u8>>, i: int)
    requires
        0 <= i < cells.len(),
        cells[i].len() != UDT_LEN,
    ensures
        group_total(cells) == Err::<u128, Error>(Error::Encoding),
{
}

} // verus!
