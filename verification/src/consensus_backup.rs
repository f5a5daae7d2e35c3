//! Bookkeeping of the consensus backup: the stored units are numbered from
//! 0 upwards, a new unit goes after the highest stored one, and reading the
//! backup yields all stored units' bytes one after the other.
use vstd::prelude::*;

verus! {

/// The byte contents of a list of stored units.
pub open spec fn units_bytes(units: Seq<Vec<u8>>) -> Seq<Seq<u8>> {
    units.map_values(|u: Vec<u8>| u@)
}

/// The backup data that a reader hands back: the bytes of the stored units,
/// in the order the database lists them, one after the other.
pub fn concatenate_backup_units(units: &Vec<Vec<u8>>) -> (r: Vec<u8>)
    ensures
        r@ == units_bytes(units@).flatten(),
{
    let mut r: Vec<u8> = Vec::new();
    let n = units.len();
    let mut i: usize = 0;
    while i < n
        invariant
            n == units@.len(),
            0 <= i <= n,
            r@ == units_bytes(units@.take(i as int)).flatten(),
        decreases n - i,
    {
        let ghost before = r@;
        r.extend_from_slice(units[i].as_slice());
        proof {
            assert(r@ =~= before + units@[i as int]@);
            assert(units_bytes(units@.take(i + 1)) =~= units_bytes(units@.take(i as int)).push(
                units@[i as int]@,
            ));
            units_bytes(units@.take(i as int)).lemma_flatten_push(units@[i as int]@);
        }
        i = i + 1;
    }
    assert(units@.take(n as int) =~= units@);
    r
}

/// The index under which the next unit is stored: one past the highest
/// stored index, or 0 when nothing is stored.
pub fn next_unit_index(highest_stored: Option<u64>) -> (r: u64)
    requires
        highest_stored matches Some(h) ==> h < u64::MAX,
    ensures
        r == match highest_stored {
            Some(h) => h + 1,
            None => 0,
        },
{
    match highest_stored {
        Some(h) => h + 1,
        None => 0,
    }
}

/// Reading the backup after one more unit was stored yields what it yielded
/// before, followed by the new unit's bytes.
pub proof fn law_read_after_append(units: Seq<Vec<u8>>, unit: Vec<u8>)
    ensures
        units_bytes(units.push(unit)).flatten() == units_bytes(units).flatten() + unit@,
{
    assert(units_bytes(units.push(unit)) =~= units_bytes(units).push(unit@));
    units_bytes(units).lemma_flatten_push(unit@);
}

} // verus!
