//! Database key layout of the wallet client module: the one-byte key
//! prefixes and the record keys that live under them.
use vstd::prelude::*;

verus! {

/// The key prefixes of the wallet client module's records.
#[derive(Clone, Copy, Debug, PartialEq, Eq, Structural)]
pub enum DbKeyPrefix {
    NextPegInTweakIndex,
    RecoveryState,
    RecoveryFinalized,
}

impl DbKeyPrefix {
    /// The byte that starts every key under this prefix.
    pub open spec fn spec_byte(self) -> u8 {
        match self {
            DbKeyPrefix::NextPegInTweakIndex => 0x2c,
            DbKeyPrefix::RecoveryState => 0x2d,
            DbKeyPrefix::RecoveryFinalized => 0x2e,
        }
    }

    /// The name under which the prefix is shown.
    pub open spec fn spec_name(self) -> Seq<char> {
        match self {
            DbKeyPrefix::NextPegInTweakIndex => "NextPegInTweakIndex"@,
            DbKeyPrefix::RecoveryState => "RecoveryState"@,
            DbKeyPrefix::RecoveryFinalized => "RecoveryFinalized"@,
        }
    }

    /// All prefixes, in the order of their bytes.
    pub open spec fn spec_all() -> Seq<DbKeyPrefix> {
        seq![
            DbKeyPrefix::NextPegInTweakIndex,
            DbKeyPrefix::RecoveryState,
            DbKeyPrefix::RecoveryFinalized,
        ]
    }

    /// The byte that starts every key under this prefix.
    pub fn to_byte(&self) -> (r: u8)
        ensures
            r == self.spec_byte(),
    {
        match self {
            DbKeyPrefix::NextPegInTweakIndex => 0x2c,
            DbKeyPrefix::RecoveryState => 0x2d,
            DbKeyPrefix::RecoveryFinalized => 0x2e,
        }
    }

    /// The prefix that a key byte stands for, if any.
    pub fn from_byte(b: u8) -> (r: Option<DbKeyPrefix>)
        ensures
            r matches Some(p) ==> p.spec_byte() == b,
            r is None ==> forall|p: DbKeyPrefix| #[trigger] p.spec_byte() != b,
    {
        if b == 0x2c {
            Some(DbKeyPrefix::NextPegInTweakIndex)
        } else if b == 0x2d {
            Some(DbKeyPrefix::RecoveryState)
        } else if b == 0x2e {
            Some(DbKeyPrefix::RecoveryFinalized)
        } else {
            None
        }
    }

    /// The name under which the prefix is shown.
    pub fn to_string(&self) -> (r: String)
        ensures
            r@ == self.spec_name(),
    {
        match self {
            DbKeyPrefix::NextPegInTweakIndex => String::from_str("NextPegInTweakIndex"),
            DbKeyPrefix::RecoveryState => String::from_str("RecoveryState"),
            DbKeyPrefix::RecoveryFinalized => String::from_str("RecoveryFinalized"),
        }
    }

    /// All prefixes, in the order of their bytes.
    pub fn all() -> (r: Vec<DbKeyPrefix>)
        ensures
            r@ == Self::spec_all(),
    {
        let r = vec![
            DbKeyPrefix::NextPegInTweakIndex,
            DbKeyPrefix::RecoveryState,
            DbKeyPrefix::RecoveryFinalized,
        ];
        assert(r@ =~= Self::spec_all());
        r
    }
}

/// Distinct prefixes start their keys with distinct bytes.
pub proof fn law_prefix_bytes_distinct(p: DbKeyPrefix, q: DbKeyPrefix)
    ensures
        p.spec_byte() == q.spec_byte() <==> p == q,
{
}

/// The list of all prefixes holds every prefix exactly once, in increasing
/// order of their bytes.
pub proof fn law_all_prefixes_listed(p: DbKeyPrefix)
    ensures
        DbKeyPrefix::spec_all().contains(p),
        forall|i: int, j: int|
            0 <= i < j < DbKeyPrefix::spec_all().len() ==> #[trigger] DbKeyPrefix::spec_all()[i].spec_byte()
                < #[trigger] DbKeyPrefix::spec_all()[j].spec_byte(),
{
    match p {
        DbKeyPrefix::NextPegInTweakIndex => assert(DbKeyPrefix::spec_all()[0] == p),
        DbKeyPrefix::RecoveryState => assert(DbKeyPrefix::spec_all()[1] == p),
        DbKeyPrefix::RecoveryFinalized => assert(DbKeyPrefix::spec_all()[2] == p),
    }
}

/// The key of the next peg-in tweak index record (a `u64`).
#[derive(Clone, Copy, Debug, PartialEq, Eq, Structural)]
pub struct NextPegInTweakIndexKey;

/// The key of the persisted wallet recovery state.
#[derive(Clone, Copy, Debug, PartialEq, Eq, Structural)]
pub struct RecoveryStateKey;

/// The query prefix of restore state records.
#[derive(Clone, Copy, Debug, PartialEq, Eq, Structural)]
pub struct RestoreStateKeyPrefix;

/// The key of the record that tells whether recovery was finalized (a
/// `bool`).
#[derive(Clone, Copy, Debug, PartialEq, Eq, Structural)]
pub struct RecoveryFinalizedKey;

/// The query prefix of recovery-finalized records.
#[derive(Clone, Copy, Debug, PartialEq, Eq, Structural)]
pub struct RecoveryFinalizedKeyPrefix;

impl NextPegInTweakIndexKey {
    /// The prefix this record is stored under.
    pub fn db_prefix(&self) -> (r: DbKeyPrefix)
        ensures
            r == DbKeyPrefix::NextPegInTweakIndex,
    {
        DbKeyPrefix::NextPegInTweakIndex
    }
}

impl RecoveryStateKey {
    /// The prefix this record is stored under.
    pub fn db_prefix(&self) -> (r: DbKeyPrefix)
        ensures
            r == DbKeyPrefix::RecoveryState,
    {
        DbKeyPrefix::RecoveryState
    }
}

impl RecoveryFinalizedKey {
    /// The prefix this record is stored under.
    pub fn db_prefix(&self) -> (r: DbKeyPrefix)
        ensures
            r == DbKeyPrefix::RecoveryFinalized,
    {
        DbKeyPrefix::RecoveryFinalized
    }
}

/// The byte and the shown name of each prefix.
pub proof fn law_prefix_bytes_and_names(p: DbKeyPrefix)
    ensures
        p == DbKeyPrefix::NextPegInTweakIndex ==> p.spec_byte() == 0x2c && p.spec_name() == "NextPegInTweakIndex"@,
        p == DbKeyPrefix::RecoveryState ==> p.spec_byte() == 0x2d && p.spec_name() == "RecoveryState"@,
        p == DbKeyPrefix::RecoveryFinalized ==> p.spec_byte() == 0x2e && p.spec_name() == "RecoveryFinalized"@,
{
}

} // verus!
