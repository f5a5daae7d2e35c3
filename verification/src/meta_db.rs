//! Database key layout of the meta server module: the one-byte key prefixes,
//! the record keys under them, and which keys each query prefix selects.
use vstd::prelude::*;

verus! {

/// Namespaces DB keys for this module.
#[derive(Clone, Copy, Debug, PartialEq, Eq, Structural)]
pub enum DbKeyPrefix {
    /// How we want to vote
    ///
    /// Private, not part of the consensus, but only local state.
    Desired,
    /// Current consensus
    Consensus,
    /// Current submitted votes
    Submissions,
}

impl DbKeyPrefix {
    /// The byte that starts every key under this prefix.
    pub open spec fn spec_byte(self) -> u8 {
        match self {
            DbKeyPrefix::Desired => 0x00,
            DbKeyPrefix::Consensus => 0x01,
            DbKeyPrefix::Submissions => 0x02,
        }
    }

    /// The name under which the prefix is shown.
    pub open spec fn spec_name(self) -> Seq<char> {
        match self {
            DbKeyPrefix::Desired => "Desired"@,
            DbKeyPrefix::Consensus => "Consensus"@,
            DbKeyPrefix::Submissions => "Submissions"@,
        }
    }

    /// All prefixes, in the order of their bytes.
    pub open spec fn spec_all() -> Seq<DbKeyPrefix> {
        seq![DbKeyPrefix::Desired, DbKeyPrefix::Consensus, DbKeyPrefix::Submissions]
    }

    /// The byte that starts every key under this prefix.
    pub fn to_byte(&self) -> (r: u8)
        ensures
            r == self.spec_byte(),
    {
        match self {
            DbKeyPrefix::Desired => 0x00,
            DbKeyPrefix::Consensus => 0x01,
            DbKeyPrefix::Submissions => 0x02,
        }
    }

    /// The prefix that a key byte stands for, if any.
    pub fn from_byte(b: u8) -> (r: Option<DbKeyPrefix>)
        ensures
            r matches Some(p) ==> p.spec_byte() == b,
            r is None ==> forall|p: DbKeyPrefix| #[trigger] p.spec_byte() != b,
    {
        if b == 0x00 {
            Some(DbKeyPrefix::Desired)
        } else if b == 0x01 {
            Some(DbKeyPrefix::Consensus)
        } else if b == 0x02 {
            Some(DbKeyPrefix::Submissions)
        } else {
            None
        }
    }

    /// The name under which the prefix is shown.
    pub fn to_string(&self) -> (r: String)
        ensures
            r@ == self.spec_name(),
    {
        match self {
            DbKeyPrefix::Desired => String::from_str("Desired"),
            DbKeyPrefix::Consensus => String::from_str("Consensus"),
            DbKeyPrefix::Submissions => String::from_str("Submissions"),
        }
    }

    /// All prefixes, in the order of their bytes.
    pub fn all() -> (r: Vec<DbKeyPrefix>)
        ensures
            r@ == Self::spec_all(),
    {
        let r = vec![DbKeyPrefix::Desired, DbKeyPrefix::Consensus, DbKeyPrefix::Submissions];
        assert(r@ =~= Self::spec_all());
        r
    }
}

/// Distinct prefixes start their keys with distinct bytes.
pub proof fn law_prefix_bytes_distinct(p: DbKeyPrefix, q: DbKeyPrefix)
    ensures
        p.spec_byte() == q.spec_byte() <==> p == q,
{
}

/// The list of all prefixes holds every prefix exactly once, in increasing
/// order of their bytes.
pub proof fn law_all_prefixes_listed(p: DbKeyPrefix)
    ensures
        DbKeyPrefix::spec_all().contains(p),
        forall|i: int, j: int|
            0 <= i < j < DbKeyPrefix::spec_all().len() ==> #[trigger] DbKeyPrefix::spec_all()[i].spec_byte()
                < #[trigger] DbKeyPrefix::spec_all()[j].spec_byte(),
{
    match p {
        DbKeyPrefix::Desired => assert(DbKeyPrefix::spec_all()[0] == p),
        DbKeyPrefix::Consensus => assert(DbKeyPrefix::spec_all()[1] == p),
        DbKeyPrefix::Submissions => assert(DbKeyPrefix::spec_all()[2] == p),
    }
}

/// The key of a meta entry: a number from 0 to 255.
#[derive(Clone, Copy, Debug, PartialEq, Eq, Structural)]
pub struct MetaKey(pub u8);

/// The bytes of a meta value.
#[derive(Clone, Debug, PartialEq, Eq)]
pub struct MetaValue(pub Vec<u8>);

/// The identity of a guardian.
#[derive(Clone, Copy, Debug, PartialEq, Eq, Structural)]
pub struct PeerId(pub u16);

/// The key of the value this guardian wants to vote for.
#[derive(Clone, Copy, Debug, PartialEq, Eq, Structural)]
pub struct MetaDesiredKey(pub MetaKey);

/// The query prefix of all desired values.
#[derive(Clone, Copy, Debug, PartialEq, Eq, Structural)]
pub struct MetaDesiredKeyPrefix;

/// The key of a value agreed on in consensus.
#[derive(Clone, Copy, Debug, PartialEq, Eq, Structural)]
pub struct MetaConsensusKey(pub MetaKey);

/// A value agreed on in consensus, with the revision it was agreed on in.
#[derive(Clone, Debug, PartialEq, Eq)]
pub struct MetaConsensusValue {
    pub revision: u64,
    pub value: MetaValue,
}

/// The query prefix of all consensus values.
#[derive(Clone, Copy, Debug, PartialEq, Eq, Structural)]
pub struct MetaConsensusKeyPrefix;

/// The key of a value that a guardian submitted for a meta key.
#[derive(Clone, Copy, Debug, PartialEq, Eq, Structural)]
pub struct MetaSubmissionsKey {
    pub key: MetaKey,
    pub peer_id: PeerId,
}

/// The query prefix of all submissions.
#[derive(Clone, Copy, Debug, PartialEq, Eq, Structural)]
pub struct MetaSubmissionsKeyPrefix;

/// The query prefix of the submissions for one meta key.
#[derive(Clone, Copy, Debug, PartialEq, Eq, Structural)]
pub struct MetaSubmissionsByKeyPrefix(pub MetaKey);

impl MetaDesiredKey {
    /// The prefix this record is stored under.
    pub fn db_prefix(&self) -> (r: DbKeyPrefix)
        ensures
            r == DbKeyPrefix::Desired,
    {
        DbKeyPrefix::Desired
    }
}

impl MetaConsensusKey {
    /// The prefix this record is stored under.
    pub fn db_prefix(&self) -> (r: DbKeyPrefix)
        ensures
            r == DbKeyPrefix::Consensus,
    {
        DbKeyPrefix::Consensus
    }
}

impl MetaSubmissionsKey {
    /// The prefix this record is stored under.
    pub fn db_prefix(&self) -> (r: DbKeyPrefix)
        ensures
            r == DbKeyPrefix::Submissions,
    {
        DbKeyPrefix::Submissions
    }
}

impl MetaSubmissionsByKeyPrefix {
    /// Whether a lookup under this prefix returns the submission stored
    /// under `key`: the submissions for the same meta key, from every peer.
    pub fn selects(&self, key: &MetaSubmissionsKey) -> (r: bool)
        ensures
            r == (key.key == self.0),
    {
        key.key.0 == (self.0).0
    }
}

/// The byte and the shown name of each prefix.
pub proof fn law_prefix_bytes_and_names(p: DbKeyPrefix)
    ensures
        p == DbKeyPrefix::Desired ==> p.spec_byte() == 0x00 && p.spec_name() == "Desired"@,
        p == DbKeyPrefix::Consensus ==> p.spec_byte() == 0x01 && p.spec_name() == "Consensus"@,
        p == DbKeyPrefix::Submissions ==> p.spec_byte() == 0x02 && p.spec_name() == "Submissions"@,
{
}

} // verus!
