use vstd::prelude::*;
use crate::errors::PuppeteerError;
use crate::types::{Coin, CoinModel, Delegation, DelegationModel, QueryKind};

verus! {

/// The map denoted by a list of `(query id, kind)` entries, later entries
/// taking precedence.
pub open spec fn entries_map(s: Seq<(u64, QueryKind)>) -> Map<u64, QueryKind>
    decreases s.len(),
{
    if s.len() == 0 {
        Map::empty()
    } else {
        entries_map(s.drop_last()).insert(s.last().0, s.last().1)
    }
}

/// Registry of remote read-only queries: maps each query identifier,
/// assigned on registration acknowledgement, to the query's semantic kind.
/// Entries are never removed.
#[derive(Clone, Debug, PartialEq)]
pub struct QueryRegistry {
    entries: Vec<(u64, QueryKind)>,
}

impl View for QueryRegistry {
    type V = Map<u64, QueryKind>;

    closed spec fn view(&self) -> Map<u64, QueryKind> {
        entries_map(self.entries@)
    }
}

proof fn lemma_entries_map_membership(s: Seq<(u64, QueryKind)>, id: u64)
    ensures
        entries_map(s).contains_key(id) <==> exists|i: int|
            0 <= i < s.len() && (#[trigger] s[i]).0 == id,
    decreases s.len(),
{
    if s.len() > 0 {
        lemma_entries_map_membership(s.drop_last(), id);
        if entries_map(s).contains_key(id) {
            if s.last().0 == id {
                assert(s[s.len() - 1].0 == id);
            } else {
                let i = choose|i: int| 0 <= i < s.drop_last().len() && (#[trigger] s.drop_last()[i]).0 == id;
                assert(s[i].0 == id);
            }
        }
        if exists|i: int| 0 <= i < s.len() && (#[trigger] s[i]).0 == id {
            let i = choose|i: int| 0 <= i < s.len() && (#[trigger] s[i]).0 == id;
            if i < s.len() - 1 {
                assert(s.drop_last()[i].0 == id);
            }
        }
    }
}

proof fn lemma_entries_map_at(s: Seq<(u64, QueryKind)>, i: int)
    requires
        0 <= i < s.len(),
        forall|a: int, b: int|
            0 <= a < b < s.len() ==> (#[trigger] s[a]).0 != (#[trigger] s[b]).0,
    ensures
        entries_map(s).contains_key(s[i].0),
        entries_map(s)[s[i].0] == s[i].1,
    decreases s.len(),
{
    if i == s.len() - 1 {
    } else {
        assert(s.drop_last()[i] == s[i]);
        lemma_entries_map_at(s.drop_last(), i);
        assert(s[s.len() - 1].0 != s[i].0);
    }
}

impl QueryRegistry {
    /// No query identifier occurs twice.
    pub closed spec fn wf(self) -> bool {
        forall|a: int, b: int|
            0 <= a < b < self.entries@.len() ==> (#[trigger] self.entries@[a]).0 != (
            #[trigger] self.entries@[b]).0
    }

    /// An empty registry.
    pub fn new() -> (r: Self)
        ensures
            r.wf(),
            r@ == Map::<u64, QueryKind>::empty(),
    {
        QueryRegistry { entries: Vec::new() }
    }

    /// Looks up the kind registered for a query identifier.
    pub fn lookup(&self, id: u64) -> (r: Option<QueryKind>)
        requires
            self.wf(),
        ensures
            r is Some <==> self@.contains_key(id),
            r is Some ==> r == Some(self@[id]),
    {
        let n = self.entries.len();
        let mut i: usize = 0;
        while i < n
            invariant
                self.wf(),
                n == self.entries@.len(),
                i <= n,
                forall|j: int| 0 <= j < i ==> (#[trigger] self.entries@[j]).0 != id,
            decreases n - i,
        {
            if self.entries[i].0 == id {
                proof {
                    lemma_entries_map_at(self.entries@, i as int);
                }
                return Some(self.entries[i].1);
            }
            i += 1;
        }
        proof {
            lemma_entries_map_membership(self.entries@, id);
        }
        None
    }

    /// The registered entries, each query identifier with its kind, in
    /// order of registration.
    pub fn entries(&self) -> (r: &Vec<(u64, QueryKind)>)
        ensures
            entries_map(r@) == self@,
    {
        &self.entries
    }

    /// Records that the query with the given identifier was acknowledged as
    /// registered with the given kind.
    ///
    /// Re-confirming an identifier with the kind already recorded for it is
    /// an idempotent overwrite; re-confirming with a different kind signals
    /// data corruption and is rejected without change.
    pub fn confirm(&mut self, id: u64, kind: QueryKind) -> (r: Result<(), PuppeteerError>)
        requires
            old(self).wf(),
        ensures
            final(self).wf(),
            r is Ok <==> (!old(self)@.contains_key(id) || old(self)@[id] == kind),
            r is Ok ==> final(self)@ == old(self)@.insert(id, kind),
            r is Err ==> *final(self) == *old(self) && r == Err::<(), PuppeteerError>(
                PuppeteerError::QueryKindMismatch,
            ),
    {
        match self.lookup(id) {
            Option::Some(existing) => {
                if existing == kind {
                    proof {
                        assert(old(self)@.insert(id, kind) =~= old(self)@);
                    }
                    Ok(())
                } else {
                    Err(PuppeteerError::QueryKindMismatch)
                }
            },
            Option::None => {
                proof {
                    lemma_entries_map_membership(self.entries@, id);
                }
                self.entries.push((id, kind));
                proof {
                    assert(self.entries@.drop_last() =~= old(self).entries@);
                    assert(self.entries@.last() == (id, kind));
                }
                Ok(())
            },
        }
    }
}

/// The value delivered by a remote query result, typed by kind.
#[derive(Clone, Debug, PartialEq)]
pub enum QueryValue {
    Balance(Vec<Coin>),
    Delegations(Vec<Delegation>),
}

/// Mathematical model of a [`QueryValue`].
pub enum QueryValueModel {
    Balance(Seq<CoinModel>),
    Delegations(Seq<DelegationModel>),
}

impl View for QueryValue {
    type V = QueryValueModel;

    open spec fn view(&self) -> QueryValueModel {
        match self {
            QueryValue::Balance(coins) => QueryValueModel::Balance(coins.deep_view()),
            QueryValue::Delegations(dels) => QueryValueModel::Delegations(dels.deep_view()),
        }
    }
}

impl QueryValue {
    /// The kind of query this value answers.
    pub open spec fn kind_view(self) -> QueryKind {
        match self {
            QueryValue::Balance(_) => QueryKind::Balance,
            QueryValue::Delegations(_) => QueryKind::Delegations,
        }
    }

    /// Returns the kind of query this value answers.
    pub fn kind(&self) -> (r: QueryKind)
        ensures
            r == self.kind_view(),
    {
        match self {
            QueryValue::Balance(_) => QueryKind::Balance,
            QueryValue::Delegations(_) => QueryKind::Delegations,
        }
    }
}

/// Locally cached snapshots of remote state, one per query kind, each paired
/// with the height at which it was observed. A delivery overwrites the whole
/// pair for its kind; the last delivered result wins regardless of height.
#[derive(Clone, Debug, PartialEq)]
pub struct CachedRemoteView {
    pub balances: Vec<Coin>,
    pub balances_height: u64,
    pub delegations: Vec<Delegation>,
    pub delegations_height: u64,
}

/// Mathematical model of a [`CachedRemoteView`].
pub struct CachedRemoteViewModel {
    pub balances: Seq<CoinModel>,
    pub balances_height: u64,
    pub delegations: Seq<DelegationModel>,
    pub delegations_height: u64,
}

impl View for CachedRemoteView {
    type V = CachedRemoteViewModel;

    open spec fn view(&self) -> CachedRemoteViewModel {
        CachedRemoteViewModel {
            balances: self.balances.deep_view(),
            balances_height: self.balances_height,
            delegations: self.delegations.deep_view(),
            delegations_height: self.delegations_height,
        }
    }
}

/// The cache after a result for the given kind is applied: the snapshot for
/// that kind is overwritten wholesale, the other kind is untouched.
pub open spec fn cache_after_delivery(
    cache: CachedRemoteViewModel,
    value: QueryValueModel,
    height: u64,
) -> CachedRemoteViewModel {
    match value {
        QueryValueModel::Balance(coins) => CachedRemoteViewModel {
            balances: coins,
            balances_height: height,
            ..cache
        },
        QueryValueModel::Delegations(dels) => CachedRemoteViewModel {
            delegations: dels,
            delegations_height: height,
            ..cache
        },
    }
}

/// Delivering the same result twice leaves the cache exactly as after the
/// first delivery.
pub proof fn lemma_delivery_idempotent(
    cache: CachedRemoteViewModel,
    value: QueryValueModel,
    height: u64,
)
    ensures
        cache_after_delivery(cache_after_delivery(cache, value, height), value, height)
            == cache_after_delivery(cache, value, height),
{
}

impl CachedRemoteView {
    /// A fresh cache: both snapshots empty, observed at height zero.
    pub fn new() -> (r: Self)
        ensures
            r@.balances =~= Seq::<CoinModel>::empty(),
            r@.balances_height == 0,
            r@.delegations =~= Seq::<DelegationModel>::empty(),
            r@.delegations_height == 0,
    {
        CachedRemoteView {
            balances: Vec::new(),
            balances_height: 0,
            delegations: Vec::new(),
            delegations_height: 0,
        }
    }

    /// Overwrites the snapshot for the value's kind.
    pub fn store(&mut self, value: QueryValue, height: u64)
        ensures
            final(self)@ == cache_after_delivery(old(self)@, value@, height),
    {
        match value {
            QueryValue::Balance(coins) => {
                self.balances = coins;
                self.balances_height = height;
            },
            QueryValue::Delegations(dels) => {
                self.delegations = dels;
                self.delegations_height = height;
            },
        }
    }
}

} // verus!
