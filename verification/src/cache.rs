//! Keeping local copies of the game's collections fresh: which collections
//! are copied, from where, for how long a copy is used, and what follows a
//! refresh.
use vstd::prelude::*;

verus! {

/// The collections that are copied from the game's API.
#[derive(Debug, Clone, Copy, PartialEq, Eq, Structural)]
pub enum CacheCollection {
    Items,
    Market,
    Fame,
}

/// Milliseconds in a minute.
pub const MINUTE_MS: i64 = 60_000;

/// Milliseconds in a day.
pub const DAY_MS: i64 = 86_400_000;

/// The name of a collection, as stored and as the API knows it.
pub open spec fn collection_name(c: CacheCollection) -> Seq<char> {
    match c {
        CacheCollection::Items => "items"@,
        CacheCollection::Market => "market"@,
        CacheCollection::Fame => "fame"@,
    }
}

/// The field of the API's answer that holds a collection's records.
pub open spec fn collection_payload_key(c: CacheCollection) -> Seq<char> {
    match c {
        CacheCollection::Items => "items"@,
        CacheCollection::Market => "shops"@,
        CacheCollection::Fame => "brewers"@,
    }
}

/// How long a copy of a collection is used, in milliseconds: a week for the
/// items, ten minutes for the market and the fame ranking.
pub open spec fn collection_period(c: CacheCollection) -> int {
    match c {
        CacheCollection::Items => 7 * DAY_MS,
        _ => 10 * MINUTE_MS,
    }
}

impl CacheCollection {
    /// The collections, in the order in which their refreshes are scheduled.
    pub fn all() -> (v: Vec<CacheCollection>)
        ensures
            v@ == seq![CacheCollection::Items, CacheCollection::Market, CacheCollection::Fame],
    {
        let mut v: Vec<CacheCollection> = Vec::new();
        v.push(CacheCollection::Items);
        v.push(CacheCollection::Market);
        v.push(CacheCollection::Fame);
        assert(v@ =~= seq![CacheCollection::Items, CacheCollection::Market, CacheCollection::Fame]);
        v
    }

    /// The name of the collection.
    pub fn name(&self) -> (s: String)
        ensures
            s@ == collection_name(*self),
    {
        match self {
            CacheCollection::Items => "items".to_owned(),
            CacheCollection::Market => "market".to_owned(),
            CacheCollection::Fame => "fame".to_owned(),
        }
    }

    /// The field of the API's answer that holds the collection's records.
    pub fn payload_key(&self) -> (s: String)
        ensures
            s@ == collection_payload_key(*self),
    {
        match self {
            CacheCollection::Items => "items".to_owned(),
            CacheCollection::Market => "shops".to_owned(),
            CacheCollection::Fame => "brewers".to_owned(),
        }
    }

    /// The address of the API's list of the collection.
    pub fn url(&self) -> (s: String)
        ensures
            s@ == "https://api.originsro.org/api/v1/"@ + collection_name(*self) + "/list"@,
    {
        let mut s = "https://api.originsro.org/api/v1/".to_owned();
        let name = self.name();
        s.append(name.as_str());
        s.append("/list");
        s
    }

    /// How long a copy of the collection is used, in milliseconds.
    pub fn period_ms(&self) -> (p: i64)
        ensures
            p == collection_period(*self),
            p > 0,
    {
        match self {
            CacheCollection::Items => 7 * DAY_MS,
            _ => 10 * MINUTE_MS,
        }
    }

    /// Whether the watched sales are checked after the collection is refreshed:
    /// only after the items are.
    pub fn checks_sales(&self) -> (b: bool)
        ensures
            b == (*self == CacheCollection::Items),
    {
        match self {
            CacheCollection::Items => true,
            _ => false,
        }
    }
}

/// Whether the copy recorded with expiry `entry_date` is still used at `now`
/// (both in milliseconds since the epoch): it exists and expires after `now`.
pub open spec fn in_use(entry_date: Option<i64>, now: i64) -> bool {
    entry_date matches Some(d) && d > now
}

/// Whether the recorded copy of a collection is still used at `now`; when it
/// is not, the collection is fetched again.
pub fn cache_in_use(entry_date: Option<i64>, now: i64) -> (b: bool)
    ensures
        b == in_use(entry_date, now),
{
    match entry_date {
        Some(d) => d > now,
        None => false,
    }
}

/// The expiry recorded for a copy taken at `now`: one period later.
pub fn expiry(now: i64, period: i64) -> (e: i64)
    requires
        i64::MIN <= now + period <= i64::MAX,
    ensures
        e == now + period,
{
    now + period
}

/// A copy taken at `taken` is used at every later moment before one period
/// has passed, and not from then on.
pub proof fn copy_lasts_one_period(taken: i64, period: i64, now: i64)
    requires
        i64::MIN <= taken + period <= i64::MAX,
    ensures
        in_use(Some((taken + period) as i64), now) <==> now < taken + period,
{
}

/// The items are copied once a week; the market and the fame ranking every
/// ten minutes.
pub proof fn refresh_periods(c: CacheCollection)
    ensures
        c == CacheCollection::Items ==> collection_period(c) == 604_800_000,
        c != CacheCollection::Items ==> collection_period(c) == 600_000,
{
}

} // verus!
