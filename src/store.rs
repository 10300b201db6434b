//! What the key-value store holds: each ZIP code's latest written rate.
//! `RateTable` keeps those contents in memory, so that the same lookups that
//! run against the outside store can run against a local one.

use vstd::prelude::*;
use crate::dataset::{RateRecord, record_views};

verus! {

/// The mapping that a sequence of writes leaves behind, starting from an
/// empty store: each key holds the value of its last write.
pub open spec fn written(s: Seq<(Seq<char>, Seq<char>)>) -> Map<Seq<char>, Seq<char>>
    decreases s.len(),
{
    if s.len() == 0 {
        Map::empty()
    } else {
        written(s.drop_last()).insert(s.last().0, s.last().1)
    }
}

/// Writes after position `n` that do not touch key `k` leave what the store
/// holds under `k` as it was after the first `n` writes.
pub proof fn lemma_written_untouched(s: Seq<(Seq<char>, Seq<char>)>, n: int, k: Seq<char>)
    requires
        0 <= n <= s.len(),
        forall|j: int| n <= j < s.len() ==> #[trigger] s[j].0 != k,
    ensures
        written(s).contains_key(k) == written(s.take(n)).contains_key(k),
        written(s).contains_key(k) ==> written(s)[k] == written(s.take(n))[k],
    decreases s.len(),
{
    if s.len() > n {
        lemma_written_untouched(s.drop_last(), n, k);
        assert(s.drop_last().take(n) =~= s.take(n));
    } else {
        assert(s.take(n) =~= s);
    }
}

/// An in-memory key-value store of rates. It keeps its writes in order and
/// answers a read with the latest write of the key.
pub struct RateTable {
    writes: Vec<RateRecord>,
}

impl View for RateTable {
    type V = Map<Seq<char>, Seq<char>>;

    closed spec fn view(&self) -> Map<Seq<char>, Seq<char>> {
        written(record_views(self.writes@))
    }
}

impl RateTable {
    /// An empty store.
    pub fn new() -> (r: RateTable)
        ensures
            r@ == Map::<Seq<char>, Seq<char>>::empty(),
    {
        let r = RateTable { writes: Vec::new() };
        assert(record_views(r.writes@) =~= Seq::empty());
        r
    }

    /// Writes `rate` under `zip`, replacing what was there.
    pub fn put(&mut self, zip: String, rate: String)
        ensures
            final(self)@ == old(self)@.insert(zip@, rate@),
    {
        let ghost before = self.writes@;
        let rec = RateRecord { zip, rate };
        self.writes.push(rec);
        assert(self.writes@ =~= before.push(rec));
        assert(record_views(self.writes@).drop_last() =~= record_views(before));
    }

    /// Reads the rate under `zip`, or `None` where nothing was written
    /// under it.
    pub fn get(&self, zip: &str) -> (r: Option<String>)
        ensures
            match r {
                Some(rate) => self@.contains_key(zip@) && rate@ == self@[zip@],
                None => !self@.contains_key(zip@),
            },
    {
        let key = zip.to_owned();
        let ghost s = record_views(self.writes@);
        let mut i: usize = self.writes.len();
        while i > 0
            invariant
                i <= self.writes.len(),
                s == record_views(self.writes@),
                key@ == zip@,
                forall|j: int| i <= j < s.len() ==> #[trigger] s[j].0 != zip@,
            decreases i,
        {
            i = i - 1;
            if self.writes[i].zip == key {
                proof {
                    lemma_written_untouched(s, i + 1, zip@);
                    assert(s.take(i + 1).drop_last() =~= s.take(i as int));
                }
                return Some(self.writes[i].rate.clone());
            }
        }
        proof {
            lemma_written_untouched(s, 0, zip@);
            assert(s.take(0) =~= Seq::<(Seq<char>, Seq<char>)>::empty());
        }
        None
    }

    /// A store into which every record was written, one after another, in
    /// the order given.
    pub fn load(records: &Vec<RateRecord>) -> (r: RateTable)
        ensures
            r@ == written(record_views(records@)),
    {
        let mut table = RateTable::new();
        let ghost s = record_views(records@);
        let mut i: usize = 0;
        while i < records.len()
            invariant
                i <= records.len(),
                s == record_views(records@),
                table@ == written(s.take(i as int)),
            decreases records.len() - i,
        {
            table.put(records[i].zip.clone(), records[i].rate.clone());
            assert(s.take(i as int + 1).drop_last() =~= s.take(i as int));
            i = i + 1;
        }
        assert(s.take(i as int) =~= s);
        table
    }
}

} // verus!
