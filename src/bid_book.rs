//! The bid book of one auction: standing bids, highest first, at most
//! `capacity` of them, one per bidder.
use vstd::prelude::*;

verus! {

/// A standing bid.
#[derive(Clone, Copy, Debug, PartialEq, Eq, Structural)]
pub struct Bid {
    pub bidder: u64,
    pub amount: u128,
}

/// Why a bid could not enter the book.
#[derive(Clone, Copy, Debug, PartialEq, Eq, Structural)]
pub enum BookError {
    /// The book is full and the bid ranks below every entry.
    BidTooLow,
}

/// Amounts never increase from front to back.
pub open spec fn sorted_desc(s: Seq<Bid>) -> bool {
    forall|i: int, j: int| 0 <= i < j < s.len() ==> s[i].amount >= s[j].amount
}

/// No bidder has two entries.
pub open spec fn unique_bidders(s: Seq<Bid>) -> bool {
    forall|i: int, j: int| 0 <= i < j < s.len() ==> s[i].bidder != s[j].bidder
}

pub open spec fn has_bidder(s: Seq<Bid>, b: u64) -> bool {
    exists|i: int| 0 <= i < s.len() && s[i].bidder == b
}

/// What a book of capacity `cap` may hold.
pub open spec fn book_ok(s: Seq<Bid>, cap: nat) -> bool {
    &&& s.len() <= cap
    &&& sorted_desc(s)
    &&& unique_bidders(s)
}

/// The book with every entry of bidder `b` taken out, order kept.
pub open spec fn without_bidder(s: Seq<Bid>, b: u64) -> Seq<Bid>
    decreases s.len(),
{
    if s.len() == 0 {
        s
    } else {
        let r = without_bidder(s.drop_last(), b);
        if s.last().bidder == b {
            r
        } else {
            r.push(s.last())
        }
    }
}

/// The first position at or after `i` whose amount does not exceed `amount`.
pub open spec fn rank_from(s: Seq<Bid>, amount: u128, i: int) -> int
    decreases s.len() - i,
{
    if i < 0 || i >= s.len() || s[i].amount <= amount {
        i
    } else {
        rank_from(s, amount, i + 1)
    }
}

/// Where a bid of `amount` goes in `s`: after every strictly larger entry.
pub open spec fn rank(s: Seq<Bid>, amount: u128) -> int {
    rank_from(s, amount, 0)
}

/// Entering a bid: the bidder's old entry leaves, the new one goes to its
/// rank; a full book drops its lowest entry for it, or refuses it when
/// it would rank last.
pub open spec fn book_insert(s: Seq<Bid>, cap: nat, bidder: u64, amount: u128) -> Option<Seq<Bid>> {
    let r = without_bidder(s, bidder);
    let pos = rank(r, amount);
    if r.len() >= cap && pos >= r.len() {
        None
    } else {
        let kept = if r.len() >= cap {
            r.drop_last()
        } else {
            r
        };
        Some(kept.insert(pos, Bid { bidder, amount }))
    }
}

/// Every entry left after taking out `b` comes from the book, and none is `b`'s.
proof fn lemma_without_bidder_from(s: Seq<Bid>, b: u64)
    ensures
        without_bidder(s, b).len() <= s.len(),
        forall|i: int|
            0 <= i < without_bidder(s, b).len() ==> exists|j: int|
                0 <= j < s.len() && #[trigger] without_bidder(s, b)[i] == s[j],
        forall|i: int|
            0 <= i < without_bidder(s, b).len() ==> (#[trigger] without_bidder(s, b)[i]).bidder != b,
    decreases s.len(),
{
    if s.len() > 0 {
        let p = s.drop_last();
        lemma_without_bidder_from(p, b);
        let r = without_bidder(p, b);
        let w = without_bidder(s, b);
        assert forall|i: int| 0 <= i < w.len() implies exists|j: int|
            0 <= j < s.len() && #[trigger] w[i] == s[j] by {
            if i < r.len() {
                assert(w[i] == r[i]);
                let j = choose|j: int| 0 <= j < p.len() && r[i] == p[j];
                assert(s[j] == p[j]);
            } else {
                assert(w[i] == s[s.len() - 1]);
            }
        }
        assert forall|i: int| 0 <= i < w.len() implies (#[trigger] w[i]).bidder != b by {
            if i < r.len() {
                assert(w[i] == r[i]);
            }
        }
    }
}

/// Entries left after taking out a bidder come from earlier in the book than its last.
proof fn lemma_without_bidder_prefix(s: Seq<Bid>, b: u64)
    requires
        s.len() > 0,
    ensures
        forall|i: int|
            0 <= i < without_bidder(s.drop_last(), b).len() ==> exists|j: int|
                0 <= j < s.len() - 1 && #[trigger] without_bidder(s.drop_last(), b)[i] == s[j],
{
    let p = s.drop_last();
    lemma_without_bidder_from(p, b);
    let r = without_bidder(p, b);
    assert forall|i: int| 0 <= i < r.len() implies exists|j: int|
        0 <= j < s.len() - 1 && #[trigger] r[i] == s[j] by {
        let j = choose|j: int| 0 <= j < p.len() && r[i] == p[j];
        assert(s[j] == p[j]);
    }
}

proof fn lemma_without_bidder_sorted(s: Seq<Bid>, b: u64)
    requires
        sorted_desc(s),
    ensures
        sorted_desc(without_bidder(s, b)),
    decreases s.len(),
{
    if s.len() > 0 {
        let p = s.drop_last();
        lemma_without_bidder_sorted(p, b);
        lemma_without_bidder_prefix(s, b);
        let r = without_bidder(p, b);
        if s.last().bidder != b {
            let w = r.push(s.last());
            assert forall|i: int, j: int| 0 <= i < j < w.len() implies w[i].amount
                >= w[j].amount by {
                assert(w[i] == r[i]);
                if j < r.len() {
                    assert(w[j] == r[j]);
                } else {
                    let k = choose|k: int| 0 <= k < s.len() - 1 && r[i] == s[k];
                    assert(w[j] == s[s.len() - 1]);
                }
            }
        }
    }
}

proof fn lemma_without_bidder_unique(s: Seq<Bid>, b: u64)
    requires
        unique_bidders(s),
    ensures
        unique_bidders(without_bidder(s, b)),
    decreases s.len(),
{
    if s.len() > 0 {
        let p = s.drop_last();
        lemma_without_bidder_unique(p, b);
        lemma_without_bidder_prefix(s, b);
        let r = without_bidder(p, b);
        if s.last().bidder != b {
            let w = r.push(s.last());
            assert forall|i: int, j: int| 0 <= i < j < w.len() implies w[i].bidder
                != w[j].bidder by {
                assert(w[i] == r[i]);
                if j < r.len() {
                    assert(w[j] == r[j]);
                } else {
                    let k = choose|k: int| 0 <= k < s.len() - 1 && r[i] == s[k];
                    assert(w[j] == s[s.len() - 1]);
                }
            }
        }
    }
}

/// A book without an entry of `b` is unchanged by taking `b` out.
pub proof fn lemma_without_absent_bidder(s: Seq<Bid>, b: u64)
    requires
        !has_bidder(s, b),
    ensures
        without_bidder(s, b) == s,
    decreases s.len(),
{
    if s.len() > 0 {
        let p = s.drop_last();
        assert(!has_bidder(p, b)) by {
            if has_bidder(p, b) {
                let i = choose|i: int| 0 <= i < p.len() && p[i].bidder == b;
                assert(s[i].bidder == b);
            }
        }
        lemma_without_absent_bidder(p, b);
        assert(s[s.len() - 1].bidder != b);
        assert(p.push(s.last()) =~= s);
    }
}

proof fn lemma_rank_from(s: Seq<Bid>, amount: u128, i: int)
    requires
        0 <= i <= s.len(),
        sorted_desc(s),
    ensures
        i <= rank_from(s, amount, i) <= s.len(),
        forall|k: int| i <= k < rank_from(s, amount, i) ==> s[k].amount > amount,
        forall|k: int| rank_from(s, amount, i) <= k < s.len() ==> s[k].amount <= amount,
    decreases s.len() - i,
{
    if i < s.len() && s[i].amount > amount {
        lemma_rank_from(s, amount, i + 1);
    }
}

/// The book of one auction.
pub struct BidBook {
    entries: Vec<Bid>,
    capacity: usize,
}

impl View for BidBook {
    type V = Seq<Bid>;

    closed spec fn view(&self) -> Seq<Bid> {
        self.entries@
    }
}

impl BidBook {
    pub closed spec fn capacity_spec(&self) -> nat {
        self.capacity as nat
    }

    pub open spec fn wf(&self) -> bool {
        book_ok(self@, self.capacity_spec())
    }

    /// An empty book for at most `capacity` bids.
    pub fn new(capacity: usize) -> (r: BidBook)
        ensures
            r@ == Seq::<Bid>::empty(),
            r.capacity_spec() == capacity as nat,
            r.wf(),
    {
        BidBook { entries: Vec::new(), capacity }
    }

    pub fn capacity(&self) -> (r: usize)
        ensures
            r as nat == self.capacity_spec(),
    {
        self.capacity
    }

    pub fn len(&self) -> (r: usize)
        ensures
            r == self@.len(),
    {
        self.entries.len()
    }

    /// The entry at position `i`, counted from the highest.
    pub fn get(&self, i: usize) -> (r: Bid)
        requires
            i < self@.len(),
        ensures
            r == self@[i as int],
    {
        self.entries[i]
    }

    /// A copy of this book.
    pub fn duplicate(&self) -> (r: BidBook)
        ensures
            r@ == self@,
            r.capacity_spec() == self.capacity_spec(),
    {
        BidBook { entries: self.entries.clone(), capacity: self.capacity }
    }

    /// The standing bids, highest first.
    pub fn to_vec(&self) -> (r: Vec<Bid>)
        ensures
            r@ == self@,
    {
        self.entries.clone()
    }

    /// Enters a bid as `book_insert` says; a refused bid leaves the book as it was.
    pub fn insert(&mut self, bidder: u64, amount: u128) -> (r: Result<(), BookError>)
        requires
            old(self).wf(),
        ensures
            final(self).wf(),
            final(self).capacity_spec() == old(self).capacity_spec(),
            match book_insert(old(self)@, old(self).capacity_spec(), bidder, amount) {
                Some(s) => r is Ok && final(self)@ == s,
                None => r == Err::<(), BookError>(BookError::BidTooLow) && final(self)@ == old(self)@,
            },
    {
        let ghost s = self.entries@;
        proof {
            lemma_book_insert_ok(s, self.capacity as nat, bidder, amount);
        }
        let mut kept = entries_without(&self.entries, bidder);
        let pos = rank_in(&kept, amount);
        proof {
            lemma_without_bidder_sorted(s, bidder);
            lemma_rank_from(kept@, amount, 0);
        }
        if kept.len() >= self.capacity && pos >= kept.len() {
            return Err(BookError::BidTooLow);
        }
        if kept.len() >= self.capacity {
            kept.pop();
        }
        kept.insert(pos, Bid { bidder, amount });
        self.entries = kept;
        Ok(())
    }
}

/// The entries of `v` whose bidder is not `b`, order kept.
fn entries_without(v: &Vec<Bid>, b: u64) -> (r: Vec<Bid>)
    ensures
        r@ == without_bidder(v@, b),
{
    let mut kept: Vec<Bid> = Vec::new();
    let mut i: usize = 0;
    while i < v.len()
        invariant
            i <= v@.len(),
            kept@ == without_bidder(v@.subrange(0, i as int), b),
        decreases v@.len() - i,
    {
        proof {
            assert(v@.subrange(0, i + 1).drop_last() =~= v@.subrange(0, i as int));
        }
        let e = v[i];
        if e.bidder != b {
            kept.push(e);
        }
        i = i + 1;
    }
    assert(v@.subrange(0, v@.len() as int) =~= v@);
    kept
}

/// The position of the first entry of `v` whose amount does not exceed `amount`.
fn rank_in(v: &Vec<Bid>, amount: u128) -> (r: usize)
    ensures
        r as int == rank(v@, amount),
{
    let mut pos: usize = 0;
    while pos < v.len() && v[pos].amount > amount
        invariant
            pos <= v@.len(),
            rank_from(v@, amount, pos as int) == rank(v@, amount),
        decreases v@.len() - pos,
    {
        pos = pos + 1;
    }
    pos
}

/// A bid entered into a valid book leaves a valid book.
pub proof fn lemma_book_insert_ok(s: Seq<Bid>, cap: nat, bidder: u64, amount: u128)
    requires
        book_ok(s, cap),
    ensures
        book_insert(s, cap, bidder, amount) is Some ==> book_ok(book_insert(s, cap, bidder, amount)->Some_0, cap),
{
    lemma_without_bidder_from(s, bidder);
    lemma_without_bidder_sorted(s, bidder);
    lemma_without_bidder_unique(s, bidder);
    let r = without_bidder(s, bidder);
    let pos = rank(r, amount);
    lemma_rank_from(r, amount, 0);
    if book_insert(s, cap, bidder, amount) is Some {
        let k = if r.len() >= cap {
            r.drop_last()
        } else {
            r
        };
        assert forall|i: int| 0 <= i < k.len() implies #[trigger] k[i] == r[i] by {}
        lemma_insert_keeps_order(k, pos, Bid { bidder, amount });
    }
}

/// Inserting a bid between the larger and the smaller entries keeps the
/// book ordered, and a new bidder keeps bidders distinct.
proof fn lemma_insert_keeps_order(k: Seq<Bid>, pos: int, x: Bid)
    requires
        sorted_desc(k),
        unique_bidders(k),
        0 <= pos <= k.len(),
        forall|i: int| 0 <= i < pos ==> #[trigger] k[i].amount > x.amount,
        forall|i: int| pos <= i < k.len() ==> #[trigger] k[i].amount <= x.amount,
        forall|i: int| 0 <= i < k.len() ==> #[trigger] k[i].bidder != x.bidder,
    ensures
        sorted_desc(k.insert(pos, x)),
        unique_bidders(k.insert(pos, x)),
{
    let w = k.insert(pos, x);
    assert forall|a: int, b: int| 0 <= a < b < w.len() implies w[a].amount >= w[b].amount
        && w[a].bidder != w[b].bidder by {
        if a < pos {
            assert(w[a] == k[a]);
        } else if a > pos {
            assert(w[a] == k[a - 1]);
        }
        if b < pos {
            assert(w[b] == k[b]);
        } else if b > pos {
            assert(w[b] == k[b - 1]);
        }
    }
}

} // verus!
