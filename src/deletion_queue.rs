use vstd::prelude::*;

verus! {

/// The handle value that no live device resource ever has.
pub const INVALID_HANDLE: u64 = 0;

/// Handles that are released when `q` is flushed, in release order.
///
/// The queue is walked from its newest entry to its oldest; an entry is
/// released unless it is the invalid handle or a newer entry holds the same
/// handle (it was then released already).
pub open spec fn release_order(q: Seq<u64>) -> Seq<u64>
    decreases q.len(),
{
    if q.len() == 0 {
        Seq::empty()
    } else {
        let rest = q.subrange(1, q.len() as int);
        let first = q[0];
        if first == INVALID_HANDLE || rest.contains(first) {
            release_order(rest)
        } else {
            release_order(rest).push(first)
        }
    }
}

/// Ordered record of the device resources that one context allocated.
pub struct DeletionQueue {
    queue: Vec<u64>,
}

impl View for DeletionQueue {
    type V = Seq<u64>;

    closed spec fn view(&self) -> Seq<u64> {
        self.queue@
    }
}

impl DeletionQueue {
    pub fn new() -> (r: Self)
        ensures
            r@ == Seq::<u64>::empty(),
    {
        DeletionQueue { queue: Vec::new() }
    }

    pub fn len(&self) -> (r: usize)
        ensures
            r == self@.len(),
    {
        self.queue.len()
    }

    /// Records a newly allocated handle as the newest entry.
    pub fn push(&mut self, rid: u64)
        ensures
            final(self)@ == old(self)@.push(rid),
    {
        self.queue.push(rid);
    }

    /// Empties the queue and returns the handles to release, newest first.
    ///
    /// Invalid entries are skipped and a handle is never handed out twice.
    pub fn flush(&mut self) -> (released: Vec<u64>)
        ensures
            released@ == release_order(old(self)@),
            final(self)@ == Seq::<u64>::empty(),
    {
        let mut released: Vec<u64> = Vec::new();
        let n = self.queue.len();
        let mut i: usize = n;
        while i > 0
            invariant
                i <= n,
                n == self.queue@.len(),
                self.queue@ == old(self)@,
                released@ == release_order(self.queue@.subrange(i as int, n as int)),
            decreases i,
        {
            i = i - 1;
            let rid = self.queue[i];
            let mut seen = false;
            let mut j: usize = i + 1;
            while j < n
                invariant
                    i < j <= n,
                    n == self.queue@.len(),
                    seen == self.queue@.subrange(i + 1, j as int).contains(rid),
                decreases n - j,
            {
                if self.queue[j] == rid {
                    seen = true;
                }
                proof {
                    let s = self.queue@;
                    assert(s.subrange(i + 1, j + 1) =~= s.subrange(i + 1, j as int).push(s[j as int]));
                    lemma_push_contains(s.subrange(i + 1, j as int), s[j as int], rid);
                }
                j = j + 1;
            }
            proof {
                let s = self.queue@;
                let sub = s.subrange(i as int, n as int);
                assert(sub.subrange(1, sub.len() as int) =~= s.subrange(i + 1, n as int));
                assert(sub[0] == rid);
            }
            if rid != INVALID_HANDLE && !seen {
                released.push(rid);
            }
        }
        proof {
            assert(self.queue@.subrange(0, n as int) =~= self.queue@);
        }
        self.queue.clear();
        released
    }

    /// Forgets the oldest entry that holds `rid`, which the caller then frees
    /// on the device; returns whether the queue held it.
    pub fn free_rid(&mut self, rid: u64) -> (found: bool)
        ensures
            found == old(self)@.contains(rid),
            found ==> exists|k: int|
                0 <= k < old(self)@.len() && old(self)@[k] == rid
                    && (forall|m: int| 0 <= m < k ==> old(self)@[m] != rid)
                    && final(self)@ == old(self)@.remove(k),
            !found ==> final(self)@ == old(self)@,
    {
        let n = self.queue.len();
        let mut k: usize = 0;
        while k < n
            invariant
                k <= n,
                n == self.queue@.len(),
                self.queue@ == old(self)@,
                forall|m: int| 0 <= m < k ==> self.queue@[m] != rid,
            decreases n - k,
        {
            if self.queue[k] == rid {
                self.queue.remove(k);
                return true;
            }
            k = k + 1;
        }
        false
    }
}

proof fn lemma_push_contains(s: Seq<u64>, x: u64, v: u64)
    ensures
        s.push(x).contains(v) <==> (s.contains(v) || x == v),
{
    if s.push(x).contains(v) {
        let k = choose|k: int| 0 <= k < s.len() + 1 && s.push(x)[k] == v;
        if k < s.len() {
            assert(s[k] == v);
        }
    }
    if s.contains(v) {
        let k = choose|k: int| 0 <= k < s.len() && s[k] == v;
        assert(s.push(x)[k] == v);
    }
    assert(s.push(x)[s.len() as int] == x);
}

/// Every handle appears at most once in what a flush releases, and the
/// invalid handle never does.
pub proof fn lemma_release_never_twice(q: Seq<u64>)
    ensures
        release_order(q).no_duplicates(),
        !release_order(q).contains(INVALID_HANDLE),
        forall|h: u64| #[trigger] release_order(q).contains(h) <==> (h != INVALID_HANDLE && q.contains(h)),
    decreases q.len(),
{
    if q.len() > 0 {
        let rest = q.subrange(1, q.len() as int);
        lemma_release_never_twice(rest);
        assert forall|h: u64| q.contains(h) <==> (h == q[0] || rest.contains(h)) by {
            if q.contains(h) {
                let k = choose|k: int| 0 <= k < q.len() && q[k] == h;
                if k > 0 {
                    assert(rest[k - 1] == h);
                }
            }
            if rest.contains(h) {
                let k = choose|k: int| 0 <= k < rest.len() && rest[k] == h;
                assert(q[k + 1] == h);
            }
            assert(q[0] == q[0]);
        }
        let first = q[0];
        if !(first == INVALID_HANDLE || rest.contains(first)) {
            let r = release_order(rest);
            let r2 = r.push(first);
            assert forall|a: int, b: int| 0 <= a < b < r2.len() implies r2[a] != r2[b] by {
                if b == r.len() {
                    assert(r.contains(r[a]));
                }
            }
            assert forall|h: u64| r2.contains(h) <==> (r.contains(h) || h == first) by {
                if r2.contains(h) {
                    let k = choose|k: int| 0 <= k < r2.len() && r2[k] == h;
                    if k < r.len() {
                        assert(r[k] == h);
                    }
                }
                if r.contains(h) {
                    let k = choose|k: int| 0 <= k < r.len() && r[k] == h;
                    assert(r2[k] == h);
                }
                assert(r2[r.len() as int] == first);
            }
        }
    }
}

/// Handles pushed once each, all valid, are released exactly once each and
/// in the reverse of the order in which they were created.
pub proof fn lemma_flush_reverses_creation(created: Seq<u64>)
    requires
        created.no_duplicates(),
        !created.contains(INVALID_HANDLE),
    ensures
        release_order(created) == created.reverse(),
    decreases created.len(),
{
    if created.len() > 0 {
        let rest = created.subrange(1, created.len() as int);
        assert(rest.no_duplicates());
        assert(!rest.contains(INVALID_HANDLE)) by {
            if rest.contains(INVALID_HANDLE) {
                let k = choose|k: int| 0 <= k < rest.len() && rest[k] == INVALID_HANDLE;
                assert(created[k + 1] == INVALID_HANDLE);
            }
        }
        lemma_flush_reverses_creation(rest);
        assert(created[0] != INVALID_HANDLE) by {
            assert(created.contains(created[0]));
        }
        assert(!rest.contains(created[0])) by {
            if rest.contains(created[0]) {
                let k = choose|k: int| 0 <= k < rest.len() && rest[k] == created[0];
                assert(created[k + 1] == created[0]);
            }
        }
        assert(rest.reverse().push(created[0]) =~= created.reverse());
    }
}

} // verus!
