//! The bounded, recency-ranked history of connection addresses.
//!
//! The table is kept in rank order: the record at position `i` has rank `i`,
//! so rank 0 is the most recently used address.
use vstd::prelude::*;

verus! {

/// The most addresses the history keeps.
pub const CAPACITY: usize = 6;

/// One stored address and its rank (0 = most recently used).
pub struct PrevIp {
    pub address: String,
    pub used: i64,
}

/// The address-history table.
pub struct PrevIpTable {
    records: Vec<PrevIp>,
}

/// `p` occurs in `s` as a contiguous run of characters.
pub open spec fn contains_pattern(s: Seq<char>, p: Seq<char>) -> bool {
    exists|i: int| 0 <= i && i + p.len() <= s.len() && #[trigger] s.subrange(i, i + p.len()) == p
}

/// The addresses of `list` (most recent first) that contain `p`, in the same order.
pub open spec fn matching(list: Seq<Seq<char>>, p: Seq<char>) -> Seq<Seq<char>> {
    list.filter(|s: Seq<char>| contains_pattern(s, p))
}

/// The history after `a` is used: `a` moves (or enters) at the front; an address
/// that was more recent than `a` drops one place; when a new address comes into a
/// full history, the least recent one leaves.
pub open spec fn after_use(list: Seq<Seq<char>>, a: Seq<char>) -> Seq<Seq<char>> {
    if list.contains(a) {
        seq![a] + list.remove(list.index_of(a))
    } else if list.len() < CAPACITY {
        seq![a] + list
    } else {
        seq![a] + list.take(CAPACITY as int - 1)
    }
}

/// A valid history: no address twice and at most `CAPACITY` of them.
pub open spec fn valid_history(list: Seq<Seq<char>>) -> bool {
    list.no_duplicates() && list.len() <= CAPACITY
}

/// The rank of `a` in `list` (its position), if it is there.
pub open spec fn rank_in(list: Seq<Seq<char>>, a: Seq<char>) -> Option<int> {
    if list.contains(a) {
        Some(list.index_of(a))
    } else {
        None
    }
}

/// The history after each address of `uses` is used in turn.
pub open spec fn replay(list: Seq<Seq<char>>, uses: Seq<Seq<char>>) -> Seq<Seq<char>>
    decreases uses.len(),
{
    if uses.len() == 0 {
        list
    } else {
        replay(after_use(list, uses[0]), uses.drop_first())
    }
}

impl View for PrevIpTable {
    type V = Seq<Seq<char>>;

    /// The stored addresses, most recently used first.
    closed spec fn view(&self) -> Seq<Seq<char>> {
        self.records@.map_values(|r: PrevIp| r.address@)
    }
}

impl PrevIpTable {
    /// Each record's rank is its position, and the addresses form a valid history.
    pub closed spec fn wf(&self) -> bool {
        &&& forall|i: int| 0 <= i < self.records@.len() ==> #[trigger] self.records@[i].used == i
        &&& valid_history(self@)
    }

    /// A well-formed table holds a valid history.
    pub proof fn lemma_wf_history(&self)
        requires
            self.wf(),
        ensures
            valid_history(self@),
    {
    }

    /// An empty history.
    pub fn new() -> (t: Self)
        ensures
            t.wf(),
            t@ == Seq::<Seq<char>>::empty(),
    {
        let t = PrevIpTable { records: Vec::new() };
        proof {
            assert(t@ =~= Seq::<Seq<char>>::empty());
        }
        t
    }

    /// The number of stored addresses.
    pub fn len(&self) -> (n: usize)
        requires
            self.wf(),
        ensures
            n == self@.len(),
    {
        self.records.len()
    }

    /// The rank of `address`, if it is stored.
    pub fn rank(&self, address: &String) -> (r: Option<usize>)
        requires
            self.wf(),
        ensures
            r matches Some(k) ==> rank_in(self@, address@) == Some(k as int),
            r is None ==> rank_in(self@, address@) is None,
    {
        match self.find(address) {
            Some(k) => {
                proof {
                    self.lemma_index_unique(k as int, address@);
                }
                Some(k)
            },
            None => None,
        }
    }

    proof fn lemma_index_unique(&self, k: int, a: Seq<char>)
        requires
            self.wf(),
            0 <= k < self@.len(),
            self@[k] == a,
        ensures
            self@.contains(a),
            self@.index_of(a) == k,
    {
        assert(self@.contains(a));
        let j = self@.index_of(a);
        assert(0 <= j < self@.len() && self@[j] == a);
    }

    /// The position of `address` in the table, if it is stored.
    fn find(&self, address: &String) -> (r: Option<usize>)
        requires
            self.wf(),
        ensures
            r matches Some(k) ==> k < self@.len() && self@[k as int] == address@,
            r is None ==> !self@.contains(address@),
    {
        let n = self.records.len();
        let mut i: usize = 0;
        while i < n
            invariant
                n == self.records@.len(),
                n == self@.len(),
                i <= n,
                forall|j: int| 0 <= j < i ==> self@[j] != address@,
            decreases n - i,
        {
            if self.records[i].address == *address {
                return Some(i);
            }
            i = i + 1;
        }
        proof {
            if self@.contains(address@) {
                let j = choose|j: int| 0 <= j < self@.len() && self@[j] == address@;
                assert(self@[j] != address@);
            }
        }
        None
    }

    /// Every stored address that contains `pattern`, most recently used first.
    /// An empty pattern gives every stored address.
    pub fn get_prev_ips(&self, pattern: &String) -> (r: Vec<String>)
        requires
            self.wf(),
        ensures
            r@.map_values(|s: String| s@) == matching(self@, pattern@),
    {
        let p = chars_of(pattern.as_str());
        let n = self.records.len();
        let mut out: Vec<String> = Vec::new();
        let mut i: usize = 0;
        while i < n
            invariant
                n == self.records@.len(),
                n == self@.len(),
                i <= n,
                p@ == pattern@,
                out@.map_values(|s: String| s@) == matching(self@.take(i as int), pattern@),
            decreases n - i,
        {
            let a = &self.records[i].address;
            let hit = contains_chars(&chars_of(a.as_str()), &p);
            proof {
                reveal(Seq::filter);
                assert(self@.take(i as int + 1).drop_last() =~= self@.take(i as int));
                assert(self@.take(i as int + 1).last() == a@);
            }
            if hit {
                out.push(a.clone());
            }
            proof {
                assert(out@.map_values(|s: String| s@) =~= matching(self@.take(i as int + 1), pattern@));
            }
            i = i + 1;
        }
        proof {
            assert(self@.take(n as int) =~= self@);
        }
        out
    }
}

/// The characters of `s`, in order.
fn chars_of(s: &str) -> (r: Vec<char>)
    ensures
        r@ == s@,
{
    let n = s.unicode_len();
    let mut out: Vec<char> = Vec::new();
    let mut i: usize = 0;
    while i < n
        invariant
            n == s@.len(),
            i <= n,
            out@ == s@.take(i as int),
        decreases n - i,
    {
        out.push(s.get_char(i));
        proof {
            assert(out@ =~= s@.take(i as int + 1));
        }
        i = i + 1;
    }
    proof {
        assert(s@.take(n as int) =~= s@);
    }
    out
}

/// Whether `p` occurs in `s` as a contiguous run.
fn contains_chars(s: &Vec<char>, p: &Vec<char>) -> (r: bool)
    ensures
        r == contains_pattern(s@, p@),
{
    let n = s.len();
    let m = p.len();
    if m > n {
        proof {
            assert forall|i: int| 0 <= i && i + m <= n implies #[trigger] s@.subrange(i, i + m) != p@ by {}
        }
        return false;
    }
    let mut i: usize = 0;
    while i <= n - m
        invariant
            n == s@.len(),
            m == p@.len(),
            m <= n,
            i <= n - m + 1,
            forall|k: int| 0 <= k < i ==> #[trigger] s@.subrange(k, k + m) != p@,
        decreases n - m + 1 - i,
    {
        let mut j: usize = 0;
        let mut same = true;
        while j < m
            invariant
                n == s@.len(),
                m == p@.len(),
                i + m <= n,
                j <= m,
                same == (forall|t: int| 0 <= t < j ==> s@[i + t] == p@[t]),
            decreases m - j,
        {
            if s[i + j] != p[j] {
                same = false;
            }
            j = j + 1;
        }
        if same {
            proof {
                assert(s@.subrange(i as int, i + m) =~= p@);
            }
            return true;
        }
        proof {
            let t = choose|t: int| 0 <= t < m && s@[i + t] != p@[t];
            assert(s@.subrange(i as int, i + m)[t] != p@[t]);
        }
        i = i + 1;
    }
    false
}


impl PrevIpTable {
    /// Records a use of `ip`. A stored address is promoted to rank 0 and every
    /// record that was more recent moves one rank down; the others keep their
    /// rank. A new address enters at rank 0, every stored record moves one rank
    /// down, and a record whose rank reaches `CAPACITY` is deleted. The new
    /// record itself is not shifted: it is the most recent one, at rank 0.
    pub fn add_prev_ip(&mut self, ip: String) -> (r: String)
        requires
            old(self).wf(),
        ensures
            final(self).wf(),
            final(self)@ == after_use(old(self)@, ip@),
            r@ == ip@,
    {
        match self.find(&ip) {
            Some(k) => {
                proof {
                    self.lemma_index_unique(k as int, ip@);
                }
                self.update_prev_ip(k);
                ip
            },
            None => {
                self.insert_front(ip.clone());
                ip
            },
        }
    }

    /// Moves the record at rank `prev_used` to rank 0; each record of a lower
    /// rank moves one rank down, the others keep theirs.
    fn update_prev_ip(&mut self, prev_used: usize)
        requires
            old(self).wf(),
            prev_used < old(self)@.len(),
        ensures
            final(self).wf(),
            final(self)@ == seq![old(self)@[prev_used as int]] + old(self)@.remove(prev_used as int),
    {
        let ghost old_list = self@;
        let ghost r = prev_used as int;
        let n = self.records.len();
        let mut out: Vec<PrevIp> = Vec::new();
        out.push(PrevIp { address: self.records[prev_used].address.clone(), used: 0 });
        let mut i: usize = 0;
        while i < n
            invariant
                n == self.records@.len(),
                old_list == self@,
                self.wf(),
                r == prev_used,
                0 <= r < n,
                i <= n,
                forall|k: int| 0 <= k < out@.len() ==> #[trigger] out@[k].used == k,
                out@.map_values(|x: PrevIp| x.address@) == if i <= r {
                    seq![old_list[r]] + old_list.subrange(0, i as int)
                } else {
                    seq![old_list[r]] + old_list.subrange(0, r) + old_list.subrange(r + 1, i as int)
                },
            decreases n - i,
        {
            if i != prev_used {
                let used: usize = if i < prev_used { i + 1 } else { i };
                let ghost before = out@.map_values(|x: PrevIp| x.address@);
                out.push(PrevIp { address: self.records[i].address.clone(), used: used as i64 });
                proof {
                    assert(self@[i as int] == self.records@[i as int].address@);
                    assert(out@.map_values(|x: PrevIp| x.address@) =~= before.push(old_list[i as int]));
                    if i < r {
                        assert(out@.map_values(|x: PrevIp| x.address@) =~= seq![old_list[r]]
                            + old_list.subrange(0, i as int + 1));
                    } else {
                        assert(out@.map_values(|x: PrevIp| x.address@) =~= seq![old_list[r]]
                            + old_list.subrange(0, r) + old_list.subrange(r + 1, i as int + 1));
                    }
                }
            } else {
                proof {
                    assert(old_list.subrange(r + 1, r + 1) =~= Seq::<Seq<char>>::empty());
                    assert(out@.map_values(|x: PrevIp| x.address@) =~= seq![old_list[r]]
                        + old_list.subrange(0, r) + old_list.subrange(r + 1, i as int + 1));
                }
            }
            i = i + 1;
        }
        self.records = out;
        proof {
            assert(self@ =~= seq![old_list[r]] + old_list.remove(r));
            lemma_promote_valid(old_list, r);
        }
    }

    /// Puts the new address `ip` at rank 0, moves every record one rank down and
    /// deletes the record whose rank reaches `CAPACITY`.
    fn insert_front(&mut self, ip: String)
        requires
            old(self).wf(),
            !old(self)@.contains(ip@),
        ensures
            final(self).wf(),
            final(self)@ == after_use(old(self)@, ip@),
    {
        let ghost old_list = self@;
        let n = self.records.len();
        let mut out: Vec<PrevIp> = Vec::new();
        out.push(PrevIp { address: ip, used: 0 });
        let ghost a = out@[0].address@;
        let mut i: usize = 0;
        while i < n
            invariant
                n == self.records@.len(),
                n <= CAPACITY,
                old_list == self@,
                self.wf(),
                !old_list.contains(a),
                i <= n,
                forall|k: int| 0 <= k < out@.len() ==> #[trigger] out@[k].used == k,
                out@.map_values(|x: PrevIp| x.address@) == (seq![a] + old_list.subrange(0, i as int)).take(
                    if i + 1 <= CAPACITY { i as int + 1 } else { CAPACITY as int }),
            decreases n - i,
        {
            let used: usize = i + 1;
            let ghost before = out@.map_values(|x: PrevIp| x.address@);
            if used < CAPACITY {
                out.push(PrevIp { address: self.records[i].address.clone(), used: used as i64 });
                proof {
                    assert(self@[i as int] == self.records@[i as int].address@);
                    assert(out@.map_values(|x: PrevIp| x.address@) =~= before.push(old_list[i as int]));
                }
            }
            proof {
                assert(out@.map_values(|x: PrevIp| x.address@) =~= (seq![a] + old_list.subrange(0, i as int + 1)).take(
                    if i + 2 <= CAPACITY { i as int + 2 } else { CAPACITY as int }));
            }
            i = i + 1;
        }
        self.records = out;
        proof {
            assert(old_list.subrange(0, n as int) =~= old_list);
            if n < CAPACITY {
                assert(self@ =~= seq![a] + old_list);
            } else {
                assert(self@ =~= seq![a] + old_list.take(CAPACITY as int - 1));
            }
            lemma_insert_valid(old_list, a);
        }
    }
}

/// Promoting the address at rank `r` keeps a history valid.
proof fn lemma_promote_valid(list: Seq<Seq<char>>, r: int)
    requires
        valid_history(list),
        0 <= r < list.len(),
    ensures
        valid_history(seq![list[r]] + list.remove(r)),
{
    let l = seq![list[r]] + list.remove(r);
    assert forall|i: int, j: int| 0 <= i < l.len() && 0 <= j < l.len() && i != j implies l[i] != l[j] by {
        let oi = if i == 0 { r } else if i - 1 < r { i - 1 } else { i };
        let oj = if j == 0 { r } else if j - 1 < r { j - 1 } else { j };
        assert(l[i] == list[oi]);
        assert(l[j] == list[oj]);
    }
}

/// Putting an address that is not stored at the front, and cutting to
/// `CAPACITY`, keeps a history valid.
proof fn lemma_insert_valid(list: Seq<Seq<char>>, a: Seq<char>)
    requires
        valid_history(list),
        !list.contains(a),
    ensures
        valid_history(after_use(list, a)),
{
    let full = seq![a] + list;
    assert forall|i: int, j: int| 0 <= i < full.len() && 0 <= j < full.len() && i != j implies full[i] != full[j] by {
        if i == 0 {
            assert(full[j] == list[j - 1]);
        } else if j == 0 {
            assert(full[i] == list[i - 1]);
        } else {
            assert(full[i] == list[i - 1]);
            assert(full[j] == list[j - 1]);
        }
    }
    if list.len() >= CAPACITY {
        assert(seq![a] + list.take(CAPACITY as int - 1) =~= full.take(CAPACITY as int));
    }
}


/// In a history without duplicates, the address at position `k` has rank `k`.
pub proof fn lemma_rank_at(list: Seq<Seq<char>>, k: int)
    requires
        list.no_duplicates(),
        0 <= k < list.len(),
    ensures
        rank_in(list, list[k]) == Some(k),
{
    assert(list.contains(list[k]));
    let j = list.index_of(list[k]);
    assert(0 <= j < list.len() && list[j] == list[k]);
}

/// Using an address keeps a history valid and puts that address at rank 0.
pub proof fn lemma_after_use_valid(list: Seq<Seq<char>>, a: Seq<char>)
    requires
        valid_history(list),
    ensures
        valid_history(after_use(list, a)),
        rank_in(after_use(list, a), a) == Some(0int),
{
    if list.contains(a) {
        let r = list.index_of(a);
        lemma_promote_valid(list, r);
    } else {
        lemma_insert_valid(list, a);
    }
    lemma_rank_at(after_use(list, a), 0);
}

/// Whatever addresses are used, in whatever order, a valid history stays valid:
/// it never holds more than `CAPACITY` addresses.
pub proof fn lemma_replay_bounded(list: Seq<Seq<char>>, uses: Seq<Seq<char>>)
    requires
        valid_history(list),
    ensures
        valid_history(replay(list, uses)),
        replay(list, uses).len() <= CAPACITY,
        forall|a: Seq<char>| #[trigger] replay(list, uses).contains(a) ==> 0 <= rank_in(replay(list, uses), a).unwrap()
            < CAPACITY,
    decreases uses.len(),
{
    if uses.len() > 0 {
        lemma_after_use_valid(list, uses[0]);
        lemma_replay_bounded(after_use(list, uses[0]), uses.drop_first());
    }
}

/// Using the same address twice in a row is the same as using it once, and it
/// has rank 0 afterwards.
pub proof fn lemma_use_twice(list: Seq<Seq<char>>, a: Seq<char>)
    requires
        valid_history(list),
    ensures
        after_use(after_use(list, a), a) == after_use(list, a),
        rank_in(after_use(after_use(list, a), a), a) == Some(0int),
{
    let once = after_use(list, a);
    lemma_after_use_valid(list, a);
    lemma_rank_at(once, 0);
    assert(once.contains(a));
    assert(once.remove(0) =~= once.subrange(1, once.len() as int));
    assert(seq![a] + once.remove(0) =~= once);
}

/// Promoting a stored address `a` of rank `r`: `a` gets rank 0, every address of
/// rank below `r` moves one rank down, every address of rank above `r` keeps its rank.
pub proof fn lemma_promotion_ranks(list: Seq<Seq<char>>, a: Seq<char>, x: Seq<char>)
    requires
        valid_history(list),
        list.contains(a),
        list.contains(x),
        x != a,
    ensures
        rank_in(after_use(list, a), a) == Some(0int),
        rank_in(list, x).unwrap() < rank_in(list, a).unwrap() ==> rank_in(after_use(list, a), x)
            == Some(rank_in(list, x).unwrap() + 1),
        rank_in(list, x).unwrap() > rank_in(list, a).unwrap() ==> rank_in(after_use(list, a), x)
            == rank_in(list, x),
{
    lemma_after_use_valid(list, a);
    let l = after_use(list, a);
    let r = list.index_of(a);
    let k = list.index_of(x);
    assert(list[r] == a && list[k] == x);
    assert(k != r);
    if k < r {
        assert(l[k + 1] == x);
        lemma_rank_at(l, k + 1);
    } else {
        assert(l[k] == x);
        lemma_rank_at(l, k);
    }
}

/// A new address entering a full history: it gets rank 0, the address of rank
/// `CAPACITY - 1` leaves, and every other address moves exactly one rank down.
pub proof fn lemma_eviction(list: Seq<Seq<char>>, a: Seq<char>, k: int)
    requires
        valid_history(list),
        list.len() == CAPACITY,
        !list.contains(a),
        0 <= k < CAPACITY - 1,
    ensures
        after_use(list, a).len() == CAPACITY,
        rank_in(after_use(list, a), a) == Some(0int),
        !after_use(list, a).contains(list[CAPACITY - 1]),
        rank_in(after_use(list, a), list[k]) == Some(k + 1),
{
    lemma_after_use_valid(list, a);
    let l = after_use(list, a);
    let last = list[CAPACITY - 1];
    if l.contains(last) {
        let j = choose|j: int| 0 <= j < l.len() && l[j] == last;
        if j == 0 {
            assert(list[CAPACITY - 1] == a);
        } else {
            assert(list[j - 1] == last);
        }
    }
    assert(l[k + 1] == list[k]);
    lemma_rank_at(l, k + 1);
}

/// A lookup holds no address twice, and holds an address exactly when it is
/// stored and contains the pattern.
pub proof fn lemma_matching_members(list: Seq<Seq<char>>, p: Seq<char>)
    requires
        list.no_duplicates(),
    ensures
        matching(list, p).no_duplicates(),
        forall|x: Seq<char>| #[trigger] matching(list, p).contains(x) <==> (list.contains(x) && contains_pattern(x, p)),
    decreases list.len(),
{
    reveal(Seq::filter);
    if list.len() > 0 {
        let d = list.drop_last();
        let x = list.last();
        let n = list.len() - 1;
        assert forall|i: int, j: int| 0 <= i < d.len() && 0 <= j < d.len() && i != j implies d[i] != d[j] by {
            assert(d[i] == list[i] && d[j] == list[j]);
        }
        lemma_matching_members(d, p);
        assert(!d.contains(x)) by {
            if d.contains(x) {
                let j = choose|j: int| 0 <= j < d.len() && d[j] == x;
                assert(list[j] == list[n]);
            }
        }
        let md = matching(d, p);
        assert(d.filter(|s: Seq<char>| contains_pattern(s, p)) == md);
        assert forall|y: Seq<char>| list.contains(y) <==> (d.contains(y) || y == x) by {
            if list.contains(y) {
                let j = choose|j: int| 0 <= j < list.len() && list[j] == y;
                if j < n {
                    assert(d[j] == y);
                }
            }
            if d.contains(y) {
                let j = choose|j: int| 0 <= j < d.len() && d[j] == y;
                assert(list[j] == y);
            }
            if y == x {
                assert(list[n] == y);
            }
        }
        if contains_pattern(x, p) {
            assert(matching(list, p) == md.push(x));
            assert forall|y: Seq<char>| md.push(x).contains(y) <==> (md.contains(y) || y == x) by {
                if md.push(x).contains(y) {
                    let j = choose|j: int| 0 <= j < md.push(x).len() && md.push(x)[j] == y;
                    if j < md.len() {
                        assert(md[j] == y);
                    }
                }
                if md.contains(y) {
                    let j = choose|j: int| 0 <= j < md.len() && md[j] == y;
                    assert(md.push(x)[j] == y);
                }
                if y == x {
                    assert(md.push(x)[md.len() as int] == y);
                }
            }
            let m = md.push(x);
            assert forall|i: int, j: int| 0 <= i < m.len() && 0 <= j < m.len() && i != j implies m[i] != m[j] by {
                if i < md.len() && j < md.len() {
                    assert(m[i] == md[i] && m[j] == md[j]);
                } else if i < md.len() {
                    assert(m[i] == md[i]);
                    assert(md.contains(m[i]));
                } else {
                    assert(m[j] == md[j]);
                    assert(md.contains(m[j]));
                }
            }
        } else {
            assert(matching(list, p) == md);
        }
        assert forall|y: Seq<char>| #[trigger] matching(list, p).contains(y) <==> (list.contains(y)
            && contains_pattern(y, p)) by {
            assert(list.contains(y) <==> (d.contains(y) || y == x));
            assert(md.contains(y) <==> (d.contains(y) && contains_pattern(y, p)));
        }
    } else {
        assert(matching(list, p) == list);
    }
}

/// The empty pattern matches every stored address.
pub proof fn lemma_lookup_all(list: Seq<Seq<char>>)
    ensures
        matching(list, Seq::<char>::empty()) == list,
    decreases list.len(),
{
    reveal(Seq::filter);
    if list.len() > 0 {
        let s = list.last();
        let e = Seq::<char>::empty();
        assert(s.subrange(0, 0 + e.len() as int) =~= e);
        assert(contains_pattern(s, Seq::<char>::empty()));
        lemma_lookup_all(list.drop_last());
        assert(list.drop_last().push(s) =~= list);
    }
}

} // verus!
