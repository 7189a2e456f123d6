//! Disjoint sets over the indices `0..n`, with path halving in `find` and union by
//! rank. Each index is seen through its representative: two indices are in one set
//! exactly when they have the same representative.
use vstd::prelude::*;

verus! {

/// The representative of `i`: the end of its chain of parents. A parent is followed
/// only while its rank is higher than the child's, which the well-formed structure
/// always has.
pub open spec fn root_of(parent: Seq<usize>, rank: Seq<usize>, i: int) -> int
    decreases usize::MAX - rank[i],
{
    if 0 <= i < parent.len() && rank.len() == parent.len() && parent[i] as int != i
        && (parent[i] as int) < parent.len() && rank[parent[i] as int] > rank[i] {
        root_of(parent, rank, parent[i] as int)
    } else {
        i
    }
}

/// The representative of every index, in order.
pub open spec fn roots(parent: Seq<usize>, rank: Seq<usize>) -> Seq<int> {
    Seq::new(parent.len(), |j: int| root_of(parent, rank, j))
}

/// How many entries of `s` equal `r`.
pub open spec fn count_of(s: Seq<int>, r: int) -> nat
    decreases s.len(),
{
    if s.len() == 0 {
        0
    } else {
        count_of(s.drop_last(), r) + (if s.last() == r {
            1nat
        } else {
            0nat
        })
    }
}

/// The parent links: in range, and every link that is not a self-loop climbs in rank.
pub open spec fn links_ok(parent: Seq<usize>, rank: Seq<usize>) -> bool {
    &&& rank.len() == parent.len()
    &&& forall|i: int|
        0 <= i < parent.len() ==> #[trigger] parent[i] < parent.len() && rank[i] < parent.len()
    &&& forall|i: int|
        0 <= i < parent.len() && #[trigger] parent[i] as int != i ==> rank[parent[i] as int]
            > rank[i]
}

/// At every representative, the stored size is the number of indices it represents,
/// and its rank is below that size.
pub open spec fn sizes_ok(parent: Seq<usize>, rank: Seq<usize>, size: Seq<usize>) -> bool {
    &&& size.len() == parent.len()
    &&& forall|i: int|
        0 <= i < parent.len() && #[trigger] parent[i] as int == i ==> size[i] == count_of(
            roots(parent, rank),
            i,
        ) && rank[i] < size[i]
}

/// Disjoint sets of the indices `0..n` (used to join faces into groups).
pub struct UnionFind {
    parent: Vec<usize>,
    rank: Vec<usize>,
    size: Vec<usize>,
}

impl View for UnionFind {
    type V = Seq<int>;

    /// The representative of each index.
    closed spec fn view(&self) -> Seq<int> {
        roots(self.parent@, self.rank@)
    }
}

proof fn lemma_root_facts(p: Seq<usize>, rk: Seq<usize>, i: int)
    requires
        links_ok(p, rk),
        0 <= i < p.len(),
    ensures
        0 <= root_of(p, rk, i) < p.len(),
        p[root_of(p, rk, i)] as int == root_of(p, rk, i),
        rk[root_of(p, rk, i)] >= rk[i],
        p[i] as int != i ==> rk[root_of(p, rk, i)] > rk[i],
        p[i] as int != i ==> root_of(p, rk, i) == root_of(p, rk, p[i] as int),
        p[i] as int == i ==> root_of(p, rk, i) == i,
    decreases usize::MAX - rk[i],
{
    if p[i] as int != i {
        let q = p[i] as int;
        assert(p[i] < p.len());
        assert(rk[q] > rk[i]);
        lemma_root_facts(p, rk, q);
    }
}

proof fn lemma_count_le(s: Seq<int>, r: int)
    ensures
        count_of(s, r) <= s.len(),
    decreases s.len(),
{
    if s.len() > 0 {
        lemma_count_le(s.drop_last(), r);
    }
}

proof fn lemma_count_two(s: Seq<int>, a: int, b: int)
    requires
        a != b,
    ensures
        count_of(s, a) + count_of(s, b) <= s.len(),
    decreases s.len(),
{
    if s.len() > 0 {
        lemma_count_two(s.drop_last(), a, b);
    }
}

proof fn lemma_count_identity(k: nat, r: int)
    ensures
        count_of(Seq::new(k, |j: int| j), r) == (if 0 <= r < k {
            1nat
        } else {
            0nat
        }),
    decreases k,
{
    if k > 0 {
        let s = Seq::new(k, |j: int| j);
        assert(s.drop_last() =~= Seq::new((k - 1) as nat, |j: int| j));
        lemma_count_identity((k - 1) as nat, r);
    }
}

proof fn lemma_count_merge(s: Seq<int>, t: Seq<int>, a: int, b: int, r: int)
    requires
        s.len() == t.len(),
        a != b,
        forall|j: int| 0 <= j < s.len() ==> #[trigger] t[j] == (if s[j] == b { a } else { s[j] }),
    ensures
        count_of(t, a) == count_of(s, a) + count_of(s, b),
        r != a && r != b ==> count_of(t, r) == count_of(s, r),
    decreases s.len(),
{
    if s.len() > 0 {
        let s2 = s.drop_last();
        let t2 = t.drop_last();
        assert forall|j: int| 0 <= j < s2.len() implies #[trigger] t2[j] == (if s2[j] == b {
            a
        } else {
            s2[j]
        }) by {
            assert(t2[j] == t[j]);
            assert(s2[j] == s[j]);
        }
        lemma_count_merge(s2, t2, a, b, r);
        assert(t.last() == t[s.len() - 1]);
    }
}

proof fn lemma_halving_at(p: Seq<usize>, rk: Seq<usize>, x: int, j: int)
    requires
        links_ok(p, rk),
        0 <= x < p.len(),
        0 <= j < p.len(),
    ensures
        links_ok(p.update(x, p[p[x] as int]), rk),
        root_of(p.update(x, p[p[x] as int]), rk, j) == root_of(p, rk, j),
    decreases usize::MAX - rk[j],
{
    let g = p[p[x] as int];
    let p2 = p.update(x, g);
    assert(p[x] < p.len());
    let px = p[x] as int;
    assert(p[px] < p.len());
    if px != x && p[px] as int != px {
        assert(rk[g as int] > rk[px]);
    }
    assert forall|i: int| 0 <= i < p2.len() implies #[trigger] p2[i] < p2.len() && rk[i]
        < p2.len() by {
        assert(p[i] < p.len());
    }
    assert forall|i: int| 0 <= i < p2.len() && #[trigger] p2[i] as int != i implies rk[p2[i] as int]
        > rk[i] by {
        if i != x {
            assert(p2[i] == p[i]);
        }
    }
    assert(links_ok(p2, rk));
    lemma_root_facts(p, rk, j);
    lemma_root_facts(p2, rk, j);
    if p2[j] as int != j {
        let q = p2[j] as int;
        lemma_halving_at(p, rk, x, q);
        if j == x {
            if p[px] as int != px {
                lemma_root_facts(p, rk, px);
            }
        }
    }
}

proof fn lemma_halving(p: Seq<usize>, rk: Seq<usize>, x: int)
    requires
        links_ok(p, rk),
        0 <= x < p.len(),
    ensures
        links_ok(p.update(x, p[p[x] as int]), rk),
        roots(p.update(x, p[p[x] as int]), rk) == roots(p, rk),
{
    let p2 = p.update(x, p[p[x] as int]);
    lemma_halving_at(p, rk, x, 0);
    assert forall|j: int| 0 <= j < p.len() implies #[trigger] roots(p2, rk)[j] == roots(
        p,
        rk,
    )[j] by {
        lemma_halving_at(p, rk, x, j);
    }
    assert(roots(p2, rk) =~= roots(p, rk));
}

proof fn lemma_link_at(
    p: Seq<usize>,
    rk: Seq<usize>,
    child: int,
    root: int,
    v: usize,
    j: int,
)
    requires
        links_ok(p, rk),
        0 <= child < p.len(),
        0 <= root < p.len(),
        child != root,
        p[child] as int == child,
        p[root] as int == root,
        rk[root] <= v < p.len(),
        rk[child] < v,
        0 <= j < p.len(),
    ensures
        links_ok(p.update(child, root as usize), rk.update(root, v)),
        root_of(p.update(child, root as usize), rk.update(root, v), j) == (if root_of(p, rk, j)
            == child {
            root
        } else {
            root_of(p, rk, j)
        }),
    decreases usize::MAX - rk[j],
{
    let p2 = p.update(child, root as usize);
    let rk2 = rk.update(root, v);
    assert forall|i: int| 0 <= i < p2.len() implies #[trigger] p2[i] < p2.len() && rk2[i]
        < p2.len() by {
        assert(p[i] < p.len());
    }
    assert forall|i: int| 0 <= i < p2.len() && #[trigger] p2[i] as int != i implies rk2[p2[i] as int]
        > rk2[i] by {
        if i != child {
            assert(p2[i] == p[i]);
            assert(p[i] as int != i);
            assert(rk[p[i] as int] > rk[i]);
            assert(i != root);
        }
    }
    assert(links_ok(p2, rk2));
    lemma_root_facts(p, rk, j);
    lemma_root_facts(p2, rk2, j);
    lemma_root_facts(p2, rk2, root);
    if j != child && p[j] as int != j {
        let q = p[j] as int;
        assert(p2[j] == p[j]);
        assert(rk[q] > rk[j]);
        lemma_link_at(p, rk, child, root, v, q);
    }
}

impl UnionFind {
    /// The structure's invariant: parent links in range and climbing in rank, and the
    /// size and rank stored at each representative.
    pub closed spec fn wf(&self) -> bool {
        links_ok(self.parent@, self.rank@) && sizes_ok(self.parent@, self.rank@, self.size@)
    }

    /// The rank kept for each index; union by rank hangs the lower-ranked set below
    /// the other.
    pub closed spec fn ranks(&self) -> Seq<usize> {
        self.rank@
    }

    /// Every index in a set of its own.
    pub fn new(n: usize) -> (uf: Self)
        ensures
            uf.wf(),
            uf@ == Seq::new(n as nat, |j: int| j),
            uf.ranks() == Seq::new(n as nat, |j: int| 0usize),
    {
        let mut parent: Vec<usize> = Vec::new();
        let mut rank: Vec<usize> = Vec::new();
        let mut size: Vec<usize> = Vec::new();
        let mut i: usize = 0;
        while i < n
            invariant
                i <= n,
                parent@ == Seq::new(i as nat, |j: int| j as usize),
                rank@ == Seq::new(i as nat, |j: int| 0usize),
                size@ == Seq::new(i as nat, |j: int| 1usize),
            decreases n - i,
        {
            parent.push(i);
            rank.push(0);
            size.push(1);
            i = i + 1;
            proof {
                assert(parent@ =~= Seq::new(i as nat, |j: int| j as usize));
                assert(rank@ =~= Seq::new(i as nat, |j: int| 0usize));
                assert(size@ =~= Seq::new(i as nat, |j: int| 1usize));
            }
        }
        let uf = UnionFind { parent, rank, size };
        proof {
            let ident = Seq::new(n as nat, |j: int| j);
            assert forall|j: int| 0 <= j < n implies #[trigger] uf@[j] == ident[j] by {
                lemma_root_facts(uf.parent@, uf.rank@, j);
            }
            assert(uf@ =~= ident);
            assert forall|i: int|
                0 <= i < n && #[trigger] uf.parent@[i] as int == i implies uf.size@[i]
                == count_of(roots(uf.parent@, uf.rank@), i) && uf.rank@[i] < uf.size@[i] by {
                lemma_count_identity(n as nat, i);
            }
        }
        uf
    }

    /// The representative of `x`. Halves the path on the way (each visited index is
    /// relinked to its grandparent), which changes no representative.
    pub fn find(&mut self, x: usize) -> (r: usize)
        requires
            old(self).wf(),
            x < old(self)@.len(),
        ensures
            final(self).wf(),
            final(self)@ == old(self)@,
            final(self).ranks() == old(self).ranks(),
            r == old(self)@[x as int],
            r < final(self)@.len(),
            final(self)@[r as int] == r,
    {
        let ghost s0 = self@;
        let mut cur: usize = x;
        proof {
            lemma_root_facts(self.parent@, self.rank@, x as int);
        }
        while self.parent[cur] != cur
            invariant
                self.wf(),
                self@ == s0,
                self.rank@ == old(self).rank@,
                self.parent@.len() == s0.len(),
                cur < s0.len(),
                x < s0.len(),
                self@[cur as int] == s0[x as int],
            decreases self.parent@.len() - self.rank@[cur as int],
        {
            let p = self.parent[cur];
            let g = self.parent[p];
            proof {
                let pp = self.parent@;
                let rk = self.rank@;
                assert(pp[cur as int] < pp.len());
                assert(pp[p as int] < pp.len());
                assert(rk[p as int] > rk[cur as int]);
                if pp[p as int] != p {
                    assert(rk[g as int] > rk[p as int]);
                }
                lemma_root_facts(pp, rk, cur as int);
                lemma_halving(pp, rk, cur as int);
                lemma_halving_at(pp, rk, cur as int, g as int);
                lemma_root_facts(pp, rk, p as int);
            }
            self.parent.set(cur, g);
            proof {
                assert forall|i: int|
                    0 <= i < self.parent@.len() && #[trigger] self.parent@[i] as int
                        == i implies self.size@[i] == count_of(
                    roots(self.parent@, self.rank@),
                    i,
                ) && self.rank@[i] < self.size@[i] by {
                    assert(i != cur as int);
                }
            }
            cur = g;
        }
        proof {
            lemma_root_facts(self.parent@, self.rank@, cur as int);
        }
        cur
    }

    /// The number of indices in the set of `x`.
    pub fn size(&self, x: usize) -> (r: usize)
        requires
            self.wf(),
            x < self@.len(),
        ensures
            r == count_of(self@, self@[x as int]),
    {
        let mut cur: usize = x;
        while self.parent[cur] != cur
            invariant
                self.wf(),
                x < self@.len(),
                cur < self@.len(),
                self@.len() == self.parent@.len(),
                self@[cur as int] == self@[x as int],
            decreases self.parent@.len() - self.rank@[cur as int],
        {
            proof {
                lemma_root_facts(self.parent@, self.rank@, cur as int);
            }
            cur = self.parent[cur];
        }
        proof {
            lemma_root_facts(self.parent@, self.rank@, cur as int);
        }
        self.size[cur]
    }

    /// Hangs the representative `child` below the representative `root`, raising the
    /// rank of `root` by one when `bump` is set.
    fn link(&mut self, child: usize, root: usize, bump: bool)
        requires
            old(self).wf(),
            child < old(self)@.len(),
            root < old(self)@.len(),
            child != root,
            old(self)@[child as int] == child,
            old(self)@[root as int] == root,
            bump ==> old(self).ranks()[child as int] == old(self).ranks()[root as int],
            !bump ==> old(self).ranks()[child as int] < old(self).ranks()[root as int],
        ensures
            final(self).wf(),
            final(self)@.len() == old(self)@.len(),
            final(self).ranks() == if bump {
                old(self).ranks().update(root as int, (old(self).ranks()[root as int] + 1) as usize)
            } else {
                old(self).ranks()
            },
            forall|j: int|
                0 <= j < old(self)@.len() ==> #[trigger] final(self)@[j] == (if old(self)@[j]
                    == child as int {
                    root as int
                } else {
                    old(self)@[j]
                }),
    {
        let ghost p0 = self.parent@;
        let ghost rk0 = self.rank@;
        let ghost sz0 = self.size@;
        let ghost s0 = self@;
        proof {
            lemma_root_facts(p0, rk0, child as int);
            lemma_root_facts(p0, rk0, root as int);
            lemma_count_two(s0, child as int, root as int);
            lemma_count_le(s0, root as int);
            assert(p0[root as int] as int == root as int);
            assert(p0[child as int] as int == child as int);
        }
        let n: usize = self.parent.len();
        proof {
            // the two sets together fit in the `n` indices
            assert(count_of(s0, child as int) + count_of(s0, root as int) <= n);
        }
        let total: usize = self.size[root] + self.size[child];
        self.parent.set(child, root);
        self.size.set(root, total);
        if bump {
            let r: usize = self.rank[root] + 1;
            self.rank.set(root, r);
        }
        proof {
            let v: usize = self.rank@[root as int];
            assert(self.rank@ =~= rk0.update(root as int, v));
            assert(!bump ==> self.rank@ =~= rk0);
            assert(self.parent@ == p0.update(child as int, root as usize));
            let t = self@;
            assert forall|j: int| 0 <= j < s0.len() implies #[trigger] t[j] == (if s0[j]
                == child as int {
                root as int
            } else {
                s0[j]
            }) by {
                lemma_link_at(p0, rk0, child as int, root as int, v, j);
            }
            lemma_link_at(p0, rk0, child as int, root as int, v, 0);
            lemma_count_merge(s0, t, root as int, child as int, 0);
            lemma_count_le(t, root as int);
            assert forall|i: int|
                0 <= i < self.parent@.len() && #[trigger] self.parent@[i] as int
                    == i implies self.size@[i] == count_of(roots(self.parent@, self.rank@), i)
                && self.rank@[i] < self.size@[i] by {
                lemma_count_merge(s0, t, root as int, child as int, i);
                if i != root as int {
                    assert(i != child as int);
                    assert(p0[i] as int == i);
                }
            }
        }
    }

    /// Joins the sets of `a` and `b`. The set of lower rank goes below the other and
    /// the ranks stay; on equal ranks the set of `b` goes below that of `a`, whose rank
    /// rises by one.
    pub fn union(&mut self, a: usize, b: usize)
        requires
            old(self).wf(),
            a < old(self)@.len(),
            b < old(self)@.len(),
        ensures
            final(self).wf(),
            final(self)@.len() == old(self)@.len(),
            final(self)@[a as int] == (if old(self)@[a as int] != old(self)@[b as int]
                && old(self).ranks()[old(self)@[a as int]] < old(self).ranks()[old(
            self)@[b as int]] {
                old(self)@[b as int]
            } else {
                old(self)@[a as int]
            }),
            forall|j: int|
                0 <= j < old(self)@.len() ==> #[trigger] final(self)@[j] == (if old(self)@[j]
                    == old(self)@[a as int] || old(self)@[j] == old(self)@[b as int] {
                    final(self)@[a as int]
                } else {
                    old(self)@[j]
                }),
            count_of(final(self)@, final(self)@[a as int]) == count_of(
                old(self)@,
                old(self)@[a as int],
            ) + (if old(self)@[a as int] == old(self)@[b as int] {
                0
            } else {
                count_of(old(self)@, old(self)@[b as int])
            }),
            final(self).ranks() == (if old(self)@[a as int] != old(self)@[b as int]
                && old(self).ranks()[old(self)@[a as int]] == old(self).ranks()[old(self)@[b as int]] {
                old(self).ranks().update(old(self)@[a as int], (old(self).ranks()[old(self)@[a as int]] + 1) as usize)
            } else {
                old(self).ranks()
            }),
    {
        let ghost s0 = self@;
        let ra = self.find(a);
        let rb = self.find(b);
        if ra == rb {
            return ;
        }
        let rka = self.rank[ra];
        let rkb = self.rank[rb];
        if rka < rkb {
            self.link(ra, rb, false);
            proof {
                lemma_count_merge(s0, self@, rb as int, ra as int, 0);
            }
        } else if rka > rkb {
            self.link(rb, ra, false);
            proof {
                lemma_count_merge(s0, self@, ra as int, rb as int, 0);
            }
        } else {
            self.link(rb, ra, true);
            proof {
                lemma_count_merge(s0, self@, ra as int, rb as int, 0);
            }
        }
    }
}

/// Every index has a representative among the indices, and a representative
/// represents itself: the representatives split `0..n` into disjoint sets.
pub proof fn representatives_are_canonical(uf: &UnionFind)
    requires
        uf.wf(),
    ensures
        forall|j: int|
            0 <= j < uf@.len() ==> 0 <= #[trigger] uf@[j] < uf@.len() && uf@[uf@[j]] == uf@[j],
{
    assert forall|j: int| 0 <= j < uf@.len() implies 0 <= #[trigger] uf@[j] < uf@.len()
        && uf@[uf@[j]] == uf@[j] by {
        lemma_root_facts(uf.parent@, uf.rank@, j);
        lemma_root_facts(uf.parent@, uf.rank@, uf@[j]);
    }
}

} // verus!
