use crate::board::Board;
use crate::board::Pos;
use crate::board::Successor;
use vstd::prelude::*;

verus! {

/// The successor positions of `p`: the positions of `spec_successors`, in the
/// same order, with the costs discarded.
pub open spec fn succ_positions(b: Board, p: Pos) -> Seq<Pos> {
    b.spec_successors(p).map_values(|s: Successor| s.pos)
}

/// Whether `path` walks from `start` to `goal` on `b`: it is non-empty, begins
/// at `start`, ends at `goal`, and every step moves to a successor position of
/// the cell before it.
pub open spec fn is_path(b: Board, path: Seq<Pos>, start: Pos, goal: Pos) -> bool {
    &&& path.len() >= 1
    &&& path[0] == start
    &&& path[path.len() - 1] == goal
    &&& forall|i: int| 0 <= i < path.len() - 1
        ==> (#[trigger] succ_positions(b, path[i])).contains(path[i + 1])
}

/// Whether the two positions are the same cell.
pub fn pos_eq(a: &Pos, b: &Pos) -> (r: bool)
    ensures
        r == (a == b),
{
    a.0 == b.0 && a.1 == b.1
}

impl Board {
    /// The successors of `pos` with the cost field discarded, in mask order.
    pub fn successor_positions(&self, pos: &Pos) -> (r: Vec<Pos>)
        requires
            self.wf(),
        ensures
            r@ == succ_positions(*self, *pos),
    {
        let succ = self.successors(pos);
        let mut out: Vec<Pos> = Vec::new();
        let mut i: usize = 0;
        while i < succ.len()
            invariant
                succ@ == self.spec_successors(*pos),
                i <= succ@.len(),
                out@ == succ@.map_values(|s: Successor| s.pos).take(i as int),
            decreases succ@.len() - i,
        {
            out.push(succ[i].pos);
            assert(out@ =~= succ@.map_values(|s: Successor| s.pos).take(i + 1));
            i = i + 1;
        }
        assert(out@ =~= succ_positions(*self, *pos));
        out
    }
}

/// Relies on pathfinding's `bfs`: it returns one of the shortest paths from
/// `start` to a node satisfying the goal predicate, as reached through the
/// successor function, with both ends included, and `None` exactly when no
/// such path exists. The successor function handed to it is the verified
/// `successor_positions`, so path steps follow `succ_positions`.
#[verifier::external_body]
fn bfs_search(b: &Board, start: &Pos, goal: &Pos) -> (r: Option<Vec<Pos>>)
    requires
        b.wf(),
    ensures
        match r {
            Some(path) => {
                &&& is_path(*b, path@, *start, *goal)
                &&& forall|q: Seq<Pos>| is_path(*b, q, *start, *goal) ==> q.len() >= path@.len()
            },
            None => forall|q: Seq<Pos>| !is_path(*b, q, *start, *goal),
        },
{
    pathfinding::directed::bfs::bfs(
        start,
        |p: &Pos| b.successor_positions(p),
        |p: &Pos| pos_eq(p, goal),
    )
}

impl Board {
    /// One of the paths from `start` to `goal` with the fewest steps, found by
    /// breadth-first search over the successor positions; `None` exactly when
    /// no such path exists. The search counts hops only: the cost field of the
    /// successors plays no part in which path comes back. When `start` and
    /// `goal` are the same cell, the result is the one-element path holding
    /// that cell.
    pub fn shortest_path(&self, start: &Pos, goal: &Pos) -> (r: Option<Vec<Pos>>)
        requires
            self.wf(),
        ensures
            match r {
                Some(path) => {
                    &&& is_path(*self, path@, *start, *goal)
                    &&& forall|q: Seq<Pos>| is_path(*self, q, *start, *goal)
                        ==> q.len() >= path@.len()
                    &&& start == goal ==> path@ == seq![*start]
                },
                None => {
                    &&& forall|q: Seq<Pos>| !is_path(*self, q, *start, *goal)
                    &&& start != goal
                },
            },
    {
        let r = bfs_search(self, start, goal);
        proof {
            if start == goal {
                let single = seq![*start];
                assert(is_path(*self, single, *start, *goal));
                if let Some(path) = &r {
                    assert(path@.len() <= 1);
                    assert(path@ =~= single);
                }
            }
        }
        r
    }
}

} // verus!
