//! Pre-scans of the word stream that `sqCreateReflectQuery` runs before it
//! hands the module to the reflection engine.
//!
//! The engine assumes a few well-formedness properties of its input and does
//! not return on streams that break them: an instruction word whose count
//! half is zero makes its instruction iterator slice out of range; a cycle
//! among `OpFunctionCall` edges makes its per-entry-point resource walk
//! recurse without bound (only taken when `ref_all_rscs` is off); and the
//! division and remainder specialization-constant operations fold their
//! operands eagerly and do not return on a zero divisor. Each scan below
//! walks the flat word stream once, is verified against a spec-level mirror
//! of the same walk, and lets the caller classify an offending module as
//! corrupted instead of handing it on.
use vstd::prelude::*;

verus! {

/// No instruction head reachable from `p` has a zero word count. The walk
/// stops where a count overruns the stream, as the engine's iterator does.
pub open spec fn wf_stream_from(words: Seq<u32>, p: int) -> bool
    decreases words.len() - p,
{
    if p < 0 || p >= words.len() {
        true
    } else {
        let len = (words[p] >> 16) as int;
        if len == 0 {
            false
        } else if p + len > words.len() {
            true
        } else {
            wf_stream_from(words, p + len)
        }
    }
}

/// Whether a word is one of the division or remainder opcodes that a
/// specialization-constant operation may name.
pub open spec fn is_div_opcode(w: u32) -> bool {
    w == 134 || w == 135 || w == 137 || w == 138 || w == 139
}

/// No specialization-constant operation reachable from `p` names a division
/// or remainder opcode. The engine folds these eagerly with machine-endian
/// value reads, so no value-based precheck can be exact on every machine;
/// the whole class is excluded instead.
pub open spec fn spec_ops_safe_from(words: Seq<u32>, p: int) -> bool
    decreases words.len() - p,
{
    if p < 0 || p >= words.len() {
        true
    } else {
        let len = (words[p] >> 16) as int;
        if len == 0 {
            true
        } else if p + len > words.len() {
            true
        } else {
            let op = words[p] & 0xFFFF;
            if op == 52 && len >= 4 && is_div_opcode(words[p + 3]) {
                false
            } else {
                spec_ops_safe_from(words, p + len)
            }
        }
    }
}

/// The caller-to-callee edges of the module's `OpFunctionCall` instructions,
/// in stream order, attributed to the enclosing `OpFunction`.
pub open spec fn call_edges_from(words: Seq<u32>, p: int, cur: Option<u32>) -> Seq<(u32, u32)>
    decreases words.len() - p,
{
    if p < 0 || p >= words.len() {
        Seq::empty()
    } else {
        let len = (words[p] >> 16) as int;
        if len == 0 {
            Seq::empty()
        } else if p + len > words.len() {
            Seq::empty()
        } else {
            let op = words[p] & 0xFFFF;
            if op == 54 && len >= 3 {
                call_edges_from(words, p + len, Some(words[p + 2]))
            } else if op == 56 {
                call_edges_from(words, p + len, None)
            } else if op == 57 && len >= 4 && cur is Some {
                match cur {
                    Some(c) => seq![(c, words[p + 3])] + call_edges_from(words, p + len, cur),
                    None => Seq::empty(),
                }
            } else {
                call_edges_from(words, p + len, cur)
            }
        }
    }
}

/// Whether a ranking of the function ids strictly decreases along every edge.
pub open spec fn rank_decreasing(rank: spec_fn(u32) -> int, edges: Seq<(u32, u32)>) -> bool {
    forall|i: int| 0 <= i < edges.len() ==> rank((#[trigger] edges[i]).1) < rank(edges[i].0)
}

/// A call graph is acyclic exactly when some ranking of the function ids
/// strictly decreases along every edge.
pub open spec fn rank_acyclic(edges: Seq<(u32, u32)>) -> bool {
    exists|rank: spec_fn(u32) -> int| #[trigger] rank_decreasing(rank, edges)
}

/// Scans the stream for an instruction word with a zero count half.
#[verifier::loop_isolation(false)]
pub fn scan_stream(words: &Vec<u32>) -> (r: bool)
    ensures
        r == wf_stream_from(words@, 5),
{
    let n = words.len();
    let mut p: usize = 5;
    while p < n
        invariant
            wf_stream_from(words@, 5) == wf_stream_from(words@, p as int),
            5 <= p,
        decreases n - p,
    {
        let len = (words[p] >> 16) as usize;
        if len == 0 {
            return false;
        }
        if len > n - p {
            return true;
        }
        p = p + len;
    }
    true
}

/// Scans the stream for a division or remainder specialization-constant
/// operation.
#[verifier::loop_isolation(false)]
pub fn scan_spec_ops(words: &Vec<u32>) -> (r: bool)
    ensures
        r == spec_ops_safe_from(words@, 5),
{
    let n = words.len();
    let mut p: usize = 5;
    while p < n
        invariant
            spec_ops_safe_from(words@, 5) == spec_ops_safe_from(words@, p as int),
            5 <= p,
        decreases n - p,
    {
        let len = (words[p] >> 16) as usize;
        if len == 0 {
            return true;
        }
        if len > n - p {
            return true;
        }
        let op = words[p] & 0xFFFF;
        if op == 52 && len >= 4 {
            let inner = words[p + 3];
            if inner == 134 || inner == 135 || inner == 137 || inner == 138 || inner == 139 {
                return false;
            }
        }
        p = p + len;
    }
    true
}

/// Collects the module's function-call edges.
#[verifier::loop_isolation(false)]
pub fn collect_call_edges(words: &Vec<u32>) -> (r: Vec<(u32, u32)>)
    ensures
        r@ == call_edges_from(words@, 5, None),
{
    let n = words.len();
    let mut p: usize = 5;
    let mut cur: Option<u32> = None;
    let mut acc: Vec<(u32, u32)> = Vec::new();
    while p < n
        invariant
            call_edges_from(words@, 5, None) == acc@ + call_edges_from(words@, p as int, cur),
            5 <= p,
        decreases n - p,
    {
        let len = (words[p] >> 16) as usize;
        if len == 0 {
            proof {
                assert(acc@ + call_edges_from(words@, p as int, cur) =~= acc@);
            }
            return acc;
        }
        if len > n - p {
            proof {
                assert(acc@ + call_edges_from(words@, p as int, cur) =~= acc@);
            }
            return acc;
        }
        let op = words[p] & 0xFFFF;
        if op == 54 && len >= 3 {
            cur = Some(words[p + 2]);
        } else if op == 56 {
            cur = None;
        } else if op == 57 && len >= 4 {
            match cur {
                Some(c) => {
                    let ghost pre = acc@;
                    let ghost rest = call_edges_from(words@, p as int + len as int, cur);
                    acc.push((c, words[p + 3]));
                    proof {
                        assert(acc@ =~= pre.push((c, words@[p as int + 3])));
                        assert(pre.push((c, words@[p as int + 3])) + rest =~= pre + (seq![
                            (c, words@[p as int + 3]),
                        ] + rest));
                    }
                },
                None => {
                },
            }
        }
        p = p + len;
    }
    proof {
        assert(acc@ + call_edges_from(words@, p as int, cur) =~= acc@);
    }
    acc
}

/// Whether a list holds a value.
fn contains_u32(v: &Vec<u32>, x: u32) -> (r: bool)
    ensures
        r == v@.contains(x),
{
    let n = v.len();
    let mut i: usize = 0;
    while i < n
        invariant
            forall|j: int| 0 <= j < i ==> v@[j] != x,
            i <= n == v@.len(),
        decreases n - i,
    {
        if v[i] == x {
            return true;
        }
        i += 1;
    }
    false
}

/// Whether every callee of `a` is either no caller itself or already ranked.
fn callees_settled(edges: &Vec<(u32, u32)>, srcs: &Vec<u32>, marked: &Vec<u32>, a: u32) -> (r:
    bool)
    ensures
        r == (forall|e: int|
            0 <= e < edges@.len() && (#[trigger] edges@[e]).0 == a ==> (!srcs@.contains(
                edges@[e].1,
            ) || marked@.contains(edges@[e].1))),
{
    let n = edges.len();
    let mut e: usize = 0;
    while e < n
        invariant
            forall|k: int|
                0 <= k < e && (#[trigger] edges@[k]).0 == a ==> (!srcs@.contains(edges@[k].1)
                    || marked@.contains(edges@[k].1)),
            e <= n == edges@.len(),
        decreases n - e,
    {
        if edges[e].0 == a {
            let callee = edges[e].1;
            if contains_u32(srcs, callee) && !contains_u32(marked, callee) {
                return false;
            }
        }
        e += 1;
    }
    true
}

/// Decides that a call graph is acyclic, by ranking callers whose callees
/// are all settled until no caller is left. A graph without edges is always
/// accepted; acceptance always implies a decreasing ranking exists.
#[verifier::loop_isolation(false)]
pub fn check_acyclic(edges: &Vec<(u32, u32)>) -> (r: bool)
    ensures
        r ==> rank_acyclic(edges@),
        edges@.len() == 0 ==> r,
{
    // The distinct callers.
    let mut srcs: Vec<u32> = Vec::new();
    let mut i: usize = 0;
    while i < edges.len()
        invariant
            forall|k: int| 0 <= k < i ==> srcs@.contains((#[trigger] edges@[k]).0),
            i <= edges@.len(),
            srcs@.len() <= i,
        decreases edges@.len() - i,
    {
        if !contains_u32(&srcs, edges[i].0) {
            let ghost pre = srcs@;
            srcs.push(edges[i].0);
            proof {
                assert(srcs@[pre.len() as int] == edges@[i as int].0);
                assert forall|y: u32| pre.contains(y) implies srcs@.contains(y) by {
                    let ix = choose|ix: int| 0 <= ix < pre.len() && pre[ix] == y;
                    assert(srcs@[ix] == y);
                }
            }
        }
        proof {
            assert(srcs@.contains(edges@[i as int].0));
        }
        i += 1;
    }
    // Rank the callers in passes; an acyclic graph settles within one pass
    // per caller.
    let mut marked: Vec<u32> = Vec::new();
    let ghost mut rmap: Map<u32, int> = Map::empty();
    let total = srcs.len();
    let mut remaining: usize = total;
    loop
        invariant
            total == srcs@.len(),
            forall|n: u32| rmap.contains_key(n) <==> marked@.contains(n),
            forall|n: u32| rmap.contains_key(n) ==> 0 <= #[trigger] rmap[n] < marked@.len(),
            forall|n: u32| rmap.contains_key(n) ==> srcs@.contains(n),
            forall|e: int|
                0 <= e < edges@.len() && rmap.contains_key((#[trigger] edges@[e]).0) ==> {
                    &&& (srcs@.contains(edges@[e].1) ==> rmap.contains_key(edges@[e].1)
                        && rmap[edges@[e].1] < rmap[edges@[e].0])
                    &&& (!srcs@.contains(edges@[e].1) ==> !rmap.contains_key(edges@[e].1))
                },
        decreases remaining,
    {
        let mut k: usize = 0;
        while k < srcs.len()
            invariant
                total == srcs@.len(),
                forall|n: u32| rmap.contains_key(n) <==> marked@.contains(n),
                forall|n: u32| rmap.contains_key(n) ==> 0 <= #[trigger] rmap[n] < marked@.len(),
                forall|n: u32| rmap.contains_key(n) ==> srcs@.contains(n),
                forall|e: int|
                    0 <= e < edges@.len() && rmap.contains_key((#[trigger] edges@[e]).0) ==> {
                        &&& (srcs@.contains(edges@[e].1) ==> rmap.contains_key(edges@[e].1)
                            && rmap[edges@[e].1] < rmap[edges@[e].0])
                        &&& (!srcs@.contains(edges@[e].1) ==> !rmap.contains_key(edges@[e].1))
                    },
            decreases srcs@.len() - k,
        {
            let a = srcs[k];
            if !contains_u32(&marked, a) && callees_settled(edges, &srcs, &marked, a) {
                let ghost pre = marked@;
                marked.push(a);
                proof {
                    rmap = rmap.insert(a, pre.len() as int);
                    assert(marked@ =~= pre.push(a));
                    assert forall|n: u32| rmap.contains_key(n) implies marked@.contains(n) by {
                        if n != a {
                            assert(pre.contains(n));
                            assert(marked@[pre.index_of(n)] == n);
                        } else {
                            assert(marked@[pre.len() as int] == a);
                        }
                    }
                    assert forall|n: u32| marked@.contains(n) implies rmap.contains_key(n) by {
                        let ix = choose|ix: int| 0 <= ix < marked@.len() && marked@[ix] == n;
                        if ix < pre.len() {
                            assert(pre[ix] == n);
                        }
                    }
                }
            }
            k += 1;
        }
        if remaining == 0 {
            break ;
        }
        remaining -= 1;
    }
    // Accept only when every caller is ranked.
    let mut all: bool = true;
    let mut m: usize = 0;
    while m < srcs.len()
        invariant
            all <==> (forall|k: int| 0 <= k < m ==> rmap.contains_key(#[trigger] srcs@[k])),
            m <= srcs@.len(),
            forall|n: u32| rmap.contains_key(n) <==> marked@.contains(n),
            forall|n: u32| rmap.contains_key(n) ==> 0 <= #[trigger] rmap[n] < marked@.len(),
            forall|n: u32| rmap.contains_key(n) ==> srcs@.contains(n),
            forall|e: int|
                0 <= e < edges@.len() && rmap.contains_key((#[trigger] edges@[e]).0) ==> {
                    &&& (srcs@.contains(edges@[e].1) ==> rmap.contains_key(edges@[e].1)
                        && rmap[edges@[e].1] < rmap[edges@[e].0])
                    &&& (!srcs@.contains(edges@[e].1) ==> !rmap.contains_key(edges@[e].1))
                },
        decreases srcs@.len() - m,
    {
        if !contains_u32(&marked, srcs[m]) {
            all = false;
        }
        m += 1;
    }
    if all {
        proof {
            let rank = |n: u32|
                if rmap.contains_key(n) {
                    rmap[n]
                } else {
                    -1
                };
            assert forall|i2: int| 0 <= i2 < edges@.len() implies rank(
                (#[trigger] edges@[i2]).1,
            ) < rank(edges@[i2].0) by {
                assert(srcs@.contains(edges@[i2].0));
                let sx = choose|sx: int| 0 <= sx < srcs@.len() && srcs@[sx] == edges@[i2].0;
                assert(rmap.contains_key(edges@[i2].0));
            }
            assert(rank_decreasing(rank, edges@));
            assert(rank_acyclic(edges@));
        }
    }
    all
}

} // verus!
