//! The reachability shaker: given a canonical module and a requested
//! set of export names, retain exactly the top-level statements
//! transitively required to keep those exports well-formed, and drop
//! the rest.
//!
//! A statement is kept when it is reachable from the declaring
//! statement of a requested exported binding over resolved references
//! ([`in_closure`]), when it is the `export { … }` statement of a
//! requested binding itself ([`in_step5`]), or when it is an
//! `export * from …` statement, which is conservatively never pruned.
//! Requested names that resolve to no exported top-level binding
//! contribute nothing, silently.

use vstd::prelude::*;

use crate::ast::{
    clone_stmt, clone_strings, collect_export_locals, collect_stmt_decl_names,
    collect_stmt_exported_names, collect_stmt_refs, contains_name, export_locals_from,
    first_decl_index, first_decl_index_from, is_exported, lemma_deep_push_name,
    lemma_deep_push_stmt, lemma_first_decl_index_in_range, stmt_decl_names, stmt_exported_names,
    stmt_refs,
    ExportSpecifierV, Module, ModuleV, Stmt, StmtV,
};

verus! {

// ---------------------------------------------------------------------------
// The working requested set.
// ---------------------------------------------------------------------------
/// The local names of the export specifiers from index `k` on whose
/// exported name is `default`.
pub open spec fn specs_default_locals_from(specs: Seq<ExportSpecifierV>, k: int) -> Seq<Seq<char>>
    decreases specs.len() - k,
{
    if k < 0 || k >= specs.len() {
        Seq::<Seq<char>>::empty()
    } else {
        (if specs[k].exported == "default"@ {
            seq![specs[k].local]
        } else {
            Seq::<Seq<char>>::empty()
        }) + specs_default_locals_from(specs, k + 1)
    }
}

/// The names a statement exports under the name `default`.
pub open spec fn stmt_default_locals(s: StmtV) -> Seq<Seq<char>> {
    match s {
        StmtV::ExportNamed { specifiers, .. } => specs_default_locals_from(specifiers, 0),
        _ => Seq::<Seq<char>>::empty(),
    }
}

/// The names exported as `default` by the statements from index `k` on.
pub open spec fn default_locals_from(body: Seq<StmtV>, k: int) -> Seq<Seq<char>>
    decreases body.len() - k,
{
    if k < 0 || k >= body.len() {
        Seq::<Seq<char>>::empty()
    } else {
        stmt_default_locals(body[k]) + default_locals_from(body, k + 1)
    }
}

/// The working requested set: the requested names, extended — when
/// `default` is requested — by every local name exported as `default`.
pub open spec fn working_set(body: Seq<StmtV>, req: Seq<Seq<char>>) -> Seq<Seq<char>> {
    if req.contains("default"@) {
        req + default_locals_from(body, 0)
    } else {
        req
    }
}

// ---------------------------------------------------------------------------
// Roots, edges, and the reachability closure.
// ---------------------------------------------------------------------------
/// Statement `i` is the root statement of the requested exported
/// binding `n`: `n` is in the working set, carries the export flag, and
/// `i` is its declaring statement.
pub open spec fn is_root_for(body: Seq<StmtV>, w: Seq<Seq<char>>, n: Seq<char>, i: int) -> bool {
    w.contains(n) && is_exported(body, n) && first_decl_index(body, n) == Some(i)
}

/// Statement `i` is a root statement of some requested exported binding.
pub open spec fn is_root(body: Seq<StmtV>, w: Seq<Seq<char>>, i: int) -> bool {
    exists|n: Seq<char>| is_root_for(body, w, n, i)
}

/// Statement `i` references a binding whose declaring statement is `j`.
pub open spec fn edge(body: Seq<StmtV>, i: int, j: int) -> bool {
    0 <= i < body.len() && exists|n: Seq<char>|
        stmt_refs(#[trigger] body[i]).contains(n) && first_decl_index(body, n) == Some(j)
}

/// `p` is a dependency path: it starts at a root statement and each
/// step follows a reference edge.
pub open spec fn is_path(body: Seq<StmtV>, w: Seq<Seq<char>>, p: Seq<int>) -> bool {
    &&& p.len() > 0
    &&& is_root(body, w, p[0])
    &&& forall|k: int| 0 <= k < p.len() - 1 ==> edge(body, #[trigger] p[k], p[k + 1])
}

/// Statement `j` is in the reachability closure: some dependency path
/// ends at it.
pub open spec fn in_closure(body: Seq<StmtV>, w: Seq<Seq<char>>, j: int) -> bool {
    exists|p: Seq<int>| is_path(body, w, p) && p.last() == j
}

/// Statement `j` is a plain `export { … }` statement naming the
/// requested exported binding `n`.
pub open spec fn step5_for(body: Seq<StmtV>, n: Seq<char>, j: int) -> bool {
    &&& is_exported(body, n)
    &&& first_decl_index(body, n) is Some
    &&& 0 <= j < body.len()
    &&& (body[j] matches StmtV::ExportNamed { decl: None, specifiers, source: None }
        && export_locals_from(specifiers, 0).contains(n))
}

/// Statement `j` is a plain `export { … }` statement naming a requested
/// exported binding: it is retained so that the export itself survives,
/// not just the value it names.
pub open spec fn in_step5(body: Seq<StmtV>, w: Seq<Seq<char>>, j: int) -> bool {
    exists|n: Seq<char>| #[trigger] w.contains(n) && step5_for(body, n, j)
}

/// Whether statement `j` of the module is retained for the requested
/// set `req`.
pub open spec fn keep_stmt(body: Seq<StmtV>, req: Seq<Seq<char>>, j: int) -> bool {
    ||| in_closure(body, working_set(body, req), j)
    ||| in_step5(body, working_set(body, req), j)
    ||| (0 <= j < body.len() && body[j] is ExportAll)
}

/// The retained statements from index `k` on, in original order.
pub open spec fn shake_filter_from(body: Seq<StmtV>, req: Seq<Seq<char>>, k: int) -> Seq<StmtV>
    decreases body.len() - k,
{
    if k < 0 || k >= body.len() {
        Seq::<StmtV>::empty()
    } else {
        (if keep_stmt(body, req, k) {
            seq![body[k]]
        } else {
            Seq::<StmtV>::empty()
        }) + shake_filter_from(body, req, k + 1)
    }
}

/// What the shaker returns: the retained statements, in original order,
/// nothing reordered or duplicated.
pub open spec fn shake_spec(m: ModuleV, req: Seq<Seq<char>>) -> ModuleV {
    ModuleV { body: shake_filter_from(m.body, req, 0) }
}

// ---------------------------------------------------------------------------
// Closure lemmas.
// ---------------------------------------------------------------------------
/// A root statement is in the closure, by the one-element path.
pub proof fn lemma_root_in_closure(body: Seq<StmtV>, w: Seq<Seq<char>>, i: int)
    requires
        is_root(body, w, i),
    ensures
        in_closure(body, w, i),
{
    let p = seq![i];
    assert(is_path(body, w, p));
    assert(p.last() == i);
}

/// The closure is closed under reference edges.
pub proof fn lemma_closure_step(body: Seq<StmtV>, w: Seq<Seq<char>>, i: int, j: int)
    requires
        in_closure(body, w, i),
        edge(body, i, j),
    ensures
        in_closure(body, w, j),
{
    let p = choose|p: Seq<int>| is_path(body, w, p) && p.last() == i;
    let q = p.push(j);
    assert forall|k: int| 0 <= k < q.len() - 1 implies edge(body, #[trigger] q[k], q[k + 1]) by {
        if k < p.len() - 1 {
            assert(edge(body, p[k], p[k + 1]));
        } else {
            assert(q[k] == p.last());
        }
    }
    assert(is_path(body, w, q));
    assert(q.last() == j);
}

/// Any set of statements that contains every root and is closed under
/// edges contains the whole closure: the marked set of the worklist
/// traversal, once stable, covers it.
pub proof fn lemma_path_in_closed_set(
    body: Seq<StmtV>,
    w: Seq<Seq<char>>,
    visited: Seq<bool>,
    p: Seq<int>,
)
    requires
        is_path(body, w, p),
        forall|i: int| #[trigger] is_root(body, w, i) ==> 0 <= i < visited.len() && visited[i],
        forall|i: int, j: int|
            0 <= i < visited.len() && visited[i] && #[trigger] edge(body, i, j) ==> 0 <= j
                < visited.len() && visited[j],
    ensures
        0 <= p.last() < visited.len() && visited[p.last()],
    decreases p.len(),
{
    if p.len() == 1 {
        assert(is_root(body, w, p[0]));
        assert(p.last() == p[0]);
    } else {
        let q = p.drop_last();
        assert(q.len() == p.len() - 1);
        assert(q[0] == p[0]);
        assert forall|k: int| 0 <= k < q.len() - 1 implies edge(body, #[trigger] q[k], q[k + 1]) by {
            assert(q[k] == p[k]);
            assert(q[k + 1] == p[k + 1]);
            assert(edge(body, p[k], p[k + 1]));
        }
        assert(is_path(body, w, q));
        lemma_path_in_closed_set(body, w, visited, q);
        assert(edge(body, p[p.len() - 2], p[p.len() - 1]));
        assert(q.last() == p[p.len() - 2]);
        assert(visited[q.last()]);
    }
}

// ---------------------------------------------------------------------------
// Executable symbol lookups.
// ---------------------------------------------------------------------------
/// Whether some statement marks `name` as exported.
#[verifier::loop_isolation(false)]
fn is_exported_exec(body: &Vec<Stmt>, name: &String) -> (r: bool)
    ensures
        r == is_exported(body.deep_view(), name@),
{
    let ghost bv = body.deep_view();
    let n = body.len();
    let mut i: usize = 0;
    while i < n
        invariant
            i <= n,
            forall|j: int| 0 <= j < i ==> !stmt_exported_names(#[trigger] bv[j]).contains(name@),
        decreases n - i,
    {
        let ex = collect_stmt_exported_names(&body[i]);
        if contains_name(&ex, name) {
            proof {
                assert(bv[i as int] == body@[i as int]@);
                assert(stmt_exported_names(bv[i as int]).contains(name@));
            }
            return true;
        }
        proof {
            assert(bv[i as int] == body@[i as int]@);
        }
        i = i + 1;
    }
    false
}

/// The declaring statement of `name`: the index of the first statement
/// that binds it, if any.
#[verifier::loop_isolation(false)]
fn find_decl_index(body: &Vec<Stmt>, name: &String) -> (r: Option<usize>)
    ensures
        r matches Some(j) ==> j < body@.len() && first_decl_index(body.deep_view(), name@) == Some(
            j as int,
        ),
        r is None ==> first_decl_index(body.deep_view(), name@) is None,
{
    let ghost bv = body.deep_view();
    let n = body.len();
    let mut i: usize = 0;
    while i < n
        invariant
            i <= n,
            first_decl_index(bv, name@) == first_decl_index_from(bv, name@, i as int),
        decreases n - i,
    {
        let mut names: Vec<String> = Vec::new();
        collect_stmt_decl_names(&body[i], &mut names);
        if contains_name(&names, name) {
            proof {
                assert(bv[i as int] == body@[i as int]@);
                assert(Seq::<Seq<char>>::empty() + stmt_decl_names(bv[i as int])
                    =~= stmt_decl_names(bv[i as int]));
                assert(stmt_decl_names(bv[i as int]).contains(name@));
            }
            return Some(i);
        }
        proof {
            assert(bv[i as int] == body@[i as int]@);
            assert(Seq::<Seq<char>>::empty() + stmt_decl_names(bv[i as int]) =~= stmt_decl_names(
                bv[i as int],
            ));
        }
        i = i + 1;
    }
    None
}

/// The working requested set: the requested names and — when `default`
/// is requested — every local name exported as `default`.
#[verifier::loop_isolation(false)]
fn build_working_set(body: &Vec<Stmt>, only_exports: &Vec<String>) -> (w: Vec<String>)
    ensures
        w.deep_view() == working_set(body.deep_view(), only_exports.deep_view()),
{
    let ghost bv = body.deep_view();
    let dflt: String = "default".to_owned();
    let mut w = clone_strings(only_exports);
    if !contains_name(only_exports, &dflt) {
        return w;
    }
    let ghost base = w.deep_view();
    let ghost mut emitted = Seq::<Seq<char>>::empty();
    let n = body.len();
    let mut i: usize = 0;
    proof {
        assert(w.deep_view() =~= base + emitted);
    }
    while i < n
        invariant
            i <= n,
            w.deep_view() == base + emitted,
            default_locals_from(bv, 0) == emitted + default_locals_from(bv, i as int),
        decreases n - i,
    {
        let ghost entry_emitted = emitted;
        match &body[i] {
            Stmt::ExportNamed { specifiers, .. } => {
                let ghost sv = specifiers.deep_view();
                let ghost mut inner = Seq::<Seq<char>>::empty();
                let np = specifiers.len();
                let mut j: usize = 0;
                proof {
                    assert(bv[i as int] == body@[i as int]@);
                    assert(stmt_default_locals(bv[i as int]) == specs_default_locals_from(sv, 0));
                    assert(emitted + inner =~= emitted);
                }
                while j < np
                    invariant
                        j <= np,
                        emitted == entry_emitted + inner,
                        w.deep_view() == base + emitted,
                        specs_default_locals_from(sv, 0) == inner + specs_default_locals_from(
                            sv,
                            j as int,
                        ),
                    decreases np - j,
                {
                    proof {
                        assert(sv[j as int] == specifiers@[j as int]@);
                    }
                    if specifiers[j].exported == dflt {
                        let cl = specifiers[j].local.clone();
                        let ghost clg = cl;
                        let ghost pre_w = w;
                        let ghost prev_inner = inner;
                        w.push(cl);
                        proof {
                            lemma_deep_push_name(pre_w, w, clg);
                            inner = prev_inner.push(sv[j as int].local);
                            emitted = entry_emitted + inner;
                            assert(entry_emitted + prev_inner.push(sv[j as int].local) =~= (
                            entry_emitted + prev_inner).push(sv[j as int].local));
                            assert(w.deep_view() =~= base + emitted);
                            assert(specs_default_locals_from(sv, j as int) == seq![
                                sv[j as int].local,
                            ] + specs_default_locals_from(sv, j + 1));
                            assert(prev_inner + (seq![sv[j as int].local]
                                + specs_default_locals_from(sv, j + 1)) =~= inner
                                + specs_default_locals_from(sv, j + 1));
                        }
                    } else {
                        proof {
                            assert(specs_default_locals_from(sv, j as int)
                                == specs_default_locals_from(sv, j + 1));
                        }
                    }
                    j = j + 1;
                }
                proof {
                    assert(inner + specs_default_locals_from(sv, np as int) =~= inner);
                    assert(stmt_default_locals(bv[i as int]) == inner);
                    assert(default_locals_from(bv, i as int) == inner + default_locals_from(
                        bv,
                        i + 1,
                    ));
                    assert(entry_emitted + (inner + default_locals_from(bv, i + 1)) =~= emitted
                        + default_locals_from(bv, i + 1));
                }
            },
            _ => {
                proof {
                    assert(bv[i as int] == body@[i as int]@);
                    assert(stmt_default_locals(bv[i as int]) == Seq::<Seq<char>>::empty());
                    assert(emitted + (Seq::<Seq<char>>::empty() + default_locals_from(bv, i + 1))
                        =~= emitted + default_locals_from(bv, i + 1));
                }
            },
        }
        i = i + 1;
    }
    proof {
        assert(emitted + default_locals_from(bv, n as int) =~= emitted);
        assert(w.deep_view() =~= only_exports.deep_view() + default_locals_from(bv, 0));
    }
    w
}

// ---------------------------------------------------------------------------
// Termination measure for the worklist traversal.
// ---------------------------------------------------------------------------
/// The number of unmarked statements from index `k` on.
pub open spec fn count_false_from(s: Seq<bool>, k: int) -> nat
    decreases s.len() - k,
{
    if k < 0 || k >= s.len() {
        0
    } else {
        (if s[k] {
            0nat
        } else {
            1nat
        }) + count_false_from(s, k + 1)
    }
}

/// Two mark sequences that agree from `k` on count the same.
proof fn lemma_count_false_same(a: Seq<bool>, b: Seq<bool>, k: int)
    requires
        a.len() == b.len(),
        forall|q: int| k <= q < a.len() ==> a[q] == b[q],
    ensures
        count_false_from(a, k) == count_false_from(b, k),
    decreases a.len() - k,
{
    if 0 <= k < a.len() {
        lemma_count_false_same(a, b, k + 1);
    }
}

/// Marking one unmarked statement lowers the count by one.
proof fn lemma_count_false_update(s: Seq<bool>, j: int, k: int)
    requires
        0 <= k <= j < s.len(),
        !s[j],
    ensures
        count_false_from(s, k) == count_false_from(s.update(j, true), k) + 1,
    decreases j - k,
{
    let t = s.update(j, true);
    if k == j {
        lemma_count_false_same(s, t, k + 1);
    } else {
        lemma_count_false_update(s, j, k + 1);
    }
}

// ---------------------------------------------------------------------------
// The executable shaker.
// ---------------------------------------------------------------------------
/// The root statement of `name`, if `name` is exported and declared, is
/// marked.
pub open spec fn root_marked(body: Seq<StmtV>, name: Seq<char>, visited: Seq<bool>) -> bool {
    match first_decl_index(body, name) {
        Some(j) => is_exported(body, name) ==> 0 <= j < visited.len() && visited[j],
        None => true,
    }
}

/// The declaring statement of `name`, if any, is marked.
pub open spec fn ref_target_marked(body: Seq<StmtV>, name: Seq<char>, visited: Seq<bool>) -> bool {
    match first_decl_index(body, name) {
        Some(j) => 0 <= j < visited.len() && visited[j],
        None => true,
    }
}

/// Whether this statement is a plain `export { … }` statement with a
/// specifier whose local name is `name`.
fn stmt_step5_matches(s: &Stmt, name: &String) -> (r: bool)
    ensures
        r == (s@ matches StmtV::ExportNamed { decl: None, specifiers, source: None }
            && export_locals_from(specifiers, 0).contains(name@)),
{
    match s {
        Stmt::ExportNamed { decl: None, specifiers, source: None } => {
            let mut locals: Vec<String> = Vec::new();
            collect_export_locals(specifiers, &mut locals);
            proof {
                assert(Seq::<Seq<char>>::empty() + export_locals_from(specifiers.deep_view(), 0)
                    =~= export_locals_from(specifiers.deep_view(), 0));
            }
            contains_name(&locals, name)
        },
        _ => false,
    }
}

/// Marks and enqueues the declaring statement of every requested
/// exported binding.
#[verifier::loop_isolation(false)]
fn mark_roots(body: &Vec<Stmt>, w: &Vec<String>, visited: &mut Vec<bool>, stack: &mut Vec<usize>)
    requires
        old(visited)@.len() == body@.len(),
        forall|q: int| 0 <= q < old(visited)@.len() ==> !old(visited)@[q],
        old(stack)@.len() == 0,
    ensures
        final(visited)@.len() == body@.len(),
        forall|k: int|
            0 <= k < final(stack)@.len() ==> (#[trigger] final(stack)@[k] < body@.len()
                && final(visited)@[final(stack)@[k] as int]),
        forall|j: int|
            0 <= j < body@.len() && #[trigger] final(visited)@[j] ==> in_closure(
                body.deep_view(),
                w.deep_view(),
                j,
            ),
        forall|i: int|
            #[trigger] is_root(body.deep_view(), w.deep_view(), i) ==> 0 <= i < body@.len()
                && final(visited)@[i],
        forall|j: int|
            0 <= j < body@.len() && #[trigger] final(visited)@[j] ==> final(stack)@.contains(
                j as usize,
            ),
{
    let ghost bv = body.deep_view();
    let ghost wv = w.deep_view();
    let n = body.len();
    let nw = w.len();
    let mut widx: usize = 0;
    while widx < nw
        invariant
            widx <= nw,
            visited@.len() == n,
            forall|k: int|
                0 <= k < stack@.len() ==> (#[trigger] stack@[k] < n && visited@[stack@[k] as int]),
            forall|j: int| 0 <= j < n && #[trigger] visited@[j] ==> in_closure(bv, wv, j),
            forall|q: int| 0 <= q < widx ==> #[trigger] root_marked(bv, wv[q], visited@),
            forall|j: int| 0 <= j < n && #[trigger] visited@[j] ==> stack@.contains(j as usize),
        decreases nw - widx,
    {
        let name = &w[widx];
        proof {
            assert(wv[widx as int] == w@[widx as int]@);
        }
        if is_exported_exec(body, name) {
            match find_decl_index(body, name) {
                Some(j) => {
                    if !visited[j] {
                        let ghost pre_visited = visited@;
                        let ghost pre_stack = stack@;
                        visited[j] = true;
                        stack.push(j);
                        proof {
                            assert(wv.contains(wv[widx as int]));
                            assert(is_root_for(bv, wv, wv[widx as int], j as int));
                            assert(is_root(bv, wv, j as int));
                            lemma_root_in_closure(bv, wv, j as int);
                            assert forall|j2: int|
                                0 <= j2 < n && #[trigger] visited@[j2] implies stack@.contains(
                                j2 as usize,
                            ) by {
                                if j2 == j {
                                    assert(stack@[pre_stack.len() as int] == j);
                                } else {
                                    assert(pre_visited[j2]);
                                    let k = choose|k: int|
                                        0 <= k < pre_stack.len() && pre_stack[k] == j2 as usize;
                                    assert(stack@[k] == j2 as usize);
                                }
                            }
                            assert forall|q: int|
                                0 <= q < widx + 1 implies #[trigger] root_marked(
                                bv,
                                wv[q],
                                visited@,
                            ) by {
                                if q < widx {
                                    assert(root_marked(bv, wv[q], pre_visited));
                                }
                            }
                        }
                    } else {
                        proof {
                            assert(root_marked(bv, wv[widx as int], visited@));
                        }
                    }
                },
                None => {
                    proof {
                        assert(root_marked(bv, wv[widx as int], visited@));
                    }
                },
            }
        } else {
            proof {
                assert(root_marked(bv, wv[widx as int], visited@));
            }
        }
        widx = widx + 1;
    }
    proof {
        assert forall|i: int| is_root(bv, wv, i) implies 0 <= i < n && visited@[i] by {
            let nm = choose|nm: Seq<char>| is_root_for(bv, wv, nm, i);
            let q = choose|q: int| 0 <= q < wv.len() && wv[q] == nm;
            assert(root_marked(bv, wv[q], visited@));
        }
    }
}

/// Processes every reference edge out of statement `i`: marks and
/// enqueues each referenced binding's declaring statement not yet
/// marked.
#[verifier::loop_isolation(false)]
#[verifier::rlimit(50)]
fn process_stmt_edges(
    body: &Vec<Stmt>,
    Ghost(wv): Ghost<Seq<Seq<char>>>,
    i: usize,
    visited: &mut Vec<bool>,
    stack: &mut Vec<usize>,
)
    requires
        i < body@.len(),
        old(visited)@.len() == body@.len(),
        old(visited)@[i as int],
        in_closure(body.deep_view(), wv, i as int),
        forall|k: int|
            0 <= k < old(stack)@.len() ==> (#[trigger] old(stack)@[k] < body@.len() && old(visited)@[old(stack)@[k] as int]),
        forall|j: int|
            0 <= j < body@.len() && #[trigger] old(visited)@[j] ==> in_closure(
                body.deep_view(),
                wv,
                j,
            ),
    ensures
        final(visited)@.len() == body@.len(),
        forall|j: int| 0 <= j < body@.len() && #[trigger] old(visited)@[j] ==> final(visited)@[j],
        forall|j: int|
            0 <= j < body@.len() && #[trigger] final(visited)@[j] ==> in_closure(
                body.deep_view(),
                wv,
                j,
            ),
        final(stack)@.len() >= old(stack)@.len(),
        forall|k: int| 0 <= k < old(stack)@.len() ==> final(stack)@[k] == old(stack)@[k],
        forall|k: int|
            0 <= k < final(stack)@.len() ==> (#[trigger] final(stack)@[k] < body@.len() && final(visited)@[final(stack)@[k] as int]),
        forall|j: int|
            0 <= j < body@.len() && #[trigger] final(visited)@[j] && !old(visited)@[j] ==> final(stack)@.contains(j as usize),
        forall|j2: int|
            #[trigger] edge(body.deep_view(), i as int, j2) ==> 0 <= j2 < body@.len() && final(visited)@[j2],
        count_false_from(final(visited)@, 0) <= count_false_from(old(visited)@, 0),
        final(stack)@.len() > old(stack)@.len() ==> count_false_from(final(visited)@, 0)
            < count_false_from(old(visited)@, 0),
{
    let ghost bv = body.deep_view();
    let n = body.len();
    let refs = collect_stmt_refs(&body[i]);
    let ghost rv = refs.deep_view();
    proof {
        assert(bv[i as int] == body@[i as int]@);
        assert(rv == stmt_refs(bv[i as int]));
    }
    let nr = refs.len();
    let mut ri: usize = 0;
    while ri < nr
        invariant
            ri <= nr,
            visited@.len() == n,
            visited@[i as int],
            forall|j: int| 0 <= j < n && #[trigger] old(visited)@[j] ==> visited@[j],
            forall|j: int| 0 <= j < n && #[trigger] visited@[j] ==> in_closure(bv, wv, j),
            stack@.len() >= old(stack)@.len(),
            forall|k: int| 0 <= k < old(stack)@.len() ==> stack@[k] == old(stack)@[k],
            forall|k: int|
                0 <= k < stack@.len() ==> (#[trigger] stack@[k] < n && visited@[stack@[k] as int]),
            forall|j: int|
                0 <= j < n && #[trigger] visited@[j] && !old(visited)@[j] ==> stack@.contains(
                    j as usize,
                ),
            forall|q: int| 0 <= q < ri ==> #[trigger] ref_target_marked(bv, rv[q], visited@),
            count_false_from(visited@, 0) <= count_false_from(old(visited)@, 0),
            stack@.len() > old(stack)@.len() ==> count_false_from(visited@, 0) < count_false_from(
                old(visited)@,
                0,
            ),
        decreases nr - ri,
    {
        proof {
            assert(rv[ri as int] == refs@[ri as int]@);
        }
        match find_decl_index(body, &refs[ri]) {
            Some(j) => {
                if !visited[j] {
                    let ghost pre_visited = visited@;
                    let ghost pre_stack = stack@;
                    visited[j] = true;
                    stack.push(j);
                    proof {
                        assert(rv.contains(rv[ri as int]));
                        assert(edge(bv, i as int, j as int));
                        lemma_closure_step(bv, wv, i as int, j as int);
                        lemma_count_false_update(pre_visited, j as int, 0);
                        assert forall|j2: int|
                            0 <= j2 < n && #[trigger] visited@[j2] && !old(visited)@[j2] implies
                            stack@.contains(j2 as usize) by {
                            if j2 == j {
                                assert(stack@[pre_stack.len() as int] == j);
                            } else {
                                assert(pre_visited[j2]);
                                let k = choose|k: int|
                                    0 <= k < pre_stack.len() && pre_stack[k] == j2 as usize;
                                assert(stack@[k] == j2 as usize);
                            }
                        }
                        assert forall|q: int|
                            0 <= q < ri + 1 implies #[trigger] ref_target_marked(
                            bv,
                            rv[q],
                            visited@,
                        ) by {
                            if q < ri {
                                assert(ref_target_marked(bv, rv[q], pre_visited));
                            }
                        }
                    }
                } else {
                    proof {
                        assert(ref_target_marked(bv, rv[ri as int], visited@));
                    }
                }
            },
            None => {
                proof {
                    assert(ref_target_marked(bv, rv[ri as int], visited@));
                }
            },
        }
        ri = ri + 1;
    }
    proof {
        assert forall|j2: int| #[trigger] edge(bv, i as int, j2) implies 0 <= j2 < n
            && visited@[j2] by {
            let nm = choose|nm: Seq<char>|
                stmt_refs(bv[i as int]).contains(nm) && first_decl_index(bv, nm) == Some(j2);
            let q = choose|q: int| 0 <= q < rv.len() && rv[q] == nm;
            assert(ref_target_marked(bv, rv[q], visited@));
        }
    }
}

/// Empties the worklist: the depth-first traversal over reference
/// edges, with the mark set as the visited guard, so cycles terminate
/// and nothing is processed twice.
#[verifier::loop_isolation(false)]
#[verifier::rlimit(100)]
fn close_over_edges(
    body: &Vec<Stmt>,
    Ghost(wv): Ghost<Seq<Seq<char>>>,
    visited: &mut Vec<bool>,
    stack: &mut Vec<usize>,
)
    requires
        old(visited)@.len() == body@.len(),
        forall|k: int|
            0 <= k < old(stack)@.len() ==> (#[trigger] old(stack)@[k] < body@.len() && old(visited)@[old(stack)@[k] as int]),
        forall|j: int|
            0 <= j < body@.len() && #[trigger] old(visited)@[j] ==> in_closure(
                body.deep_view(),
                wv,
                j,
            ),
        forall|i: int|
            #[trigger] is_root(body.deep_view(), wv, i) ==> 0 <= i < body@.len() && old(visited)@[i],
        forall|j: int|
            0 <= j < body@.len() && #[trigger] old(visited)@[j] ==> old(stack)@.contains(
                j as usize,
            ),
    ensures
        final(visited)@.len() == body@.len(),
        forall|j: int|
            0 <= j < body@.len() ==> (#[trigger] final(visited)@[j] <==> in_closure(
                body.deep_view(),
                wv,
                j,
            )),
{
    let ghost bv = body.deep_view();
    let n = body.len();
    while stack.len() > 0
        invariant
            visited@.len() == n,
            n == body@.len(),
            forall|k: int|
                0 <= k < stack@.len() ==> (#[trigger] stack@[k] < n && visited@[stack@[k] as int]),
            forall|j: int| 0 <= j < n && #[trigger] visited@[j] ==> in_closure(bv, wv, j),
            forall|i: int| #[trigger] is_root(bv, wv, i) ==> 0 <= i < n && visited@[i],
            forall|i2: int, j2: int|
                0 <= i2 < n && visited@[i2] && !stack@.contains(i2 as usize) && #[trigger] edge(
                    bv,
                    i2,
                    j2,
                ) ==> 0 <= j2 < n && visited@[j2],
        decreases count_false_from(visited@, 0), stack@.len(),
    {
        let ghost entry_visited = visited@;
        let ghost entry_stack = stack@;
        let iopt = stack.pop();
        let i: usize = match iopt {
            Some(x) => x,
            None => {
                proof {
                    assert(false);
                }
                0
            },
        };
        let ghost popped_stack = stack@;
        process_stmt_edges(body, Ghost(wv), i, visited, stack);
        proof {
            assert forall|i2: int, j2: int|
                0 <= i2 < n && visited@[i2] && !stack@.contains(i2 as usize) && #[trigger] edge(
                    bv,
                    i2,
                    j2,
                ) implies 0 <= j2 < n && visited@[j2] by {
                if i2 != i {
                    if entry_visited[i2] {
                        if entry_stack.contains(i2 as usize) {
                            let k = choose|k: int|
                                0 <= k < entry_stack.len() && entry_stack[k] == i2 as usize;
                            if k < entry_stack.len() - 1 {
                                assert(popped_stack[k] == i2 as usize);
                                assert(stack@[k] == i2 as usize);
                                assert(stack@.contains(i2 as usize));
                            } else {
                                assert(entry_stack[k] == i);
                            }
                        } else {
                            assert(edge(bv, i2, j2) ==> 0 <= j2 < n && entry_visited[j2]);
                        }
                    } else {
                        assert(stack@.contains(i2 as usize));
                    }
                }
            }
        }
    }
    proof {
        assert forall|j: int| 0 <= j < n implies (visited@[j] <==> in_closure(bv, wv, j)) by {
            if in_closure(bv, wv, j) {
                let p = choose|p: Seq<int>| is_path(bv, wv, p) && p.last() == j;
                lemma_path_in_closed_set(bv, wv, visited@, p);
            }
        }
    }
}

/// Marks the plain `export { … }` statements that name a requested
/// exported binding.
#[verifier::loop_isolation(false)]
#[verifier::rlimit(30)]
fn mark_step5(body: &Vec<Stmt>, w: &Vec<String>, kept5: &mut Vec<bool>)
    requires
        old(kept5)@.len() == body@.len(),
        forall|q: int| 0 <= q < old(kept5)@.len() ==> !old(kept5)@[q],
    ensures
        final(kept5)@.len() == body@.len(),
        forall|j: int|
            0 <= j < body@.len() ==> (#[trigger] final(kept5)@[j] <==> in_step5(
                body.deep_view(),
                w.deep_view(),
                j,
            )),
{
    let ghost bv = body.deep_view();
    let ghost wv = w.deep_view();
    let n = body.len();
    let nw = w.len();
    let mut widx: usize = 0;
    while widx < nw
        invariant
            widx <= nw,
            kept5@.len() == n,
            forall|j: int|
                0 <= j < n ==> (#[trigger] kept5@[j] <==> exists|q: int|
                    0 <= q < widx && #[trigger] step5_for(bv, wv[q], j)),
        decreases nw - widx,
    {
        let name = &w[widx];
        proof {
            assert(wv[widx as int] == w@[widx as int]@);
        }
        let exported = is_exported_exec(body, name);
        let mut has_decl = false;
        if exported {
            match find_decl_index(body, name) {
                Some(_) => {
                    has_decl = true;
                },
                None => {},
            }
        }
        if exported && has_decl {
            let mut j: usize = 0;
            while j < n
                invariant
                    j <= n,
                    kept5@.len() == n,
                    is_exported(bv, wv[widx as int]),
                    first_decl_index(bv, wv[widx as int]) is Some,
                    forall|j2: int|
                        0 <= j2 < n ==> (#[trigger] kept5@[j2] <==> (exists|q: int|
                            0 <= q < widx && #[trigger] step5_for(bv, wv[q], j2)) || (j2 < j
                            && step5_for(bv, wv[widx as int], j2))),
                decreases n - j,
            {
                proof {
                    assert(bv[j as int] == body@[j as int]@);
                }
                if stmt_step5_matches(&body[j], name) {
                    let ghost pre_kept = kept5@;
                    kept5[j] = true;
                    proof {
                        assert(step5_for(bv, wv[widx as int], j as int));
                        assert forall|j2: int|
                            0 <= j2 < n implies (#[trigger] kept5@[j2] <==> (exists|q: int|
                            0 <= q < widx && #[trigger] step5_for(bv, wv[q], j2)) || (j2 < j + 1
                            && step5_for(bv, wv[widx as int], j2))) by {
                            if j2 != j {
                                assert(kept5@[j2] == pre_kept[j2]);
                            }
                        }
                    }
                } else {
                    proof {
                        assert(!step5_for(bv, wv[widx as int], j as int));
                    }
                }
                j = j + 1;
            }
        } else {
            proof {
                assert forall|j2: int| !step5_for(bv, wv[widx as int], j2) by {}
            }
        }
        proof {
            assert forall|j2: int|
                0 <= j2 < n implies (#[trigger] kept5@[j2] <==> exists|q: int|
                0 <= q < widx + 1 && #[trigger] step5_for(bv, wv[q], j2)) by {}
        }
        widx = widx + 1;
    }
    proof {
        assert forall|j: int| 0 <= j < n implies (kept5@[j] <==> in_step5(bv, wv, j)) by {
            if kept5@[j] {
                let q = choose|q: int| 0 <= q < nw && step5_for(bv, wv[q], j);
                assert(wv.contains(wv[q]));
            }
            if in_step5(bv, wv, j) {
                let nm = choose|nm: Seq<char>| wv.contains(nm) && step5_for(bv, nm, j);
                let q = choose|q: int| 0 <= q < wv.len() && wv[q] == nm;
                assert(step5_for(bv, wv[q], j));
            }
        }
    }
}

/// A vector of `n` unset marks.
fn make_marks(n: usize) -> (r: Vec<bool>)
    ensures
        r@.len() == n,
        forall|q: int| 0 <= q < n ==> !r@[q],
{
    let mut marks: Vec<bool> = Vec::new();
    let mut t: usize = 0;
    while t < n
        invariant
            t <= n,
            marks@.len() == t,
            forall|q: int| 0 <= q < t ==> !marks@[q],
        decreases n - t,
    {
        marks.push(false);
        t = t + 1;
    }
    marks
}

/// Prunes the module down to the statements required by the requested
/// exports: the reachability closure of the requested exported
/// bindings' declaring statements, the `export { … }` statements naming
/// them, and every `export * from …` statement.  Statements keep their
/// original order; none is duplicated.
#[verifier::loop_isolation(false)]
#[verifier::rlimit(30)]
pub fn shake(m: &Module, only_exports: &Vec<String>) -> (r: Module)
    ensures
        r@ == shake_spec(m@, only_exports.deep_view()),
{
    let ghost bv = m.body.deep_view();
    let ghost reqv = only_exports.deep_view();
    let w = build_working_set(&m.body, only_exports);
    let ghost wv = w.deep_view();
    let n = m.body.len();

    let mut visited: Vec<bool> = make_marks(n);
    let mut stack: Vec<usize> = Vec::new();
    mark_roots(&m.body, &w, &mut visited, &mut stack);
    close_over_edges(&m.body, Ghost(wv), &mut visited, &mut stack);

    let mut kept5: Vec<bool> = make_marks(n);
    mark_step5(&m.body, &w, &mut kept5);

    // Sweep: keep a statement exactly when it was marked, or it is an
    // `export * from …` statement.
    let mut out: Vec<Stmt> = Vec::new();
    let ghost mut emitted = Seq::<StmtV>::empty();
    let mut k: usize = 0;
    proof {
        assert(out.deep_view() =~= emitted);
    }
    while k < n
        invariant
            k <= n,
            out.deep_view() == emitted,
            shake_filter_from(bv, reqv, 0) == emitted + shake_filter_from(bv, reqv, k as int),
        decreases n - k,
    {
        let is_export_all = match &m.body[k] {
            Stmt::ExportAll { .. } => true,
            _ => false,
        };
        let keep = visited[k] || kept5[k] || is_export_all;
        proof {
            assert(bv[k as int] == m.body@[k as int]@);
            assert(keep == keep_stmt(bv, reqv, k as int));
        }
        if keep {
            let cp = clone_stmt(&m.body[k]);
            let ghost cg = cp;
            let ghost prev = emitted;
            let ghost pre_vec = out;
            out.push(cp);
            proof {
                lemma_deep_push_stmt(pre_vec, out, cg);
                emitted = prev.push(bv[k as int]);
                assert(out.deep_view() =~= emitted);
                assert(shake_filter_from(bv, reqv, k as int) == seq![bv[k as int]]
                    + shake_filter_from(bv, reqv, k + 1));
                assert(prev + (seq![bv[k as int]] + shake_filter_from(bv, reqv, k + 1)) =~= emitted
                    + shake_filter_from(bv, reqv, k + 1));
            }
        } else {
            proof {
                assert(shake_filter_from(bv, reqv, k as int) == Seq::<StmtV>::empty()
                    + shake_filter_from(bv, reqv, k + 1));
                assert(emitted + (Seq::<StmtV>::empty() + shake_filter_from(bv, reqv, k + 1))
                    =~= emitted + shake_filter_from(bv, reqv, k + 1));
            }
        }
        k = k + 1;
    }
    proof {
        assert(emitted + shake_filter_from(bv, reqv, n as int) =~= emitted);
    }
    Module { body: out }
}

// ---------------------------------------------------------------------------
// Laws of the keep-set.
// ---------------------------------------------------------------------------
proof fn lemma_contains_add_left(a: Seq<Seq<char>>, b: Seq<Seq<char>>, x: Seq<char>)
    requires
        a.contains(x),
    ensures
        (a + b).contains(x),
{
    let i = choose|i: int| 0 <= i < a.len() && a[i] == x;
    assert((a + b)[i] == x);
}

proof fn lemma_contains_add_right(a: Seq<Seq<char>>, b: Seq<Seq<char>>, x: Seq<char>)
    requires
        b.contains(x),
    ensures
        (a + b).contains(x),
{
    let i = choose|i: int| 0 <= i < b.len() && b[i] == x;
    assert((a + b)[a.len() + i] == x);
}

/// A larger requested set has a larger working set.
proof fn lemma_working_set_monotonic(body: Seq<StmtV>, r1: Seq<Seq<char>>, r2: Seq<Seq<char>>)
    requires
        forall|n: Seq<char>| r1.contains(n) ==> r2.contains(n),
    ensures
        forall|n: Seq<char>|
            #[trigger] working_set(body, r1).contains(n) ==> working_set(body, r2).contains(n),
{
    let w1 = working_set(body, r1);
    let w2 = working_set(body, r2);
    assert forall|n: Seq<char>| #[trigger] w1.contains(n) implies w2.contains(n) by {
        if r1.contains("default"@) {
            assert(r2.contains("default"@));
            let i = choose|i: int| 0 <= i < w1.len() && w1[i] == n;
            if i < r1.len() {
                assert(r1[i] == n);
                assert(r1.contains(n));
                lemma_contains_add_left(r2, default_locals_from(body, 0), n);
            } else {
                assert(default_locals_from(body, 0)[i - r1.len()] == n);
                assert(default_locals_from(body, 0).contains(n));
                lemma_contains_add_right(r2, default_locals_from(body, 0), n);
            }
        } else {
            assert(r1.contains(n));
            assert(r2.contains(n));
            if r2.contains("default"@) {
                lemma_contains_add_left(r2, default_locals_from(body, 0), n);
            }
        }
    }
}

/// Law: the keep-set grows monotonically with the requested set — a
/// statement retained for a requested set is retained for every larger
/// one (monotonicity of reachability).
pub proof fn lemma_keep_monotonic(body: Seq<StmtV>, r1: Seq<Seq<char>>, r2: Seq<Seq<char>>, j: int)
    requires
        forall|n: Seq<char>| r1.contains(n) ==> r2.contains(n),
        keep_stmt(body, r1, j),
    ensures
        keep_stmt(body, r2, j),
{
    let w1 = working_set(body, r1);
    let w2 = working_set(body, r2);
    lemma_working_set_monotonic(body, r1, r2);
    if in_closure(body, w1, j) {
        let p = choose|p: Seq<int>| is_path(body, w1, p) && p.last() == j;
        let nm = choose|nm: Seq<char>| is_root_for(body, w1, nm, p[0]);
        assert(w2.contains(nm));
        assert(is_root_for(body, w2, nm, p[0]));
        assert(is_root(body, w2, p[0]));
        assert(is_path(body, w2, p));
        assert(in_closure(body, w2, j));
    } else if in_step5(body, w1, j) {
        let nm = choose|nm: Seq<char>| #[trigger] w1.contains(nm) && step5_for(body, nm, j);
        assert(w2.contains(nm));
        assert(in_step5(body, w2, j));
    }
}

/// A kept statement appears in the shaker's output.
proof fn lemma_filter_keeps(body: Seq<StmtV>, req: Seq<Seq<char>>, k: int, t: int)
    requires
        0 <= k <= t < body.len(),
        keep_stmt(body, req, t),
    ensures
        shake_filter_from(body, req, k).contains(body[t]),
    decreases t - k,
{
    if k == t {
        let head = seq![body[t]];
        assert(head[0] == body[t]);
        assert(head.contains(body[t]));
        let i = choose|i: int| 0 <= i < head.len() && head[i] == body[t];
        assert((head + shake_filter_from(body, req, k + 1))[i] == body[t]);
    } else {
        lemma_filter_keeps(body, req, k + 1, t);
        let rest = shake_filter_from(body, req, k + 1);
        let head = if keep_stmt(body, req, k) {
            seq![body[k]]
        } else {
            Seq::<StmtV>::empty()
        };
        let i = choose|i: int| 0 <= i < rest.len() && rest[i] == body[t];
        assert((head + rest)[head.len() + i] == body[t]);
    }
}

/// The shaker emits each statement at most once: the output is never
/// longer than the remaining input.
pub proof fn lemma_shake_no_duplication(body: Seq<StmtV>, req: Seq<Seq<char>>, k: int)
    requires
        0 <= k <= body.len(),
    ensures
        shake_filter_from(body, req, k).len() <= body.len() - k,
    decreases body.len() - k,
{
    if k < body.len() {
        lemma_shake_no_duplication(body, req, k + 1);
    }
}

/// Law: mutual recursion is retained whole.  When the declaring
/// statements of two bindings reference each other and one of the two
/// is a requested exported name, both statements are kept, and both
/// appear in the shaker's output — which, being a filter of the
/// statement list, repeats and reorders nothing.
pub proof fn lemma_mutual_recursion_kept(
    body: Seq<StmtV>,
    req: Seq<Seq<char>>,
    f: Seq<char>,
    g: Seq<char>,
    i: int,
    j: int,
)
    requires
        first_decl_index(body, f) == Some(i),
        first_decl_index(body, g) == Some(j),
        stmt_refs(body[i]).contains(g),
        stmt_refs(body[j]).contains(f),
        is_exported(body, f),
        working_set(body, req).contains(f),
    ensures
        keep_stmt(body, req, i),
        keep_stmt(body, req, j),
        shake_filter_from(body, req, 0).contains(body[i]),
        shake_filter_from(body, req, 0).contains(body[j]),
{
    let w = working_set(body, req);
    lemma_first_decl_index_in_range(body, f, 0);
    lemma_first_decl_index_in_range(body, g, 0);
    assert(is_root_for(body, w, f, i));
    assert(is_root(body, w, i));
    lemma_root_in_closure(body, w, i);
    assert(edge(body, i, j));
    lemma_closure_step(body, w, i, j);
    lemma_filter_keeps(body, req, 0, i);
    lemma_filter_keeps(body, req, 0, j);
}

} // verus!
