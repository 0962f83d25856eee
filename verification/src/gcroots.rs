//! The store paths that the service keeps alive.

use crate::text::{decimal, texts, u64_to_string};
use vstd::prelude::*;

verus! {

/// One output of a job with its derivation and the paths on which the
/// derivation depends.
#[derive(Debug, PartialEq, Eq)]
pub struct Root {
    pub out: String,
    pub drv: String,
    pub deps: Vec<String>,
}

/// The paths that one output keeps alive: itself, its derivation and
/// what the derivation depends on.
pub open spec fn row_paths(row: Root) -> Set<Seq<char>> {
    texts(row.deps@).to_set().insert(row.drv@).insert(row.out@)
}

/// The paths that the outputs keep alive.
pub open spec fn all_paths(rows: Seq<Root>) -> Set<Seq<char>>
    decreases rows.len(),
{
    if rows.len() == 0 {
        Set::empty()
    } else {
        all_paths(rows.drop_last()).union(row_paths(rows.last()))
    }
}

/// The bundles of actions that the projects keep alive.
pub open spec fn action_paths(actions: Seq<Option<String>>) -> Set<Seq<char>>
    decreases actions.len(),
{
    if actions.len() == 0 {
        Set::empty()
    } else {
        let rest = action_paths(actions.drop_last());
        match actions.last() {
            Some(path) => rest.insert(path@),
            None => rest,
        }
    }
}

/// Every path that is kept alive.
pub open spec fn root_paths(rows: Seq<Root>, actions: Seq<Option<String>>) -> Set<Seq<char>> {
    all_paths(rows).union(action_paths(actions))
}

/// Adds a path to the list unless the list holds it.
fn keep(roots: &mut Vec<String>, path: &String)
    ensures
        texts(final(roots)@).to_set() == texts(old(roots)@).to_set().insert(path@),
        texts(old(roots)@).no_duplicates() ==> texts(final(roots)@).no_duplicates(),
{
    let mut j: usize = 0;
    while j < roots.len() && !(roots[j] == *path)
        invariant
            j <= roots@.len(),
            forall|m: int| 0 <= m < j ==> (#[trigger] roots@[m])@ != path@,
        decreases roots@.len() - j,
    {
        j = j + 1;
    }
    let ghost was = texts(roots@);
    if j < roots.len() {
        proof {
            assert(was[j as int] == path@);
            assert(was.contains(path@));
            assert(was.to_set() =~= was.to_set().insert(path@));
        }
    } else {
        roots.push(path.clone());
        proof {
            let now = texts(roots@);
            assert(now =~= was.push(path@));
            assert forall|p: Seq<char>| now.to_set().contains(p) <==> was.to_set().insert(
                path@,
            ).contains(p) by {
                if now.contains(p) {
                    let k = choose|k: int| 0 <= k < now.len() && now[k] == p;
                    if k < was.len() {
                        assert(was[k] == p);
                    }
                }
                if was.contains(p) {
                    let k = choose|k: int| 0 <= k < was.len() && was[k] == p;
                    assert(now[k] == p);
                }
                assert(now[was.len() as int] == path@);
            }
            assert(now.to_set() =~= was.to_set().insert(path@));
            if was.no_duplicates() {
                assert forall|a: int, b: int| 0 <= a < now.len() && 0 <= b < now.len() && a
                    != b implies now[a] != now[b] by {
                    if a < was.len() && b < was.len() {
                        assert(was[a] != was[b]);
                    } else if a < was.len() {
                        assert(roots@[a]@ != path@);
                    } else {
                        assert(roots@[b]@ != path@);
                    }
                }
            }
        }
    }
}

/// The paths to keep alive, each once: the outputs of the jobs, their
/// derivations, what those depend on, and the bundles of actions of the
/// projects.
pub fn update_aux(rows: &Vec<Root>, actions: &Vec<Option<String>>) -> (roots: Vec<String>)
    ensures
        texts(roots@).no_duplicates(),
        texts(roots@).to_set() == root_paths(rows@, actions@),
{
    let mut roots: Vec<String> = Vec::new();
    let mut i: usize = 0;
    proof {
        assert(rows@.take(0) =~= Seq::<Root>::empty());
        assert(texts(roots@).to_set() =~= Set::<Seq<char>>::empty());
    }
    while i < rows.len()
        invariant
            i <= rows.len(),
            texts(roots@).no_duplicates(),
            texts(roots@).to_set() == all_paths(rows@.take(i as int)),
        decreases rows.len() - i,
    {
        let row = &rows[i];
        let ghost base = texts(roots@).to_set();
        let mut k: usize = 0;
        proof {
            assert(texts(row.deps@).take(0).to_set() =~= Set::<Seq<char>>::empty());
            assert(base.union(Set::<Seq<char>>::empty()) =~= base);
        }
        while k < row.deps.len()
            invariant
                k <= row.deps.len(),
                texts(roots@).no_duplicates(),
                texts(roots@).to_set() == base.union(texts(row.deps@).take(k as int).to_set()),
            decreases row.deps.len() - k,
        {
            proof {
                let deps = texts(row.deps@);
                let before = deps.take(k as int);
                let now = deps.take(k as int + 1);
                assert(now =~= before.push(deps[k as int]));
                assert forall|p: Seq<char>| now.to_set().contains(p) <==> before.to_set().insert(
                    deps[k as int],
                ).contains(p) by {
                    if now.contains(p) {
                        let m = choose|m: int| 0 <= m < now.len() && now[m] == p;
                        if m < before.len() {
                            assert(before[m] == p);
                        }
                    }
                    if before.contains(p) {
                        let m = choose|m: int| 0 <= m < before.len() && before[m] == p;
                        assert(now[m] == p);
                    }
                    assert(now[k as int] == deps[k as int]);
                }
                assert(now.to_set() =~= before.to_set().insert(deps[k as int]));
                assert(base.union(before.to_set()).insert(deps[k as int]) =~= base.union(
                    now.to_set(),
                ));
            }
            keep(&mut roots, &row.deps[k]);
            k = k + 1;
        }
        proof {
            assert(texts(row.deps@).take(row.deps@.len() as int) =~= texts(row.deps@));
        }
        keep(&mut roots, &row.drv);
        keep(&mut roots, &row.out);
        proof {
            assert(rows@.take(i as int + 1).drop_last() =~= rows@.take(i as int));
            assert(rows@.take(i as int + 1).last() == rows@[i as int]);
            assert(texts(roots@).to_set() =~= base.union(row_paths(rows@[i as int])));
        }
        i = i + 1;
    }
    proof {
        assert(rows@.take(rows@.len() as int) =~= rows@);
    }
    let mut j: usize = 0;
    proof {
        assert(actions@.take(0) =~= Seq::<Option<String>>::empty());
        assert(all_paths(rows@).union(Set::<Seq<char>>::empty()) =~= all_paths(rows@));
    }
    while j < actions.len()
        invariant
            j <= actions.len(),
            texts(roots@).no_duplicates(),
            texts(roots@).to_set() == all_paths(rows@).union(action_paths(actions@.take(j as int))),
        decreases actions.len() - j,
    {
        proof {
            assert(actions@.take(j as int + 1).drop_last() =~= actions@.take(j as int));
            assert(actions@.take(j as int + 1).last() == actions@[j as int]);
        }
        match &actions[j] {
            Some(path) => {
                keep(&mut roots, path);
                proof {
                    assert(texts(roots@).to_set() =~= all_paths(rows@).union(
                        action_paths(actions@.take(j as int + 1)),
                    ));
                }
            },
            None => {},
        }
        j = j + 1;
    }
    proof {
        assert(actions@.take(actions@.len() as int) =~= actions@);
    }
    roots
}

/// A link that keeps a path alive.
#[derive(Debug, PartialEq, Eq)]
pub struct Link {
    pub name: String,
    pub target: String,
}

/// What the links of a list point to.
pub open spec fn targets(links: Seq<Link>) -> Seq<Seq<char>> {
    links.map_values(|link: Link| link.target@)
}

/// The name of the link to the path at place `i` of the list.
pub fn link_name(i: u64) -> (name: String)
    ensures
        name@ == decimal(i as nat),
{
    u64_to_string(i)
}

/// The links to write: one to each path to keep alive, no path twice,
/// each named by its place in the list.
pub fn update(rows: &Vec<Root>, actions: &Vec<Option<String>>) -> (links: Vec<Link>)
    ensures
        targets(links@).no_duplicates(),
        targets(links@).to_set() == root_paths(rows@, actions@),
        forall|i: int| 0 <= i < links@.len() ==> (#[trigger] links@[i]).name@ == decimal(i as nat),
{
    let roots = update_aux(rows, actions);
    let mut links: Vec<Link> = Vec::new();
    let mut i: usize = 0;
    while i < roots.len()
        invariant
            i <= roots.len(),
            links@.len() == i,
            forall|k: int| 0 <= k < i ==> (#[trigger] links@[k]).target@ == roots@[k]@,
            forall|k: int| 0 <= k < i ==> (#[trigger] links@[k]).name@ == decimal(k as nat),
        decreases roots.len() - i,
    {
        links.push(Link { name: link_name(i as u64), target: roots[i].clone() });
        i = i + 1;
    }
    proof {
        assert(targets(links@) =~= texts(roots@));
    }
    links
}

} // verus!
