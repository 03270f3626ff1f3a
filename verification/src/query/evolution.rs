//! Following an evolution chain from a base species to the line of species
//! a pokemon grows through.
use crate::error::Error;
use crate::model::line::{
    indices_clone, indices_get, indices_len, indices_new, indices_push, indices_view,
    line_keys, line_new, line_push, ChainIndices, SpeciesLine,
};
use vstd::prelude::*;

verus! {

/// One link of an evolution chain: a species and what it evolves into.
#[derive(Debug)]
pub struct EvolutionLink {
    pub species: String,
    pub evolves_to: Vec<EvolutionLink>,
}

/// Every level of the chain has at most one link.
pub open spec fn no_branches(links: Seq<EvolutionLink>) -> bool
    decreases links,
{
    if links.len() == 0 {
        true
    } else if links.len() > 1 {
        false
    } else {
        no_branches(links[0].evolves_to@)
    }
}

/// The species of an unbranched chain, from the top down.
pub open spec fn single_path(links: Seq<EvolutionLink>) -> Seq<Seq<char>>
    decreases links,
{
    if links.len() == 0 {
        Seq::empty()
    } else {
        seq![links[0].species@] + single_path(links[0].evolves_to@)
    }
}

/// The first path, depth first and in child order, from `link` (reached by
/// the indices `path`) to a link of species `target`.
pub open spec fn find_in_link(target: Seq<char>, link: EvolutionLink, path: Seq<int>) -> Option<
    Seq<int>,
>
    decreases link,
{
    if link.species@ == target {
        Some(path)
    } else {
        find_in_links(target, link.evolves_to@, path)
    }
}

/// The first path, depth first and in child order, through `links` (the
/// children of the link at `parent`) to a link of species `target`.
pub open spec fn find_in_links(target: Seq<char>, links: Seq<EvolutionLink>, parent: Seq<int>) -> Option<
    Seq<int>,
>
    decreases links,
{
    if links.len() == 0 {
        None
    } else {
        match find_in_links(target, links.subrange(0, links.len() - 1), parent) {
            Some(p) => Some(p),
            None => find_in_link(
                target,
                links[links.len() - 1],
                parent.push(links.len() - 1),
            ),
        }
    }
}

/// The length of the longest path from the top of the chain down.
pub open spec fn chain_depth(links: Seq<EvolutionLink>) -> nat
    decreases links,
{
    if links.len() == 0 {
        0
    } else {
        let rest = chain_depth(links.subrange(0, links.len() - 1));
        let last = 1 + chain_depth(links[links.len() - 1].evolves_to@);
        if rest >= last {
            rest
        } else {
            last
        }
    }
}

/// `path` names a link of the chain: each index is in range at its level.
pub open spec fn path_valid(links: Seq<EvolutionLink>, path: Seq<int>) -> bool
    decreases path.len(),
{
    &&& path.len() > 0
    &&& 0 <= path[0] < links.len()
    &&& (path.len() > 1 ==> path_valid(links[path[0]].evolves_to@, path.drop_first()))
}

/// The link that `path` leads to.
pub open spec fn link_at(links: Seq<EvolutionLink>, path: Seq<int>) -> EvolutionLink
    decreases path.len(),
{
    if path.len() <= 1 {
        links[path[0]]
    } else {
        link_at(links[path[0]].evolves_to@, path.drop_first())
    }
}

/// The species of the links along `path`, from the top down.
pub open spec fn names_along(links: Seq<EvolutionLink>, path: Seq<int>) -> Seq<Seq<char>> {
    Seq::new(path.len(), |k: int| link_at(links, path.take(k + 1)).species@)
}

/// The line that an evolution chain gives for a target species: the whole
/// chain when it does not branch; otherwise the species along the first
/// path to the target, or the error for a missing target or a target the
/// chain does not reach.
pub open spec fn evolution_line(links: Seq<EvolutionLink>, target: Option<Seq<char>>) -> Result<
    Seq<Seq<char>>,
    (),
> {
    if no_branches(links) {
        Ok(single_path(links))
    } else {
        match target {
            None => Err(()),
            Some(t) => match find_in_links(t, links, Seq::empty()) {
                None => Err(()),
                Some(path) => Ok(names_along(links, path)),
            },
        }
    }
}

proof fn lemma_child_depth(links: Seq<EvolutionLink>, i: int)
    requires
        0 <= i < links.len(),
    ensures
        1 + chain_depth(links[i].evolves_to@) <= chain_depth(links),
    decreases links.len(),
{
    if i < links.len() - 1 {
        let sub = links.subrange(0, links.len() - 1);
        lemma_child_depth(sub, i);
        assert(sub[i] == links[i]);
    }
}

proof fn lemma_path_within_depth(links: Seq<EvolutionLink>, path: Seq<int>)
    requires
        path_valid(links, path),
    ensures
        path.len() <= chain_depth(links),
    decreases path.len(),
{
    lemma_child_depth(links, path[0] as int);
    if path.len() > 1 {
        lemma_path_within_depth(links[path[0]].evolves_to@, path.drop_first());
    }
}

proof fn lemma_find_in_link_sound(target: Seq<char>, link: EvolutionLink, path: Seq<int>)
    ensures
        match find_in_link(target, link, path) {
            Some(r) => {
                &&& r.len() >= path.len()
                &&& r.subrange(0, path.len() as int) == path
                &&& r.len() == path.len() ==> link.species@ == target
                &&& r.len() > path.len() ==> path_valid(
                    link.evolves_to@,
                    r.subrange(path.len() as int, r.len() as int),
                ) && link_at(
                    link.evolves_to@,
                    r.subrange(path.len() as int, r.len() as int),
                ).species@ == target
            },
            None => true,
        },
    decreases link,
{
    if link.species@ == target {
        assert(path.subrange(0, path.len() as int) =~= path);
    } else {
        lemma_find_in_links_sound(target, link.evolves_to@, path);
    }
}

proof fn lemma_find_in_links_sound(target: Seq<char>, links: Seq<EvolutionLink>, parent: Seq<int>)
    ensures
        match find_in_links(target, links, parent) {
            Some(r) => {
                &&& r.len() > parent.len()
                &&& r.subrange(0, parent.len() as int) == parent
                &&& path_valid(links, r.subrange(parent.len() as int, r.len() as int))
                &&& link_at(links, r.subrange(parent.len() as int, r.len() as int)).species@
                    == target
            },
            None => true,
        },
    decreases links,
{
    if links.len() > 0 {
        let last = links.len() - 1;
        let sub = links.subrange(0, last);
        lemma_find_in_links_sound(target, sub, parent);
        match find_in_links(target, sub, parent) {
            Some(r) => {
                let rel = r.subrange(parent.len() as int, r.len() as int);
                assert(sub[rel[0]] == links[rel[0]]);
                assert(path_valid(links, rel));
                assert(link_at(links, rel) == link_at(sub, rel));
            },
            None => {
                let p2 = parent.push(last);
                lemma_find_in_link_sound(target, links[last], p2);
                match find_in_link(target, links[last], p2) {
                    Some(r) => {
                        let pl = parent.len() as int;
                        let rel = r.subrange(pl, r.len() as int);
                        assert(r.subrange(0, p2.len() as int)[pl] == r[pl]);
                        assert(r[pl] == last);
                        assert(r.subrange(0, pl) =~= parent) by {
                            assert forall|j: int| 0 <= j < pl implies r.subrange(0, pl)[j]
                                == parent[j] by {
                                assert(r.subrange(0, p2.len() as int)[j] == r[j]);
                            }
                        }
                        assert(rel[0] == last);
                        if r.len() > p2.len() {
                            assert(rel.drop_first() =~= r.subrange(p2.len() as int, r.len() as int));
                            assert(path_valid(links, rel));
                            assert(link_at(links, rel) == link_at(
                                links[last].evolves_to@,
                                rel.drop_first(),
                            ));
                        } else {
                            assert(rel.len() == 1);
                            assert(path_valid(links, rel));
                            assert(link_at(links, rel) == links[last]);
                        }
                    },
                    None => {},
                }
            },
        }
    }
}

/// Once a prefix of the links holds a path to the target, the whole list
/// gives that same path.
proof fn lemma_find_prefix(target: Seq<char>, links: Seq<EvolutionLink>, parent: Seq<int>, j: int)
    requires
        0 <= j <= links.len(),
        find_in_links(target, links.subrange(0, j), parent) is Some,
    ensures
        find_in_links(target, links, parent) == find_in_links(target, links.subrange(0, j), parent),
    decreases links.len(),
{
    if j == links.len() {
        assert(links.subrange(0, j) =~= links);
    } else {
        let sub = links.subrange(0, links.len() - 1);
        assert(sub.subrange(0, j) =~= links.subrange(0, j));
        lemma_find_prefix(target, sub, parent, j);
    }
}

proof fn lemma_link_at_step(links: Seq<EvolutionLink>, path: Seq<int>, k: int)
    requires
        path_valid(links, path),
        1 <= k < path.len(),
    ensures
        path_valid(links, path.take(k)),
        path_valid(links, path.take(k + 1)),
        path[k] < link_at(links, path.take(k)).evolves_to@.len(),
        link_at(links, path.take(k + 1)) == link_at(links, path.take(k)).evolves_to@[path[k]],
    decreases k,
{
    let children = links[path[0]].evolves_to@;
    let rest = path.drop_first();
    assert(path.take(k)[0] == path[0]);
    assert(path.take(k + 1)[0] == path[0]);
    assert(rest[k - 1] == path[k]);
    if k == 1 {
        assert(path.take(2).drop_first() =~= seq![path[1]]);
        assert(path_valid(children, rest));
        assert(path_valid(children, seq![path[1]]));
        assert(link_at(links, path.take(1)) == links[path[0]]);
        assert(link_at(children, seq![path[1]]) == children[path[1] as int]);
    } else {
        lemma_link_at_step(children, rest, k - 1);
        assert(path.take(k).drop_first() =~= rest.take(k - 1));
        assert(path.take(k + 1).drop_first() =~= rest.take(k));
    }
}

/// Whether every level of the chain has at most one link.
fn has_no_branches(links: &Vec<EvolutionLink>) -> (b: bool)
    ensures
        b == no_branches(links@),
    decreases links@,
{
    if links.len() == 0 {
        true
    } else if links.len() > 1 {
        false
    } else {
        has_no_branches(&links[0].evolves_to)
    }
}

/// The species of an unbranched chain, from the top down.
fn build_no_branches(links: &Vec<EvolutionLink>) -> (line: SpeciesLine)
    requires
        no_branches(links@),
        chain_depth(links@) < usize::MAX,
    ensures
        line_keys(line) == single_path(links@),
{
    let mut line = line_new();
    let mut cur = links;
    while cur.len() > 0
        invariant
            no_branches(cur@),
            line_keys(line) + single_path(cur@) == single_path(links@),
            line_keys(line).len() + chain_depth(cur@) <= chain_depth(links@),
            chain_depth(links@) < usize::MAX,
        decreases chain_depth(cur@),
    {
        let link = &cur[0];
        proof {
            lemma_child_depth(cur@, 0);
            assert(cur@.subrange(0, 0).len() == 0);
        }
        line_push(&mut line, link.species.clone());
        assert(line_keys(line) + single_path(link.evolves_to@) =~= single_path(links@));
        cur = &link.evolves_to;
    }
    assert(line_keys(line) =~= single_path(links@));
    line
}

fn visit_branch_link(target: &String, link: &EvolutionLink, indices: ChainIndices) -> (r: Option<
    ChainIndices,
>)
    requires
        indices_view(indices).len() + chain_depth(link.evolves_to@) < usize::MAX,
    ensures
        match r {
            Some(found) => find_in_link(target@, *link, indices_view(indices)) == Some(
                indices_view(found),
            ),
            None => find_in_link(target@, *link, indices_view(indices)) is None,
        },
    decreases link,
{
    if link.species == *target {
        return Some(indices);
    }
    visit_branch_links(target, &link.evolves_to, &indices)
}

fn visit_branch_links(target: &String, links: &Vec<EvolutionLink>, parent: &ChainIndices) -> (r:
    Option<ChainIndices>)
    requires
        indices_view(*parent).len() + chain_depth(links@) < usize::MAX,
    ensures
        match r {
            Some(found) => find_in_links(target@, links@, indices_view(*parent)) == Some(
                indices_view(found),
            ),
            None => find_in_links(target@, links@, indices_view(*parent)) is None,
        },
    decreases links@,
{
    let mut i: usize = 0;
    while i < links.len()
        invariant
            i <= links@.len(),
            indices_view(*parent).len() + chain_depth(links@) < usize::MAX,
            find_in_links(target@, links@.subrange(0, i as int), indices_view(*parent)) is None,
        decreases links@.len() - i,
    {
        proof {
            lemma_child_depth(links@, i as int);
        }
        let mut indices = indices_clone(parent);
        indices_push(&mut indices, i);
        assert(indices_view(indices) =~= indices_view(*parent).push(i as int));
        let found = visit_branch_link(target, &links[i], indices);
        assert(links@.subrange(0, i + 1).subrange(0, i as int) =~= links@.subrange(0, i as int));
        assert(links@.subrange(0, i + 1)[i as int] == links@[i as int]);
        match found {
            Some(found) => {
                proof {
                    lemma_find_prefix(target@, links@, indices_view(*parent), i + 1);
                }
                return Some(found);
            },
            None => {},
        }
        i = i + 1;
    }
    assert(links@.subrange(0, links@.len() as int) =~= links@);
    None
}

/// `r` is what following the chain to `target` gives: the line that
/// `evolution_line` names, or the error for a missing or unreachable target.
pub open spec fn follows_chain(
    links: Seq<EvolutionLink>,
    target: Option<&str>,
    r: Result<SpeciesLine, Error>,
) -> bool {
    let t = match target {
        Some(t) => Some(t@),
        None => None,
    };
    match r {
        Ok(line) => evolution_line(links, t) == Ok::<Seq<Seq<char>>, ()>(line_keys(line)),
        Err(e) => evolution_line(links, t) is Err && (!no_branches(links) && target is None
            ==> e is TargetRequired) && (!no_branches(links) && target is Some ==> (e matches Error::NoPathToTarget(k)
            && k@ == target.unwrap()@)),
    }
}

/// The line of species keys that an evolution chain gives for `target`:
/// the whole chain when it does not branch; otherwise the species along the
/// first path (depth first, in child order) to the target.
/// Fails with `Error::TargetRequired` on a branching chain without a
/// target, and with `Error::NoPathToTarget` when the chain does not reach it.
pub fn follow_evo_chain(links: &Vec<EvolutionLink>, target: Option<&str>) -> (r: Result<
    SpeciesLine,
    Error,
>)
    requires
        chain_depth(links@) < usize::MAX,
    ensures
        follows_chain(links@, target, r),
{
    if has_no_branches(links) {
        return Ok(build_no_branches(links));
    }
    let target = match target {
        Some(t) => String::from_str(t),
        None => {
            return Err(Error::TargetRequired);
        },
    };
    let empty = indices_new();
    assert(indices_view(empty) =~= Seq::<int>::empty());
    let path = match visit_branch_links(&target, links, &empty) {
        Some(path) => path,
        None => {
            return Err(Error::NoPathToTarget(target));
        },
    };
    proof {
        lemma_find_in_links_sound(target@, links@, Seq::empty());
        assert(indices_view(path).subrange(0, indices_view(path).len() as int) =~= indices_view(
            path,
        ));
        lemma_path_within_depth(links@, indices_view(path));
    }
    let n = indices_len(&path);
    let first = indices_get(&path, 0);
    let mut link = &links[first];
    let mut out = line_new();
    line_push(&mut out, link.species.clone());
    assert(line_keys(out) =~= seq![link.species@]);
    assert(indices_view(path).take(1) =~= seq![first as int]);
    assert(line_keys(out) =~= names_along(links@, indices_view(path).take(1)));
    let mut k: usize = 1;
    while k < n
        invariant
            1 <= k <= n,
            n == indices_view(path).len(),
            n < usize::MAX,
            path_valid(links@, indices_view(path)),
            *link == link_at(links@, indices_view(path).take(k as int)),
            line_keys(out) == names_along(links@, indices_view(path).take(k as int)),
        decreases n - k,
    {
        let ghost ix = indices_view(path);
        assert(line_keys(out).len() == k);
        let index = indices_get(&path, k);
        proof {
            lemma_link_at_step(links@, ix, k as int);
        }
        link = &link.evolves_to[index];
        let ghost before = line_keys(out);
        line_push(&mut out, link.species.clone());
        assert(line_keys(out) =~= before.push(link.species@));
        assert forall|j: int| 0 <= j < k + 1 implies #[trigger] ix.take(k + 1).take(j + 1) =~= ix.take(
            j + 1,
        ) by {}
        assert forall|j: int| 0 <= j < k implies #[trigger] ix.take(k as int).take(j + 1) =~= ix.take(
            j + 1,
        ) by {}
        assert(names_along(links@, ix.take(k + 1)) =~= names_along(links@, ix.take(k as int)).push(
            link.species@,
        ));
        k = k + 1;
    }
    assert(indices_view(path).take(n as int) =~= indices_view(path));
    Ok(out)
}

proof fn lemma_find_in_link_complete(
    target: Seq<char>,
    link: EvolutionLink,
    parent: Seq<int>,
    rel: Seq<int>,
)
    requires
        rel.len() == 0 ==> link.species@ == target,
        rel.len() > 0 ==> path_valid(link.evolves_to@, rel) && link_at(
            link.evolves_to@,
            rel,
        ).species@ == target,
    ensures
        find_in_link(target, link, parent) is Some,
    decreases link,
{
    if link.species@ != target {
        lemma_find_in_links_complete(target, link.evolves_to@, parent, rel);
    }
}

proof fn lemma_find_in_links_complete(
    target: Seq<char>,
    links: Seq<EvolutionLink>,
    parent: Seq<int>,
    path: Seq<int>,
)
    requires
        path_valid(links, path),
        link_at(links, path).species@ == target,
    ensures
        find_in_links(target, links, parent) is Some,
    decreases links,
{
    let last = links.len() - 1;
    let sub = links.subrange(0, last);
    if find_in_links(target, sub, parent) is None {
        if path[0] < last {
            assert(sub[path[0]] == links[path[0]]);
            assert(path_valid(sub, path));
            assert(link_at(sub, path) == link_at(links, path));
            lemma_find_in_links_complete(target, sub, parent, path);
        } else {
            let rest = path.drop_first();
            if path.len() > 1 {
                assert(link_at(links, path) == link_at(links[last].evolves_to@, rest));
            }
            lemma_find_in_link_complete(target, links[last], parent.push(last), rest);
        }
    }
}

/// On a branching chain, a target species that occurs anywhere in the chain
/// is always found: following the chain to it succeeds.
pub proof fn lemma_target_in_chain_is_found(links: Seq<EvolutionLink>, target: Seq<char>, path: Seq<int>)
    requires
        path_valid(links, path),
        link_at(links, path).species@ == target,
    ensures
        evolution_line(links, Some(target)) is Ok,
{
    lemma_find_in_links_complete(target, links, Seq::empty(), path);
}

/// On a branching chain, the line found for a target is a path of the chain
/// from its top that ends at the target species.
pub proof fn lemma_line_ends_at_target(links: Seq<EvolutionLink>, target: Seq<char>)
    requires
        !no_branches(links),
        evolution_line(links, Some(target)) is Ok,
    ensures
        ({
            let path = find_in_links(target, links, Seq::empty()).unwrap();
            &&& path_valid(links, path)
            &&& evolution_line(links, Some(target)) == Ok::<Seq<Seq<char>>, ()>(
                names_along(links, path),
            )
            &&& names_along(links, path).len() > 0
            &&& names_along(links, path).last() == target
        }),
{
    lemma_find_in_links_sound(target, links, Seq::empty());
    let path = find_in_links(target, links, Seq::empty()).unwrap();
    assert(path.subrange(0, path.len() as int) =~= path);
    assert(path.take(path.len() as int) =~= path);
}

/// A link with two or more children anywhere in the chain, or two or more
/// links at the top, makes the chain branch.
proof fn lemma_branch_point_branches(links: Seq<EvolutionLink>, path: Seq<int>)
    requires
        links.len() >= 2 || (path_valid(links, path) && link_at(links, path).evolves_to@.len()
            >= 2),
    ensures
        !no_branches(links),
    decreases path.len(),
{
    if links.len() < 2 {
        assert(links.len() == 1 && path[0] == 0);
        if path.len() > 1 {
            assert(link_at(links, path) == link_at(links[0].evolves_to@, path.drop_first()));
            lemma_branch_point_branches(links[0].evolves_to@, path.drop_first());
        } else {
            assert(link_at(links, path) == links[0]);
            assert(!no_branches(links[0].evolves_to@));
        }
        assert(no_branches(links) == no_branches(links[0].evolves_to@));
    }
}

/// A chain branches as soon as some link in it, at any depth, has two or
/// more children (or its top holds two or more links). Following such a
/// chain without a target fails with `Error::TargetRequired`; following it
/// to a species that occurs in the chain succeeds with the species along a
/// path of the chain from its top down to that target.
pub proof fn lemma_branching_chain_follows_target(
    links: Seq<EvolutionLink>,
    branch: Seq<int>,
    target: Option<&str>,
    r: Result<SpeciesLine, Error>,
)
    requires
        links.len() >= 2 || (path_valid(links, branch) && link_at(links, branch).evolves_to@.len()
            >= 2),
        follows_chain(links, target, r),
    ensures
        target is None ==> r matches Err(Error::TargetRequired),
        target matches Some(t) ==> ((exists|p: Seq<int>|
            path_valid(links, p) && link_at(links, p).species@ == t@) ==> (r matches Ok(line)
            && exists|p: Seq<int>|
            path_valid(links, p) && line_keys(line) == names_along(links, p) && line_keys(
                line,
            ).len() > 0 && line_keys(line).last() == t@)),
{
    lemma_branch_point_branches(links, branch);
    if let Some(t) = target {
        if exists|p: Seq<int>| path_valid(links, p) && link_at(links, p).species@ == t@ {
            let p = choose|p: Seq<int>| path_valid(links, p) && link_at(links, p).species@ == t@;
            lemma_target_in_chain_is_found(links, t@, p);
            lemma_line_ends_at_target(links, t@);
        }
    }
}

} // verus!
