//! The per-directory step of the scan engine. The surrounding walker lists
//! a directory, partitions its children into directory and file names, and
//! hands the listing here; this step evaluates the rule set, appends the
//! resulting candidate (if any) to the shared store, and decides which
//! child directories the walker may recurse into — every child whose name
//! is shallow-recognized is pruned, whether or not it also matched.

use vstd::prelude::*;
use crate::checker::{names, first_match, Checker, ConfigChecker};
use crate::store::{store_advances, CandidateStore, SelectOptions, SelectStatus};

verus! {

/// What a scan step asks the walker to do next: recurse into these child
/// directories (given by full path, in listing order), and, when a
/// candidate was appended, run a size estimation for it (given by its
/// store index and its path).
pub struct ScanOutcome {
    pub recurse: Vec<String>,
    pub size_task: Option<(usize, String)>,
}

/// The paths among `dpaths` whose directory name in `dnames` is not
/// shallow, kept in listing order.
pub open spec fn spec_recurse(
    shallow: Seq<Seq<char>>,
    dnames: Seq<Seq<char>>,
    dpaths: Seq<Seq<char>>,
) -> Seq<Seq<char>>
    recommends
        dnames.len() == dpaths.len(),
    decreases dnames.len(),
{
    if dnames.len() == 0 {
        Seq::empty()
    } else {
        let rest = spec_recurse(shallow, dnames.drop_last(), dpaths.drop_last());
        if shallow.contains(dnames.last()) {
            rest
        } else {
            rest.push(dpaths.last())
        }
    }
}

/// A path is recursed into exactly when some child directory carries it
/// under a name that is not shallow; in particular a listing whose every
/// occurrence of a path is shallow-named never has that path scanned.
pub proof fn lemma_recurse_exact(
    shallow: Seq<Seq<char>>,
    dnames: Seq<Seq<char>>,
    dpaths: Seq<Seq<char>>,
)
    requires
        dnames.len() == dpaths.len(),
    ensures
        forall|p: Seq<char>|
            spec_recurse(shallow, dnames, dpaths).contains(p) <==> exists|i: int|
                0 <= i < dnames.len() && dpaths[i] == p && !shallow.contains(#[trigger] dnames[i]),
    decreases dnames.len(),
{
    if dnames.len() == 0 {
    } else {
        let dn = dnames.drop_last();
        let dp = dpaths.drop_last();
        lemma_recurse_exact(shallow, dn, dp);
        let rest = spec_recurse(shallow, dn, dp);
        assert forall|p: Seq<char>|
            spec_recurse(shallow, dnames, dpaths).contains(p) implies exists|i: int|
            0 <= i < dnames.len() && dpaths[i] == p && !shallow.contains(#[trigger] dnames[i]) by {
            if shallow.contains(dnames.last()) {
                let i = choose|i: int| 0 <= i < dn.len() && dp[i] == p && !shallow.contains(#[trigger] dn[i]);
                assert(dnames[i] == dn[i] && dpaths[i] == dp[i]);
            } else {
                if p == dpaths.last() {
                    let i = dnames.len() - 1;
                    assert(dpaths[i] == p && !shallow.contains(dnames[i]));
                } else {
                    assert(rest.contains(p)) by {
                        let j = choose|j: int| 0 <= j < rest.push(dpaths.last()).len() && rest.push(dpaths.last())[j] == p;
                        assert(rest[j] == p);
                    }
                    let i = choose|i: int| 0 <= i < dn.len() && dp[i] == p && !shallow.contains(#[trigger] dn[i]);
                    assert(dnames[i] == dn[i] && dpaths[i] == dp[i]);
                }
            }
        }
        assert forall|p: Seq<char>|
            (exists|i: int|
                0 <= i < dnames.len() && dpaths[i] == p && !shallow.contains(
                    #[trigger] dnames[i],
                )) implies spec_recurse(shallow, dnames, dpaths).contains(p) by {
            let i = choose|i: int| 0 <= i < dnames.len() && dpaths[i] == p && !shallow.contains(#[trigger] dnames[i]);
            if i < dnames.len() - 1 {
                assert(dn[i] == dnames[i] && dp[i] == dpaths[i]);
                assert(rest.contains(p));
                let j = choose|j: int| 0 <= j < rest.len() && rest[j] == p;
                if shallow.contains(dnames.last()) {
                } else {
                    assert(rest.push(dpaths.last())[j] == p);
                }
            } else {
                assert(!shallow.contains(dnames.last()));
                assert(rest.push(dpaths.last()).last() == p);
            }
        }
    }
}

/// The directories to recurse into: every child directory of the listing
/// whose name the rule set does not flag shallow, as full paths in listing
/// order.
fn non_shallow_paths(config: &ConfigChecker, dirs: &Vec<String>, dir_paths: &Vec<String>) -> (r:
    Vec<String>)
    requires
        dirs@.len() == dir_paths@.len(),
    ensures
        names(r@) == spec_recurse(names(config.shallow@), names(dirs@), names(dir_paths@)),
{
    let ghost sh = names(config.shallow@);
    let ghost dn = names(dirs@);
    let ghost dp = names(dir_paths@);
    let mut r: Vec<String> = Vec::new();
    let mut i: usize = 0;
    proof {
        assert(names(r@) =~= Seq::<Seq<char>>::empty());
        assert(dn.take(0) =~= Seq::<Seq<char>>::empty());
        assert(dp.take(0) =~= Seq::<Seq<char>>::empty());
    }
    while i < dirs.len()
        invariant
            dirs@.len() == dir_paths@.len(),
            i <= dirs@.len(),
            sh == names(config.shallow@),
            dn == names(dirs@),
            dp == names(dir_paths@),
            names(r@) == spec_recurse(sh, dn.take(i as int), dp.take(i as int)),
        decreases dirs@.len() - i,
    {
        let ghost r_old = r@;
        let shallow_here = config.is_shallow(&dirs[i]);
        if !shallow_here {
            r.push(dir_paths[i].clone());
        }
        proof {
            let j = i as int;
            assert(dn.take(j + 1).drop_last() =~= dn.take(j));
            assert(dp.take(j + 1).drop_last() =~= dp.take(j));
            assert(dn.take(j + 1).last() == dn[j]);
            assert(dp.take(j + 1).last() == dp[j]);
            if shallow_here {
                assert(names(r@) == spec_recurse(sh, dn.take(j + 1), dp.take(j + 1)));
            } else {
                assert(names(r@) =~= names(r_old).push(dir_paths@[j]@));
                assert(names(r@) == spec_recurse(sh, dn.take(j + 1), dp.take(j + 1)));
            }
        }
        i += 1;
    }
    proof {
        assert(dn.take(dirs@.len() as int) =~= dn);
        assert(dp.take(dirs@.len() as int) =~= dp);
    }
    r
}

/// A matching rule set names a target that is present among the listing's
/// directories.
pub proof fn lemma_first_match_target_in_dirs(
    rules: Seq<Checker>,
    dirs: Seq<Seq<char>>,
    files: Seq<Seq<char>>,
)
    ensures
        first_match(rules, dirs, files) matches Some(pt) ==> dirs.contains(pt.1),
    decreases rules.len(),
{
    if rules.len() == 0 {
    } else if rules[0].spec_matches(dirs, files) {
    } else {
        lemma_first_match_target_in_dirs(rules.drop_first(), dirs, files);
    }
}

/// The first position in `v` of a name with the characters of `x`.
fn position_of(v: &Vec<String>, x: &String) -> (r: Option<usize>)
    ensures
        match r {
            Some(j) => names(v@).index_of_first(x@) == Some(j as int),
            None => names(v@).index_of_first(x@) is None,
        },
{
    let mut j: usize = 0;
    while j < v.len()
        invariant
            j <= v@.len(),
            forall|k: int| 0 <= k < j ==> names(v@)[k] != x@,
        decreases v@.len() - j,
    {
        if v[j] == *x {
            proof {
                assert(names(v@)[j as int] == x@);
                assert(names(v@).contains(x@));
                names(v@).index_of_first_ensures(x@);
            }
            return Some(j);
        }
        j += 1;
    }
    proof {
        assert(!names(v@).contains(x@));
        names(v@).index_of_first_ensures(x@);
    }
    None
}

/// One scan step over a listed directory. `dirs` and `files` are the names
/// of the child directories and files; `dir_paths` holds, index for index,
/// the full path of each child directory. When the rule set matches, the
/// first-listed directory bearing the matched target name becomes a new
/// store entry — labeled with the rule's prefix, annotated `[wait]`, status
/// `Searched` — and the outcome carries a size-estimation task for that
/// entry's index and path. Pruning and matching are independent: a shallow
/// child is withheld from `recurse` yet still counts toward the match.
pub fn scan_step(
    config: &ConfigChecker,
    dirs: &Vec<String>,
    files: &Vec<String>,
    dir_paths: &Vec<String>,
    store: &mut CandidateStore,
) -> (r: ScanOutcome)
    requires
        dirs@.len() == dir_paths@.len(),
    ensures
        names(r.recurse@) == spec_recurse(names(config.shallow@), names(dirs@), names(dir_paths@)),
        match first_match(config.includes@, names(dirs@), names(files@)) {
            Some(pt) => {
                &&& names(dirs@).index_of_first(pt.1) matches Some(k) && {
                    &&& final(store)@.len() == old(store)@.len() + 1
                    &&& forall|j: int|
                        0 <= j < old(store)@.len() ==> final(store)@[j] == old(store)@[j]
                    &&& final(store)@.last().path@ == names(dir_paths@)[k]
                    &&& final(store)@.last().prefix@ == pt.0
                    &&& final(store)@.last().end@ == "[wait]"@
                    &&& final(store)@.last().status is Searched
                    &&& r.size_task matches Some(t) && t.0 == old(store)@.len() && t.1@
                        == names(dir_paths@)[k]
                }
            },
            None => {
                &&& final(store)@ == old(store)@
                &&& r.size_task is None
            },
        },
        store_advances(old(store)@, final(store)@),
{
    let recurse = non_shallow_paths(config, dirs, dir_paths);
    let size_task: Option<(usize, String)>;
    match config.check(dirs, files) {
        Some((prefix, target)) => {
            proof {
                lemma_first_match_target_in_dirs(
                    config.includes@,
                    names(dirs@),
                    names(files@),
                );
                names(dirs@).index_of_first_ensures(target@);
            }
            match position_of(dirs, &target) {
                Some(j) => {
                    let path = dir_paths[j].clone();
                    let index = store.append(
                        SelectOptions::new(
                            path.clone(),
                            prefix,
                            "[wait]".to_owned(),
                            SelectStatus::Searched,
                        ),
                    );
                    size_task = Some((index, path));
                },
                None => {
                    // the matched rule's target is among `dirs`, so a
                    // first position always exists
                    size_task = vstd::pervasive::unreached();
                },
            }
        },
        None => {
            size_task = None;
        },
    }
    ScanOutcome { recurse, size_task }
}

} // verus!
