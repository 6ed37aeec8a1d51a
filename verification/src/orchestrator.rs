//! Which candidates are still to be mirrored: those that the destination
//! holds under neither of their two names.

use vstd::prelude::*;
use crate::mirror::{
    destination_name, exists_message, prefix_name, prefixed_name, report_existing,
};
use crate::repo::{string_views, Repo, RepoView};

verus! {

/// Whether the destination, which holds the names `existing`, has `repo`
/// under its own name or under its prefixed name.
pub open spec fn already_mirrored(repo: RepoView, existing: Seq<Seq<char>>) -> bool {
    existing.contains(repo.name) || existing.contains(prefixed_name(repo))
}

/// Holds of the repositories that `existing` has under neither name.
pub open spec fn missing_from(existing: Seq<Seq<char>>) -> spec_fn(Repo) -> bool {
    |repo: Repo| !already_mirrored(repo@, existing)
}

/// Holds of the repositories that `existing` has under one of their names.
pub open spec fn present_in(existing: Seq<Seq<char>>) -> spec_fn(Repo) -> bool {
    |repo: Repo| already_mirrored(repo@, existing)
}

/// The candidates that are to be mirrored, in their order.
pub open spec fn to_create(candidates: Seq<Repo>, existing: Seq<Seq<char>>) -> Seq<Repo> {
    candidates.filter(missing_from(existing))
}

/// One line for each of `repos` that reports it as present, in their order.
pub open spec fn exists_lines(repos: Seq<Repo>) -> Seq<Seq<char>> {
    repos.map_values(|repo: Repo| exists_message(repo@))
}

/// One line for each candidate that is passed over, in their order.
pub open spec fn skipped_lines(candidates: Seq<Repo>, existing: Seq<Seq<char>>) -> Seq<Seq<char>> {
    exists_lines(candidates.filter(present_in(existing)))
}

/// The names of `repos`, in their order.
pub open spec fn names_of(repos: Seq<Repo>) -> Seq<Seq<char>> {
    repos.map_values(|repo: Repo| repo.name@)
}

/// A run that follows a complete one creates nothing. Let the destination
/// hold `before` at the first run and `after` at the second, let nothing
/// have gone in between, and let every repository that the first run was to
/// create be there under the name that was chosen for it. Then the second
/// run finds every candidate present.
pub proof fn lemma_second_run_creates_nothing(
    candidates: Seq<Repo>,
    source_user: Seq<char>,
    before: Seq<Seq<char>>,
    after: Seq<Seq<char>>,
)
    requires
        forall|name: Seq<char>| before.contains(name) ==> after.contains(name),
        forall|i: int|
            0 <= i < to_create(candidates, before).len() ==> after.contains(
                destination_name(#[trigger] to_create(candidates, before)[i]@, source_user),
            ),
    ensures
        to_create(candidates, after) == Seq::<Repo>::empty(),
    decreases candidates.len(),
{
    reveal(Seq::filter);
    if candidates.len() > 0 {
        let rest = candidates.drop_last();
        let last = candidates.last();
        let created = to_create(candidates, before);
        assert forall|i: int| 0 <= i < to_create(rest, before).len() implies after.contains(
            destination_name(#[trigger] to_create(rest, before)[i]@, source_user),
        ) by {
            assert(to_create(rest, before)[i] == created[i]);
        }
        lemma_second_run_creates_nothing(rest, source_user, before, after);
        if !already_mirrored(last@, before) {
            assert(created[created.len() - 1] == last);
        }
    }
}

/// Whether `name` is among `names`.
pub fn contains_name(names: &Vec<String>, name: &String) -> (found: bool)
    ensures
        found == string_views(names@).contains(name@),
{
    let mut i: usize = 0;
    while i < names.len()
        invariant
            i <= names.len(),
            forall|j: int| 0 <= j < i ==> string_views(names@)[j] != name@,
        decreases names.len() - i,
    {
        if names[i] == *name {
            assert(string_views(names@)[i as int] == name@);
            return true;
        }
        i += 1;
    }
    false
}

/// Whether the destination has `repo` under one of its two names.
pub fn is_mirrored(repo: &Repo, existing: &Vec<String>) -> (present: bool)
    ensures
        present == already_mirrored(repo@, string_views(existing@)),
{
    if contains_name(existing, &repo.name) {
        true
    } else {
        let prefixed = prefix_name(repo);
        contains_name(existing, &prefixed)
    }
}

/// Takes the names out of a listing of the destination.
pub fn repo_names(repos: &Vec<Repo>) -> (names: Vec<String>)
    ensures
        string_views(names@) == names_of(repos@),
{
    let mut names: Vec<String> = Vec::new();
    let mut i: usize = 0;
    while i < repos.len()
        invariant
            i <= repos.len(),
            string_views(names@) == names_of(repos@.take(i as int)),
        decreases repos.len() - i,
    {
        names.push(repos[i].name.clone());
        i += 1;
        assert(string_views(names@) =~= names_of(repos@.take(i as int))) by {
            assert(repos@.take(i as int) =~= repos@.take(i - 1).push(repos@[i - 1]));
            assert(names_of(repos@.take(i - 1).push(repos@[i - 1])) =~= names_of(
                repos@.take(i - 1),
            ).push(repos@[i - 1].name@));
        }
    }
    names
}

/// Parts the candidates into those to mirror and those to pass over. Of
/// the first it returns the repositories, of the second one line each.
pub fn partition_candidates(candidates: Vec<Repo>, existing: &Vec<String>) -> (plan: (
    Vec<Repo>,
    Vec<String>,
))
    ensures
        plan.0@ == to_create(candidates@, string_views(existing@)),
        string_views(plan.1@) == skipped_lines(candidates@, string_views(existing@)),
{
    let ghost all = candidates@;
    let ghost names = string_views(existing@);
    let mut create: Vec<Repo> = Vec::new();
    let mut log: Vec<String> = Vec::new();
    for repo in it: candidates
        invariant
            it.seq() == all,
            names == string_views(existing@),
            create@ == to_create(all.take(it.index() as int), names),
            string_views(log@) == skipped_lines(all.take(it.index() as int), names),
    {
        proof {
            reveal(Seq::filter);
            let upto = all.take(it.index() + 1);
            assert(upto.drop_last() =~= all.take(it.index() as int));
        }
        if is_mirrored(&repo, existing) {
            let ghost passed = all.take(it.index() as int).filter(present_in(names));
            log.push(report_existing(&repo));
            assert(string_views(log@) =~= skipped_lines(all.take(it.index() + 1), names)) by {
                assert(exists_lines(passed.push(repo)) =~= exists_lines(passed).push(
                    exists_message(repo@),
                ));
            }
        } else {
            create.push(repo);
        }
    }
    assert(all.take(all.len() as int) =~= all);
    (create, log)
}

} // verus!
