//! Entry resolution: from unjoined path components to the paths of the jobs.

use rayon::iter::{IntoParallelIterator, ParallelIterator};
use vstd::prelude::*;
use vstd::string::StringExecFns;

verus! {

/// Whether `suffix` ends `text`.
pub open spec fn is_suffix(suffix: Seq<char>, text: Seq<char>) -> bool {
    suffix.len() <= text.len() && text.subrange(text.len() - suffix.len(), text.len() as int)
        == suffix
}

/// The components in order, with one separator between each two neighbours.
pub open spec fn joined(parts: Seq<Seq<char>>, separator: char) -> Seq<char>
    decreases parts.len(),
{
    if parts.len() == 0 {
        Seq::empty()
    } else if parts.len() == 1 {
        parts[0]
    } else {
        joined(parts.drop_last(), separator) + seq![separator] + parts.last()
    }
}

/// An entry is selected when it has a last component and the pattern ends it.
pub open spec fn selected(entry: Seq<Seq<char>>, pattern: Seq<char>) -> bool {
    entry.len() > 0 && is_suffix(pattern, entry.last())
}

/// The path of a selected entry: its components, joined.
pub open spec fn job_path(entry: Seq<Seq<char>>, separator: char) -> Seq<char> {
    joined(entry, separator)
}

/// What one entry resolves to: its path when selected, nothing otherwise.
pub open spec fn resolved(entry: Seq<Seq<char>>, pattern: Seq<char>, separator: char) -> Option<
    Seq<char>,
> {
    if selected(entry, pattern) {
        Some(job_path(entry, separator))
    } else {
        None
    }
}

/// The jobs of a collection of entries: the paths of the selected entries, in
/// the order of the entries.
pub open spec fn resolved_jobs(
    entries: Seq<Seq<Seq<char>>>,
    pattern: Seq<char>,
    separator: char,
) -> Seq<Seq<char>> {
    entries.filter(|entry: Seq<Seq<char>>| selected(entry, pattern)).map_values(
        |entry: Seq<Seq<char>>| job_path(entry, separator),
    )
}

/// Whether `path` is the path of some selected entry of the collection.
pub open spec fn from_selected_entry(
    entries: Seq<Seq<Seq<char>>>,
    pattern: Seq<char>,
    separator: char,
    path: Seq<char>,
) -> bool {
    exists|i: int|
        0 <= i < entries.len() && selected(#[trigger] entries[i], pattern) && path == job_path(
            entries[i],
            separator,
        )
}

/// `str::ends_with` with a string pattern: true exactly when the pattern's
/// characters are the last characters of the text.
#[verifier::external_body]
fn ends_with(text: &str, pattern: &str) -> (found: bool)
    ensures
        found == is_suffix(pattern@, text@),
{
    text.ends_with(pattern)
}

/// `char::to_string`: the string that holds exactly this character.
#[verifier::external_body]
fn char_to_string(c: char) -> (text: String)
    ensures
        text@ == seq![c],
{
    c.to_string()
}

/// Joins the components with the separator.
pub fn join(parts: &Vec<String>, separator: char) -> (path: String)
    ensures
        path@ == joined(parts.deep_view(), separator),
{
    let ghost all = parts.deep_view();
    let sep = char_to_string(separator);
    let mut path = String::new();
    let mut i: usize = 0;
    while i < parts.len()
        invariant
            i <= parts.len(),
            all == parts.deep_view(),
            sep@ == seq![separator],
            path@ == joined(all.take(i as int), separator),
        decreases parts.len() - i,
    {
        proof {
            let next = all.take(i + 1);
            assert(next.drop_last() =~= all.take(i as int));
            assert(next.last() == parts[i as int]@);
        }
        if i > 0 {
            path.append(sep.as_str());
        }
        path.append(parts[i].as_str());
        proof {
            if i == 0 {
                assert(path@ =~= parts[0]@);
            }
        }
        i = i + 1;
    }
    proof {
        assert(all.take(i as int) =~= all);
    }
    path
}

/// Resolves one entry: the joined path of its components when the pattern
/// ends its last component, nothing otherwise. An empty entry has no last
/// component and resolves to nothing.
pub fn resolve_entry(entry: &Vec<String>, pattern: &str, separator: char) -> (job: Option<String>)
    ensures
        job.deep_view() == resolved(entry.deep_view(), pattern@, separator),
{
    let n = entry.len();
    if n == 0 {
        return None;
    }
    proof {
        assert(entry.deep_view().last() == entry[n - 1]@);
    }
    if ends_with(entry[n - 1].as_str(), pattern) {
        Some(join(entry, separator))
    } else {
        None
    }
}

/// rayon's `into_par_iter`, `filter_map` and `collect` into a `Vec`: every
/// entry is handed to `resolve_entry`, and the paths that come back are
/// collected in the order of the entries they came from.
#[verifier::external_body]
fn par_resolve(entries: &Vec<Vec<String>>, pattern: &str, separator: char) -> (jobs: Vec<String>)
    ensures
        jobs.deep_view() == resolved_jobs(entries.deep_view(), pattern@, separator),
{
    entries.into_par_iter().filter_map(|entry| resolve_entry(entry, pattern, separator)).collect()
}

/// Resolves a collection of entries to the paths of its jobs. Entries that
/// the pattern does not select are dropped; none of them is an error.
pub fn resolve_all(entries: &Vec<Vec<String>>, pattern: &str, separator: char) -> (jobs: Vec<
    String,
>)
    ensures
        jobs.deep_view() == resolved_jobs(entries.deep_view(), pattern@, separator),
        jobs.len() <= entries.len(),
        forall|i: int|
            0 <= i < entries.len() && selected(#[trigger] entries.deep_view()[i], pattern@)
                ==> jobs.deep_view().contains(job_path(entries.deep_view()[i], separator)),
        forall|j: int|
            0 <= j < jobs.len() ==> from_selected_entry(
                entries.deep_view(),
                pattern@,
                separator,
                #[trigger] jobs.deep_view()[j],
            ),
{
    let jobs = par_resolve(entries, pattern, separator);
    proof {
        lemma_jobs_are_selected_entries(entries.deep_view(), pattern@, separator);
    }
    jobs
}

/// The job list holds exactly the selected entries: every selected entry
/// contributes its path, every job is the path of some selected entry, and
/// there are as many jobs as selected entries.
pub proof fn lemma_jobs_are_selected_entries(
    entries: Seq<Seq<Seq<char>>>,
    pattern: Seq<char>,
    separator: char,
)
    ensures
        resolved_jobs(entries, pattern, separator).len() == entries.filter(
            |entry: Seq<Seq<char>>| selected(entry, pattern),
        ).len(),
        resolved_jobs(entries, pattern, separator).len() <= entries.len(),
        forall|i: int|
            0 <= i < entries.len() && selected(#[trigger] entries[i], pattern) ==> resolved_jobs(
                entries,
                pattern,
                separator,
            ).contains(job_path(entries[i], separator)),
        forall|j: int|
            0 <= j < resolved_jobs(entries, pattern, separator).len() ==> from_selected_entry(
                entries,
                pattern,
                separator,
                #[trigger] resolved_jobs(entries, pattern, separator)[j],
            ),
{
    let keep = |entry: Seq<Seq<char>>| selected(entry, pattern);
    let path = |entry: Seq<Seq<char>>| job_path(entry, separator);
    let kept = entries.filter(keep);
    let jobs = resolved_jobs(entries, pattern, separator);
    assert(jobs == kept.map_values(path));
    entries.lemma_filter_len(keep);
    assert forall|i: int| 0 <= i < entries.len() && selected(#[trigger] entries[i], pattern)
        implies jobs.contains(job_path(entries[i], separator)) by {
        entries.lemma_filter_contains(keep, i);
        let k = choose|k: int| 0 <= k < kept.len() && kept[k] == entries[i];
        assert(jobs[k] == job_path(entries[i], separator));
    }
    assert forall|j: int| 0 <= j < jobs.len() implies from_selected_entry(
        entries,
        pattern,
        separator,
        #[trigger] jobs[j],
    ) by {
        entries.lemma_filter_pred(keep, j);
        assert(kept.contains(kept[j]));
        entries.lemma_filter_contains_rev(keep, kept[j]);
        let i = choose|i: int| 0 <= i < entries.len() && entries[i] == kept[j];
        assert(selected(entries[i], pattern));
    }
}

/// Adding an entry that the pattern does not select leaves the jobs as they
/// were.
pub proof fn lemma_unselected_entry_adds_nothing(
    entries: Seq<Seq<Seq<char>>>,
    extra: Seq<Seq<char>>,
    pattern: Seq<char>,
    separator: char,
)
    requires
        !selected(extra, pattern),
    ensures
        resolved_jobs(entries.push(extra), pattern, separator) == resolved_jobs(
            entries,
            pattern,
            separator,
        ),
{
    let keep = |entry: Seq<Seq<char>>| selected(entry, pattern);
    reveal(Seq::filter);
    assert(entries.push(extra).drop_last() =~= entries);
    assert(entries.push(extra).filter(keep) == entries.filter(keep));
}

/// An entry of one component resolves to that component when the pattern
/// ends it, and to nothing otherwise.
pub proof fn lemma_single_component_entry(path: Seq<char>, pattern: Seq<char>, separator: char)
    ensures
        resolved_jobs(seq![seq![path]], pattern, separator) == if is_suffix(pattern, path) {
            seq![path]
        } else {
            Seq::<Seq<char>>::empty()
        },
{
    let keep = |entry: Seq<Seq<char>>| selected(entry, pattern);
    let entries = seq![seq![path]];
    reveal_with_fuel(Seq::filter, 2);
    assert(entries.drop_last() =~= Seq::<Seq<Seq<char>>>::empty());
    if is_suffix(pattern, path) {
        assert(entries.filter(keep) =~= entries);
        assert(resolved_jobs(entries, pattern, separator) =~= seq![path]);
    } else {
        assert(entries.filter(keep) =~= Seq::<Seq<Seq<char>>>::empty());
        assert(resolved_jobs(entries, pattern, separator) =~= Seq::<Seq<char>>::empty());
    }
}

} // verus!
