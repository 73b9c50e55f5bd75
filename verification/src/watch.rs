//! The watch loop's decisions: which change notifications trigger new work.

use crate::config;
use crate::config::{jobs_of, single_entry, OptionsView};
use crate::resolve::{is_suffix, lemma_single_component_entry};
use std::path::Path;
use vstd::prelude::*;

verus! {

/// What kind of modification a change notification speaks of.
#[derive(Debug, Clone, Copy, PartialEq, Eq, Structural)]
pub enum ModifyKind {
    /// A modification of unknown kind.
    Any,
    /// The content of the file changed.
    Data,
    /// Only metadata of the file changed.
    Metadata,
    /// The file was renamed.
    Name,
    /// Some other modification.
    Other,
}

/// What a change notification speaks of.
#[derive(Debug, Clone, Copy, PartialEq, Eq, Structural)]
pub enum ChangeKind {
    /// A change of unknown kind.
    Any,
    /// The file was accessed.
    Access,
    /// The file was created.
    Create,
    /// The file was modified.
    Modify(ModifyKind),
    /// The file was removed.
    Remove,
    /// Some other change.
    Other,
}

/// One change notification: what happened, and to which paths.
#[derive(Debug)]
pub struct WatchEvent {
    pub kind: ChangeKind,
    pub paths: Vec<String>,
}

/// Only a change of a file's content is a reason to transform it again.
pub open spec fn is_data_modification(kind: ChangeKind) -> bool {
    kind == ChangeKind::Modify(ModifyKind::Data)
}

/// What `Path::extension` finds in a path: the extension of its file name,
/// if it has one, by the path rules of the platform the library is built for.
pub uninterp spec fn path_extension(path: Seq<char>) -> Option<Seq<char>>;

/// Whether a change of this kind, to a path with this extension, triggers a
/// job for sources with the extension `source`.
pub open spec fn accepted(kind: ChangeKind, extension: Option<Seq<char>>, source: Seq<char>)
    -> bool {
    is_data_modification(kind) && extension == Some(source)
}

/// Whether a change of this kind to `path` triggers a job.
pub open spec fn triggers(kind: ChangeKind, path: Seq<char>, source: Seq<char>) -> bool {
    accepted(kind, path_extension(path), source)
}

/// The paths of a notification that trigger a job, in their order. A path
/// that is named twice triggers twice.
pub open spec fn triggered_files(kind: ChangeKind, paths: Seq<Seq<char>>, source: Seq<char>) -> Seq<
    Seq<char>,
> {
    paths.filter(|path: Seq<char>| triggers(kind, path, source))
}

/// The jobs of the pass over one changed file: the file itself when the
/// options select it, nothing otherwise.
pub open spec fn jobs_for_file(path: Seq<char>, base: OptionsView) -> Seq<Seq<char>> {
    jobs_of(single_entry(path, base.separator, base.pattern, base.config))
}

/// The job sets that a notification asks for: for each triggering path, in
/// order, the jobs of a pass over that file alone.
pub open spec fn job_sets_for(
    kind: ChangeKind,
    paths: Seq<Seq<char>>,
    source: Seq<char>,
    base: OptionsView,
) -> Seq<Seq<Seq<char>>> {
    triggered_files(kind, paths, source).map_values(|path: Seq<char>| jobs_for_file(path, base))
}

/// `Path::extension` on a path given as text: the extension that std finds,
/// as text, or nothing where std finds none.
#[verifier::external_body]
fn extension_of(path: &str) -> (extension: Option<String>)
    ensures
        extension.deep_view() == path_extension(path@),
{
    match Path::new(path).extension() {
        Some(found) => Some(found.to_string_lossy().into_owned()),
        None => None,
    }
}

/// Whether the notification's kind is a change of content.
pub fn is_data_change(kind: ChangeKind) -> (data: bool)
    ensures
        data == is_data_modification(kind),
{
    match kind {
        ChangeKind::Modify(ModifyKind::Data) => true,
        _ => false,
    }
}

/// Decides from a notification's kind and a path's extension whether the
/// path triggers a job: only a change of content does, and only for a path
/// whose extension is the source extension.
pub fn accepts(kind: ChangeKind, extension: &Option<String>, source: &str) -> (accept: bool)
    ensures
        accept == accepted(kind, extension.deep_view(), source@),
{
    if !is_data_change(kind) {
        return false;
    }
    match extension {
        Some(found) => {
            let wanted = source.to_owned();
            *found == wanted
        },
        None => false,
    }
}

/// Whether a change of this kind to `path` triggers a job.
pub fn triggers_job(kind: ChangeKind, path: &str, source: &str) -> (accept: bool)
    ensures
        accept == triggers(kind, path@, source@),
{
    let extension = extension_of(path);
    accepts(kind, &extension, source)
}

/// The job sets that one notification asks for, each to be dispatched on
/// its own. Nothing is remembered between notifications: a file that changes
/// twice is submitted twice.
pub fn submissions(event: &WatchEvent, options: &config::Option, source: &str) -> (job_sets: Vec<
    Vec<String>,
>)
    ensures
        job_sets.deep_view() == job_sets_for(
            event.kind,
            event.paths.deep_view(),
            source@,
            options@,
        ),
{
    let ghost paths = event.paths.deep_view();
    let ghost keep = |path: Seq<char>| triggers(event.kind, path, source@);
    let ghost make = |path: Seq<char>| jobs_for_file(path, options@);
    let mut job_sets: Vec<Vec<String>> = Vec::new();
    let mut i: usize = 0;
    proof {
        reveal(Seq::filter);
        assert(paths.take(0).filter(keep) =~= Seq::<Seq<char>>::empty());
        assert(job_sets.deep_view() =~= paths.take(0).filter(keep).map_values(make));
    }
    while i < event.paths.len()
        invariant
            i <= event.paths.len(),
            paths == event.paths.deep_view(),
            keep == |path: Seq<char>| triggers(event.kind, path, source@),
            make == |path: Seq<char>| jobs_for_file(path, options@),
            job_sets.deep_view() == paths.take(i as int).filter(keep).map_values(make),
        decreases event.paths.len() - i,
    {
        let ghost before = job_sets.deep_view();
        let ghost seen = paths.take(i as int);
        let ghost next = paths.take(i + 1);
        proof {
            reveal(Seq::filter);
            assert(next.drop_last() =~= seen);
            assert(next.last() == event.paths[i as int]@);
        }
        if triggers_job(event.kind, event.paths[i].as_str(), source) {
            let job_set = options.for_file(event.paths[i].clone()).resolve();
            job_sets.push(job_set);
            proof {
                let path = event.paths[i as int]@;
                assert(job_set.deep_view() == make(path));
                assert(job_sets.deep_view() =~= before.push(make(path)));
                assert(job_sets.deep_view() =~= next.filter(keep).map_values(make));
            }
        }
        i = i + 1;
    }
    proof {
        assert(paths.take(i as int) =~= paths);
    }
    job_sets
}

/// A path whose extension is not the source extension never triggers a job,
/// whatever the kind of the change; a notification that names only such
/// paths asks for no job at all.
pub proof fn lemma_other_extension_never_triggers(
    kind: ChangeKind,
    paths: Seq<Seq<char>>,
    source: Seq<char>,
    base: OptionsView,
)
    ensures
        forall|path: Seq<char>|
            path_extension(path) != Some(source) ==> !(#[trigger] triggered_files(
                kind,
                paths,
                source,
            ).contains(path)),
        (forall|k: int| 0 <= k < paths.len() ==> path_extension(#[trigger] paths[k]) != Some(source))
            ==> job_sets_for(kind, paths, source, base).len() == 0,
{
    let keep = |path: Seq<char>| triggers(kind, path, source);
    let kept = paths.filter(keep);
    assert forall|path: Seq<char>| path_extension(path) != Some(source) implies !(
    #[trigger] kept.contains(path)) by {
        if kept.contains(path) {
            let j = choose|j: int| 0 <= j < kept.len() && kept[j] == path;
            paths.lemma_filter_pred(keep, j);
        }
    }
    if forall|k: int| 0 <= k < paths.len() ==> path_extension(#[trigger] paths[k]) != Some(source) {
        if kept.len() > 0 {
            paths.lemma_filter_pred(keep, 0);
            assert(kept.contains(kept[0]));
            paths.lemma_filter_contains_rev(keep, kept[0]);
            let k = choose|k: int| 0 <= k < paths.len() && paths[k] == kept[0];
            assert(path_extension(paths[k]) != Some(source));
        }
    }
}

/// A notification of a creation, a removal, a rename, a change of metadata
/// or any other kind but a change of content asks for no job; a change of
/// content asks for one for every path with the source extension.
pub proof fn lemma_only_data_modification_triggers(
    kind: ChangeKind,
    paths: Seq<Seq<char>>,
    source: Seq<char>,
    base: OptionsView,
)
    ensures
        !is_data_modification(kind) ==> job_sets_for(kind, paths, source, base).len() == 0,
        is_data_modification(kind) ==> forall|k: int|
            0 <= k < paths.len() && path_extension(#[trigger] paths[k]) == Some(source)
                ==> triggered_files(kind, paths, source).contains(paths[k]),
        job_sets_for(kind, paths, source, base).len() == triggered_files(
            kind,
            paths,
            source,
        ).len(),
{
    let keep = |path: Seq<char>| triggers(kind, path, source);
    let kept = paths.filter(keep);
    if !is_data_modification(kind) {
        if kept.len() > 0 {
            paths.lemma_filter_pred(keep, 0);
        }
    } else {
        assert forall|k: int|
            0 <= k < paths.len() && path_extension(#[trigger] paths[k]) == Some(
                source,
            ) implies kept.contains(paths[k]) by {
            paths.lemma_filter_contains(keep, k);
        }
    }
}

/// A change to a file that the options select asks for one job set that
/// holds that file, and a file that is named twice is submitted twice:
/// nothing is deduplicated.
pub proof fn lemma_repeated_change_is_submitted_again(
    kind: ChangeKind,
    path: Seq<char>,
    source: Seq<char>,
    base: OptionsView,
)
    requires
        triggers(kind, path, source),
        is_suffix(base.pattern, path),
    ensures
        job_sets_for(kind, seq![path], source, base) == seq![seq![path]],
        job_sets_for(kind, seq![path, path], source, base) == seq![seq![path], seq![path]],
{
    let keep = |p: Seq<char>| triggers(kind, p, source);
    reveal_with_fuel(Seq::filter, 3);
    let one = seq![path];
    assert(one.drop_last() =~= Seq::<Seq<char>>::empty());
    assert(one.filter(keep) =~= one);
    let two = seq![path, path];
    assert(two.drop_last() =~= one);
    assert(two.filter(keep) =~= two);
    lemma_single_component_entry(path, base.pattern, base.separator);
    assert(jobs_for_file(path, base) == seq![path]);
    assert(job_sets_for(kind, one, source, base) =~= seq![seq![path]]);
    assert(job_sets_for(kind, two, source, base) =~= seq![seq![path], seq![path]]);
}

} // verus!
