//! Resolving source files against the working directory.

use std::path::Path;
use vstd::prelude::*;

verus! {

/// The text of the path that adjoining `path` to `base` gives, by the path
/// rules of the platform the library is built for; `None` where that path
/// is not valid Unicode.
pub uninterp spec fn joined_path(base: Seq<char>, path: Seq<char>) -> Option<Seq<char>>;

/// Adjoins `path` to `base`.
///
/// Calls `std::path::Path::join` on `Path::new(base)` and reads the result
/// back with `Path::to_str`, which yields nothing for a path that is not
/// valid Unicode. The result depends on the two texts alone; the contract
/// gives it the name `joined_path` and claims nothing more of it.
#[verifier::external_body]
fn join_path(base: &str, path: &str) -> (joined: Option<String>)
    ensures
        joined.deep_view() == joined_path(base@, path@),
{
    Path::new(base).join(path).to_str().map(String::from)
}

/// Each file adjoined to the working directory, in the order of the files.
pub open spec fn spec_join_all(work_dir: Seq<char>, files: Seq<Seq<char>>) -> Seq<
    Option<Seq<char>>,
> {
    files.map_values(|file: Seq<char>| joined_path(work_dir, file))
}

/// The paths that could be joined, in their order; the others are dropped.
pub open spec fn spec_retain_joined(joined: Seq<Option<Seq<char>>>) -> Seq<Seq<char>> {
    joined.filter_map(|path: Option<Seq<char>>| path)
}

/// The files of a request as paths below its working directory. A file that
/// cannot be joined with the working directory is left out.
pub open spec fn spec_kcl_paths(work_dir: Seq<char>, files: Seq<Seq<char>>) -> Seq<Seq<char>> {
    spec_retain_joined(spec_join_all(work_dir, files))
}

/// Adjoins every file to the working directory.
pub fn join_all(work_dir: &str, files: &Vec<String>) -> (joined: Vec<Option<String>>)
    ensures
        joined.deep_view() == spec_join_all(work_dir@, files.deep_view()),
{
    let mut joined: Vec<Option<String>> = Vec::new();
    let mut i: usize = 0;
    while i < files.len()
        invariant
            i <= files.len(),
            joined.len() == i,
            forall|k: int|
                0 <= k < i ==> #[trigger] joined[k].deep_view() == joined_path(
                    work_dir@,
                    files[k]@,
                ),
        decreases files.len() - i,
    {
        let path = join_path(work_dir, files[i].as_str());
        joined.push(path);
        i += 1;
    }
    assert(joined.deep_view() =~= spec_join_all(work_dir@, files.deep_view()));
    joined
}

/// Keeps the paths that could be joined and drops the rest.
pub fn retain_joined(joined: &Vec<Option<String>>) -> (paths: Vec<String>)
    ensures
        paths.deep_view() == spec_retain_joined(joined.deep_view()),
{
    let mut paths: Vec<String> = Vec::new();
    let mut i: usize = 0;
    assert(joined.deep_view().take(0) =~= Seq::empty());
    while i < joined.len()
        invariant
            i <= joined.len(),
            paths.deep_view() == spec_retain_joined(joined.deep_view().take(i as int)),
        decreases joined.len() - i,
    {
        let ghost before = paths.deep_view();
        let ghost seen = joined.deep_view().take(i as int);
        let ghost next = joined.deep_view().take(i + 1);
        assert(next.drop_last() =~= seen);
        assert(next.last() == joined[i as int].deep_view());
        match &joined[i] {
            Some(path) => {
                paths.push(path.clone());
                assert(paths.deep_view() =~= before + seq![path@]);
            },
            None => {},
        }
        i += 1;
    }
    assert(joined.deep_view().take(joined.len() as int) =~= joined.deep_view());
    paths
}

/// The files of a request as paths below its working directory.
pub fn kcl_paths(work_dir: &str, files: &Vec<String>) -> (paths: Vec<String>)
    ensures
        paths.deep_view() == spec_kcl_paths(work_dir@, files.deep_view()),
{
    let joined = join_all(work_dir, files);
    retain_joined(&joined)
}

} // verus!
