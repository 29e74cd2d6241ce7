//! Compares what a folder holds with what a torrent says it should hold.
//!
//! The driver walks the folder and hands over the relative paths of the
//! regular files it found. Everything after that is decided here: which of
//! them the torrent does not know (extra), and which of the torrent's files
//! are not there (missing).

use vstd::prelude::*;
use crate::engine::{TorrentDetailsResponse, TorrentFileView};
use crate::paths::{join_components, join_path, path_below, path_from_components, PathSet};
use vstd::hash_set::StringHashSet;

verus! {

/// What a walk over the download folder found.
#[derive(Debug, Clone)]
pub enum FolderScan {
    /// The folder does not exist.
    Absent,
    /// The relative paths of the regular files below the folder.
    Files(Vec<String>),
    /// The walk failed, with the reason.
    Failed(String),
}

/// The mathematical value of a [`FolderScan`].
pub enum FolderScanView {
    Absent,
    Files(Seq<Seq<char>>),
    Failed(Seq<char>),
}

impl View for FolderScan {
    type V = FolderScanView;

    open spec fn view(&self) -> FolderScanView {
        match self {
            FolderScan::Absent => FolderScanView::Absent,
            FolderScan::Files(files) => FolderScanView::Files(files.deep_view()),
            FolderScan::Failed(reason) => FolderScanView::Failed(reason@),
        }
    }
}

impl FolderScanView {
    /// The files that the walk found; none where the folder is absent.
    pub open spec fn files(self) -> Seq<Seq<char>> {
        match self {
            FolderScanView::Files(files) => files,
            _ => Seq::empty(),
        }
    }
}

/// The files on disk that the torrent does not list, each as its path below
/// `root`, in the order of the walk.
pub open spec fn extra_files(root: Seq<char>, files: Seq<Seq<char>>, expected: Set<Seq<char>>) -> Seq<
    Seq<char>,
> {
    files.filter(|path: Seq<char>| !expected.contains(path)).map_values(
        |path: Seq<char>| join_path(root, path),
    )
}

/// The files that the torrent lists and the walk did not find.
pub open spec fn missing_files(files: Seq<Seq<char>>, expected: Set<Seq<char>>) -> Set<Seq<char>> {
    expected.difference(files.to_set())
}

/// The relative paths of the included files of a file list.
pub open spec fn included_paths(files: Seq<TorrentFileView>) -> Seq<Seq<char>> {
    files.filter(|file: TorrentFileView| file.included).map_values(
        |file: TorrentFileView| join_components(file.components),
    )
}

/// The paths that a torrent expects in its folder: one for each included
/// file, none where the engine gave no file list.
pub open spec fn expected_files(files: Option<Seq<TorrentFileView>>) -> Set<Seq<char>> {
    match files {
        Some(files) => included_paths(files).to_set(),
        None => Set::empty(),
    }
}

/// Lists the files in the folder that the torrent does not expect.
///
/// An absent folder has no extra files. A failed walk is passed on.
pub fn find_extra_files(download_path: &String, scan: &FolderScan, expected_files: &PathSet) -> (result:
    Result<Vec<String>, String>)
    ensures
        match scan@ {
            FolderScanView::Failed(reason) => result matches Err(e) && e@ == reason,
            found => result matches Ok(extra) && extra.deep_view() == extra_files(
                download_path@,
                found.files(),
                expected_files@,
            ),
        },
{
    let ghost unexpected = |path: Seq<char>| !expected_files@.contains(path);
    let ghost below = |path: Seq<char>| join_path(download_path@, path);
    let mut extra: Vec<String> = Vec::new();
    match scan {
        FolderScan::Failed(reason) => Err(reason.clone()),
        FolderScan::Absent => {
            proof {
                reveal(Seq::filter);
                assert(extra.deep_view() == Seq::<Seq<char>>::empty().filter(unexpected).map_values(
                    below,
                ));
            }
            Ok(extra)
        },
        FolderScan::Files(files) => {
            let index = expected_files.index();
            let mut i: usize = 0;
            proof {
                reveal(Seq::filter);
                assert(extra.deep_view() == files.deep_view().take(0).filter(unexpected).map_values(
                    below,
                ));
            }
            while i < files.len()
                invariant
                    i <= files.len(),
                    index@ == expected_files@,
                    unexpected == |path: Seq<char>| !expected_files@.contains(path),
                    below == |path: Seq<char>| join_path(download_path@, path),
                    extra.deep_view() == files.deep_view().take(i as int).filter(
                        unexpected,
                    ).map_values(below),
                decreases files.len() - i,
            {
                let ghost before = extra.deep_view();
                let ghost taken = files.deep_view().take(i as int);
                proof {
                    assert(files.deep_view().take(i + 1) == taken.push(files[i as int]@));
                    taken.lemma_filter_push(files[i as int]@, unexpected);
                }
                if !index.contains(files[i].as_str()) {
                    let path = path_below(download_path, &files[i]);
                    extra.push(path);
                    proof {
                        assert(extra.deep_view() == before.push(below(files[i as int]@)));
                        assert(taken.filter(unexpected).push(files[i as int]@).map_values(below)
                            == taken.filter(unexpected).map_values(below).push(
                            below(files[i as int]@),
                        ));
                    }
                }
                i = i + 1;
            }
            proof {
                assert(files.deep_view().take(files.len() as int) == files.deep_view());
            }
            Ok(extra)
        },
    }
}

/// Lists the files that the torrent expects and the folder lacks.
///
/// In an absent folder every expected file is missing. A failed walk is
/// passed on.
pub fn find_missing_files(scan: &FolderScan, expected_files: &PathSet) -> (result: Result<
    PathSet,
    String,
>)
    ensures
        match scan@ {
            FolderScanView::Failed(reason) => result matches Err(e) && e@ == reason,
            found => result matches Ok(missing) && missing@ == missing_files(
                found.files(),
                expected_files@,
            ),
        },
{
    match scan {
        FolderScan::Failed(reason) => Err(reason.clone()),
        FolderScan::Absent => {
            let missing = expected_files.clone();
            proof {
                assert(Seq::<Seq<char>>::empty().to_set() =~= Set::<Seq<char>>::empty());
                assert(missing@ =~= missing_files(Seq::empty(), expected_files@));
            }
            Ok(missing)
        },
        FolderScan::Files(files) => {
            let mut present = StringHashSet::new();
            let mut i: usize = 0;
            proof {
                assert(files.deep_view().take(0).to_set() =~= Set::<Seq<char>>::empty());
            }
            while i < files.len()
                invariant
                    i <= files.len(),
                    present@ == files.deep_view().take(i as int).to_set(),
                decreases files.len() - i,
            {
                let ghost taken = files.deep_view().take(i as int);
                proof {
                    assert(files.deep_view().take(i + 1) == taken.push(files[i as int]@));
                    taken.lemma_push_to_set_commute(files[i as int]@);
                }
                present.insert(files[i].clone());
                i = i + 1;
            }
            proof {
                assert(files.deep_view().take(files.len() as int) == files.deep_view());
            }
            let expected = expected_files.paths();
            let mut missing: Vec<String> = Vec::new();
            let mut j: usize = 0;
            proof {
                assert(missing.deep_view().to_set() =~= expected.deep_view().take(
                    0,
                ).to_set().difference(present@));
            }
            while j < expected.len()
                invariant
                    j <= expected.len(),
                    expected.deep_view().no_duplicates(),
                    missing.deep_view().no_duplicates(),
                    missing.deep_view().to_set() == expected.deep_view().take(
                        j as int,
                    ).to_set().difference(present@),
                decreases expected.len() - j,
            {
                let ghost before = missing.deep_view();
                let ghost taken = expected.deep_view().take(j as int);
                let ghost path = expected[j as int]@;
                proof {
                    assert(expected.deep_view().take(j + 1) == taken.push(path));
                    taken.lemma_push_to_set_commute(path);
                    assert(!taken.contains(path)) by {
                        assert forall|m: int| 0 <= m < taken.len() implies taken[m] != path by {
                            assert(taken[m] == expected.deep_view()[m]);
                            assert(path == expected.deep_view()[j as int]);
                        }
                    }
                }
                if !present.contains(expected[j].as_str()) {
                    missing.push(expected[j].clone());
                    proof {
                        assert(missing.deep_view() == before.push(path));
                        before.lemma_push_to_set_commute(path);
                        assert(!before.contains(path)) by {
                            assert(!before.to_set().contains(path));
                        }
                        assert(before.push(path).to_set() =~= taken.push(path).to_set().difference(
                            present@,
                        ));
                    }
                } else {
                    proof {
                        assert(before.to_set() =~= taken.push(path).to_set().difference(present@));
                    }
                }
                j = j + 1;
            }
            proof {
                assert(expected.deep_view().take(expected.len() as int) == expected.deep_view());
            }
            let missing = PathSet::from_distinct(missing);
            Ok(missing)
        },
    }
}

/// The paths that the torrent expects in its folder.
///
/// Each included file contributes its components joined into one relative
/// path; a file that is not included contributes nothing. A torrent of a
/// single file is treated like any other.
pub fn get_expected_files_from_details(details: &TorrentDetailsResponse) -> (expected: PathSet)
    ensures
        expected@ == expected_files(details@.files),
{
    let ghost included = |file: TorrentFileView| file.included;
    let ghost path_of = |file: TorrentFileView| join_components(file.components);
    match &details.files {
        None => PathSet::new(),
        Some(files) => {
            let mut paths: Vec<String> = Vec::new();
            let mut i: usize = 0;
            proof {
                reveal(Seq::filter);
                assert(paths.deep_view() == files.deep_view().take(0).filter(included).map_values(
                    path_of,
                ));
            }
            while i < files.len()
                invariant
                    i <= files.len(),
                    included == |file: TorrentFileView| file.included,
                    path_of == |file: TorrentFileView| join_components(file.components),
                    paths.deep_view() == files.deep_view().take(i as int).filter(
                        included,
                    ).map_values(path_of),
                decreases files.len() - i,
            {
                let ghost before = paths.deep_view();
                let ghost taken = files.deep_view().take(i as int);
                proof {
                    assert(files.deep_view().take(i + 1) == taken.push(files[i as int]@));
                    taken.lemma_filter_push(files[i as int]@, included);
                }
                if files[i].included {
                    let path = path_from_components(&files[i].components);
                    paths.push(path);
                    proof {
                        assert(paths.deep_view() == before.push(path_of(files[i as int]@)));
                        assert(taken.filter(included).push(files[i as int]@).map_values(path_of)
                            == taken.filter(included).map_values(path_of).push(
                            path_of(files[i as int]@),
                        ));
                    }
                }
                i = i + 1;
            }
            proof {
                assert(files.deep_view().take(files.len() as int) == files.deep_view());
            }
            PathSet::from_paths(paths)
        },
    }
}

/// A path is expected exactly if some included file of the list has it.
pub proof fn lemma_expected_files_are_the_included(files: Seq<TorrentFileView>, path: Seq<char>)
    ensures
        expected_files(Some(files)).contains(path) <==> exists|i: int|
            0 <= i < files.len() && #[trigger] files[i].included && join_components(
                files[i].components,
            ) == path,
{
    let included = |file: TorrentFileView| file.included;
    let path_of = |file: TorrentFileView| join_components(file.components);
    let kept = files.filter(included);
    broadcast use vstd::seq_lib::group_filter_ensures;

    if expected_files(Some(files)).contains(path) {
        let k = choose|k: int| 0 <= k < kept.len() && kept.map_values(path_of)[k] == path;
        assert(kept.contains(kept[k]));
        files.lemma_filter_contains_rev(included, kept[k]);
        assert(files.contains(kept[k]));
        let i = choose|i: int| 0 <= i < files.len() && files[i] == kept[k];
        assert(files[i].included && join_components(files[i].components) == path);
    }
    if exists|i: int|
        0 <= i < files.len() && #[trigger] files[i].included && join_components(
            files[i].components,
        ) == path {
        let i = choose|i: int|
            0 <= i < files.len() && #[trigger] files[i].included && join_components(
                files[i].components,
            ) == path;
        assert(kept.contains(files[i]));
        let k = choose|k: int| 0 <= k < kept.len() && kept[k] == files[i];
        assert(kept.map_values(path_of)[k] == path);
    }
}

/// A folder that holds exactly the expected files has neither extra nor
/// missing files.
pub proof fn lemma_matching_folder_is_clean(
    root: Seq<char>,
    files: Seq<Seq<char>>,
    expected: Set<Seq<char>>,
)
    requires
        files.to_set() == expected,
    ensures
        extra_files(root, files, expected) == Seq::<Seq<char>>::empty(),
        missing_files(files, expected) == Set::<Seq<char>>::empty(),
{
    let unexpected = |path: Seq<char>| !expected.contains(path);
    broadcast use vstd::seq_lib::group_filter_ensures;

    let kept = files.filter(unexpected);
    if kept.len() > 0 {
        assert(unexpected(kept[0]));
        assert(kept.contains(kept[0]));
        files.lemma_filter_contains_rev(unexpected, kept[0]);
        assert(files.contains(kept[0]));
        assert(files.to_set().contains(kept[0]));
    }
    assert(extra_files(root, files, expected) =~= Seq::<Seq<char>>::empty());
    assert(missing_files(files, expected) =~= Set::<Seq<char>>::empty());
}

/// In a folder that does not exist nothing is extra and every expected file
/// is missing.
pub proof fn lemma_absent_folder(root: Seq<char>, expected: Set<Seq<char>>)
    ensures
        extra_files(root, FolderScanView::Absent.files(), expected) == Seq::<Seq<char>>::empty(),
        missing_files(FolderScanView::Absent.files(), expected) == expected,
{
    reveal(Seq::filter);
    assert(Seq::<Seq<char>>::empty().to_set() =~= Set::<Seq<char>>::empty());
    assert(extra_files(root, Seq::empty(), expected) =~= Seq::<Seq<char>>::empty());
    assert(missing_files(Seq::empty(), expected) =~= expected);
}

/// What is reported as extra: exactly the listed files that the torrent does
/// not expect, each below the root.
pub proof fn lemma_extra_files_are_the_unexpected(
    root: Seq<char>,
    files: Seq<Seq<char>>,
    expected: Set<Seq<char>>,
    path: Seq<char>,
)
    ensures
        extra_files(root, files, expected).contains(path) <==> exists|i: int|
            0 <= i < files.len() && !expected.contains(#[trigger] files[i]) && join_path(
                root,
                files[i],
            ) == path,
{
    let unexpected = |path: Seq<char>| !expected.contains(path);
    let below = |path: Seq<char>| join_path(root, path);
    let kept = files.filter(unexpected);
    broadcast use vstd::seq_lib::group_filter_ensures;

    if extra_files(root, files, expected).contains(path) {
        let k = choose|k: int| 0 <= k < kept.len() && kept.map_values(below)[k] == path;
        assert(kept.contains(kept[k]));
        files.lemma_filter_contains_rev(unexpected, kept[k]);
        assert(files.contains(kept[k]));
        let i = choose|i: int| 0 <= i < files.len() && files[i] == kept[k];
        assert(!expected.contains(files[i]) && join_path(root, files[i]) == path);
    }
    if exists|i: int|
        0 <= i < files.len() && !expected.contains(#[trigger] files[i]) && join_path(root, files[i])
            == path {
        let i = choose|i: int|
            0 <= i < files.len() && !expected.contains(#[trigger] files[i]) && join_path(
                root,
                files[i],
            ) == path;
        assert(unexpected(files[i]));
        assert(kept.contains(files[i]));
        let k = choose|k: int| 0 <= k < kept.len() && kept[k] == files[i];
        assert(kept.map_values(below)[k] == path);
    }
}

} // verus!
