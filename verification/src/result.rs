//! Typed records the resolved operations hand back to callers.

use vstd::prelude::*;

verus! {

/// Filesystem metadata about a path inside a container, decoded from the
/// stat header of an archive-stat response.
#[allow(non_snake_case)]
#[derive(Debug, Clone, PartialEq, Eq)]
pub struct FileInfo {
    pub name: String,
    pub size: usize,
    pub mode: usize,
    pub mtime: String,
    pub linkTarget: String,
}

/// The mathematical shape of a [`FileInfo`].
#[allow(non_snake_case)]
pub struct FileInfoV {
    pub name: Seq<char>,
    pub size: usize,
    pub mode: usize,
    pub mtime: Seq<char>,
    pub linkTarget: Seq<char>,
}

impl View for FileInfo {
    type V = FileInfoV;

    open spec fn view(&self) -> FileInfoV {
        FileInfoV {
            name: self.name@,
            size: self.size,
            mode: self.mode,
            mtime: self.mtime@,
            linkTarget: self.linkTarget@,
        }
    }
}

/// One match from an image search.
#[derive(Debug, Clone, PartialEq, Eq)]
pub struct ImageMatch {
    pub description: String,
    pub is_official: bool,
    pub is_automated: bool,
    pub name: String,
    pub star_count: i64,
}

/// What an image prune reports: the tags untagged and the layers deleted.
#[derive(Debug, Clone, PartialEq, Eq)]
pub struct ImagesDeleted {
    pub untagged: String,
    pub deleted: String,
}

impl Default for ImagesDeleted {
    /// Both fields empty.
    fn default() -> (r: Self)
        ensures
            r.untagged@ == Seq::<char>::empty(),
            r.deleted@ == Seq::<char>::empty(),
    {
        ImagesDeleted { untagged: String::new(), deleted: String::new() }
    }
}

/// The positional zip of a title row against a process row, truncated to the
/// shorter of the two.
pub open spec fn zip_titles(
    titles: Seq<Seq<char>>,
    row: Seq<Seq<char>>,
) -> Seq<(Seq<char>, Seq<char>)> {
    Seq::new(
        if titles.len() <= row.len() {
            titles.len()
        } else {
            row.len()
        },
        |i: int| (titles[i], row[i]),
    )
}

/// One process of a container's process listing: each title of the listing
/// paired with the corresponding column of one row.
#[derive(Debug, Clone, PartialEq, Eq)]
pub struct Process {
    /// Title/value pairs, in the order the listing gave the titles.
    pub info: Vec<(String, String)>,
}

impl View for Process {
    type V = Seq<(Seq<char>, Seq<char>)>;

    open spec fn view(&self) -> Seq<(Seq<char>, Seq<char>)> {
        self.info.deep_view()
    }
}

impl Process {
    /// Zips one process row against the listing's titles, position by
    /// position; a row shorter or longer than the titles is truncated to the
    /// shorter of the two.
    pub fn new(titles: &[String], processes: &[String]) -> (r: Self)
        ensures
            r@ == zip_titles(titles.deep_view(), processes.deep_view()),
    {
        let n = if titles.len() <= processes.len() {
            titles.len()
        } else {
            processes.len()
        };
        let mut info: Vec<(String, String)> = Vec::new();
        let mut i: usize = 0;
        while i < n
            invariant
                n <= titles@.len(),
                n <= processes@.len(),
                i <= n,
                info.deep_view() =~= zip_titles(titles.deep_view(), processes.deep_view()).take(
                    i as int,
                ),
            decreases n - i,
        {
            let t = titles[i].clone();
            let p = processes[i].clone();
            assert(t@ == titles.deep_view()[i as int]);
            assert(p@ == processes.deep_view()[i as int]);
            let ghost prev = info.deep_view();
            info.push((t, p));
            proof {
                assert(info.deep_view() =~= prev.push((t@, p@)));
                assert(info.deep_view() =~= zip_titles(
                    titles.deep_view(),
                    processes.deep_view(),
                ).take(i + 1 as int));
            }
            i = i + 1;
        }
        proof {
            assert(zip_titles(titles.deep_view(), processes.deep_view()).take(n as int)
                =~= zip_titles(titles.deep_view(), processes.deep_view()));
        }
        Process { info }
    }
}

} // verus!
