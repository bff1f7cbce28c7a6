//! The track catalog: an immutable, index-stable list of playable files.
//!
//! Discovery itself (walking the directory tree) is filesystem work done
//! by the surrounding program; it hands every discovered file path in,
//! and the catalog keeps exactly those with the supported audio
//! extension, in discovery order, each paired with the display name shown
//! in the track list.

use vstd::prelude::*;

verus! {

/// The mathematical value of a track: its path and its display name.
pub ghost struct TrackView {
    pub path: Seq<char>,
    pub name: Seq<char>,
}

/// Whether `path` names a file with the supported audio extension: it
/// ends in `.mp3` with at least one character of file-name stem before
/// the dot (so a bare `.mp3` component, whose name starts with the only
/// dot, has no extension and does not qualify).
pub open spec fn is_mp3_path(path: Seq<char>) -> bool {
    &&& path.len() >= 5
    &&& path[path.len() - 4] == '.'
    &&& path[path.len() - 3] == 'm'
    &&& path[path.len() - 2] == 'p'
    &&& path[path.len() - 1] == '3'
    &&& path[path.len() - 5] != '/'
}

/// Index in `path` of the first character of its final component: just
/// after the last `'/'`, or 0 when there is no separator.
pub open spec fn name_start(path: Seq<char>) -> int
    decreases path.len(),
{
    if path.len() == 0 {
        0
    } else if path.last() == '/' {
        path.len() as int
    } else {
        name_start(path.drop_last())
    }
}

/// The display name of `path`: everything after the last `'/'`, or the
/// whole path when it has no separator.
pub open spec fn display_name(path: Seq<char>) -> Seq<char> {
    path.subrange(name_start(path), path.len() as int)
}

/// The tracks a discovered path list yields: each path with the supported
/// extension, in discovery order, paired with its display name.
pub open spec fn catalog_of(paths: Seq<Seq<char>>) -> Seq<TrackView>
    decreases paths.len(),
{
    if paths.len() == 0 {
        Seq::empty()
    } else {
        catalog_of(paths.drop_last()) + (if is_mp3_path(paths.last()) {
            seq![TrackView { path: paths.last(), name: display_name(paths.last()) }]
        } else {
            Seq::<TrackView>::empty()
        })
    }
}

/// Every catalog entry has the supported extension and carries the
/// display name derived from its own path.
pub proof fn lemma_catalog_entries(paths: Seq<Seq<char>>)
    ensures
        forall|j: int|
            0 <= j < catalog_of(paths).len() ==> {
                &&& is_mp3_path(#[trigger] catalog_of(paths)[j].path)
                &&& catalog_of(paths)[j].name == display_name(catalog_of(paths)[j].path)
            },
    decreases paths.len(),
{
    if paths.len() > 0 {
        lemma_catalog_entries(paths.drop_last());
        let prefix = catalog_of(paths.drop_last());
        let whole = catalog_of(paths);
        assert forall|j: int| 0 <= j < whole.len() implies {
            &&& is_mp3_path(whole[j].path)
            &&& whole[j].name == display_name(whole[j].path)
        } by {
            if j < prefix.len() {
                assert(whole[j] == prefix[j]);
            } else {
                assert(is_mp3_path(paths.last()));
                assert(whole[j] == TrackView {
                    path: paths.last(),
                    name: display_name(paths.last()),
                });
            }
        }
    }
}

/// An immutable reference to a playable file.
pub struct Track {
    /// The path handed back to the driver when the track is loaded.
    pub path: String,
    /// The name shown in the track list: the path's final component.
    pub name: String,
}

impl View for Track {
    type V = TrackView;

    open spec fn view(&self) -> TrackView {
        TrackView { path: self.path@, name: self.name@ }
    }
}

/// Checks the supported-extension predicate on a discovered path.
pub fn has_mp3_extension(path: &str) -> (r: bool)
    ensures
        r == is_mp3_path(path@),
{
    let n = path.unicode_len();
    if n < 5 {
        return false;
    }
    path.get_char(n - 4) == '.' && path.get_char(n - 3) == 'm' && path.get_char(n - 2) == 'p'
        && path.get_char(n - 1) == '3' && path.get_char(n - 5) != '/'
}

/// Derives the display name of a discovered path: its final component.
pub fn display_name_of(path: &str) -> (r: String)
    ensures
        r@ == display_name(path@),
{
    let n = path.unicode_len();
    let mut k = n;
    proof {
        assert(path@.take(n as int) =~= path@);
    }
    while k > 0 && path.get_char(k - 1) != '/'
        invariant
            k <= n,
            n == path@.len(),
            name_start(path@) == name_start(path@.take(k as int)),
        decreases k,
    {
        proof {
            assert(path@.take(k as int).drop_last() =~= path@.take(k - 1));
        }
        k = k - 1;
    }
    proof {
        if k > 0 {
            assert(name_start(path@.take(k as int)) == k);
        }
        assert(name_start(path@) == k);
        assert(path@.subrange(k as int, n as int) == display_name(path@));
    }
    let s = path.substring_char(k, n);
    String::from_str(s)
}

/// The catalog: the ordered, index-stable track list built once at
/// startup from the discovered paths and never mutated afterwards.
pub struct Catalog {
    tracks: Vec<Track>,
}

impl View for Catalog {
    type V = Seq<TrackView>;

    closed spec fn view(&self) -> Seq<TrackView> {
        self.tracks@.map_values(|t: Track| t@)
    }
}

impl Catalog {
    /// Builds the catalog from the discovered paths: keeps, in discovery
    /// order, exactly those with the supported extension, each paired
    /// with its display name.
    pub fn from_paths(paths: &Vec<String>) -> (c: Catalog)
        ensures
            c@ == catalog_of(paths@.map_values(|p: String| p@)),
    {
        let ghost all: Seq<Seq<char>> = paths@.map_values(|p: String| p@);
        let mut tracks: Vec<Track> = Vec::new();
        let mut i: usize = 0;
        while i < paths.len()
            invariant
                i <= paths.len(),
                all == paths@.map_values(|p: String| p@),
                all.len() == paths.len(),
                tracks@.map_values(|t: Track| t@) == catalog_of(all.take(i as int)),
            decreases paths.len() - i,
        {
            let ghost prefix = tracks@.map_values(|t: Track| t@);
            let p: &String = &paths[i];
            proof {
                assert(all[i as int] == p@);
                assert(all.take(i + 1).drop_last() =~= all.take(i as int));
                assert(all.take(i + 1).last() == all[i as int]);
            }
            if has_mp3_extension(p.as_str()) {
                let name = display_name_of(p.as_str());
                let track = Track { path: p.clone(), name };
                tracks.push(track);
                proof {
                    assert(tracks@.map_values(|t: Track| t@) =~= prefix.push(
                        TrackView { path: p@, name: display_name(p@) },
                    ));
                    assert(tracks@.map_values(|t: Track| t@) =~= catalog_of(all.take(i + 1)));
                }
            } else {
                proof {
                    assert(tracks@.map_values(|t: Track| t@) =~= catalog_of(all.take(i + 1)));
                }
            }
            i = i + 1;
        }
        proof {
            assert(all.take(i as int) =~= all);
        }
        Catalog { tracks }
    }

    /// Number of tracks in the catalog.
    pub fn len(&self) -> (n: usize)
        ensures
            n == self@.len(),
    {
        self.tracks.len()
    }

    /// The path of track `index`.
    pub fn path_at(&self, index: usize) -> (p: &String)
        requires
            index < self@.len(),
        ensures
            p@ == self@[index as int].path,
    {
        &self.tracks[index].path
    }

    /// The display name of track `index`.
    pub fn name_at(&self, index: usize) -> (n: &String)
        requires
            index < self@.len(),
        ensures
            n@ == self@[index as int].name,
    {
        &self.tracks[index].name
    }
}

} // verus!
