//! The top-level states of the game and the list of playable maps.

use vstd::prelude::*;
use vstd::utf8::encode_utf8;

use crate::text::{ends_with, remove_all, same_text, without_all};

verus! {

/// The screen the game is on.
#[derive(Debug, Clone, Copy, PartialEq, Eq, Hash, Structural)]
pub enum State {
    Loading,
    MainMenu,
    InGame,
    Summary,
    MapHub,
    Manual,
}

impl Default for State {
    fn default() -> (r: Self)
        ensures
            r == State::Loading,
    {
        State::Loading
    }
}

/// What is shown over the map while in game.
#[derive(Debug, Clone, Copy, PartialEq, Eq, Hash, Structural)]
pub enum GameState {
    /// Nothing over the map: the player is playing.
    NoGameState,
    Truck,
    Pause,
    NpcHelp,
    Manual,
}

impl Default for GameState {
    fn default() -> (r: Self)
        ensures
            r == GameState::NoGameState,
    {
        GameState::NoGameState
    }
}

/// The state that loading leads to once the assets are requested.
pub fn finish_loading() -> (r: State)
    ensures
        r == State::MainMenu,
{
    State::MainMenu
}

/// A playable map: its display name and the path of its file.
#[derive(Debug, Clone)]
pub struct MapInfo {
    pub name: String,
    pub path: String,
}

/// The playable maps, in the order they are offered.
#[derive(Debug, Clone)]
pub struct Maps {
    pub maps: Vec<MapInfo>,
}

impl Default for Maps {
    fn default() -> (r: Self)
        ensures
            r.maps@.len() == 0,
    {
        Maps { maps: Vec::new() }
    }
}

/// The class a map file must declare to be playable.
pub open spec fn map_class() -> Seq<char> {
    "UnhaunterMap1"@
}

/// The folder the maps are read from.
pub open spec fn maps_folder() -> Seq<char> {
    "assets/maps/"@
}

/// The name a map without a display name gets: `Unnamed (...)` around its
/// path with the maps folder taken out.
pub open spec fn unnamed_map(path: Seq<char>) -> Seq<char> {
    "Unnamed ("@ + without_all(path, maps_folder()) + ")"@
}

/// What a map file declares: its class and its display name.
#[derive(Debug, Clone)]
pub struct MapHeader {
    pub classname: Option<String>,
    pub display_name: Option<String>,
}

/// The name under which the file at `path` with header `header` is offered
/// (`None` for the header: the file could not be read): only files of the
/// map class are offered, under their display name or else `Unnamed (...)`.
pub open spec fn offered_name(path: Seq<char>, header: Option<MapHeader>) -> Option<Seq<char>> {
    match header {
        Some(h) => match h.classname {
            Some(c) => if c@ == map_class() {
                Some(
                    match h.display_name {
                        Some(d) => d@,
                        None => unnamed_map(path),
                    },
                )
            } else {
                None
            },
            None => None,
        },
        None => None,
    }
}

/// `added` lists, in order, the maps offered for the files of `found`.
pub open spec fn offered_maps(found: Seq<(String, Option<MapHeader>)>, added: Seq<MapInfo>) -> bool
    decreases found.len(),
{
    if found.len() == 0 {
        added.len() == 0
    } else {
        let f = found.last();
        match offered_name(f.0@, f.1) {
            Some(n) => added.len() > 0 && added.last().path == f.0 && added.last().name@ == n
                && offered_maps(found.drop_last(), added.drop_last()),
            None => offered_maps(found.drop_last(), added),
        }
    }
}

/// Returns the map offered for the file at `path` with header `header`, if
/// it is offered.
pub fn map_from_header(path: String, header: Option<MapHeader>) -> (r: Option<MapInfo>)
    ensures
        match offered_name(path@, header) {
            Some(n) => r matches Some(m) && m.path == path && m.name@ == n,
            None => r is None,
        },
{
    let h = match header {
        Some(h) => h,
        None => return None,
    };
    let c = match h.classname {
        Some(c) => c,
        None => return None,
    };
    if !same_text(c.as_str(), "UnhaunterMap1") {
        return None;
    }
    let name = match h.display_name {
        Some(d) => d,
        None => {
            let inner = remove_all(path.as_str(), "assets/maps/");
            let r = String::from_str("Unnamed (").concat(inner.as_str()).concat(")");
            assert(r@ =~= unnamed_map(path@));
            r
        },
    };
    Some(MapInfo { name, path })
}

fn clone_header(h: &Option<MapHeader>) -> (r: Option<MapHeader>)
    ensures
        r == *h,
{
    match h {
        Some(h) => Some(
            MapHeader {
                classname: match &h.classname {
                    Some(c) => Some(c.clone()),
                    None => None,
                },
                display_name: match &h.display_name {
                    Some(d) => Some(d.clone()),
                    None => None,
                },
            },
        ),
        None => None,
    }
}

/// Adds to `maps`, in order, the map offered for each file found, given its
/// path and header; files that are not offered are left out.
pub fn init_maps(maps: &mut Maps, found: &Vec<(String, Option<MapHeader>)>)
    ensures
        final(maps).maps@.len() >= old(maps).maps@.len(),
        final(maps).maps@.subrange(0, old(maps).maps@.len() as int) == old(maps).maps@,
        offered_maps(
            found@,
            final(maps).maps@.subrange(old(maps).maps@.len() as int, final(maps).maps@.len() as int),
        ),
{
    let ghost start = maps.maps@;
    let mut i: usize = 0;
    assert(maps.maps@.subrange(start.len() as int, maps.maps@.len() as int) =~= Seq::<MapInfo>::empty());
    while i < found.len()
        invariant
            i <= found@.len(),
            maps.maps@.len() >= start.len(),
            maps.maps@.subrange(0, start.len() as int) == start,
            offered_maps(
                found@.subrange(0, i as int),
                maps.maps@.subrange(start.len() as int, maps.maps@.len() as int),
            ),
        decreases found@.len() - i,
    {
        let ghost before = maps.maps@;
        let ghost next = found@.subrange(0, i as int + 1);
        assert(next.drop_last() =~= found@.subrange(0, i as int));
        assert(next.last() == found@[i as int]);
        let path = found[i].0.clone();
        let header = clone_header(&found[i].1);
        match map_from_header(path, header) {
            Some(m) => {
                maps.maps.push(m);
                assert(maps.maps@.subrange(0, start.len() as int) =~= before.subrange(
                    0,
                    start.len() as int,
                ));
                assert(maps.maps@.subrange(start.len() as int, maps.maps@.len() as int).drop_last()
                    =~= before.subrange(start.len() as int, before.len() as int));
            },
            None => {},
        }
        i = i + 1;
    }
    assert(found@.subrange(0, found@.len() as int) =~= found@);
}

/// Whether glob `pattern` matches the whole of `path` with the default
/// options; `None` when `pattern` is no valid glob.
pub uninterp spec fn glob_match(pattern: Seq<char>, path: Seq<char>) -> Option<bool>;

/// A pattern made of `*` and then literal characters only: none of the
/// tail is a wildcard, a bracket or a path separator.
pub open spec fn is_star_suffix(pattern: Seq<char>) -> bool {
    pattern.len() >= 1 && pattern[0] == '*' && forall|i: int|
        1 <= i < pattern.len() ==> {
            let c = #[trigger] pattern[i];
            c != '*' && c != '?' && c != '[' && c != ']' && c != '/' && c != '\\'
        }
}

/// `glob::Pattern::new(pattern)` and then `matches(path)`. Claimed: the
/// outcome depends on `pattern` and `path` alone, and a pattern made of `*`
/// followed by literal characters is valid and matches exactly the paths
/// that end with those characters (with the default options `*` also
/// crosses separators).
#[verifier::external_body]
fn glob_matches(pattern: &str, path: &str) -> (r: Option<bool>)
    ensures
        r == glob_match(pattern@, path@),
        is_star_suffix(pattern@) ==> r == Some(ends_with(path@, pattern@.drop_first())),
{
    match glob::Pattern::new(pattern) {
        Ok(p) => Some(p.matches(path)),
        Err(_) => None,
    }
}

/// The extension of map files.
pub open spec fn map_suffix() -> Seq<char> {
    ".tmx"@
}

/// Whether an entry found under the maps folder is a map file: a file whose
/// path matches `*.tmx`.
pub fn is_map_file(path: &str, is_file: bool) -> (r: bool)
    ensures
        r == (is_file && ends_with(path@, map_suffix())),
{
    let pattern = "*.tmx";
    proof {
        reveal_strlit("*.tmx");
        reveal_strlit(".tmx");
        assert(pattern@.drop_first() =~= map_suffix());
    }
    if !is_file {
        return false;
    }
    match glob_matches(pattern, path) {
        Some(m) => m,
        None => false,
    }
}

/// The paths, in the order given, of the entries that are map files.
pub open spec fn map_files(entries: Seq<(String, bool)>) -> Seq<String>
    decreases entries.len(),
{
    if entries.len() == 0 {
        Seq::empty()
    } else {
        let rest = map_files(entries.drop_last());
        let e = entries.last();
        if e.1 && ends_with(e.0@, map_suffix()) {
            rest.push(e.0)
        } else {
            rest
        }
    }
}

/// Whether the bytes `a` come no later than the bytes `b` in lexicographic
/// order, comparing from position `i` on: the first differing byte decides,
/// and a sequence that runs out first comes first.
pub open spec fn bytes_le_from(a: Seq<u8>, b: Seq<u8>, i: int) -> bool
    decreases a.len() - i,
{
    if i >= a.len() {
        true
    } else if i >= b.len() {
        false
    } else if a[i] < b[i] {
        true
    } else if a[i] > b[i] {
        false
    } else {
        bytes_le_from(a, b, i + 1)
    }
}

/// The order of strings: lexicographic on their UTF-8 bytes.
pub open spec fn text_le(a: Seq<char>, b: Seq<char>) -> bool {
    bytes_le_from(encode_utf8(a), encode_utf8(b), 0)
}

/// Every path of `s` comes no later than the paths after it.
pub open spec fn sorted_paths(s: Seq<String>) -> bool {
    forall|i: int, j: int| 0 <= i < j < s.len() ==> text_le(#[trigger] s[i]@, #[trigger] s[j]@)
}

proof fn lemma_bytes_le_total(a: Seq<u8>, b: Seq<u8>, i: int)
    requires
        0 <= i,
    ensures
        bytes_le_from(a, b, i) || bytes_le_from(b, a, i),
    decreases a.len() - i,
{
    if i < a.len() && i < b.len() && a[i] == b[i] {
        lemma_bytes_le_total(a, b, i + 1);
    }
}

proof fn lemma_bytes_le_trans(a: Seq<u8>, b: Seq<u8>, c: Seq<u8>, i: int)
    requires
        0 <= i,
        bytes_le_from(a, b, i),
        bytes_le_from(b, c, i),
    ensures
        bytes_le_from(a, c, i),
    decreases a.len() - i,
{
    if i < a.len() && i < b.len() && i < c.len() && a[i] == b[i] && b[i] == c[i] {
        lemma_bytes_le_trans(a, b, c, i + 1);
    }
}

/// Whether `a` comes no later than `b`: compares their UTF-8 bytes, as the
/// standard order of strings does.
pub fn text_le_exec(a: &str, b: &str) -> (r: bool)
    ensures
        r == text_le(a@, b@),
{
    let x = a.as_bytes();
    let y = b.as_bytes();
    let mut i: usize = 0;
    while i < x.len() && i < y.len() && x[i] == y[i]
        invariant
            x@ == encode_utf8(a@),
            y@ == encode_utf8(b@),
            i <= x@.len(),
            i <= y@.len(),
            bytes_le_from(x@, y@, 0) == bytes_le_from(x@, y@, i as int),
        decreases x@.len() - i,
    {
        i = i + 1;
    }
    if i == x.len() {
        true
    } else if i == y.len() {
        false
    } else {
        x[i] < y[i]
    }
}

proof fn lemma_insert_sorted(r: Seq<String>, pos: int, p: String)
    requires
        sorted_paths(r),
        0 <= pos <= r.len(),
        forall|k: int| 0 <= k < pos ==> text_le(#[trigger] r[k]@, p@),
        pos < r.len() ==> text_le(p@, r[pos]@),
    ensures
        sorted_paths(r.insert(pos, p)),
{
    let s = r.insert(pos, p);
    assert forall|i: int, j: int| 0 <= i < j < s.len() implies text_le(
        #[trigger] s[i]@,
        #[trigger] s[j]@,
    ) by {
        if j < pos {
            assert(s[i] == r[i] && s[j] == r[j]);
        } else if j == pos {
            assert(s[i] == r[i] && s[j] == p);
        } else if i < pos {
            assert(s[i] == r[i] && s[j] == r[j - 1]);
        } else if i == pos {
            assert(s[j] == r[j - 1]);
            if j - 1 > pos {
                assert(text_le(r[pos]@, r[j - 1]@));
                lemma_bytes_le_trans(
                    encode_utf8(p@),
                    encode_utf8(r[pos]@),
                    encode_utf8(r[j - 1]@),
                    0,
                );
            }
        } else {
            assert(s[i] == r[i - 1] && s[j] == r[j - 1]);
        }
    }
}

/// The paths in increasing order (the standard order of strings), each kept
/// as many times as given.
pub fn sort_paths(paths: Vec<String>) -> (r: Vec<String>)
    ensures
        r@.to_multiset() == paths@.to_multiset(),
        sorted_paths(r@),
{
    let mut r: Vec<String> = Vec::new();
    let mut i: usize = 0;
    assert(paths@.subrange(0, 0) =~= r@);
    while i < paths.len()
        invariant
            i <= paths@.len(),
            sorted_paths(r@),
            r@.to_multiset() == paths@.subrange(0, i as int).to_multiset(),
        decreases paths@.len() - i,
    {
        let p = paths[i].clone();
        let mut pos: usize = 0;
        while pos < r.len() && text_le_exec(r[pos].as_str(), p.as_str())
            invariant
                pos <= r@.len(),
                forall|k: int| 0 <= k < pos ==> text_le(#[trigger] r@[k]@, p@),
            decreases r@.len() - pos,
        {
            pos = pos + 1;
        }
        proof {
            if pos < r@.len() {
                lemma_bytes_le_total(encode_utf8(r@[pos as int]@), encode_utf8(p@), 0);
            }
            lemma_insert_sorted(r@, pos as int, p);
            vstd::seq_lib::to_multiset_insert(r@, pos as int, p);
            assert(paths@.subrange(0, i as int + 1) =~= paths@.subrange(0, i as int).push(p));
            vstd::seq_lib::to_multiset_build(paths@.subrange(0, i as int), p);
        }
        r.insert(pos, p);
        i = i + 1;
    }
    assert(paths@.subrange(0, paths@.len() as int) =~= paths@);
    r
}

/// The paths of the entries (path, is a file) found under the maps folder
/// that are map files, sorted in the standard order of strings.
pub fn find_tmx_files(entries: &Vec<(String, bool)>) -> (r: Vec<String>)
    ensures
        r@.to_multiset() == map_files(entries@).to_multiset(),
        sorted_paths(r@),
{
    let mut paths: Vec<String> = Vec::new();
    let mut i: usize = 0;
    while i < entries.len()
        invariant
            i <= entries@.len(),
            paths@ == map_files(entries@.subrange(0, i as int)),
        decreases entries@.len() - i,
    {
        let ghost next = entries@.subrange(0, i as int + 1);
        assert(next.drop_last() =~= entries@.subrange(0, i as int));
        if is_map_file(entries[i].0.as_str(), entries[i].1) {
            paths.push(entries[i].0.clone());
        }
        i = i + 1;
    }
    assert(entries@.subrange(0, entries@.len() as int) =~= entries@);
    sort_paths(paths)
}

} // verus!
