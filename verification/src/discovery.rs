//! Session discovery: which directories are searched, which files there are read, and how
//! the sessions found are ordered.

use vstd::prelude::*;

use crate::config::SessionsConfig;
use crate::desktop::{desktop_file_session, parse_desktop_entry};
use crate::sessions::{Session, SessionType, SessionView};
use crate::text::{
    chars_contain, chars_end_with, chars_le, lemma_chars_le_refl, lemma_chars_le_total,
    lemma_chars_le_trans, str_contains, str_ends_with, str_lowercase,
    string_le, to_lowercase,
};

verus! {

/// A directory to look for session files in, and the type of the sessions found there.
#[derive(Debug, Clone)]
pub struct SessionDir {
    pub path: String,
    pub session_type: SessionType,
}

/// The type assumed for sessions in an extra directory: Wayland when its path mentions
/// "wayland", else X11.
pub open spec fn guessed_type(dir: Seq<char>) -> SessionType {
    if chars_contain(dir, "wayland"@) {
        SessionType::Wayland
    } else {
        SessionType::X11
    }
}

/// The directories searched for sessions, in order: the standard Wayland directory (when
/// Wayland sessions are shown), the standard X11 directory (when X11 sessions are shown),
/// then the extra directories.
pub open spec fn dirs_to_search(config: SessionsConfig) -> Seq<(Seq<char>, SessionType)> {
    let w: Seq<(Seq<char>, SessionType)> = if config.show_wayland {
        seq![("/usr/share/wayland-sessions"@, SessionType::Wayland)]
    } else {
        Seq::empty()
    };
    let x: Seq<(Seq<char>, SessionType)> = if config.show_x11 {
        seq![("/usr/share/xsessions"@, SessionType::X11)]
    } else {
        Seq::empty()
    };
    w + x + config.extra_dirs@.map_values(|d: String| (d@, guessed_type(d@)))
}

/// A directory as plain values.
pub open spec fn dir_view(d: SessionDir) -> (Seq<char>, SessionType) {
    (d.path@, d.session_type)
}

/// The directories searched for sessions under `config`.
pub fn session_dirs(config: &SessionsConfig) -> (res: Vec<SessionDir>)
    ensures
        res@.map_values(|d: SessionDir| dir_view(d)) == dirs_to_search(*config),
{
    let mut res: Vec<SessionDir> = Vec::new();
    if config.show_wayland {
        res.push(SessionDir { path: String::from_str("/usr/share/wayland-sessions"), session_type: SessionType::Wayland });
    }
    if config.show_x11 {
        res.push(SessionDir { path: String::from_str("/usr/share/xsessions"), session_type: SessionType::X11 });
    }
    let ghost head = res@.map_values(|d: SessionDir| dir_view(d));
    let ghost extra = config.extra_dirs@.map_values(|d: String| (d@, guessed_type(d@)));
    assert(head + extra.take(0) =~= head);
    let mut i: usize = 0;
    while i < config.extra_dirs.len()
        invariant
            i <= config.extra_dirs@.len(),
            extra == config.extra_dirs@.map_values(|d: String| (d@, guessed_type(d@))),
            res@.map_values(|d: SessionDir| dir_view(d)) == head + extra.take(i as int),
        decreases config.extra_dirs@.len() - i,
    {
        let dir = &config.extra_dirs[i];
        let session_type = if str_contains(dir.as_str(), "wayland") {
            SessionType::Wayland
        } else {
            SessionType::X11
        };
        let ghost before = res@;
        let entry = SessionDir { path: dir.clone(), session_type };
        assert(dir_view(entry) == extra[i as int]);
        res.push(entry);
        assert(res@ == before.push(entry));
        assert(res@.map_values(|d: SessionDir| dir_view(d)) =~= before.map_values(|d: SessionDir| dir_view(d)).push(dir_view(entry)));
        assert(extra.take(i + 1) =~= extra.take(i as int).push(extra[i as int]));
        assert(res@.map_values(|d: SessionDir| dir_view(d)) =~= head + extra.take(i + 1));
        i = i + 1;
    }
    assert(extra.take(i as int) =~= extra);
    assert(head =~= (if config.show_wayland {
        seq![("/usr/share/wayland-sessions"@, SessionType::Wayland)]
    } else {
        Seq::<(Seq<char>, SessionType)>::empty()
    }) + (if config.show_x11 {
        seq![("/usr/share/xsessions"@, SessionType::X11)]
    } else {
        Seq::<(Seq<char>, SessionType)>::empty()
    }));
    res
}

/// A file found in a session directory: its name, and its bytes when it could be read.
#[derive(Debug, Clone)]
pub struct SessionFile {
    pub file_name: String,
    pub contents: Option<Vec<u8>>,
}

/// What was found at a directory path: its files, or nothing when it does not exist or
/// could not be listed.
#[derive(Debug, Clone)]
pub struct DirListing {
    pub path: String,
    pub files: Option<Vec<SessionFile>>,
}

/// The files listed for `path`: those of the first listing of that path, none if there is
/// no such listing or it holds nothing.
pub open spec fn listed_files(listings: Seq<DirListing>, path: Seq<char>) -> Seq<SessionFile>
    decreases listings.len(),
{
    if listings.len() == 0 {
        Seq::empty()
    } else if listings[0].path@ == path {
        match listings[0].files {
            Some(f) => f@,
            None => Seq::empty(),
        }
    } else {
        listed_files(listings.drop_first(), path)
    }
}

/// Whether a file name has the extension `desktop`, as `Path::extension` reads it: the part
/// after the last `.` is `desktop` and the part before it is not empty.
pub open spec fn is_desktop_file_name(name: Seq<char>) -> bool {
    name.len() >= 9 && chars_end_with(name, ".desktop"@)
}

/// Whether a file name has the extension `desktop`.
pub fn is_desktop_file(name: &str) -> (res: bool)
    ensures
        res == is_desktop_file_name(name@),
{
    proof {
        reveal_strlit(".desktop");
    }
    name.unicode_len() >= 9 && str_ends_with(name, ".desktop")
}

/// The path of file `name` in directory `dir`, as `Path::join` forms it.
pub open spec fn path_join(dir: Seq<char>, name: Seq<char>) -> Seq<char> {
    if name.len() > 0 && name[0] == '/' {
        name
    } else if dir.len() == 0 {
        name
    } else if dir.last() == '/' {
        dir + name
    } else {
        dir + "/"@ + name
    }
}

/// The path of file `name` in directory `dir`.
pub fn join_path(dir: &str, name: &str) -> (res: String)
    ensures
        res@ == path_join(dir@, name@),
{
    proof {
        reveal_strlit("/");
    }
    let n = crate::text::chars_of(name);
    let d = crate::text::chars_of(dir);
    if n.len() > 0 && n[0] == '/' {
        String::from_str(name)
    } else if d.len() == 0 {
        String::from_str(name)
    } else if d[d.len() - 1] == '/' {
        String::from_str(dir).concat(name)
    } else {
        String::from_str(dir).concat("/").concat(name)
    }
}

/// The session that a file of a directory describes, if any: only readable `.desktop` files
/// that parse and describe a session count.
pub open spec fn file_session(dir: Seq<char>, t: SessionType, f: SessionFile) -> Option<SessionView> {
    if is_desktop_file_name(f.file_name@) && f.contents is Some {
        match desktop_file_session(path_join(dir, f.file_name@), f.contents->0@, t) {
            Ok(Some(v)) => Some(v),
            _ => None,
        }
    } else {
        None
    }
}

/// The sessions that the files of a directory describe, in the order of the files.
pub open spec fn dir_file_sessions(dir: Seq<char>, t: SessionType, files: Seq<SessionFile>) -> Seq<SessionView>
    decreases files.len(),
{
    if files.len() == 0 {
        Seq::empty()
    } else {
        let rest = dir_file_sessions(dir, t, files.drop_last());
        match file_session(dir, t, files.last()) {
            Some(v) => rest.push(v),
            None => rest,
        }
    }
}

/// The sessions found in the given directories, directory after directory.
pub open spec fn found_sessions(dirs: Seq<(Seq<char>, SessionType)>, listings: Seq<DirListing>) -> Seq<SessionView>
    decreases dirs.len(),
{
    if dirs.len() == 0 {
        Seq::empty()
    } else {
        let d = dirs.last();
        found_sessions(dirs.drop_last(), listings) + dir_file_sessions(d.0, d.1, listed_files(listings, d.0))
    }
}

/// The views of a list of sessions.
pub open spec fn views(s: Seq<Session>) -> Seq<SessionView> {
    s.map_values(|x: Session| x@)
}

/// Index of the first listing of `path`.
fn find_listing(listings: &Vec<DirListing>, path: &String) -> (res: Option<usize>)
    ensures
        match res {
            Some(i) => i < listings@.len() && listed_files(listings@, path@) == (match listings@[i as int].files {
                Some(f) => f@,
                None => Seq::<SessionFile>::empty(),
            }),
            None => listed_files(listings@, path@) == Seq::<SessionFile>::empty(),
        },
{
    let mut i: usize = 0;
    assert(listings@.skip(0) =~= listings@);
    while i < listings.len()
        invariant
            i <= listings@.len(),
            listed_files(listings@, path@) == listed_files(listings@.skip(i as int), path@),
        decreases listings@.len() - i,
    {
        assert(listings@.skip(i as int)[0] == listings@[i as int]);
        if listings[i].path == *path {
            return Some(i);
        }
        assert(listings@.skip(i as int).drop_first() =~= listings@.skip(i + 1));
        i = i + 1;
    }
    None
}

/// The sessions described by the files of one directory.
pub fn sessions_in_dir(dir: &SessionDir, files: &Vec<SessionFile>) -> (res: Vec<Session>)
    ensures
        views(res@) == dir_file_sessions(dir.path@, dir.session_type, files@),
{
    let mut res: Vec<Session> = Vec::new();
    let mut i: usize = 0;
    while i < files.len()
        invariant
            i <= files@.len(),
            views(res@) == dir_file_sessions(dir.path@, dir.session_type, files@.take(i as int)),
        decreases files@.len() - i,
    {
        let f = &files[i];
        assert(files@.take(i + 1).drop_last() =~= files@.take(i as int));
        if is_desktop_file(f.file_name.as_str()) {
            if let Some(contents) = &f.contents {
                let path = join_path(dir.path.as_str(), f.file_name.as_str());
                if let Ok(Some(session)) = parse_desktop_entry(path, contents.as_slice(), dir.session_type) {
                    let ghost before = views(res@);
                    res.push(session);
                    assert(views(res@) =~= before.push(session@));
                }
            }
        }
        i = i + 1;
    }
    assert(files@.take(i as int) =~= files@);
    res
}

/// The key sessions are ordered by: the lowercased name.
pub open spec fn sort_key(s: SessionView) -> Seq<char> {
    str_lowercase(s.name)
}

/// Inserts `x` into `s` after every element whose key is not greater than that of `x`
/// (found from the end).
pub open spec fn insert_by_key(s: Seq<SessionView>, x: SessionView) -> Seq<SessionView>
    decreases s.len(),
{
    if s.len() == 0 {
        seq![x]
    } else if chars_le(sort_key(s.last()), sort_key(x)) {
        s.push(x)
    } else {
        insert_by_key(s.drop_last(), x).push(s.last())
    }
}

/// The sessions stably sorted by lowercased name.
pub open spec fn sort_by_name(s: Seq<SessionView>) -> Seq<SessionView>
    decreases s.len(),
{
    if s.len() == 0 {
        Seq::empty()
    } else {
        insert_by_key(sort_by_name(s.drop_last()), s.last())
    }
}

/// The sessions with every session dropped whose name equals that of the last one kept.
pub open spec fn dedup_by_name(s: Seq<SessionView>) -> Seq<SessionView>
    decreases s.len(),
{
    if s.len() == 0 {
        Seq::empty()
    } else {
        let r = dedup_by_name(s.drop_last());
        if r.len() > 0 && r.last().name == s.last().name {
            r
        } else {
            r.push(s.last())
        }
    }
}

proof fn lemma_insert_by_key_at(s: Seq<SessionView>, x: SessionView, j: int)
    requires
        0 <= j <= s.len(),
        j == 0 || chars_le(sort_key(s[j - 1]), sort_key(x)),
        forall|k: int| j <= k < s.len() ==> !chars_le(#[trigger] sort_key(s[k]), sort_key(x)),
    ensures
        insert_by_key(s, x) == s.take(j) + seq![x] + s.skip(j),
    decreases s.len(),
{
    if s.len() == 0 {
        assert(s.take(j) + seq![x] + s.skip(j) =~= seq![x]);
    } else if j == s.len() {
        assert(s.take(j) + seq![x] + s.skip(j) =~= s.push(x));
    } else {
        let t = s.drop_last();
        assert(!chars_le(sort_key(s[s.len() - 1]), sort_key(x)));
        assert forall|k: int| j <= k < t.len() implies !chars_le(#[trigger] sort_key(t[k]), sort_key(x)) by {
            assert(t[k] == s[k]);
        }
        if j > 0 {
            assert(t[j - 1] == s[j - 1]);
        }
        lemma_insert_by_key_at(t, x, j);
        assert((t.take(j) + seq![x] + t.skip(j)).push(s.last()) =~= s.take(j) + seq![x] + s.skip(j));
    }
}

/// The position at which a session with key `key` goes in a list with keys `keys`.
fn insert_position(keys: &Vec<String>, key: &String) -> (j: usize)
    ensures
        j <= keys@.len(),
        j == 0 || chars_le(keys@[j - 1]@, key@),
        forall|k: int| j <= k < keys@.len() ==> !chars_le(#[trigger] keys@[k]@, key@),
{
    let mut j = keys.len();
    while j > 0
        invariant
            j <= keys@.len(),
            forall|k: int| j <= k < keys@.len() ==> !chars_le(#[trigger] keys@[k]@, key@),
        decreases j,
    {
        if string_le(&keys[j - 1], key) {
            return j;
        }
        j = j - 1;
    }
    j
}

/// Stably sorts sessions by lowercased name.
pub fn sort_sessions(found: &Vec<Session>) -> (res: Vec<Session>)
    ensures
        views(res@) == sort_by_name(views(found@)),
{
    let mut sorted: Vec<Session> = Vec::new();
    let mut keys: Vec<String> = Vec::new();
    let mut i: usize = 0;
    while i < found.len()
        invariant
            i <= found@.len(),
            keys@.len() == sorted@.len(),
            forall|k: int| 0 <= k < sorted@.len() ==> #[trigger] keys@[k]@ == sort_key(sorted@[k]@),
            views(sorted@) == sort_by_name(views(found@).take(i as int)),
        decreases found@.len() - i,
    {
        let x = found[i].clone();
        let key = to_lowercase(x.name.as_str());
        let j = insert_position(&keys, &key);
        let ghost before = views(sorted@);
        let ghost keys_before = keys@;
        proof {
            assert(views(found@).take(i + 1).drop_last() =~= views(found@).take(i as int));
            assert(views(found@).take(i + 1).last() == x@);
            assert forall|k: int| j <= k < before.len() implies !chars_le(#[trigger] sort_key(before[k]), sort_key(x@)) by {
                assert(keys@[k]@ == sort_key(sorted@[k]@));
            }
            if j > 0 {
                assert(keys@[j - 1]@ == sort_key(sorted@[j - 1]@));
            }
            lemma_insert_by_key_at(before, x@, j as int);
        }
        sorted.insert(j, x);
        keys.insert(j, key);
        proof {
            assert(views(sorted@) =~= before.take(j as int) + seq![x@] + before.skip(j as int));
            assert forall|k: int| 0 <= k < sorted@.len() implies #[trigger] keys@[k]@ == sort_key(sorted@[k]@) by {
                if k < j {
                } else if k == j {
                } else {
                    assert(keys@[k] == keys_before[k - 1]);
                    assert(sorted@[k]@ == before[k - 1]);
                }
            }
        }
        i = i + 1;
    }
    assert(views(found@).take(i as int) =~= views(found@));
    sorted
}

/// Drops every session whose name equals that of the last session kept.
pub fn dedup_sessions(sorted: &Vec<Session>) -> (res: Vec<Session>)
    ensures
        views(res@) == dedup_by_name(views(sorted@)),
{
    let mut res: Vec<Session> = Vec::new();
    let mut i: usize = 0;
    while i < sorted.len()
        invariant
            i <= sorted@.len(),
            views(res@) == dedup_by_name(views(sorted@).take(i as int)),
        decreases sorted@.len() - i,
    {
        assert(views(sorted@).take(i + 1).drop_last() =~= views(sorted@).take(i as int));
        let n = res.len();
        if n == 0 || res[n - 1].name != sorted[i].name {
            let ghost before = views(res@);
            res.push(sorted[i].clone());
            assert(views(res@) =~= before.push(sorted@[i as int]@));
        }
        i = i + 1;
    }
    assert(views(sorted@).take(i as int) =~= views(sorted@));
    res
}

/// The sessions that discovery yields: those found in the searched directories, sorted by
/// lowercased name, without repeated names.
pub open spec fn discovered(config: SessionsConfig, listings: Seq<DirListing>) -> Seq<SessionView> {
    dedup_by_name(sort_by_name(found_sessions(dirs_to_search(config), listings)))
}

/// Discover all available sessions, given what was found at the directory paths.
pub fn discover_sessions(config: &SessionsConfig, listings: &Vec<DirListing>) -> (res: Vec<Session>)
    ensures
        views(res@) == discovered(*config, listings@),
{
    let dirs = session_dirs(config);
    let ghost dv = dirs@.map_values(|d: SessionDir| dir_view(d));
    let mut found: Vec<Session> = Vec::new();
    let mut i: usize = 0;
    while i < dirs.len()
        invariant
            i <= dirs@.len(),
            dv == dirs@.map_values(|d: SessionDir| dir_view(d)),
            views(found@) == found_sessions(dv.take(i as int), listings@),
        decreases dirs@.len() - i,
    {
        let dir = &dirs[i];
        assert(dv.take(i + 1).drop_last() =~= dv.take(i as int));
        let ghost before = views(found@);
        match find_listing(listings, &dir.path) {
            Some(k) => {
                match &listings[k].files {
                    Some(files) => {
                        let mut more = sessions_in_dir(dir, files);
                        let ghost add = views(more@);
                        found.append(&mut more);
                        assert(views(found@) =~= before + add);
                    },
                    None => {
                        assert(before + Seq::<SessionView>::empty() =~= before);
                    },
                }
            },
            None => {
                assert(before + Seq::<SessionView>::empty() =~= before);
            },
        }
        i = i + 1;
    }
    assert(dv.take(i as int) =~= dv);
    let sorted = sort_sessions(&found);
    dedup_sessions(&sorted)
}

/// Whether the sessions are in order of their keys.
pub open spec fn sorted_by_key(s: Seq<SessionView>) -> bool {
    forall|i: int, j: int| 0 <= i < j < s.len() ==> chars_le(#[trigger] sort_key(s[i]), #[trigger] sort_key(s[j]))
}

proof fn lemma_insert_bounded(t: Seq<SessionView>, x: SessionView, k: Seq<char>)
    requires
        forall|i: int| 0 <= i < t.len() ==> chars_le(#[trigger] sort_key(t[i]), k),
        chars_le(sort_key(x), k),
    ensures
        forall|i: int| 0 <= i < insert_by_key(t, x).len() ==> chars_le(#[trigger] sort_key(insert_by_key(t, x)[i]), k),
        insert_by_key(t, x).len() == t.len() + 1,
    decreases t.len(),
{
    if t.len() > 0 && !chars_le(sort_key(t.last()), sort_key(x)) {
        let u = t.drop_last();
        assert forall|i: int| 0 <= i < u.len() implies chars_le(#[trigger] sort_key(u[i]), k) by {
            assert(u[i] == t[i]);
        }
        lemma_insert_bounded(u, x, k);
        let r = insert_by_key(u, x);
        assert forall|i: int| 0 <= i < insert_by_key(t, x).len() implies chars_le(#[trigger] sort_key(insert_by_key(t, x)[i]), k) by {
            if i < r.len() {
                assert(insert_by_key(t, x)[i] == r[i]);
            } else {
                assert(insert_by_key(t, x)[i] == t.last());
            }
        }
    }
}

proof fn lemma_insert_sorted(t: Seq<SessionView>, x: SessionView)
    requires
        sorted_by_key(t),
    ensures
        sorted_by_key(insert_by_key(t, x)),
    decreases t.len(),
{
    if t.len() == 0 {
    } else if chars_le(sort_key(t.last()), sort_key(x)) {
        let r = t.push(x);
        assert forall|i: int, j: int| 0 <= i < j < r.len() implies chars_le(#[trigger] sort_key(r[i]), #[trigger] sort_key(r[j])) by {
            if j < t.len() {
                assert(r[i] == t[i] && r[j] == t[j]);
            } else {
                assert(r[i] == t[i]);
                if i < t.len() - 1 {
                    lemma_chars_le_trans(sort_key(t[i]), sort_key(t.last()), sort_key(x));
                }
            }
        }
    } else {
        let u = t.drop_last();
        assert(sorted_by_key(u)) by {
            assert forall|i: int, j: int| 0 <= i < j < u.len() implies chars_le(#[trigger] sort_key(u[i]), #[trigger] sort_key(u[j])) by {
                assert(u[i] == t[i] && u[j] == t[j]);
            }
        }
        lemma_insert_sorted(u, x);
        let k = sort_key(t.last());
        lemma_chars_le_total(k, sort_key(x));
        assert forall|i: int| 0 <= i < u.len() implies chars_le(#[trigger] sort_key(u[i]), k) by {
            assert(u[i] == t[i]);
        }
        lemma_insert_bounded(u, x, k);
        let r0 = insert_by_key(u, x);
        let r = r0.push(t.last());
        assert forall|i: int, j: int| 0 <= i < j < r.len() implies chars_le(#[trigger] sort_key(r[i]), #[trigger] sort_key(r[j])) by {
            assert(r[i] == r0[i]);
            if j < r0.len() {
                assert(r[j] == r0[j]);
            }
        }
    }
}

proof fn lemma_insert_multiset(t: Seq<SessionView>, x: SessionView)
    ensures
        insert_by_key(t, x).to_multiset() == t.to_multiset().insert(x),
    decreases t.len(),
{
    broadcast use vstd::seq_lib::group_to_multiset_ensures;

    if t.len() == 0 {
        assert(seq![x] =~= Seq::<SessionView>::empty().push(x));
    } else if chars_le(sort_key(t.last()), sort_key(x)) {
    } else {
        let u = t.drop_last();
        lemma_insert_multiset(u, x);
        assert(u.push(t.last()) =~= t);
        assert(insert_by_key(t, x).to_multiset() =~= t.to_multiset().insert(x));
    }
}

/// Sorting by name yields the sessions it is given, in order of their lowercased names.
pub proof fn lemma_sort_by_name(s: Seq<SessionView>)
    ensures
        sorted_by_key(sort_by_name(s)),
        sort_by_name(s).to_multiset() == s.to_multiset(),
    decreases s.len(),
{
    broadcast use vstd::seq_lib::group_to_multiset_ensures;

    if s.len() > 0 {
        lemma_sort_by_name(s.drop_last());
        lemma_insert_sorted(sort_by_name(s.drop_last()), s.last());
        lemma_insert_multiset(sort_by_name(s.drop_last()), s.last());
        assert(s.drop_last().push(s.last()) =~= s);
    }
}

proof fn lemma_dedup_elements(s: Seq<SessionView>)
    ensures
        dedup_by_name(s).len() <= s.len(),
        forall|i: int| 0 <= i < dedup_by_name(s).len() ==> s.contains(#[trigger] dedup_by_name(s)[i]),
        forall|m: int| 0 <= m < s.len() ==> exists|i: int| 0 <= i < dedup_by_name(s).len()
            && (#[trigger] dedup_by_name(s)[i]).name == (#[trigger] s[m]).name,
        s.len() > 0 ==> dedup_by_name(s).len() > 0 && dedup_by_name(s).last().name == s.last().name,
    decreases s.len(),
{
    if s.len() > 0 {
        let u = s.drop_last();
        lemma_dedup_elements(u);
        let r = dedup_by_name(u);
        let d = dedup_by_name(s);
        assert forall|i: int| 0 <= i < d.len() implies s.contains(#[trigger] d[i]) by {
            if i < r.len() {
                assert(d[i] == r[i]);
                assert(u.contains(r[i]));
                let m = choose|m: int| 0 <= m < u.len() && u[m] == r[i];
                assert(s[m] == u[m]);
            } else {
                assert(d[i] == s.last());
                assert(s[s.len() - 1] == s.last());
            }
        }
        assert forall|m: int| 0 <= m < s.len() implies exists|i: int| 0 <= i < d.len()
            && (#[trigger] d[i]).name == (#[trigger] s[m]).name by {
            if m < u.len() {
                assert(s[m] == u[m]);
                let i = choose|i: int| 0 <= i < r.len() && (#[trigger] r[i]).name == u[m].name;
                assert(d[i] == r[i]);
            } else {
                assert(d[d.len() - 1].name == s[m].name);
            }
        }
    }
}

proof fn lemma_dedup_adjacent(s: Seq<SessionView>)
    ensures
        forall|i: int| 0 <= i < dedup_by_name(s).len() - 1 ==> (#[trigger] dedup_by_name(s)[i]).name != dedup_by_name(s)[i + 1].name,
    decreases s.len(),
{
    if s.len() > 0 {
        let u = s.drop_last();
        lemma_dedup_adjacent(u);
        let r = dedup_by_name(u);
        let d = dedup_by_name(s);
        assert forall|i: int| 0 <= i < d.len() - 1 implies (#[trigger] d[i]).name != d[i + 1].name by {
            assert(d[i] == r[i]);
            if i + 1 < r.len() {
                assert(d[i + 1] == r[i + 1]);
            }
        }
    }
}

proof fn lemma_dedup_sorted(s: Seq<SessionView>)
    requires
        sorted_by_key(s),
    ensures
        sorted_by_key(dedup_by_name(s)),
    decreases s.len(),
{
    if s.len() > 0 {
        let u = s.drop_last();
        assert(sorted_by_key(u)) by {
            assert forall|i: int, j: int| 0 <= i < j < u.len() implies chars_le(#[trigger] sort_key(u[i]), #[trigger] sort_key(u[j])) by {
                assert(u[i] == s[i] && u[j] == s[j]);
            }
        }
        lemma_dedup_sorted(u);
        lemma_dedup_elements(u);
        let r = dedup_by_name(u);
        let d = dedup_by_name(s);
        assert forall|i: int, j: int| 0 <= i < j < d.len() implies chars_le(#[trigger] sort_key(d[i]), #[trigger] sort_key(d[j])) by {
            assert(d[i] == r[i]);
            if j < r.len() {
                assert(d[j] == r[j]);
            } else {
                assert(u.contains(r[i]));
                let m = choose|m: int| 0 <= m < u.len() && u[m] == r[i];
                assert(s[m] == u[m]);
                assert(d[j] == s[s.len() - 1]);
            }
        }
    }
}

proof fn lemma_sort_dedup(f: Seq<SessionView>)
    ensures
        sorted_by_key(dedup_by_name(sort_by_name(f))),
        forall|i: int| 0 <= i < dedup_by_name(sort_by_name(f)).len() - 1
            ==> (#[trigger] dedup_by_name(sort_by_name(f))[i]).name != dedup_by_name(sort_by_name(f))[i + 1].name,
{
    let s = sort_by_name(f);
    lemma_sort_by_name(f);
    lemma_dedup_sorted(s);
    lemma_dedup_adjacent(s);
}

proof fn lemma_sort_dedup_m(f: Seq<SessionView>)
    ensures
        forall|i: int| 0 <= i < dedup_by_name(sort_by_name(f)).len()
            ==> f.contains(#[trigger] dedup_by_name(sort_by_name(f))[i]),
        forall|m: int| 0 <= m < f.len() ==> exists|i: int|
            0 <= i < dedup_by_name(sort_by_name(f)).len()
            && (#[trigger] dedup_by_name(sort_by_name(f))[i]).name == (#[trigger] f[m]).name,
{
    let s = sort_by_name(f);
    let d = dedup_by_name(s);
    lemma_sort_by_name(f);
    lemma_dedup_elements(s);
    lemma_sort_dedup_members(f, s, d);
}

proof fn lemma_sort_dedup_members(f: Seq<SessionView>, s: Seq<SessionView>, d: Seq<SessionView>)
    requires
        s.to_multiset() == f.to_multiset(),
        forall|i: int| 0 <= i < d.len() ==> s.contains(#[trigger] d[i]),
        forall|m: int| 0 <= m < s.len() ==> exists|i: int| 0 <= i < d.len()
            && (#[trigger] d[i]).name == (#[trigger] s[m]).name,
    ensures
        forall|i: int| 0 <= i < d.len() ==> f.contains(#[trigger] d[i]),
        forall|m: int| 0 <= m < f.len() ==> exists|i: int| 0 <= i < d.len()
            && (#[trigger] d[i]).name == (#[trigger] f[m]).name,
{
    assert forall|i: int| 0 <= i < d.len() implies f.contains(#[trigger] d[i]) by {
        vstd::seq_lib::to_multiset_contains(s, d[i]);
        vstd::seq_lib::to_multiset_contains(f, d[i]);
    }
    assert forall|m: int| 0 <= m < f.len() implies exists|i: int| 0 <= i < d.len()
        && (#[trigger] d[i]).name == (#[trigger] f[m]).name by {
        vstd::seq_lib::to_multiset_contains(s, f[m]);
        vstd::seq_lib::to_multiset_contains(f, f[m]);
        assert(f.contains(f[m]));
        let k = choose|k: int| 0 <= k < s.len() && s[k] == f[m];
        assert(s[k] == f[m]);
    }
}

/// Discovery yields its sessions in order of their lowercased names, never two neighbours
/// with the same name; each is a session found in the searched directories, and every name
/// found is among them.
pub proof fn lemma_discovered_order(config: SessionsConfig, listings: Seq<DirListing>)
    ensures
        sorted_by_key(discovered(config, listings)),
        forall|i: int| 0 <= i < discovered(config, listings).len() - 1
            ==> (#[trigger] discovered(config, listings)[i]).name != discovered(config, listings)[i + 1].name,
        forall|i: int| 0 <= i < discovered(config, listings).len()
            ==> found_sessions(dirs_to_search(config), listings).contains(#[trigger] discovered(config, listings)[i]),
        forall|m: int| 0 <= m < found_sessions(dirs_to_search(config), listings).len() ==> exists|i: int|
            0 <= i < discovered(config, listings).len()
            && (#[trigger] discovered(config, listings)[i]).name == (#[trigger] found_sessions(dirs_to_search(config), listings)[m]).name,
{
    let f = found_sessions(dirs_to_search(config), listings);
    lemma_sort_dedup(f);
    lemma_sort_dedup_m(f);
}

} // verus!
