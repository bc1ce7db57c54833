//! Expanding a project-skeleton archive into a plan.
//!
//! The archive's entries are read through trusted wrappers around the `zip`
//! crate; everything after that — dropping the archive's root folder,
//! keeping only this platform's `local.properties` variant, moving the
//! template package to the project's package, and substituting the template
//! tokens in text files — is verified logic over the entries' plain values,
//! and the resulting plan is pinned down by `spec_skeleton_plan`.

use std::io::Read;
use vstd::prelude::*;

use crate::step::Step;
use crate::strutil::{
    drop_prefix, ends_with, find_char, rfind_char, replace_all, spec_ends_with, spec_find_char,
    spec_replace, spec_rfind_char, spec_starts_with, starts_with, str_eq, take_prefix,
};

verus! {

/// One archive entry, as plain values: its sanitized path, whether it is a
/// directory, and its content.
#[derive(Debug, Clone, PartialEq)]
pub struct ZipEntry {
    pub name: String,
    pub is_dir: bool,
    pub data: Vec<u8>,
}

/// The entries of an opened archive: for each, the sanitized path, the
/// directory flag, and the decompressed content.
pub uninterp spec fn zip_contents(a: zip::ZipArchive<std::io::Cursor<Vec<u8>>>) -> Seq<
    (Seq<char>, bool, Seq<u8>),
>;

/// What the archive bytes hold: the entries an archive opened over them
/// has, or nothing when they are not an archive.
pub uninterp spec fn zip_parse(data: Seq<u8>) -> Option<Seq<(Seq<char>, bool, Seq<u8>)>>;

#[verifier::external_type_specification]
#[verifier::external_body]
#[verifier::reject_recursive_types(T)]
pub struct ExCursor<T>(std::io::Cursor<T>);

#[verifier::external_type_specification]
#[verifier::external_body]
#[verifier::reject_recursive_types(R)]
pub struct ExZipArchive<R>(zip::ZipArchive<R>);

/// Relies on `zip::ZipArchive::new` over an in-memory cursor: opens the
/// archive whose entries `zip_parse` names, or reports why the bytes are
/// not an archive. Opening reads the in-memory bytes alone, so whether it
/// succeeds is a function of them: it fails exactly when `zip_parse` names
/// nothing.
#[verifier::external_body]
fn zip_open(data: Vec<u8>) -> (r: Result<zip::ZipArchive<std::io::Cursor<Vec<u8>>>, String>)
    ensures
        match r {
            Ok(a) => zip_parse(data@) == Some(zip_contents(a)),
            Err(_) => zip_parse(data@) is None,
        },
{
    zip::ZipArchive::new(std::io::Cursor::new(data)).map_err(|e| e.to_string())
}

/// Relies on `zip::ZipArchive::len`: the number of entries.
#[verifier::external_body]
fn zip_len(a: &zip::ZipArchive<std::io::Cursor<Vec<u8>>>) -> (r: usize)
    ensures
        r == zip_contents(*a).len(),
{
    a.len()
}

/// Relies on `zip::ZipArchive::by_index` and `ZipFile`'s `mangled_name`,
/// `is_dir` and `read_to_end`: reads one entry as plain values. Reading
/// moves the archive's cursor but leaves its entries as they were.
#[verifier::external_body]
fn zip_entry_at(a: &mut zip::ZipArchive<std::io::Cursor<Vec<u8>>>, i: usize) -> (r: Result<
    ZipEntry,
    String,
>)
    requires
        i < zip_contents(*old(a)).len(),
    ensures
        zip_contents(*final(a)) == zip_contents(*old(a)),
        match r {
            Ok(e) => zip_contents(*old(a))[i as int] == (e.name@, e.is_dir, e.data@),
            Err(_) => true,
        },
{
    let mut f = match a.by_index(i) {
        Ok(f) => f,
        Err(e) => return Err(e.to_string()),
    };
    let name = f.mangled_name().to_string_lossy().into_owned();
    let is_dir = f.is_dir();
    let mut data = Vec::new();
    if let Err(e) = f.read_to_end(&mut data) {
        return Err(e.to_string());
    }
    Ok(ZipEntry { name, is_dir, data })
}

/// The text the bytes decode to as UTF-8, when they are valid UTF-8; the
/// result depends on the bytes alone.
pub uninterp spec fn utf8_decode(bytes: Seq<u8>) -> Option<Seq<char>>;

/// Relies on `String::from_utf8`: decodes the bytes as UTF-8 text.
#[verifier::external_body]
fn utf8_to_string(bytes: Vec<u8>) -> (r: Option<String>)
    ensures
        match r {
            Some(t) => utf8_decode(bytes@) == Some(t@),
            None => utf8_decode(bytes@) is None,
        },
{
    String::from_utf8(bytes).ok()
}

/// The non-empty `/`-separated segments of an archive entry path.
pub open spec fn spec_segments(s: Seq<char>) -> Seq<Seq<char>>
    decreases s.len(),
{
    if s.len() == 0 {
        Seq::empty()
    } else {
        match spec_find_char(s, '/') {
            Some(i) => if 0 <= i < s.len() {
                if i == 0 {
                    spec_segments(s.skip(1))
                } else {
                    seq![s.take(i)] + spec_segments(s.skip(i + 1))
                }
            } else {
                seq![s]
            },
            None => seq![s],
        }
    }
}

/// Segments joined back with single slashes.
pub open spec fn spec_join_slash(parts: Seq<Seq<char>>) -> Seq<char>
    decreases parts.len(),
{
    if parts.len() == 0 {
        Seq::empty()
    } else if parts.len() == 1 {
        parts[0]
    } else {
        spec_join_slash(parts.drop_last()) + "/"@ + parts.last()
    }
}

/// Split a path into its non-empty `/`-separated segments.
pub fn segments(s: &str) -> (r: Vec<String>)
    ensures
        r@.map_values(|p: String| p@) == spec_segments(s@),
{
    let mut out: Vec<String> = Vec::new();
    let mut rest = String::from_str(s);
    proof {
        assert(out@.map_values(|p: String| p@) + spec_segments(rest@) =~= spec_segments(s@));
    }
    while rest.as_str().unicode_len() > 0
        invariant
            out@.map_values(|p: String| p@) + spec_segments(rest@) == spec_segments(s@),
        decreases rest@.len(),
    {
        match find_char(rest.as_str(), '/') {
            Some(i) => {
                let ghost prev = out@.map_values(|p: String| p@);
                if i > 0 {
                    let seg = take_prefix(rest.as_str(), i);
                    proof {
                        assert((out@.push(seg)).map_values(|p: String| p@) =~= prev.push(seg@));
                    }
                    out.push(seg);
                }
                let new_rest = drop_prefix(rest.as_str(), i + 1);
                proof {
                    if i > 0 {
                        assert(prev.push(rest@.take(i as int)) + spec_segments(new_rest@) =~= prev
                            + spec_segments(rest@));
                    } else {
                        assert(prev + spec_segments(new_rest@) =~= prev + spec_segments(rest@));
                    }
                }
                rest = new_rest;
            },
            None => {
                let ghost prev = out@.map_values(|p: String| p@);
                proof {
                    assert(spec_segments(rest@) =~= seq![rest@]);
                    assert((out@.push(rest)).map_values(|p: String| p@) =~= prev.push(rest@));
                    assert(prev.push(rest@) + spec_segments(Seq::<char>::empty()) =~= prev
                        + spec_segments(rest@));
                }
                out.push(rest);
                rest = String::new();
                proof {
                    assert(rest@ =~= Seq::<char>::empty());
                }
            },
        }
    }
    proof {
        assert(spec_segments(rest@) =~= Seq::<Seq<char>>::empty());
        assert(out@.map_values(|p: String| p@) =~= out@.map_values(|p: String| p@)
            + spec_segments(rest@));
    }
    out
}

/// Join segments with single slashes.
pub fn join_slash(parts: &Vec<String>) -> (r: String)
    ensures
        r@ == spec_join_slash(parts@.map_values(|p: String| p@)),
{
    let mut out = String::new();
    let mut i: usize = 0;
    while i < parts.len()
        invariant
            i <= parts.len(),
            out@ == spec_join_slash(parts@.subrange(0, i as int).map_values(|p: String| p@)),
        decreases parts.len() - i,
    {
        if i > 0 {
            out.append("/");
        }
        out.append(parts[i].as_str());
        proof {
            let views = |p: String| p@;
            let cur = parts@.subrange(0, i + 1).map_values(views);
            assert(cur.drop_last() =~= parts@.subrange(0, i as int).map_values(views));
            assert(cur.last() == parts@[i as int]@);
            assert(out@ =~= spec_join_slash(cur));
        }
        i = i + 1;
    }
    proof {
        assert(parts@.subrange(0, parts@.len() as int) =~= parts@);
    }
    out
}

/// The extensions treated as text and templated.
pub open spec fn spec_is_text_ext(e: Seq<char>) -> bool {
    ||| e == "md"@
    ||| e == "txt"@
    ||| e == "gradle"@
    ||| e == "properties"@
    ||| e == "java"@
    ||| e == "json"@
    ||| e == "xml"@
    ||| e == "yml"@
    ||| e == "yaml"@
    ||| e == "toml"@
    ||| e == "gitignore"@
}

/// The file name of a `/`-separated path: everything after the last slash.
pub open spec fn spec_file_name(path: Seq<char>) -> Seq<char> {
    match spec_rfind_char(path, '/') {
        Some(k) => path.skip(k + 1),
        None => path,
    }
}

/// The extension of a path's file name: what follows the last dot, unless
/// the dot starts the name.
pub open spec fn spec_extension(path: Seq<char>) -> Option<Seq<char>> {
    let nm = spec_file_name(path);
    match spec_rfind_char(nm, '.') {
        Some(k) => if k > 0 {
            Some(nm.skip(k + 1))
        } else {
            None
        },
        None => None,
    }
}

/// Whether a destination path gets token substitution: its extension is one
/// of the text extensions, or it is a `.gitignore` without an extension of
/// its own.
pub open spec fn spec_is_text_file(path: Seq<char>) -> bool {
    match spec_extension(path) {
        Some(e) => spec_is_text_ext(e),
        None => spec_ends_with(path, ".gitignore"@),
    }
}

/// Whether `e` is one of the text extensions.
fn is_text_ext(e: &str) -> (r: bool)
    ensures
        r == spec_is_text_ext(e@),
{
    str_eq(e, "md") || str_eq(e, "txt") || str_eq(e, "gradle") || str_eq(e, "properties")
        || str_eq(e, "java") || str_eq(e, "json") || str_eq(e, "xml") || str_eq(e, "yml")
        || str_eq(e, "yaml") || str_eq(e, "toml") || str_eq(e, "gitignore")
}

/// Decide text handling for a destination path, as `spec_is_text_file`
/// describes.
pub fn is_text_file(path: &str) -> (r: bool)
    ensures
        r == spec_is_text_file(path@),
{
    let _plen: usize = path.unicode_len();
    let name: String = match rfind_char(path, '/') {
        Some(k) => drop_prefix(path, k + 1),
        None => String::from_str(path),
    };
    let _nlen: usize = name.as_str().unicode_len();
    match rfind_char(name.as_str(), '.') {
        Some(k) => {
            if k > 0 {
                let e = drop_prefix(name.as_str(), k + 1);
                is_text_ext(e.as_str())
            } else {
                ends_with(path, ".gitignore")
            }
        },
        None => ends_with(path, ".gitignore"),
    }
}

/// One template substitution after another, left to right through the list.
pub open spec fn spec_apply_reps(s: Seq<char>, reps: Seq<(Seq<char>, Seq<char>)>) -> Seq<char>
    decreases reps.len(),
{
    if reps.len() == 0 {
        s
    } else {
        spec_apply_reps(spec_replace(s, reps[0].0, reps[0].1), reps.skip(1))
    }
}

/// Apply every substitution of the list to `s`, in order.
pub fn apply_replacements(s: String, reps: &Vec<(String, String)>) -> (r: String)
    requires
        forall|j: int| 0 <= j < reps@.len() ==> (#[trigger] reps@[j]).0@.len() > 0,
    ensures
        r@ == spec_apply_reps(s@, reps@.map_values(|p: (String, String)| (p.0@, p.1@))),
{
    let ghost rv = reps@.map_values(|p: (String, String)| (p.0@, p.1@));
    let mut cur = s;
    let mut i: usize = 0;
    proof {
        assert(rv.skip(0) =~= rv);
    }
    while i < reps.len()
        invariant
            i <= reps@.len(),
            rv == reps@.map_values(|p: (String, String)| (p.0@, p.1@)),
            forall|j: int| 0 <= j < reps@.len() ==> (#[trigger] reps@[j]).0@.len() > 0,
            spec_apply_reps(s@, rv) == spec_apply_reps(cur@, rv.skip(i as int)),
        decreases reps@.len() - i,
    {
        proof {
            assert(rv[i as int] == (reps@[i as int].0@, reps@[i as int].1@));
            assert(rv.skip(i as int)[0] == rv[i as int]);
            assert(rv.skip(i as int).skip(1) =~= rv.skip(i + 1));
        }
        cur = replace_all(cur.as_str(), reps[i].0.as_str(), reps[i].1.as_str());
        i = i + 1;
    }
    proof {
        assert(rv.skip(i as int).len() == 0);
    }
    cur
}

/// What one archive entry contributes to the plan, on its views: a
/// directory to create, a templated text file, or a binary file.
pub enum SkeletonItem {
    Dir(Seq<char>),
    Text(Seq<char>, Seq<char>),
    Bin(Seq<char>, Seq<u8>),
}

/// Whether the step realizes the planned item.
pub open spec fn matches_item(s: Step, v: SkeletonItem) -> bool {
    match (s, v) {
        (Step::Mkdir { path }, SkeletonItem::Dir(p)) => path@ == p,
        (Step::WriteFile { path, content }, SkeletonItem::Text(p, c)) => path@ == p && content@
            == c,
        (Step::WriteBytes { path, content }, SkeletonItem::Bin(p, c)) => path@ == p && content@
            == c,
        _ => false,
    }
}

/// Where an entry lands in the new project, or nothing when the entry is
/// skipped. The archive's root folder is dropped (an entry wholly inside it
/// is required); a `local.properties.<platform>` variant is kept, renamed to
/// `local.properties`, only for this platform's suffix (the `.example` file
/// passes through); a path under the template package
/// `src/main/java/com/example/skeleton` moves under the project's package
/// directory; and the project name is prepended as the root directory.
pub open spec fn spec_dest_path(
    project: Seq<char>,
    suffix: Seq<char>,
    pkg_dir: Seq<char>,
    entry_name: Seq<char>,
) -> Option<Seq<char>> {
    let segs = spec_segments(entry_name);
    if segs.len() < 2 {
        None
    } else {
        let relsegs = segs.skip(1);
        let fname = segs.last();
        let localized = spec_starts_with(fname, "local.properties."@) && fname
            != "local.properties.example"@;
        if localized && !(suffix.len() > 0 && spec_ends_with(fname, suffix)) {
            None
        } else {
            let relsegs1 = if localized {
                relsegs.update(relsegs.len() - 1, "local.properties"@)
            } else {
                relsegs
            };
            let rel = spec_join_slash(relsegs1);
            let pref = "src/main/java/com/example/skeleton"@;
            let rel2 = if rel == pref || spec_starts_with(rel, pref + "/"@) {
                "src/main/java/"@ + pkg_dir + rel.skip(pref.len() as int)
            } else {
                rel
            };
            Some(project + "/"@ + rel2)
        }
    }
}

/// The planned item of one entry, or nothing when it is skipped.
pub open spec fn spec_entry_item(
    project: Seq<char>,
    suffix: Seq<char>,
    pkg_dir: Seq<char>,
    reps: Seq<(Seq<char>, Seq<char>)>,
    entry: (Seq<char>, bool, Seq<u8>),
) -> Option<SkeletonItem> {
    match spec_dest_path(project, suffix, pkg_dir, entry.0) {
        None => None,
        Some(dest) => Some(
            if entry.1 {
                SkeletonItem::Dir(dest)
            } else if spec_is_text_file(dest) {
                match utf8_decode(entry.2) {
                    Some(t) => SkeletonItem::Text(dest, spec_apply_reps(t, reps)),
                    None => SkeletonItem::Bin(dest, entry.2),
                }
            } else {
                SkeletonItem::Bin(dest, entry.2)
            },
        ),
    }
}

/// The whole plan of an entry list, in entry order, skipped entries left
/// out.
pub open spec fn spec_skeleton_plan(
    project: Seq<char>,
    suffix: Seq<char>,
    pkg_dir: Seq<char>,
    reps: Seq<(Seq<char>, Seq<char>)>,
    entries: Seq<(Seq<char>, bool, Seq<u8>)>,
) -> Seq<SkeletonItem>
    decreases entries.len(),
{
    if entries.len() == 0 {
        Seq::empty()
    } else {
        spec_skeleton_plan(project, suffix, pkg_dir, reps, entries.drop_last()) + match spec_entry_item(
            project,
            suffix,
            pkg_dir,
            reps,
            entries.last(),
        ) {
            Some(v) => seq![v],
            None => Seq::empty(),
        }
    }
}

/// Compute the destination path of one entry, as `spec_dest_path` says.
fn dest_path(project: &String, suffix: &String, pkg_dir: &String, entry_name: &String) -> (r:
    Option<String>)
    ensures
        match r {
            Some(d) => spec_dest_path(project@, suffix@, pkg_dir@, entry_name@) == Some(d@),
            None => spec_dest_path(project@, suffix@, pkg_dir@, entry_name@) is None,
        },
{
    let segs = segments(entry_name.as_str());
    let ghost segviews = segs@.map_values(|p: String| p@);
    if segs.len() < 2 {
        return None;
    }
    let fname = segs[segs.len() - 1].clone();
    proof {
        assert(segviews.last() == fname@);
    }
    let localized = starts_with(fname.as_str(), "local.properties.") && !str_eq(
        fname.as_str(),
        "local.properties.example",
    );
    if localized && !(suffix.as_str().unicode_len() > 0 && ends_with(fname.as_str(), suffix.as_str())) {
        return None;
    }
    let mut relsegs: Vec<String> = Vec::new();
    let mut k: usize = 1;
    while k < segs.len()
        invariant
            1 <= k <= segs@.len(),
            segviews == segs@.map_values(|p: String| p@),
            relsegs@.map_values(|p: String| p@) == segviews.subrange(1, k as int),
        decreases segs@.len() - k,
    {
        let ghost prev = relsegs@.map_values(|p: String| p@);
        let seg = segs[k].clone();
        proof {
            assert((relsegs@.push(seg)).map_values(|p: String| p@) =~= prev.push(seg@));
            assert(prev.push(segviews[k as int]) =~= segviews.subrange(1, k + 1));
        }
        relsegs.push(seg);
        k = k + 1;
    }
    proof {
        assert(segviews.subrange(1, segviews.len() as int) =~= segviews.skip(1));
    }
    if localized {
        let last = relsegs.len() - 1;
        let ghost prev = relsegs@.map_values(|p: String| p@);
        relsegs[last] = String::from_str("local.properties");
        proof {
            assert(relsegs@.map_values(|p: String| p@) =~= prev.update(
                last as int,
                "local.properties"@,
            ));
        }
    }
    let rel = join_slash(&relsegs);
    let pref = "src/main/java/com/example/skeleton";
    let preflen = pref.unicode_len();
    let under_pkg = str_eq(rel.as_str(), pref) || starts_with(
        rel.as_str(),
        "src/main/java/com/example/skeleton/",
    );
    proof {
        reveal_strlit("src/main/java/com/example/skeleton");
        reveal_strlit("src/main/java/com/example/skeleton/");
        reveal_strlit("/");
        assert("src/main/java/com/example/skeleton/"@ =~= "src/main/java/com/example/skeleton"@
            + "/"@);
    }
    let rel2: String = if under_pkg {
        let mut s = String::from_str("src/main/java/");
        s.append(pkg_dir.as_str());
        let tail = drop_prefix(rel.as_str(), preflen);
        s.append(tail.as_str());
        proof {
            assert(s@ =~= "src/main/java/"@ + pkg_dir@ + rel@.skip(preflen as int));
        }
        s
    } else {
        rel
    };
    let mut dest = project.clone();
    dest.append("/");
    dest.append(rel2.as_str());
    Some(dest)
}

/// Turn the archive's entries into the plan's steps: a `Mkdir` for each
/// directory, a templated `WriteFile` for each text file, a `WriteBytes`
/// for everything else, exactly as `spec_skeleton_plan` lays them out.
pub fn skeleton_steps_from_entries(
    project: &String,
    suffix: &String,
    pkg_dir: &String,
    replacements: &Vec<(String, String)>,
    entries: &Vec<ZipEntry>,
) -> (r: Vec<Step>)
    requires
        forall|j: int| 0 <= j < replacements@.len() ==> (#[trigger] replacements@[j]).0@.len() > 0,
    ensures
        ({
            let plan = spec_skeleton_plan(
                project@,
                suffix@,
                pkg_dir@,
                replacements@.map_values(|p: (String, String)| (p.0@, p.1@)),
                entries@.map_values(|e: ZipEntry| (e.name@, e.is_dir, e.data@)),
            );
            &&& r@.len() == plan.len()
            &&& forall|i: int| 0 <= i < plan.len() ==> matches_item(#[trigger] r@[i], plan[i])
        }),
{
    let ghost rv = replacements@.map_values(|p: (String, String)| (p.0@, p.1@));
    let ghost ev = entries@.map_values(|e: ZipEntry| (e.name@, e.is_dir, e.data@));
    let mut out: Vec<Step> = Vec::new();
    let mut i: usize = 0;
    proof {
        assert(ev.subrange(0, 0) =~= Seq::<(Seq<char>, bool, Seq<u8>)>::empty());
    }
    while i < entries.len()
        invariant
            i <= entries@.len(),
            rv == replacements@.map_values(|p: (String, String)| (p.0@, p.1@)),
            ev == entries@.map_values(|e: ZipEntry| (e.name@, e.is_dir, e.data@)),
            forall|j: int| 0 <= j < replacements@.len() ==> (#[trigger] replacements@[j]).0@.len()
                > 0,
            ({
                let plan = spec_skeleton_plan(project@, suffix@, pkg_dir@, rv, ev.subrange(0, i as int));
                out@.len() == plan.len() && forall|j: int|
                    0 <= j < plan.len() ==> matches_item(#[trigger] out@[j], plan[j])
            }),
        decreases entries@.len() - i,
    {
        let entry = &entries[i];
        proof {
            assert(ev[i as int] == (entry.name@, entry.is_dir, entry.data@));
            let cur = ev.subrange(0, i + 1);
            assert(cur.drop_last() =~= ev.subrange(0, i as int));
            assert(cur.last() == ev[i as int]);
        }
        match dest_path(project, suffix, pkg_dir, &entry.name) {
            None => {
                proof {
                    assert(spec_skeleton_plan(project@, suffix@, pkg_dir@, rv, ev.subrange(0, i + 1))
                        =~= spec_skeleton_plan(project@, suffix@, pkg_dir@, rv, ev.subrange(0, i as int)));
                }
            },
            Some(dest) => {
                let step: Step = if entry.is_dir {
                    Step::Mkdir { path: dest }
                } else if is_text_file(dest.as_str()) {
                    match utf8_to_string(vstd::slice::slice_to_vec(entry.data.as_slice())) {
                        Some(text) => Step::WriteFile {
                            path: dest,
                            content: apply_replacements(text, replacements),
                        },
                        None => Step::WriteBytes {
                            path: dest,
                            content: vstd::slice::slice_to_vec(entry.data.as_slice()),
                        },
                    }
                } else {
                    Step::WriteBytes {
                        path: dest,
                        content: vstd::slice::slice_to_vec(entry.data.as_slice()),
                    }
                };
                proof {
                    let plan_pref = spec_skeleton_plan(project@, suffix@, pkg_dir@, rv, ev.subrange(0, i as int));
                    let item = spec_entry_item(project@, suffix@, pkg_dir@, rv, ev[i as int]);
                    assert(matches_item(step, item->Some_0));
                    assert(spec_skeleton_plan(project@, suffix@, pkg_dir@, rv, ev.subrange(0, i + 1))
                        =~= plan_pref + seq![item->Some_0]);
                }
                out.push(step);
            },
        }
        i = i + 1;
    }
    proof {
        assert(ev.subrange(0, entries@.len() as int) =~= ev);
    }
    out
}

/// Expand the skeleton archive into the steps that scaffold the project:
/// open the archive, read every entry, and lay the plan out as
/// `spec_skeleton_plan` describes. Bytes that are not an archive are always
/// rejected; an entry that cannot be read is reported as the error text
/// too.
pub fn generate_plan(
    project: &String,
    zip_data: Vec<u8>,
    pkg_dir: &String,
    replacements: &Vec<(String, String)>,
    os_suffix: &String,
) -> (r: Result<Vec<Step>, String>)
    requires
        forall|j: int| 0 <= j < replacements@.len() ==> (#[trigger] replacements@[j]).0@.len() > 0,
    ensures
        zip_parse(zip_data@) is None ==> r is Err,
        match r {
            Ok(steps) => match zip_parse(zip_data@) {
                Some(entries) => ({
                    let plan = spec_skeleton_plan(
                        project@,
                        os_suffix@,
                        pkg_dir@,
                        replacements@.map_values(|p: (String, String)| (p.0@, p.1@)),
                        entries,
                    );
                    &&& steps@.len() == plan.len()
                    &&& forall|i: int|
                        0 <= i < plan.len() ==> matches_item(#[trigger] steps@[i], plan[i])
                }),
                None => false,
            },
            Err(_) => true,
        },
{
    let mut archive = match zip_open(zip_data) {
        Ok(a) => a,
        Err(e) => {
            return Err(e);
        },
    };
    let ghost contents = zip_contents(archive);
    let n = zip_len(&archive);
    let mut entries: Vec<ZipEntry> = Vec::new();
    let mut i: usize = 0;
    proof {
        assert(contents.subrange(0, 0) =~= Seq::<(Seq<char>, bool, Seq<u8>)>::empty());
        assert(entries@.map_values(|e: ZipEntry| (e.name@, e.is_dir, e.data@)) =~= Seq::<
            (Seq<char>, bool, Seq<u8>),
        >::empty());
    }
    while i < n
        invariant
            n == contents.len(),
            i <= n,
            zip_contents(archive) == contents,
            entries@.map_values(|e: ZipEntry| (e.name@, e.is_dir, e.data@)) == contents.subrange(
                0,
                i as int,
            ),
        decreases n - i,
    {
        let ghost prev = entries@.map_values(|e: ZipEntry| (e.name@, e.is_dir, e.data@));
        match zip_entry_at(&mut archive, i) {
            Ok(e) => {
                proof {
                    assert((entries@.push(e)).map_values(|x: ZipEntry| (x.name@, x.is_dir, x.data@))
                        =~= prev.push((e.name@, e.is_dir, e.data@)));
                    assert(prev.push(contents[i as int]) =~= contents.subrange(0, i + 1));
                }
                entries.push(e);
            },
            Err(e) => {
                return Err(e);
            },
        }
        i = i + 1;
    }
    proof {
        assert(contents.subrange(0, n as int) =~= contents);
    }
    Ok(skeleton_steps_from_entries(project, os_suffix, pkg_dir, replacements, &entries))
}

} // verus!
