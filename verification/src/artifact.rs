//! Locating the build artifact of a mod project by convention: the jar under
//! `build/libs`, named preferably after the project manifest, with fallbacks
//! to what is actually on disk and to the Gradle properties.
//!
//! The probing itself (reading the two files, listing the directory) is the
//! caller's; this module computes the resolution from the probed values.

use vstd::prelude::*;

use crate::strutil::{
    drop_prefix, ends_with, find_sub, spec_ends_with, spec_find_char, spec_find_sub,
    spec_starts_with, starts_with, str_eq,
};

verus! {

/// Where the built artifact lies and what it should be called at its
/// destination.
#[derive(Debug, Clone, PartialEq)]
pub struct ResolvedArtifact {
    pub source_path: String,
    pub target_file_name: String,
}

/// An ASCII whitespace character, as trimmed from property values.
pub open spec fn spec_is_space(c: char) -> bool {
    c == ' ' || c == '\t' || c == '\r' || c == '\n'
}

/// Whether `c` is trimmed from property values.
pub fn is_space_char(c: char) -> (r: bool)
    ensures
        r == spec_is_space(c),
{
    c == ' ' || c == '\t' || c == '\r' || c == '\n'
}

/// `s` without its leading whitespace.
pub open spec fn spec_trim_start(s: Seq<char>) -> Seq<char>
    decreases s.len(),
{
    if s.len() > 0 && spec_is_space(s[0]) {
        spec_trim_start(s.skip(1))
    } else {
        s
    }
}

/// `s` without its trailing whitespace.
pub open spec fn spec_trim_end(s: Seq<char>) -> Seq<char>
    decreases s.len(),
{
    if s.len() > 0 && spec_is_space(s.last()) {
        spec_trim_end(s.drop_last())
    } else {
        s
    }
}

/// `s` without leading and trailing whitespace.
pub open spec fn spec_trim(s: Seq<char>) -> Seq<char> {
    spec_trim_end(spec_trim_start(s))
}

/// Trim leading and trailing whitespace.
pub fn trim(s: &str) -> (r: String)
    ensures
        r@ == spec_trim(s@),
{
    let len = s.unicode_len();
    let mut a: usize = 0;
    proof {
        assert(s@.skip(0) =~= s@);
    }
    while a < len && is_space_char(s.get_char(a))
        invariant
            len == s@.len(),
            a <= len,
            spec_trim_start(s@) == spec_trim_start(s@.skip(a as int)),
        decreases len - a,
    {
        proof {
            assert(s@.skip(a as int)[0] == s@[a as int]);
            assert(s@.skip(a as int).skip(1) =~= s@.skip(a + 1));
        }
        a = a + 1;
    }
    proof {
        assert(spec_trim_start(s@) == s@.skip(a as int));
    }
    let ghost t = s@.skip(a as int);
    let mut j: usize = len - a;
    proof {
        assert(t.take(j as int) =~= t);
    }
    while j > 0 && is_space_char(s.get_char(a + j - 1))
        invariant
            len == s@.len(),
            a <= len,
            t == s@.skip(a as int),
            j <= len - a,
            spec_trim_end(t) == spec_trim_end(t.take(j as int)),
        decreases j,
    {
        proof {
            assert(t.take(j as int).last() == s@[a + j - 1]);
            assert(t.take(j as int).drop_last() =~= t.take(j - 1));
        }
        j = j - 1;
    }
    let r = String::from_str(s.substring_char(a, a + j));
    proof {
        assert(s@.subrange(a as int, a + j) =~= t.take(j as int));
        assert(spec_trim_end(t.take(j as int)) == t.take(j as int));
    }
    r
}

/// A line split of `s`: lines end at `\n` (dropping the `\r` of a `\r\n`
/// ending), and the final line ending is optional.
pub open spec fn spec_lines(s: Seq<char>) -> Seq<Seq<char>>
    decreases s.len(),
{
    if s.len() == 0 {
        Seq::empty()
    } else {
        match spec_find_char(s, '\n') {
            Some(i) => if 0 <= i < s.len() {
                seq![spec_strip_cr(s.take(i))] + spec_lines(s.skip(i + 1))
            } else {
                seq![s]
            },
            None => seq![s],
        }
    }
}

/// `l` without a trailing carriage return.
pub open spec fn spec_strip_cr(l: Seq<char>) -> Seq<char> {
    if l.len() > 0 && l.last() == '\r' {
        l.drop_last()
    } else {
        l
    }
}

/// The value of the last property line starting with `key`, trimmed, or the
/// default when no line carries the key.
pub open spec fn spec_prop_value(lines: Seq<Seq<char>>, key: Seq<char>, dflt: Seq<char>) -> Seq<
    char,
>
    decreases lines.len(),
{
    if lines.len() == 0 {
        dflt
    } else if spec_starts_with(lines.last(), key) {
        spec_trim(lines.last().skip(key.len() as int))
    } else {
        spec_prop_value(lines.drop_last(), key, dflt)
    }
}

/// Split `s` into its lines, as `spec_lines` describes.
pub fn split_lines(s: &str) -> (r: Vec<String>)
    ensures
        r@.map_values(|l: String| l@) == spec_lines(s@),
{
    let mut out: Vec<String> = Vec::new();
    let mut rest = String::from_str(s);
    proof {
        assert(out@.map_values(|l: String| l@) + spec_lines(rest@) =~= spec_lines(s@));
    }
    while rest.as_str().unicode_len() > 0
        invariant
            out@.map_values(|l: String| l@) + spec_lines(rest@) == spec_lines(s@),
        decreases rest@.len(),
    {
        let rlen = rest.as_str().unicode_len();
        match crate::strutil::find_char(rest.as_str(), '\n') {
            Some(i) => {
                let mut line = String::from_str(rest.as_str().substring_char(0, i));
                proof {
                    assert(line@ =~= rest@.take(i as int));
                }
                let stripped: String = if line.as_str().unicode_len() > 0 && line.as_str().get_char(
                    line.as_str().unicode_len() - 1,
                ) == '\r' {
                    let ll = line.as_str().unicode_len();
                    let st = String::from_str(line.as_str().substring_char(0, ll - 1));
                    proof {
                        assert(st@ =~= line@.drop_last());
                    }
                    st
                } else {
                    line
                };
                proof {
                    assert(stripped@ == spec_strip_cr(rest@.take(i as int)));
                }
                let new_rest = drop_prefix(rest.as_str(), i + 1);
                proof {
                    let prev = out@.map_values(|l: String| l@);
                    assert(prev.push(stripped@) + spec_lines(new_rest@) =~= prev + spec_lines(
                        rest@,
                    ));
                    assert((out@.push(stripped)).map_values(|l: String| l@) =~= prev.push(
                        stripped@,
                    ));
                }
                out.push(stripped);
                rest = new_rest;
            },
            None => {
                proof {
                    let prev = out@.map_values(|l: String| l@);
                    assert(spec_lines(rest@) =~= seq![rest@]);
                    assert((out@.push(rest)).map_values(|l: String| l@) =~= prev.push(rest@));
                    assert(prev.push(rest@) + spec_lines(Seq::<char>::empty()) =~= prev
                        + spec_lines(rest@));
                }
                out.push(rest);
                rest = String::new();
                proof {
                    assert(rest@ =~= Seq::<char>::empty());
                }
            },
        }
    }
    proof {
        assert(spec_lines(rest@) =~= Seq::<Seq<char>>::empty());
        assert(out@.map_values(|l: String| l@) =~= out@.map_values(|l: String| l@) + spec_lines(
            rest@,
        ));
    }
    out
}

/// Read the value of the last `key=` line, trimmed; `dflt` when none.
pub fn prop_value(lines: &Vec<String>, key: &str, dflt: &str) -> (r: String)
    ensures
        r@ == spec_prop_value(lines@.map_values(|l: String| l@), key@, dflt@),
{
    let klen = key.unicode_len();
    let mut val = String::from_str(dflt);
    let mut i: usize = 0;
    proof {
        assert(lines@.subrange(0, 0).map_values(|l: String| l@) =~= Seq::<Seq<char>>::empty());
    }
    while i < lines.len()
        invariant
            klen == key@.len(),
            i <= lines@.len(),
            val@ == spec_prop_value(
                lines@.subrange(0, i as int).map_values(|l: String| l@),
                key@,
                dflt@,
            ),
        decreases lines@.len() - i,
    {
        proof {
            let views = |l: String| l@;
            let cur = lines@.subrange(0, i + 1).map_values(views);
            assert(cur.drop_last() =~= lines@.subrange(0, i as int).map_values(views));
            assert(cur.last() == lines@[i as int]@);
        }
        if starts_with(lines[i].as_str(), key) {
            let tail = drop_prefix(lines[i].as_str(), klen);
            val = trim(tail.as_str());
        }
        i = i + 1;
    }
    proof {
        assert(lines@.subrange(0, lines@.len() as int) =~= lines@);
    }
    val
}

/// The jar name guessed from the Gradle properties: `<name>-<version>.jar`
/// from the `mod_name` and `mod_version` properties (defaults `mod` and
/// `1.0.0`), or the bare `mod.jar` when there is no properties file at all.
pub open spec fn spec_gradle_jar_name(content: Option<Seq<char>>) -> Seq<char> {
    match content {
        None => "mod.jar"@,
        Some(s) => {
            let lines = spec_lines(s);
            spec_prop_value(lines, "mod_name="@, "mod"@) + "-"@ + spec_prop_value(
                lines,
                "mod_version="@,
                "1.0.0"@,
            ) + ".jar"@
        },
    }
}

/// Guess the jar name from the Gradle properties file's text, as
/// `spec_gradle_jar_name` describes.
pub fn jar_name_from_gradle_properties(content: Option<&String>) -> (r: String)
    ensures
        r@ == spec_gradle_jar_name(
            match content {
                Some(c) => Some(c@),
                None => None,
            },
        ),
{
    match content {
        None => String::from_str("mod.jar"),
        Some(c) => {
            let lines = split_lines(c.as_str());
            let mut name = prop_value(&lines, "mod_name=", "mod");
            let version = prop_value(&lines, "mod_version=", "1.0.0");
            name.append("-");
            name.append(version.as_str());
            name.append(".jar");
            proof {
                let lv = lines@.map_values(|l: String| l@);
                assert(name@ =~= spec_prop_value(lv, "mod_name="@, "mod"@) + "-"@
                    + spec_prop_value(lv, "mod_version="@, "1.0.0"@) + ".jar"@);
            }
            name
        },
    }
}

/// The `Name` and `Version` string fields of a JSON project manifest, when
/// the text parses as a JSON document holding both as strings. The result
/// is a function of the text alone.
pub uninterp spec fn manifest_name_version(s: Seq<char>) -> Option<(Seq<char>, Seq<char>)>;

/// Relies on `serde_json::from_str` and `serde_json::Value::{get, as_str}`:
/// reads the manifest's `Name` and `Version` fields, or nothing when the
/// text is not JSON or either field is missing or not a string.
#[verifier::external_body]
fn read_manifest_fields(content: &str) -> (r: Option<(String, String)>)
    ensures
        match r {
            Some(nv) => manifest_name_version(content@) == Some((nv.0@, nv.1@)),
            None => manifest_name_version(content@) is None,
        },
{
    let v: serde_json::Value = serde_json::from_str(content).ok()?;
    let name = v.get("Name")?.as_str()?.to_owned();
    let version = v.get("Version")?.as_str()?.to_owned();
    Some((name, version))
}

/// The jar name the manifest asks for: `<Name>-<Version>.jar`, when the
/// manifest text names both.
pub open spec fn spec_manifest_jar_name(content: Seq<char>) -> Option<Seq<char>> {
    match manifest_name_version(content) {
        Some(nv) => Some(nv.0 + "-"@ + nv.1 + ".jar"@),
        None => None,
    }
}

/// Derive the preferred jar name from the manifest text.
pub fn jar_name_from_manifest(content: &str) -> (r: Option<String>)
    ensures
        match r {
            Some(j) => spec_manifest_jar_name(content@) == Some(j@),
            None => spec_manifest_jar_name(content@) is None,
        },
{
    match read_manifest_fields(content) {
        None => None,
        Some((name, version)) => {
            let mut j = name;
            j.append("-");
            j.append(version.as_str());
            j.append(".jar");
            Some(j)
        },
    }
}

/// Lexicographic order on strings by character code.
pub open spec fn spec_str_le(a: Seq<char>, b: Seq<char>) -> bool
    decreases a.len(),
{
    if a.len() == 0 {
        true
    } else if b.len() == 0 {
        false
    } else if a[0] == b[0] {
        spec_str_le(a.skip(1), b.skip(1))
    } else {
        (a[0] as u32) < (b[0] as u32)
    }
}

/// Compare two strings in the order of `spec_str_le`.
pub fn str_le(a: &str, b: &str) -> (r: bool)
    ensures
        r == spec_str_le(a@, b@),
{
    let alen = a.unicode_len();
    let blen = b.unicode_len();
    let mut i: usize = 0;
    proof {
        assert(a@.skip(0) =~= a@);
        assert(b@.skip(0) =~= b@);
    }
    while i < alen && i < blen
        invariant
            alen == a@.len(),
            blen == b@.len(),
            i <= alen,
            i <= blen,
            spec_str_le(a@, b@) == spec_str_le(a@.skip(i as int), b@.skip(i as int)),
        decreases alen - i,
    {
        let ca = a.get_char(i);
        let cb = b.get_char(i);
        proof {
            assert(a@.skip(i as int)[0] == a@[i as int]);
            assert(b@.skip(i as int)[0] == b@[i as int]);
            assert(a@.skip(i as int).skip(1) =~= a@.skip(i + 1));
            assert(b@.skip(i as int).skip(1) =~= b@.skip(i + 1));
        }
        if ca != cb {
            return (ca as u32) < (cb as u32);
        }
        i = i + 1;
    }
    proof {
        if i >= alen {
            assert(a@.skip(i as int).len() == 0);
        } else {
            assert(b@.skip(i as int).len() == 0);
            assert(a@.skip(i as int).len() > 0);
        }
    }
    alen <= blen
}

/// A file name that counts as a deployable artifact: a `.jar` with a
/// non-empty stem that is not a sources, javadoc or plain jar.
pub open spec fn is_artifact_name(n: Seq<char>) -> bool {
    &&& spec_ends_with(n, ".jar"@)
    &&& n.len() > ".jar"@.len()
    &&& spec_find_sub(n, "-sources"@) is None
    &&& spec_find_sub(n, "-javadoc"@) is None
    &&& spec_find_sub(n, "-plain"@) is None
}

/// Whether `n` counts as a deployable artifact name.
pub fn check_artifact_name(n: &str) -> (r: bool)
    ensures
        r == is_artifact_name(n@),
{
    proof {
        reveal_strlit(".jar");
    }
    ends_with(n, ".jar") && n.unicode_len() > 4 && find_sub(n, "-sources").is_none() && find_sub(
        n,
        "-javadoc",
    ).is_none() && find_sub(n, "-plain").is_none()
}

/// The artifact chosen among the listed file names: the lexicographically
/// greatest deployable jar, as the directory sort order would leave last.
pub open spec fn spec_best_artifact(files: Seq<Seq<char>>) -> Option<Seq<char>>
    decreases files.len(),
{
    if files.len() == 0 {
        None
    } else {
        let rest = spec_best_artifact(files.drop_last());
        let l = files.last();
        if !is_artifact_name(l) {
            rest
        } else {
            match rest {
                None => Some(l),
                Some(b) => if spec_str_le(b, l) {
                    Some(l)
                } else {
                    Some(b)
                },
            }
        }
    }
}

/// Pick the deployable artifact among the file names of the build output
/// directory, as `spec_best_artifact` describes.
pub fn find_existing_artifact(files: &Vec<String>) -> (r: Option<String>)
    ensures
        match r {
            Some(c) => spec_best_artifact(files@.map_values(|f: String| f@)) == Some(c@),
            None => spec_best_artifact(files@.map_values(|f: String| f@)) is None,
        },
{
    let mut best: Option<String> = None;
    let mut i: usize = 0;
    proof {
        assert(files@.subrange(0, 0).map_values(|f: String| f@)
            =~= Seq::<Seq<char>>::empty());
    }
    while i < files.len()
        invariant
            i <= files@.len(),
            match best {
                Some(c) => spec_best_artifact(
                    files@.subrange(0, i as int).map_values(|f: String| f@),
                ) == Some(c@),
                None => spec_best_artifact(
                    files@.subrange(0, i as int).map_values(|f: String| f@),
                ) is None,
            },
        decreases files@.len() - i,
    {
        proof {
            let views = |f: String| f@;
            let cur = files@.subrange(0, i + 1).map_values(views);
            assert(cur.drop_last() =~= files@.subrange(0, i as int).map_values(views));
            assert(cur.last() == files@[i as int]@);
        }
        if check_artifact_name(files[i].as_str()) {
            best = match best {
                None => Some(files[i].clone()),
                Some(b) => {
                    if str_le(b.as_str(), files[i].as_str()) {
                        Some(files[i].clone())
                    } else {
                        Some(b)
                    }
                },
            };
        }
        i = i + 1;
    }
    proof {
        assert(files@.subrange(0, files@.len() as int) =~= files@);
    }
    best
}

/// What `resolve_mod_artifact` resolves from the probed values: the name of
/// the file to take from `build/libs`, and the name to give it at its
/// destination. The manifest's choice is preferred; a jar actually present
/// is next; the Gradle guess is the last resort.
pub open spec fn spec_resolved_names(
    manifest: Option<Seq<char>>,
    gradle: Option<Seq<char>>,
    files: Seq<Seq<char>>,
) -> (Seq<char>, Seq<char>) {
    let pref = match manifest {
        Some(m) => spec_manifest_jar_name(m),
        None => None,
    };
    let cand = spec_best_artifact(files);
    let guessed = spec_gradle_jar_name(gradle);
    let source_name = match pref {
        Some(n) => if files.contains(n) {
            n
        } else {
            match cand {
                Some(c) => c,
                None => n,
            }
        },
        None => match cand {
            Some(c) => c,
            None => guessed,
        },
    };
    let target_name = match pref {
        Some(n) => n,
        None => match cand {
            Some(c) => c,
            None => guessed,
        },
    };
    (source_name, target_name)
}

/// Whether one of the listed file names is exactly `n`.
fn contains_name(files: &Vec<String>, n: &str) -> (r: bool)
    ensures
        r == files@.map_values(|f: String| f@).contains(n@),
{
    let mut i: usize = 0;
    while i < files.len()
        invariant
            i <= files@.len(),
            forall|j: int| 0 <= j < i ==> (#[trigger] files@[j])@ != n@,
        decreases files@.len() - i,
    {
        if str_eq(files[i].as_str(), n) {
            proof {
                let mv = files@.map_values(|f: String| f@);
                assert(mv[i as int] == n@);
                assert(mv.contains(n@));
            }
            return true;
        }
        i = i + 1;
    }
    proof {
        let mv = files@.map_values(|f: String| f@);
        assert forall|k: int| 0 <= k < mv.len() implies #[trigger] mv[k] != n@ by {
            assert(mv[k] == files@[k]@);
        }
        assert(!mv.contains(n@));
    }
    false
}

/// Resolve the mod artifact from the probed project state: `mod_dir` is the
/// project directory, `manifest_json` holds the project manifest under
/// `src/main/resources` when there is one, `gradle_properties` holds the
/// Gradle properties when there are any, and `libs_files` lists the names
/// under `build/libs`. The source path joins `build/libs` with the chosen
/// name by `/`; the names are chosen as `spec_resolved_names` says.
pub fn resolve_mod_artifact(
    mod_dir: &String,
    manifest_json: Option<&String>,
    gradle_properties: Option<&String>,
    libs_files: &Vec<String>,
) -> (r: ResolvedArtifact)
    ensures
        ({
            let names = spec_resolved_names(
                match manifest_json {
                    Some(m) => Some(m@),
                    None => None,
                },
                match gradle_properties {
                    Some(g) => Some(g@),
                    None => None,
                },
                libs_files@.map_values(|f: String| f@),
            );
            &&& r.source_path@ == mod_dir@ + "/build/libs/"@ + names.0
            &&& r.target_file_name@ == names.1
        }),
{
    let preferred: Option<String> = match manifest_json {
        Some(m) => jar_name_from_manifest(m.as_str()),
        None => None,
    };
    let guessed = jar_name_from_gradle_properties(gradle_properties);
    let candidate = find_existing_artifact(libs_files);

    let source_name: String = match &preferred {
        Some(n) => {
            if contains_name(libs_files, n.as_str()) {
                n.clone()
            } else {
                match &candidate {
                    Some(c) => c.clone(),
                    None => n.clone(),
                }
            }
        },
        None => match &candidate {
            Some(c) => c.clone(),
            None => guessed.clone(),
        },
    };
    let target_file_name: String = match preferred {
        Some(n) => n,
        None => match candidate {
            Some(c) => c,
            None => guessed,
        },
    };

    let mut source_path = mod_dir.clone();
    source_path.append("/build/libs/");
    source_path.append(source_name.as_str());
    ResolvedArtifact { source_path, target_file_name }
}

} // verus!
