//! The new-project feature: resolve the scaffold values (explicit flag
//! first, then the user configuration, then the stock default), derive the
//! package names, and expand the skeleton archive into the plan.
//!
//! Interactive prompting is the caller's: a prompted value arrives here as
//! if it had been passed as a flag.

use vstd::prelude::*;

use crate::config::{opt_view, UserConfig};
use crate::skeleton::{matches_item, spec_skeleton_plan, zip_parse};
use crate::step::Plan;
use crate::strutil::{replace_all, spec_replace};

verus! {

/// Arguments of the new-project command.
#[derive(Debug, Clone)]
pub struct NewArgs {
    pub name: String,
    pub path: Option<String>,
    pub group: Option<String>,
    pub package: Option<String>,
    pub no_ui_dir: bool,
    pub author: Option<String>,
    pub version: Option<String>,
    pub desc: Option<String>,
    pub interactive: bool,
}

/// The lowercase form of a string; it depends on the characters alone.
pub uninterp spec fn lower_of(s: Seq<char>) -> Seq<char>;

/// Relies on `str::to_lowercase`.
#[verifier::external_body]
fn lowercase(s: &str) -> (r: String)
    ensures
        r@ == lower_of(s@),
{
    s.to_lowercase()
}

/// A scaffold value: the explicit flag, else the configured value, else the
/// stock default.
pub open spec fn spec_resolve(
    flag: Option<Seq<char>>,
    cfg: Option<Seq<char>>,
    dflt: Seq<char>,
) -> Seq<char> {
    match flag {
        Some(f) => f,
        None => match cfg {
            Some(c) => c,
            None => dflt,
        },
    }
}

/// Resolve one scaffold value by the policy of `spec_resolve`.
fn resolve_val(flag: &Option<String>, cfg: &Option<String>, dflt: &str) -> (r: String)
    ensures
        r@ == spec_resolve(opt_view(*flag), opt_view(*cfg), dflt@),
{
    match flag {
        Some(f) => f.clone(),
        None => match cfg {
            Some(c) => c.clone(),
            None => String::from_str(dflt),
        },
    }
}

/// The project's Java package: the explicit flag, or the resolved group
/// joined with the project name lowered and its dashes turned to
/// underscores.
pub open spec fn spec_package(args: NewArgs, config: UserConfig) -> Seq<char> {
    match args.package {
        Some(p) => p@,
        None => spec_resolve(opt_view(args.group), opt_view(config.group), "com.example"@) + "."@
            + spec_replace(lower_of(args.name@), "-"@, "_"@),
    }
}

/// The package as a directory path: its dots turned to slashes.
pub open spec fn spec_package_dir(args: NewArgs, config: UserConfig) -> Seq<char> {
    spec_replace(spec_package(args, config), "."@, "/"@)
}

/// The template substitutions of a new project, in the order they are
/// applied.
pub open spec fn spec_replacements(args: NewArgs, config: UserConfig) -> Seq<
    (Seq<char>, Seq<char>),
> {
    let author = spec_resolve(opt_view(args.author), opt_view(config.author), "Your Name"@);
    let group = spec_resolve(opt_view(args.group), opt_view(config.group), "com.example"@);
    let version = spec_resolve(opt_view(args.version), opt_view(config.version), "0.1.0"@);
    let desc = spec_resolve(opt_view(args.desc), opt_view(config.desc), "A Hytale mod"@);
    let username = match opt_view(config.username) {
        Some(u) => u,
        None => "HytaleUser"@,
    };
    let pkg = spec_package(args, config);
    seq![
        ("<MOD_NAME>"@, args.name@),
        ("<MOD_ID>"@, args.name@),
        ("<AUTHOR>"@, author),
        ("<GROUP_ID>"@, group),
        ("<VERSION>"@, version),
        ("<DESCRIPTION>"@, desc),
        ("<USERNAME>"@, username),
        ("<PACKAGE>"@, pkg),
        ("<PACKAGE_DIR>"@, spec_package_dir(args, config)),
        ("<MAIN_CLASS>"@, pkg + ".Main"@),
        ("com.example.skeleton"@, pkg),
    ]
}

/// Build the scaffold plan of a new project from the skeleton archive, as
/// `spec_skeleton_plan` lays it out under the project's name with the
/// substitutions of `spec_replacements`. Bytes that are not an archive are
/// always rejected, with the error text saying why.
pub fn generate_plan(
    args: &NewArgs,
    config: &UserConfig,
    skeleton_bytes: &[u8],
    os_suffix: &String,
) -> (r: Result<Plan, String>)
    requires
        !args.interactive,
    ensures
        zip_parse(skeleton_bytes@) is None ==> r is Err,
        match r {
            Ok(plan) => match zip_parse(skeleton_bytes@) {
                Some(entries) => ({
                    let items = spec_skeleton_plan(
                        args.name@,
                        os_suffix@,
                        spec_package_dir(*args, *config),
                        spec_replacements(*args, *config),
                        entries,
                    );
                    &&& plan.steps@.len() == items.len()
                    &&& forall|i: int|
                        0 <= i < items.len() ==> matches_item(#[trigger] plan.steps@[i], items[i])
                }),
                None => false,
            },
            Err(_) => true,
        },
{
    let author = resolve_val(&args.author, &config.author, "Your Name");
    let group = resolve_val(&args.group, &config.group, "com.example");
    let version = resolve_val(&args.version, &config.version, "0.1.0");
    let desc = resolve_val(&args.desc, &config.desc, "A Hytale mod");
    let username: String = match &config.username {
        Some(u) => u.clone(),
        None => String::from_str("HytaleUser"),
    };
    proof {
        reveal_strlit("-");
        reveal_strlit(".");
    }
    let package: String = match &args.package {
        Some(p) => p.clone(),
        None => {
            let lowered = lowercase(args.name.as_str());
            let slug = replace_all(lowered.as_str(), "-", "_");
            let mut p = group.clone();
            p.append(".");
            p.append(slug.as_str());
            proof {
                assert(p@ =~= spec_package(*args, *config));
            }
            p
        },
    };
    let package_dir = replace_all(package.as_str(), ".", "/");
    let mut main_class = package.clone();
    main_class.append(".Main");
    proof {
        assert(main_class@ =~= spec_package(*args, *config) + ".Main"@);
    }

    let mut reps: Vec<(String, String)> = Vec::new();
    reps.push((String::from_str("<MOD_NAME>"), args.name.clone()));
    reps.push((String::from_str("<MOD_ID>"), args.name.clone()));
    reps.push((String::from_str("<AUTHOR>"), author));
    reps.push((String::from_str("<GROUP_ID>"), group));
    reps.push((String::from_str("<VERSION>"), version));
    reps.push((String::from_str("<DESCRIPTION>"), desc));
    reps.push((String::from_str("<USERNAME>"), username));
    reps.push((String::from_str("<PACKAGE>"), package.clone()));
    reps.push((String::from_str("<PACKAGE_DIR>"), package_dir.clone()));
    reps.push((String::from_str("<MAIN_CLASS>"), main_class));
    reps.push((String::from_str("com.example.skeleton"), package));
    proof {
        reveal_strlit("<MOD_NAME>");
        reveal_strlit("<MOD_ID>");
        reveal_strlit("<AUTHOR>");
        reveal_strlit("<GROUP_ID>");
        reveal_strlit("<VERSION>");
        reveal_strlit("<DESCRIPTION>");
        reveal_strlit("<USERNAME>");
        reveal_strlit("<PACKAGE>");
        reveal_strlit("<PACKAGE_DIR>");
        reveal_strlit("<MAIN_CLASS>");
        reveal_strlit("com.example.skeleton");
        assert(reps@.map_values(|p: (String, String)| (p.0@, p.1@)) =~= spec_replacements(
            *args,
            *config,
        ));
        assert forall|j: int| 0 <= j < reps@.len() implies (#[trigger] reps@[j]).0@.len() > 0 by {
            assert(reps@.map_values(|p: (String, String)| (p.0@, p.1@))[j] == (
                reps@[j].0@,
                reps@[j].1@,
            ));
        }
    }
    match crate::skeleton::generate_plan(
        &args.name,
        vstd::slice::slice_to_vec(skeleton_bytes),
        &package_dir,
        &reps,
        os_suffix,
    ) {
        Ok(steps) => Ok(Plan { steps }),
        Err(e) => Err(e),
    }
}

} // verus!
