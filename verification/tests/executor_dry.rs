//! Dry-run execution: always succeeds, previews every step kind, and
//! touches nothing.

use hymod::executor::Executor;
use hymod::step::{Plan, Step};

fn s(t: &str) -> String {
    t.to_string()
}

#[test]
fn test_dry_run_output() {
    let plan = Plan {
        steps: vec![
            Step::RunProcess {
                cmd: s("./gradlew"),
                args: vec![s("test"), s("build")],
                cwd: Some(s("/repo")),
            },
            Step::CheckFile { path: s("/repo/build/hymod/artifact.zip") },
            Step::Symlink {
                from: s("/repo/build/hymod/artifact.zip"),
                to: s("/opt/hytale-local/mods/com.acme.power"),
            },
            Step::RunProcess {
                cmd: s("/opt/hytale-local/bin/restart.sh"),
                args: vec![],
                cwd: None,
            },
        ],
    };

    let executor = Executor::new(true);
    executor.execute(&plan).expect("Dry run failed");
}

#[test]
fn dry_run_makes_no_filesystem_change_and_previews_in_order() {
    let dir = tempfile::tempdir().expect("failed to create temp dir");
    let mut made = dir.path().to_string_lossy().into_owned();
    made.push_str("/would_be_made");
    let plan = Plan {
        steps: vec![
            Step::RunProcess { cmd: s("./gradlew"), args: vec![s("build")], cwd: None },
            Step::CheckFile { path: s("/no/such/file") },
            Step::Mkdir { path: made.clone() },
            Step::WriteFile { path: made.clone(), content: s("x") },
        ],
    };

    // The dry run prints exactly these lines and performs nothing: the
    // failing check does not fail it, the directory is not created.
    let lines = plan.preview();
    assert_eq!(lines.len(), 5);
    assert_eq!(lines[0], "PLAN");
    assert_eq!(lines[1], "  1. RUN      ./gradlew build    ");
    assert_eq!(lines[2], "  2. CHECK     /no/such/file");
    assert_eq!(lines[3], "  3. MKDIR     ".to_string() + &made);
    assert_eq!(lines[4], "  4. WRITE     ".to_string() + &made);

    Executor::new(true).execute(&plan).unwrap();

    assert!(fs_err::metadata(&made).is_err(), "dry run must not touch the filesystem");
}

#[test]
fn dry_run_succeeds_for_every_step_kind() {
    let plan = Plan {
        steps: vec![
            Step::RunProcess { cmd: s("x"), args: vec![], cwd: None },
            Step::WriteFile { path: s("p"), content: s("c") },
            Step::WriteBytes { path: s("p"), content: vec![1u8] },
            Step::Mkdir { path: s("p") },
            Step::CopyFile { from: s("a"), to: s("b") },
            Step::Symlink { from: s("a"), to: s("b") },
            Step::UploadRsync { local: s("a"), remote: s("b"), opts: s("-avz") },
            Step::UploadScp { local: s("a"), remote: s("b") },
            Step::SshRun { host: s("h"), user: s("u"), cmd: s("c") },
            Step::CheckFile { path: s("p") },
            Step::CheckZip { path: s("p") },
        ],
    };
    Executor::new(true).execute(&plan).unwrap();
}

#[test]
fn executor_reports_its_mode() {
    assert!(Executor::new(true).is_dry_run());
    assert!(!Executor::new(false).is_dry_run());
}
