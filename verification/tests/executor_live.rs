//! Live execution: real effects, ordering, fail-fast, idempotent targets,
//! and the exact failure messages.

use hymod::executor::Executor;
use hymod::handlers::{rsync_argv, rsync_outcome, scp_argv, scp_outcome, ssh_argv, ssh_outcome};
use hymod::step::{Plan, Step};

fn s(t: &str) -> String {
    t.to_string()
}

fn path_str(dir: &tempfile::TempDir, name: &str) -> String {
    let mut p = dir.path().to_string_lossy().into_owned();
    p.push('/');
    p.push_str(name);
    p
}

#[test]
fn test_execute_plan_check_failure() {
    let plan = Plan {
        steps: vec![Step::CheckFile { path: s("/non/existent/path/should/fail") }],
    };

    let executor = Executor::new(false);
    let result = executor.execute(&plan);

    assert!(result.is_err());
    assert_eq!(
        result.unwrap_err().message,
        "File not found: /non/existent/path/should/fail"
    );
}

#[test]
fn test_execute_plan_check_zip_failure() {
    let plan = Plan {
        steps: vec![Step::CheckZip { path: s("/non/existent/artifact.zip") }],
    };

    let executor = Executor::new(false);
    let result = executor.execute(&plan);

    assert!(result.is_err());
    assert!(result.unwrap_err().message.contains("Zip artifact not found"));
}

#[test]
fn test_execute_plan_run_process_failure() {
    let plan = Plan {
        steps: vec![Step::RunProcess {
            cmd: s("non_existent_command_12345"),
            args: vec![],
            cwd: None,
        }],
    };

    let executor = Executor::new(false);
    let result = executor.execute(&plan);

    assert!(result.is_err());
}

#[test]
fn test_execute_plan_run_process_exit_code_failure() {
    let plan = Plan {
        steps: vec![Step::RunProcess { cmd: s("false"), args: vec![], cwd: None }],
    };

    let executor = Executor::new(false);
    let result = executor.execute(&plan);

    assert!(result.is_err());
    assert!(result.unwrap_err().message.contains("Command failed: false"));
}

#[test]
fn test_execute_plan_run_process() {
    let plan = Plan {
        steps: vec![Step::RunProcess { cmd: s("echo"), args: vec![s("hello")], cwd: None }],
    };

    let executor = Executor::new(false);
    executor.execute(&plan).unwrap();
}

#[test]
fn test_execute_plan_mkdir() {
    let dir = tempfile::tempdir().expect("failed to create temp dir");
    let sub = path_str(&dir, "subdir");
    let plan = Plan { steps: vec![Step::Mkdir { path: sub.clone() }] };

    Executor::new(false).execute(&plan).unwrap();

    let meta = fs_err::metadata(&sub).expect("directory should exist");
    assert!(meta.is_dir());
}

#[test]
fn test_execute_plan_write_file() {
    let dir = tempfile::tempdir().expect("failed to create temp dir");
    let out = path_str(&dir, "output.txt");
    let plan = Plan {
        steps: vec![Step::WriteFile { path: out.clone(), content: s("payload") }],
    };

    Executor::new(false).execute(&plan).unwrap();

    assert_eq!(fs_err::read_to_string(&out).unwrap(), "payload");
}

#[test]
fn test_execute_plan_copy_file() {
    let dir = tempfile::tempdir().expect("failed to create temp dir");
    let src = path_str(&dir, "source.txt");
    let dst = path_str(&dir, "dest.txt");
    fs_err::write(&src, "hello world").unwrap();
    let plan = Plan { steps: vec![Step::CopyFile { from: src, to: dst.clone() }] };

    Executor::new(false).execute(&plan).unwrap();

    assert_eq!(fs_err::read_to_string(&dst).unwrap(), "hello world");
}

#[test]
fn test_execute_plan_symlink() {
    let dir = tempfile::tempdir().expect("failed to create temp dir");
    let target = path_str(&dir, "target.txt");
    let link = path_str(&dir, "link.txt");
    fs_err::write(&target, "content").unwrap();
    let plan = Plan { steps: vec![Step::Symlink { from: target, to: link.clone() }] };

    Executor::new(false).execute(&plan).unwrap();

    let meta = fs_err::symlink_metadata(&link).unwrap();
    assert!(meta.file_type().is_symlink());
    assert_eq!(fs_err::read_to_string(&link).unwrap(), "content");
}

#[test]
fn test_execute_plan_copy_missing_source() {
    let dir = tempfile::tempdir().expect("failed to create temp dir");
    let src = path_str(&dir, "missing.txt");
    let dst = path_str(&dir, "dest.txt");
    let plan = Plan { steps: vec![Step::CopyFile { from: src, to: dst }] };

    let result = Executor::new(false).execute(&plan);

    assert!(result.is_err());
    assert!(result.unwrap_err().message.contains("Failed to copy"));
}

#[test]
fn test_execute_plan_symlink_missing_source_allowed() {
    let dir = tempfile::tempdir().expect("failed to create temp dir");
    let target = path_str(&dir, "missing_target.txt");
    let link = path_str(&dir, "link_to_missing.txt");
    let plan = Plan { steps: vec![Step::Symlink { from: target, to: link.clone() }] };

    Executor::new(false).execute(&plan).unwrap();

    assert!(fs_err::symlink_metadata(&link).unwrap().file_type().is_symlink());
}

#[test]
fn mkdir_on_existing_directory_succeeds_again() {
    let dir = tempfile::tempdir().expect("failed to create temp dir");
    let sub = path_str(&dir, "twice");
    let plan = Plan { steps: vec![Step::Mkdir { path: sub.clone() }] };

    Executor::new(false).execute(&plan).unwrap();
    Executor::new(false).execute(&plan).unwrap();

    assert!(fs_err::metadata(&sub).unwrap().is_dir());
}

#[test]
fn symlink_replaces_an_existing_link() {
    let dir = tempfile::tempdir().expect("failed to create temp dir");
    let one = path_str(&dir, "one.txt");
    let two = path_str(&dir, "two.txt");
    let link = path_str(&dir, "current");
    fs_err::write(&one, "one").unwrap();
    fs_err::write(&two, "two").unwrap();

    Executor::new(false)
        .execute(&Plan { steps: vec![Step::Symlink { from: one, to: link.clone() }] })
        .unwrap();
    Executor::new(false)
        .execute(&Plan { steps: vec![Step::Symlink { from: two, to: link.clone() }] })
        .unwrap();

    assert_eq!(fs_err::read_to_string(&link).unwrap(), "two");
}

#[test]
fn symlink_replaces_an_existing_file() {
    let dir = tempfile::tempdir().expect("failed to create temp dir");
    let target = path_str(&dir, "target.txt");
    let link = path_str(&dir, "occupied");
    fs_err::write(&target, "fresh").unwrap();
    fs_err::write(&link, "stale").unwrap();

    Executor::new(false)
        .execute(&Plan { steps: vec![Step::Symlink { from: target, to: link.clone() }] })
        .unwrap();

    assert!(fs_err::symlink_metadata(&link).unwrap().file_type().is_symlink());
    assert_eq!(fs_err::read_to_string(&link).unwrap(), "fresh");
}

#[test]
fn write_creates_missing_parent_directories() {
    let dir = tempfile::tempdir().expect("failed to create temp dir");
    let deep = path_str(&dir, "a/b/c.txt");
    let plan = Plan {
        steps: vec![Step::WriteFile { path: deep.clone(), content: s("deep") }],
    };

    Executor::new(false).execute(&plan).unwrap();

    assert_eq!(fs_err::read_to_string(&deep).unwrap(), "deep");
}

#[test]
fn execution_order_is_plan_order() {
    let dir = tempfile::tempdir().expect("failed to create temp dir");
    let f = path_str(&dir, "f.txt");
    let g = path_str(&dir, "g.txt");
    // The copy sees the first write, the second write lands after the copy:
    // only in-order execution leaves f == "second" and g == "first".
    let plan = Plan {
        steps: vec![
            Step::WriteFile { path: f.clone(), content: s("first") },
            Step::CopyFile { from: f.clone(), to: g.clone() },
            Step::WriteFile { path: f.clone(), content: s("second") },
        ],
    };

    Executor::new(false).execute(&plan).unwrap();

    assert_eq!(fs_err::read_to_string(&g).unwrap(), "first");
    assert_eq!(fs_err::read_to_string(&f).unwrap(), "second");
}

#[test]
fn failure_stops_all_later_steps() {
    let dir = tempfile::tempdir().expect("failed to create temp dir");
    let missing = path_str(&dir, "no/such/file");
    let after = path_str(&dir, "after.txt");
    let plan = Plan {
        steps: vec![
            Step::CheckFile { path: missing.clone() },
            Step::WriteFile { path: after.clone(), content: s("never") },
        ],
    };

    let result = Executor::new(false).execute(&plan);

    assert!(result.is_err());
    assert_eq!(result.unwrap_err().message, format!("File not found: {}", missing));
    assert!(fs_err::metadata(&after).is_err(), "the step after the failure must not run");
}

#[test]
fn write_bytes_writes_binary_content() {
    let dir = tempfile::tempdir().expect("failed to create temp dir");
    let out = path_str(&dir, "blob.bin");
    let bytes = vec![0u8, 159u8, 146u8, 150u8];
    let plan = Plan {
        steps: vec![Step::WriteBytes { path: out.clone(), content: bytes.clone() }],
    };

    Executor::new(false).execute(&plan).unwrap();

    assert_eq!(fs_err::read(&out).unwrap(), bytes);
}

#[test]
fn mkdir_failure_names_the_directory() {
    let dir = tempfile::tempdir().expect("failed to create temp dir");
    let file = path_str(&dir, "plain.txt");
    fs_err::write(&file, "x").unwrap();
    // A directory cannot be created where a file already sits.
    let plan = Plan { steps: vec![Step::Mkdir { path: file.clone() }] };

    let result = Executor::new(false).execute(&plan);

    assert!(result.is_err());
    let msg = result.unwrap_err().message;
    assert!(msg.starts_with(&format!("Failed to create directory {}", file)));
}

#[test]
fn network_argument_vectors_are_exact() {
    assert_eq!(
        ssh_argv(&s("user"), &s("example.com"), &s("mkdir -p /opt/hytale/mods")),
        vec![s("user@example.com"), s("mkdir -p /opt/hytale/mods")]
    );
    assert_eq!(
        rsync_argv(&s("-avz"), &s("a.jar"), &s("u@h:/mods/a.jar")),
        vec![s("-avz"), s("a.jar"), s("u@h:/mods/a.jar")]
    );
    assert_eq!(
        scp_argv(&s("a.jar"), &s("u@h:/mods/a.jar")),
        vec![s("a.jar"), s("u@h:/mods/a.jar")]
    );
}

#[test]
fn network_outcome_messages_are_exact() {
    assert!(rsync_outcome(Ok(true)).is_ok());
    assert_eq!(rsync_outcome(Ok(false)).unwrap_err().message, "Rsync failed");
    assert_eq!(
        rsync_outcome(Err(s("boom"))).unwrap_err().message,
        "Failed to run rsync: boom"
    );

    assert!(scp_outcome(Ok(true)).is_ok());
    assert_eq!(scp_outcome(Ok(false)).unwrap_err().message, "Scp failed");
    assert_eq!(
        scp_outcome(Err(s("boom"))).unwrap_err().message,
        "Failed to run scp: boom"
    );

    assert!(ssh_outcome(Ok(true)).is_ok());
    assert_eq!(ssh_outcome(Ok(false)).unwrap_err().message, "Ssh command failed");
    assert_eq!(
        ssh_outcome(Err(s("boom"))).unwrap_err().message,
        "Failed to run ssh command: boom"
    );
}
