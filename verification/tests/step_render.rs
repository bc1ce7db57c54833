//! The textual rendering of every step kind, and the dry-run preview lines.

use hymod::step::{Plan, Step};

fn s(t: &str) -> String {
    t.to_string()
}

#[test]
fn test_plan_deterministic_output() {
    let plan = Plan {
        steps: vec![
            Step::RunProcess {
                cmd: s("echo"),
                args: vec![s("hello")],
                cwd: Some(s("/repo")),
            },
            Step::CheckFile { path: s("/path/to/file") },
        ],
    };

    let mut plan_string = String::new();
    for step in &plan.steps {
        plan_string.push_str(&format!("{}\n", step.render()));
    }

    let expected = "RUN      echo hello    (cwd: /repo)\nCHECK     /path/to/file\n";
    assert_eq!(plan_string, expected);
}

#[test]
fn test_plan_dry_run_format() {
    let step = Step::Mkdir { path: s("/tmp/foo") };
    assert_eq!(step.render(), "MKDIR     /tmp/foo");

    let step = Step::UploadRsync { local: s("src"), remote: s("dest"), opts: s("-avz") };
    assert_eq!(step.render(), "UPLOAD(RSYNC) src -> dest");
}

#[test]
fn render_of_every_step_kind_matches_format_table() {
    assert_eq!(
        Step::RunProcess { cmd: s("echo"), args: vec![s("a"), s("b")], cwd: None }.render(),
        "RUN      echo a b    "
    );
    assert_eq!(
        Step::RunProcess { cmd: s("make"), args: vec![], cwd: Some(s("/w")) }.render(),
        "RUN      make     (cwd: /w)"
    );
    assert_eq!(
        Step::WriteFile { path: s("a.txt"), content: s("x") }.render(),
        "WRITE     a.txt"
    );
    assert_eq!(
        Step::WriteBytes { path: s("a.bin"), content: vec![1u8, 2u8] }.render(),
        "WRITE(B)  a.bin"
    );
    assert_eq!(Step::Mkdir { path: s("d") }.render(), "MKDIR     d");
    assert_eq!(
        Step::CopyFile { from: s("x"), to: s("y") }.render(),
        "COPY      x -> y"
    );
    // The symlink prints its link path first.
    assert_eq!(
        Step::Symlink { from: s("target"), to: s("link") }.render(),
        "SYMLINK   link -> target"
    );
    assert_eq!(
        Step::UploadRsync { local: s("l"), remote: s("r"), opts: s("-avz") }.render(),
        "UPLOAD(RSYNC) l -> r"
    );
    assert_eq!(
        Step::UploadScp { local: s("l"), remote: s("r") }.render(),
        "UPLOAD(SCP)   l -> r"
    );
    // The ssh step prints only the remote command line.
    assert_eq!(
        Step::SshRun { host: s("h"), user: s("u"), cmd: s("systemctl restart hytale") }.render(),
        "RUN       systemctl restart hytale"
    );
    assert_eq!(Step::CheckFile { path: s("p") }.render(), "CHECK     p");
    assert_eq!(Step::CheckZip { path: s("p.zip") }.render(), "CHECK     p.zip");
}

#[test]
fn preview_has_header_and_one_indexed_line_per_step() {
    let plan = Plan {
        steps: vec![
            Step::Mkdir { path: s("/tmp/a") },
            Step::CheckFile { path: s("/tmp/b") },
        ],
    };
    let lines = plan.preview();
    assert_eq!(lines.len(), 3);
    assert_eq!(lines[0], "PLAN");
    assert_eq!(lines[1], "  1. MKDIR     /tmp/a");
    assert_eq!(lines[2], "  2. CHECK     /tmp/b");
}

#[test]
fn preview_indices_are_decimal_past_nine() {
    let mut steps = Vec::new();
    for i in 0..12 {
        steps.push(Step::Mkdir { path: format!("/tmp/d{}", i) });
    }
    let plan = Plan { steps };
    let lines = plan.preview();
    assert_eq!(lines.len(), 13);
    assert_eq!(lines[10], "  10. MKDIR     /tmp/d9");
    assert_eq!(lines[12], "  12. MKDIR     /tmp/d11");
}
