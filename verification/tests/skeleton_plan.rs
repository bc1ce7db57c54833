//! Expanding a skeleton archive into a scaffold plan: platform filtering,
//! package relocation, token substitution, and binary passthrough.

use std::io::Write;

use hymod::config::UserConfig;
use hymod::scaffold::{generate_plan, NewArgs};
use hymod::step::Step;

fn s(t: &str) -> String {
    t.to_string()
}

fn base_args(name: &str) -> NewArgs {
    NewArgs {
        name: s(name),
        path: None,
        group: None,
        package: None,
        no_ui_dir: false,
        author: None,
        version: None,
        desc: None,
        interactive: false,
    }
}

/// Build an in-memory skeleton archive like the one shipped with the tool:
/// one root folder wrapping a Gradle project with platform-specific
/// `local.properties` variants, a template Java package, and one binary.
fn skeleton_zip() -> Vec<u8> {
    let options = zip::write::SimpleFileOptions::default();
    let mut w = zip::ZipWriter::new(std::io::Cursor::new(Vec::new()));
    w.add_directory("root/gradle/", options).unwrap();
    w.start_file("root/settings.gradle", options).unwrap();
    w.write_all(b"rootProject.name = '<MOD_NAME>'\n").unwrap();
    w.start_file("root/build.gradle", options).unwrap();
    w.write_all(b"plugins { id 'java' }\n").unwrap();
    w.start_file("root/.gitignore", options).unwrap();
    w.write_all(b"build/\n").unwrap();
    w.start_file("root/local.properties.linux", options).unwrap();
    w.write_all(b"os=linux\n").unwrap();
    w.start_file("root/local.properties.mac", options).unwrap();
    w.write_all(b"os=mac\n").unwrap();
    w.start_file("root/local.properties.windows", options).unwrap();
    w.write_all(b"os=windows\n").unwrap();
    w.start_file("root/local.properties.example", options).unwrap();
    w.write_all(b"os=example\n").unwrap();
    w.start_file("root/src/main/java/com/example/skeleton/Main.java", options).unwrap();
    w.write_all(b"package com.example.skeleton;\n\npublic class Main {}").unwrap();
    w.start_file("root/README.md", options).unwrap();
    w.write_all(b"# <MOD_NAME>\nby <AUTHOR>\n").unwrap();
    w.start_file("root/gradle/wrapper/gradle-wrapper.jar", options).unwrap();
    w.write_all(&[0u8, 159u8, 146u8, 150u8, 255u8]).unwrap();
    w.finish().unwrap().into_inner()
}

#[test]
fn test_skeleton_plan_generation() {
    let skeleton_bytes = skeleton_zip();
    let plan =
        generate_plan(&base_args("testmod"), &UserConfig::default(), &skeleton_bytes, &s(".linux"))
            .unwrap();

    assert!(!plan.steps.is_empty(), "Plan should not be empty");

    let mut found_gradle = false;
    let mut found_gitignore = false;
    let mut found_binary = false;

    for step in &plan.steps {
        match step {
            Step::WriteFile { path, content } => {
                if path.contains("settings.gradle") {
                    found_gradle = true;
                    assert!(
                        content.contains("testmod"),
                        "settings.gradle should contain project name"
                    );
                }
                if path.contains(".gitignore") {
                    found_gitignore = true;
                }
                assert!(!path.ends_with(".mac"), "Should not have .mac file: {}", path);
                assert!(!path.ends_with(".windows"), "Should not have .windows file: {}", path);
                assert!(!path.ends_with(".linux"), "Should not have .linux file: {}", path);
            }
            Step::WriteBytes { .. } => {
                found_binary = true;
            }
            _ => {}
        }
    }

    assert!(found_gradle, "Should have found build.gradle");
    assert!(found_gitignore, "Should have found .gitignore");
    assert!(found_binary, "the wrapper jar is not text and stays binary");
}

#[test]
fn test_new_group_package_overrides() {
    let skeleton_bytes = skeleton_zip();
    let mut args = base_args("superping");
    args.group = Some(s("com.mygroup"));
    let plan =
        generate_plan(&args, &UserConfig::default(), &skeleton_bytes, &s(".linux")).unwrap();

    let mut found_main = false;
    let mut found_readme = false;
    for step in &plan.steps {
        if let Step::WriteFile { path, content } = step {
            if path == "superping/src/main/java/com/mygroup/superping/Main.java" {
                found_main = true;
                assert!(
                    content.contains("package com.mygroup.superping;"),
                    "Content package not replaced: {}",
                    content
                );
            }
            if path.ends_with("README.md") {
                found_readme = true;
                assert!(content.contains("# superping"));
            }
        }
    }
    assert!(found_main, "the template package moves under the project's package");
    assert!(found_readme, "Did not find README.md");
}

#[test]
fn platform_variant_is_renamed_and_the_others_are_dropped() {
    let skeleton_bytes = skeleton_zip();
    let plan =
        generate_plan(&base_args("testmod"), &UserConfig::default(), &skeleton_bytes, &s(".mac"))
            .unwrap();

    let mut text_writes = Vec::new();
    let mut binary_paths = Vec::new();
    for step in &plan.steps {
        match step {
            Step::WriteFile { path, content } if path.contains("local.properties") => {
                text_writes.push((path.clone(), content.clone()));
            }
            Step::WriteBytes { path, .. } if path.contains("local.properties") => {
                binary_paths.push(path.clone());
            }
            _ => {}
        }
    }
    // The platform's own variant lands as `local.properties` (a text file),
    // the example file passes through untouched (its `example` extension is
    // not templated), the other platforms' variants vanish.
    assert_eq!(text_writes.len(), 1);
    assert_eq!(text_writes[0].0, "testmod/local.properties");
    assert_eq!(text_writes[0].1, "os=mac\n");
    assert_eq!(binary_paths, vec!["testmod/local.properties.example".to_string()]);
}

#[test]
fn directories_become_mkdir_steps_under_the_project_name() {
    let skeleton_bytes = skeleton_zip();
    let plan =
        generate_plan(&base_args("testmod"), &UserConfig::default(), &skeleton_bytes, &s(".linux"))
            .unwrap();
    assert!(plan
        .steps
        .iter()
        .any(|st| matches!(st, Step::Mkdir { path } if path == "testmod/gradle")));
}

#[test]
fn binary_content_passes_through_unchanged() {
    let skeleton_bytes = skeleton_zip();
    let plan =
        generate_plan(&base_args("testmod"), &UserConfig::default(), &skeleton_bytes, &s(".linux"))
            .unwrap();
    let mut found = false;
    for step in &plan.steps {
        if let Step::WriteBytes { path, content } = step {
            if path == "testmod/gradle/wrapper/gradle-wrapper.jar" {
                found = true;
                assert_eq!(content, &vec![0u8, 159u8, 146u8, 150u8, 255u8]);
            }
        }
    }
    assert!(found);
}

#[test]
fn scaffold_values_come_from_flags_then_config_then_defaults() {
    let skeleton_bytes = skeleton_zip();
    let mut config = UserConfig::default();
    config.author = Some(s("Configured Author"));
    let mut args = base_args("MyMod");
    args.author = None;
    let plan = generate_plan(&args, &config, &skeleton_bytes, &s(".linux")).unwrap();

    let mut found_readme = false;
    let mut found_main = false;
    for step in &plan.steps {
        if let Step::WriteFile { path, content } = step {
            if path.ends_with("README.md") {
                found_readme = true;
                assert!(content.contains("by Configured Author"));
            }
            // The default package lowers the name: com.example.mymod.
            if path == "MyMod/src/main/java/com/example/mymod/Main.java" {
                found_main = true;
                assert!(content.contains("package com.example.mymod;"));
            }
        }
    }
    assert!(found_readme);
    assert!(found_main, "the package directory lowers the project name");
}

#[test]
fn bytes_that_are_no_archive_are_rejected() {
    let bogus = vec![1u8, 2u8, 3u8];
    assert!(
        generate_plan(&base_args("x"), &UserConfig::default(), &bogus, &s(".linux")).is_err()
    );
}
