use liteloader_installer::errors::StageError;
use liteloader_installer::paths::{join_path, script_path, shim_source_path, shim_target_path};
use liteloader_installer::script::{patch_script, require_line};
use liteloader_installer::workflow::{Action, Event, Installer, Stage};

fn machine(cwd: &str) -> Installer {
    Installer::new(cwd.to_string())
}

#[test]
fn require_line_embeds_the_working_directory_verbatim() {
    let line = require_line("D:\\tool");
    assert_eq!(line, "require(String.raw`D:\\tool`);");
}

#[test]
fn require_line_does_not_escape_special_characters() {
    let line = require_line("D:\\a b`c");
    assert_eq!(line, "require(String.raw`D:\\a b`c`);");
}

#[test]
fn patch_prepends_line_newline_then_original() {
    let patched = patch_script("D:\\tool", "console.log(\"hi\");");
    assert_eq!(patched, "require(String.raw`D:\\tool`);\nconsole.log(\"hi\");");
}

#[test]
fn patch_of_empty_script_is_line_and_newline() {
    let patched = patch_script("D:\\tool", "");
    assert_eq!(patched, "require(String.raw`D:\\tool`);\n");
}

#[test]
fn patching_twice_duplicates_the_line() {
    let once = patch_script("D:\\tool", "console.log(\"hi\");");
    let twice = patch_script("D:\\tool", &once);
    assert_eq!(
        twice,
        "require(String.raw`D:\\tool`);\nrequire(String.raw`D:\\tool`);\nconsole.log(\"hi\");"
    );
}

#[test]
fn join_inserts_a_separator() {
    assert_eq!(join_path("C:\\QQ", "dbghelp.dll"), "C:\\QQ\\dbghelp.dll");
}

#[test]
fn join_keeps_an_existing_trailing_separator() {
    assert_eq!(join_path("C:\\QQ\\", "dbghelp.dll"), "C:\\QQ\\dbghelp.dll");
}

#[test]
fn join_of_empty_base_starts_with_the_separator() {
    assert_eq!(join_path("", "dbghelp.dll"), "\\dbghelp.dll");
}

#[test]
fn script_path_points_into_the_install_tree() {
    assert_eq!(
        script_path("C:\\QQ"),
        "C:\\QQ\\resources\\app\\app_launcher\\index.js"
    );
}

#[test]
fn shim_paths_use_the_fixed_names() {
    assert_eq!(shim_source_path("D:\\tool"), "D:\\tool\\dbghelp_x64.dll");
    assert_eq!(shim_target_path("C:\\QQ"), "C:\\QQ\\dbghelp.dll");
}

#[test]
fn error_descriptions_are_distinct() {
    let all = [
        StageError::ConfigNotFound,
        StageError::ValueNotFound,
        StageError::FileNotReadable,
        StageError::FileNotWritable,
        StageError::MoveFailed,
    ];
    for (i, a) in all.iter().enumerate() {
        for (j, b) in all.iter().enumerate() {
            if i != j {
                assert_ne!(a.describe(), b.describe());
            }
        }
    }
}

#[test]
fn a_fresh_machine_first_queries_the_registry() {
    let m = machine("D:\\tool");
    assert!(matches!(m.start_action(), Action::QueryInstallPath));
    assert!(matches!(m.stage, Stage::Resolving));
}

#[test]
fn missing_registry_key_fails_with_config_not_found() {
    let m = machine("D:\\tool");
    let (m, action) = m.step(Event::KeyMissing);
    assert!(matches!(action, Action::Stop));
    match m.stage {
        Stage::Failed { error } => assert_eq!(error, StageError::ConfigNotFound),
        _ => panic!("expected a failed run"),
    }
}

#[test]
fn missing_registry_value_fails_with_value_not_found() {
    let m = machine("D:\\tool");
    let (m, action) = m.step(Event::ValueMissing);
    assert!(matches!(action, Action::Stop));
    match m.stage {
        Stage::Failed { error } => assert_eq!(error, StageError::ValueNotFound),
        _ => panic!("expected a failed run"),
    }
}

#[test]
fn resolved_install_path_is_kept_verbatim() {
    let m = machine("D:\\tool");
    let (m, _) = m.step(Event::InstallValue {
        install: "  C:\\Mixed Case\\QQ  ".to_string(),
    });
    match m.stage {
        Stage::Patching { install } => assert_eq!(install, "  C:\\Mixed Case\\QQ  "),
        _ => panic!("expected the patching stage"),
    }
}

#[test]
fn unreadable_script_fails_before_the_library_moves() {
    let m = machine("D:\\tool");
    let (m, action) = m.step(Event::InstallValue {
        install: "C:\\QQ".to_string(),
    });
    match action {
        Action::ReadFile { path } => {
            assert_eq!(path, "C:\\QQ\\resources\\app\\app_launcher\\index.js")
        }
        _ => panic!("expected a read of the launcher script"),
    }
    let (m, action) = m.step(Event::ScriptUnreadable);
    assert!(matches!(action, Action::Stop));
    match m.stage {
        Stage::Failed { error } => assert_eq!(error, StageError::FileNotReadable),
        _ => panic!("expected a failed run"),
    }
}

#[test]
fn unwritable_script_fails_with_file_not_writable() {
    let m = machine("D:\\tool");
    let (m, _) = m.step(Event::InstallValue {
        install: "C:\\QQ".to_string(),
    });
    let (m, _) = m.step(Event::ScriptContent {
        content: "x();".to_string(),
    });
    let (m, action) = m.step(Event::ScriptUnwritable);
    assert!(matches!(action, Action::Stop));
    match m.stage {
        Stage::Failed { error } => assert_eq!(error, StageError::FileNotWritable),
        _ => panic!("expected a failed run"),
    }
}

#[test]
fn failed_library_move_fails_with_move_failed() {
    let m = machine("D:\\tool");
    let (m, _) = m.step(Event::InstallValue {
        install: "C:\\QQ".to_string(),
    });
    let (m, _) = m.step(Event::ScriptContent {
        content: "x();".to_string(),
    });
    let (m, _) = m.step(Event::ScriptWritten);
    let (m, action) = m.step(Event::LibraryMoveFailed);
    assert!(matches!(action, Action::Stop));
    match m.stage {
        Stage::Failed { error } => assert_eq!(error, StageError::MoveFailed),
        _ => panic!("expected a failed run"),
    }
}

#[test]
fn full_run_patches_the_script_and_moves_the_library() {
    let m = machine("D:\\tool");
    assert!(matches!(m.start_action(), Action::QueryInstallPath));

    let (m, action) = m.step(Event::InstallValue {
        install: "C:\\QQ".to_string(),
    });
    match action {
        Action::ReadFile { path } => {
            assert_eq!(path, "C:\\QQ\\resources\\app\\app_launcher\\index.js")
        }
        _ => panic!("expected a read of the launcher script"),
    }

    let (m, action) = m.step(Event::ScriptContent {
        content: "console.log(\"hi\");".to_string(),
    });
    match action {
        Action::WriteFile { path, content } => {
            assert_eq!(path, "C:\\QQ\\resources\\app\\app_launcher\\index.js");
            assert_eq!(content, "require(String.raw`D:\\tool`);\nconsole.log(\"hi\");");
        }
        _ => panic!("expected a write of the patched script"),
    }

    let (m, action) = m.step(Event::ScriptWritten);
    match action {
        Action::MoveFile { from, to } => {
            assert_eq!(from, "D:\\tool\\dbghelp_x64.dll");
            assert_eq!(to, "C:\\QQ\\dbghelp.dll");
        }
        _ => panic!("expected the library move"),
    }

    let (m, action) = m.step(Event::LibraryMoved);
    assert!(matches!(action, Action::Stop));
    assert!(matches!(m.stage, Stage::Done));
}
