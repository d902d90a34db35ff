use std::path::PathBuf;

use codex_rs::thread_items::{
    guardian_command_execution_item, guardian_execve_argv, synthetic_command_execution_item,
    synthetic_file_change_item, CommandAction, CommandExecutionSource, CommandExecutionStatus,
    CommandRendering, FileUpdateChange, GuardianAssessmentAction, GuardianAssessmentEvent,
    PatchApplyStatus, PatchChangeKind, ThreadItem,
};

fn join(argv: &Vec<String>) -> CommandRendering {
    CommandRendering { command: argv.join(" "), parsed_actions: Vec::new() }
}

#[test]
fn file_change_item_carries_its_fields() {
    let changes = vec![FileUpdateChange {
        path: "src/lib.rs".to_string(),
        kind: PatchChangeKind::Update { move_path: None },
        diff: "@@".to_string(),
    }];
    let item = synthetic_file_change_item("item-1".to_string(), changes.clone(), PatchApplyStatus::InProgress);
    assert_eq!(
        item,
        ThreadItem::FileChange { id: "item-1".to_string(), changes, status: PatchApplyStatus::InProgress }
    );
}

#[test]
fn command_item_starts_without_process_or_output() {
    let item = synthetic_command_execution_item(
        "item-2".to_string(),
        "ls -la".to_string(),
        PathBuf::from("/tmp"),
        vec![CommandAction::Unknown { command: "ls -la".to_string() }],
        CommandExecutionSource::Agent,
        CommandExecutionStatus::Declined,
    );
    match item {
        ThreadItem::CommandExecution {
            id,
            command,
            cwd,
            process_id,
            source,
            status,
            command_actions,
            aggregated_output,
            exit_code,
            duration_ms,
        } => {
            assert_eq!(id, "item-2");
            assert_eq!(command, "ls -la");
            assert_eq!(cwd, PathBuf::from("/tmp"));
            assert_eq!(process_id, None);
            assert_eq!(source, CommandExecutionSource::Agent);
            assert_eq!(status, CommandExecutionStatus::Declined);
            assert_eq!(command_actions.len(), 1);
            assert_eq!(aggregated_output, None);
            assert_eq!(exit_code, None);
            assert_eq!(duration_ms, None);
        }
        other => panic!("unexpected item {other:?}"),
    }
}

#[test]
fn execve_argv_replaces_first_argument_with_program() {
    let argv = vec!["sh".to_string(), "-c".to_string(), "echo hi".to_string()];
    assert_eq!(
        guardian_execve_argv(&"/bin/sh".to_string(), &argv),
        vec!["/bin/sh".to_string(), "-c".to_string(), "echo hi".to_string()]
    );
    assert_eq!(guardian_execve_argv(&"/bin/ls".to_string(), &Vec::new()), vec!["/bin/ls".to_string()]);
}

#[test]
fn guardian_shell_command_gets_unknown_action() {
    let assessment = GuardianAssessmentEvent {
        id: "g-1".to_string(),
        action: GuardianAssessmentAction::Command { command: "rm -rf build".to_string(), cwd: PathBuf::from("/repo") },
    };
    let item = guardian_command_execution_item(&assessment, CommandExecutionStatus::InProgress, join);
    assert_eq!(
        item,
        Some(ThreadItem::CommandExecution {
            id: "g-1".to_string(),
            command: "rm -rf build".to_string(),
            cwd: PathBuf::from("/repo"),
            process_id: None,
            source: CommandExecutionSource::Agent,
            status: CommandExecutionStatus::InProgress,
            command_actions: vec![CommandAction::Unknown { command: "rm -rf build".to_string() }],
            aggregated_output: None,
            exit_code: None,
            duration_ms: None,
        })
    );
}

#[test]
fn guardian_execve_uses_rendering_and_falls_back_to_unknown() {
    let assessment = GuardianAssessmentEvent {
        id: "g-2".to_string(),
        action: GuardianAssessmentAction::Execve {
            program: "/usr/bin/git".to_string(),
            argv: vec!["git".to_string(), "status".to_string()],
            cwd: PathBuf::from("/repo"),
        },
    };
    let item = guardian_command_execution_item(&assessment, CommandExecutionStatus::InProgress, join).unwrap();
    match item {
        ThreadItem::CommandExecution { command, command_actions, .. } => {
            assert_eq!(command, "/usr/bin/git status");
            assert_eq!(command_actions, vec![CommandAction::Unknown { command: "/usr/bin/git status".to_string() }]);
        }
        other => panic!("unexpected item {other:?}"),
    }
}

#[test]
fn guardian_execve_keeps_parsed_actions() {
    let assessment = GuardianAssessmentEvent {
        id: "g-3".to_string(),
        action: GuardianAssessmentAction::Execve {
            program: "cat".to_string(),
            argv: vec!["cat".to_string(), "README.md".to_string()],
            cwd: PathBuf::from("/repo"),
        },
    };
    let render = |argv: &Vec<String>| CommandRendering {
        command: argv.join(" "),
        parsed_actions: vec![CommandAction::Read {
            command: argv.join(" "),
            name: "README.md".to_string(),
            path: PathBuf::from("README.md"),
        }],
    };
    let item = guardian_command_execution_item(&assessment, CommandExecutionStatus::Completed, render).unwrap();
    match item {
        ThreadItem::CommandExecution { command_actions, status, .. } => {
            assert_eq!(status, CommandExecutionStatus::Completed);
            assert!(matches!(command_actions.as_slice(), [CommandAction::Read { .. }]));
        }
        other => panic!("unexpected item {other:?}"),
    }
}

#[test]
fn guardian_other_actions_have_no_item() {
    for action in [
        GuardianAssessmentAction::ApplyPatch,
        GuardianAssessmentAction::NetworkAccess,
        GuardianAssessmentAction::McpToolCall,
    ] {
        let assessment = GuardianAssessmentEvent { id: "g".to_string(), action };
        assert_eq!(guardian_command_execution_item(&assessment, CommandExecutionStatus::InProgress, join), None);
    }
}
