//! Synthetic thread items: items that the app server builds itself, rather than
//! receiving them from core item events, so that clients can show a coherent
//! lifecycle for approvals and other steps that come before a tool runs (or
//! that never lead to one). Live notifications and rebuilt thread history both
//! build these items here, so the two cannot drift apart.

use std::path::PathBuf;
use vstd::prelude::*;


verus! {

/// How a file is changed by a patch.
#[derive(Debug, Clone, PartialEq, Eq)]
pub enum PatchChangeKind {
    Add,
    Delete,
    Update { move_path: Option<PathBuf> },
}

/// One file changed by a patch.
#[derive(Debug, Clone, PartialEq, Eq)]
pub struct FileUpdateChange {
    pub path: String,
    pub kind: PatchChangeKind,
    pub diff: String,
}

/// Where applying a patch stands.
#[derive(Debug, Clone, Copy, PartialEq, Eq, Structural)]
pub enum PatchApplyStatus {
    InProgress,
    Completed,
    Failed,
    Declined,
}

/// Who started a command.
#[derive(Debug, Clone, Copy, PartialEq, Eq, Structural)]
pub enum CommandExecutionSource {
    Agent,
    UserShell,
}

/// Where running a command stands.
#[derive(Debug, Clone, Copy, PartialEq, Eq, Structural)]
pub enum CommandExecutionStatus {
    InProgress,
    Completed,
    Failed,
    Declined,
}

/// What a command was understood to do.
#[derive(Debug, Clone, PartialEq, Eq)]
pub enum CommandAction {
    Read { command: String, name: String, path: PathBuf },
    ListFiles { command: String, path: Option<String> },
    Search { command: String, query: Option<String>, path: Option<String> },
    Unknown { command: String },
}

/// An item of a thread, as clients render it.
#[derive(Debug, Clone, PartialEq, Eq)]
pub enum ThreadItem {
    FileChange { id: String, changes: Vec<FileUpdateChange>, status: PatchApplyStatus },
    CommandExecution {
        id: String,
        command: String,
        cwd: PathBuf,
        process_id: Option<String>,
        source: CommandExecutionSource,
        status: CommandExecutionStatus,
        command_actions: Vec<CommandAction>,
        aggregated_output: Option<String>,
        exit_code: Option<i32>,
        duration_ms: Option<i64>,
    },
}

/// What the guardian was asked to assess.
#[derive(Debug, Clone, PartialEq, Eq)]
pub enum GuardianAssessmentAction {
    /// A shell command line.
    Command { command: String, cwd: PathBuf },
    /// A program run with an argument vector (whose first entry names the program).
    Execve { program: String, argv: Vec<String>, cwd: PathBuf },
    ApplyPatch,
    NetworkAccess,
    McpToolCall,
}

/// The guardian's assessment of an action.
#[derive(Debug, Clone, PartialEq, Eq)]
pub struct GuardianAssessmentEvent {
    pub id: String,
    pub action: GuardianAssessmentAction,
}

/// How an argument vector is shown: the shell-quoted command line, and the
/// actions that parsing it found (none when it could not be understood).
pub struct CommandRendering {
    pub command: String,
    pub parsed_actions: Vec<CommandAction>,
}

/// A file-change item in the given state.
pub fn synthetic_file_change_item(
    item_id: String,
    changes: Vec<FileUpdateChange>,
    status: PatchApplyStatus,
) -> (item: ThreadItem)
    ensures
        item == (ThreadItem::FileChange { id: item_id, changes, status }),
{
    ThreadItem::FileChange { id: item_id, changes, status }
}

/// A command-execution item in the given state, before any process, output,
/// exit code or duration exists.
pub fn synthetic_command_execution_item(
    item_id: String,
    command: String,
    cwd: PathBuf,
    command_actions: Vec<CommandAction>,
    source: CommandExecutionSource,
    status: CommandExecutionStatus,
) -> (item: ThreadItem)
    ensures
        item == (ThreadItem::CommandExecution {
            id: item_id,
            command,
            cwd,
            process_id: None,
            source,
            status,
            command_actions,
            aggregated_output: None,
            exit_code: None,
            duration_ms: None,
        }),
{
    ThreadItem::CommandExecution {
        id: item_id,
        command,
        cwd,
        process_id: None,
        source,
        status,
        command_actions,
        aggregated_output: None,
        exit_code: None,
        duration_ms: None,
    }
}

/// The argument vector shown for an execve action: the program, then the
/// arguments after the first (which named the program); just the program when
/// there are no arguments.
pub open spec fn execve_display_argv(program: String, argv: Seq<String>) -> Seq<String> {
    if argv.len() == 0 {
        seq![program]
    } else {
        seq![program] + argv.skip(1)
    }
}

/// The argument vector shown for an execve action.
pub fn guardian_execve_argv(program: &String, argv: &Vec<String>) -> (shown: Vec<String>)
    ensures
        shown@ == execve_display_argv(*program, argv@),
{
    let mut shown: Vec<String> = Vec::new();
    shown.push(program.clone());
    let n = argv.len();
    if n == 0 {
        assert(shown@ =~= seq![*program]);
        return shown;
    }
    let mut i: usize = 1;
    assert(shown@ =~= seq![*program] + argv@.subrange(1, 1));
    while i < n
        invariant
            n == argv@.len(),
            1 <= i <= n,
            shown@ == seq![*program] + argv@.subrange(1, i as int),
        decreases n - i,
    {
        shown.push(argv[i].clone());
        assert(argv@.subrange(1, i + 1) =~= argv@.subrange(1, i as int).push(argv@[i as int]));
        assert(seq![*program] + argv@.subrange(1, i + 1) =~= (seq![*program] + argv@.subrange(
            1,
            i as int,
        )).push(argv@[i as int]));
        i = i + 1;
    }
    assert(argv@.subrange(1, n as int) =~= argv@.skip(1));
    shown
}

/// The actions recorded for a command: those parsed from it, or a single
/// unknown action naming the command when parsing found none.
pub open spec fn command_actions_for(command: String, parsed: Seq<CommandAction>) -> Seq<
    CommandAction,
> {
    if parsed.len() == 0 {
        seq![CommandAction::Unknown { command }]
    } else {
        parsed
    }
}

/// Whether `item` is a command-execution item started by the agent, with the
/// given id, command, working directory, status and actions, before any
/// process, output, exit code or duration exists.
pub open spec fn is_agent_command_item(
    item: ThreadItem,
    id: String,
    command: String,
    cwd: PathBuf,
    status: CommandExecutionStatus,
    actions: Seq<CommandAction>,
) -> bool {
    item == ThreadItem::CommandExecution {
        id,
        command,
        cwd,
        process_id: None,
        source: CommandExecutionSource::Agent,
        status,
        command_actions: item->command_actions,
        aggregated_output: None,
        exit_code: None,
        duration_ms: None,
    } && item->command_actions@ == actions
}

/// The command-execution item shown while the guardian assesses a
/// command: for a shell command, the command itself with one unknown action; for
/// an execve action, the rendering (by `render`) of its shown argument vector;
/// nothing for other actions. The item is started by the agent.
pub fn guardian_command_execution_item<F: Fn(&Vec<String>) -> CommandRendering>(
    assessment: &GuardianAssessmentEvent,
    status: CommandExecutionStatus,
    render: F,
) -> (item: Option<ThreadItem>)
    requires
        forall|argv: &Vec<String>| #[trigger] render.requires((argv,)),
    ensures
        match assessment.action {
            GuardianAssessmentAction::Command { command, cwd } => item matches Some(it)
                && is_agent_command_item(
                it,
                assessment.id,
                command,
                cwd,
                status,
                seq![CommandAction::Unknown { command }],
            ),
            GuardianAssessmentAction::Execve { program, argv, cwd } => exists|
                shown: Vec<String>,
                rendering: CommandRendering,
            |
                #![trigger render.ensures((&shown,), rendering)]
                {
                    &&& shown@ == execve_display_argv(program, argv@)
                    &&& render.ensures((&shown,), rendering)
                    &&& item matches Some(it) && is_agent_command_item(
                        it,
                        assessment.id,
                        rendering.command,
                        cwd,
                        status,
                        command_actions_for(rendering.command, rendering.parsed_actions@),
                    )
                },
            _ => item is None,
        },
{
    match &assessment.action {
        GuardianAssessmentAction::Command { command, cwd } => {
            let command = command.clone();
            let mut command_actions: Vec<CommandAction> = Vec::new();
            command_actions.push(CommandAction::Unknown { command: command.clone() });
            Some(
                synthetic_command_execution_item(
                    assessment.id.clone(),
                    command,
                    cwd.clone(),
                    command_actions,
                    CommandExecutionSource::Agent,
                    status,
                ),
            )
        },
        GuardianAssessmentAction::Execve { program, argv, cwd } => {
            let shown = guardian_execve_argv(program, argv);
            let rendering = render(&shown);
            let command = rendering.command;
            let parsed = rendering.parsed_actions;
            let command_actions = if parsed.len() == 0 {
                let mut actions: Vec<CommandAction> = Vec::new();
                actions.push(CommandAction::Unknown { command: command.clone() });
                actions
            } else {
                parsed
            };
            Some(
                synthetic_command_execution_item(
                    assessment.id.clone(),
                    command,
                    cwd.clone(),
                    command_actions,
                    CommandExecutionSource::Agent,
                    status,
                ),
            )
        },
        _ => None,
    }
}

} // verus!
