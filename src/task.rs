//! The task registry: for each known task name, the prompt context, the
//! defaults and the opening message that the orchestrator uses.
use vstd::prelude::*;
use vstd::string::StringExecFns;

verus! {

/// The tasks the registry knows by name; any other name is `Unlisted`.
#[derive(Debug, Clone, Copy, PartialEq, Eq)]
pub enum TaskKind {
    Commit,
    Review,
    Rebase,
    Analyze,
    Cleanup,
    Unlisted,
}

/// The system prompt used when the caller supplies none.
pub const BASE_PROMPT: &'static str = "You are a Git Task Assistant with access to git tools. You specialize in completing \
        specific git-related tasks efficiently and thoroughly.\n\
        \n\
        AVAILABLE CAPABILITIES:\n\
        - Git repository operations (status, diff, log, branch management)\n\
        - File staging and commit creation\n\
        - Branch operations and history analysis\n\
        - Code review and quality assessment\n\
        - Repository cleanup and organization\n\
        - Task completion signaling\n\
        \n\
        APPROACH:\n\
        - Always start by understanding the current repository state\n\
        - Break down complex tasks into clear steps\n\
        - Provide explanations for all git operations\n\
        - Follow git best practices and conventions\n\
        - Signal completion when tasks are finished";

/// Completion wording where a task was named.
pub const COMPLETION_REQUIRED: &'static str = "\n\nIMPORTANT: When you have completed your assigned task, you MUST call the 'task_complete' tool \
        to signal that the work is finished. This allows the system to properly conclude the task session.";

/// Completion wording where no task was named.
pub const COMPLETION_OPTIONAL: &'static str = "\n\nNOTE: You have access to a 'task_complete' tool. Use it if the user explicitly asks you \
        to complete a specific task or when you finish a well-defined piece of work.";

/// Step-by-step instructions of the commit task.
pub const COMMIT_CONTEXT: &'static str = "\n\nTASK: AUTOMATED COMMIT\n\
            Your task is to analyze the current repository and create appropriate commits:\n\
            \n\
            STEPS:\n\
            1. Check git status to identify changed files\n\
            2. Review changes using git diff to understand what was modified\n\
            3. Stage appropriate files for logical commits\n\
            4. Create meaningful, conventional commit messages\n\
            5. Execute commits with clear explanations\n\
            6. When all commits are complete, use the task_complete tool\n\
            \n\
            GOAL: Create clean, atomic commits with descriptive messages. \
            If there are multiple logical changes, create separate commits. \
            Always explain your reasoning and call task_complete when finished.";

/// Step-by-step instructions of the review task.
pub const REVIEW_CONTEXT: &'static str = "\n\nTASK: CODE REVIEW\n\
            Your task is to thoroughly review the current code changes:\n\
            \n\
            STEPS:\n\
            1. Check git status and diff to understand all changes\n\
            2. Analyze code quality, style, and architecture\n\
            3. Identify potential bugs, security issues, or performance problems\n\
            4. Suggest specific improvements with examples\n\
            5. Provide constructive feedback on implementation choices\n\
            6. When review is complete, use the task_complete tool\n\
            \n\
            GOAL: Provide thorough, constructive code review that helps improve \
            code quality. Focus on being educational and actionable.";

/// Step-by-step instructions of the rebase task.
pub const REBASE_CONTEXT: &'static str = "\n\nTASK: INTERACTIVE REBASE\n\
            Your task is to help clean up the git history through rebase:\n\
            \n\
            STEPS:\n\
            1. Analyze current branch history and commit structure\n\
            2. Plan an appropriate rebase strategy\n\
            3. Guide through interactive rebase steps\n\
            4. Help resolve any merge conflicts that arise\n\
            5. Verify the final history is clean and logical\n\
            6. When rebase is complete, use the task_complete tool\n\
            \n\
            GOAL: Achieve a clean, linear git history while preserving \
            all important changes and maintaining code integrity.";

/// Step-by-step instructions of the analyze task.
pub const ANALYZE_CONTEXT: &'static str = "\n\nTASK: REPOSITORY ANALYSIS\n\
            Your task is to provide a comprehensive analysis of the repository:\n\
            \n\
            STEPS:\n\
            1. Examine repository structure and organization\n\
            2. Analyze recent commit history and patterns\n\
            3. Review current branch state and outstanding changes\n\
            4. Identify potential issues or improvements\n\
            5. Provide actionable recommendations\n\
            6. When analysis is complete, use the task_complete tool\n\
            \n\
            GOAL: Provide valuable insights about the repository state, \
            development patterns, and potential improvements.";

/// Step-by-step instructions of the cleanup task.
pub const CLEANUP_CONTEXT: &'static str = "\n\nTASK: REPOSITORY CLEANUP\n\
            Your task is to clean up and organize the repository:\n\
            \n\
            STEPS:\n\
            1. Identify untracked files, stale branches, and clutter\n\
            2. Review .gitignore and suggest improvements\n\
            3. Clean up unnecessary files or directories\n\
            4. Organize commits if needed (squash, reorder)\n\
            5. Update documentation if outdated\n\
            6. When cleanup is complete, use the task_complete tool\n\
            \n\
            GOAL: Leave the repository in a clean, organized state \
            that follows best practices and is easy to navigate.";

/// The kind of a task name.
pub open spec fn task_kind(name: Seq<char>) -> TaskKind {
    if name == "commit"@ {
        TaskKind::Commit
    } else if name == "review"@ {
        TaskKind::Review
    } else if name == "rebase"@ {
        TaskKind::Rebase
    } else if name == "analyze"@ {
        TaskKind::Analyze
    } else if name == "cleanup"@ {
        TaskKind::Cleanup
    } else {
        TaskKind::Unlisted
    }
}

/// Step-by-step instructions appended to the system prompt for a task.
pub open spec fn task_context(kind: TaskKind) -> Seq<char> {
    match kind {
        TaskKind::Commit => COMMIT_CONTEXT@,
        TaskKind::Review => REVIEW_CONTEXT@,
        TaskKind::Rebase => REBASE_CONTEXT@,
        TaskKind::Analyze => ANALYZE_CONTEXT@,
        TaskKind::Cleanup => CLEANUP_CONTEXT@,
        TaskKind::Unlisted => ""@,
    }
}

/// Default temperature, as a JSON number literal, for a task (or for none).
pub open spec fn default_temperature(kind: Option<TaskKind>) -> Seq<char> {
    match kind {
        Some(TaskKind::Commit) => "0.3"@,
        Some(TaskKind::Review) => "0.5"@,
        Some(TaskKind::Rebase) => "0.2"@,
        Some(TaskKind::Analyze) => "0.6"@,
        Some(TaskKind::Cleanup) => "0.3"@,
        _ => "0.7"@,
    }
}

/// Default title for a task (or for none).
pub open spec fn default_title(kind: Option<TaskKind>) -> Seq<char> {
    match kind {
        Some(TaskKind::Commit) => "Git Commit Assistant"@,
        Some(TaskKind::Review) => "Git Code Review Assistant"@,
        Some(TaskKind::Rebase) => "Git Rebase Assistant"@,
        Some(TaskKind::Analyze) => "Git Analysis Assistant"@,
        Some(TaskKind::Cleanup) => "Git Cleanup Assistant"@,
        Some(TaskKind::Unlisted) => "Git Task Assistant"@,
        None => "Git Assistant"@,
    }
}

/// The user message that opens a session for a task.
pub open spec fn opening_message(kind: TaskKind) -> Seq<char> {
    match kind {
        TaskKind::Commit => "Please analyze the repository and commit any pending changes with appropriate commit messages. Start by checking git status to see what files have changed."@,
        TaskKind::Review => "Please perform a comprehensive code review of the current changes. Start by examining what has been modified."@,
        TaskKind::Rebase => "Please help me clean up the git history through an interactive rebase. Start by showing the current commit history."@,
        TaskKind::Analyze => "Please provide a comprehensive analysis of this repository. Start by examining the overall structure and recent activity."@,
        TaskKind::Cleanup => "Please help clean up and organize this repository. Start by identifying what needs attention."@,
        TaskKind::Unlisted => "Please proceed with the assigned task. Let me know if you need clarification on what should be done."@,
    }
}

pub open spec fn opt_kind(task: Option<Seq<char>>) -> Option<TaskKind> {
    match task {
        Some(t) => Some(task_kind(t)),
        None => None,
    }
}

pub(crate) fn same_text(a: &String, b: &str) -> (r: bool)
    ensures
        r == (a@ == b@),
{
    *a == String::from_str(b)
}

impl TaskKind {
    /// The kind of the task named `name`.
    pub fn of(name: &String) -> (r: TaskKind)
        ensures
            r == task_kind(name@),
    {
        if same_text(name, "commit") {
            TaskKind::Commit
        } else if same_text(name, "review") {
            TaskKind::Review
        } else if same_text(name, "rebase") {
            TaskKind::Rebase
        } else if same_text(name, "analyze") {
            TaskKind::Analyze
        } else if same_text(name, "cleanup") {
            TaskKind::Cleanup
        } else {
            TaskKind::Unlisted
        }
    }

    /// The kind of an optional task name.
    pub fn of_option(task: &Option<String>) -> (r: Option<TaskKind>)
        ensures
            r == opt_kind(match task {
                Some(t) => Some(t@),
                None => None,
            }),
    {
        match task {
            Some(t) => Some(TaskKind::of(t)),
            None => None,
        }
    }

    pub fn context(self) -> (r: &'static str)
        ensures
            r@ == task_context(self),
    {
        match self {
            TaskKind::Commit => COMMIT_CONTEXT,
            TaskKind::Review => REVIEW_CONTEXT,
            TaskKind::Rebase => REBASE_CONTEXT,
            TaskKind::Analyze => ANALYZE_CONTEXT,
            TaskKind::Cleanup => CLEANUP_CONTEXT,
            TaskKind::Unlisted => "",
        }
    }

    pub fn opening_message(self) -> (r: &'static str)
        ensures
            r@ == opening_message(self),
    {
        match self {
            TaskKind::Commit => "Please analyze the repository and commit any pending changes with appropriate commit messages. Start by checking git status to see what files have changed.",
            TaskKind::Review => "Please perform a comprehensive code review of the current changes. Start by examining what has been modified.",
            TaskKind::Rebase => "Please help me clean up the git history through an interactive rebase. Start by showing the current commit history.",
            TaskKind::Analyze => "Please provide a comprehensive analysis of this repository. Start by examining the overall structure and recent activity.",
            TaskKind::Cleanup => "Please help clean up and organize this repository. Start by identifying what needs attention.",
            TaskKind::Unlisted => "Please proceed with the assigned task. Let me know if you need clarification on what should be done.",
        }
    }
}

pub fn default_temperature_text(kind: Option<TaskKind>) -> (r: &'static str)
    ensures
        r@ == default_temperature(kind),
{
    match kind {
        Some(TaskKind::Commit) => "0.3",
        Some(TaskKind::Review) => "0.5",
        Some(TaskKind::Rebase) => "0.2",
        Some(TaskKind::Analyze) => "0.6",
        Some(TaskKind::Cleanup) => "0.3",
        _ => "0.7",
    }
}

pub fn default_title_text(kind: Option<TaskKind>) -> (r: &'static str)
    ensures
        r@ == default_title(kind),
{
    match kind {
        Some(TaskKind::Commit) => "Git Commit Assistant",
        Some(TaskKind::Review) => "Git Code Review Assistant",
        Some(TaskKind::Rebase) => "Git Rebase Assistant",
        Some(TaskKind::Analyze) => "Git Analysis Assistant",
        Some(TaskKind::Cleanup) => "Git Cleanup Assistant",
        Some(TaskKind::Unlisted) => "Git Task Assistant",
        None => "Git Assistant",
    }
}

} // verus!
