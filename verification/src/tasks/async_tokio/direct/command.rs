//! The command a task's process is spawned with.
use vstd::prelude::*;
use crate::tasks::async_tokio::spawner::stdin_enabled;
use crate::tasks::config::{
    clone_opt_string, clone_opt_strings, clone_pairs, opt_pairs, opt_str, opt_strs, TaskConfig,
};

verus! {

/// What is applied to the command that spawns a task's process: the program,
/// its arguments, working directory and environment when configured, and
/// whether stdin is piped. Stdout and stderr are always piped, and the
/// process is killed when its handle is dropped.
#[derive(Debug)]
pub struct CommandPlan {
    /// The program to run.
    pub program: String,
    /// Arguments, when configured.
    pub args: Option<Vec<String>>,
    /// Working directory, when configured.
    pub working_dir: Option<String>,
    /// Environment variables to set, when configured.
    pub env: Option<Vec<(String, String)>>,
    /// Whether stdin is piped (otherwise it is connected to nothing).
    pub stdin_piped: bool,
}

/// The command plan of a configuration: stdin is piped only when the
/// configuration enables it.
pub fn setup_command(config: &TaskConfig) -> (plan: CommandPlan)
    ensures
        plan.program@ == config.command@,
        opt_strs(plan.args) == opt_strs(config.args),
        opt_str(plan.working_dir) == opt_str(config.working_dir),
        opt_pairs(plan.env) == config@.env,
        plan.stdin_piped == stdin_enabled(config@),
{
    CommandPlan {
        program: config.command.clone(),
        args: clone_opt_strings(&config.args),
        working_dir: clone_opt_string(&config.working_dir),
        env: match &config.env {
            Some(e) => Some(clone_pairs(e.as_pairs())),
            None => None,
        },
        stdin_piped: match config.enable_stdin {
            Some(b) => b,
            None => false,
        },
    }
}

} // verus!
