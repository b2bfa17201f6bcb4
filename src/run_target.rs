use vstd::prelude::*;

verus! {

/// A concrete executable, named by a path of type `P`, and the arguments it
/// is launched with.
#[derive(Clone, Debug)]
pub struct RunCommand<P> {
    pub command: P,
    pub args: Vec<String>,
}

/// What a new terminal is asked to run.
#[derive(Clone, Debug)]
pub enum TerminalAction<P> {
    /// Open this file in the user's editor.
    OpenFile(String),
    /// Run this command as given.
    RunCommand(RunCommand<P>),
}

/// The environment variables that resolution reads, as they were found,
/// each taken as a path.
#[derive(Clone, Debug)]
pub struct LaunchEnv<P> {
    /// `EDITOR`
    pub editor: Option<P>,
    /// `VISUAL`
    pub visual: Option<P>,
    /// `SHELL`
    pub shell: Option<P>,
}

/// Why no run target could be resolved.
#[derive(Clone, Copy, Debug, PartialEq, Eq, Structural)]
pub enum ResolveError {
    /// A file was to be opened, but neither `EDITOR` nor `VISUAL` is set.
    NoEditor,
    /// The default shell was asked for, but `SHELL` is not set.
    NoShell,
}

/// The editor named by the environment: `EDITOR`, else `VISUAL`.
pub open spec fn spec_editor<P>(env: LaunchEnv<P>) -> Option<P> {
    match env.editor {
        Some(e) => Some(e),
        None => env.visual,
    }
}

/// Whether `r` is a correct resolution of `action` in `env`.
pub open spec fn resolves_to<P>(
    action: Option<TerminalAction<P>>,
    env: LaunchEnv<P>,
    r: Result<RunCommand<P>, ResolveError>,
) -> bool {
    match action {
        Some(TerminalAction::OpenFile(file)) => match spec_editor(env) {
            Some(editor) => r matches Ok(t) && t.command == editor && t.args@ == seq![file],
            None => r == Err::<RunCommand<P>, ResolveError>(ResolveError::NoEditor),
        },
        Some(TerminalAction::RunCommand(c)) => r matches Ok(t) && t.command == c.command
            && t.args@ == c.args@,
        None => match env.shell {
            Some(shell) => r matches Ok(t) && t.command == shell && t.args@.len() == 0,
            None => r == Err::<RunCommand<P>, ResolveError>(ResolveError::NoShell),
        },
    }
}

/// Turns a terminal action into the command to launch. A file is opened with
/// the editor from `EDITOR`, falling back to `VISUAL`, and is its only
/// argument; an explicit command is passed through unchanged; no action
/// launches `SHELL` without arguments. A missing editor or shell is an error.
pub fn resolve_run_target<P>(action: Option<TerminalAction<P>>, env: LaunchEnv<P>) -> (r: Result<
    RunCommand<P>,
    ResolveError,
>)
    ensures
        resolves_to(action, env, r),
        action matches Some(TerminalAction::OpenFile(_)) ==> (r is Err <==> env.editor is None
            && env.visual is None),
        action matches Some(TerminalAction::OpenFile(_)) ==> (env.editor is None
            && env.visual is Some ==> r is Ok && r->Ok_0.command == env.visual->Some_0),
        action is None ==> (r is Err <==> env.shell is None),
{
    match action {
        Some(TerminalAction::OpenFile(file)) => {
            let editor = match env.editor {
                Some(e) => Some(e),
                None => env.visual,
            };
            match editor {
                Some(command) => {
                    let mut args: Vec<String> = Vec::new();
                    args.push(file);
                    Ok(RunCommand { command, args })
                },
                None => Err(ResolveError::NoEditor),
            }
        },
        Some(TerminalAction::RunCommand(c)) => Ok(c),
        None => match env.shell {
            Some(command) => Ok(RunCommand { command, args: Vec::new() }),
            None => Err(ResolveError::NoShell),
        },
    }
}

} // verus!
