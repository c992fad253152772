use vstd::prelude::*;

use crate::tasks::{TaskBook, TaskView, opt_string_view, opt_strings_view, strings_view, task_named};

verus! {

/// Where the saved tasks are read from.
#[derive(Clone, Copy, PartialEq, Eq, Structural)]
pub enum ConfigSource {
    /// The user's global configuration.
    Global,
    /// The project file in the working directory.
    Local,
}

/// For a named run: the project file where one exists and the global tasks
/// are not asked for, else the global tasks.
pub fn config_source(global: bool, local_exists: bool) -> (r: ConfigSource)
    ensures
        r == (if !global && local_exists {
            ConfigSource::Local
        } else {
            ConfigSource::Global
        }),
{
    if global {
        ConfigSource::Global
    } else if local_exists {
        ConfigSource::Local
    } else {
        ConfigSource::Global
    }
}

/// With no arguments at all: the global tasks where asked for, else the
/// project file where one exists, else nothing to run.
pub fn zero_config_source(global: bool, local_exists: bool) -> (r: Option<ConfigSource>)
    ensures
        r == (if global {
            Some(ConfigSource::Global)
        } else if local_exists {
            Some(ConfigSource::Local)
        } else {
            None
        }),
{
    if global {
        Some(ConfigSource::Global)
    } else if local_exists {
        Some(ConfigSource::Local)
    } else {
        None
    }
}

/// Which task to run.
pub enum TaskPick {
    /// The task named by the caller.
    Named(String),
    /// The configuration's default task.
    Default(String),
    /// Neither: the user has to choose among the saved tasks.
    Ask,
}

/// The named task where a name is given, else the default task where there
/// is one, else a choice for the user.
pub fn pick_task(name: Option<String>, default: Option<String>) -> (r: TaskPick)
    ensures
        match name {
            Some(n) => r == TaskPick::Named(n),
            None => match default {
                Some(d) => r == TaskPick::Default(d),
                None => r is Ask,
            },
        },
{
    match name {
        Some(n) => TaskPick::Named(n),
        None => match default {
            Some(d) => TaskPick::Default(d),
            None => TaskPick::Ask,
        },
    }
}

/// What to watch and what to run, before the paths are resolved.
pub struct RunPlan {
    pub watch: Vec<String>,
    pub extensions: Option<Vec<String>>,
    pub run: String,
}

/// Why a saved task cannot be run.
pub enum RunError {
    /// No task has that name.
    TaskNotFound,
    /// Neither the task nor the caller gives a command.
    NoRunCommand,
}

/// The command of a run: the caller's where given, else the task's.
pub open spec fn chosen_run(t: TaskView, run: Option<String>) -> Option<Seq<char>> {
    match run {
        Some(x) => Some(x@),
        None => t.run,
    }
}

/// The watch list of a run: the caller's where given, else the task's.
pub open spec fn chosen_watch(t: TaskView, watch: Option<Vec<String>>) -> Seq<Seq<char>> {
    match watch {
        Some(w) => strings_view(w@),
        None => t.watch,
    }
}

/// The extensions of a run: the caller's where given, else the task's.
pub open spec fn chosen_extensions(t: TaskView, extensions: Option<Vec<String>>) -> Option<
    Seq<Seq<char>>,
> {
    match extensions {
        Some(e) => Some(strings_view(e@)),
        None => t.extensions,
    }
}

/// Plans the run of a saved task, each of watch list, command and
/// extensions taken from the caller where given and from the task otherwise.
pub fn plan_task_run(
    book: &TaskBook,
    name: &String,
    watch: Option<Vec<String>>,
    run: Option<String>,
    extensions: Option<Vec<String>>,
) -> (r: Result<RunPlan, RunError>)
    requires
        book.wf(),
    ensures
        task_named(book@, name@) is None <==> r matches Err(RunError::TaskNotFound),
        task_named(book@, name@) matches Some(t) ==> {
            &&& (chosen_run(t, run) is None <==> (r matches Err(RunError::NoRunCommand)))
            &&& (r matches Ok(p) ==> {
                &&& strings_view(p.watch@) == chosen_watch(t, watch)
                &&& opt_strings_view(p.extensions) == chosen_extensions(t, extensions)
                &&& Some(p.run@) == chosen_run(t, run)
            })
        },
{
    let task = match book.get(name) {
        Some(t) => t,
        None => {
            return Err(RunError::TaskNotFound);
        },
    };
    let run = match run {
        Some(x) => x,
        None => match task.run {
            Some(x) => x,
            None => {
                return Err(RunError::NoRunCommand);
            },
        },
    };
    let watch = match watch {
        Some(w) => w,
        None => task.watch,
    };
    let extensions = match extensions {
        Some(e) => Some(e),
        None => task.extensions,
    };
    Ok(RunPlan { watch, extensions, run })
}

/// Whether the command line gives no watch paths, no command and no
/// extensions: the saved tasks are then used.
pub fn is_zero_config(watch: &Vec<String>, run: &Option<String>, extensions: &Option<Vec<String>>) -> (r:
    bool)
    ensures
        r == (watch@.len() == 0 && run is None && extensions is None),
{
    watch.len() == 0 && run.is_none() && extensions.is_none()
}

/// Why a run from command-line arguments cannot start.
pub enum DirectError {
    /// Neither watch paths nor extensions are given.
    MissingPaths,
    /// No command is given.
    MissingCommand,
}

/// Plans a run from command-line arguments: watch paths or extensions, and
/// a command, are needed.
pub fn direct_plan(watch: Vec<String>, run: Option<String>, extensions: Option<Vec<String>>) -> (r:
    Result<RunPlan, DirectError>)
    ensures
        (watch@.len() == 0 && extensions is None) <==> r matches Err(DirectError::MissingPaths),
        !(watch@.len() == 0 && extensions is None) ==> (run is None <==> r matches Err(
            DirectError::MissingCommand,
        )),
        r matches Ok(p) ==> p.watch@ == watch@ && p.extensions == extensions && run == Some(p.run),
{
    if watch.len() == 0 && extensions.is_none() {
        return Err(DirectError::MissingPaths);
    }
    match run {
        None => Err(DirectError::MissingCommand),
        Some(run) => Ok(RunPlan { watch, extensions, run }),
    }
}

} // verus!
