use vstd::prelude::*;
use vstd::string::StringExecFns;
use crate::error::PipeError;
use crate::text::{contains, contains_text};

verus! {

/// The severity at which a line of the pipe's output is reported.
#[derive(Debug, Clone, Copy, PartialEq, Eq, Structural)]
pub enum Severity {
    Info,
    Error,
}

/// Something that happened to a running pipe.
pub enum StreamEvent {
    /// A line arrived on standard output.
    StdoutLine(String),
    /// A line arrived on standard error.
    StderrLine(String),
    /// Standard output reached its end.
    StdoutClosed,
    /// Standard error reached its end.
    StderrClosed,
    /// The process exited, with its exit code if it had one.
    Exited(Option<i32>),
}

/// What the supervisor of a running pipe asks for next.
pub enum Step {
    /// Report this line at this severity.
    Log(Severity, String),
    /// Keep waiting for events.
    Wait,
    /// Both streams are drained and the process has exited: the launch is over.
    Done(Result<(), PipeError>),
}

/// The state of a running pipe: which output streams are still open and,
/// once the process has exited, its exit code.
pub struct Supervisor {
    pub stdout_open: bool,
    pub stderr_open: bool,
    pub exit: Option<Option<i32>>,
}

/// The names and values of environment variables.
pub open spec fn env_view(v: Seq<(String, String)>) -> Seq<(Seq<char>, Seq<char>)> {
    v.map_values(|p: (String, String)| (p.0@, p.1@))
}

/// The characters of each string.
pub open spec fn arg_view(v: Seq<String>) -> Seq<Seq<char>> {
    v.map_values(|a: String| a@)
}

/// The four variables that a pipe is given on top of the inherited ones.
pub open spec fn injected_env(
    root: Seq<char>,
    pipe_id: Seq<char>,
    entry_file: Seq<char>,
    pipe_dir: Seq<char>,
) -> Seq<(Seq<char>, Seq<char>)> {
    seq![
        ("SCREENPIPE_DIR"@, root),
        ("PIPE_ID"@, pipe_id),
        ("PIPE_FILE"@, entry_file),
        ("PIPE_DIR"@, pipe_dir),
    ]
}

/// The runtime's arguments: run the entry file with the given configuration,
/// allowed to read, write, use the network and the environment, with cached
/// artifacts reloaded.
pub open spec fn runtime_args_spec(config: Seq<char>, entry_file: Seq<char>) -> Seq<Seq<char>> {
    seq![
        "run"@,
        "--config"@,
        config,
        "--allow-read"@,
        "--allow-write"@,
        "--allow-net"@,
        "--allow-env"@,
        "--reload"@,
        entry_file,
    ]
}

/// A line of standard error is informational when it reports a download.
pub open spec fn stderr_severity_spec(line: Seq<char>) -> Severity {
    if contains(line, "Download"@) {
        Severity::Info
    } else {
        Severity::Error
    }
}

/// The outcome of a launch whose process exited with `code`.
pub open spec fn exit_result(code: Option<i32>) -> Result<(), PipeError> {
    if code == Some(0i32) {
        Ok(())
    } else {
        Err(PipeError::NonZeroExit(code))
    }
}

/// The error for a failed spawn.
pub open spec fn spawn_error_spec(not_found: bool) -> PipeError {
    if not_found {
        PipeError::RuntimeNotFound
    } else {
        PipeError::SpawnFailed
    }
}

/// The full environment of a pipe: the inherited variables followed by the
/// workspace root, the pipe's identifier, its entry file and its directory.
pub fn pipe_env(
    inherited: Vec<(String, String)>,
    root: &str,
    pipe_id: &str,
    entry_file: &str,
    pipe_dir: &str,
) -> (r: Vec<(String, String)>)
    ensures
        env_view(r@) == env_view(inherited@) + injected_env(
            root@,
            pipe_id@,
            entry_file@,
            pipe_dir@,
        ),
{
    let mut r = inherited;
    r.push((String::from_str("SCREENPIPE_DIR"), String::from_str(root)));
    r.push((String::from_str("PIPE_ID"), String::from_str(pipe_id)));
    r.push((String::from_str("PIPE_FILE"), String::from_str(entry_file)));
    r.push((String::from_str("PIPE_DIR"), String::from_str(pipe_dir)));
    assert(env_view(r@) =~= env_view(inherited@) + injected_env(
        root@,
        pipe_id@,
        entry_file@,
        pipe_dir@,
    ));
    r
}

/// The runtime's arguments for an entry file and a configuration file.
pub fn runtime_args(config: &str, entry_file: &str) -> (r: Vec<String>)
    ensures
        arg_view(r@) == runtime_args_spec(config@, entry_file@),
{
    let mut r: Vec<String> = Vec::new();
    r.push(String::from_str("run"));
    r.push(String::from_str("--config"));
    r.push(String::from_str(config));
    r.push(String::from_str("--allow-read"));
    r.push(String::from_str("--allow-write"));
    r.push(String::from_str("--allow-net"));
    r.push(String::from_str("--allow-env"));
    r.push(String::from_str("--reload"));
    r.push(String::from_str(entry_file));
    assert(arg_view(r@) =~= runtime_args_spec(config@, entry_file@));
    r
}

/// The error for a spawn that failed: a missing executable is told apart from
/// every other failure.
pub fn spawn_error(not_found: bool) -> (r: PipeError)
    ensures
        r == spawn_error_spec(not_found),
{
    if not_found {
        PipeError::RuntimeNotFound
    } else {
        PipeError::SpawnFailed
    }
}

/// The severity of a line of standard error.
pub fn stderr_severity(line: &str) -> (r: Severity)
    ensures
        r == stderr_severity_spec(line@),
{
    if contains_text(line, "Download") {
        Severity::Info
    } else {
        Severity::Error
    }
}

/// The outcome of a launch whose process exited with `code`: success only
/// for exit code zero.
pub fn exit_outcome(code: Option<i32>) -> (r: Result<(), PipeError>)
    ensures
        r == exit_result(code),
{
    match code {
        Some(0) => Ok(()),
        _ => Err(PipeError::NonZeroExit(code)),
    }
}

impl Supervisor {
    /// Both streams are drained and the exit status is known.
    pub open spec fn finished(&self) -> bool {
        !self.stdout_open && !self.stderr_open && self.exit is Some
    }

    /// The state after `ev`.
    pub open spec fn after(self, ev: StreamEvent) -> Supervisor {
        match ev {
            StreamEvent::StdoutClosed => Supervisor { stdout_open: false, ..self },
            StreamEvent::StderrClosed => Supervisor { stderr_open: false, ..self },
            StreamEvent::Exited(code) => if self.exit is Some {
                self
            } else {
                Supervisor { exit: Some(code), ..self }
            },
            _ => self,
        }
    }

    /// What [`Supervisor::step`] answers to `ev`.
    pub open spec fn step_spec(self, ev: StreamEvent) -> Step {
        match ev {
            StreamEvent::StdoutLine(l) => Step::Log(Severity::Info, l),
            StreamEvent::StderrLine(l) => Step::Log(stderr_severity_spec(l@), l),
            _ => if self.after(ev).finished() && !self.finished() {
                Step::Done(exit_result(self.after(ev).exit->0))
            } else {
                Step::Wait
            },
        }
    }

    /// A freshly spawned pipe: both streams open, still running.
    pub fn new() -> (r: Supervisor)
        ensures
            r.stdout_open && r.stderr_open && r.exit is None,
    {
        Supervisor { stdout_open: true, stderr_open: true, exit: None }
    }

    /// Takes one event. Output lines are reported (standard output at
    /// informational severity, standard error by its content); the launch is
    /// done exactly when the event completes the last of the two drains and
    /// the exit, and only then is the exit status turned into the outcome.
    pub fn step(&mut self, ev: StreamEvent) -> (r: Step)
        ensures
            *final(self) == old(self).after(ev),
            r == old(self).step_spec(ev),
    {
        let was_finished = !self.stdout_open && !self.stderr_open && self.exit.is_some();
        match ev {
            StreamEvent::StdoutLine(l) => {
                return Step::Log(Severity::Info, l);
            },
            StreamEvent::StderrLine(l) => {
                let sev = stderr_severity(l.as_str());
                return Step::Log(sev, l);
            },
            StreamEvent::StdoutClosed => {
                self.stdout_open = false;
            },
            StreamEvent::StderrClosed => {
                self.stderr_open = false;
            },
            StreamEvent::Exited(code) => {
                if self.exit.is_none() {
                    self.exit = Some(code);
                }
            },
        }
        if !was_finished && !self.stdout_open && !self.stderr_open {
            match self.exit {
                Some(code) => Step::Done(exit_outcome(code)),
                None => Step::Wait,
            }
        } else {
            Step::Wait
        }
    }
}

/// A launch reports its outcome only once both output streams are drained
/// and the process has exited, so no line is reported after it; and it
/// succeeds only if the exit code was zero.
pub proof fn lemma_done_only_when_drained(s: Supervisor, ev: StreamEvent)
    requires
        s.step_spec(ev) is Done,
    ensures
        s.after(ev).finished(),
        !s.finished(),
        s.step_spec(ev) == Step::Done(exit_result(s.after(ev).exit->0)),
        s.step_spec(ev) == Step::Done(Ok(())) ==> s.after(ev).exit == Some(Some(0i32)),
{
}

} // verus!
