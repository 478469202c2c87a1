//! Choosing the agent binary and judging the outcome of its `--version` probe.
use vstd::prelude::*;
use crate::text::{is_blank, text_is_blank, trim_text, trimmed_of};

verus! {

/// Why the probe could not start the binary.
pub enum SpawnFailure {
    /// The binary is not on the search path.
    NotFound,
    /// Any other failure, as its text.
    Other(String),
}

/// What running `<binary> --version` under a deadline gave.
pub enum ProbeOutcome {
    /// The deadline passed first.
    TimedOut,
    /// The process could not be started.
    SpawnFailed(SpawnFailure),
    /// The process ran to its end.
    Exited { success: bool, stdout: String, stderr: String },
}

/// Why the installation check failed.
pub enum InstallError {
    NotFound,
    TimedOut,
    /// The binary exited unsuccessfully; the trimmed diagnostic, possibly empty.
    Failed(String),
    /// The binary could not be started for another reason.
    Spawn(String),
}

/// The diagnostic of a failed run: trimmed stderr, or trimmed stdout when
/// stderr is blank.
pub open spec fn probe_detail(stdout: Seq<char>, stderr: Seq<char>) -> Seq<char> {
    if is_blank(stderr) {
        trimmed_of(stdout)
    } else {
        trimmed_of(stderr)
    }
}

/// Judges the probe: the trimmed version text on success (`None` when it is
/// empty), else the error for the way it failed.
pub fn check_probe_outcome(outcome: ProbeOutcome) -> (r: Result<Option<String>, InstallError>)
    ensures
        match outcome {
            ProbeOutcome::TimedOut => r matches Err(InstallError::TimedOut),
            ProbeOutcome::SpawnFailed(SpawnFailure::NotFound) => r matches Err(InstallError::NotFound),
            ProbeOutcome::SpawnFailed(SpawnFailure::Other(m)) => r matches Err(InstallError::Spawn(e))
                && e@ == m@,
            ProbeOutcome::Exited { success, stdout, stderr } => if success {
                match r {
                    Ok(Some(v)) => v@ == trimmed_of(stdout@) && v@.len() > 0,
                    Ok(None) => trimmed_of(stdout@).len() == 0,
                    Err(_) => false,
                }
            } else {
                r matches Err(InstallError::Failed(d)) && d@ == probe_detail(stdout@, stderr@)
            },
        },
{
    match outcome {
        ProbeOutcome::TimedOut => Err(InstallError::TimedOut),
        ProbeOutcome::SpawnFailed(SpawnFailure::NotFound) => Err(InstallError::NotFound),
        ProbeOutcome::SpawnFailed(SpawnFailure::Other(m)) => Err(InstallError::Spawn(m)),
        ProbeOutcome::Exited { success, stdout, stderr } => {
            if !success {
                let detail = if text_is_blank(stderr.as_str()) {
                    trim_text(stdout.as_str())
                } else {
                    trim_text(stderr.as_str())
                };
                return Err(InstallError::Failed(String::from_str(detail)));
            }
            let version = trim_text(stdout.as_str());
            if version.unicode_len() == 0 {
                Ok(None)
            } else {
                Ok(Some(String::from_str(version)))
            }
        },
    }
}

/// The message for a failed installation check, for the tool sold as
/// `product` and run as `program`.
pub open spec fn install_message(e: InstallError, product: Seq<char>, program: Seq<char>) -> Seq<char> {
    match e {
        InstallError::NotFound => product + " CLI not found. Install "@ + product
            + " and ensure `"@ + program + "` is on your PATH."@,
        InstallError::TimedOut => "Timed out while checking "@ + product + " CLI. Make sure `"@
            + program + " --version` runs in Terminal."@,
        InstallError::Failed(d) => if d@.len() == 0 {
            product + " CLI failed to start. Try running `"@ + program + " --version` in Terminal."@
        } else {
            product + " CLI failed to start: "@ + d@ + ". Try running `"@ + program
                + " --version` in Terminal."@
        },
        InstallError::Spawn(m) => m@,
    }
}

impl InstallError {
    /// A human-readable description that tells how to check the install of
    /// the tool sold as `product` and run as `program`.
    pub fn message(&self, product: &str, program: &str) -> (r: String)
        ensures
            r@ == install_message(*self, product@, program@),
    {
        match self {
            InstallError::NotFound => {
                let mut m = String::from_str(product);
                m.append(" CLI not found. Install ");
                m.append(product);
                m.append(" and ensure `");
                m.append(program);
                m.append("` is on your PATH.");
                m
            },
            InstallError::TimedOut => {
                let mut m = String::from_str("Timed out while checking ");
                m.append(product);
                m.append(" CLI. Make sure `");
                m.append(program);
                m.append(" --version` runs in Terminal.");
                m
            },
            InstallError::Failed(d) => {
                let mut m = String::from_str(product);
                if d.as_str().unicode_len() == 0 {
                    m.append(" CLI failed to start. Try running `");
                } else {
                    m.append(" CLI failed to start: ");
                    m.append(d.as_str());
                    m.append(". Try running `");
                }
                m.append(program);
                m.append(" --version` in Terminal.");
                m
            },
            InstallError::Spawn(m) => m.clone(),
        }
    }
}

/// An optional text, kept only when it is not blank.
pub open spec fn non_blank(s: Option<Seq<char>>) -> Option<Seq<char>> {
    match s {
        Some(v) => if is_blank(v) { None } else { Some(v) },
        None => None,
    }
}

/// The binary a workspace runs: its own setting when not blank, else the
/// application's default.
pub fn select_claude_bin(entry_bin: Option<&str>, default_bin: Option<&str>) -> (r: Option<String>)
    ensures
        match non_blank(crate::path_env::opt_text(entry_bin)) {
            Some(b) => r matches Some(s) && s@ == b,
            None => match default_bin {
                Some(d) => r matches Some(s) && s@ == d@,
                None => r is None,
            },
        },
{
    match entry_bin {
        Some(b) => {
            if !text_is_blank(b) {
                return Some(String::from_str(b));
            }
        },
        None => {},
    }
    match default_bin {
        Some(d) => Some(String::from_str(d)),
        None => None,
    }
}

/// The program to run: the configured binary when set and not blank, else
/// `default_name`, to be found on the search path.
pub fn claude_bin_name(claude_bin: Option<&str>, default_name: &str) -> (r: String)
    ensures
        match non_blank(crate::path_env::opt_text(claude_bin)) {
            Some(b) => r@ == b,
            None => r@ == default_name@,
        },
{
    match claude_bin {
        Some(b) => {
            if !text_is_blank(b) {
                return String::from_str(b);
            }
        },
        None => {},
    }
    String::from_str(default_name)
}

} // verus!
