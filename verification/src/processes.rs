//! Service-group lifecycle: a single pid file tracks the one running group.
//! Starting a detached group records its process id; stopping reads the pid,
//! signals the process and removes the file. The state machine here decides;
//! the caller performs the file writes and signal delivery it prescribes.

use vstd::prelude::*;

use crate::errors::OrchestratorError;
use crate::numbers::{all_digits, dec_str, digits_value, lemma_dec_round_trip};
use crate::strutil;

verus! {

/// The in-memory model of the tracked service group: the parsed content of
/// the pid file, or `None` when no pid file exists.
pub struct ServiceGroup {
    pub pid_file: Option<u32>,
}

impl ServiceGroup {
    /// A fresh controller: no pid file, so nothing is believed running.
    pub fn new() -> (r: ServiceGroup)
        ensures
            r.pid_file is None,
    {
        ServiceGroup { pid_file: None }
    }

    /// Records a successful detached start: the caller has spawned the group
    /// and must write the decimal rendering of `pid` to the pid file.
    pub fn start_detached(&mut self, pid: u32)
        requires
            pid >= 1,
        ensures
            final(self).pid_file == Some(pid),
    {
        self.pid_file = Some(pid);
    }

    /// Decides a stop request. Without a pid file it fails with
    /// `NotRunning`. With one, the caller reports whether the termination
    /// signal found the process: if not, the attempt fails with
    /// `ProcessNotFound` and the pid file is kept; if so, the pid is
    /// returned and the pid file is removed.
    pub fn stop(&mut self, signal_delivered: bool) -> (r: Result<u32, OrchestratorError>)
        ensures
            match old(self).pid_file {
                None => r == Err::<u32, OrchestratorError>(OrchestratorError::NotRunning)
                    && final(self).pid_file is None,
                Some(pid) => if signal_delivered {
                    r == Ok::<u32, OrchestratorError>(pid) && final(self).pid_file is None
                } else {
                    r == Err::<u32, OrchestratorError>(OrchestratorError::ProcessNotFound)
                        && final(self).pid_file == Some(pid)
                },
            },
    {
        match self.pid_file {
            None => Err(OrchestratorError::NotRunning),
            Some(pid) => {
                if signal_delivered {
                    self.pid_file = None;
                    Ok(pid)
                } else {
                    Err(OrchestratorError::ProcessNotFound)
                }
            },
        }
    }
}

/// Pid-file lifecycle: a stop before any start fails with `NotRunning`
/// and a delivered stop leaves no pid file behind (both are the `ensures`
/// of `stop`); and the pid file written after a successful detached start
/// holds a non-empty decimal numeral that parses back to the positive pid
/// it records.
pub proof fn lemma_pid_file_lifecycle(pid: u32)
    requires
        pid >= 1,
    ensures
        all_digits(dec_str(pid as nat)),
        digits_value(dec_str(pid as nat)) == pid as nat,
        dec_str(pid as nat).len() >= 1,
{
    lemma_dec_round_trip(pid as nat);
}

/// The wrapper script that launches the service group: it disables the
/// interactive process UI when the group is detached, then execs the
/// process script with the selected process names.
pub fn render_processes_script(proc_script: &str, processes: &Vec<String>, detach: bool) -> (r:
    String)
    ensures
        r@ == "#!/usr/bin/env bash\n"@ + (if detach {
            "export PC_TUI_ENABLED=0"@
        } else {
            ""@
        }) + "\n"@ + "exec "@ + proc_script@ + " "@ + strutil::joined(
            processes@.map_values(|s: String| s@),
            " "@,
        ) + "\n"@,
{
    let mut out = String::from_str("#!/usr/bin/env bash\n");
    if detach {
        out.append("export PC_TUI_ENABLED=0");
    } else {
        out.append("");
    }
    out.append("\n");
    out.append("exec ");
    out.append(proc_script);
    out.append(" ");
    let joined_names = strutil::join_with(processes, " ");
    out.append(joined_names.as_str());
    out.append("\n");
    out
}

} // verus!
