//! The swap handoff: the one-shot, self-deleting helper that replaces the
//! installed executable after the current process exits.
//!
//! A running image cannot rewrite itself, so the swap is delegated to a
//! detached helper process. Its procedure is described here as a value and
//! rendered to the exact script text the launcher writes to disk: wait with a
//! bounded poll for the originating process id to disappear, copy the new
//! executable over the install path, relaunch it, delete the staging
//! artifacts, and delete the script itself last. On any failure the helper
//! exits non-zero without deleting the staged artifact, so an operator can
//! retry by hand.

use vstd::prelude::*;

use crate::text::dec_digits;
use crate::text::string_views;
use crate::text::u64_to_string;

verus! {

/// What the swap replaces: the installed executable and the running process
/// that holds it. Captured once per apply attempt.
#[derive(Debug, Clone)]
pub struct InstallTarget {
    pub executable_path: String,
    pub process_id: u64,
}

/// The helper procedure, created fresh for one apply attempt and never
/// reused: the process id to await, the staged executable to install, the
/// destination to overwrite and relaunch, and the staging paths to delete
/// after a successful swap.
#[derive(Debug, Clone)]
pub struct SwapScript {
    pub wait_pid: u64,
    pub source: String,
    pub destination: String,
    pub cleanup: Vec<String>,
}

/// The mathematical value of a [`SwapScript`].
pub struct SwapScriptView {
    pub wait_pid: u64,
    pub source: Seq<char>,
    pub destination: Seq<char>,
    pub cleanup: Seq<Seq<char>>,
}

impl View for SwapScript {
    type V = SwapScriptView;

    open spec fn view(&self) -> SwapScriptView {
        SwapScriptView {
            wait_pid: self.wait_pid,
            source: self.source@,
            destination: self.destination@,
            cleanup: string_views(self.cleanup@),
        }
    }
}

/// One deletion line of the helper script.
pub open spec fn del_line(path: Seq<char>) -> Seq<char> {
    "del \""@ + path + "\"\r\n"@
}

/// The deletion lines for the staging paths, in order.
pub open spec fn cleanup_lines(paths: Seq<Seq<char>>) -> Seq<char>
    decreases paths.len(),
{
    if paths.len() == 0 {
        Seq::empty()
    } else {
        cleanup_lines(paths.drop_last()) + del_line(paths.last())
    }
}

/// The exact text of the helper script: a bounded wait for the process to
/// leave the process table, the copy over the install path, the relaunch,
/// the cleanup deletions, and the self-deletion last; the failure path exits
/// non-zero and deletes nothing.
pub open spec fn render_spec(s: SwapScriptView) -> Seq<char> {
    let pid = dec_digits(s.wait_pid as nat);
    "@echo off\r\nset tries=0\r\n:wait\r\ntasklist /FI \"PID eq "@ + pid + "\" | find \""@ + pid
        + "\" >nul\r\nif errorlevel 1 goto swap\r\nset /a tries=%tries%+1\r\nif %tries% geq 10 goto fail\r\ntimeout /t 1 /nobreak >nul\r\ngoto wait\r\n:swap\r\ncopy /Y \""@
        + s.source + "\" \""@ + s.destination + "\"\r\nif errorlevel 1 goto fail\r\nstart \"\" \""@
        + s.destination + "\"\r\n"@ + cleanup_lines(s.cleanup)
        + "del \"%~f0\"\r\nexit /b 0\r\n:fail\r\nexit /b 1\r\n"@
}

impl SwapScript {
    /// Describes the swap of `source` over the target's executable, with the
    /// given staging paths to clean up afterwards.
    pub fn new(target: &InstallTarget, source: &String, cleanup: Vec<String>) -> (s: SwapScript)
        ensures
            s.wait_pid == target.process_id,
            s.source@ == source@,
            s.destination@ == target.executable_path@,
            s.cleanup == cleanup,
    {
        SwapScript {
            wait_pid: target.process_id,
            source: source.clone(),
            destination: target.executable_path.clone(),
            cleanup,
        }
    }

    /// Renders the helper procedure to the script text the launcher emits.
    pub fn render(&self) -> (r: String)
        ensures
            r@ == render_spec(self@),
    {
        let pid = u64_to_string(self.wait_pid);
        let mut out = String::from_str("@echo off\r\nset tries=0\r\n:wait\r\ntasklist /FI \"PID eq ");
        out.append(pid.as_str());
        out.append("\" | find \"");
        out.append(pid.as_str());
        out.append(
            "\" >nul\r\nif errorlevel 1 goto swap\r\nset /a tries=%tries%+1\r\nif %tries% geq 10 goto fail\r\ntimeout /t 1 /nobreak >nul\r\ngoto wait\r\n:swap\r\ncopy /Y \"",
        );
        out.append(self.source.as_str());
        out.append("\" \"");
        out.append(self.destination.as_str());
        out.append("\"\r\nif errorlevel 1 goto fail\r\nstart \"\" \"");
        out.append(self.destination.as_str());
        out.append("\"\r\n");
        let ghost head = out@;
        let mut i: usize = 0;
        while i < self.cleanup.len()
            invariant
                i <= self.cleanup@.len(),
                out@ == head + cleanup_lines(string_views(self.cleanup@).subrange(0, i as int)),
            decreases self.cleanup@.len() - i,
        {
            let ghost prev = string_views(self.cleanup@).subrange(0, i as int);
            out.append("del \"");
            out.append(self.cleanup[i].as_str());
            out.append("\"\r\n");
            proof {
                let cur = string_views(self.cleanup@).subrange(0, i as int + 1);
                assert(cur.drop_last() =~= prev);
                assert(cur.last() == self.cleanup@[i as int]@);
                assert(out@ =~= head + cleanup_lines(cur));
            }
            i += 1;
        }
        assert(string_views(self.cleanup@).subrange(0, self.cleanup@.len() as int) =~= string_views(
            self.cleanup@,
        ));
        out.append("del \"%~f0\"\r\nexit /b 0\r\n:fail\r\nexit /b 1\r\n");
        assert(out@ =~= render_spec(self@));
        out
    }
}

} // verus!
