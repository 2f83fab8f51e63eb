//! The supervision of the hook processes: one per architecture, started when it is
//! not there, restarted when it has ended, ended when the server ends.

use vstd::prelude::*;
use vstd::string::StringExecFns;
use crate::hook::launch::{HOOK_DLL_VARIABLE, PID_VARIABLE};
use crate::server::debug;
use crate::util::{decimal, push_decimal};

verus! {

/// The number of architectures that hooks run in.
pub const NUM_ARCHS: usize = 2;

/// The pause between two rounds of supervision, in milliseconds.
pub const MONITOR_INTERVAL_MS: u64 = 500;

/// The hook binaries, by architecture: 32-bit first.
#[derive(Debug)]
pub struct HookBinaryPaths {
    pub dll_paths: [String; 2],
    pub exe_paths: [String; 2],
}

impl HookBinaryPaths {
    /// Orders the binaries that were found by architecture.
    pub fn get(paths: debug::HookBinaryPaths) -> (ordered: HookBinaryPaths)
        ensures
            ordered.dll_paths@ == seq![paths.dll32, paths.dll64],
            ordered.exe_paths@ == seq![paths.exe32, paths.exe64],
    {
        let ordered = HookBinaryPaths {
            dll_paths: [paths.dll32, paths.dll64],
            exe_paths: [paths.exe32, paths.exe64],
        };
        assert(ordered.dll_paths@ =~= seq![paths.dll32, paths.dll64]);
        assert(ordered.exe_paths@ =~= seq![paths.exe32, paths.exe64]);
        ordered
    }
}

/// What a look at the hook process of one architecture found.
#[derive(Clone, Copy, Debug, PartialEq, Eq, Structural)]
pub enum Child {
    /// No process was started, or the last start failed.
    Absent,
    Running,
    /// The process has ended on its own.
    Exited,
}

/// The supervisor of the hook processes.
pub struct HookManager {}

impl HookManager {
    /// Whether a hook process is to be started: where none is there, and where the one
    /// that was there has ended.
    pub fn must_start(child: Child) -> (start: bool)
        ensures
            start == (child != Child::Running),
    {
        match child {
            Child::Running => false,
            _ => true,
        }
    }

    /// Whether a hook process is to be ended when the supervision ends: one that
    /// still runs.
    pub fn must_kill(child: Child) -> (kill: bool)
        ensures
            kill == (child == Child::Running),
    {
        match child {
            Child::Running => true,
            _ => false,
        }
    }

    /// The variables that a hook process is started with: the server's process id, in
    /// decimal, and the path of the hook library of its architecture.
    pub fn environment(pid: u32, dll_path: &str) -> (variables: Vec<(&'static str, String)>)
        ensures
            variables@.len() == 2,
            variables@[0].0@ == PID_VARIABLE@,
            variables@[0].1@ == decimal(pid as nat),
            variables@[1].0@ == HOOK_DLL_VARIABLE@,
            variables@[1].1@ == dll_path@,
    {
        let mut id = String::from_str("");
        proof {
            reveal_strlit("");
        }
        push_decimal(&mut id, pid);
        assert(id@ =~= decimal(pid as nat));
        let mut variables: Vec<(&'static str, String)> = Vec::new();
        variables.push((PID_VARIABLE, id));
        variables.push((HOOK_DLL_VARIABLE, String::from_str(dll_path)));
        variables
    }
}

} // verus!
