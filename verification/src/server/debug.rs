//! Finding the hook binaries of a development build: which executable and which
//! library is for which architecture.

use vstd::prelude::*;
use crate::util::str_eq;

verus! {

/// The architecture that a binary is for.
#[derive(Clone, Copy, Debug, PartialEq, Eq, Structural)]
pub enum Machine {
    X86,
    X64,
}

/// Where an executable image keeps the offset of its header.
pub const HEADER_OFFSET_AT: usize = 0x3C;

/// The machine code of 32-bit x86.
pub const IMAGE_FILE_MACHINE_I386: u16 = 0x014c;

/// The machine code of x64.
pub const IMAGE_FILE_MACHINE_AMD64: u16 = 0x8664;

pub const HOOK_DLL_32: &'static str = "wlw_hook32.dll";

pub const HOOK_DLL_64: &'static str = "wlw_hook64.dll";

/// The patterns, under the project's directory, that find the hook executables and
/// the hook libraries.
pub const HOOK_EXE_PATTERN: &'static str = "/**/wlw-hook*.exe";

pub const HOOK_DLL_PATTERN: &'static str = "/**/wlw_hook*.dll";

/// Where the machine code of an image stands: four bytes after the start of the
/// header, whose offset is the one byte at `HEADER_OFFSET_AT`.
pub open spec fn machine_at(image: Seq<u8>) -> int {
    image[HEADER_OFFSET_AT as int] + 4
}

/// The machine code of an image: two bytes, the lower first.
pub open spec fn machine_code(image: Seq<u8>) -> int {
    image[machine_at(image)] + image[machine_at(image) + 1] * 0x100
}

/// The architecture of an executable image, where the image is long enough to say
/// and names one of the two.
pub open spec fn image_machine(image: Seq<u8>) -> Option<Machine> {
    if image.len() <= HEADER_OFFSET_AT || image.len() < machine_at(image) + 2 {
        None
    } else if machine_code(image) == IMAGE_FILE_MACHINE_AMD64 {
        Some(Machine::X64)
    } else if machine_code(image) == IMAGE_FILE_MACHINE_I386 {
        Some(Machine::X86)
    } else {
        None
    }
}

/// The architecture of a hook library, by its file name.
pub open spec fn dll_machine(file_name: Seq<char>) -> Option<Machine> {
    if file_name == HOOK_DLL_32@ {
        Some(Machine::X86)
    } else if file_name == HOOK_DLL_64@ {
        Some(Machine::X64)
    } else {
        None
    }
}

/// The last path of the given architecture.
pub open spec fn last_for(found: Seq<(Seq<char>, Machine)>, machine: Machine) -> Option<Seq<char>>
    decreases found.len(),
{
    if found.len() == 0 {
        None
    } else if found.last().1 == machine {
        Some(found.last().0)
    } else {
        last_for(found.drop_last(), machine)
    }
}

pub open spec fn paths_view(found: Seq<(String, Machine)>) -> Seq<(Seq<char>, Machine)> {
    found.map_values(|entry: (String, Machine)| (entry.0@, entry.1))
}

/// The paths of the four hook binaries.
#[derive(Debug)]
pub struct HookBinaryPaths {
    pub exe32: String,
    pub exe64: String,
    pub dll32: String,
    pub dll64: String,
}

impl HookBinaryPaths {
    /// Reads the architecture off the start of an executable image.
    pub fn exe_machine(image: &[u8]) -> (machine: Option<Machine>)
        ensures
            machine == image_machine(image@),
    {
        if image.len() <= HEADER_OFFSET_AT {
            return None;
        }
        let at: usize = image[HEADER_OFFSET_AT] as usize + 4;
        if image.len() < at + 2 {
            return None;
        }
        let code: u16 = image[at] as u16 + image[at + 1] as u16 * 0x100;
        if code == IMAGE_FILE_MACHINE_AMD64 {
            Some(Machine::X64)
        } else if code == IMAGE_FILE_MACHINE_I386 {
            Some(Machine::X86)
        } else {
            None
        }
    }

    /// Tells the architecture of a hook library from its file name.
    pub fn dll_machine(file_name: &str) -> (machine: Option<Machine>)
        ensures
            machine == dll_machine(file_name@),
    {
        if str_eq(file_name, HOOK_DLL_32) {
            Some(Machine::X86)
        } else if str_eq(file_name, HOOK_DLL_64) {
            Some(Machine::X64)
        } else {
            None
        }
    }

    /// The last path of the given architecture among those that were found.
    pub fn pick(found: &Vec<(String, Machine)>, machine: Machine) -> (path: Option<String>)
        ensures
            match last_for(paths_view(found@), machine) {
                Some(expected) => path matches Some(picked) && picked@ == expected,
                None => path is None,
            },
    {
        let mut at: usize = found.len();
        proof {
            assert(paths_view(found@).subrange(0, at as int) =~= paths_view(found@));
        }
        while at > 0
            invariant
                at <= found@.len(),
                last_for(paths_view(found@), machine) == last_for(
                    paths_view(found@).subrange(0, at as int),
                    machine,
                ),
            decreases at,
        {
            proof {
                let all = paths_view(found@);
                let head = all.subrange(0, at as int);
                assert(head.drop_last() =~= all.subrange(0, at - 1));
                assert(head.last() == all[at - 1]);
            }
            at = at - 1;
            if found[at].1 == machine {
                return Some(found[at].0.clone());
            }
        }
        None
    }

    /// The four binaries from the executables and the libraries that were found, each
    /// with its architecture. Where several are of one kind and architecture the last
    /// one counts; where one of the four is missing there is no answer.
    pub fn get(exes: &Vec<(String, Machine)>, dlls: &Vec<(String, Machine)>) -> (paths: Option<
        HookBinaryPaths,
    >)
        ensures
            match paths {
                Some(found) => {
                    &&& last_for(paths_view(exes@), Machine::X86) == Some(found.exe32@)
                    &&& last_for(paths_view(exes@), Machine::X64) == Some(found.exe64@)
                    &&& last_for(paths_view(dlls@), Machine::X86) == Some(found.dll32@)
                    &&& last_for(paths_view(dlls@), Machine::X64) == Some(found.dll64@)
                },
                None => {
                    ||| last_for(paths_view(exes@), Machine::X86) is None
                    ||| last_for(paths_view(exes@), Machine::X64) is None
                    ||| last_for(paths_view(dlls@), Machine::X86) is None
                    ||| last_for(paths_view(dlls@), Machine::X64) is None
                },
            },
    {
        let exe32 = match HookBinaryPaths::pick(exes, Machine::X86) {
            Some(path) => path,
            None => {
                return None;
            },
        };
        let exe64 = match HookBinaryPaths::pick(exes, Machine::X64) {
            Some(path) => path,
            None => {
                return None;
            },
        };
        let dll32 = match HookBinaryPaths::pick(dlls, Machine::X86) {
            Some(path) => path,
            None => {
                return None;
            },
        };
        let dll64 = match HookBinaryPaths::pick(dlls, Machine::X64) {
            Some(path) => path,
            None => {
                return None;
            },
        };
        Some(HookBinaryPaths { exe32, exe64, dll32, dll64 })
    }
}

} // verus!
