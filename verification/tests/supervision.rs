use wlw_server::server::debug::{self, Machine};
use wlw_server::server::hookmanager::{
    Child, HookBinaryPaths, HookManager, MONITOR_INTERVAL_MS, NUM_ARCHS,
};
use wlw_server::server::pipeserver::pipe::Pipe;

fn image(header_at: u8, machine: [u8; 2]) -> Vec<u8> {
    let mut bytes = vec![0u8; 0x3C];
    bytes.push(header_at);
    bytes.resize(header_at as usize, 0);
    bytes.extend_from_slice(b"PE\0\0");
    bytes.extend_from_slice(&machine);
    bytes.extend_from_slice(&[0; 8]);
    bytes
}

#[test]
fn executable_architecture() {
    assert_eq!(debug::HookBinaryPaths::exe_machine(&image(0x80, [0x64, 0x86])), Some(Machine::X64));
    assert_eq!(debug::HookBinaryPaths::exe_machine(&image(0xF0, [0x4c, 0x01])), Some(Machine::X86));
    assert_eq!(debug::HookBinaryPaths::exe_machine(&image(0x80, [0x00, 0x02])), None);
    assert_eq!(debug::HookBinaryPaths::exe_machine(&image(0x80, [0x86, 0x64])), None);
    assert_eq!(debug::HookBinaryPaths::exe_machine(&[]), None);
    assert_eq!(debug::HookBinaryPaths::exe_machine(&[0; 0x3C]), None);
    // Long enough for the offset, too short for the code.
    let mut short = image(0x80, [0x64, 0x86]);
    short.truncate(0x85);
    assert_eq!(debug::HookBinaryPaths::exe_machine(&short), None);
    short.push(0x86);
    assert_eq!(debug::HookBinaryPaths::exe_machine(&short), Some(Machine::X64));
}

#[test]
fn library_architecture() {
    assert_eq!(debug::HookBinaryPaths::dll_machine("wlw_hook32.dll"), Some(Machine::X86));
    assert_eq!(debug::HookBinaryPaths::dll_machine("wlw_hook64.dll"), Some(Machine::X64));
    assert_eq!(debug::HookBinaryPaths::dll_machine("wlw_hook.dll"), None);
    assert_eq!(debug::HookBinaryPaths::dll_machine("my_wlw_hook32.dll"), None);
    assert_eq!(debug::HOOK_EXE_PATTERN, "/**/wlw-hook*.exe");
    assert_eq!(debug::HOOK_DLL_PATTERN, "/**/wlw_hook*.dll");
}

#[test]
fn binaries_are_the_last_found_of_each_kind() {
    let exes = vec![
        ("debug/wlw-hook32.exe".to_string(), Machine::X86),
        ("debug/wlw-hook64.exe".to_string(), Machine::X64),
        ("release/wlw-hook32.exe".to_string(), Machine::X86),
    ];
    let dlls = vec![
        ("debug/wlw_hook64.dll".to_string(), Machine::X64),
        ("debug/wlw_hook32.dll".to_string(), Machine::X86),
    ];
    let paths = debug::HookBinaryPaths::get(&exes, &dlls).unwrap();
    assert_eq!(paths.exe32, "release/wlw-hook32.exe");
    assert_eq!(paths.exe64, "debug/wlw-hook64.exe");
    assert_eq!(paths.dll32, "debug/wlw_hook32.dll");
    assert_eq!(paths.dll64, "debug/wlw_hook64.dll");
    assert_eq!(debug::HookBinaryPaths::pick(&exes, Machine::X86), Some("release/wlw-hook32.exe".to_string()));
    assert_eq!(debug::HookBinaryPaths::pick(&Vec::new(), Machine::X86), None);
    assert!(debug::HookBinaryPaths::get(&exes[..1].to_vec(), &dlls).is_none());
    assert!(debug::HookBinaryPaths::get(&exes, &dlls[..1].to_vec()).is_none());
    assert!(debug::HookBinaryPaths::get(&exes, &Vec::new()).is_none());

    let ordered = HookBinaryPaths::get(paths);
    assert_eq!(ordered.exe_paths, ["release/wlw-hook32.exe".to_string(), "debug/wlw-hook64.exe".to_string()]);
    assert_eq!(ordered.dll_paths, ["debug/wlw_hook32.dll".to_string(), "debug/wlw_hook64.dll".to_string()]);
}

#[test]
fn hook_processes_are_kept_running() {
    assert_eq!(NUM_ARCHS, 2);
    assert_eq!(MONITOR_INTERVAL_MS, 500);
    assert!(HookManager::must_start(Child::Absent));
    assert!(HookManager::must_start(Child::Exited));
    assert!(!HookManager::must_start(Child::Running));
    assert!(HookManager::must_kill(Child::Running));
    assert!(!HookManager::must_kill(Child::Absent));
    assert!(!HookManager::must_kill(Child::Exited));
}

#[test]
fn hook_process_environment() {
    assert_eq!(
        HookManager::environment(4242, "C:\\wlw\\wlw_hook64.dll"),
        vec![
            ("WLW_PID", "4242".to_string()),
            ("WLW_HOOK_DLL", "C:\\wlw\\wlw_hook64.dll".to_string()),
        ]
    );
    assert_eq!(HookManager::environment(7, "")[0].1, "7");
}

#[test]
fn pipe_parameters() {
    assert!(Pipe::admits(16, 21));
    assert!(Pipe::admits(0xFFFF_FFFF, 0));
    let pipe = Pipe::new(16, 21);
    assert_eq!(
        pipe,
        Pipe {
            open_mode: 0x4000_0003,
            pipe_mode: 0x0000_0006,
            max_instances: 255,
            out_buffer_size: 16,
            in_buffer_size: 21,
            default_timeout: 1000,
        }
    );
}
