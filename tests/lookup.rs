use focused_app::exe_path::file_name;
use focused_app::outcome::{name_or_unknown, not_implemented};
use focused_app::window_chain::{
    after_executable_path, after_foreground_window, after_open_process, after_window_process,
    window_first, WindowQuery, WindowStep,
};
use focused_app::workspace_chain::{
    after_query, after_read_name, workspace_first, WorkspaceQuery, WorkspaceStep,
};

/// Faked answers of a window manager.
struct FakeWindows {
    window: bool,
    pid: u32,
    opened: bool,
    path: Vec<u16>,
}

fn run_windows(os: &FakeWindows) -> String {
    let mut step = window_first();
    loop {
        step = match step {
            WindowStep::Done(name) => return name,
            WindowStep::Query(WindowQuery::ForegroundWindow) => after_foreground_window(os.window),
            WindowStep::Query(WindowQuery::WindowProcess) => after_window_process(os.pid),
            WindowStep::Query(WindowQuery::OpenProcess(pid)) => {
                assert_eq!(pid, os.pid);
                after_open_process(os.opened)
            }
            WindowStep::Query(WindowQuery::ExecutablePath) => {
                return after_executable_path(&os.path)
            }
        };
    }
}

/// Faked answers of a desktop workspace.
struct FakeWorkspace {
    workspace: bool,
    frontmost: bool,
    localized: bool,
    text: Option<String>,
}

fn run_workspace(os: &FakeWorkspace) -> String {
    let mut step = workspace_first();
    loop {
        step = match step {
            WorkspaceStep::Done(name) => return name,
            WorkspaceStep::ReadName => return after_read_name(os.text.clone()),
            WorkspaceStep::Query(q) => {
                let found = match q {
                    WorkspaceQuery::SharedWorkspace => os.workspace,
                    WorkspaceQuery::FrontmostApplication => os.frontmost,
                    WorkspaceQuery::LocalizedName => os.localized,
                };
                after_query(q, found)
            }
        };
    }
}

fn wide(s: &str) -> Vec<u16> {
    s.encode_utf16().collect()
}

fn windows_with_path(path: &str) -> FakeWindows {
    FakeWindows { window: true, pid: 4242, opened: true, path: wide(path) }
}

fn workspace_with(text: Option<&str>) -> FakeWorkspace {
    FakeWorkspace {
        workspace: true,
        frontmost: true,
        localized: true,
        text: text.map(|t| t.to_string()),
    }
}

#[test]
fn unsupported_platform_reports_not_implemented() {
    assert_eq!(not_implemented(), "Not implemented on this platform");
    assert_eq!(not_implemented(), not_implemented());
}

#[test]
fn no_foreground_window_reports_no_window() {
    let os = FakeWindows { window: false, pid: 0, opened: false, path: vec![] };
    assert_eq!(run_windows(&os), "No window");
    assert_eq!(after_foreground_window(false), WindowStep::Done("No window".to_string()));
}

#[test]
fn zero_process_id_reports_unknown() {
    let os = FakeWindows { window: true, pid: 0, opened: true, path: wide("C:\\a.exe") };
    assert_eq!(run_windows(&os), "Unknown");
}

#[test]
fn denied_process_reports_access_denied() {
    let os = FakeWindows { window: true, pid: 77, opened: false, path: wide("C:\\a.exe") };
    assert_eq!(run_windows(&os), "Access denied");
    assert_eq!(after_open_process(false), WindowStep::Done("Access denied".to_string()));
}

#[test]
fn window_steps_follow_in_order() {
    assert_eq!(window_first(), WindowStep::Query(WindowQuery::ForegroundWindow));
    assert_eq!(after_foreground_window(true), WindowStep::Query(WindowQuery::WindowProcess));
    assert_eq!(after_window_process(9), WindowStep::Query(WindowQuery::OpenProcess(9)));
    assert_eq!(after_open_process(true), WindowStep::Query(WindowQuery::ExecutablePath));
}

#[test]
fn executable_file_name_reported() {
    let os = windows_with_path("C:\\Windows\\System32\\notepad.exe");
    assert_eq!(run_windows(&os), "notepad.exe");
}

#[test]
fn empty_executable_path_reports_unknown() {
    assert_eq!(run_windows(&windows_with_path("")), "Unknown");
    assert_eq!(after_executable_path(&[]), "Unknown");
}

#[test]
fn file_name_skips_trailing_separators_and_dots() {
    assert_eq!(after_executable_path(&wide("C:\\Tools\\app\\")), "app");
    assert_eq!(after_executable_path(&wide("C:/Tools/app/./")), "app");
    assert_eq!(after_executable_path(&wide("\\\\?\\C:\\Program Files\\Editor\\ed.exe")), "ed.exe");
    assert_eq!(after_executable_path(&wide("plain.exe")), "plain.exe");
}

#[test]
fn path_without_file_name_reports_unknown() {
    assert_eq!(after_executable_path(&wide("C:\\")), "Unknown");
    assert_eq!(after_executable_path(&wide("C:\\Tools\\..")), "Unknown");
    assert_eq!(after_executable_path(&wide(".")), "Unknown");
    assert_eq!(after_executable_path(&wide("\\\\")), "Unknown");
}

#[test]
fn file_name_units() {
    assert_eq!(file_name(&wide("C:\\dir\\x.exe")), Some(wide("x.exe")));
    assert_eq!(file_name(&wide("dir//y")), Some(wide("y")));
    assert_eq!(file_name(&wide("C:")), None);
    assert_eq!(file_name(&[]), None);
}

#[test]
fn non_ascii_file_name_decoded() {
    assert_eq!(after_executable_path(&wide("C:\\Programme\\Ωmega ✓.exe")), "Ωmega ✓.exe");
    assert_eq!(after_executable_path(&wide("D:\\emoji\\😀.exe")), "😀.exe");
}

#[test]
fn invalid_utf16_file_name_reports_unknown() {
    let mut path = wide("C:\\dir\\");
    path.push(0xD800);
    path.extend(wide(".exe"));
    assert_eq!(after_executable_path(&path), "Unknown");
}

#[test]
fn focused_notes_reported() {
    assert_eq!(run_workspace(&workspace_with(Some("Notes"))), "Notes");
}

#[test]
fn missing_workspace_reports_unknown() {
    let os = FakeWorkspace { workspace: false, frontmost: true, localized: true, text: Some("Notes".to_string()) };
    assert_eq!(run_workspace(&os), "Unknown");
}

#[test]
fn missing_frontmost_application_reports_unknown() {
    let os = FakeWorkspace { workspace: true, frontmost: false, localized: true, text: Some("Notes".to_string()) };
    assert_eq!(run_workspace(&os), "Unknown");
}

#[test]
fn missing_localized_name_reports_unknown() {
    let os = FakeWorkspace { workspace: true, frontmost: true, localized: false, text: Some("Notes".to_string()) };
    assert_eq!(run_workspace(&os), "Unknown");
}

#[test]
fn unreadable_or_empty_name_reports_unknown() {
    assert_eq!(run_workspace(&workspace_with(None)), "Unknown");
    assert_eq!(run_workspace(&workspace_with(Some(""))), "Unknown");
    assert_eq!(name_or_unknown(Some("Mail".to_string())), "Mail");
    assert_eq!(name_or_unknown(None), "Unknown");
}

#[test]
fn workspace_steps_follow_in_order() {
    assert_eq!(workspace_first(), WorkspaceStep::Query(WorkspaceQuery::SharedWorkspace));
    assert_eq!(
        after_query(WorkspaceQuery::SharedWorkspace, true),
        WorkspaceStep::Query(WorkspaceQuery::FrontmostApplication)
    );
    assert_eq!(
        after_query(WorkspaceQuery::FrontmostApplication, true),
        WorkspaceStep::Query(WorkspaceQuery::LocalizedName)
    );
    assert_eq!(after_query(WorkspaceQuery::LocalizedName, true), WorkspaceStep::ReadName);
    assert_eq!(
        after_query(WorkspaceQuery::LocalizedName, false),
        WorkspaceStep::Done("Unknown".to_string())
    );
}

#[test]
fn repeated_lookup_reports_same_name() {
    let ws = workspace_with(Some("Notes"));
    assert_eq!(run_workspace(&ws), run_workspace(&ws));
    let win = windows_with_path("C:\\Windows\\explorer.exe");
    assert_eq!(run_windows(&win), run_windows(&win));
    assert_eq!(run_windows(&win), "explorer.exe");
}

#[test]
fn every_answer_combination_reports_a_name() {
    for bits in 0u32..16 {
        let win = FakeWindows {
            window: bits & 1 != 0,
            pid: if bits & 2 != 0 { 12 } else { 0 },
            opened: bits & 4 != 0,
            path: if bits & 8 != 0 { wide("C:\\x\\y.exe") } else { vec![] },
        };
        assert!(!run_windows(&win).is_empty());
        let ws = FakeWorkspace {
            workspace: bits & 1 != 0,
            frontmost: bits & 2 != 0,
            localized: bits & 4 != 0,
            text: if bits & 8 != 0 { Some("Finder".to_string()) } else { None },
        };
        assert!(!run_workspace(&ws).is_empty());
    }
}
