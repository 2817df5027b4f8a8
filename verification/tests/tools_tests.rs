use rmst_tools::app_info::{version_string, AppInfo};
use rmst_tools::command::{find_command, run_result, CommandItem, RunOutcome};
use rmst_tools::history::remember_opened_url;
use rmst_tools::port::{kill_command, pid_on_line, pids_in_output, pids_in_text, port_query, Platform};
use rmst_tools::proxy::{git_proxy_commands, proxy_enabled, ProxyChange, ProxyWatcher};
use rmst_tools::setting::{is_listed_entry, names_tree, node_modules_removals, NodeModulesFolder, SettingData};
use rmst_tools::shell::{editor_command, explorer_command, open_terminal_command, owned_strings, terminal_command};
use rmst_tools::update::{DownloadEvent, DownloadProgress, UpdateInfo};
use rmst_tools::updater::{self, take_pending, update_endpoint, update_endpoint_text, Error, UpdateMetadata, UPDATE_CHANNEL};
use rmst_tools::window::{
    hides_on_close, menu_command, new_window_label, open_folder_position, open_folder_steps, qr_code_steps,
    qr_code_text, quick_input_steps, setting_window_steps, window_label, MenuCommand, WindowStep,
};

fn strings(items: &[&str]) -> Vec<String> {
    items.iter().map(|s| s.to_string()).collect()
}

// --- opened page history ---------------------------------------------------

#[test]
fn history_new_url_goes_first() {
    let mut list = strings(&["b", "c"]);
    assert!(remember_opened_url(&mut list, "a".to_string()));
    assert_eq!(list, strings(&["a", "b", "c"]));
}

#[test]
fn history_known_url_leaves_list() {
    let mut list = strings(&["b", "c"]);
    assert!(!remember_opened_url(&mut list, "c".to_string()));
    assert_eq!(list, strings(&["b", "c"]));
}

#[test]
fn history_caps_at_five() {
    let mut list = strings(&["1", "2", "3", "4", "5"]);
    remember_opened_url(&mut list, "6".to_string());
    assert_eq!(list, strings(&["6", "1", "2", "3", "4"]));
}

#[test]
fn history_twice_same_as_once() {
    let mut once = strings(&["x", "y"]);
    remember_opened_url(&mut once, "z".to_string());
    let mut twice = once.clone();
    remember_opened_url(&mut twice, "z".to_string());
    assert_eq!(once, twice);
}

#[test]
fn history_longer_list_keeps_its_length() {
    let mut list = strings(&["1", "2", "3", "4", "5", "6", "7"]);
    remember_opened_url(&mut list, "8".to_string());
    assert_eq!(list.len(), 7);
    assert_eq!(list[0], "8");
}

// --- port --------------------------------------------------------------------

#[test]
fn port_query_per_platform() {
    let w = port_query(Platform::Windows, 3000).unwrap();
    assert_eq!(w.program, "cmd");
    assert_eq!(w.args, strings(&["/C", "netstat -ano | findstr :3000"]));
    let l = port_query(Platform::Linux, 8080).unwrap();
    assert_eq!(l.program, "sh");
    assert_eq!(l.args, strings(&["-c", "lsof -t -i:8080"]));
    let m = port_query(Platform::MacOs, 1).unwrap();
    assert_eq!(m.args, strings(&["-c", "lsof -t -i:1"]));
    assert!(port_query(Platform::Other, 80).is_none());
}

#[test]
fn netstat_output_pids() {
    let out = "  TCP    0.0.0.0:3000           0.0.0.0:0              LISTENING       1234\r\n  TCP    [::]:3000              [::]:0                 LISTENING       5678\r\n  short line\r\n  TCP    1 2 3 notanumber\r\n";
    assert_eq!(pids_in_text(Platform::Windows, out), vec![1234, 5678]);
    assert_eq!(pid_on_line(Platform::Windows, "a b c d 42 extra"), Some(42));
    assert_eq!(pid_on_line(Platform::Windows, "a b c d"), None);
}

#[test]
fn lsof_output_pids() {
    assert_eq!(pids_in_text(Platform::Linux, "101\n202\nnot a pid\n303"), vec![101, 202, 303]);
    assert_eq!(pids_in_text(Platform::MacOs, ""), Vec::<u32>::new());
    assert_eq!(pids_in_text(Platform::Other, "1\n2\n"), Vec::<u32>::new());
}

#[test]
fn lsof_listing_reads_back() {
    let pids = vec![7u32, 4294967295, 0, 31337];
    let listing: String = pids.iter().map(|p| format!("{}\n", p)).collect();
    assert_eq!(pids_in_text(Platform::Linux, &listing), pids);
}

#[test]
fn raw_output_is_read_lossily() {
    let bytes = b"12\n\xff\xfe\n34\n".to_vec();
    assert_eq!(pids_in_output(Platform::Linux, &bytes), vec![12, 34]);
}

#[test]
fn kill_commands_per_platform() {
    let w = kill_command(Platform::Windows, 1234).unwrap();
    assert_eq!(w.program, "taskkill");
    assert_eq!(w.args, strings(&["/F", "/PID", "1234"]));
    let l = kill_command(Platform::Linux, 99).unwrap();
    assert_eq!(l.program, "kill");
    assert_eq!(l.args, strings(&["-9", "99"]));
    assert!(kill_command(Platform::Other, 1).is_none());
}

// --- saved commands ------------------------------------------------------------

fn item(label: &str, cmd: &str) -> CommandItem {
    CommandItem {
        label: label.to_string(),
        cmd: cmd.to_string(),
        arg: "index.js  --port 3000".to_string(),
        currentDir: "E:/rmst-sd".to_string(),
    }
}

#[test]
fn find_command_takes_first_match() {
    let items = vec![item("dev", "node"), item("build", "npm"), item("dev", "deno")];
    let found = find_command(&items, "dev").unwrap();
    assert_eq!(found.cmd, "node");
    assert!(find_command(&items, "missing").is_none());
    assert!(find_command(&Vec::new(), "dev").is_none());
}

#[test]
fn command_plan_splits_arguments() {
    let plan = item("dev", "node").plan();
    assert_eq!(plan.program, "node");
    assert_eq!(plan.args, strings(&["index.js", "--port", "3000"]));
    assert_eq!(plan.current_dir, Some("E:/rmst-sd".to_string()));
}

#[test]
fn run_results() {
    assert_eq!(run_result("node", RunOutcome::Succeeded), Ok(()));
    assert_eq!(
        run_result("node", RunOutcome::FailedWithOutput { stderr: b"boom".to_vec() }),
        Err("boom".to_string())
    );
    assert_eq!(
        run_result("node", RunOutcome::FailedWithOutput { stderr: vec![0xc3] }),
        Err(String::new())
    );
    assert_eq!(
        run_result("node", RunOutcome::FailedWithoutOutput { status: "exit code: 1".to_string() }),
        Err("命令执行失败，退出码：exit code: 1".to_string())
    );
    assert_eq!(
        run_result("nodex", RunOutcome::NotStarted { error: "program not found".to_string() }),
        Err("Cmd execute command 'nodex program not found".to_string())
    );
}

// --- settings ------------------------------------------------------------------

#[test]
fn setting_fallback_and_projects() {
    let fallback = SettingData::fallback();
    assert_eq!(fallback.cmdPath, Some(String::new()));
    assert_eq!(fallback.editorPaths, Some(vec![]));
    assert_eq!(fallback.notes, Some(vec![]));
    assert_eq!(fallback.nodeModulesFolders, Some(vec![]));
    assert_eq!(fallback.project_paths(), Vec::<String>::new());
    let data = SettingData {
        cmdPath: None,
        editorPaths: None,
        projectPaths: Some(strings(&["D:\\code"])),
        notes: None,
        nodeModulesFolders: None,
    };
    assert_eq!(data.project_paths(), strings(&["D:\\code"]));
    let none = SettingData { cmdPath: None, editorPaths: None, projectPaths: None, notes: None, nodeModulesFolders: None };
    assert!(none.project_paths().is_empty());
}

#[test]
fn listing_hides_system_and_dotted_entries() {
    for hidden in ["$RECYCLE.BIN", "System Volume Information", "_tmp", "$x", ".git", "-old"] {
        assert!(!is_listed_entry(hidden), "{}", hidden);
    }
    for shown in ["app", "", "a.b", "System"] {
        assert!(is_listed_entry(shown), "{}", shown);
    }
}

#[test]
fn names_tree_of_a_project_folder() {
    let entries = strings(&["web", ".git", "api", "$RECYCLE.BIN", "_cache", "docs"]);
    let tree = names_tree("D:\\code\\proj", &entries);
    assert_eq!(tree.name, "D:/code/proj");
    assert_eq!(tree.children, strings(&["web", "api", "docs"]));
}

#[test]
fn removals_for_picked_folders() {
    let folders = vec![
        NodeModulesFolder { path: Some("D:/a".to_string()), selected: Some(true) },
        NodeModulesFolder { path: Some("D:/b".to_string()), selected: Some(false) },
        NodeModulesFolder { path: Some("D:/c".to_string()), selected: None },
        NodeModulesFolder { path: None, selected: Some(true) },
    ];
    let cmds = node_modules_removals(&folders);
    assert_eq!(cmds.len(), 2);
    assert_eq!(cmds[0].program, "powershell");
    assert_eq!(cmds[0].args, strings(&["-Command", "Remove-Item -Recurse -Force node_modules"]));
    assert_eq!(cmds[0].current_dir, Some("D:/a".to_string()));
    assert_eq!(cmds[1].current_dir, Some(String::new()));
}

// --- other programs ---------------------------------------------------------------

#[test]
fn explorer_editor_terminal_commands() {
    let e = explorer_command("D:/code/proj");
    assert_eq!(e.program, "explorer");
    assert_eq!(e.args, strings(&["D:\\code\\proj"]));
    let ed = editor_command("code", "D:/p");
    assert_eq!(ed.program, "code");
    assert_eq!(ed.args, strings(&["D:/p"]));
    let t = terminal_command("D:/p/app", "app");
    assert_eq!(t.program, "wt");
    assert_eq!(t.args, strings(&["-d", "D:/p/app", "--title", "app", "--suppressApplicationTitle"]));
    assert_eq!(owned_strings(&["a", "b"]), strings(&["a", "b"]));
}

#[test]
fn terminal_title_is_folder_name() {
    let t = open_terminal_command("/home/me/proj").unwrap();
    assert_eq!(t.args[3], "proj");
    assert_eq!(t.args[1], "/home/me/proj");
    assert!(open_terminal_command("/home/me/..").is_none());
}

// --- windows -----------------------------------------------------------------------

#[test]
fn tool_windows_hide_on_close() {
    for label in ["setting", "openFolder", "quickInput", "trayMenu"] {
        assert!(hides_on_close(label));
    }
    assert!(!hides_on_close("12345"));
    assert!(!hides_on_close("Setting"));
}

#[test]
fn tray_menu_commands() {
    assert_eq!(menu_command("setting"), MenuCommand::ShowSetting);
    assert_eq!(menu_command("restart"), MenuCommand::Restart);
    assert_eq!(menu_command("quit"), MenuCommand::Quit);
    assert_eq!(menu_command("other"), MenuCommand::Ignore);
    assert_eq!(setting_window_steps(true), vec![WindowStep::Unminimize, WindowStep::Show, WindowStep::Focus]);
    assert_eq!(setting_window_steps(false), vec![WindowStep::Show, WindowStep::Focus]);
}

#[test]
fn open_folder_shortcut() {
    assert_eq!(open_folder_position(1920, 1080, 800), (560, 270));
    assert_eq!(open_folder_steps(true, true, 1920, 1080, 800), vec![WindowStep::Hide]);
    assert_eq!(
        open_folder_steps(true, false, 1920, 1080, 800),
        vec![WindowStep::MoveTo { x: 560, y: 270 }, WindowStep::Focus]
    );
    assert_eq!(
        open_folder_steps(false, false, 1920, 1080, 800),
        vec![WindowStep::MoveTo { x: 560, y: 270 }, WindowStep::Show, WindowStep::Focus]
    );
}

#[test]
fn quick_input_and_qr_shortcuts() {
    assert_eq!(quick_input_steps(true), vec![WindowStep::Hide]);
    assert_eq!(quick_input_steps(false), vec![WindowStep::MoveToCursor, WindowStep::Show, WindowStep::Focus]);
    assert_eq!(qr_code_steps(), vec![WindowStep::Unminimize, WindowStep::Show, WindowStep::Focus]);
    assert_eq!(qr_code_text("  https://example.com \n"), "https://example.com");
}

#[test]
fn page_window_labels() {
    assert_eq!(window_label(-7), "-7");
    assert_eq!(window_label(123), "123");
    let label = new_window_label();
    assert!(label.parse::<i32>().is_ok());
}

// --- package info --------------------------------------------------------------------

#[test]
fn app_info_version() {
    assert_eq!(version_string(1, 2, 3), "1.2.3");
    assert_eq!(version_string(0, 10, 0), "0.10.0");
    let info = AppInfo::new("rmst-tools".to_string(), 0, 1, 0, "me", "desc", "rmst_tools");
    assert_eq!(info.version, "0.1.0");
    assert_eq!(info.name, "rmst-tools");
    assert_eq!(info.crate_name, "rmst_tools");
}

// --- updates ----------------------------------------------------------------------------

#[test]
fn update_info_from_check() {
    let found = UpdateInfo::from_check(Some(("1.0.0".to_string(), "1.1.0".to_string())));
    assert!(found.needUpdate);
    assert_eq!(found.current_version, "1.0.0");
    assert_eq!(found.version, "1.1.0");
    let none = UpdateInfo::from_check(None);
    assert!(!none.needUpdate);
    assert_eq!(none.version, "");
}

#[test]
fn download_reports_started_once() {
    let mut p = DownloadProgress::new();
    assert_eq!(
        p.on_chunk(10, Some(30)),
        vec![DownloadEvent::Started { content_length: Some(30) }, DownloadEvent::Progress { chunk_length: 10 }]
    );
    assert_eq!(p.on_chunk(20, Some(30)), vec![DownloadEvent::Progress { chunk_length: 20 }]);
    assert_eq!(p.on_finish(), DownloadEvent::Finished);
}

#[test]
fn install_reports_started_once() {
    let mut p = updater::DownloadProgress::new();
    assert_eq!(
        p.on_chunk(5, None),
        vec![updater::DownloadEvent::Started { content_length: None }, updater::DownloadEvent::Progress { chunk_length: 5 }]
    );
    assert_eq!(p.on_chunk(6, None), vec![updater::DownloadEvent::Progress { chunk_length: 6 }]);
    assert_eq!(p.on_finish(), updater::DownloadEvent::Finished);
}

#[test]
fn update_endpoint_for_stable() {
    assert_eq!(
        update_endpoint_text(UPDATE_CHANNEL),
        "https://cdn.myupdater.com/{{target}}-{{arch}}/{{current_version}}?channel=stable"
    );
    let url = update_endpoint(UPDATE_CHANNEL).unwrap();
    assert_eq!(url.query(), Some("channel=stable"));
    assert_eq!(url.host_str(), Some("cdn.myupdater.com"));
}

#[test]
fn fetch_metadata_and_errors() {
    let m = UpdateMetadata::from_fetch(Some(("2.0.0".to_string(), "1.0.0".to_string()))).unwrap();
    assert_eq!(m.version, "2.0.0");
    assert_eq!(m.current_version, "1.0.0");
    assert!(UpdateMetadata::from_fetch(None).is_none());
    assert_eq!(Error::NoPendingUpdate.message(), "there is no pending update");
    assert_eq!(Error::Updater("network down".to_string()).message(), "network down");
}

#[test]
fn pending_update_is_taken_once() {
    let mut slot = Some(7u8);
    assert_eq!(take_pending(&mut slot), Ok(7));
    assert_eq!(slot, None);
    assert_eq!(take_pending(&mut slot), Err(Error::NoPendingUpdate));
}

// --- proxy ------------------------------------------------------------------------------

#[test]
fn proxy_switch_reading() {
    assert!(proxy_enabled(Some(1)));
    assert!(!proxy_enabled(Some(0)));
    assert!(!proxy_enabled(Some(2)));
    assert!(!proxy_enabled(None));
}

#[test]
fn proxy_watcher_acts_on_changes_only() {
    let mut w = ProxyWatcher::new();
    assert_eq!(w.on_tick(false), ProxyChange::Remove);
    assert_eq!(w.on_tick(false), ProxyChange::Keep);
    assert_eq!(w.on_tick(true), ProxyChange::Apply);
    assert_eq!(w.on_tick(true), ProxyChange::Keep);
    assert_eq!(w.on_tick(false), ProxyChange::Remove);
}

#[test]
fn git_proxy_command_lines() {
    let set = git_proxy_commands(ProxyChange::Apply);
    assert_eq!(set.len(), 2);
    assert_eq!(set[0].program, "git");
    assert_eq!(set[0].args, strings(&["config", "--global", "http.proxy", "http://127.0.0.1:7897"]));
    assert_eq!(set[1].args, strings(&["config", "--global", "https.proxy", "http://127.0.0.1:7897"]));
    let unset = git_proxy_commands(ProxyChange::Remove);
    assert_eq!(unset[0].args, strings(&["config", "--global", "--unset", "http.proxy"]));
    assert_eq!(unset[1].args, strings(&["config", "--global", "--unset", "https.proxy"]));
    assert!(git_proxy_commands(ProxyChange::Keep).is_empty());
}

#[test]
fn history_stays_without_repeats() {
    let mut list = strings(&["a", "b", "c", "d", "e"]);
    for url in ["c", "f", "a", "g", "f"] {
        remember_opened_url(&mut list, url.to_string());
        let mut seen = list.clone();
        seen.sort();
        seen.dedup();
        assert_eq!(seen.len(), list.len());
        assert!(list.len() <= 5);
        assert!(list.contains(&url.to_string()));
    }
}

#[test]
fn terminal_for_plain_folder_name() {
    let t = open_terminal_command("proj").unwrap();
    assert_eq!(t.args, strings(&["-d", "proj", "--title", "proj", "--suppressApplicationTitle"]));
    assert!(open_terminal_command("..").is_none());
    assert!(open_terminal_command("a/b/..").is_none());
}

#[test]
fn terminal_title_for_full_path() {
    let t = open_terminal_command("D:/code/my-app").unwrap();
    assert_eq!(t.args, strings(&["-d", "D:/code/my-app", "--title", "my-app", "--suppressApplicationTitle"]));
    let u = open_terminal_command("/home/me/web").unwrap();
    assert_eq!(u.args[3], "web");
}

#[test]
fn icon_is_reencoded_as_png() {
    let mut png: Vec<u8> = Vec::new();
    let img = image::RgbaImage::from_pixel(2, 3, image::Rgba([10, 20, 30, 255]));
    img.write_to(&mut std::io::Cursor::new(&mut png), image::ImageFormat::Png).unwrap();
    let out = rmst_tools::icon::icon_png(&png).unwrap();
    assert_eq!(&out[..8], &[0x89, b'P', b'N', b'G', 0x0d, 0x0a, 0x1a, 0x0a]);
    let back = image::load_from_memory_with_format(&out, image::ImageFormat::Png).unwrap().to_rgba8();
    assert_eq!(back.dimensions(), (2, 3));
    assert_eq!(back.get_pixel(1, 2), &image::Rgba([10, 20, 30, 255]));
    assert!(rmst_tools::icon::icon_png(b"not an image").is_none());
}

#[test]
fn download_session_events() {
    let mut p = DownloadProgress::new();
    let mut all = Vec::new();
    for c in [4usize, 5, 6] {
        all.extend(p.on_chunk(c, Some(15)));
    }
    assert_eq!(
        all,
        vec![
            DownloadEvent::Started { content_length: Some(15) },
            DownloadEvent::Progress { chunk_length: 4 },
            DownloadEvent::Progress { chunk_length: 5 },
            DownloadEvent::Progress { chunk_length: 6 },
        ]
    );
}

#[test]
fn valid_output_is_read_as_text() {
    let bytes = "  TCP    0.0.0.0:80   0.0.0.0:0   LISTENING   4321\r\n".as_bytes();
    assert_eq!(pids_in_output(Platform::Windows, bytes), vec![4321]);
}

#[test]
fn focused_open_folder_hides_on_any_monitor() {
    assert_eq!(open_folder_steps(true, true, 100, 100, 4000), vec![WindowStep::Hide]);
}

#[test]
fn endpoint_parse_is_the_url_parse() {
    let text = update_endpoint_text(UPDATE_CHANNEL);
    assert_eq!(update_endpoint(UPDATE_CHANNEL).unwrap(), url::Url::parse(&text).unwrap());
}
