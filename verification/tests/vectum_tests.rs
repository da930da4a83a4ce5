use vectum::command::{choose_terminal, create_depotdownloader_command, LAUNCH_SCRIPT_PATH};
use vectum::depotdownloader::{
    depotdownloader_zip_name, extraction_modes, get_depotdownloader_url, DEPOTDOWNLOADER_VERSION,
};
use vectum::platform::{arch_label, get_os, Os};
use vectum::scan::{ScanStep, TerminalScan};
use vectum::steam::{SteamDownload, VectumOptions};
use vectum::terminal::{InstallProbe, Terminal};
use vectum::text::{replace_spaces, str_equals};

fn download(
    username: Option<&str>,
    password: Option<&str>,
    output_directory: Option<&str>,
    directory_name: Option<&str>,
    terminal: Option<u8>,
) -> SteamDownload {
    SteamDownload::new(
        username.map(|s| s.to_string()),
        password.map(|s| s.to_string()),
        "730".to_string(),
        "731".to_string(),
        "7617088375292372759".to_string(),
        VectumOptions::new(
            terminal,
            output_directory.map(|s| s.to_string()),
            directory_name.map(|s| s.to_string()),
        ),
    )
}

fn strings(parts: &[&str]) -> Vec<String> {
    parts.iter().map(|s| s.to_string()).collect()
}

const ALL: [Terminal; 13] = [
    Terminal::GNOMETerminal,
    Terminal::Alacritty,
    Terminal::Konsole,
    Terminal::GNOMEConsole,
    Terminal::Xfce4Terminal,
    Terminal::DeepinTerminal,
    Terminal::Terminator,
    Terminal::Kitty,
    Terminal::LXTerminal,
    Terminal::Tilix,
    Terminal::XTerm,
    Terminal::CMD,
    Terminal::Terminal,
];

#[test]
fn test_get_depotdownloader_url() {
    for os in ["windows", "linux", "macos"].iter() {
        for (arch, raw) in [("x64", "x86_64"), ("arm64", "aarch64"), ("arm", "arm")].iter() {
            if arch.eq(&"arm") && !os.eq(&"linux") {
                continue;
            }
            let url = format!("https://github.com/SteamRE/DepotDownloader/releases/download/DepotDownloader_{}/DepotDownloader-{}-{}.zip", DEPOTDOWNLOADER_VERSION, os, arch);
            assert_eq!(get_depotdownloader_url(Os::from_name(os), raw), url);
        }
    }
}

#[test]
fn url_for_unknown_architecture_and_os() {
    assert_eq!(
        get_depotdownloader_url(Os::from_name("freebsd"), "riscv64"),
        "https://github.com/SteamRE/DepotDownloader/releases/download/DepotDownloader_3.0.0/DepotDownloader-unknown-x86_64.zip"
    );
}

#[test]
fn os_names() {
    assert_eq!(get_os("linux"), "linux");
    assert_eq!(get_os("macos"), "macos");
    assert_eq!(get_os("windows"), "windows");
    assert_eq!(get_os("freebsd"), "unknown");
    assert_eq!(get_os(""), "unknown");
    assert_eq!(Os::from_name("windows"), Os::Windows);
    assert_eq!(Os::from_name("Linux"), Os::Unknown);
    assert_eq!(Os::Windows.separator(), "\\");
    assert_eq!(Os::Linux.separator(), "/");
    assert_eq!(Os::MacOs.name(), "macos");
}

#[test]
fn arch_labels() {
    assert_eq!(arch_label("x86_64"), "x64");
    assert_eq!(arch_label("aarch64"), "arm64");
    assert_eq!(arch_label("arm"), "arm");
    assert_eq!(arch_label("x86"), "x86_64");
}

#[test]
fn zip_name() {
    assert_eq!(depotdownloader_zip_name("linux"), "DepotDownloader-v3.0.0-linux.zip");
    assert_eq!(depotdownloader_zip_name("freebsd"), "DepotDownloader-v3.0.0-freebsd.zip");
}

#[test]
fn extraction_permissions() {
    assert_eq!(extraction_modes(Some(0o644), "DepotDownloader"), vec![0o644, 0o755]);
    assert_eq!(extraction_modes(None, "DepotDownloader"), vec![0o755]);
    assert_eq!(extraction_modes(Some(0o600), "DepotDownloader.dll"), vec![0o600]);
    assert_eq!(extraction_modes(None, "readme.txt"), Vec::<u32>::new());
}

#[test]
fn text_helpers() {
    assert!(str_equals("abc", "abc"));
    assert!(!str_equals("abc", "abd"));
    assert!(!str_equals("abc", "ab"));
    assert!(str_equals("", ""));
    assert_eq!(replace_spaces("a b  c", "\\ "), "a\\ b\\ \\ c");
    assert_eq!(replace_spaces("no-spaces", "` "), "no-spaces");
    assert_eq!(replace_spaces("héllo wörld", "` "), "héllo` wörld");
    assert_eq!(replace_spaces("", "\\ "), "");
}

#[test]
fn anonymous_downloads() {
    assert!(download(None, None, None, None, None).is_anonymous());
    assert!(download(Some("u"), None, None, None, None).is_anonymous());
    assert!(download(None, Some("p"), None, None, None).is_anonymous());
    assert!(!download(Some("u"), Some("p"), None, None, None).is_anonymous());
}

#[test]
fn output_paths() {
    assert_eq!(download(None, None, None, None, None).output_path_with("/"), "./7617088375292372759");
    assert_eq!(download(None, None, None, Some("cs2"), None).output_path_with("/"), "./cs2");
    assert_eq!(
        download(None, None, Some("/home/me/games"), None, None).output_path_with("/"),
        "/home/me/games/7617088375292372759"
    );
    assert_eq!(
        download(None, None, Some("C:\\Games"), Some("cs 2"), None).output_path_with("\\"),
        "C:\\Games\\cs 2"
    );
    assert_eq!(download(None, None, Some("out"), Some("dir"), None).output_path(Os::Linux), "out/dir");
    assert_eq!(download(None, None, Some("out"), None, None).output_path(Os::MacOs), "out/7617088375292372759");
    assert_eq!(download(None, None, None, Some("dir"), None).output_path(Os::Windows), ".\\dir");
    assert_eq!(download(None, None, None, None, None).output_path(Os::Unknown), "./7617088375292372759");
}

#[test]
fn getters() {
    let d = download(Some("u"), Some("p"), Some("o"), Some("n"), Some(4));
    assert_eq!(d.username(), &Some("u".to_string()));
    assert_eq!(d.password(), &Some("p".to_string()));
    assert_eq!(d.app_id(), "730");
    assert_eq!(d.depot_id(), "731");
    assert_eq!(d.manifest_id(), "7617088375292372759");
    assert_eq!(d.options().terminal(), &Some(4));
    assert_eq!(d.options().output_directory(), &Some("o".to_string()));
    assert_eq!(d.options().directory_name(), &Some("n".to_string()));
}

#[test]
fn terminal_order_and_indices() {
    assert_eq!(Terminal::iter(), ALL.to_vec());
    for (i, t) in ALL.iter().enumerate() {
        assert_eq!(Terminal::from_index(&(i as u8)), Some(*t));
        assert_eq!(t.index(), Some(i as u8));
    }
    assert_eq!(Terminal::from_index(&13), None);
    assert_eq!(Terminal::from_index(&255), None);
}

#[test]
fn terminal_totals() {
    assert_eq!(Terminal::total(Os::Windows), 1);
    assert_eq!(Terminal::total(Os::MacOs), 1);
    assert_eq!(Terminal::total(Os::Linux), 12);
    assert_eq!(Terminal::total(Os::Unknown), 12);
}

#[test]
fn pretty_names() {
    let names: Vec<&str> = ALL.iter().map(|t| t.pretty_name()).collect();
    assert_eq!(
        names,
        vec![
            "GNOME Terminal",
            "Alacritty",
            "Konsole",
            "GNOME Console",
            "Xfce Terminal",
            "Deepin Terminal",
            "Terminator",
            "Kitty",
            "LXTerminal",
            "Tilix",
            "XTerm",
            "cmd",
            "Terminal"
        ]
    );
}

#[test]
fn install_probes() {
    assert_eq!(
        Terminal::CMD.installed_probe(Os::Windows),
        InstallProbe::Run { program: "cmd", arg: "/?" }
    );
    assert_eq!(
        Terminal::CMD.installed_probe(Os::Linux),
        InstallProbe::Run { program: "cmd", arg: "/?" }
    );
    assert_eq!(Terminal::Terminal.installed_probe(Os::MacOs), InstallProbe::Known(true));
    assert_eq!(Terminal::Terminal.installed_probe(Os::Windows), InstallProbe::Known(false));
    assert_eq!(
        Terminal::XTerm.installed_probe(Os::Linux),
        InstallProbe::Run { program: "xterm", arg: "-v" }
    );
    assert_eq!(
        Terminal::GNOMEConsole.installed_probe(Os::Linux),
        InstallProbe::Run { program: "kgx", arg: "--version" }
    );
}

#[test]
fn depotdownloader_commands() {
    let anon = download(None, None, Some("/home/me/my games"), None, None);
    assert_eq!(
        create_depotdownloader_command(&anon, Os::Linux),
        strings(&["./DepotDownloader -app 730 -depot 731 -manifest 7617088375292372759 -dir /home/me/my\\ games/7617088375292372759;echo Command finished with code $?;sleep infinity"])
    );
    let user = download(Some("gaben"), Some("hunter2"), None, Some("cs 2"), None);
    assert_eq!(
        create_depotdownloader_command(&user, Os::MacOs),
        strings(&["./DepotDownloader -username gaben -password hunter2 -app 730 -depot 731 -manifest 7617088375292372759 -dir ./cs\\ 2;echo Command finished with code $?;sleep infinity"])
    );
    assert_eq!(
        create_depotdownloader_command(&user, Os::Windows),
        strings(&[".\\DepotDownloader.exe -username gaben -password hunter2 -app 730 -depot 731 -manifest 7617088375292372759 -dir .\\cs` 2"])
    );
    let half = download(Some("gaben"), None, None, None, None);
    assert_eq!(
        create_depotdownloader_command(&half, Os::Windows),
        strings(&[".\\DepotDownloader.exe -app 730 -depot 731 -manifest 7617088375292372759 -dir .\\7617088375292372759"])
    );
}

#[test]
fn terminal_commands() {
    let d = download(None, None, None, Some("cs2"), None);
    let cmd = "./DepotDownloader -app 730 -depot 731 -manifest 7617088375292372759 -dir ./cs2;echo Command finished with code $?;sleep infinity";

    let kitty = Terminal::Kitty.create_command(&d, Os::Linux, "/work dir");
    assert_eq!(kitty.program(), "kitty");
    assert_eq!(kitty.args(), &strings(&["/usr/bin/env", "sh", "-c", cmd]));
    assert_eq!(kitty.current_dir(), &Some("/work dir".to_string()));
    assert_eq!(kitty.script(), &None);

    let xterm = Terminal::XTerm.create_command(&d, Os::Linux, "/w");
    assert_eq!(xterm.program(), "xterm");
    assert_eq!(
        xterm.args(),
        &strings(&["-hold", "-T", "Downloading depot...", "-e", "/usr/bin/env", "sh", "-c", cmd])
    );

    let terminator = Terminal::Terminator.create_command(&d, Os::Linux, "/w");
    assert_eq!(terminator.args(), &strings(&["-T", "Downloading depot...", "-e", cmd]));

    let gnome = Terminal::GNOMETerminal.create_command(&d, Os::Linux, "/w");
    assert_eq!(gnome.program(), "gnome-terminal");
    assert_eq!(gnome.args(), &strings(&["--", "/usr/bin/env", "sh", "-c", cmd]));

    let xfce = Terminal::Xfce4Terminal.create_command(&d, Os::Linux, "/w");
    assert_eq!(xfce.args(), &strings(&["-x", "/usr/bin/env", "sh", "-c", cmd]));

    let win = Terminal::CMD.create_command(&d, Os::Windows, "C:\\w");
    let win_cmd = ".\\DepotDownloader.exe -app 730 -depot 731 -manifest 7617088375292372759 -dir .\\cs2";
    assert_eq!(win.program(), "cmd.exe");
    assert_eq!(
        win.args(),
        &strings(&["/c", "start", "cmd.exe", "/k", win_cmd])
    );
    assert_eq!(win.current_dir(), &None);
    assert_eq!(win.script(), &None);

    let mac = Terminal::Terminal.create_command(&d, Os::MacOs, "/Users/me/Library/App Data");
    assert_eq!(mac.program(), "/usr/bin/open");
    assert_eq!(mac.args(), &strings(&["-a", "Terminal", LAUNCH_SCRIPT_PATH]));
    assert_eq!(mac.current_dir(), &Some("/Users/me/Library/App Data".to_string()));
    assert_eq!(
        mac.script(),
        &Some(format!("#!/bin/bash\ncd /Users/me/Library/App\\ Data\n{}", cmd))
    );
}

#[test]
fn terminal_choice() {
    let defaults = vec![Terminal::Konsole, Terminal::Kitty];
    assert_eq!(choose_terminal(&download(None, None, None, None, None), &defaults), Some(Terminal::Konsole));
    assert_eq!(choose_terminal(&download(None, None, None, None, None), &vec![]), None);
    assert_eq!(choose_terminal(&download(None, None, None, None, Some(9)), &defaults), Some(Terminal::Tilix));
    assert_eq!(choose_terminal(&download(None, None, None, None, Some(13)), &defaults), None);
}

fn run_scan(return_immediately: bool, os: Os, installed: &[Terminal]) -> (Vec<Terminal>, Vec<Terminal>) {
    let mut probed = Vec::new();
    let mut step = TerminalScan::start(return_immediately, os);
    loop {
        match step {
            ScanStep::Done(found) => return (found, probed),
            ScanStep::Probe(scan) => {
                let t = scan.terminal();
                probed.push(t);
                step = scan.record(installed.contains(&t));
            }
        }
    }
}

#[test]
fn scan_on_windows_and_macos() {
    assert_eq!(run_scan(false, Os::Windows, &[]), (vec![Terminal::CMD], vec![]));
    assert_eq!(run_scan(true, Os::MacOs, &[]), (vec![Terminal::Terminal], vec![]));
}

#[test]
fn scan_finds_every_installed_terminal() {
    let (found, probed) = run_scan(false, Os::Linux, &[Terminal::XTerm, Terminal::Konsole]);
    assert_eq!(found, vec![Terminal::Konsole, Terminal::XTerm]);
    assert_eq!(probed, ALL.to_vec());
    let (found, _) = run_scan(false, Os::Linux, &[]);
    assert_eq!(found, vec![]);
}

#[test]
fn early_stop_gives_first_of_full_scan() {
    for installed in [
        vec![],
        vec![Terminal::Terminal],
        vec![Terminal::Kitty, Terminal::Alacritty],
        vec![Terminal::CMD, Terminal::XTerm, Terminal::GNOMETerminal],
    ] {
        let (early, _) = run_scan(true, Os::Linux, &installed);
        let (full, _) = run_scan(false, Os::Linux, &installed);
        assert_eq!(early, full.into_iter().take(1).collect::<Vec<_>>());
    }
}

#[test]
fn scan_stops_at_first_installed_terminal() {
    let (found, probed) = run_scan(true, Os::Linux, &[Terminal::XTerm, Terminal::Konsole]);
    assert_eq!(found, vec![Terminal::Konsole]);
    assert_eq!(probed, ALL[..3].to_vec());
    let (found, probed) = run_scan(true, Os::Unknown, &[]);
    assert_eq!(found, vec![]);
    assert_eq!(probed.len(), 13);
}
