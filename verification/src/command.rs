//! The DepotDownloader command line, and how each terminal is asked to run it.

use vstd::prelude::*;
use vstd::string::*;
use crate::platform::{Os, separator_spec};
use crate::steam::{SteamDownload, SteamDownloadView};
use crate::terminal::Terminal;
use crate::text::{escape_spaces, replace_spaces};

verus! {

/// How spaces are escaped in the download directory: with a backtick in
/// PowerShell on Windows, with a backslash in `sh` elsewhere.
pub open spec fn space_escape(os: Os) -> Seq<char> {
    if os == Os::Windows {
        "` "@
    } else {
        "\\ "@
    }
}

/// The command line that downloads the requested depot with DepotDownloader.
///
/// On Windows it runs `.\DepotDownloader.exe`; elsewhere `./DepotDownloader`,
/// followed by `;echo Command finished with code $?;sleep infinity`, which reports
/// how the download ended and keeps the terminal open. The Windows line is run by
/// `cmd.exe /k`, which keeps its window open by itself and has no `sh` syntax, so
/// it ends with the DepotDownloader call.
/// Credentials are passed only when the download is not anonymous.
pub open spec fn download_command_spec(sd: SteamDownloadView, os: Os) -> Seq<char> {
    let windows = os == Os::Windows;
    let program = if windows {
        ".\\DepotDownloader.exe"@
    } else {
        "./DepotDownloader"@
    };
    let credentials = if sd.is_anonymous() {
        Seq::empty()
    } else {
        " -username "@ + sd.username->0 + " -password "@ + sd.password->0
    };
    let out_dir = escape_spaces(sd.output_path(separator_spec(os)), space_escape(os));
    let tail = if windows {
        Seq::empty()
    } else {
        ";echo Command finished with code $?;sleep infinity"@
    };
    program + credentials + " -app "@ + sd.app_id + " -depot "@ + sd.depot_id + " -manifest "@
        + sd.manifest_id + " -dir "@ + out_dir + tail
}

/// Builds the DepotDownloader command that downloads the requested manifest,
/// as the single argument that a shell is given to run.
///
/// `os` stands for both the running system and the build target (which agree:
/// a Windows build runs on Windows), and gives the path separator.
pub fn create_depotdownloader_command(steam_download: &SteamDownload, os: Os) -> (r: Vec<String>)
    ensures
        r@.len() == 1,
        r@[0]@ == download_command_spec(steam_download@, os),
{
    let windows = os == Os::Windows;
    let path = steam_download.output_path(os);
    let out_dir = if windows {
        // In PowerShell a space is escaped with a backtick.
        replace_spaces(path.as_str(), "` ")
    } else {
        // In sh a space is escaped with a backslash.
        replace_spaces(path.as_str(), "\\ ")
    };
    let mut command = if windows {
        String::from_str(".\\DepotDownloader.exe")
    } else {
        String::from_str("./DepotDownloader")
    };
    let ghost start = command@;
    match (steam_download.username(), steam_download.password()) {
        (Some(user), Some(password)) => {
            command.append(" -username ");
            command.append(user.as_str());
            command.append(" -password ");
            command.append(password.as_str());
        },
        _ => {},
    }
    let ghost with_credentials = command@;
    command.append(" -app ");
    command.append(steam_download.app_id().as_str());
    command.append(" -depot ");
    command.append(steam_download.depot_id().as_str());
    command.append(" -manifest ");
    command.append(steam_download.manifest_id().as_str());
    command.append(" -dir ");
    command.append(out_dir.as_str());
    if !windows {
        command.append(";echo Command finished with code $?;sleep infinity");
    }
    let ghost sd = steam_download@;
    proof {
        let credentials = if sd.is_anonymous() {
            Seq::<char>::empty()
        } else {
            " -username "@ + sd.username->0 + " -password "@ + sd.password->0
        };
        assert(with_credentials =~= start + credentials);
    }
    assert(command@ =~= download_command_spec(steam_download@, os));
    let mut r = Vec::new();
    r.push(command);
    r
}

/// Where the macOS Terminal launcher script is written, relative to the working directory.
pub const LAUNCH_SCRIPT_PATH: &'static str = "./script.sh";

/// A command to start, as plain values.
pub struct CommandPlanView {
    pub program: Seq<char>,
    pub args: Seq<Seq<char>>,
    /// The directory to start it in, if one is set.
    pub current_dir: Option<Seq<char>>,
    /// The contents of the launcher script to write to [`LAUNCH_SCRIPT_PATH`]
    /// before starting the command, if one is needed.
    pub script: Option<Seq<char>>,
}

/// A command that opens a terminal and runs a download in it.
#[derive(Debug)]
pub struct CommandPlan {
    program: String,
    args: Vec<String>,
    current_dir: Option<String>,
    script: Option<String>,
}

impl View for CommandPlan {
    type V = CommandPlanView;

    closed spec fn view(&self) -> CommandPlanView {
        CommandPlanView {
            program: self.program@,
            args: self.args@.map_values(|s: String| s@),
            current_dir: self.current_dir.deep_view(),
            script: self.script.deep_view(),
        }
    }
}

impl CommandPlan {
    pub fn program(&self) -> (r: &String)
        ensures
            r@ == self@.program,
    {
        &self.program
    }

    pub fn args(&self) -> (r: &Vec<String>)
        ensures
            r@.map_values(|s: String| s@) == self@.args,
    {
        &self.args
    }

    pub fn current_dir(&self) -> (r: &Option<String>)
        ensures
            r.deep_view() == self@.current_dir,
    {
        &self.current_dir
    }

    pub fn script(&self) -> (r: &Option<String>)
        ensures
            r.deep_view() == self@.script,
    {
        &self.script
    }
}

/// The program that opens each terminal.
pub open spec fn launcher_program(t: Terminal) -> Seq<char> {
    match t {
        Terminal::CMD => "cmd.exe"@,
        Terminal::GNOMETerminal => "gnome-terminal"@,
        Terminal::GNOMEConsole => "kgx"@,
        Terminal::Konsole => "konsole"@,
        Terminal::Xfce4Terminal => "xfce4-terminal"@,
        Terminal::Terminator => "terminator"@,
        Terminal::XTerm => "xterm"@,
        Terminal::Kitty => "kitty"@,
        Terminal::LXTerminal => "lxterminal"@,
        Terminal::Tilix => "tilix"@,
        Terminal::DeepinTerminal => "deepin-terminal"@,
        Terminal::Alacritty => "alacritty"@,
        Terminal::Terminal => "/usr/bin/open"@,
    }
}

/// The arguments given to a terminal's program before the download command
/// (for the macOS Terminal, all of its arguments).
pub open spec fn launcher_args(t: Terminal) -> Seq<Seq<char>> {
    match t {
        Terminal::CMD => seq!["/c"@, "start"@, "cmd.exe"@, "/k"@],
        Terminal::GNOMETerminal => seq!["--"@, "/usr/bin/env"@, "sh"@, "-c"@],
        Terminal::GNOMEConsole => seq!["-e"@, "/usr/bin/env"@, "sh"@, "-c"@],
        Terminal::Konsole => seq!["-e"@, "/usr/bin/env"@, "sh"@, "-c"@],
        Terminal::Xfce4Terminal => seq!["-x"@, "/usr/bin/env"@, "sh"@, "-c"@],
        Terminal::Terminator => seq!["-T"@, "Downloading depot..."@, "-e"@],
        Terminal::XTerm => seq![
            "-hold"@,
            "-T"@,
            "Downloading depot..."@,
            "-e"@,
            "/usr/bin/env"@,
            "sh"@,
            "-c"@,
        ],
        Terminal::Kitty => seq!["/usr/bin/env"@, "sh"@, "-c"@],
        Terminal::LXTerminal => seq!["-e"@, "/usr/bin/env"@, "sh"@, "-c"@],
        Terminal::Tilix => seq!["-e"@, "/usr/bin/env"@, "sh"@, "-c"@],
        Terminal::DeepinTerminal => seq!["-e"@, "/usr/bin/env"@, "sh"@, "-c"@],
        Terminal::Alacritty => seq!["-e"@, "/usr/bin/env"@, "sh"@, "-c"@],
        Terminal::Terminal => seq!["-a"@, "Terminal"@, "./script.sh"@],
    }
}

/// The launcher script for the macOS Terminal: a bash script that enters the
/// working directory (spaces escaped with a backslash) and runs the command.
pub open spec fn launch_script_spec(working_dir: Seq<char>, command: Seq<char>) -> Seq<char> {
    "#!/bin/bash\ncd "@ + escape_spaces(working_dir, "\\ "@) + "\n"@ + command
}

/// The command that opens terminal `t` and runs the download in it.
///
/// `cmd` starts a new `cmd.exe` window that runs the download command and
/// stays open (`start cmd.exe /k {command}`), and sets no directory.
/// The macOS Terminal opens a launcher script that holds the command. Every
/// other terminal runs the command through its program, in `working_dir`.
pub open spec fn command_plan_spec(
    t: Terminal,
    sd: SteamDownloadView,
    os: Os,
    working_dir: Seq<char>,
) -> CommandPlanView {
    let command = download_command_spec(sd, os);
    match t {
        Terminal::CMD => CommandPlanView {
            program: launcher_program(t),
            args: launcher_args(t).push(command),
            current_dir: None,
            script: None,
        },
        Terminal::Terminal => CommandPlanView {
            program: launcher_program(t),
            args: launcher_args(t),
            current_dir: Some(working_dir),
            script: Some(launch_script_spec(working_dir, command)),
        },
        _ => CommandPlanView {
            program: launcher_program(t),
            args: launcher_args(t).push(command),
            current_dir: Some(working_dir),
            script: None,
        },
    }
}

fn to_strings(parts: &Vec<&'static str>) -> (r: Vec<String>)
    ensures
        r@.map_values(|s: String| s@) == parts@.map_values(|s: &str| s@),
{
    let mut r: Vec<String> = Vec::new();
    let mut i: usize = 0;
    while i < parts.len()
        invariant
            i <= parts@.len(),
            r@.len() == i,
            forall|j: int| 0 <= j < i ==> (#[trigger] r@[j])@ == parts@[j]@,
        decreases parts@.len() - i,
    {
        let part: &str = parts[i];
        r.push(String::from_str(part));
        i = i + 1;
    }
    assert(r@.map_values(|s: String| s@) =~= parts@.map_values(|s: &str| s@));
    r
}

/// The program of a terminal and the arguments it takes before the command.
fn launcher(t: Terminal) -> (r: (&'static str, Vec<&'static str>))
    ensures
        r.0@ == launcher_program(t),
        r.1@.map_values(|s: &str| s@) == launcher_args(t),
{
    let r = match t {
        Terminal::CMD => ("cmd.exe", vec!["/c", "start", "cmd.exe", "/k"]),
        Terminal::GNOMETerminal => ("gnome-terminal", vec!["--", "/usr/bin/env", "sh", "-c"]),
        Terminal::GNOMEConsole => ("kgx", vec!["-e", "/usr/bin/env", "sh", "-c"]),
        Terminal::Konsole => ("konsole", vec!["-e", "/usr/bin/env", "sh", "-c"]),
        Terminal::Xfce4Terminal => ("xfce4-terminal", vec!["-x", "/usr/bin/env", "sh", "-c"]),
        Terminal::Terminator => ("terminator", vec!["-T", "Downloading depot...", "-e"]),
        Terminal::XTerm => (
            "xterm",
            vec!["-hold", "-T", "Downloading depot...", "-e", "/usr/bin/env", "sh", "-c"],
        ),
        Terminal::Kitty => ("kitty", vec!["/usr/bin/env", "sh", "-c"]),
        Terminal::LXTerminal => ("lxterminal", vec!["-e", "/usr/bin/env", "sh", "-c"]),
        Terminal::Tilix => ("tilix", vec!["-e", "/usr/bin/env", "sh", "-c"]),
        Terminal::DeepinTerminal => ("deepin-terminal", vec!["-e", "/usr/bin/env", "sh", "-c"]),
        Terminal::Alacritty => ("alacritty", vec!["-e", "/usr/bin/env", "sh", "-c"]),
        Terminal::Terminal => ("/usr/bin/open", vec!["-a", "Terminal", LAUNCH_SCRIPT_PATH]),
    };
    assert(r.1@.map_values(|s: &str| s@) =~= launcher_args(t));
    r
}

impl Terminal {
    /// The command that, when started, opens this terminal and runs the
    /// download of `steam_download` in it (see [`command_plan_spec`]).
    ///
    /// `{command}` = `{command};echo Command finished with code $?;sleep infinity`
    /// (outside Windows; see [`download_command_spec`])
    ///
    /// | Terminal         | Command that opens the terminal                                          |
    /// |------------------|--------------------------------------------------------------------------|
    /// | cmd              | `start cmd.exe /k {command}` (run as `cmd.exe /c start cmd.exe /k ...`)  |
    /// | GNOMETerminal    | `gnome-terminal -- /usr/bin/env sh -c {command}`                         |
    /// | GNOMEConsole     | `kgx -e /usr/bin/env sh -c {command}`                                    |
    /// | Konsole          | `konsole -e /usr/bin/env sh -c {command}`                                |
    /// | Xfce4Terminal    | `xfce4-terminal -x /usr/bin/env sh -c {command}`                         |
    /// | Terminator       | `terminator -T "Downloading depot..." -e {command}`                      |
    /// | XTerm            | `xterm -hold -T "Downloading depot..." -e /usr/bin/env sh -c {command}`  |
    /// | Kitty            | `kitty /usr/bin/env sh -c {command}`                                     |
    /// | LXTerminal       | `lxterminal -e /usr/bin/env sh -c {command}`                             |
    /// | Tilix            | `tilix -e /usr/bin/env sh -c {command}`                                  |
    /// | DeepinTerminal   | `deepin-terminal -e /usr/bin/env sh -c {command}`                        |
    /// | Alacritty        | `alacritty -e /usr/bin/env sh -c {command}`                              |
    /// | Terminal (macOS) | a bash script that holds the command, opened with `open`                 |
    pub fn create_command(
        &self,
        steam_download: &SteamDownload,
        os: Os,
        working_dir: &str,
    ) -> (r: CommandPlan)
        ensures
            r@ == command_plan_spec(*self, steam_download@, os, working_dir@),
    {
        let mut commands = create_depotdownloader_command(steam_download, os);
        let command = match commands.pop() {
            Some(c) => c,
            None => String::new(),
        };
        let (program, fixed) = launcher(*self);
        let mut args = to_strings(&fixed);
        let ghost fixed_view = args@.map_values(|s: String| s@);
        match self {
            Terminal::Terminal => {
                // A bash script is the simplest way to hand the command to the macOS Terminal.
                let mut script = String::from_str("#!/bin/bash\ncd ");
                let escaped = replace_spaces(working_dir, "\\ ");
                script.append(escaped.as_str());
                script.append("\n");
                script.append(command.as_str());
                CommandPlan {
                    program: String::from_str(program),
                    args,
                    current_dir: Some(String::from_str(working_dir)),
                    script: Some(script),
                }
            },
            Terminal::CMD => {
                args.push(command);
                assert(args@.map_values(|s: String| s@) =~= fixed_view.push(
                    download_command_spec(steam_download@, os),
                ));
                CommandPlan {
                    program: String::from_str(program),
                    args,
                    current_dir: None,
                    script: None,
                }
            },
            _ => {
                args.push(command);
                assert(args@.map_values(|s: String| s@) =~= fixed_view.push(
                    download_command_spec(steam_download@, os),
                ));
                CommandPlan {
                    program: String::from_str(program),
                    args,
                    current_dir: Some(String::from_str(working_dir)),
                    script: None,
                }
            },
        }
    }
}

/// Every terminal but `cmd` and the macOS Terminal runs the download command,
/// as its last argument, in the working directory, without a script.
pub proof fn law_terminal_runs_command_in_working_dir(
    t: Terminal,
    sd: SteamDownloadView,
    os: Os,
    working_dir: Seq<char>,
)
    requires
        t != Terminal::CMD,
        t != Terminal::Terminal,
    ensures
        command_plan_spec(t, sd, os, working_dir).args.last() == download_command_spec(sd, os),
        command_plan_spec(t, sd, os, working_dir).current_dir == Some(working_dir),
        command_plan_spec(t, sd, os, working_dir).script is None,
{
}

/// The command that opens each terminal, in full: each terminal is started
/// by its own executable with its own fixed arguments, followed by the
/// download command (`cmd` runs it as `start cmd.exe /k {command}`; the
/// macOS Terminal opens a bash script that enters the working directory and
/// runs it).
pub proof fn law_launch_table(sd: SteamDownloadView, os: Os, wd: Seq<char>)
    ensures
        command_plan_spec(Terminal::GNOMETerminal, sd, os, wd).program == "gnome-terminal"@,
        command_plan_spec(Terminal::GNOMETerminal, sd, os, wd).args == seq!["--"@, "/usr/bin/env"@, "sh"@, "-c"@, download_command_spec(sd, os)],
        command_plan_spec(Terminal::GNOMETerminal, sd, os, wd).current_dir == Some(wd),
        command_plan_spec(Terminal::GNOMETerminal, sd, os, wd).script is None,
        command_plan_spec(Terminal::GNOMEConsole, sd, os, wd).program == "kgx"@,
        command_plan_spec(Terminal::GNOMEConsole, sd, os, wd).args == seq!["-e"@, "/usr/bin/env"@, "sh"@, "-c"@, download_command_spec(sd, os)],
        command_plan_spec(Terminal::GNOMEConsole, sd, os, wd).current_dir == Some(wd),
        command_plan_spec(Terminal::GNOMEConsole, sd, os, wd).script is None,
        command_plan_spec(Terminal::Konsole, sd, os, wd).program == "konsole"@,
        command_plan_spec(Terminal::Konsole, sd, os, wd).args == seq!["-e"@, "/usr/bin/env"@, "sh"@, "-c"@, download_command_spec(sd, os)],
        command_plan_spec(Terminal::Konsole, sd, os, wd).current_dir == Some(wd),
        command_plan_spec(Terminal::Konsole, sd, os, wd).script is None,
        command_plan_spec(Terminal::Xfce4Terminal, sd, os, wd).program == "xfce4-terminal"@,
        command_plan_spec(Terminal::Xfce4Terminal, sd, os, wd).args == seq!["-x"@, "/usr/bin/env"@, "sh"@, "-c"@, download_command_spec(sd, os)],
        command_plan_spec(Terminal::Xfce4Terminal, sd, os, wd).current_dir == Some(wd),
        command_plan_spec(Terminal::Xfce4Terminal, sd, os, wd).script is None,
        command_plan_spec(Terminal::Terminator, sd, os, wd).program == "terminator"@,
        command_plan_spec(Terminal::Terminator, sd, os, wd).args == seq!["-T"@, "Downloading depot..."@, "-e"@, download_command_spec(sd, os)],
        command_plan_spec(Terminal::Terminator, sd, os, wd).current_dir == Some(wd),
        command_plan_spec(Terminal::Terminator, sd, os, wd).script is None,
        command_plan_spec(Terminal::XTerm, sd, os, wd).program == "xterm"@,
        command_plan_spec(Terminal::XTerm, sd, os, wd).args == seq!["-hold"@, "-T"@, "Downloading depot..."@, "-e"@, "/usr/bin/env"@, "sh"@, "-c"@, download_command_spec(sd, os)],
        command_plan_spec(Terminal::XTerm, sd, os, wd).current_dir == Some(wd),
        command_plan_spec(Terminal::XTerm, sd, os, wd).script is None,
        command_plan_spec(Terminal::Kitty, sd, os, wd).program == "kitty"@,
        command_plan_spec(Terminal::Kitty, sd, os, wd).args == seq!["/usr/bin/env"@, "sh"@, "-c"@, download_command_spec(sd, os)],
        command_plan_spec(Terminal::Kitty, sd, os, wd).current_dir == Some(wd),
        command_plan_spec(Terminal::Kitty, sd, os, wd).script is None,
        command_plan_spec(Terminal::LXTerminal, sd, os, wd).program == "lxterminal"@,
        command_plan_spec(Terminal::LXTerminal, sd, os, wd).args == seq!["-e"@, "/usr/bin/env"@, "sh"@, "-c"@, download_command_spec(sd, os)],
        command_plan_spec(Terminal::LXTerminal, sd, os, wd).current_dir == Some(wd),
        command_plan_spec(Terminal::LXTerminal, sd, os, wd).script is None,
        command_plan_spec(Terminal::Tilix, sd, os, wd).program == "tilix"@,
        command_plan_spec(Terminal::Tilix, sd, os, wd).args == seq!["-e"@, "/usr/bin/env"@, "sh"@, "-c"@, download_command_spec(sd, os)],
        command_plan_spec(Terminal::Tilix, sd, os, wd).current_dir == Some(wd),
        command_plan_spec(Terminal::Tilix, sd, os, wd).script is None,
        command_plan_spec(Terminal::DeepinTerminal, sd, os, wd).program == "deepin-terminal"@,
        command_plan_spec(Terminal::DeepinTerminal, sd, os, wd).args == seq!["-e"@, "/usr/bin/env"@, "sh"@, "-c"@, download_command_spec(sd, os)],
        command_plan_spec(Terminal::DeepinTerminal, sd, os, wd).current_dir == Some(wd),
        command_plan_spec(Terminal::DeepinTerminal, sd, os, wd).script is None,
        command_plan_spec(Terminal::Alacritty, sd, os, wd).program == "alacritty"@,
        command_plan_spec(Terminal::Alacritty, sd, os, wd).args == seq!["-e"@, "/usr/bin/env"@, "sh"@, "-c"@, download_command_spec(sd, os)],
        command_plan_spec(Terminal::Alacritty, sd, os, wd).current_dir == Some(wd),
        command_plan_spec(Terminal::Alacritty, sd, os, wd).script is None,
        command_plan_spec(Terminal::CMD, sd, os, wd).program == "cmd.exe"@,
        command_plan_spec(Terminal::CMD, sd, os, wd).args == seq!["/c"@, "start"@, "cmd.exe"@, "/k"@, download_command_spec(sd, os)],
        command_plan_spec(Terminal::CMD, sd, os, wd).current_dir is None,
        command_plan_spec(Terminal::CMD, sd, os, wd).script is None,
        command_plan_spec(Terminal::Terminal, sd, os, wd).program == "/usr/bin/open"@,
        command_plan_spec(Terminal::Terminal, sd, os, wd).args == seq!["-a"@, "Terminal"@, "./script.sh"@],
        command_plan_spec(Terminal::Terminal, sd, os, wd).current_dir == Some(wd),
        command_plan_spec(Terminal::Terminal, sd, os, wd).script == Some("#!/bin/bash\ncd "@ + escape_spaces(wd, "\\ "@) + "\n"@ + download_command_spec(sd, os)),
{
    assert(command_plan_spec(Terminal::GNOMETerminal, sd, os, wd).args =~= seq!["--"@, "/usr/bin/env"@, "sh"@, "-c"@, download_command_spec(sd, os)]);
    assert(command_plan_spec(Terminal::GNOMEConsole, sd, os, wd).args =~= seq!["-e"@, "/usr/bin/env"@, "sh"@, "-c"@, download_command_spec(sd, os)]);
    assert(command_plan_spec(Terminal::Konsole, sd, os, wd).args =~= seq!["-e"@, "/usr/bin/env"@, "sh"@, "-c"@, download_command_spec(sd, os)]);
    assert(command_plan_spec(Terminal::Xfce4Terminal, sd, os, wd).args =~= seq!["-x"@, "/usr/bin/env"@, "sh"@, "-c"@, download_command_spec(sd, os)]);
    assert(command_plan_spec(Terminal::Terminator, sd, os, wd).args =~= seq!["-T"@, "Downloading depot..."@, "-e"@, download_command_spec(sd, os)]);
    assert(command_plan_spec(Terminal::XTerm, sd, os, wd).args =~= seq!["-hold"@, "-T"@, "Downloading depot..."@, "-e"@, "/usr/bin/env"@, "sh"@, "-c"@, download_command_spec(sd, os)]);
    assert(command_plan_spec(Terminal::Kitty, sd, os, wd).args =~= seq!["/usr/bin/env"@, "sh"@, "-c"@, download_command_spec(sd, os)]);
    assert(command_plan_spec(Terminal::LXTerminal, sd, os, wd).args =~= seq!["-e"@, "/usr/bin/env"@, "sh"@, "-c"@, download_command_spec(sd, os)]);
    assert(command_plan_spec(Terminal::Tilix, sd, os, wd).args =~= seq!["-e"@, "/usr/bin/env"@, "sh"@, "-c"@, download_command_spec(sd, os)]);
    assert(command_plan_spec(Terminal::DeepinTerminal, sd, os, wd).args =~= seq!["-e"@, "/usr/bin/env"@, "sh"@, "-c"@, download_command_spec(sd, os)]);
    assert(command_plan_spec(Terminal::Alacritty, sd, os, wd).args =~= seq!["-e"@, "/usr/bin/env"@, "sh"@, "-c"@, download_command_spec(sd, os)]);
    assert(command_plan_spec(Terminal::CMD, sd, os, wd).args =~= seq!["/c"@, "start"@, "cmd.exe"@, "/k"@, download_command_spec(sd, os)]);
}

/// Distinct terminals are opened by distinct programs.
pub proof fn law_launcher_program_one_to_one(t1: Terminal, t2: Terminal)
    ensures
        launcher_program(t1) == launcher_program(t2) ==> t1 == t2,
{
    reveal_strlit("cmd.exe");
    reveal_strlit("gnome-terminal");
    reveal_strlit("kgx");
    reveal_strlit("konsole");
    reveal_strlit("xfce4-terminal");
    reveal_strlit("terminator");
    reveal_strlit("xterm");
    reveal_strlit("kitty");
    reveal_strlit("lxterminal");
    reveal_strlit("tilix");
    reveal_strlit("deepin-terminal");
    reveal_strlit("alacritty");
    reveal_strlit("/usr/bin/open");
    if launcher_program(t1) == launcher_program(t2) {
        assert(launcher_program(t1)[0] == launcher_program(t2)[0]);
        assert(launcher_program(t1).len() == launcher_program(t2).len());
    }
}

/// A request with both credentials is run as the same request without them,
/// with ` -username {username} -password {password}` inserted into the
/// command line; the inserted text is the same on every operating system.
pub proof fn law_credentials_in_command(sd: SteamDownloadView, os: Os)
    requires
        !sd.is_anonymous(),
    ensures
        ({
            let anonymous = download_command_spec(
                SteamDownloadView { username: None, password: None, ..sd },
                os,
            );
            exists|k: int|
                0 <= k <= anonymous.len() && download_command_spec(sd, os) == anonymous.take(k)
                    + (" -username "@ + sd.username->0 + " -password "@ + sd.password->0)
                    + anonymous.skip(k)
        }),
{
    let sd0 = SteamDownloadView { username: None, password: None, ..sd };
    let anonymous = download_command_spec(sd0, os);
    let program = if os == Os::Windows {
        ".\\DepotDownloader.exe"@
    } else {
        "./DepotDownloader"@
    };
    let credentials = " -username "@ + sd.username->0 + " -password "@ + sd.password->0;
    let k = program.len() as int;
    assert(sd0.output_path(crate::platform::separator_spec(os)) == sd.output_path(
        crate::platform::separator_spec(os),
    ));
    let rest = anonymous.skip(k);
    assert(anonymous =~= program + rest);
    assert(anonymous.take(k) =~= program);
    assert(download_command_spec(sd, os) =~= program + credentials + rest);
}

/// Credentials play no part in an anonymous request's command line: it is
/// the same as for the request with neither a user name nor a password.
pub proof fn law_anonymous_command_ignores_credentials(sd: SteamDownloadView, os: Os)
    requires
        sd.is_anonymous(),
    ensures
        download_command_spec(sd, os) == download_command_spec(
            SteamDownloadView { username: None, password: None, ..sd },
            os,
        ),
{
}

/// How every DepotDownloader command line reads: it starts with the program
/// (`.\DepotDownloader.exe` on Windows, `./DepotDownloader` elsewhere) and
/// ends with the app, depot and manifest ids and the download directory, its
/// spaces escaped with a backtick on Windows and a backslash elsewhere;
/// outside Windows it then reports the exit code and keeps the terminal open.
pub proof fn law_command_layout(sd: SteamDownloadView, os: Os)
    ensures
        ({
            let windows = os == Os::Windows;
            let program = if windows {
                ".\\DepotDownloader.exe"@
            } else {
                "./DepotDownloader"@
            };
            let dir = if windows {
                escape_spaces(sd.output_path("\\"@), "` "@)
            } else {
                escape_spaces(sd.output_path("/"@), "\\ "@)
            };
            let end = " -app "@ + sd.app_id + " -depot "@ + sd.depot_id + " -manifest "@
                + sd.manifest_id + " -dir "@ + dir + (if windows {
                Seq::empty()
            } else {
                ";echo Command finished with code $?;sleep infinity"@
            });
            let command = download_command_spec(sd, os);
            &&& command.len() >= program.len() + end.len()
            &&& command.take(program.len() as int) == program
            &&& command.skip(command.len() - end.len()) == end
        }),
{
    let windows = os == Os::Windows;
    let program = if windows {
        ".\\DepotDownloader.exe"@
    } else {
        "./DepotDownloader"@
    };
    let dir = if windows {
        escape_spaces(sd.output_path("\\"@), "` "@)
    } else {
        escape_spaces(sd.output_path("/"@), "\\ "@)
    };
    let end = " -app "@ + sd.app_id + " -depot "@ + sd.depot_id + " -manifest "@ + sd.manifest_id
        + " -dir "@ + dir + (if windows {
        Seq::empty()
    } else {
        ";echo Command finished with code $?;sleep infinity"@
    });
    let credentials = if sd.is_anonymous() {
        Seq::<char>::empty()
    } else {
        " -username "@ + sd.username->0 + " -password "@ + sd.password->0
    };
    let command = download_command_spec(sd, os);
    assert(command =~= program + credentials + end);
    assert(command.take(program.len() as int) =~= program);
    assert(command.skip(command.len() - end.len()) =~= end);
}

/// The terminal a download runs in: the one picked in its options (by index
/// in enum order, `None` if no terminal has that index), or else the first
/// of `defaults` (`None` if it is empty).
pub fn choose_terminal(steam_download: &SteamDownload, defaults: &Vec<Terminal>) -> (r: Option<
    Terminal,
>)
    ensures
        r == (match steam_download@.options.terminal {
            Some(i) => if (i as int) < crate::terminal::all_terminals().len() {
                Some(crate::terminal::all_terminals()[i as int])
            } else {
                None
            },
            None => if defaults@.len() > 0 {
                Some(defaults@[0])
            } else {
                None
            },
        }),
{
    match steam_download.options().terminal() {
        Some(i) => Terminal::from_index(i),
        None => if defaults.len() > 0 {
            Some(defaults[0])
        } else {
            None
        },
    }
}

} // verus!
