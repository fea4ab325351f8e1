//! Planning the file that starts the program when the user logs in.
//!
//! On Windows that file is a script in the user's startup folder, on macOS a
//! launch agent. Nothing here touches the disk: the functions take what was
//! learnt about the machine and return the file that has to be there.

use vstd::prelude::*;
use vstd::string::StrSliceExecFns;
use vstd::string::StringExecFns;
use vstd::utf8::encode_utf8;
use crate::gbk::gbk_encoded;
use crate::gbk::utf8_to_gbk;
use crate::gbk::GBK_COMPLAINT;
use crate::platform::Platform;
use crate::text::bytes_equal;
use crate::text::double_backslashes;
use crate::text::with_backslashes_doubled;

verus! {

/// What stands between the home directory and the program's name in the
/// path of the Windows startup script.
pub const WIN_STARTUP_DIR: &'static str =
    "\\AppData\\Roaming\\Microsoft\\Windows\\Start Menu\\Programs\\Startup\\";

/// End of the name of the Windows startup script.
pub const WIN_START_SUFFIX: &'static str = "_start.vbs";

/// The Windows startup script up to the working directory.
pub const WIN_SCRIPT_HEAD: &'static str =
    "Set objShell = CreateObject(\"WScript.Shell\")\r\nobjShell.CurrentDirectory = \"";

/// The Windows startup script between the working directory and the
/// program's name.
pub const WIN_SCRIPT_RUN: &'static str = "\"\r\nobjShell.Run \"powershell /c .\\\\";

/// End of the Windows startup script.
pub const WIN_SCRIPT_TAIL: &'static str = "\",0";

/// What stands between the home directory and the program's name in the
/// path of the macOS launch agent.
pub const MAC_AGENTS_DIR: &'static str = "/Library/LaunchAgents/";

/// End of the name of the macOS launch agent.
pub const MAC_START_SUFFIX: &'static str = "_start.plist";

/// The macOS launch agent up to its label.
pub const MAC_PLIST_HEAD: &'static str =
    "\n            <?xml version=\"1.0\" encoding=\"UTF-8\"?>\n            <!DOCTYPE plist PUBLIC \"-//Apple//DTD PLIST 1.0//EN\" \"http://www.apple.com/DTDs/PropertyList-1.0.dtd\">\n            <plist version=\"1.0\">\n            <dict>\n                <key>Label</key>\n                <string>";

/// The macOS launch agent between its label and the program's directory.
pub const MAC_PLIST_PROGRAM: &'static str =
    "_start</string>\n                <key>ProgramArguments</key>\n                    <array>\n                        <string>";

/// What parts the program's directory from its name.
pub const MAC_PLIST_SLASH: &'static str = "/";

/// The macOS launch agent between the program and the error log.
pub const MAC_PLIST_ERR: &'static str =
    "</string>\n                    </array>\n                <key>RunAtLoad</key>\n                <true/>\n                <key>WorkingDirectory</key>\n                <string>/Applications/DownTip.app/Contents/MacOS</string>\n                <key>StandardErrorPath</key>\n                <string>/tmp/";

/// The macOS launch agent between the error log and the output log.
pub const MAC_PLIST_OUT: &'static str =
    "_start.err</string>\n                <key>StandardOutPath</key>\n                <string>/tmp/";

/// End of the macOS launch agent.
pub const MAC_PLIST_TAIL: &'static str =
    "_start.out</string>\n            </dict>\n            </plist>\n            ";

/// Said where the operating system has no way to start a program at login.
pub const MSG_UNSUPPORTED_OS: &'static str = "不支持的操作系统";

/// Said where the home directory of a Windows user is unknown.
pub const MSG_NO_WINDOWS_HOME: &'static str = "获取当前Windows用户的home directory失败";

/// Said where the home directory of the user is unknown.
pub const MSG_NO_HOME: &'static str = "获取当前用户的home directory失败";

/// Said, with the cause behind it, where the working directory is unknown.
pub const MSG_NO_CURRENT_DIR: &'static str = "获取当前文件目录失败: ";

/// A file that has to be on disk, with all that it holds.
#[derive(Debug, PartialEq, Eq)]
pub struct StartFile {
    pub path: String,
    pub content: Vec<u8>,
}

/// Why no startup file could be planned.
#[derive(Debug, PartialEq, Eq)]
pub enum StartError {
    /// The operating system has no way to start a program at login.
    UnsupportedOs,
    /// The home directory of the user is unknown.
    NoHomeDir(Platform),
    /// The working directory is unknown; the cause, its backslashes doubled.
    NoCurrentDir(String),
    /// The startup script cannot be written in GBK; the encoder's complaint.
    NotEncodable(String),
}

impl StartError {
    /// What the error says.
    pub open spec fn message_text(&self) -> Seq<char> {
        match self {
            StartError::UnsupportedOs => MSG_UNSUPPORTED_OS@,
            StartError::NoHomeDir(Platform::Windows) => MSG_NO_WINDOWS_HOME@,
            StartError::NoHomeDir(_) => MSG_NO_HOME@,
            StartError::NoCurrentDir(cause) => MSG_NO_CURRENT_DIR@ + cause@,
            StartError::NotEncodable(cause) => cause@,
        }
    }

    /// What the error says.
    pub fn message(&self) -> (r: String)
        ensures
            r@ == self.message_text(),
    {
        match self {
            StartError::UnsupportedOs => String::from_str(MSG_UNSUPPORTED_OS),
            StartError::NoHomeDir(Platform::Windows) => String::from_str(MSG_NO_WINDOWS_HOME),
            StartError::NoHomeDir(_) => String::from_str(MSG_NO_HOME),
            StartError::NoCurrentDir(cause) => {
                let mut text = String::from_str(MSG_NO_CURRENT_DIR);
                text.append(cause.as_str());
                text
            },
            StartError::NotEncodable(cause) => cause.clone(),
        }
    }
}

/// Path of the Windows startup script of the program `exe` for the user
/// whose home directory is `home`.
pub open spec fn win_start_path(home: Seq<char>, exe: Seq<char>) -> Seq<char> {
    home + WIN_STARTUP_DIR@ + exe + WIN_START_SUFFIX@
}

/// Text of the Windows startup script that runs the program `exe` in the
/// directory `dir`.
pub open spec fn win_script_text(dir: Seq<char>, exe: Seq<char>) -> Seq<char> {
    WIN_SCRIPT_HEAD@ + with_backslashes_doubled(dir) + WIN_SCRIPT_RUN@ + exe + WIN_SCRIPT_TAIL@
}

/// Path of the macOS launch agent of the program `exe` for the user whose
/// home directory is `home`.
pub open spec fn mac_start_path(home: Seq<char>, exe: Seq<char>) -> Seq<char> {
    home + MAC_AGENTS_DIR@ + exe + MAC_START_SUFFIX@
}

/// Text of the macOS launch agent that runs the program `exe` found in the
/// directory `dir`.
pub open spec fn mac_plist_text(dir: Seq<char>, exe: Seq<char>) -> Seq<char> {
    MAC_PLIST_HEAD@ + exe + MAC_PLIST_PROGRAM@ + dir + MAC_PLIST_SLASH@ + exe + MAC_PLIST_ERR@
        + exe + MAC_PLIST_OUT@ + exe + MAC_PLIST_TAIL@
}

/// The four texts joined.
fn join4(a: &str, b: &str, c: &str, d: &str) -> (r: String)
    ensures
        r@ == a@ + b@ + c@ + d@,
{
    let mut text = String::from_str(a);
    text.append(b);
    text.append(c);
    text.append(d);
    text
}

/// What planning the Windows startup script comes to: `r` says that the
/// home directory is unknown, else that the working directory is, else that
/// the script cannot be written in GBK, in the encoder's words, else it is
/// the script in GBK at its place in the startup folder.
pub open spec fn is_win_start_plan(
    exe: Seq<char>,
    home_dir: Option<&str>,
    current_dir: Result<&str, &str>,
    r: Result<StartFile, StartError>,
) -> bool {
    match (home_dir, current_dir) {
        (None, _) => r == Err::<StartFile, StartError>(StartError::NoHomeDir(Platform::Windows)),
        (Some(_), Err(cause)) => {
            &&& r matches Err(StartError::NoCurrentDir(said))
            &&& said@ == with_backslashes_doubled(cause@)
        },
        (Some(home), Ok(dir)) => match gbk_encoded(win_script_text(dir@, exe)) {
            None => r matches Err(StartError::NotEncodable(said)) && said@ == GBK_COMPLAINT@,
            Some(bytes) => {
                &&& r matches Ok(file)
                &&& file.path@ == win_start_path(home@, exe)
                &&& file.content@ == bytes
            },
        },
    }
}

/// What planning the macOS launch agent comes to: `r` says that the home
/// directory is unknown, else that the working directory is, else it is the
/// launch agent in UTF-8 at its place among the user's launch agents.
pub open spec fn is_mac_start_plan(
    exe: Seq<char>,
    home_dir: Option<&str>,
    current_dir: Result<&str, &str>,
    r: Result<StartFile, StartError>,
) -> bool {
    match (home_dir, current_dir) {
        (None, _) => r == Err::<StartFile, StartError>(StartError::NoHomeDir(Platform::MacOs)),
        (Some(_), Err(cause)) => {
            &&& r matches Err(StartError::NoCurrentDir(said))
            &&& said@ == with_backslashes_doubled(cause@)
        },
        (Some(home), Ok(dir)) => {
            &&& r matches Ok(file)
            &&& file.path@ == mac_start_path(home@, exe)
            &&& file.content@ == encode_utf8(mac_plist_text(dir@, exe))
        },
    }
}

/// Sets up and takes down the start of one program at login.
pub struct StartHelper {
    exe_name: String,
}

impl StartHelper {
    /// File name of the program that is to be started.
    pub closed spec fn name(&self) -> Seq<char> {
        self.exe_name@
    }

    /// A helper for the program whose file name is `exe_name`.
    pub fn new(exe_name: String) -> (r: Self)
        ensures
            r.name() == exe_name@,
    {
        Self { exe_name }
    }

    /// Plans the file that starts the program at login: a script in the
    /// startup folder on Windows, a launch agent on macOS. `home_dir` is the
    /// user's home directory if it is known; `current_dir` is the working
    /// directory, or why it is unknown. Other platforms are refused.
    pub fn set_auto_start(
        &self,
        platform: Platform,
        home_dir: Option<&str>,
        current_dir: Result<&str, &str>,
    ) -> (r: Result<StartFile, StartError>)
        ensures
            match platform {
                Platform::Windows => is_win_start_plan(self.name(), home_dir, current_dir, r),
                Platform::MacOs => is_mac_start_plan(self.name(), home_dir, current_dir, r),
                Platform::Other => r == Err::<StartFile, StartError>(StartError::UnsupportedOs),
            },
    {
        match platform {
            Platform::Windows => self.set_win_auto_start(home_dir, current_dir),
            Platform::MacOs => self.set_mac_auto_start(home_dir, current_dir),
            Platform::Other => Err(StartError::UnsupportedOs),
        }
    }

    /// Path of the Windows startup script under the home directory `home`.
    pub fn win_start_file(&self, home: &str) -> (r: String)
        ensures
            r@ == win_start_path(home@, self.name()),
    {
        join4(home, WIN_STARTUP_DIR, self.exe_name.as_str(), WIN_START_SUFFIX)
    }

    /// Text of the Windows startup script for the working directory `dir`.
    pub fn win_start_script(&self, dir: &str) -> (r: String)
        ensures
            r@ == win_script_text(dir@, self.name()),
    {
        let escaped = double_backslashes(dir);
        let mut text = join4(
            WIN_SCRIPT_HEAD,
            escaped.as_str(),
            WIN_SCRIPT_RUN,
            self.exe_name.as_str(),
        );
        text.append(WIN_SCRIPT_TAIL);
        text
    }

    /// Path of the macOS launch agent under the home directory `home`.
    pub fn mac_start_file(&self, home: &str) -> (r: String)
        ensures
            r@ == mac_start_path(home@, self.name()),
    {
        join4(home, MAC_AGENTS_DIR, self.exe_name.as_str(), MAC_START_SUFFIX)
    }

    /// Text of the macOS launch agent for the working directory `dir`.
    pub fn mac_start_plist(&self, dir: &str) -> (r: String)
        ensures
            r@ == mac_plist_text(dir@, self.name()),
    {
        let exe = self.exe_name.as_str();
        let mut text = join4(MAC_PLIST_HEAD, exe, MAC_PLIST_PROGRAM, dir);
        text.append(MAC_PLIST_SLASH);
        text.append(exe);
        text.append(MAC_PLIST_ERR);
        text.append(exe);
        text.append(MAC_PLIST_OUT);
        text.append(exe);
        text.append(MAC_PLIST_TAIL);
        text
    }

    fn set_win_auto_start(&self, home_dir: Option<&str>, current_dir: Result<&str, &str>) -> (r:
        Result<StartFile, StartError>)
        ensures
            is_win_start_plan(self.name(), home_dir, current_dir, r),
    {
        let home = match home_dir {
            Some(home) => home,
            None => return Err(StartError::NoHomeDir(Platform::Windows)),
        };
        let path = self.win_start_file(home);
        let dir = match current_dir {
            Ok(dir) => dir,
            Err(cause) => return Err(StartError::NoCurrentDir(double_backslashes(cause))),
        };
        let script = self.win_start_script(dir);
        StartFile::encoded(path, utf8_to_gbk(script.as_str()))
    }

    fn set_mac_auto_start(&self, home_dir: Option<&str>, current_dir: Result<&str, &str>) -> (r:
        Result<StartFile, StartError>)
        ensures
            is_mac_start_plan(self.name(), home_dir, current_dir, r),
    {
        let home = match home_dir {
            Some(home) => home,
            None => return Err(StartError::NoHomeDir(Platform::MacOs)),
        };
        let path = self.mac_start_file(home);
        let dir = match current_dir {
            Ok(dir) => dir,
            Err(cause) => return Err(StartError::NoCurrentDir(double_backslashes(cause))),
        };
        let plist = self.mac_start_plist(dir);
        Ok(StartFile { path, content: plist.as_str().as_bytes_vec() })
    }

    /// Names the file that must go so that the program is no longer started
    /// at login: the one that `set_auto_start` plans on the same platform.
    /// Other platforms are refused.
    pub fn unset_auto_start(&self, platform: Platform, home_dir: Option<&str>) -> (r: Result<
        String,
        StartError,
    >)
        ensures
            match (platform, home_dir) {
                (Platform::Other, _) => r == Err::<String, StartError>(StartError::UnsupportedOs),
                (_, None) => r == Err::<String, StartError>(StartError::NoHomeDir(platform)),
                (Platform::Windows, Some(home)) => r matches Ok(path) && path@ == win_start_path(
                    home@,
                    self.name(),
                ),
                (Platform::MacOs, Some(home)) => r matches Ok(path) && path@ == mac_start_path(
                    home@,
                    self.name(),
                ),
            },
    {
        match platform {
            Platform::Windows => self.unset_win_auto_start(home_dir),
            Platform::MacOs => self.unset_mac_auto_start(home_dir),
            Platform::Other => Err(StartError::UnsupportedOs),
        }
    }

    fn unset_win_auto_start(&self, home_dir: Option<&str>) -> (r: Result<String, StartError>)
        ensures
            match home_dir {
                None => r == Err::<String, StartError>(StartError::NoHomeDir(Platform::Windows)),
                Some(home) => r matches Ok(path) && path@ == win_start_path(home@, self.name()),
            },
    {
        match home_dir {
            Some(home) => Ok(self.win_start_file(home)),
            None => Err(StartError::NoHomeDir(Platform::Windows)),
        }
    }

    fn unset_mac_auto_start(&self, home_dir: Option<&str>) -> (r: Result<String, StartError>)
        ensures
            match home_dir {
                None => r == Err::<String, StartError>(StartError::NoHomeDir(Platform::MacOs)),
                Some(home) => r matches Ok(path) && path@ == mac_start_path(home@, self.name()),
            },
    {
        match home_dir {
            Some(home) => Ok(self.mac_start_file(home)),
            None => Err(StartError::NoHomeDir(Platform::MacOs)),
        }
    }
}

impl StartFile {
    /// The file at `path` that holds what the encoder made of its text, or
    /// the encoder's complaint.
    pub fn encoded(path: String, encoded: Result<Vec<u8>, String>) -> (r: Result<
        StartFile,
        StartError,
    >)
        ensures
            match encoded {
                Ok(bytes) => r == Ok::<StartFile, StartError>(StartFile { path, content: bytes }),
                Err(cause) => r == Err::<StartFile, StartError>(StartError::NotEncodable(cause)),
            },
    {
        match encoded {
            Ok(content) => Ok(StartFile { path, content }),
            Err(cause) => Err(StartError::NotEncodable(cause)),
        }
    }

    /// Tells whether a file that holds `on_disk` already is this file, so
    /// that nothing has to be written.
    pub fn is_current(&self, on_disk: &[u8]) -> (r: bool)
        ensures
            r == (on_disk@ == self.content@),
    {
        bytes_equal(on_disk, self.content.as_slice())
    }
}

} // verus!
