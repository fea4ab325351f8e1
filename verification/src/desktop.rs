//! Finding one's way on the user's desktop: the desktop folder, the command
//! that opens a URL, the language of the system.

use vstd::prelude::*;
use vstd::string::StringExecFns;
use crate::platform::OS_LINUX;
use crate::platform::OS_MACOS;
use crate::platform::OS_WINDOWS;
use crate::text::str_equal;

verus! {

/// Said where the home directory is unknown.
pub const MSG_NO_HOME_DIR: &'static str = "get home dir error";

/// Said where the home directory holds no desktop folder.
pub const MSG_NO_DESKTOP: &'static str = "desktop path not exist in home dir";

/// Begins what is said of a platform on which nothing opens a URL.
pub const MSG_CANNOT_OPEN: &'static str = "don't know how to open things on ";

/// Ends what is said of a platform on which nothing opens a URL.
pub const MSG_PLATFORM: &'static str = " platform";

/// Names of the environment variables that tell the language, in the order
/// in which they are asked.
pub const LANG_VARIABLES: [&'static str; 4] = ["LANG", "LC_ALL", "LC_MESSAGES", "LANGUAGE"];

/// What was found in the home directory where the desktop folder should be.
#[derive(Debug, PartialEq, Eq)]
pub struct DesktopProbe {
    /// Path of the desktop folder.
    pub path: String,
    /// Whether anything is there.
    pub exists: bool,
}

/// Decides on the path of the desktop folder. `probe` is `None` where the
/// home directory is unknown, and tells else what was found where the
/// desktop folder should be.
pub fn get_desktop_path(probe: Option<DesktopProbe>) -> (r: Result<String, String>)
    ensures
        match probe {
            None => r matches Err(said) && said@ == MSG_NO_HOME_DIR@,
            Some(found) => if found.exists {
                r == Ok::<String, String>(found.path)
            } else {
                r matches Err(said) && said@ == MSG_NO_DESKTOP@
            },
        },
{
    match probe {
        None => Err(String::from_str(MSG_NO_HOME_DIR)),
        Some(found) => if found.exists {
            Ok(found.path)
        } else {
            Err(String::from_str(MSG_NO_DESKTOP))
        },
    }
}

/// A program to run and what to hand to it.
#[derive(Debug, PartialEq, Eq)]
pub struct Launch {
    pub program: String,
    pub args: Vec<String>,
}

/// The program that opens `uri` on the operating system `os`, with what is
/// handed to it; `None` for a system on which nothing is known to do so.
pub open spec fn launch_for(os: Seq<char>, uri: Seq<char>) -> Option<(Seq<char>, Seq<Seq<char>>)> {
    if os == OS_WINDOWS@ {
        Some(("cmd"@, seq!["/c"@, "start"@, uri]))
    } else if os == OS_MACOS@ {
        Some(("open"@, seq![uri]))
    } else if os == OS_LINUX@ {
        Some(("xdg-open"@, seq![uri]))
    } else {
        None
    }
}

/// Chooses the command that opens `uri` with the handler that the operating
/// system `os` has for it: `cmd /c start` on Windows, `open` on macOS,
/// `xdg-open` on Linux. Any other system is refused with a message that
/// names it.
pub fn open_url(os: &str, uri: &str) -> (r: Result<Launch, String>)
    ensures
        match launch_for(os@, uri@) {
            Some((program, args)) => {
                &&& r matches Ok(launch)
                &&& launch.program@ == program
                &&& launch.args.deep_view() == args
            },
            None => r matches Err(said) && said@ == MSG_CANNOT_OPEN@ + os@ + MSG_PLATFORM@,
        },
{
    let mut args: Vec<String> = Vec::new();
    if str_equal(os, OS_WINDOWS) {
        args.push(String::from_str("/c"));
        args.push(String::from_str("start"));
        args.push(String::from_str(uri));
        assert(args.deep_view() =~= seq!["/c"@, "start"@, uri@]);
        Ok(Launch { program: String::from_str("cmd"), args })
    } else if str_equal(os, OS_MACOS) {
        args.push(String::from_str(uri));
        assert(args.deep_view() =~= seq![uri@]);
        Ok(Launch { program: String::from_str("open"), args })
    } else if str_equal(os, OS_LINUX) {
        args.push(String::from_str(uri));
        assert(args.deep_view() =~= seq![uri@]);
        Ok(Launch { program: String::from_str("xdg-open"), args })
    } else {
        let mut said = String::from_str(MSG_CANNOT_OPEN);
        said.append(os);
        said.append(MSG_PLATFORM);
        Err(said)
    }
}

/// The first of `values` that is not empty; the empty text where all are.
pub open spec fn first_non_empty(values: Seq<Seq<char>>) -> Seq<char>
    decreases values.len(),
{
    if values.len() == 0 {
        Seq::empty()
    } else if values[0].len() > 0 {
        values[0]
    } else {
        first_non_empty(values.drop_first())
    }
}

/// Picks the language of the system. `values` holds what the environment
/// has under each name of `LANG_VARIABLES`, in that order, with the empty
/// text for a name that is not set; the first value that is not empty is the
/// language.
pub fn get_system_lang(values: &Vec<String>) -> (r: String)
    ensures
        r@ == first_non_empty(values.deep_view()),
{
    let mut i: usize = 0;
    assert(values.deep_view().skip(0) =~= values.deep_view());
    while i < values.len()
        invariant
            i <= values.len(),
            first_non_empty(values.deep_view()) == first_non_empty(
                values.deep_view().skip(i as int),
            ),
        decreases values.len() - i,
    {
        let ghost rest = values.deep_view().skip(i as int);
        assert(rest[0] == values[i as int]@);
        assert(rest.drop_first() =~= values.deep_view().skip(i + 1));
        if !values[i].as_str().is_empty() {
            return values[i].clone();
        }
        i += 1;
    }
    String::new()
}

} // verus!
