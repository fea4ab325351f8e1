use windsend_utils::desktop::LANG_VARIABLES;
use windsend_utils::get_desktop_path;
use windsend_utils::get_system_lang;
use windsend_utils::open_url;
use windsend_utils::DesktopProbe;
use windsend_utils::Launch;

fn texts(values: &[&str]) -> Vec<String> {
    values.iter().map(|v| v.to_string()).collect()
}

#[test]
fn desktop_path_without_home_directory() {
    assert_eq!(get_desktop_path(None), Err("get home dir error".to_string()));
}

#[test]
fn desktop_path_that_is_not_there() {
    let probe = DesktopProbe {
        path: "/home/me/Desktop".to_string(),
        exists: false,
    };
    assert_eq!(
        get_desktop_path(Some(probe)),
        Err("desktop path not exist in home dir".to_string())
    );
}

#[test]
fn desktop_path_that_is_there() {
    let probe = DesktopProbe {
        path: "/home/me/Desktop".to_string(),
        exists: true,
    };
    assert_eq!(
        get_desktop_path(Some(probe)),
        Ok("/home/me/Desktop".to_string())
    );
}

#[test]
fn url_on_windows() {
    assert_eq!(
        open_url("windows", "https://example.com/a?b=c"),
        Ok(Launch {
            program: "cmd".to_string(),
            args: texts(&["/c", "start", "https://example.com/a?b=c"]),
        })
    );
}

#[test]
fn url_on_macos() {
    assert_eq!(
        open_url("macos", "file:///tmp/x"),
        Ok(Launch {
            program: "open".to_string(),
            args: texts(&["file:///tmp/x"]),
        })
    );
}

#[test]
fn url_on_linux() {
    assert_eq!(
        open_url("linux", "https://例子.测试/"),
        Ok(Launch {
            program: "xdg-open".to_string(),
            args: texts(&["https://例子.测试/"]),
        })
    );
}

#[test]
fn url_on_an_unknown_system() {
    assert_eq!(
        open_url("freebsd", "https://example.com"),
        Err("don't know how to open things on freebsd platform".to_string())
    );
    assert_eq!(
        open_url("", "https://example.com"),
        Err("don't know how to open things on  platform".to_string())
    );
    assert_eq!(
        open_url("Linux", "https://example.com"),
        Err("don't know how to open things on Linux platform".to_string())
    );
}

#[test]
fn language_variables_in_their_order() {
    assert_eq!(LANG_VARIABLES, ["LANG", "LC_ALL", "LC_MESSAGES", "LANGUAGE"]);
}

#[test]
fn language_is_the_first_value_that_is_set() {
    assert_eq!(
        get_system_lang(&texts(&["zh_CN.UTF-8", "C", "", "en"])),
        "zh_CN.UTF-8"
    );
    assert_eq!(get_system_lang(&texts(&["", "C", "", "en"])), "C");
    assert_eq!(get_system_lang(&texts(&["", "", "de_DE", "en"])), "de_DE");
    assert_eq!(get_system_lang(&texts(&["", "", "", "en"])), "en");
}

#[test]
fn language_is_empty_where_nothing_is_set() {
    assert_eq!(get_system_lang(&texts(&["", "", "", ""])), "");
    assert_eq!(get_system_lang(&texts(&[])), "");
}
