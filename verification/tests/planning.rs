use path_revealer::error::RevealError;
use path_revealer::launch::Launch;
use path_revealer::path::contains_comma;
use path_revealer::revealer::{conclude, Lookup, PathRevealer, Platform, Step};

fn strings(items: &[&str]) -> Vec<String> {
    items.iter().map(|s| s.to_string()).collect()
}

fn bus_call(path: &str) -> Launch {
    Launch {
        program: "dbus-send".to_string(),
        args: strings(&[
            "--session",
            "--dest=org.freedesktop.FileManager1",
            "--type=method_call",
            "/org/freedesktop/FileManager1",
            "org.freedesktop.FileManager1.ShowItems",
            &format!("array:string:\"file://{}\"", path),
            "string:\"\"",
        ]),
        detached: true,
    }
}

fn opener(directory: &str) -> Launch {
    Launch { program: "xdg-open".to_string(), args: strings(&[directory]), detached: false }
}

const LOOKUPS: [Lookup; 4] =
    [Lookup::Directory, Lookup::File, Lookup::Missing, Lookup::Inaccessible];

const PLATFORMS: [Platform; 3] = [Platform::Windows, Platform::MacOs, Platform::Linux];

#[test]
fn linux_plain_path_goes_to_the_file_manager() {
    let linux = PathRevealer::new(Platform::Linux);
    let step = linux.begin("/home/u/doc.txt");
    let expected = Launch {
        program: "dbus-send".to_string(),
        args: strings(&[
            "--session",
            "--dest=org.freedesktop.FileManager1",
            "--type=method_call",
            "/org/freedesktop/FileManager1",
            "org.freedesktop.FileManager1.ShowItems",
            "array:string:\"file:///home/u/doc.txt\"",
            "string:\"\"",
        ]),
        detached: true,
    };
    assert_eq!(step, Step::Launch(expected));
}

#[test]
fn linux_comma_file_opens_the_parent() {
    let linux = PathRevealer::new(Platform::Linux);
    assert_eq!(linux.begin("/home/u/a,b.txt"), Step::Inspect);
    let launch = linux.resume("/home/u/a,b.txt", Lookup::File);
    assert_eq!(launch, Ok(opener("/home/u")));
    let launch = launch.unwrap();
    assert_eq!(launch.program, "xdg-open");
    assert_eq!(launch.args, vec!["/home/u".to_string()]);
    assert!(!launch.detached);
}

#[test]
fn linux_comma_directory_is_opened_unchanged() {
    let linux = PathRevealer::new(Platform::Linux);
    assert_eq!(linux.begin("/home/u,b/"), Step::Inspect);
    let launch = linux.resume("/home/u,b/", Lookup::Directory);
    assert_eq!(launch, Ok(opener("/home/u,b/")));
    assert_eq!(launch.unwrap().args, vec!["/home/u,b/".to_string()]);
}

#[test]
fn windows_selects_the_path_in_explorer() {
    let windows = PathRevealer::new(Platform::Windows);
    let expected = Launch {
        program: "explorer".to_string(),
        args: strings(&["/select,", "C:\\Users\\u\\doc.txt"]),
        detached: false,
    };
    assert_eq!(windows.begin("C:\\Users\\u\\doc.txt"), Step::Launch(expected));
}

#[test]
fn macos_reveals_the_path_in_finder() {
    let macos = PathRevealer::new(Platform::MacOs);
    let expected = Launch {
        program: "open".to_string(),
        args: strings(&["-R", "/Users/u/doc.txt"]),
        detached: false,
    };
    assert_eq!(macos.begin("/Users/u/doc.txt"), Step::Launch(expected));
}

#[test]
fn windows_and_macos_take_a_comma_as_it_is() {
    let windows = PathRevealer::new(Platform::Windows);
    let macos = PathRevealer::new(Platform::MacOs);
    assert_eq!(windows.begin("C:\\a,b.txt"), Step::Launch(Launch::explorer_select("C:\\a,b.txt")));
    assert_eq!(macos.begin("/Users/u/a,b.txt"), Step::Launch(Launch::finder_reveal("/Users/u/a,b.txt")));
    assert_eq!(
        Launch::explorer_select("C:\\a,b.txt").args,
        strings(&["/select,", "C:\\a,b.txt"])
    );
    assert_eq!(Launch::finder_reveal("/Users/u/a,b.txt").args, strings(&["-R", "/Users/u/a,b.txt"]));
}

#[test]
fn plain_linux_paths_are_passed_unchanged() {
    let linux = PathRevealer::new(Platform::Linux);
    let paths = [
        "",
        "/",
        "relative/file",
        "/home/u/with space.txt",
        "/home/u/quote\".txt",
        "/home/u/dir/",
        "/home/ü/文件.txt",
        "/home/u/./x/../y",
    ];
    for path in paths {
        assert!(!contains_comma(path));
        assert_eq!(linux.begin(path), Step::Launch(bus_call(path)));
        for lookup in LOOKUPS {
            assert_eq!(linux.resume(path, lookup), Ok(bus_call(path)));
        }
    }
}

#[test]
fn the_bus_call_is_detached_and_nothing_else_is() {
    assert!(Launch::show_items("/x").detached);
    assert!(!Launch::open_directory("/x").detached);
    assert!(!Launch::explorer_select("/x").detached);
    assert!(!Launch::finder_reveal("/x").detached);
}

#[test]
fn comma_directories_are_opened_unchanged() {
    let linux = PathRevealer::new(Platform::Linux);
    for path in [",", "a,b", "/a,b", "/home/u,b/", "/x/y,z/.", "./,", "/,/..", "/home/ü,/é"] {
        assert_eq!(linux.begin(path), Step::Inspect);
        assert_eq!(linux.resume(path, Lookup::Directory), Ok(opener(path)));
    }
}

#[test]
fn comma_files_have_their_parent_opened() {
    let linux = PathRevealer::new(Platform::Linux);
    let cases = [
        ("/home/u/a,b.txt", "/home/u"),
        ("/a,b", "/"),
        ("a,b", ""),
        ("./a,b", "."),
        ("dir/a,b", "dir"),
        ("/home/u,v/file", "/home/u,v"),
        ("/home/u,b/", "/home"),
        ("/home//u/a,b//", "/home//u"),
        ("/home/u/./a,b/.", "/home/u"),
        ("/x,y/..", "/x,y"),
        ("/home/ü/é,è.txt", "/home/ü"),
        ("/a,b/c,d/e,f", "/a,b/c,d"),
    ];
    for (path, parent) in cases {
        assert_eq!(linux.begin(path), Step::Inspect);
        let launch = linux.resume(path, Lookup::File).unwrap();
        assert_eq!(launch, opener(parent));
        assert_ne!(launch.args[0], path);
        assert!(path.starts_with(&launch.args[0]));
    }
}

#[test]
fn a_missing_path_is_an_error_and_no_panic() {
    let linux = PathRevealer::new(Platform::Linux);
    assert_eq!(linux.resume("/no/such,path", Lookup::Missing), Err(RevealError::PathNotFound));
    assert_eq!(linux.resume(",", Lookup::Missing), Err(RevealError::PathNotFound));
}

#[test]
fn a_path_out_of_reach_is_an_error() {
    let linux = PathRevealer::new(Platform::Linux);
    assert_eq!(
        linux.resume("/root/secret,dir/x", Lookup::Inaccessible),
        Err(RevealError::PathInaccessible)
    );
}

#[test]
fn a_program_that_does_not_start_is_an_error() {
    assert_eq!(conclude(false), Err(RevealError::ProcessSpawnFailure));
    assert_eq!(conclude(true), Ok(()));
}

#[test]
fn the_lookup_matters_only_where_it_was_asked_for() {
    let paths = ["", "/", "/home/u/doc.txt", "/home/u/a,b.txt", "C:\\Users\\u\\a,b.txt", ","];
    for platform in PLATFORMS {
        let revealer = PathRevealer::new(platform);
        assert_eq!(revealer.platform, platform);
        for path in paths {
            match revealer.begin(path) {
                Step::Launch(launch) => {
                    assert!(platform != Platform::Linux || !path.contains(','));
                    for lookup in LOOKUPS {
                        assert_eq!(revealer.resume(path, lookup), Ok(launch.clone()));
                    }
                }
                Step::Inspect => {
                    assert_eq!(platform, Platform::Linux);
                    assert!(path.contains(','));
                    assert!(revealer.resume(path, Lookup::Directory).is_ok());
                    assert!(revealer.resume(path, Lookup::File).is_ok());
                    assert!(revealer.resume(path, Lookup::Missing).is_err());
                    assert!(revealer.resume(path, Lookup::Inaccessible).is_err());
                }
            }
        }
    }
}

#[test]
fn planning_never_fails_on_encoding() {
    let paths = ["", ",", "/a,b", "/home/ü/é,è.txt", "/\u{10ffff},\u{0}/x", "a,/b"];
    for platform in PLATFORMS {
        let revealer = PathRevealer::new(platform);
        for path in paths {
            for lookup in LOOKUPS {
                assert_ne!(revealer.resume(path, lookup), Err(RevealError::EncodingFailure));
            }
        }
    }
}

#[test]
fn commas_are_found_wherever_they_stand() {
    assert!(contains_comma(","));
    assert!(contains_comma(",abc"));
    assert!(contains_comma("abc,"));
    assert!(contains_comma("/home/u/a,b.txt"));
    assert!(contains_comma("é,è"));
    assert!(!contains_comma(""));
    assert!(!contains_comma("/home/u/doc.txt"));
    assert!(!contains_comma("a;b.c"));
    assert!(!contains_comma("\u{ff0c}"));
}
