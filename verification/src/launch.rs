//! The helper programs that show a path, and their command lines.

use vstd::prelude::*;
use vstd::string::StringExecFns;

verus! {

/// A program to start, with its arguments.
#[derive(Clone, Debug, PartialEq, Eq)]
pub struct Launch {
    /// The name of the program, looked up on the search path.
    pub program: String,
    /// The arguments, in order, without the program's name.
    pub args: Vec<String>,
    /// Whether the program is to run detached from the host, so that it
    /// neither blocks the host nor ends with it.
    pub detached: bool,
}

/// What a [`Launch`] holds, as plain text.
pub struct LaunchView {
    pub program: Seq<char>,
    pub args: Seq<Seq<char>>,
    pub detached: bool,
}

impl View for Launch {
    type V = LaunchView;

    open spec fn view(&self) -> LaunchView {
        LaunchView {
            program: self.program@,
            args: self.args@.map_values(|arg: String| arg@),
            detached: self.detached,
        }
    }
}

/// The address of `path` as a `file://` URI: the scheme, then the path as
/// it is.
pub open spec fn file_uri(path: Seq<char>) -> Seq<char> {
    "file://"@ + path
}

/// The argument that names `path` to the file manager's bus interface: an
/// array of one string, the address of the path in quotes.
pub open spec fn show_items_argument(path: Seq<char>) -> Seq<char> {
    "array:string:\""@ + file_uri(path) + "\""@
}

impl LaunchView {
    /// Explorer, told to select `path`.
    pub open spec fn explorer_select(path: Seq<char>) -> LaunchView {
        LaunchView { program: "explorer"@, args: seq!["/select,"@, path], detached: false }
    }

    /// `open`, told to reveal `path` in Finder.
    pub open spec fn finder_reveal(path: Seq<char>) -> LaunchView {
        LaunchView { program: "open"@, args: seq!["-R"@, path], detached: false }
    }

    /// `dbus-send`, calling `ShowItems` of `org.freedesktop.FileManager1`
    /// on the session bus with the address of `path` and an empty startup
    /// id, detached from the host.
    pub open spec fn show_items(path: Seq<char>) -> LaunchView {
        LaunchView {
            program: "dbus-send"@,
            args: seq![
                "--session"@,
                "--dest=org.freedesktop.FileManager1"@,
                "--type=method_call"@,
                "/org/freedesktop/FileManager1"@,
                "org.freedesktop.FileManager1.ShowItems"@,
                show_items_argument(path),
                "string:\"\""@,
            ],
            detached: true,
        }
    }

    /// `xdg-open`, told to open the directory `directory`.
    pub open spec fn open_directory(directory: Seq<char>) -> LaunchView {
        LaunchView { program: "xdg-open"@, args: seq![directory], detached: false }
    }
}

impl Launch {
    /// Explorer, told to select `path`.
    pub fn explorer_select(path: &str) -> (launch: Launch)
        ensures
            launch@ == LaunchView::explorer_select(path@),
    {
        let mut args: Vec<String> = Vec::new();
        args.push(String::from_str("/select,"));
        args.push(String::from_str(path));
        let launch = Launch { program: String::from_str("explorer"), args, detached: false };
        assert(launch@.args =~= LaunchView::explorer_select(path@).args);
        launch
    }

    /// `open`, told to reveal `path` in Finder.
    pub fn finder_reveal(path: &str) -> (launch: Launch)
        ensures
            launch@ == LaunchView::finder_reveal(path@),
    {
        let mut args: Vec<String> = Vec::new();
        args.push(String::from_str("-R"));
        args.push(String::from_str(path));
        let launch = Launch { program: String::from_str("open"), args, detached: false };
        assert(launch@.args =~= LaunchView::finder_reveal(path@).args);
        launch
    }

    /// `dbus-send`, asking the file manager on the session bus to show
    /// `path`, detached from the host.
    pub fn show_items(path: &str) -> (launch: Launch)
        ensures
            launch@ == LaunchView::show_items(path@),
    {
        let mut item = String::from_str("array:string:\"");
        item.append("file://");
        item.append(path);
        item.append("\"");
        assert(item@ =~= show_items_argument(path@));
        let mut args: Vec<String> = Vec::new();
        args.push(String::from_str("--session"));
        args.push(String::from_str("--dest=org.freedesktop.FileManager1"));
        args.push(String::from_str("--type=method_call"));
        args.push(String::from_str("/org/freedesktop/FileManager1"));
        args.push(String::from_str("org.freedesktop.FileManager1.ShowItems"));
        args.push(item);
        args.push(String::from_str("string:\"\""));
        let launch = Launch { program: String::from_str("dbus-send"), args, detached: true };
        assert(launch@.args =~= LaunchView::show_items(path@).args);
        launch
    }

    /// `xdg-open`, told to open the directory `directory`.
    pub fn open_directory(directory: &str) -> (launch: Launch)
        ensures
            launch@ == LaunchView::open_directory(directory@),
    {
        let mut args: Vec<String> = Vec::new();
        args.push(String::from_str(directory));
        let launch = Launch { program: String::from_str("xdg-open"), args, detached: false };
        assert(launch@.args =~= LaunchView::open_directory(directory@).args);
        launch
    }
}

} // verus!
