//! A request to start one program, and the three shapes it takes here.

use vstd::prelude::*;
use crate::platform::Platform;

verus! {

/// One program to start, with its arguments in order. Nothing is started by
/// making a `Launch`: it is the caller who spawns it, once, without waiting
/// for the program to end.
#[derive(Clone, Debug, PartialEq, Eq)]
pub struct Launch {
    /// The program's name, looked up on the search path.
    pub program: String,
    /// The arguments, each handed to the program as one argument.
    pub args: Vec<String>,
}

/// A [`Launch`] as a mathematical value.
pub struct LaunchView {
    pub program: Seq<char>,
    pub args: Seq<Seq<char>>,
}

impl View for Launch {
    type V = LaunchView;

    open spec fn view(&self) -> LaunchView {
        LaunchView { program: self.program@, args: self.args.deep_view() }
    }
}

impl DeepView for Launch {
    type V = LaunchView;

    open spec fn deep_view(&self) -> LaunchView {
        self.view()
    }
}

impl LaunchView {
    /// `explorer /select, <path>`: Windows Explorer opens the containing
    /// folder with `path` selected.
    pub open spec fn select_in_explorer(path: Seq<char>) -> LaunchView {
        LaunchView { program: Platform::Windows.program(), args: seq!["/select,"@, path] }
    }

    /// `open -R <path>`: the Finder shows `path` in its folder.
    pub open spec fn reveal_in_finder(path: Seq<char>) -> LaunchView {
        LaunchView { program: Platform::MacOs.program(), args: seq!["-R"@, path] }
    }

    /// `xdg-open <directory>`: the desktop's file manager opens `directory`.
    pub open spec fn open_directory(directory: Seq<char>) -> LaunchView {
        LaunchView { program: Platform::Linux.program(), args: seq![directory] }
    }
}

impl Launch {
    /// The launch that selects `path` in Windows Explorer.
    pub fn select_in_explorer(path: &str) -> (launch: Launch)
        ensures
            launch@ == LaunchView::select_in_explorer(path@),
    {
        let mut args: Vec<String> = Vec::new();
        args.push("/select,".to_owned());
        args.push(path.to_owned());
        let launch = Launch { program: Platform::Windows.executable().to_owned(), args };
        assert(launch@.args =~= seq!["/select,"@, path@]);
        launch
    }

    /// The launch that reveals `path` in the macOS Finder.
    pub fn reveal_in_finder(path: &str) -> (launch: Launch)
        ensures
            launch@ == LaunchView::reveal_in_finder(path@),
    {
        let mut args: Vec<String> = Vec::new();
        args.push("-R".to_owned());
        args.push(path.to_owned());
        let launch = Launch { program: Platform::MacOs.executable().to_owned(), args };
        assert(launch@.args =~= seq!["-R"@, path@]);
        launch
    }

    /// The launch that opens `directory` in the desktop's file manager.
    pub fn open_directory(directory: String) -> (launch: Launch)
        ensures
            launch@ == LaunchView::open_directory(directory@),
    {
        let ghost shown = directory@;
        let mut args: Vec<String> = Vec::new();
        args.push(directory);
        let launch = Launch { program: Platform::Linux.executable().to_owned(), args };
        assert(launch@.args =~= seq![shown]);
        launch
    }
}

} // verus!
