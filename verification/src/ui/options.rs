//! How the page is served, and where it looks for reports.
use vstd::prelude::*;

verus! {

/// A path of the file system, which is only carried along.
#[verifier::external_type_specification]
#[verifier::external_body]
pub struct ExPathBuf(std::path::PathBuf);

/// How the page is served.
pub struct UiOptions {
    pub port: u16,
    pub extra_dir: Option<std::path::PathBuf>,
    pub open_browser: bool,
}

/// A folder to look for reports in.
#[derive(Debug, Clone, Copy, PartialEq, Eq, Structural)]
pub enum ScanDir {
    /// Where the game keeps its reports below the home folder.
    HomeReports,
    /// `crash-reports` in the working folder.
    LocalReports,
    /// The working folder.
    Here,
    /// The folder that the options name.
    Extra,
}

/// The folders to look in, in this order: the one below the home folder where there is one, those
/// of the working folder, and the one that the options name.
pub open spec fn dirs_to_scan(home: bool, extra: bool) -> Seq<ScanDir> {
    let own = seq![ScanDir::LocalReports, ScanDir::Here];
    let first = if home {
        seq![ScanDir::HomeReports] + own
    } else {
        own
    };
    if extra {
        first.push(ScanDir::Extra)
    } else {
        first
    }
}

impl UiOptions {
    pub fn scan_dirs(&self, home: bool) -> (r: Vec<ScanDir>)
        ensures
            r@ == dirs_to_scan(home, self.extra_dir is Some),
    {
        let mut dirs: Vec<ScanDir> = Vec::new();
        if home {
            dirs.push(ScanDir::HomeReports);
        }
        dirs.push(ScanDir::LocalReports);
        dirs.push(ScanDir::Here);
        assert(dirs@ =~= dirs_to_scan(home, false));
        if self.extra_dir.is_some() {
            dirs.push(ScanDir::Extra);
        }
        dirs
    }
}

} // verus!
