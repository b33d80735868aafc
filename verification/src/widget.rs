//! The statistics widget.

use vstd::prelude::*;
use vstd::string::*;

verus! {

/// The sizes the statistics widget comes in.
#[derive(Clone, Copy, Debug, PartialEq, Eq, Structural)]
pub enum StatisticWidgetVariant {
    Large,
    Small,
}

impl StatisticWidgetVariant {
    pub open spec fn display_text(self) -> Seq<char> {
        match self {
            StatisticWidgetVariant::Large => "large"@,
            StatisticWidgetVariant::Small => "small"@,
        }
    }

    /// The size in lower case.
    pub fn to_string(&self) -> (out: String)
        ensures
            out@ == self.display_text(),
    {
        match self {
            StatisticWidgetVariant::Large => String::from_str("large"),
            StatisticWidgetVariant::Small => String::from_str("small"),
        }
    }
}

/// Where the widget keeps the state of its window.
#[derive(Clone, Debug, PartialEq, Eq)]
pub struct WindowStatePath {
    /// The directory or file the path starts from.
    pub root: String,
    /// The components below `root`; the last one is the file.
    pub parts: Vec<String>,
}

/// The state file's location: the path the environment names, or
/// `nyanpasu-egui/window_state.json` under the system's temporary directory.
/// The caller creates the directory above the file.
pub fn get_window_state_path(env_path: Option<&str>, temp_dir: &str) -> (path: WindowStatePath)
    ensures
        match env_path {
            Some(named) => path.root@ == named@ && path.parts.deep_view() == Seq::<
                Seq<char>,
            >::empty(),
            None => path.root@ == temp_dir@ && path.parts.deep_view() == seq![
                "nyanpasu-egui"@,
                "window_state.json"@,
            ],
        },
{
    match env_path {
        Some(named) => {
            let parts: Vec<String> = Vec::new();
            assert(parts.deep_view() =~= Seq::<Seq<char>>::empty());
            WindowStatePath { root: String::from_str(named), parts }
        },
        None => {
            let mut parts: Vec<String> = Vec::new();
            parts.push(String::from_str("nyanpasu-egui"));
            parts.push(String::from_str("window_state.json"));
            assert(parts.deep_view() =~= seq!["nyanpasu-egui"@, "window_state.json"@]);
            WindowStatePath { root: String::from_str(temp_dir), parts }
        },
    }
}

} // verus!
