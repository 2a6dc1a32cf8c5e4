//! Extensions: directories of extra files copied into a pulled chart.
use vstd::prelude::*;
use crate::text::join;

verus! {

/// Files from `source_dir` that are copied into the directory `target_dir`
/// of the chart.
pub struct Extension {
    pub name: Option<String>,
    pub target_dir: String,
    pub source_dir: String,
}

impl Extension {
    /// The name shown for the extension: its own, or `Unnamed`.
    pub fn display_name(&self) -> (r: String)
        ensures
            r@ == match self.name {
                Some(n) => n@,
                None => "Unnamed"@,
            },
    {
        match &self.name {
            Some(n) => n.clone(),
            None => "Unnamed".to_owned(),
        }
    }

    /// The directory, inside the chart at `chart_local_path`, that the
    /// extension's files are copied into.
    pub fn target_path(&self, chart_local_path: &str) -> (r: String)
        ensures
            r@ == crate::text::join_path(chart_local_path@, self.target_dir@),
    {
        join(chart_local_path, self.target_dir.as_str())
    }
}

} // verus!
