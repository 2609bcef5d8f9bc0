use vstd::prelude::*;

use crate::conditions::ConditionNode;
use crate::paths::FsPath;

verus! {

/// Which exports the page-export-strip transform removes from a page file.
#[derive(Debug, Clone, Copy, PartialEq, Eq, Structural)]
pub enum NextJsPageExportFilter {
    /// Strip the default export, keeping the data exports.
    StripDefaultExport,
    /// Strip the data exports, keeping the default export.
    StripDataExports,
}

/// One content transformation to schedule when a rule matches. The payload
/// is opaque to this library: it is ordered and attached to rules, never
/// interpreted here.
#[derive(Debug, PartialEq, Eq)]
pub enum TransformSpec {
    /// Strip page exports according to the filter.
    NextJsStripPageExports(NextJsPageExportFilter),
    /// Wrap dynamic imports; the flags and the optional pages routing root
    /// are carried to the transform executor unchanged.
    NextJsDynamic {
        is_development: bool,
        is_server: bool,
        is_server_components: bool,
        pages_dir: Option<FsPath>,
    },
    /// Rewrite font-loader imports; carries the ordered list of recognized
    /// font-loader import specifiers, a build-time configuration input.
    NextJsFont(Vec<Vec<u8>>),
}

/// A condition tree paired with the ordered transform effects to apply to
/// every candidate file that satisfies it.
#[derive(Debug, PartialEq, Eq)]
pub struct ModuleRule {
    pub condition: ConditionNode,
    pub effects: Vec<TransformSpec>,
}

impl ModuleRule {
    pub fn new(condition: ConditionNode, effects: Vec<TransformSpec>) -> (r: ModuleRule)
        ensures
            r.condition == condition,
            r.effects == effects,
    {
        ModuleRule { condition, effects }
    }
}

} // verus!
