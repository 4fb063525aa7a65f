pub mod compare;
pub mod config;
pub mod format;
pub mod laws;
pub mod merge;
pub mod normalize;

use vstd::prelude::*;
use crate::config::{Config, ConfigV};
use crate::format::{rows, rows_spec};
use crate::merge::{merge, merge_spec};
use crate::normalize::{fold_lines, fold_lines_spec, line_views};

verus! {

/// What one run emits for two sorted inputs: normalize each input for
/// comparison, merge the two in lockstep, and render each classified line as
/// zero or one output row.
pub open spec fn comm_spec(a: Seq<Seq<char>>, b: Seq<Seq<char>>, cfg: ConfigV) -> Seq<
    Seq<char>,
> {
    rows_spec(
        merge_spec(fold_lines_spec(a, cfg.insensitive), fold_lines_spec(b, cfg.insensitive)),
        cfg,
    )
}

/// Compare two sorted inputs and return the output rows, one string per
/// emitted line, exactly as `comm_spec` describes.
pub fn comm(lines1: &Vec<String>, lines2: &Vec<String>, config: &Config) -> (r: Vec<String>)
    ensures
        line_views(r@) == comm_spec(line_views(lines1@), line_views(lines2@), config@),
{
    let folded1 = fold_lines(lines1, config.insensitive);
    let folded2 = fold_lines(lines2, config.insensitive);
    let classified = merge(&folded1, &folded2);
    rows(&classified, config)
}

} // verus!
