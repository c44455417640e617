//! Decision of the macOS HFP support detection.
//!
//! Every Mac ships with a built-in controller whose stack implements the
//! Hands-Free profile, so the decision is simple: no default controller ->
//! Unsupported; a controller -> Supported. When the detection task itself
//! fails, support is Unknown.
use crate::protocol::HfpSupport;
use vstd::prelude::*;

verus! {

pub fn detect_blocking(has_default_controller: bool) -> (r: HfpSupport)
    ensures
        r == (if has_default_controller {
            HfpSupport::Supported
        } else {
            HfpSupport::Unsupported
        }),
{
    if has_default_controller {
        HfpSupport::Supported
    } else {
        HfpSupport::Unsupported
    }
}

/// The result of the detection task: its answer, or Unknown when it failed.
pub fn detect(task_result: Option<HfpSupport>) -> (r: HfpSupport)
    ensures
        r == (match task_result {
            Some(s) => s,
            None => HfpSupport::Unknown,
        }),
{
    match task_result {
        Some(s) => s,
        None => HfpSupport::Unknown,
    }
}

} // verus!
