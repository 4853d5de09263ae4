use vstd::prelude::*;
use vstd::string::StringExecFns;
use crate::text::{decimal, decimal_string};

verus! {

/// The line announced for a batch of `count` files.
pub open spec fn progress_text(count: nat) -> Seq<char> {
    "Processing "@ + decimal(count) + " files"@
}

/// Builds `Processing <count> files`.
pub fn progress_line(count: usize) -> (r: String)
    ensures
        r@ == progress_text(count as nat),
{
    proof {
        reveal_strlit("Processing ");
        reveal_strlit(" files");
    }
    let head = String::from_str("Processing ");
    let digits = decimal_string(count);
    head.concat(digits.as_str()).concat(" files")
}

/// One progress line per batch, in batch order; no batch, no line.
pub fn progress_lines(batches: &Vec<Vec<String>>) -> (r: Vec<String>)
    ensures
        r@.len() == batches@.len(),
        forall|k: int| 0 <= k < r@.len() ==> #[trigger] r@[k]@ == progress_text(batches@[k]@.len()),
{
    let mut lines: Vec<String> = Vec::new();
    let mut k: usize = 0;
    while k < batches.len()
        invariant
            k <= batches@.len(),
            lines@.len() == k,
            forall|j: int| 0 <= j < k ==> #[trigger] lines@[j]@ == progress_text(batches@[j]@.len()),
        decreases batches@.len() - k,
    {
        lines.push(progress_line(batches[k].len()));
        k = k + 1;
    }
    lines
}

} // verus!
