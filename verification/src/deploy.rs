//! The decisions of the deployment workflow that are pure text and value
//! logic: choosing the gas budget and reading the package id out of the
//! publish tool's output.

use vstd::prelude::*;
use vstd::string::StringSliceAdditionalSpecFns;
use vstd::string::StrSliceExecFns;
use vstd::string::StringExecFns;
use crate::text::{contains_seq, marker, spec_lines, contains_bytes, split_lines};
use crate::config::DeployConfig;

verus! {

/// The budget a deployment uses: the explicitly requested one, or the
/// configured default.
pub fn effective_gas_budget(requested: Option<u64>, config: &DeployConfig) -> (r: u64)
    ensures
        requested matches Some(b) ==> r == b,
        requested is None ==> r == config.gas_budget,
{
    match requested {
        Some(b) => b,
        None => config.gas_budget,
    }
}

/// A line of publish output that reports the package id.
pub open spec fn package_id_line(l: Seq<u8>) -> bool {
    contains_seq(l, "Package ID".spec_bytes()) || contains_seq(l, "packageId".spec_bytes())
}

/// Extract the published package id from the publish tool's output: when a
/// line reports one, the simplified reading used here yields the fixed
/// placeholder id.
pub fn extract_package_id(output: &str) -> (r: Option<String>)
    ensures
        (r is Some) == exists|j: int|
            0 <= j < spec_lines(output.spec_bytes()).len() && #[trigger] package_id_line(
                spec_lines(output.spec_bytes())[j],
            ),
        r matches Some(v) ==> v@ == "0x..."@,
{
    let bytes = output.as_bytes_vec();
    let lines = split_lines(&bytes);
    proof {
        crate::text::lemma_lines_deep_view(&lines);
    }
    let mid = marker("Package ID");
    let mcamel = marker("packageId");
    let n = lines.len();
    let mut i: usize = 0;
    while i < n
        invariant
            0 <= i <= n,
            n == lines@.len(),
            mid@ == "Package ID".spec_bytes(),
            mcamel@ == "packageId".spec_bytes(),
            lines.deep_view() == spec_lines(output.spec_bytes()),
            forall|k: int| 0 <= k < lines@.len() ==> #[trigger] lines.deep_view()[k]
                == lines@[k]@,
            forall|k: int| 0 <= k < i ==> !(#[trigger] package_id_line(lines.deep_view()[k])),
        decreases n - i,
    {
        let l = &lines[i];
        if contains_bytes(l, &mid) || contains_bytes(l, &mcamel) {
            assert(package_id_line(lines.deep_view()[i as int]));
            return Some(String::from_str("0x..."));
        }
        assert(!package_id_line(lines.deep_view()[i as int]));
        i += 1;
    }
    None
}

} // verus!
