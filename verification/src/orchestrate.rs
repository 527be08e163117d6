use vstd::prelude::*;

use crate::config::Config;
use crate::fetch::protocol_spec;
use crate::fetch::ResolutionOutcome;
use crate::fetch::TransferOutcome;
use crate::filename::create_filename;
use crate::filename::filename_spec;
use crate::record::Memory;
use crate::report::OutcomeModel;

verus! {

/// How many records a developer-mode run processes at most.
pub const DEVELOPER_MODE_LIMIT: usize = 100;

/// Everything a fetch task needs when it is launched: the position of its
/// record in the input sequence, the resolved destination path, and the
/// raw download link to exchange in the two-stage fetch.
pub struct TaskSpec {
    pub index: usize,
    pub filename: String,
    pub link: String,
}

/// How many records one run processes: the whole manifest, restricted to
/// its first hundred entries in developer mode.
pub open spec fn batch_len_spec(n: nat, developer_mode: bool) -> nat {
    if developer_mode && n > DEVELOPER_MODE_LIMIT {
        DEVELOPER_MODE_LIMIT as nat
    } else {
        n
    }
}

/// Lay the batch out: one task per processed record, in sequence order.
/// Task `i` carries record `i`'s deterministic destination path and its
/// download link, so every launched task is correlated with a unique
/// record index.
pub fn plan_batch(memories: &Vec<Memory>, config: &Config) -> (r: Vec<TaskSpec>)
    ensures
        r@.len() == batch_len_spec(memories@.len(), config.developer_mode),
        forall|i: int|
            0 <= i < r@.len() ==> {
                &&& (#[trigger] r@[i]).index == i
                &&& r@[i].filename@ == filename_spec(memories@[i], config.output_dir@)
                &&& r@[i].link@ == memories@[i].download_link@
            },
{
    let n = if config.developer_mode && memories.len() > DEVELOPER_MODE_LIMIT {
        DEVELOPER_MODE_LIMIT
    } else {
        memories.len()
    };
    let mut out: Vec<TaskSpec> = Vec::new();
    let mut i: usize = 0;
    while i < n
        invariant
            n as nat == batch_len_spec(memories@.len(), config.developer_mode),
            n <= memories@.len(),
            i <= n,
            out@.len() == i,
            forall|j: int|
                0 <= j < i ==> {
                    &&& (#[trigger] out@[j]).index == j
                    &&& out@[j].filename@ == filename_spec(memories@[j], config.output_dir@)
                    &&& out@[j].link@ == memories@[j].download_link@
                },
        decreases n - i,
    {
        let filename = create_filename(&memories[i], config.output_dir.as_str());
        let link = memories[i].download_link.clone();
        out.push(TaskSpec { index: i, filename, link });
        i = i + 1;
    }
    out
}

/// The completion outcomes of one whole batch, one per processed record in
/// launch order, as a function of each task's environment: whether its
/// destination path already existed, what its two network exchanges
/// returned, and whether its disk write succeeded.
pub open spec fn batch_outcomes_spec(
    len: nat,
    exists_flags: Seq<bool>,
    resolutions: Seq<ResolutionOutcome>,
    transfers: Seq<TransferOutcome>,
    writes: Seq<bool>,
) -> Seq<OutcomeModel>
    recommends
        exists_flags.len() >= len,
        resolutions.len() >= len,
        transfers.len() >= len,
        writes.len() >= len,
{
    Seq::new(
        len,
        |i: int|
            protocol_spec(i as nat, exists_flags[i], resolutions[i], transfers[i], writes[i]),
    )
}

/// The batch accounting law: whatever the environment answers, a batch
/// over `len` processed records yields exactly `len` completion outcomes,
/// and the outcome at position `i` carries record index `i` — so every
/// outcome is correlated to a unique record, and none is dropped or
/// duplicated.
pub proof fn lemma_batch_accounting(
    len: nat,
    exists_flags: Seq<bool>,
    resolutions: Seq<ResolutionOutcome>,
    transfers: Seq<TransferOutcome>,
    writes: Seq<bool>,
)
    ensures
        batch_outcomes_spec(len, exists_flags, resolutions, transfers, writes).len() == len,
        forall|i: int|
            0 <= i < len ==> #[trigger] batch_outcomes_spec(
                len,
                exists_flags,
                resolutions,
                transfers,
                writes,
            )[i].id == i,
        forall|i: int, j: int|
            #![trigger batch_outcomes_spec(len, exists_flags, resolutions, transfers, writes)[i],
                batch_outcomes_spec(len, exists_flags, resolutions, transfers, writes)[j]]
            0 <= i < len && 0 <= j < len && i != j ==> batch_outcomes_spec(
                len,
                exists_flags,
                resolutions,
                transfers,
                writes,
            )[i].id != batch_outcomes_spec(len, exists_flags, resolutions, transfers, writes)[j].id,
{
    let outcomes = batch_outcomes_spec(len, exists_flags, resolutions, transfers, writes);
    assert forall|i: int| 0 <= i < len implies #[trigger] outcomes[i].id == i by {
        crate::fetch::lemma_task_reports_own_index(
            i as nat,
            exists_flags[i],
            resolutions[i],
            transfers[i],
            writes[i],
        );
    }
}

} // verus!
