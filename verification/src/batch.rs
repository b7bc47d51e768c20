//! The batch converter: walks the merge list in order, validates each
//! entry's paths, and decides how its conversion is launched. Four jobs per
//! window are handed out to run without waiting; the fifth is awaited, and
//! after it completes a progress message is handed out for the channel. The
//! first validation failure aborts the whole batch.
//!
//! The machine only decides; checking paths, spawning the external tool and
//! pushing to the channel are the caller's side effects, reported back
//! through `advance` and the failure-recording methods.

use vstd::prelude::*;
use vstd::string::StringExecFns;
use crate::channel::channel_send;
use crate::merge::{
    spec_field0, spec_source_rel, spec_entries, spec_join_path, parse_entry, effective_entries,
    join_path,
};
use crate::protocol::{spec_encode, encode_progress};
use crate::text::{dec_digits, push_decimal};

verus! {

/// One external conversion: resize to a fixed canvas, pad with a black
/// background, centered. The parameter set is fixed for every job.
#[derive(Debug, Clone)]
pub struct ConversionJob {
    pub source_path: String,
    pub dest_path: String,
    pub target_width: u32,
    pub target_height: u32,
}

impl ConversionJob {
    /// Every job targets the one fixed output geometry.
    pub open spec fn wf(self) -> bool {
        self.target_width == 1920 && self.target_height == 1080
    }

    /// The canvas geometry argument, `<width>x<height>`.
    pub fn geometry(&self) -> (r: String)
        ensures
            r@ == dec_digits(self.target_width as nat) + seq!['x'] + dec_digits(
                self.target_height as nat,
            ),
    {
        let mut s = String::new();
        push_decimal(&mut s, self.target_width as u64);
        s.append("x");
        push_decimal(&mut s, self.target_height as u64);
        proof {
            reveal_strlit("x");
            assert(s@ =~= dec_digits(self.target_width as nat) + seq!['x'] + dec_digits(
                self.target_height as nat,
            ));
        }
        s
    }

    /// The fixed fill for the padded border.
    pub fn background(&self) -> (r: String)
        ensures
            r@ == "black"@,
    {
        String::from_str("black")
    }

    /// The fixed placement of the image on the canvas.
    pub fn gravity(&self) -> (r: String)
        ensures
            r@ == "center"@,
    {
        String::from_str("center")
    }
}

/// Why a batch ended without converting everything.
#[derive(Debug, Clone)]
pub enum BatchError {
    /// The entry's resolved source path does not exist; carries that path.
    MissingSource(String),
    /// The entry's resolved destination path already exists; carries that path.
    DestinationExists(String),
    /// The external tool could not be started; carries the source path.
    SpawnFailure(String),
    /// A progress message could not be pushed to the channel.
    ChannelClosed,
}

/// What the caller must do for the current entry.
#[derive(Debug, Clone)]
pub enum StepAction {
    /// Stop: the source is missing; carries the offending path.
    AbortMissingSource(String),
    /// Stop: the destination already exists; carries the offending path.
    AbortDestinationExists(String),
    /// Launch the job without waiting for it.
    LaunchAsync(ConversionJob),
    /// Launch the job, wait for it, then push the carried progress message.
    LaunchSync(ConversionJob, String),
}

/// The terminal value a batch ends with.
#[derive(Debug, Clone)]
pub struct BatchResult {
    pub success: bool,
    pub summary: String,
    pub duration_seconds: u64,
}

/// What one entry's checks and window position decide, shared between the
/// machine's contract and the abstract run the laws are stated over.
pub enum StepOutcome {
    AbortSource,
    AbortDest,
    Async,
    Sync,
}

/// The per-entry decision: a missing source aborts, then an existing
/// destination aborts, then the window position picks the launch mode.
pub open spec fn spec_decide(window: nat, source_exists: bool, dest_exists: bool) -> StepOutcome {
    if !source_exists {
        StepOutcome::AbortSource
    } else if dest_exists {
        StepOutcome::AbortDest
    } else if window < 4 {
        StepOutcome::Async
    } else {
        StepOutcome::Sync
    }
}

/// The batch converter's whole state: the directories, the effective
/// entries, how many entries are done, and where in the five-entry launch
/// window the next one falls.
pub struct BatchConverter {
    pub source_dir: String,
    pub dest_dir: String,
    pub entries: Vec<String>,
    pub processed: usize,
    pub window: u8,
    pub error: Option<BatchError>,
}

proof fn lemma_mod5_step(p: nat)
    ensures
        p % 5 < 4 ==> (p + 1) % 5 == p % 5 + 1,
        p % 5 == 4 ==> (p + 1) % 5 == 0,
{
    let q = p as int / 5;
    let r = p as int % 5;
    vstd::arithmetic::div_mod::lemma_fundamental_div_mod(p as int, 5);
    vstd::arithmetic::div_mod::lemma_mod_bound(p as int, 5);
    if r < 4 {
        vstd::arithmetic::div_mod::lemma_fundamental_div_mod_converse(p as int + 1, 5, q, r + 1);
    } else {
        vstd::arithmetic::div_mod::lemma_fundamental_div_mod_converse(p as int + 1, 5, q + 1, 0);
    }
}

impl BatchConverter {
    pub open spec fn total(self) -> nat {
        self.entries@.len()
    }

    /// The state invariant: the counter never passes the entry list, and the
    /// window position is exactly the processed count modulo five.
    pub open spec fn wf(self) -> bool {
        &&& self.processed <= self.entries@.len()
        &&& self.window as nat == (self.processed as nat) % 5
    }

    /// Whether the batch still has work: no abort recorded and entries left.
    pub open spec fn active(self) -> bool {
        self.error is None && (self.processed as nat) < self.entries@.len()
    }

    /// Starts a batch over a merge list. One batch per invocation.
    pub fn new(source_dir: &str, dest_dir: &str, merge_list: &str) -> (c: Self)
        ensures
            c.wf(),
            c.error is None,
            c.processed == 0,
            c.window == 0,
            c.source_dir@ == source_dir@,
            c.dest_dir@ == dest_dir@,
            c.entries.deep_view() == spec_entries(merge_list@),
    {
        BatchConverter {
            source_dir: String::from_str(source_dir),
            dest_dir: String::from_str(dest_dir),
            entries: effective_entries(merge_list),
            processed: 0,
            window: 0,
            error: None,
        }
    }

    pub fn total_entries(&self) -> (r: usize)
        ensures
            r == self.total(),
    {
        self.entries.len()
    }

    pub fn processed_count(&self) -> (r: usize)
        ensures
            r == self.processed,
    {
        self.processed
    }

    pub fn is_active(&self) -> (r: bool)
        ensures
            r == self.active(),
    {
        self.error.is_none() && self.processed < self.entries.len()
    }

    /// The job for the current entry: both full paths resolved from the
    /// entry's first field, source without its flag character, destination
    /// with it. `None` once the batch is done or aborted.
    pub fn next_job(&self) -> (j: Option<ConversionJob>)
        ensures
            (j is Some) <==> self.active(),
            j matches Some(job) ==> {
                &&& job.wf()
                &&& job.source_path@ == spec_join_path(
                    self.source_dir@,
                    spec_source_rel(self.entries@[self.processed as int]@),
                )
                &&& job.dest_path@ == spec_join_path(
                    self.dest_dir@,
                    spec_field0(self.entries@[self.processed as int]@),
                )
            },
    {
        if self.error.is_some() {
            return None;
        }
        if self.processed >= self.entries.len() {
            return None;
        }
        let line = &self.entries[self.processed];
        let entry = parse_entry(line.as_str());
        let source_path = join_path(self.source_dir.as_str(), entry.source_rel.as_str());
        let dest_path = join_path(self.dest_dir.as_str(), entry.dest_rel.as_str());
        Some(
            ConversionJob {
                source_path,
                dest_path,
                target_width: 1920,
                target_height: 1080,
            },
        )
    }

    /// One entry's decision, given whether its resolved source and
    /// destination paths exist right now. A missing source or an existing
    /// destination aborts the batch with the offending path and counts
    /// nothing. Otherwise the entry counts, and it launches without waiting
    /// for the first four positions of the window; at the fifth position it
    /// is awaited and a progress message carrying the prior processed count
    /// and the total is handed out — a message comes out of a step exactly
    /// when the step is the fifth of its window.
    pub fn advance(&mut self, source_exists: bool, dest_exists: bool) -> (a: StepAction)
        requires
            old(self).wf(),
            old(self).active(),
        ensures
            final(self).wf(),
            final(self).entries == old(self).entries,
            final(self).source_dir == old(self).source_dir,
            final(self).dest_dir == old(self).dest_dir,
            ({
                let line = old(self).entries@[old(self).processed as int]@;
                let src = spec_join_path(old(self).source_dir@, spec_source_rel(line));
                let dst = spec_join_path(old(self).dest_dir@, spec_field0(line));
                if !source_exists {
                    &&& a matches StepAction::AbortMissingSource(p) && p@ == src
                    &&& final(self).error matches Some(BatchError::MissingSource(q)) && q@ == src
                    &&& final(self).processed == old(self).processed
                    &&& final(self).window == old(self).window
                } else if dest_exists {
                    &&& a matches StepAction::AbortDestinationExists(p) && p@ == dst
                    &&& final(self).error matches Some(BatchError::DestinationExists(q)) && q@
                        == dst
                    &&& final(self).processed == old(self).processed
                    &&& final(self).window == old(self).window
                } else {
                    &&& final(self).error is None
                    &&& final(self).processed == old(self).processed + 1
                    &&& match a {
                        StepAction::LaunchAsync(job) => {
                            &&& old(self).window < 4
                            &&& job.wf()
                            &&& job.source_path@ == src
                            &&& job.dest_path@ == dst
                            &&& final(self).window == old(self).window + 1
                        },
                        StepAction::LaunchSync(job, m) => {
                            &&& old(self).window == 4
                            &&& job.wf()
                            &&& job.source_path@ == src
                            &&& job.dest_path@ == dst
                            &&& m@ == spec_encode(
                                old(self).processed as nat,
                                old(self).entries@.len() as nat,
                            )
                            &&& final(self).window == 0
                        },
                        _ => false,
                    }
                }
            }),
            (a matches StepAction::LaunchSync(_, _)) <==> (source_exists && !dest_exists && old(
                self,
            ).processed as nat % 5 == 4),
            match spec_decide(
                (old(self).processed as nat) % 5,
                source_exists,
                dest_exists,
            ) {
                StepOutcome::AbortSource => a is AbortMissingSource,
                StepOutcome::AbortDest => a is AbortDestinationExists,
                StepOutcome::Async => a is LaunchAsync,
                StepOutcome::Sync => a is LaunchSync,
            },
    {
        let job = match self.next_job() {
            Some(j) => j,
            None => {
                proof {
                    assert(false);
                }
                unreached()
            },
        };
        if !source_exists {
            self.error = Some(BatchError::MissingSource(job.source_path.clone()));
            return StepAction::AbortMissingSource(job.source_path);
        }
        if dest_exists {
            self.error = Some(BatchError::DestinationExists(job.dest_path.clone()));
            return StepAction::AbortDestinationExists(job.dest_path);
        }
        proof {
            lemma_mod5_step(old(self).processed as nat);
        }
        let total = self.entries.len();
        if self.window < 4 {
            self.window = self.window + 1;
            self.processed = self.processed + 1;
            StepAction::LaunchAsync(job)
        } else {
            let message = encode_progress(self.processed as u64, total as u64);
            self.window = 0;
            self.processed = self.processed + 1;
            StepAction::LaunchSync(job, message)
        }
    }

    /// Records that the external tool could not be started for the given
    /// source path: the batch ends as a reported failure, not a crash.
    pub fn record_spawn_failure(&mut self, source_path: &str)
        requires
            old(self).wf(),
        ensures
            final(self).wf(),
            final(self).error matches Some(BatchError::SpawnFailure(p)) && p@ == source_path@,
            final(self).entries == old(self).entries,
            final(self).source_dir == old(self).source_dir,
            final(self).dest_dir == old(self).dest_dir,
            final(self).processed == old(self).processed,
            final(self).window == old(self).window,
    {
        self.error = Some(BatchError::SpawnFailure(String::from_str(source_path)));
    }

    /// Records that a progress message could not be pushed: the channel is
    /// assumed open while the batch runs, so this is fatal to the batch.
    pub fn record_channel_closed(&mut self)
        requires
            old(self).wf(),
        ensures
            final(self).wf(),
            final(self).error matches Some(e) && e is ChannelClosed,
            final(self).entries == old(self).entries,
            final(self).source_dir == old(self).source_dir,
            final(self).dest_dir == old(self).dest_dir,
            final(self).processed == old(self).processed,
            final(self).window == old(self).window,
    {
        self.error = Some(BatchError::ChannelClosed);
    }

    /// The terminal value for a finished or aborted batch.
    pub fn result(&self, duration_seconds: u64) -> (r: BatchResult)
        requires
            self.wf(),
            !self.active(),
        ensures
            r.success <==> self.error is None,
            r.duration_seconds == duration_seconds,
            match self.error {
                None => r.summary@ == spec_success_summary(
                    self.total(),
                    duration_seconds as nat,
                ),
                Some(BatchError::MissingSource(p)) => r.summary@ == spec_missing_source_text(p@),
                Some(BatchError::DestinationExists(p)) => r.summary@ == spec_dest_exists_text(
                    p@,
                ),
                Some(BatchError::SpawnFailure(p)) => r.summary@ == spec_spawn_failure_text(p@),
                Some(BatchError::ChannelClosed) => r.summary@ == spec_channel_closed_text(),
            },
    {
        match &self.error {
            None => {
                let mut s = String::from_str("converted copied ");
                push_decimal(&mut s, self.entries.len() as u64);
                s.append(" files in ");
                push_decimal(&mut s, duration_seconds);
                s.append(" seconds");
                proof {
                    assert(s@ =~= spec_success_summary(self.total(), duration_seconds as nat));
                }
                BatchResult { success: true, summary: s, duration_seconds }
            },
            Some(BatchError::MissingSource(p)) => {
                let mut s = String::from_str("********* convert Copy: ERROR ");
                s.append(p.as_str());
                s.append(" does not exist **********");
                proof {
                    assert(s@ =~= spec_missing_source_text(p@));
                }
                BatchResult { success: false, summary: s, duration_seconds }
            },
            Some(BatchError::DestinationExists(p)) => {
                let mut s = String::from_str("********* convert Copy: ERROR ");
                s.append(p.as_str());
                s.append(" already exists **********");
                proof {
                    assert(s@ =~= spec_dest_exists_text(p@));
                }
                BatchResult { success: false, summary: s, duration_seconds }
            },
            Some(BatchError::SpawnFailure(p)) => {
                let mut s = String::from_str("********* convert Copy: ERROR could not start convert for ");
                s.append(p.as_str());
                s.append(" **********");
                proof {
                    assert(s@ =~= spec_spawn_failure_text(p@));
                }
                BatchResult { success: false, summary: s, duration_seconds }
            },
            Some(BatchError::ChannelClosed) => {
                let s = String::from_str(
                    "********* convert Copy: ERROR progress channel closed **********",
                );
                BatchResult { success: false, summary: s, duration_seconds }
            },
        }
    }
}

/// The summary of a batch that converted every entry.
pub open spec fn spec_success_summary(n: nat, secs: nat) -> Seq<char> {
    "converted copied "@ + dec_digits(n) + " files in "@ + dec_digits(secs) + " seconds"@
}

pub open spec fn spec_missing_source_text(p: Seq<char>) -> Seq<char> {
    "********* convert Copy: ERROR "@ + p + " does not exist **********"@
}

pub open spec fn spec_dest_exists_text(p: Seq<char>) -> Seq<char> {
    "********* convert Copy: ERROR "@ + p + " already exists **********"@
}

pub open spec fn spec_spawn_failure_text(p: Seq<char>) -> Seq<char> {
    "********* convert Copy: ERROR could not start convert for "@ + p + " **********"@
}

pub open spec fn spec_channel_closed_text() -> Seq<char> {
    "********* convert Copy: ERROR progress channel closed **********"@
}

/// Pushes one progress message to the channel; false when the channel is
/// closed, which the caller records as fatal to the batch.
pub fn push_progress(
    tx: &futures::channel::mpsc::UnboundedSender<String>,
    message: String,
) -> bool {
    channel_send(tx, message)
}

/// How a whole batch run ends, over the per-entry existence checks: how many
/// entries count, how many progress messages come out, or where it aborts.
pub enum RunOutcome {
    Completed { processed: nat, messages: nat },
    AbortedMissingSource { processed: nat, messages: nat },
    AbortedDestinationExists { processed: nat, messages: nat },
}

/// The whole batch as a fold of the per-entry decision: starting with `p`
/// entries already processed out of `n`, with `checks[i]` telling whether
/// the `i`-th remaining entry's source and destination exist.
pub open spec fn spec_run(p: nat, n: nat, checks: Seq<(bool, bool)>) -> RunOutcome
    decreases n - p,
{
    if p >= n {
        RunOutcome::Completed { processed: p, messages: 0 }
    } else {
        match spec_decide(p % 5, checks[0].0, checks[0].1) {
            StepOutcome::AbortSource => RunOutcome::AbortedMissingSource {
                processed: p,
                messages: 0,
            },
            StepOutcome::AbortDest => RunOutcome::AbortedDestinationExists {
                processed: p,
                messages: 0,
            },
            decision => {
                let emitted: nat = if decision is Sync {
                    1
                } else {
                    0
                };
                match spec_run(p + 1, n, checks.drop_first()) {
                    RunOutcome::Completed { processed, messages } => RunOutcome::Completed {
                        processed,
                        messages: messages + emitted,
                    },
                    RunOutcome::AbortedMissingSource { processed, messages } =>
                        RunOutcome::AbortedMissingSource {
                        processed,
                        messages: messages + emitted,
                    },
                    RunOutcome::AbortedDestinationExists { processed, messages } =>
                        RunOutcome::AbortedDestinationExists {
                        processed,
                        messages: messages + emitted,
                    },
                }
            },
        }
    }
}

proof fn lemma_div5_step(p: nat)
    ensures
        p % 5 == 4 ==> (p + 1) / 5 == p / 5 + 1,
        p % 5 < 4 ==> (p + 1) / 5 == p / 5,
{
    let q = p as int / 5;
    let r = p as int % 5;
    vstd::arithmetic::div_mod::lemma_fundamental_div_mod(p as int, 5);
    vstd::arithmetic::div_mod::lemma_mod_bound(p as int, 5);
    if r < 4 {
        vstd::arithmetic::div_mod::lemma_fundamental_div_mod_converse(p as int + 1, 5, q, r + 1);
    } else {
        vstd::arithmetic::div_mod::lemma_fundamental_div_mod_converse(p as int + 1, 5, q + 1, 0);
    }
}

proof fn lemma_run_good(p: nat, n: nat, checks: Seq<(bool, bool)>)
    requires
        p <= n,
        checks.len() == n - p,
        forall|i: int| 0 <= i < checks.len() ==> (#[trigger] checks[i]).0 && !checks[i].1,
    ensures
        spec_run(p, n, checks) == (RunOutcome::Completed {
            processed: n,
            messages: (n / 5 - p / 5) as nat,
        }),
    decreases n - p,
{
    vstd::arithmetic::div_mod::lemma_div_is_ordered(p as int, n as int, 5);
    if p < n {
        lemma_run_good(p + 1, n, checks.drop_first());
        lemma_div5_step(p);
        vstd::arithmetic::div_mod::lemma_div_is_ordered(p as int + 1, n as int, 5);
    }
}

/// Law: a batch over `n` valid, pre-existing, non-conflicting entries
/// completes with every entry processed and exactly `n / 5` progress
/// messages handed out — one after each fifth entry, none for the tail.
pub proof fn lemma_batch_all_good(n: nat, checks: Seq<(bool, bool)>)
    requires
        checks.len() == n,
        forall|i: int| 0 <= i < n ==> (#[trigger] checks[i]).0 && !checks[i].1,
    ensures
        spec_run(0, n, checks) == (RunOutcome::Completed { processed: n, messages: n / 5 }),
{
    lemma_run_good(0, n, checks);
}

proof fn lemma_run_missing_from(p: nat, n: nat, j: int, checks: Seq<(bool, bool)>)
    requires
        p <= n,
        checks.len() == n - p,
        0 <= j < checks.len(),
        forall|i: int| 0 <= i < j ==> (#[trigger] checks[i]).0 && !checks[i].1,
        !checks[j].0,
    ensures
        spec_run(p, n, checks) == (RunOutcome::AbortedMissingSource {
            processed: (p + j) as nat,
            messages: ((p + j) / 5 - p / 5) as nat,
        }),
    decreases j,
{
    vstd::arithmetic::div_mod::lemma_div_is_ordered(p as int, p as int + j, 5);
    if j > 0 {
        lemma_run_missing_from(p + 1, n, j - 1, checks.drop_first());
        lemma_div5_step(p);
        vstd::arithmetic::div_mod::lemma_div_is_ordered(p as int + 1, p as int + j, 5);
    }
}

/// Law: when the `k`-th entry's source is missing and every earlier entry is
/// valid, the batch aborts with exactly `k - 1` entries processed, no entry
/// beyond the `k`-th attempted, and exactly `(k - 1) / 5` progress messages
/// handed out before the abort.
pub proof fn lemma_batch_aborts_on_missing_source(n: nat, k: nat, checks: Seq<(bool, bool)>)
    requires
        checks.len() == n,
        1 <= k <= n,
        forall|i: int| 0 <= i < k - 1 ==> (#[trigger] checks[i]).0 && !checks[i].1,
        !checks[k - 1].0,
    ensures
        spec_run(0, n, checks) == (RunOutcome::AbortedMissingSource {
            processed: (k - 1) as nat,
            messages: ((k - 1) as nat) / 5,
        }),
{
    lemma_run_missing_from(0, n, k - 1, checks);
}

/// Law: a step hands out a progress message exactly when it is the fifth
/// entry of its window — counting entries from one, exactly when the entry
/// number is divisible by five.
pub proof fn lemma_sync_cadence(p: nat)
    ensures
        (p % 5 == 4) <==> ((p + 1) % 5 == 0),
{
    lemma_mod5_step(p);
}

} // verus!
