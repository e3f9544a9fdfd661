//! The all-or-nothing batch over a list of invoice files. The files are
//! parsed one at a time, in order, by the caller; this machine decides which
//! file comes next, collects the records, and on the first failure drops
//! everything collected and stops.
use vstd::prelude::*;
use vstd::string::*;
use crate::extraction::{ExtractionError, error_text};
use crate::model::{ConsultarNfseResposta, InfNfse};

verus! {

/// What parsing one file gave.
pub type FileOutcome = Result<ConsultarNfseResposta, ExtractionError>;

/// The file that stopped a batch, and why.
#[derive(Debug, Clone, PartialEq)]
pub struct BatchFailure {
    /// The path of the failing file.
    pub path: String,
    /// What went wrong with it.
    pub error: ExtractionError,
}

/// The text shown for a failed batch.
pub open spec fn failure_text(f: BatchFailure) -> Seq<char> {
    "Erro ao processar "@ + f.path@ + ": "@ + error_text(f.error)
}

impl BatchFailure {
    /// The one message shown for a failed batch: the failing path and the cause.
    pub fn message(&self) -> (r: String)
        ensures
            r@ == failure_text(*self),
    {
        let mut m = String::from_str("Erro ao processar ");
        m.append(self.path.as_str());
        m.append(": ");
        let cause = self.error.message();
        m.append(cause.as_str());
        m
    }
}

/// How a finished batch ended.
#[derive(Debug, Clone, PartialEq)]
pub enum BatchResult {
    /// Every file parsed: all their records, file after file, in document order.
    Done(Vec<InfNfse>),
    /// A file failed: nothing is kept.
    Failed(BatchFailure),
}

/// The state of a batch, as a mathematical value.
pub struct BatchState {
    /// The files of the batch, in order.
    pub paths: Seq<String>,
    /// How many files have been parsed with success.
    pub next: nat,
    /// The records collected so far.
    pub records: Seq<InfNfse>,
    /// The failure that stopped the batch, if any.
    pub failure: Option<BatchFailure>,
}

/// A batch over `paths` before any file is parsed.
pub open spec fn start(paths: Seq<String>) -> BatchState {
    BatchState { paths, next: 0, records: Seq::empty(), failure: None }
}

/// No further file is to be parsed: one failed, or all were parsed.
pub open spec fn finished(s: BatchState) -> bool {
    s.failure is Some || s.next >= s.paths.len()
}

/// The state after the file `s.next` gave `o`. A finished batch ignores it.
pub open spec fn step(s: BatchState, o: FileOutcome) -> BatchState {
    if finished(s) {
        s
    } else {
        match o {
            Ok(doc) => BatchState { next: s.next + 1, records: s.records + doc.records(), ..s },
            Err(e) => BatchState {
                records: Seq::empty(),
                failure: Some(BatchFailure { path: s.paths[s.next as int], error: e }),
                ..s
            },
        }
    }
}

/// The state after the outcomes `outs`, one per file from the first.
pub open spec fn run(paths: Seq<String>, outs: Seq<FileOutcome>) -> BatchState
    decreases outs.len(),
{
    if outs.len() == 0 {
        start(paths)
    } else {
        step(run(paths, outs.drop_last()), outs.last())
    }
}

/// The records of a sequence of successful outcomes, file after file.
pub open spec fn all_records(outs: Seq<FileOutcome>) -> Seq<InfNfse>
    decreases outs.len(),
{
    if outs.len() == 0 {
        Seq::empty()
    } else {
        all_records(outs.drop_last()) + outs.last()->Ok_0.records()
    }
}

/// A batch in progress.
pub struct BatchRun {
    paths: Vec<String>,
    next: usize,
    records: Vec<InfNfse>,
    failure: Option<BatchFailure>,
}

impl View for BatchRun {
    type V = BatchState;

    closed spec fn view(&self) -> BatchState {
        BatchState {
            paths: self.paths@,
            next: self.next as nat,
            records: self.records@,
            failure: self.failure,
        }
    }
}

impl BatchRun {
    /// Starts a batch over `paths`; nothing is collected yet.
    pub fn new(paths: Vec<String>) -> (r: BatchRun)
        ensures
            r@ == start(paths@),
    {
        BatchRun { paths, next: 0, records: Vec::new(), failure: None }
    }

    /// The path of the file to parse next, or `None` when the batch is finished.
    pub fn next_path(&self) -> (r: Option<&str>)
        ensures
            r is None <==> finished(self@),
            r is Some ==> r->Some_0@ == self@.paths[self@.next as int]@,
    {
        if self.failure.is_some() || self.next >= self.paths.len() {
            None
        } else {
            Some(self.paths[self.next].as_str())
        }
    }

    /// Takes in what parsing the file named by `next_path` gave.
    pub fn record(&mut self, outcome: FileOutcome)
        ensures
            final(self)@ == step(old(self)@, outcome),
    {
        if self.failure.is_some() || self.next >= self.paths.len() {
            return;
        }
        match outcome {
            Ok(doc) => {
                let mut found = doc.into_records();
                self.records.append(&mut found);
                self.next = self.next + 1;
            },
            Err(error) => {
                let path = self.paths[self.next].clone();
                self.records = Vec::new();
                self.failure = Some(BatchFailure { path, error });
            },
        }
    }

    /// How the finished batch ended.
    pub fn finish(self) -> (r: BatchResult)
        requires
            finished(self@),
        ensures
            match self@.failure {
                Some(f) => r == BatchResult::Failed(f),
                None => r is Done && r->Done_0@ == self@.records,
            },
    {
        match self.failure {
            Some(f) => BatchResult::Failed(f),
            None => BatchResult::Done(self.records),
        }
    }
}

/// The state after the first `k` outcomes is one more step than after `k - 1`.
proof fn lemma_run_prefix(paths: Seq<String>, outs: Seq<FileOutcome>, k: int)
    requires
        0 <= k < outs.len(),
    ensures
        run(paths, outs.take(k + 1)) == step(run(paths, outs.take(k)), outs[k]),
{
    assert(outs.take(k + 1).drop_last() =~= outs.take(k));
}

/// When every file parses, the batch holds the records of all files,
/// concatenated in file order, and no failure.
pub proof fn lemma_batch_concatenates(paths: Seq<String>, outs: Seq<FileOutcome>)
    requires
        outs.len() <= paths.len(),
        forall|i: int| 0 <= i < outs.len() ==> (#[trigger] outs[i]) is Ok,
    ensures
        run(paths, outs) == (BatchState {
            paths,
            next: outs.len(),
            records: all_records(outs),
            failure: None,
        }),
    decreases outs.len(),
{
    if outs.len() > 0 {
        let front = outs.drop_last();
        assert forall|i: int| 0 <= i < front.len() implies (#[trigger] front[i]) is Ok by {
            assert(front[i] == outs[i]);
        }
        lemma_batch_concatenates(paths, front);
        assert(outs.last() is Ok);
    }
}

/// The first failing file ends the batch: nothing collected is kept, the
/// failure names that file and carries its error, no later file is asked
/// for, and later outcomes change nothing.
pub proof fn lemma_batch_stops_at_first_failure(
    paths: Seq<String>,
    outs: Seq<FileOutcome>,
    i: int,
)
    requires
        outs.len() <= paths.len(),
        0 <= i < outs.len(),
        forall|j: int| 0 <= j < i ==> (#[trigger] outs[j]) is Ok,
        outs[i] is Err,
    ensures
        run(paths, outs) == run(paths, outs.take(i + 1)),
        finished(run(paths, outs.take(i + 1))),
        run(paths, outs).records == Seq::<InfNfse>::empty(),
        run(paths, outs).next == i,
        run(paths, outs).failure == Some(BatchFailure { path: paths[i], error: outs[i]->Err_0 }),
    decreases outs.len(),
{
    let front = outs.take(i);
    assert forall|j: int| 0 <= j < front.len() implies (#[trigger] front[j]) is Ok by {
        assert(front[j] == outs[j]);
    }
    lemma_batch_concatenates(paths, front);
    lemma_run_prefix(paths, outs, i);
    if outs.len() > i + 1 {
        let shorter = outs.drop_last();
        assert forall|j: int| 0 <= j < i implies (#[trigger] shorter[j]) is Ok by {
            assert(shorter[j] == outs[j]);
        }
        lemma_batch_stops_at_first_failure(paths, shorter, i);
        assert(shorter.take(i + 1) =~= outs.take(i + 1));
    } else {
        assert(outs.take(i + 1) =~= outs);
    }
}

} // verus!
