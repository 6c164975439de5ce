//! The synchronisation engine: which catalog entry goes to which worker, what
//! is asked of the remote platform for it, and what a reply changes.
//!
//! The engine holds the catalog, the fingerprints on record and the entries
//! for code generation. Workers share it under one lock: a worker takes a job
//! with [`SyncEngine::next_job`], lets go of the lock while it talks to the
//! remote platform, and takes the lock again to hand in the outcome with
//! [`SyncEngine::complete`]. Progress that was made is kept when a run fails:
//! an entry that was created remotely keeps its identifier, so that a later
//! run does not create it a second time.

use crate::code::{code_entry, code_entry_spec, code_view, ProductCodeMap, ProductCodeView};
use crate::lock::{fingerprint, get_product_hash, needs_sync, should_sync, store_view};
use crate::products::{catalog_view, ProductJson, ProductJsonView, ProductKind};
use crate::roblox::api::{
    error_message, start_spec, Exchange, ExchangeView, Operation, RemoteError, RemoteErrorView,
    RemoteInfo,
};
use crate::roblox::RemoteInfoView;
use crate::text::{decimal, push_decimal};
use std::collections::HashMap;
use vstd::prelude::*;
use vstd::string::*;

verus! {

/// The size of the worker pool.
pub const MAX_WORKERS: usize = 1;

/// How far a job has come.
#[derive(Clone, Copy, Debug, PartialEq, Eq, Structural)]
pub enum JobStatus {
    /// Not yet given to a worker.
    Queued,
    /// Given to a worker that is talking to the remote platform.
    InFlight,
    /// Done without a remote call: nothing had changed, or the kind is not
    /// one that the remote platform knows.
    Skipped,
    /// Done: the remote platform has the entry as the catalog states it.
    Synced,
    /// The remote operation failed.
    Failed,
}

/// What is to happen with an entry.
#[derive(Clone, Copy, Debug, PartialEq, Eq, Structural)]
pub enum Plan {
    /// Nothing: the entry is on record with the fingerprint it has now.
    Unchanged,
    /// Nothing: the entry's kind is not one that the remote platform knows.
    UnknownKind,
    /// A remote operation.
    Call { kind: ProductKind, operation: Operation },
}

/// The plan for an entry, given the fingerprints on record. The fingerprint
/// is looked at first: an entry that is on record unchanged is left alone
/// whatever its kind. An entry without a remote identifier is created, one
/// with an identifier is updated.
pub open spec fn plan_of(entry: ProductJsonView, store: Map<int, Seq<char>>) -> Plan {
    if !needs_sync(entry, store) {
        Plan::Unchanged
    } else {
        match entry.kind() {
            None => Plan::UnknownKind,
            Some(kind) => Plan::Call { kind, operation: operation_of(entry) },
        }
    }
}

/// The remote operation that brings an entry up to date.
pub open spec fn operation_of(entry: ProductJsonView) -> Operation {
    if entry.id <= 0 {
        Operation::Create
    } else {
        Operation::Update { id: entry.id as i64 }
    }
}

/// Decides what is to happen with an entry.
pub fn plan(product: &ProductJson, hashes: &HashMap<i64, String>) -> (plan: Plan)
    ensures
        plan == plan_of(product@, store_view(hashes@)),
{
    if !should_sync(product, hashes) {
        Plan::Unchanged
    } else {
        match product.kind() {
            None => Plan::UnknownKind,
            Some(kind) => {
                let operation = if product.id > 0 {
                    Operation::Update { id: product.id }
                } else {
                    Operation::Create
                };
                Plan::Call { kind, operation }
            },
        }
    }
}

/// A failure of a run: the operation that failed, the entry it was for, and
/// what went wrong.
#[derive(Debug)]
pub struct SyncError {
    pub operation: Operation,
    pub entry_name: String,
    pub cause: RemoteError,
}

/// Mathematical value of a [`SyncError`].
pub struct SyncErrorView {
    pub operation: Operation,
    pub entry_name: Seq<char>,
    pub cause: RemoteErrorView,
}

impl View for SyncError {
    type V = SyncErrorView;

    open spec fn view(&self) -> SyncErrorView {
        SyncErrorView {
            operation: self.operation,
            entry_name: self.entry_name@,
            cause: self.cause@,
        }
    }
}

impl Clone for SyncError {
    fn clone(&self) -> (copy: Self)
        ensures
            copy@ == self@,
    {
        SyncError {
            operation: self.operation,
            entry_name: self.entry_name.clone(),
            cause: self.cause.clone(),
        }
    }
}

/// How an operation is named to the user.
pub open spec fn operation_text(operation: Operation) -> Seq<char> {
    match operation {
        Operation::Create => "create"@,
        Operation::Update { id } => "update "@ + decimal(id as int),
    }
}

/// The text that reports a failure of a run to the user: the operation, the
/// entry's name in quotes, and what went wrong.
pub open spec fn sync_error_message(error: SyncErrorView) -> Seq<char> {
    "Failed to "@ + operation_text(error.operation) + " \""@ + error.entry_name + "\": "@
        + error_message(error.cause)
}

impl SyncError {
    /// Renders the failure for the user.
    pub fn message(&self) -> (text: String)
        ensures
            text@ == sync_error_message(self@),
    {
        let mut text = String::from_str("Failed to ");
        match self.operation {
            Operation::Create => {
                text.append("create");
            },
            Operation::Update { id } => {
                text.append("update ");
                push_decimal(&mut text, id);
            },
        }
        text.append(" \"");
        text.append(self.entry_name.as_str());
        text.append("\": ");
        let cause = self.cause.message();
        text.append(cause.as_str());
        assert(text@ =~= sync_error_message(self@));
        text
    }
}

/// Why a job was done without a remote call.
#[derive(Debug)]
pub enum SkipReason {
    /// The entry is on record with the fingerprint it has now.
    Unchanged,
    /// The entry's kind, given here, is not one that the remote platform
    /// knows. This is worth a line in the log and is no failure.
    UnknownKind { product_type: String },
}

/// Mathematical value of a [`SkipReason`].
pub enum SkipReasonView {
    Unchanged,
    UnknownKind { product_type: Seq<char> },
}

impl View for SkipReason {
    type V = SkipReasonView;

    open spec fn view(&self) -> SkipReasonView {
        match self {
            SkipReason::Unchanged => SkipReasonView::Unchanged,
            SkipReason::UnknownKind { product_type } => SkipReasonView::UnknownKind {
                product_type: product_type@,
            },
        }
    }
}

/// What a worker is told when it asks for a job.
#[derive(Debug)]
pub enum Dispatch {
    /// There is nothing for this worker: the queue is empty, or the worker
    /// has failed before, or it is not of the pool.
    Drained,
    /// The job with this index is done already, without a remote call.
    Skipped { index: usize, reason: SkipReason },
    /// The job with this index takes the remote operation that `exchange`
    /// begins; its outcome is to be handed in.
    Call { index: usize, exchange: Exchange },
}

/// Mathematical value of a [`Dispatch`].
pub enum DispatchView {
    Drained,
    Skipped { index: nat, reason: SkipReasonView },
    Call { index: nat, exchange: ExchangeView },
}

impl View for Dispatch {
    type V = DispatchView;

    open spec fn view(&self) -> DispatchView {
        match self {
            Dispatch::Drained => DispatchView::Drained,
            Dispatch::Skipped { index, reason } => DispatchView::Skipped {
                index: *index as nat,
                reason: reason@,
            },
            Dispatch::Call { index, exchange } => DispatchView::Call {
                index: *index as nat,
                exchange: exchange@,
            },
        }
    }
}

/// Mathematical value of a [`SyncEngine`].
pub struct EngineView {
    pub universe_id: i64,
    pub api_key: Seq<char>,
    /// The catalog, in order.
    pub products: Seq<ProductJsonView>,
    /// The fingerprints on record, by remote identifier.
    pub hashes: Map<int, Seq<char>>,
    /// The developer products touched in this run, by remote identifier.
    pub products_map: Map<int, ProductCodeView>,
    /// The game passes touched in this run, by remote identifier.
    pub passes_map: Map<int, ProductCodeView>,
    /// The status of the job of each entry.
    pub jobs: Seq<JobStatus>,
    /// The worker that each job was given to, once it was given to one.
    pub owners: Seq<Option<nat>>,
    /// The queue: the jobs from this index on wait for a worker.
    pub next: nat,
    /// For each worker of the pool, whether it has failed and takes no more
    /// jobs.
    pub stopped: Seq<bool>,
    /// The first failure of the run.
    pub error: Option<SyncErrorView>,
}

impl EngineView {
    /// What holds of every engine: each entry has one job; the jobs before
    /// the queue's head have been given to a worker of the pool and are no
    /// longer queued, the others are queued and have no owner; and a job in
    /// flight is for an entry whose kind the remote platform knows.
    pub open spec fn wf(self) -> bool {
        &&& self.jobs.len() == self.products.len()
        &&& self.owners.len() == self.products.len()
        &&& self.next <= self.products.len()
        &&& forall|i: int|
            0 <= i < self.jobs.len() ==> (i < self.next <==> #[trigger] self.jobs[i]
                != JobStatus::Queued)
        &&& forall|i: int|
            0 <= i < self.owners.len() ==> (i < self.next <==> (#[trigger] self.owners[i]) is Some)
        &&& forall|i: int|
            0 <= i < self.owners.len() && (#[trigger] self.owners[i]) is Some ==> self.owners[i]->0
                < self.stopped.len()
        &&& forall|i: int|
            0 <= i < self.jobs.len() && #[trigger] self.jobs[i] == JobStatus::InFlight
                ==> self.products[i].kind() is Some
    }

    /// Whether a worker may be given a job: it is of the pool and has not
    /// failed.
    pub open spec fn may_take(self, worker: nat) -> bool {
        worker < self.stopped.len() && !self.stopped[worker as int]
    }
}

/// An engine before its run: every job is queued, nothing has been touched,
/// no worker has failed.
pub open spec fn init_spec(
    universe_id: i64,
    api_key: Seq<char>,
    products: Seq<ProductJsonView>,
    hashes: Map<int, Seq<char>>,
    workers: nat,
) -> EngineView {
    EngineView {
        universe_id,
        api_key,
        products,
        hashes,
        products_map: Map::empty(),
        passes_map: Map::empty(),
        jobs: Seq::new(products.len(), |i: int| JobStatus::Queued),
        owners: Seq::new(products.len(), |i: int| None),
        next: 0,
        stopped: Seq::new(workers, |i: int| false),
        error: None,
    }
}

/// The engine after the job at the queue's head was given to `worker` and
/// took the given status.
pub open spec fn taken(s: EngineView, worker: nat, status: JobStatus) -> EngineView {
    EngineView {
        jobs: s.jobs.update(s.next as int, status),
        owners: s.owners.update(s.next as int, Some(worker)),
        next: s.next + 1,
        ..s
    }
}

/// What a worker that asks for a job is told, and the engine afterwards.
///
/// A worker that may not take a job, or that finds the queue empty, is told
/// so and nothing changes. Otherwise the job at the queue's head is given to
/// it. The plan for the entry decides: without a remote operation the job is
/// done at once as skipped; with one it is in flight, and the worker gets the
/// exchange that begins the operation with the entry's payload.
pub open spec fn next_job_spec(s: EngineView, worker: nat) -> (EngineView, DispatchView) {
    if !s.may_take(worker) || s.next >= s.products.len() {
        (s, DispatchView::Drained)
    } else {
        let entry = s.products[s.next as int];
        match plan_of(entry, s.hashes) {
            Plan::Unchanged => (
                taken(s, worker, JobStatus::Skipped),
                DispatchView::Skipped { index: s.next, reason: SkipReasonView::Unchanged },
            ),
            Plan::UnknownKind => (
                taken(s, worker, JobStatus::Skipped),
                DispatchView::Skipped {
                    index: s.next,
                    reason: SkipReasonView::UnknownKind { product_type: entry.product_type },
                },
            ),
            Plan::Call { kind, operation } => (
                taken(s, worker, JobStatus::InFlight),
                DispatchView::Call {
                    index: s.next,
                    exchange: start_spec(
                        kind,
                        s.universe_id,
                        operation,
                        s.api_key,
                        entry.payload(),
                    ),
                },
            ),
        }
    }
}

/// The engine after the remote operation of a job in flight succeeded with
/// `info`: the entry carries the identifier that the remote platform reports,
/// its fingerprint is on record under that identifier, and the map of its
/// kind holds the entry for code generation.
pub open spec fn committed(s: EngineView, index: nat, info: RemoteInfoView) -> EngineView {
    let entry = s.products[index as int];
    EngineView {
        products: s.products.update(index as int, entry.with_id(info.id)),
        hashes: s.hashes.insert(info.id, fingerprint(entry)),
        products_map: if entry.kind() == Some(ProductKind::Product) {
            s.products_map.insert(info.id, code_entry_spec(info))
        } else {
            s.products_map
        },
        passes_map: if entry.kind() == Some(ProductKind::Gamepass) {
            s.passes_map.insert(info.id, code_entry_spec(info))
        } else {
            s.passes_map
        },
        jobs: s.jobs.update(index as int, JobStatus::Synced),
        ..s
    }
}

/// The engine after the remote operation of a job in flight failed: the
/// worker that had the job takes no more jobs, and the failure is on record
/// if it is the first. Catalog, fingerprints and code entries stay as they
/// are.
pub open spec fn failed(s: EngineView, index: nat, cause: RemoteErrorView) -> EngineView {
    let entry = s.products[index as int];
    EngineView {
        jobs: s.jobs.update(index as int, JobStatus::Failed),
        stopped: match s.owners[index as int] {
            Some(worker) => if worker < s.stopped.len() {
                s.stopped.update(worker as int, true)
            } else {
                s.stopped
            },
            None => s.stopped,
        },
        error: match s.error {
            Some(first) => Some(first),
            None => Some(
                SyncErrorView { operation: operation_of(entry), entry_name: entry.name, cause },
            ),
        },
        ..s
    }
}

/// Whether an outcome is taken in: it has to be for a job in flight.
pub open spec fn accepts(s: EngineView, index: nat) -> bool {
    index < s.jobs.len() && s.jobs[index as int] == JobStatus::InFlight
}

/// The engine after an outcome was handed in. An outcome for a job that is
/// not in flight changes nothing.
pub open spec fn complete_spec(
    s: EngineView,
    index: nat,
    outcome: Result<RemoteInfoView, RemoteErrorView>,
) -> EngineView {
    if !accepts(s, index) {
        s
    } else {
        match outcome {
            Ok(info) => committed(s, index, info),
            Err(cause) => failed(s, index, cause),
        }
    }
}

/// The view of an outcome.
pub open spec fn outcome_view(outcome: Result<RemoteInfo, RemoteError>) -> Result<
    RemoteInfoView,
    RemoteErrorView,
> {
    match outcome {
        Ok(info) => Ok(info@),
        Err(cause) => Err(cause@),
    }
}

/// The owners of the jobs by their views.
pub open spec fn owners_view(owners: Seq<Option<usize>>) -> Seq<Option<nat>> {
    owners.map_values(
        |owner: Option<usize>|
            match owner {
                Some(worker) => Some(worker as nat),
                None => None,
            },
    )
}

/// The state of one run of the synchronisation.
pub struct SyncEngine {
    universe_id: i64,
    api_key: String,
    products: Vec<ProductJson>,
    hashes: HashMap<i64, String>,
    products_map: HashMap<i64, ProductCodeMap>,
    passes_map: HashMap<i64, ProductCodeMap>,
    jobs: Vec<JobStatus>,
    owners: Vec<Option<usize>>,
    next: usize,
    stopped: Vec<bool>,
    error: Option<SyncError>,
}

impl View for SyncEngine {
    type V = EngineView;

    closed spec fn view(&self) -> EngineView {
        EngineView {
            universe_id: self.universe_id,
            api_key: self.api_key@,
            products: catalog_view(self.products@),
            hashes: store_view(self.hashes@),
            products_map: code_view(self.products_map@),
            passes_map: code_view(self.passes_map@),
            jobs: self.jobs@,
            owners: owners_view(self.owners@),
            next: self.next as nat,
            stopped: self.stopped@,
            error: match self.error {
                Some(error) => Some(error@),
                None => None,
            },
        }
    }
}

/// What is to be written down and handed on when a run is over.
pub struct SyncReport {
    /// The catalog, to be written back whether or not the run failed.
    pub products: Vec<ProductJson>,
    /// The fingerprints, to be written back whether or not the run failed.
    pub hashes: HashMap<i64, String>,
    /// The input of code generation: the developer products and the game
    /// passes that the run has touched. It is there only if the run did not
    /// fail.
    pub codegen: Option<(HashMap<i64, ProductCodeMap>, HashMap<i64, ProductCodeMap>)>,
    /// The first failure of the run, if there was one.
    pub error: Option<SyncError>,
}

/// Mathematical value of a [`SyncReport`].
pub struct SyncReportView {
    pub products: Seq<ProductJsonView>,
    pub hashes: Map<int, Seq<char>>,
    pub codegen: Option<(Map<int, ProductCodeView>, Map<int, ProductCodeView>)>,
    pub error: Option<SyncErrorView>,
}

impl View for SyncReport {
    type V = SyncReportView;

    open spec fn view(&self) -> SyncReportView {
        SyncReportView {
            products: catalog_view(self.products@),
            hashes: store_view(self.hashes@),
            codegen: match self.codegen {
                Some((products, passes)) => Some((code_view(products@), code_view(passes@))),
                None => None,
            },
            error: match self.error {
                Some(error) => Some(error@),
                None => None,
            },
        }
    }
}

/// What the end of a run hands on: catalog and fingerprints as they stand,
/// the first failure, and the input of code generation unless the run failed.
pub open spec fn report_spec(s: EngineView) -> SyncReportView {
    SyncReportView {
        products: s.products,
        hashes: s.hashes,
        codegen: if s.error is None {
            Some((s.products_map, s.passes_map))
        } else {
            None
        },
        error: s.error,
    }
}

impl SyncEngine {
    /// What holds of every engine; see [`EngineView::wf`].
    pub open spec fn wf(&self) -> bool {
        self@.wf()
    }

    /// Sets up a run over a catalog and the fingerprints on record, for a
    /// pool of `workers` workers, numbered from zero.
    pub fn new(
        universe_id: i64,
        api_key: &str,
        products: Vec<ProductJson>,
        hashes: HashMap<i64, String>,
        workers: usize,
    ) -> (engine: SyncEngine)
        ensures
            engine.wf(),
            engine@ == init_spec(
                universe_id,
                api_key@,
                catalog_view(products@),
                store_view(hashes@),
                workers as nat,
            ),
    {
        let mut jobs: Vec<JobStatus> = Vec::new();
        let mut owners: Vec<Option<usize>> = Vec::new();
        let mut i: usize = 0;
        while i < products.len()
            invariant
                i <= products.len(),
                jobs.len() == i,
                owners.len() == i,
                forall|j: int| 0 <= j < i ==> jobs[j] == JobStatus::Queued,
                forall|j: int| 0 <= j < i ==> owners[j] == None::<usize>,
            decreases products.len() - i,
        {
            jobs.push(JobStatus::Queued);
            owners.push(None);
            i += 1;
        }
        let mut stopped: Vec<bool> = Vec::new();
        let mut w: usize = 0;
        while w < workers
            invariant
                w <= workers,
                stopped.len() == w,
                forall|j: int| 0 <= j < w ==> !stopped[j],
            decreases workers - w,
        {
            stopped.push(false);
            w += 1;
        }
        let engine = SyncEngine {
            universe_id,
            api_key: String::from_str(api_key),
            products,
            hashes,
            products_map: HashMap::new(),
            passes_map: HashMap::new(),
            jobs,
            owners,
            next: 0,
            stopped,
            error: None,
        };
        proof {
            let model = init_spec(
                universe_id,
                api_key@,
                catalog_view(products@),
                store_view(hashes@),
                workers as nat,
            );
            assert(engine@.jobs =~= model.jobs);
            assert(engine@.owners =~= model.owners);
            assert(engine@.stopped =~= model.stopped);
            assert(engine@.products_map =~= model.products_map);
            assert(engine@.passes_map =~= model.passes_map);
        }
        engine
    }

    /// Records that the job at the queue's head goes to `worker` with the
    /// given status.
    fn take(&mut self, worker: usize, status: JobStatus)
        requires
            old(self).wf(),
            old(self)@.may_take(worker as nat),
            old(self)@.next < old(self)@.products.len(),
            status != JobStatus::Queued,
            status == JobStatus::InFlight ==> old(self)@.products[old(self)@.next as int].kind()
                is Some,
        ensures
            final(self).wf(),
            final(self)@ == taken(old(self)@, worker as nat, status),
    {
        let index = self.next;
        assert(index < self.products.len()) by {
            assert(catalog_view(self.products@).len() == self.products@.len());
        }
        self.jobs.set(index, status);
        self.owners.set(index, Some(worker));
        self.next = index + 1;
        proof {
            let model = taken(old(self)@, worker as nat, status);
            assert(self@.jobs =~= model.jobs);
            assert(self@.owners =~= model.owners);
        }
    }

    /// Gives the next job to a worker that asks for one.
    pub fn next_job(&mut self, worker: usize) -> (dispatch: Dispatch)
        requires
            old(self).wf(),
        ensures
            final(self).wf(),
            final(self)@ == next_job_spec(old(self)@, worker as nat).0,
            dispatch@ == next_job_spec(old(self)@, worker as nat).1,
    {
        if worker >= self.stopped.len() || self.stopped[worker] || self.next >= self.products.len() {
            return Dispatch::Drained;
        }
        let index = self.next;
        let decision = plan(&self.products[index], &self.hashes);
        match decision {
            Plan::Unchanged => {
                self.take(worker, JobStatus::Skipped);
                Dispatch::Skipped { index, reason: SkipReason::Unchanged }
            },
            Plan::UnknownKind => {
                let product_type = self.products[index].product_type.clone();
                self.take(worker, JobStatus::Skipped);
                Dispatch::Skipped { index, reason: SkipReason::UnknownKind { product_type } }
            },
            Plan::Call { kind, operation } => {
                let data = self.products[index].payload();
                let exchange = Exchange::start(
                    kind,
                    self.universe_id,
                    operation,
                    self.api_key.as_str(),
                    &data,
                );
                self.take(worker, JobStatus::InFlight);
                Dispatch::Call { index, exchange }
            },
        }
    }

    /// Takes in the success of the job in flight at `index`.
    fn commit(&mut self, index: usize, info: RemoteInfo)
        requires
            old(self).wf(),
            accepts(old(self)@, index as nat),
        ensures
            final(self).wf(),
            final(self)@ == committed(old(self)@, index as nat, info@),
    {
        broadcast use vstd::std_specs::hash::group_hash_axioms;

        let entry = &self.products[index];
        let hash = get_product_hash(entry);
        let kind = entry.kind();
        let updated = ProductJson {
            name: entry.name.clone(),
            description: entry.description.clone(),
            product_type: entry.product_type.clone(),
            image: entry.image.clone(),
            price: entry.price,
            regional_pricing: entry.regional_pricing,
            id: info.id,
        };
        let code = code_entry(&info);
        let ghost before = self@;
        let ghost old_hashes = self.hashes@;
        let ghost old_products_map = self.products_map@;
        let ghost old_passes_map = self.passes_map@;
        self.hashes.insert(info.id, hash);
        match kind {
            Some(ProductKind::Product) => {
                self.products_map.insert(info.id, code);
            },
            Some(ProductKind::Gamepass) => {
                self.passes_map.insert(info.id, code);
            },
            None => {},
        }
        self.products.set(index, updated);
        self.jobs.set(index, JobStatus::Synced);
        proof {
            let model = committed(before, index as nat, info@);
            assert(self@.products =~= model.products);
            assert(self@.hashes =~= model.hashes);
            assert(self@.products_map =~= model.products_map);
            assert(self@.passes_map =~= model.passes_map);
            assert(self@.jobs =~= model.jobs);
        }
    }

    /// Takes in the failure of the job in flight at `index`.
    fn fail(&mut self, index: usize, cause: RemoteError)
        requires
            old(self).wf(),
            accepts(old(self)@, index as nat),
        ensures
            final(self).wf(),
            final(self)@ == failed(old(self)@, index as nat, cause@),
    {
        let ghost before = self@;
        self.jobs.set(index, JobStatus::Failed);
        match self.owners[index] {
            Some(worker) => {
                if worker < self.stopped.len() {
                    self.stopped.set(worker, true);
                }
            },
            None => {},
        }
        if self.error.is_none() {
            let entry = &self.products[index];
            let operation = if entry.id > 0 {
                Operation::Update { id: entry.id }
            } else {
                Operation::Create
            };
            self.error = Some(SyncError { operation, entry_name: entry.name.clone(), cause });
        }
        proof {
            let model = failed(before, index as nat, cause@);
            assert(self@.jobs =~= model.jobs);
            assert(self@.stopped =~= model.stopped);
        }
    }

    /// Hands in the outcome of the remote operation of the job at `index`.
    /// The answer says whether the outcome was taken in; it is not where no
    /// job is in flight at `index`.
    pub fn complete(&mut self, index: usize, outcome: Result<RemoteInfo, RemoteError>) -> (taken_in:
        bool)
        requires
            old(self).wf(),
        ensures
            final(self).wf(),
            final(self)@ == complete_spec(old(self)@, index as nat, outcome_view(outcome)),
            taken_in == accepts(old(self)@, index as nat),
    {
        if index >= self.jobs.len() {
            return false;
        }
        match self.jobs[index] {
            JobStatus::InFlight => {},
            _ => {
                return false;
            },
        }
        match outcome {
            Ok(info) => self.commit(index, info),
            Err(cause) => self.fail(index, cause),
        }
        true
    }

    /// The status of the job at `index`, if the catalog has such an entry.
    pub fn status(&self, index: usize) -> (status: Option<JobStatus>)
        ensures
            status == if index < self@.jobs.len() {
                Some(self@.jobs[index as int])
            } else {
                None
            },
    {
        if index < self.jobs.len() {
            Some(self.jobs[index])
        } else {
            None
        }
    }

    /// The catalog as it stands.
    pub fn products(&self) -> (products: &Vec<ProductJson>)
        ensures
            catalog_view(products@) == self@.products,
    {
        &self.products
    }

    /// The fingerprints on record as they stand.
    pub fn hashes(&self) -> (hashes: &HashMap<i64, String>)
        ensures
            store_view(hashes@) == self@.hashes,
    {
        &self.hashes
    }

    /// Whether every job has been given to a worker.
    pub fn is_drained(&self) -> (drained: bool)
        requires
            self.wf(),
        ensures
            drained == (self@.next == self@.products.len()),
    {
        assert(catalog_view(self.products@).len() == self.products@.len());
        self.next >= self.products.len()
    }

    /// Ends the run and says what is to be written down and handed on.
    pub fn finish(self) -> (report: SyncReport)
        ensures
            report@ == report_spec(self@),
    {
        let codegen = if self.error.is_none() {
            Some((self.products_map, self.passes_map))
        } else {
            None
        };
        SyncReport { products: self.products, hashes: self.hashes, codegen, error: self.error }
    }
}

/// One thing that happens to an engine in the course of a run.
pub enum Op {
    /// A worker asks for a job.
    Ask { worker: nat },
    /// The outcome of a remote operation is handed in.
    HandIn { index: nat, outcome: Result<RemoteInfoView, RemoteErrorView> },
}

/// The engine after one thing has happened.
pub open spec fn apply(s: EngineView, op: Op) -> EngineView {
    match op {
        Op::Ask { worker } => next_job_spec(s, worker).0,
        Op::HandIn { index, outcome } => complete_spec(s, index, outcome),
    }
}

/// The engine after a sequence of things has happened, in any interleaving of
/// the workers.
pub open spec fn run_spec(s: EngineView, ops: Seq<Op>) -> EngineView
    decreases ops.len(),
{
    if ops.len() == 0 {
        s
    } else {
        apply(run_spec(s, ops.drop_last()), ops.last())
    }
}

/// The job that a worker is given by what happens, if it is given one.
pub open spec fn given(s: EngineView, op: Op) -> Option<nat> {
    match op {
        Op::Ask { worker } => match next_job_spec(s, worker).1 {
            DispatchView::Drained => None,
            DispatchView::Skipped { index, .. } => Some(index),
            DispatchView::Call { index, .. } => Some(index),
        },
        Op::HandIn { .. } => None,
    }
}

/// How often the job with the given index is given to a worker in the course
/// of a run.
pub open spec fn times_given(s: EngineView, ops: Seq<Op>, index: nat) -> nat
    decreases ops.len(),
{
    if ops.len() == 0 {
        0
    } else {
        let before = run_spec(s, ops.drop_last());
        let now: nat = if given(before, ops.last()) == Some(index) {
            1
        } else {
            0
        };
        times_given(s, ops.drop_last(), index) + now
    }
}

/// How many remote operations are begun in the course of a run.
pub open spec fn calls_begun(s: EngineView, ops: Seq<Op>) -> nat
    decreases ops.len(),
{
    if ops.len() == 0 {
        0
    } else {
        let before = run_spec(s, ops.drop_last());
        let now: nat = match ops.last() {
            Op::Ask { worker } => if next_job_spec(before, worker).1 is Call {
                1
            } else {
                0
            },
            Op::HandIn { .. } => 0,
        };
        calls_begun(s, ops.drop_last()) + now
    }
}

/// Whatever happens to an engine, what holds of every engine holds of it
/// afterwards; the queue's head does not move back; and a job that has been
/// given to a worker stays with that worker.
pub proof fn lemma_apply_wf(s: EngineView, op: Op)
    requires
        s.wf(),
    ensures
        apply(s, op).wf(),
        s.next <= apply(s, op).next,
        apply(s, op).products.len() == s.products.len(),
        forall|i: int| 0 <= i < s.next ==> apply(s, op).owners[i] == s.owners[i],
        given(s, op) matches Some(index) ==> {
            &&& index == s.next
            &&& apply(s, op).next == s.next + 1
            &&& op matches Op::Ask { worker }
            &&& apply(s, op).owners[index as int] == Some(worker)
            &&& s.may_take(worker)
        },
        given(s, op) is None ==> apply(s, op).next == s.next,
{
    let t = apply(s, op);
    match op {
        Op::Ask { worker } => {
            if s.may_take(worker) && s.next < s.products.len() {
                let entry = s.products[s.next as int];
                assert(s.jobs[s.next as int] == JobStatus::Queued);
                assert forall|i: int| 0 <= i < t.jobs.len() implies (i < t.next
                    <==> #[trigger] t.jobs[i] != JobStatus::Queued) by {
                    if i != s.next {
                        assert(t.jobs[i] == s.jobs[i]);
                    }
                }
                assert forall|i: int| 0 <= i < t.owners.len() implies (i < t.next <==> (
                #[trigger] t.owners[i]) is Some) by {
                    if i != s.next {
                        assert(t.owners[i] == s.owners[i]);
                    }
                }
                assert forall|i: int|
                    0 <= i < t.owners.len() && (#[trigger] t.owners[i]) is Some implies t.owners[i]->0
                    < t.stopped.len() by {
                    if i != s.next {
                        assert(t.owners[i] == s.owners[i]);
                    }
                }
                assert forall|i: int|
                    0 <= i < t.jobs.len() && #[trigger] t.jobs[i]
                        == JobStatus::InFlight implies t.products[i].kind() is Some by {
                    if i != s.next {
                        assert(t.jobs[i] == s.jobs[i]);
                    }
                }
            }
        },
        Op::HandIn { index, outcome } => {
            if accepts(s, index) {
                assert forall|i: int| 0 <= i < t.jobs.len() implies (i < t.next
                    <==> #[trigger] t.jobs[i] != JobStatus::Queued) by {
                    if i != index {
                        assert(t.jobs[i] == s.jobs[i]);
                    }
                }
                assert forall|i: int| 0 <= i < t.owners.len() implies (i < t.next <==> (
                #[trigger] t.owners[i]) is Some) by {
                    assert(t.owners[i] == s.owners[i]);
                }
                assert forall|i: int|
                    0 <= i < t.owners.len() && (#[trigger] t.owners[i]) is Some implies t.owners[i]->0
                    < t.stopped.len() by {
                    assert(t.owners[i] == s.owners[i]);
                }
                assert forall|i: int|
                    0 <= i < t.jobs.len() && #[trigger] t.jobs[i]
                        == JobStatus::InFlight implies t.products[i].kind() is Some by {
                    assert(i != index);
                    assert(t.jobs[i] == s.jobs[i]);
                    assert(t.products[i] == s.products[i]);
                }
            }
        },
    }
}

/// The fingerprints on record change only when a success is taken in, and
/// then only under the identifier that the remote platform reports: a skip, a
/// failure and an outcome that is not taken in leave them as they are.
pub proof fn lemma_store_written_on_success(s: EngineView, op: Op)
    ensures
        apply(s, op).hashes != s.hashes ==> {
            &&& op matches Op::HandIn { index, outcome: Ok(info) }
            &&& accepts(s, index)
            &&& apply(s, op).hashes == s.hashes.insert(
                info.id,
                fingerprint(s.products[index as int]),
            )
        },
        !(op matches Op::HandIn { outcome: Ok(_), .. }) ==> apply(s, op).products == s.products,
{
}

/// In any run, in any interleaving of any number of workers, every job is
/// given to a worker at most once: exactly once if the queue's head has
/// passed it, never if it has not. A job that had been given out before the
/// run is not given out again, and every job stays with the worker it was
/// given to.
pub proof fn lemma_at_most_once(s: EngineView, ops: Seq<Op>, index: nat)
    requires
        s.wf(),
    ensures
        run_spec(s, ops).wf(),
        s.next <= run_spec(s, ops).next,
        run_spec(s, ops).products.len() == s.products.len(),
        times_given(s, ops, index) == (if s.next <= index < run_spec(s, ops).next {
            1nat
        } else {
            0nat
        }),
        index < s.next ==> run_spec(s, ops).owners[index as int] == s.owners[index as int],
    decreases ops.len(),
{
    if ops.len() > 0 {
        lemma_at_most_once(s, ops.drop_last(), index);
        lemma_apply_wf(run_spec(s, ops.drop_last()), ops.last());
    }
}

/// A run that starts with every job queued and ends with the queue empty has
/// given every job of the catalog to exactly one worker of the pool.
pub proof fn lemma_exactly_once(s: EngineView, ops: Seq<Op>, index: nat)
    requires
        s.wf(),
        s.next == 0,
        run_spec(s, ops).next == s.products.len(),
        index < s.products.len(),
    ensures
        times_given(s, ops, index) == 1,
        ({
            &&& run_spec(s, ops).owners[index as int] matches Some(worker)
            &&& worker < run_spec(s, ops).stopped.len()
        }),
{
    lemma_at_most_once(s, ops, index);
    let end = run_spec(s, ops);
    assert(end.owners[index as int] is Some);
}

/// A catalog and a record of fingerprints over which a run begins no remote
/// operation.
pub open spec fn quiet(products: Seq<ProductJsonView>, hashes: Map<int, Seq<char>>) -> bool {
    forall|i: int| 0 <= i < products.len() ==> !(#[trigger] plan_of(products[i], hashes) is Call)
}

/// A job that is done calls for no remote operation as things stand.
pub open spec fn settled(s: EngineView, i: int) -> bool {
    (s.jobs[i] == JobStatus::Skipped || s.jobs[i] == JobStatus::Synced) ==> !(plan_of(
        s.products[i],
        s.hashes,
    ) is Call)
}

/// The remote platform hands out identifiers as it should: a success that is
/// taken in reports a positive identifier that no other entry of the catalog
/// holds.
pub open spec fn fresh(s: EngineView, op: Op) -> bool {
    match op {
        Op::HandIn { index, outcome: Ok(info) } => accepts(s, index) ==> info.id > 0 && forall|
            j: int,
        |
            0 <= j < s.products.len() && j != index ==> (#[trigger] s.products[j]).id != info.id,
        _ => true,
    }
}

/// Whether the remote platform hands out identifiers as it should all through
/// a run.
pub open spec fn fresh_run(s: EngineView, ops: Seq<Op>) -> bool
    decreases ops.len(),
{
    if ops.len() == 0 {
        true
    } else {
        fresh_run(s, ops.drop_last()) && fresh(run_spec(s, ops.drop_last()), ops.last())
    }
}

proof fn lemma_apply_settled(s: EngineView, op: Op)
    requires
        s.wf(),
        fresh(s, op),
        forall|i: int| 0 <= i < s.jobs.len() ==> #[trigger] settled(s, i),
    ensures
        forall|i: int| 0 <= i < apply(s, op).jobs.len() ==> #[trigger] settled(apply(s, op), i),
{
    let t = apply(s, op);
    lemma_apply_wf(s, op);
    assert forall|i: int| 0 <= i < t.jobs.len() implies #[trigger] settled(t, i) by {
        assert(settled(s, i));
        match op {
            Op::Ask { worker } => {},
            Op::HandIn { index, outcome } => {
                if accepts(s, index) {
                    match outcome {
                        Ok(info) => {
                            let entry = s.products[index as int];
                            if i == index {
                                assert(t.products[i] == entry.with_id(info.id));
                                assert(fingerprint(entry.with_id(info.id)) == fingerprint(entry));
                                assert(t.hashes[info.id] == fingerprint(entry));
                                assert(!needs_sync(t.products[i], t.hashes));
                            } else {
                                assert(t.products[i] == s.products[i]);
                                assert(s.products[i].id != info.id);
                                assert(needs_sync(t.products[i], t.hashes) == needs_sync(
                                    s.products[i],
                                    s.hashes,
                                ));
                            }
                        },
                        Err(cause) => {},
                    }
                }
            },
        }
    }
}

proof fn lemma_run_settled(s: EngineView, ops: Seq<Op>)
    requires
        s.wf(),
        fresh_run(s, ops),
        forall|i: int| 0 <= i < s.jobs.len() ==> #[trigger] settled(s, i),
    ensures
        run_spec(s, ops).wf(),
        forall|i: int| 0 <= i < run_spec(s, ops).jobs.len() ==> #[trigger] settled(
            run_spec(s, ops),
            i,
        ),
    decreases ops.len(),
{
    if ops.len() > 0 {
        lemma_run_settled(s, ops.drop_last());
        lemma_at_most_once(s, ops.drop_last(), 0);
        lemma_apply_wf(run_spec(s, ops.drop_last()), ops.last());
        lemma_apply_settled(run_spec(s, ops.drop_last()), ops.last());
    }
}

/// Over a quiet catalog no remote operation is ever begun: whatever the
/// workers ask and hand in, catalog and fingerprints stay as they are and
/// every job is skipped.
pub proof fn lemma_quiet_run(s: EngineView, ops: Seq<Op>)
    requires
        s.wf(),
        quiet(s.products, s.hashes),
        forall|i: int| 0 <= i < s.jobs.len() ==> s.jobs[i] != JobStatus::InFlight,
    ensures
        calls_begun(s, ops) == 0,
        run_spec(s, ops).products == s.products,
        run_spec(s, ops).hashes == s.hashes,
        run_spec(s, ops).products_map == s.products_map,
        run_spec(s, ops).passes_map == s.passes_map,
        run_spec(s, ops).error == s.error,
        forall|i: int|
            0 <= i < run_spec(s, ops).jobs.len() ==> run_spec(s, ops).jobs[i]
                != JobStatus::InFlight,
    decreases ops.len(),
{
    if ops.len() > 0 {
        let before = run_spec(s, ops.drop_last());
        lemma_quiet_run(s, ops.drop_last());
        lemma_at_most_once(s, ops.drop_last(), 0);
        match ops.last() {
            Op::Ask { worker } => {
                if before.may_take(worker) && before.next < before.products.len() {
                    assert(!(plan_of(before.products[before.next as int], before.hashes) is Call));
                }
            },
            Op::HandIn { index, outcome } => {
                assert(!accepts(before, index));
            },
        }
    }
}

/// Running twice changes nothing the second time. Take a run that starts
/// with every job queued and ends with every job skipped or synchronised,
/// against a remote platform that hands out identifiers as it should. Then a
/// second run over the catalog and the fingerprints that the first has left
/// begins no remote operation, whatever its pool and its interleaving, and
/// leaves catalog and fingerprints as they are.
pub proof fn lemma_idempotent(first: EngineView, ops: Seq<Op>, workers: nat, again: Seq<Op>)
    requires
        first.wf(),
        first.next == 0,
        fresh_run(first, ops),
        forall|i: int|
            0 <= i < first.products.len() ==> {
                ||| (#[trigger] run_spec(first, ops).jobs[i]) == JobStatus::Skipped
                ||| run_spec(first, ops).jobs[i] == JobStatus::Synced
            },
    ensures
        ({
            let end = run_spec(first, ops);
            let second = init_spec(
                end.universe_id,
                end.api_key,
                end.products,
                end.hashes,
                workers,
            );
            &&& second.wf()
            &&& quiet(end.products, end.hashes)
            &&& calls_begun(second, again) == 0
            &&& run_spec(second, again).products == end.products
            &&& run_spec(second, again).hashes == end.hashes
        }),
{
    assert forall|i: int| 0 <= i < first.jobs.len() implies #[trigger] settled(first, i) by {
        assert(first.jobs[i] == JobStatus::Queued);
    }
    lemma_run_settled(first, ops);
    lemma_at_most_once(first, ops, 0);
    let end = run_spec(first, ops);
    assert forall|i: int| 0 <= i < end.products.len() implies !(#[trigger] plan_of(
        end.products[i],
        end.hashes,
    ) is Call) by {
        assert(settled(end, i));
        assert(end.jobs[i] == JobStatus::Skipped || end.jobs[i] == JobStatus::Synced);
    }
    let second = init_spec(end.universe_id, end.api_key, end.products, end.hashes, workers);
    lemma_quiet_run(second, again);
}

} // verus!
