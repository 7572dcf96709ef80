//! The registry of downloads and the steps that carry a download from pending to
//! complete or failed. The work between the steps (the network, the disk, the
//! clock) belongs to the caller, which reports each outcome as a [`Signal`] and
//! passes the events that come back on to the observer.
use vstd::prelude::*;

use crate::download::{DownloadEvent, DownloadStatus, FileDownload};
use crate::metadata::{content_length_of, suggested_name};
use crate::text::{opt_str_view, opt_view};

verus! {

#[verifier::external_type_specification]
#[verifier::external_body]
#[verifier::reject_recursive_types(K)]
#[verifier::reject_recursive_types(V)]
#[verifier::reject_recursive_types(S)]
pub struct ExDashMap<K, V, S>(dashmap::DashMap<K, V, S>);

/// The concurrent map that holds the records, keyed by identifier.
pub type RecordMap = dashmap::DashMap<String, FileDownload>;

/// The records that a registry map holds, by identifier.
pub uninterp spec fn registry_records(m: RecordMap) -> Map<
    Seq<char>,
    FileDownload,
>;

/// `v` holds each record of `m` once, in some order.
pub open spec fn lists_records(v: Seq<FileDownload>, m: Map<Seq<char>, FileDownload>) -> bool {
    &&& m.dom().finite()
    &&& v.len() == m.dom().len()
    &&& forall|i: int|
        0 <= i < v.len() ==> exists|k: Seq<char>| m.contains_key(k) && m[k] == #[trigger] v[i]
    &&& forall|k: Seq<char>|
        #[trigger] m.contains_key(k) ==> exists|i: int| 0 <= i < v.len() && v[i] == m[k]
}

/// Relies on `dashmap::DashMap::new`: a map with nothing in it.
#[verifier::external_body]
fn registry_new() -> (r: RecordMap)
    ensures
        registry_records(r) =~= Map::empty(),
{
    dashmap::DashMap::new()
}

/// Relies on `dashmap::DashMap::insert`: afterwards the key maps to the value, and
/// every other key to what it mapped to before.
#[verifier::external_body]
fn registry_insert(m: &mut RecordMap, id: String, record: FileDownload)
    ensures
        registry_records(*final(m)) == registry_records(*old(m)).insert(id@, record),
{
    m.insert(id, record);
}

/// Relies on `dashmap::DashMap::get`: the value under the key, if any.
#[verifier::external_body]
fn registry_get(m: &RecordMap, id: &str) -> (r: Option<FileDownload>)
    ensures
        r is Some <==> registry_records(*m).contains_key(id@),
        r is Some ==> r->0 == registry_records(*m)[id@],
{
    m.get(id).map(|entry| entry.value().snapshot())
}

/// Relies on `dashmap::DashMap::iter`: each value once, in an order of the map's
/// choosing.
#[verifier::external_body]
fn registry_values(m: &RecordMap) -> (r: Vec<FileDownload>)
    ensures
        lists_records(r@, registry_records(*m)),
{
    m.iter().map(|entry| entry.value().snapshot()).collect()
}

/// The least time between two progress samples of one download.
pub const PROGRESS_INTERVAL_MS: u64 = 1000;

/// Why a signal was not taken. A signal that is not taken changes nothing.
#[derive(Debug, Clone, Copy, PartialEq, Eq)]
pub enum DownloadError {
    /// No download has the identifier.
    NotFound,
    /// The download is in a status that does not take the signal.
    InvalidState,
    /// A download with the identifier is already registered.
    AlreadyRegistered,
}

/// The message that goes with an error.
pub open spec fn error_message(e: DownloadError) -> Seq<char> {
    match e {
        DownloadError::NotFound => "Download entry not found"@,
        DownloadError::InvalidState => "Download is not in a state for this step"@,
        DownloadError::AlreadyRegistered => "Download is already registered"@,
    }
}

impl DownloadError {
    /// The message that goes with this error.
    pub fn message(&self) -> (r: String)
        ensures
            r@ == error_message(*self),
    {
        match self {
            DownloadError::NotFound => "Download entry not found".to_owned(),
            DownloadError::InvalidState => "Download is not in a state for this step".to_owned(),
            DownloadError::AlreadyRegistered => "Download is already registered".to_owned(),
        }
    }
}

/// Why the manager itself ends a download.
#[derive(Debug, Clone, Copy, PartialEq, Eq)]
pub enum FailureReason {
    /// The byte count would no longer fit in a `usize`.
    Overflow,
    /// More bytes arrived than the server announced.
    SizeExceeded,
    /// The finished file does not have the expected digest.
    ChecksumMismatch,
}

/// The message that a download ends with for a reason of the manager's own.
pub open spec fn failure_text(f: FailureReason) -> Seq<char> {
    match f {
        FailureReason::Overflow => "Downloaded size does not fit in memory"@,
        FailureReason::SizeExceeded => "Received more bytes than announced"@,
        FailureReason::ChecksumMismatch => "Checksum mismatch"@,
    }
}

/// The messages that a download carries when the manager ends it itself, made
/// once and handed out as copies.
#[derive(Debug)]
pub struct FailureMessages {
    pub overflow: String,
    pub size_exceeded: String,
    pub checksum_mismatch: String,
}

impl FailureMessages {
    /// Each message has its text.
    pub open spec fn well_formed(&self) -> bool {
        &&& self.overflow@ == failure_text(FailureReason::Overflow)
        &&& self.size_exceeded@ == failure_text(FailureReason::SizeExceeded)
        &&& self.checksum_mismatch@ == failure_text(FailureReason::ChecksumMismatch)
    }

    pub fn new() -> (r: FailureMessages)
        ensures
            r.well_formed(),
    {
        FailureMessages {
            overflow: "Downloaded size does not fit in memory".to_owned(),
            size_exceeded: "Received more bytes than announced".to_owned(),
            checksum_mismatch: "Checksum mismatch".to_owned(),
        }
    }
}

/// What the caller reports of the work it did for one download.
#[derive(Debug, Clone)]
pub enum Signal {
    /// The background work has started.
    Begin,
    /// The response body starts to arrive; `now_ms` is the time on the caller's clock.
    StreamOpened { now_ms: u64 },
    /// `len` more bytes were written to disk at `now_ms`.
    Chunk { len: usize, now_ms: u64 },
    /// The response body has ended.
    StreamEnded,
    /// The written file was checked against the checksum.
    Verified { valid: bool },
    /// The work failed with `message`.
    Failed { message: String },
}

/// The sampling state of one transfer: when the last progress sample was taken,
/// and the byte count at that time.
#[derive(Debug)]
pub struct Transfer {
    pub id: String,
    pub last_emit_ms: u64,
    pub last_progress: usize,
}

impl Transfer {
    pub fn new(id: String) -> (r: Transfer)
        ensures
            r.id == id,
            r.last_emit_ms == 0,
            r.last_progress == 0,
    {
        Transfer { id, last_emit_ms: 0, last_progress: 0 }
    }
}

/// Whether a progress sample is due at `now_ms`: a full interval has passed since
/// the last one.
pub open spec fn sample_due(t: Transfer, now_ms: u64) -> bool {
    now_ms as int - t.last_emit_ms as int >= PROGRESS_INTERVAL_MS as int
}

/// A download never counts more bytes than the server announced, when it announced
/// a size.
pub open spec fn within_size(r: FileDownload) -> bool {
    r.size > 0 ==> r.progress_bytes <= r.size
}

/// The download ends with `message`: its status becomes an error, announced, and
/// followed by an error event.
pub open spec fn failed(r: FileDownload, t: Transfer, message: String) -> (
    FileDownload,
    Transfer,
    Seq<DownloadEvent>,
) {
    (
        FileDownload { status: DownloadStatus::Error(message), ..r },
        t,
        seq![
            DownloadEvent::StatusChanged { id: r.id, status: DownloadStatus::Error(message) },
            DownloadEvent::Error { id: r.id, error: message },
        ],
    )
}

/// What one signal does to a download's record and sampling state, and the events
/// it yields; or why the signal is not taken, in which case nothing changes.
/// `msgs` holds the messages of the failures that the manager decides itself.
pub open spec fn step(r: FileDownload, t: Transfer, s: Signal, msgs: FailureMessages) -> Result<
    (FileDownload, Transfer, Seq<DownloadEvent>),
    DownloadError,
> {
    match s {
        Signal::Begin => {
            if r.status is Pending {
                Ok(
                    (
                        FileDownload { status: DownloadStatus::Downloading, ..r },
                        t,
                        seq![
                            DownloadEvent::StatusChanged {
                                id: r.id,
                                status: DownloadStatus::Downloading,
                            },
                        ],
                    ),
                )
            } else {
                Err(DownloadError::InvalidState)
            }
        },
        Signal::StreamOpened { now_ms } => {
            if r.status is Downloading {
                Ok(
                    (
                        r,
                        Transfer { last_emit_ms: now_ms, last_progress: r.progress_bytes, ..t },
                        seq![],
                    ),
                )
            } else {
                Err(DownloadError::InvalidState)
            }
        },
        Signal::Chunk { len, now_ms } => {
            if !(r.status is Downloading) {
                Err(DownloadError::InvalidState)
            } else if r.progress_bytes + len > usize::MAX {
                Ok(failed(r, t, msgs.overflow))
            } else if r.size > 0 && r.progress_bytes + len > r.size {
                Ok(failed(r, t, msgs.size_exceeded))
            } else {
                let p = (r.progress_bytes + len) as usize;
                if sample_due(t, now_ms) {
                    let speed = (if p >= t.last_progress {
                        p - t.last_progress
                    } else {
                        0
                    }) as usize;
                    Ok(
                        (
                            FileDownload { progress_bytes: p, speed_bytes: speed, ..r },
                            Transfer { last_emit_ms: now_ms, last_progress: p, ..t },
                            seq![
                                DownloadEvent::Progress {
                                    id: r.id,
                                    progress_bytes: p,
                                    speed_bytes: speed,
                                },
                            ],
                        ),
                    )
                } else {
                    Ok((FileDownload { progress_bytes: p, ..r }, t, seq![]))
                }
            }
        },
        Signal::StreamEnded => {
            if r.status is Downloading {
                let last = DownloadEvent::Progress {
                    id: r.id,
                    progress_bytes: r.progress_bytes,
                    speed_bytes: 0,
                };
                let next = if r.checksum is Some {
                    DownloadStatus::Verifying
                } else {
                    DownloadStatus::Complete
                };
                Ok(
                    (
                        FileDownload { status: next, ..r },
                        t,
                        seq![last, DownloadEvent::StatusChanged { id: r.id, status: next }],
                    ),
                )
            } else {
                Err(DownloadError::InvalidState)
            }
        },
        Signal::Verified { valid } => {
            if !(r.status is Verifying) {
                Err(DownloadError::InvalidState)
            } else if valid {
                Ok(
                    (
                        FileDownload { status: DownloadStatus::Complete, ..r },
                        t,
                        seq![
                            DownloadEvent::StatusChanged {
                                id: r.id,
                                status: DownloadStatus::Complete,
                            },
                        ],
                    ),
                )
            } else {
                Ok(failed(r, t, msgs.checksum_mismatch))
            }
        },
        Signal::Failed { message } => {
            if r.status.is_terminal() {
                Err(DownloadError::InvalidState)
            } else {
                Ok(failed(r, t, message))
            }
        },
    }
}

/// A taken signal keeps a record within its announced size.
pub proof fn step_keeps_within_size(r: FileDownload, t: Transfer, s: Signal, msgs: FailureMessages)
    requires
        within_size(r),
    ensures
        step(r, t, s, msgs) matches Ok((r2, t2, e)) ==> within_size(r2) && r2.id == r.id,
{
}

fn end_with(record: FileDownload, message: String) -> (r: (FileDownload, Vec<DownloadEvent>))
    ensures
        (r.0, r.1@) == ({
            let f = failed(record, Transfer { id: record.id, last_emit_ms: 0, last_progress: 0 }, message);
            (f.0, f.2)
        }),
{
    let id = record.id.clone();
    let id2 = record.id.clone();
    let m2 = message.clone();
    let m3 = message.clone();
    let rec = FileDownload { status: DownloadStatus::Error(message), ..record };
    (
        rec,
        vec![
            DownloadEvent::StatusChanged { id, status: DownloadStatus::Error(m2) },
            DownloadEvent::Error { id: id2, error: m3 },
        ],
    )
}

/// Carries out one signal on a download's record and sampling state.
pub fn advance(record: FileDownload, t: &mut Transfer, signal: Signal, msgs: &FailureMessages) -> (r: Result<
    (FileDownload, Vec<DownloadEvent>),
    DownloadError,
>)
    ensures
        match step(record, *old(t), signal, *msgs) {
            Ok((rec, t2, events)) => r matches Ok((rec2, v)) && rec2 == rec && v@ == events
                && *final(t) == t2,
            Err(e) => r == Err::<(FileDownload, Vec<DownloadEvent>), DownloadError>(e)
                && *final(t) == *old(t),
        },
{
    match signal {
        Signal::Begin => {
            if !matches!(record.status, DownloadStatus::Pending) {
                return Err(DownloadError::InvalidState);
            }
            let id = record.id.clone();
            let rec = FileDownload { status: DownloadStatus::Downloading, ..record };
            Ok((rec, vec![DownloadEvent::StatusChanged { id, status: DownloadStatus::Downloading }]))
        },
        Signal::StreamOpened { now_ms } => {
            if !matches!(record.status, DownloadStatus::Downloading) {
                return Err(DownloadError::InvalidState);
            }
            t.last_emit_ms = now_ms;
            t.last_progress = record.progress_bytes;
            Ok((record, vec![]))
        },
        Signal::Chunk { len, now_ms } => {
            if !matches!(record.status, DownloadStatus::Downloading) {
                return Err(DownloadError::InvalidState);
            }
            if len > usize::MAX - record.progress_bytes {
                return Ok(end_with(record, msgs.overflow.clone()));
            }
            let p: usize = record.progress_bytes + len;
            if record.size > 0 && p > record.size {
                return Ok(end_with(record, msgs.size_exceeded.clone()));
            }
            if now_ms >= t.last_emit_ms && now_ms - t.last_emit_ms >= PROGRESS_INTERVAL_MS {
                let speed: usize = p.saturating_sub(t.last_progress);
                let id = record.id.clone();
                t.last_emit_ms = now_ms;
                t.last_progress = p;
                let rec = FileDownload { progress_bytes: p, speed_bytes: speed, ..record };
                Ok((rec, vec![DownloadEvent::Progress { id, progress_bytes: p, speed_bytes: speed }]))
            } else {
                Ok((FileDownload { progress_bytes: p, ..record }, vec![]))
            }
        },
        Signal::StreamEnded => {
            if !matches!(record.status, DownloadStatus::Downloading) {
                return Err(DownloadError::InvalidState);
            }
            let last = DownloadEvent::Progress {
                id: record.id.clone(),
                progress_bytes: record.progress_bytes,
                speed_bytes: 0,
            };
            let (next, announced) = if record.checksum.is_some() {
                (DownloadStatus::Verifying, DownloadStatus::Verifying)
            } else {
                (DownloadStatus::Complete, DownloadStatus::Complete)
            };
            let id = record.id.clone();
            let rec = FileDownload { status: next, ..record };
            Ok((rec, vec![last, DownloadEvent::StatusChanged { id, status: announced }]))
        },
        Signal::Verified { valid } => {
            if !matches!(record.status, DownloadStatus::Verifying) {
                return Err(DownloadError::InvalidState);
            }
            if !valid {
                return Ok(end_with(record, msgs.checksum_mismatch.clone()));
            }
            let id = record.id.clone();
            let rec = FileDownload { status: DownloadStatus::Complete, ..record };
            Ok((rec, vec![DownloadEvent::StatusChanged { id, status: DownloadStatus::Complete }]))
        },
        Signal::Failed { message } => {
            if record.status.is_finished() {
                return Err(DownloadError::InvalidState);
            }
            Ok(end_with(record, message))
        },
    }
}

/// Every record is filed under its own identifier.
pub open spec fn keyed_by_id(m: Map<Seq<char>, FileDownload>) -> bool {
    forall|k: Seq<char>| #[trigger] m.contains_key(k) ==> m[k].id@ == k
}

/// Every record is filed under its own identifier and stays within its announced
/// size.
pub open spec fn sound_registry(m: Map<Seq<char>, FileDownload>) -> bool {
    keyed_by_id(m) && forall|k: Seq<char>| #[trigger] m.contains_key(k) ==> within_size(m[k])
}

/// The registry of downloads: the one place that records their state.
pub struct DownloadManager {
    downloads: RecordMap,
    messages: FailureMessages,
}

impl View for DownloadManager {
    type V = Map<Seq<char>, FileDownload>;

    closed spec fn view(&self) -> Map<Seq<char>, FileDownload> {
        registry_records(self.downloads)
    }
}

impl DownloadManager {
    /// The messages that the manager ends downloads with.
    pub closed spec fn messages(&self) -> FailureMessages {
        self.messages
    }

    /// A registry with no downloads.
    pub fn new() -> (r: DownloadManager)
        ensures
            r@ == Map::<Seq<char>, FileDownload>::empty(),
            sound_registry(r@),
            r.messages().well_formed(),
    {
        DownloadManager { downloads: registry_new(), messages: FailureMessages::new() }
    }

    /// Registers a download once its metadata probe has answered: a fresh pending
    /// record, with nothing counted yet, takes the size and name from the probe's
    /// headers, is filed under its identifier and is announced in an `Added` event.
    /// An identifier that is already registered is refused, and nothing changes.
    pub fn start(
        &mut self,
        download: FileDownload,
        content_length_header: Option<&str>,
        content_disposition: Option<&str>,
    ) -> (r: Result<DownloadEvent, DownloadError>)
        ensures
            old(self)@.contains_key(download.id@) ==> r == Err::<DownloadEvent, DownloadError>(
                DownloadError::AlreadyRegistered,
            ) && final(self)@ == old(self)@,
            !old(self)@.contains_key(download.id@) ==> (r matches Ok(DownloadEvent::Added(rec))
                && final(self)@ == old(self)@.insert(download.id@, rec) && rec == (FileDownload {
                size: content_length_of(opt_str_view(content_length_header)),
                progress_bytes: 0,
                speed_bytes: 0,
                name: rec.name,
                status: DownloadStatus::Pending,
                ..download
            }) && opt_view(rec.name) == suggested_name(
                opt_str_view(content_disposition),
                download.url@,
            )),
            sound_registry(old(self)@) ==> sound_registry(final(self)@),
            final(self).messages() == old(self).messages(),
    {
        if registry_get(&self.downloads, download.id.as_str()).is_some() {
            return Err(DownloadError::AlreadyRegistered);
        }
        let mut record = download;
        record.progress_bytes = 0;
        record.speed_bytes = 0;
        record.status = DownloadStatus::Pending;
        record.apply_metadata(content_length_header, content_disposition);
        let id = record.id.clone();
        let announced = record.snapshot();
        registry_insert(&mut self.downloads, id, record);
        Ok(DownloadEvent::Added(announced))
    }

    /// A copy of the record of the download `id`, if there is one.
    pub fn get(&self, id: &str) -> (r: Option<FileDownload>)
        ensures
            r is Some <==> self@.contains_key(id@),
            r is Some ==> r->0 == self@[id@],
    {
        registry_get(&self.downloads, id)
    }

    /// Copies of all records, in no particular order.
    pub fn get_all(&self) -> (r: Vec<FileDownload>)
        ensures
            lists_records(r@, self@),
    {
        registry_values(&self.downloads)
    }

    /// Carries out `signal` on the download that `t` follows, and returns the events
    /// to pass on. A signal that is not taken changes nothing.
    pub fn apply(&mut self, t: &mut Transfer, signal: Signal) -> (r: Result<
        Vec<DownloadEvent>,
        DownloadError,
    >)
        ensures
            !old(self)@.contains_key(old(t).id@) ==> r == Err::<Vec<DownloadEvent>, DownloadError>(
                DownloadError::NotFound,
            ) && final(self)@ == old(self)@ && *final(t) == *old(t),
            old(self)@.contains_key(old(t).id@) ==> match step(
                old(self)@[old(t).id@],
                *old(t),
                signal,
                old(self).messages(),
            ) {
                Ok((rec, t2, events)) => r matches Ok(v) && v@ == events && final(self)@ == old(
                    self,
                )@.insert(old(t).id@, rec) && *final(t) == t2,
                Err(e) => r == Err::<Vec<DownloadEvent>, DownloadError>(e) && final(self)@ == old(
                    self,
                )@ && *final(t) == *old(t),
            },
            sound_registry(old(self)@) ==> sound_registry(final(self)@),
            final(self).messages() == old(self).messages(),
    {
        let record = match registry_get(&self.downloads, t.id.as_str()) {
            Some(record) => record,
            None => return Err(DownloadError::NotFound),
        };
        proof {
            if sound_registry(self@) {
                step_keeps_within_size(record, *t, signal, self.messages);
            }
        }
        match advance(record, t, signal, &self.messages) {
            Ok((rec, events)) => {
                let id = t.id.clone();
                registry_insert(&mut self.downloads, id, rec);
                Ok(events)
            },
            Err(e) => Err(e),
        }
    }
}

} // verus!
