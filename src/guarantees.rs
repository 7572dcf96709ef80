//! What holds of every sequence of signals: the lifecycle of a download read as a
//! whole rather than one step at a time.
use vstd::prelude::*;

use crate::download::{DownloadEvent, DownloadStatus, FileDownload};
use crate::manager::{failed, step, DownloadError, FailureMessages, Signal, Transfer, PROGRESS_INTERVAL_MS};

verus! {

/// The record, the sampling state and the events after `signals`, one at a time;
/// a signal that is not taken changes nothing.
pub open spec fn run(r: FileDownload, t: Transfer, signals: Seq<Signal>, msgs: FailureMessages) -> (
    FileDownload,
    Transfer,
    Seq<DownloadEvent>,
)
    decreases signals.len(),
{
    if signals.len() == 0 {
        (r, t, seq![])
    } else {
        match step(r, t, signals[0], msgs) {
            Ok((r2, t2, e)) => {
                let rest = run(r2, t2, signals.drop_first(), msgs);
                (rest.0, rest.1, e + rest.2)
            },
            Err(_) => run(r, t, signals.drop_first(), msgs),
        }
    }
}

/// The byte count that a progress event reports.
pub open spec fn reported(e: DownloadEvent) -> Option<usize> {
    match e {
        DownloadEvent::Progress { progress_bytes, .. } => Some(progress_bytes),
        _ => None,
    }
}

proof fn lemma_step_reports(r: FileDownload, t: Transfer, s: Signal, msgs: FailureMessages)
    ensures
        step(r, t, s, msgs) matches Ok((r2, t2, e)) ==> {
            &&& r.progress_bytes <= r2.progress_bytes
            &&& r2.id == r.id
            &&& forall|i: int|
                0 <= i < e.len() && (#[trigger] reported(e[i])) is Some ==> reported(e[i])->0
                    == r2.progress_bytes
        },
{
}

/// The byte counts that progress events report never go down, and lie between the
/// count before the signals and the count after them.
pub proof fn progress_is_monotonic(r: FileDownload, t: Transfer, signals: Seq<Signal>, msgs: FailureMessages)
    ensures
        ({
            let out = run(r, t, signals, msgs);
            &&& r.progress_bytes <= out.0.progress_bytes
            &&& forall|i: int, j: int|
                0 <= i < j < out.2.len() && (#[trigger] reported(out.2[i])) is Some && (
                #[trigger] reported(out.2[j])) is Some ==> reported(out.2[i])->0 <= reported(
                    out.2[j],
                )->0
            &&& forall|i: int|
                0 <= i < out.2.len() && (#[trigger] reported(out.2[i])) is Some ==> r.progress_bytes
                    <= reported(out.2[i])->0 <= out.0.progress_bytes
        }),
    decreases signals.len(),
{
    if signals.len() > 0 {
        lemma_step_reports(r, t, signals[0], msgs);
        match step(r, t, signals[0], msgs) {
            Ok((r2, t2, e)) => {
                progress_is_monotonic(r2, t2, signals.drop_first(), msgs);
                let rest = run(r2, t2, signals.drop_first(), msgs);
                let all = e + rest.2;
                assert forall|i: int|
                    0 <= i < all.len() && (#[trigger] reported(all[i])) is Some implies r2.progress_bytes
                    <= reported(all[i])->0 <= rest.0.progress_bytes by {
                    if i >= e.len() {
                        assert(all[i] == rest.2[i - e.len()]);
                    }
                }
                assert forall|i: int, j: int|
                    0 <= i < j < all.len() && (#[trigger] reported(all[i])) is Some && (
                    #[trigger] reported(all[j])) is Some implies reported(all[i])->0 <= reported(
                        all[j],
                    )->0 by {
                    if i >= e.len() {
                        assert(all[i] == rest.2[i - e.len()]);
                        assert(all[j] == rest.2[j - e.len()]);
                    } else if j >= e.len() {
                        assert(all[j] == rest.2[j - e.len()]);
                    }
                }
            },
            Err(_) => {
                progress_is_monotonic(r, t, signals.drop_first(), msgs);
            },
        }
    }
}

/// Whether every signal reports bytes written.
pub open spec fn only_chunks(signals: Seq<Signal>) -> bool {
    forall|i: int| 0 <= i < signals.len() ==> (#[trigger] signals[i]) is Chunk
}

/// The bytes that the chunk signals report, together.
pub open spec fn chunk_bytes(signals: Seq<Signal>) -> int
    decreases signals.len(),
{
    if signals.len() == 0 {
        0
    } else {
        (match signals[0] {
            Signal::Chunk { len, .. } => len as int,
            _ => 0,
        }) + chunk_bytes(signals.drop_first())
    }
}

proof fn lemma_chunk_bytes_nonnegative(signals: Seq<Signal>)
    ensures
        chunk_bytes(signals) >= 0,
    decreases signals.len(),
{
    if signals.len() > 0 {
        lemma_chunk_bytes_nonnegative(signals.drop_first());
    }
}

/// While bytes arrive the record counts each of them, and once the body ends the
/// progress event that closes the transfer reports the whole count.
pub proof fn final_progress_counts_all_bytes(r: FileDownload, t: Transfer, chunks: Seq<Signal>, msgs: FailureMessages)
    requires
        r.status is Downloading,
        only_chunks(chunks),
        r.progress_bytes + chunk_bytes(chunks) <= usize::MAX,
        r.size == 0 || r.progress_bytes + chunk_bytes(chunks) <= r.size,
    ensures
        ({
            let out = run(r, t, chunks, msgs);
            &&& out.0.status is Downloading
            &&& out.0.id == r.id
            &&& out.0.progress_bytes == r.progress_bytes + chunk_bytes(chunks)
            &&& step(out.0, out.1, Signal::StreamEnded, msgs) matches Ok((_, _, e)) && e[0]
                == DownloadEvent::Progress {
                id: r.id,
                progress_bytes: (r.progress_bytes + chunk_bytes(chunks)) as usize,
                speed_bytes: 0,
            }
        }),
    decreases chunks.len(),
{
    if chunks.len() > 0 {
        let rest = chunks.drop_first();
        assert(chunks[0] is Chunk);
        lemma_chunk_bytes_nonnegative(rest);
        assert(only_chunks(rest)) by {
            assert forall|i: int| 0 <= i < rest.len() implies (#[trigger] rest[i]) is Chunk by {
                assert(rest[i] == chunks[i + 1]);
            }
        }
        match step(r, t, chunks[0], msgs) {
            Ok((r2, t2, e)) => {
                final_progress_counts_all_bytes(r2, t2, rest, msgs);
            },
            Err(_) => {
                assert(false);
            },
        }
    }
}

/// The speed that a progress event reports.
pub open spec fn reported_speed(e: DownloadEvent) -> Option<usize> {
    match e {
        DownloadEvent::Progress { speed_bytes, .. } => Some(speed_bytes),
        _ => None,
    }
}

/// The progress samples taken while bytes arrive: for each, the time it was taken,
/// the byte count and the speed it reports.
pub open spec fn samples(r: FileDownload, t: Transfer, signals: Seq<Signal>, msgs: FailureMessages) -> Seq<(u64, usize, usize)>
    decreases signals.len(),
{
    if signals.len() == 0 {
        seq![]
    } else {
        match step(r, t, signals[0], msgs) {
            Ok((r2, t2, e)) => (if signals[0] is Chunk && e.len() > 0 && reported(e[0]) is Some {
                seq![(t2.last_emit_ms, reported(e[0])->0, reported_speed(e[0])->0)]
            } else {
                seq![]
            }) + samples(r2, t2, signals.drop_first(), msgs),
            Err(_) => samples(r, t, signals.drop_first(), msgs),
        }
    }
}

proof fn lemma_chunk_sampling(r: FileDownload, t: Transfer, s: Signal, msgs: FailureMessages)
    requires
        s is Chunk,
        t.last_progress <= r.progress_bytes,
    ensures
        step(r, t, s, msgs) matches Ok((r2, t2, e)) ==> {
            &&& t2.last_progress <= r2.progress_bytes
            &&& r2.status is Downloading || r2.status.is_terminal()
            &&& (e.len() > 0 && reported(e[0]) is Some) ==> {
                &&& t.last_emit_ms as int + PROGRESS_INTERVAL_MS <= t2.last_emit_ms as int
                &&& reported(e[0])->0 == t2.last_progress
                &&& reported_speed(e[0])->0 == t2.last_progress - t.last_progress
            }
            &&& !(e.len() > 0 && reported(e[0]) is Some) ==> t2 == t
        },
{
}

/// While bytes arrive, progress samples come at least an interval apart, the first
/// a full interval after the sampling baseline; and each reports as its speed the
/// bytes counted since the sample before it (since the baseline, for the first).
pub proof fn samples_are_spaced(r: FileDownload, t: Transfer, chunks: Seq<Signal>, msgs: FailureMessages)
    requires
        only_chunks(chunks),
        t.last_progress <= r.progress_bytes,
    ensures
        ({
            let ss = samples(r, t, chunks, msgs);
            forall|i: int|
                0 <= i < ss.len() ==> {
                    let prev_time = if i == 0 {
                        t.last_emit_ms as int
                    } else {
                        ss[i - 1].0 as int
                    };
                    let prev_count = if i == 0 {
                        t.last_progress as int
                    } else {
                        ss[i - 1].1 as int
                    };
                    &&& prev_time + PROGRESS_INTERVAL_MS <= (#[trigger] ss[i]).0 as int
                    &&& ss[i].2 as int == ss[i].1 as int - prev_count
                }
        }),
    decreases chunks.len(),
{
    if chunks.len() > 0 {
        let rest = chunks.drop_first();
        assert(chunks[0] is Chunk);
        assert(only_chunks(rest)) by {
            assert forall|i: int| 0 <= i < rest.len() implies (#[trigger] rest[i]) is Chunk by {
                assert(rest[i] == chunks[i + 1]);
            }
        }
        lemma_chunk_sampling(r, t, chunks[0], msgs);
        match step(r, t, chunks[0], msgs) {
            Ok((r2, t2, e)) => {
                samples_are_spaced(r2, t2, rest, msgs);
                let tail = samples(r2, t2, rest, msgs);
                let ss = samples(r, t, chunks, msgs);
                if e.len() > 0 && reported(e[0]) is Some {
                    assert(ss == seq![(t2.last_emit_ms, reported(e[0])->0, reported_speed(e[0])->0)] + tail);
                    assert forall|i: int| 0 <= i < ss.len() implies {
                        let prev_time = if i == 0 {
                            t.last_emit_ms as int
                        } else {
                            ss[i - 1].0 as int
                        };
                        let prev_count = if i == 0 {
                            t.last_progress as int
                        } else {
                            ss[i - 1].1 as int
                        };
                        &&& prev_time + PROGRESS_INTERVAL_MS <= (#[trigger] ss[i]).0 as int
                        &&& ss[i].2 as int == ss[i].1 as int - prev_count
                    } by {
                        if i > 0 {
                            assert(ss[i] == tail[i - 1]);
                            if i > 1 {
                                assert(ss[i - 1] == tail[i - 2]);
                            }
                        }
                    }
                } else {
                    assert(ss =~= tail);
                }
            },
            Err(_) => {
                samples_are_spaced(r, t, rest, msgs);
                assert(samples(r, t, chunks, msgs) == samples(r, t, rest, msgs));
            },
        }
    }
}

/// Once a download is complete or has failed, no signal is taken for it: its
/// record stays as it is and no event about it follows.
pub proof fn finished_downloads_stay_silent(r: FileDownload, t: Transfer, signals: Seq<Signal>, msgs: FailureMessages)
    requires
        r.status.is_terminal(),
    ensures
        run(r, t, signals, msgs) == (r, t, Seq::<DownloadEvent>::empty()),
    decreases signals.len(),
{
    if signals.len() > 0 {
        assert(step(r, t, signals[0], msgs) is Err);
        finished_downloads_stay_silent(r, t, signals.drop_first(), msgs);
    }
}

/// The signals that concern the download `id`, in their order.
pub open spec fn own_signals(signals: Seq<(Seq<char>, Signal)>, id: Seq<char>) -> Seq<Signal>
    decreases signals.len(),
{
    if signals.len() == 0 {
        seq![]
    } else {
        let rest = own_signals(signals.drop_first(), id);
        if signals[0].0 == id {
            seq![signals[0].1] + rest
        } else {
            rest
        }
    }
}

/// The registry after signals for several downloads, interleaved in any order;
/// `transfers` holds the sampling state of each download.
pub open spec fn run_all(
    records: Map<Seq<char>, FileDownload>,
    transfers: Map<Seq<char>, Transfer>,
    signals: Seq<(Seq<char>, Signal)>, msgs: FailureMessages,
) -> Map<Seq<char>, FileDownload>
    decreases signals.len(),
{
    if signals.len() == 0 {
        records
    } else {
        let id = signals[0].0;
        let rest = signals.drop_first();
        if records.contains_key(id) && transfers.contains_key(id) {
            match step(records[id], transfers[id], signals[0].1, msgs) {
                Ok((r2, t2, _)) => run_all(records.insert(id, r2), transfers.insert(id, t2), rest, msgs),
                Err(_) => run_all(records, transfers, rest, msgs),
            }
        } else {
            run_all(records, transfers, rest, msgs)
        }
    }
}

/// Downloads do not touch one another: however the signals of several downloads
/// interleave, the registry keeps the same downloads, and each record ends as its
/// own signals alone would leave it.
pub proof fn downloads_are_isolated(
    records: Map<Seq<char>, FileDownload>,
    transfers: Map<Seq<char>, Transfer>,
    signals: Seq<(Seq<char>, Signal)>,
    id: Seq<char>, msgs: FailureMessages,
)
    requires
        records.contains_key(id),
        transfers.contains_key(id),
    ensures
        run_all(records, transfers, signals, msgs).dom() == records.dom(),
        run_all(records, transfers, signals, msgs)[id] == run(
            records[id],
            transfers[id],
            own_signals(signals, id), msgs,
        ).0,
    decreases signals.len(),
{
    if signals.len() > 0 {
        let first = signals[0].0;
        let rest = signals.drop_first();
        let own_rest = own_signals(rest, id);
        if first == id {
            let own = own_signals(signals, id);
            assert(own[0] == signals[0].1);
            assert(own.drop_first() =~= own_rest);
        }
        if records.contains_key(first) && transfers.contains_key(first) {
            match step(records[first], transfers[first], signals[0].1, msgs) {
                Ok((r2, t2, _)) => {
                    downloads_are_isolated(
                        records.insert(first, r2),
                        transfers.insert(first, t2),
                        rest,
                        id, msgs,
                    );
                    assert(records.insert(first, r2).dom() =~= records.dom());
                },
                Err(_) => {
                    downloads_are_isolated(records, transfers, rest, id, msgs);
                },
            }
        } else {
            downloads_are_isolated(records, transfers, rest, id, msgs);
        }
    }
}

/// How far along a status is: pending, then downloading, then verifying, then
/// finished one way or the other.
pub open spec fn stage(s: DownloadStatus) -> int {
    match s {
        DownloadStatus::Pending => 0,
        DownloadStatus::Downloading => 1,
        DownloadStatus::Verifying => 2,
        DownloadStatus::Complete => 3,
        DownloadStatus::Error(_) => 3,
    }
}

/// The number of status announcements among some events.
pub open spec fn status_announcements(e: Seq<DownloadEvent>) -> nat
    decreases e.len(),
{
    if e.len() == 0 {
        0
    } else {
        (if e[0] is StatusChanged {
            1nat
        } else {
            0nat
        }) + status_announcements(e.drop_first())
    }
}

/// A signal never takes a download back to an earlier status; every change of
/// status is announced exactly once, with the new status, and a signal that
/// leaves the status as it was announces nothing.
pub proof fn status_changes_are_announced_once(r: FileDownload, t: Transfer, s: Signal, msgs: FailureMessages)
    ensures
        step(r, t, s, msgs) matches Ok((r2, t2, e)) ==> {
            &&& stage(r.status) <= stage(r2.status)
            &&& (r2.status != r.status ==> status_announcements(e) == 1)
            &&& (r2.status == r.status ==> status_announcements(e) == 0)
            &&& forall|i: int|
                0 <= i < e.len() && (#[trigger] e[i]) is StatusChanged ==> e[i]
                    == DownloadEvent::StatusChanged { id: r.id, status: r2.status }
        },
{
    match step(r, t, s, msgs) {
        Ok((r2, t2, e)) => {
            reveal_with_fuel(status_announcements, 3);
        },
        Err(_) => {},
    }
}

/// Whether an event closes a download's story: a final status, or an error.
pub open spec fn ends_download(e: DownloadEvent) -> bool {
    match e {
        DownloadEvent::StatusChanged { status, .. } => status.is_terminal(),
        DownloadEvent::Error { .. } => true,
        _ => false,
    }
}

proof fn lemma_step_endings(r: FileDownload, t: Transfer, s: Signal, msgs: FailureMessages)
    ensures
        step(r, t, s, msgs) matches Ok((r2, t2, e)) ==> {
            &&& forall|i: int| 0 <= i < e.len() && ends_download(#[trigger] e[i]) ==> r2.status.is_terminal()
            &&& forall|i: int, j: int|
                0 <= i < j < e.len() && ends_download(#[trigger] e[i]) ==> !((#[trigger] e[j]) is Progress)
                    && !(e[j] is StatusChanged)
        },
{
}

/// Once an event says that a download is complete or failed, no progress event
/// and no status change follows it.
pub proof fn nothing_follows_the_end(r: FileDownload, t: Transfer, signals: Seq<Signal>, msgs: FailureMessages)
    ensures
        ({
            let evs = run(r, t, signals, msgs).2;
            forall|i: int, j: int|
                0 <= i < j < evs.len() && ends_download(#[trigger] evs[i]) ==> !((#[trigger] evs[j]) is Progress)
                    && !(evs[j] is StatusChanged)
        }),
    decreases signals.len(),
{
    if signals.len() > 0 {
        let rest = signals.drop_first();
        lemma_step_endings(r, t, signals[0], msgs);
        match step(r, t, signals[0], msgs) {
            Ok((r2, t2, e)) => {
                nothing_follows_the_end(r2, t2, rest, msgs);
                let tail = run(r2, t2, rest, msgs).2;
                let evs = e + tail;
                if r2.status.is_terminal() {
                    finished_downloads_stay_silent(r2, t2, rest, msgs);
                    assert(evs =~= e);
                } else {
                    assert forall|i: int, j: int|
                        0 <= i < j < evs.len() && ends_download(#[trigger] evs[i]) implies !((#[trigger] evs[j]) is Progress)
                            && !(evs[j] is StatusChanged) by {
                        if i < e.len() {
                            assert(evs[i] == e[i]);
                        } else {
                            assert(evs[i] == tail[i - e.len()]);
                            assert(evs[j] == tail[j - e.len()]);
                        }
                    }
                }
            },
            Err(_) => {
                nothing_follows_the_end(r, t, rest, msgs);
            },
        }
    }
}

/// A download with a checksum whose file does not match it is announced as
/// verifying, then fails with the fixed message `Checksum mismatch`: its status
/// becomes that error, announced and followed by an error event.
pub proof fn mismatch_fails_after_verifying(r: FileDownload, t: Transfer, msgs: FailureMessages)
    requires
        r.status is Downloading,
        r.checksum is Some,
        msgs.well_formed(),
    ensures
        ({
            let out = run(r, t, seq![Signal::StreamEnded, Signal::Verified { valid: false }], msgs);
            let m = msgs.checksum_mismatch;
            &&& m@ == "Checksum mismatch"@
            &&& out.0.status == DownloadStatus::Error(m)
            &&& out.2 == seq![
                DownloadEvent::Progress { id: r.id, progress_bytes: r.progress_bytes, speed_bytes: 0 },
                DownloadEvent::StatusChanged { id: r.id, status: DownloadStatus::Verifying },
                DownloadEvent::StatusChanged { id: r.id, status: DownloadStatus::Error(m) },
                DownloadEvent::Error { id: r.id, error: m },
            ]
        }),
{
    let signals = seq![Signal::StreamEnded, Signal::Verified { valid: false }];
    let r1 = FileDownload { status: DownloadStatus::Verifying, ..r };
    let e1 = seq![
        DownloadEvent::Progress { id: r.id, progress_bytes: r.progress_bytes, speed_bytes: 0 },
        DownloadEvent::StatusChanged { id: r.id, status: DownloadStatus::Verifying },
    ];
    assert(step(r, t, signals[0], msgs) == Ok::<(FileDownload, Transfer, Seq<DownloadEvent>), DownloadError>((r1, t, e1)));
    let rest = signals.drop_first();
    assert(rest =~= seq![Signal::Verified { valid: false }]);
    let f = failed(r1, t, msgs.checksum_mismatch);
    assert(step(r1, t, rest[0], msgs) == Ok::<(FileDownload, Transfer, Seq<DownloadEvent>), DownloadError>(f));
    assert(rest.drop_first().len() == 0);
    assert(run(f.0, f.1, rest.drop_first(), msgs) == (f.0, f.1, Seq::<DownloadEvent>::empty()));
    assert(run(r1, t, rest, msgs) == (f.0, f.1, f.2 + Seq::<DownloadEvent>::empty()));
    assert(f.2 + Seq::<DownloadEvent>::empty() =~= f.2);
    assert(e1 + f.2 =~= seq![
        DownloadEvent::Progress { id: r.id, progress_bytes: r.progress_bytes, speed_bytes: 0 },
        DownloadEvent::StatusChanged { id: r.id, status: DownloadStatus::Verifying },
        DownloadEvent::StatusChanged { id: r.id, status: DownloadStatus::Error(msgs.checksum_mismatch) },
        DownloadEvent::Error { id: r.id, error: msgs.checksum_mismatch },
    ]);
}

} // verus!
