use shiori::download::{Checksum, DownloadEvent, DownloadStatus, FileDownload};
use shiori::manager::{advance, DownloadError, DownloadManager, FailureMessages, Signal, Transfer};

fn progress(e: &DownloadEvent) -> Option<(usize, usize)> {
    match e {
        DownloadEvent::Progress { progress_bytes, speed_bytes, .. } => Some((*progress_bytes, *speed_bytes)),
        _ => None,
    }
}

fn status(e: &DownloadEvent) -> Option<DownloadStatus> {
    match e {
        DownloadEvent::StatusChanged { status, .. } => Some(status.clone()),
        _ => None,
    }
}

fn started(m: &mut DownloadManager, url: &str, checksum: Option<Checksum>, length: Option<&str>) -> Transfer {
    let d = FileDownload::new(url, "/tmp/models".to_string(), checksum);
    let id = d.id.clone();
    match m.start(d, length, None).unwrap() {
        DownloadEvent::Added(rec) => assert_eq!(rec.id, id),
        other => panic!("unexpected {:?}", other),
    }
    Transfer::new(id)
}

#[test]
fn known_size_without_checksum_completes() {
    let mut m = DownloadManager::new();
    let d = FileDownload::new("https://host/model.bin", "/tmp/models".to_string(), None);
    let id = d.id.clone();
    let added = m.start(d, Some("1024"), None).unwrap();
    match added {
        DownloadEvent::Added(rec) => {
            assert_eq!(rec.size, 1024);
            assert_eq!(rec.name, Some("model.bin".to_string()));
            assert_eq!(rec.status, DownloadStatus::Pending);
        }
        other => panic!("unexpected {:?}", other),
    }
    let mut t = Transfer::new(id.clone());
    let ev = m.apply(&mut t, Signal::Begin).unwrap();
    assert_eq!(ev.len(), 1);
    assert_eq!(status(&ev[0]), Some(DownloadStatus::Downloading));
    assert!(m.apply(&mut t, Signal::StreamOpened { now_ms: 0 }).unwrap().is_empty());
    assert!(m.apply(&mut t, Signal::Chunk { len: 512, now_ms: 500 }).unwrap().is_empty());
    let ev = m.apply(&mut t, Signal::Chunk { len: 512, now_ms: 1200 }).unwrap();
    assert_eq!(ev.len(), 1);
    assert_eq!(progress(&ev[0]), Some((1024, 1024)));
    let ev = m.apply(&mut t, Signal::StreamEnded).unwrap();
    assert_eq!(ev.len(), 2);
    assert_eq!(progress(&ev[0]), Some((1024, 0)));
    assert_eq!(status(&ev[1]), Some(DownloadStatus::Complete));
    let rec = m.get(&id).unwrap();
    assert_eq!(rec.progress_bytes, 1024);
    assert_eq!(rec.status, DownloadStatus::Complete);
}

#[test]
fn checksum_mismatch_fails_the_download() {
    let mut m = DownloadManager::new();
    let mut t = started(&mut m, "https://host/w.bin", Some(Checksum::Sha1("00".to_string())), None);
    m.apply(&mut t, Signal::Begin).unwrap();
    m.apply(&mut t, Signal::StreamOpened { now_ms: 10 }).unwrap();
    m.apply(&mut t, Signal::Chunk { len: 3, now_ms: 20 }).unwrap();
    let ev = m.apply(&mut t, Signal::StreamEnded).unwrap();
    assert_eq!(status(&ev[1]), Some(DownloadStatus::Verifying));
    let ev = m.apply(&mut t, Signal::Verified { valid: false }).unwrap();
    assert_eq!(ev.len(), 2);
    assert_eq!(status(&ev[0]), Some(DownloadStatus::Error("Checksum mismatch".to_string())));
    match &ev[1] {
        DownloadEvent::Error { id, error } => {
            assert_eq!(id, &t.id);
            assert_eq!(error, "Checksum mismatch");
        }
        other => panic!("unexpected {:?}", other),
    }
    assert_eq!(m.get(&t.id).unwrap().status, DownloadStatus::Error("Checksum mismatch".to_string()));
    assert_eq!(m.apply(&mut t, Signal::Failed { message: "again".to_string() }).unwrap_err(), DownloadError::InvalidState);
}

#[test]
fn more_bytes_than_announced_fail_the_download() {
    let mut m = DownloadManager::new();
    let mut t = started(&mut m, "https://host/w.bin", None, Some("1"));
    m.apply(&mut t, Signal::Begin).unwrap();
    let ev = m.apply(&mut t, Signal::Chunk { len: 2, now_ms: 5000 }).unwrap();
    assert_eq!(ev.len(), 2);
    assert_eq!(status(&ev[0]), Some(DownloadStatus::Error("Received more bytes than announced".to_string())));
    let rec = m.get(&t.id).unwrap();
    assert_eq!((rec.size, rec.progress_bytes), (1, 0));
    assert!(rec.status.is_finished());
}

#[test]
fn exactly_the_announced_size_is_taken() {
    let mut m = DownloadManager::new();
    let mut t = started(&mut m, "https://host/w.bin", None, Some("4"));
    m.apply(&mut t, Signal::Begin).unwrap();
    m.apply(&mut t, Signal::Chunk { len: 4, now_ms: 1 }).unwrap();
    let ev = m.apply(&mut t, Signal::StreamEnded).unwrap();
    assert_eq!(progress(&ev[0]), Some((4, 0)));
    assert_eq!(status(&ev[1]), Some(DownloadStatus::Complete));
}

#[test]
fn registered_identifier_is_refused() {
    let mut m = DownloadManager::new();
    let d = FileDownload::new("https://host/a.bin", "/tmp".to_string(), None);
    let copy = d.clone();
    let mut t = Transfer::new(d.id.clone());
    m.start(d, None, None).unwrap();
    m.apply(&mut t, Signal::Begin).unwrap();
    m.apply(&mut t, Signal::StreamEnded).unwrap();
    assert_eq!(m.start(copy, Some("9"), None).unwrap_err(), DownloadError::AlreadyRegistered);
    let rec = m.get(&t.id).unwrap();
    assert_eq!(rec.status, DownloadStatus::Complete);
    assert_eq!(rec.size, 0);
    assert_eq!(m.get_all().len(), 1);
}

#[test]
fn start_registers_a_fresh_record() {
    let mut m = DownloadManager::new();
    let mut d = FileDownload::new("https://host/a.bin", "/tmp".to_string(), None);
    d.progress_bytes = 77;
    d.speed_bytes = 5;
    d.status = DownloadStatus::Complete;
    match m.start(d, None, None).unwrap() {
        DownloadEvent::Added(rec) => {
            assert_eq!((rec.progress_bytes, rec.speed_bytes), (0, 0));
            assert_eq!(rec.status, DownloadStatus::Pending);
        }
        other => panic!("unexpected {:?}", other),
    }
}

#[test]
fn valid_checksum_completes() {
    let mut m = DownloadManager::new();
    let mut t = started(&mut m, "https://host/w.bin", Some(Checksum::Sha1("00".to_string())), None);
    m.apply(&mut t, Signal::Begin).unwrap();
    m.apply(&mut t, Signal::StreamEnded).unwrap();
    let ev = m.apply(&mut t, Signal::Verified { valid: true }).unwrap();
    assert_eq!(ev.len(), 1);
    assert_eq!(status(&ev[0]), Some(DownloadStatus::Complete));
}

#[test]
fn finished_downloads_take_no_signal() {
    let mut m = DownloadManager::new();
    let mut t = started(&mut m, "https://host/a.bin", None, None);
    m.apply(&mut t, Signal::Begin).unwrap();
    m.apply(&mut t, Signal::StreamEnded).unwrap();
    let before = m.get(&t.id).unwrap();
    for s in [
        Signal::Begin,
        Signal::StreamOpened { now_ms: 5 },
        Signal::Chunk { len: 1, now_ms: 5000 },
        Signal::StreamEnded,
        Signal::Verified { valid: true },
        Signal::Failed { message: "late".to_string() },
    ] {
        assert_eq!(m.apply(&mut t, s).unwrap_err(), DownloadError::InvalidState);
    }
    let after = m.get(&t.id).unwrap();
    assert_eq!(after.status, before.status);
    assert_eq!(after.progress_bytes, before.progress_bytes);
}

#[test]
fn failure_from_pending_and_downloading() {
    let mut m = DownloadManager::new();
    let mut t = started(&mut m, "https://host/a.bin", None, None);
    let ev = m.apply(&mut t, Signal::Failed { message: "no route".to_string() }).unwrap();
    assert_eq!(status(&ev[0]), Some(DownloadStatus::Error("no route".to_string())));
    let mut u = started(&mut m, "https://host/b.bin", None, None);
    m.apply(&mut u, Signal::Begin).unwrap();
    let ev = m.apply(&mut u, Signal::Failed { message: "reset".to_string() }).unwrap();
    assert_eq!(ev.len(), 2);
}

#[test]
fn progress_is_throttled() {
    let mut m = DownloadManager::new();
    let mut t = started(&mut m, "https://host/a.bin", None, None);
    m.apply(&mut t, Signal::Begin).unwrap();
    m.apply(&mut t, Signal::StreamOpened { now_ms: 0 }).unwrap();
    let mut samples = Vec::new();
    for (i, now) in [100u64, 999, 1000, 1500, 1999, 2000, 2600, 3100].iter().enumerate() {
        let ev = m.apply(&mut t, Signal::Chunk { len: 10, now_ms: *now }).unwrap();
        for e in &ev {
            samples.push((*now, progress(e).unwrap(), i));
        }
    }
    let times: Vec<u64> = samples.iter().map(|s| s.0).collect();
    assert_eq!(times, vec![1000, 2000, 3100]);
    let values: Vec<(usize, usize)> = samples.iter().map(|s| s.1).collect();
    assert_eq!(values, vec![(30, 30), (60, 30), (80, 20)]);
    assert_eq!(m.get(&t.id).unwrap().speed_bytes, 20);
}

#[test]
fn progress_values_never_decrease() {
    let mut m = DownloadManager::new();
    let mut t = started(&mut m, "https://host/a.bin", None, None);
    m.apply(&mut t, Signal::Begin).unwrap();
    m.apply(&mut t, Signal::StreamOpened { now_ms: 0 }).unwrap();
    let mut seen = Vec::new();
    let mut written = 0usize;
    for k in 0..20u64 {
        let len = (k as usize * 37) % 11;
        written += len;
        for e in m.apply(&mut t, Signal::Chunk { len, now_ms: k * 400 }).unwrap() {
            seen.push(progress(&e).unwrap().0);
        }
    }
    for e in m.apply(&mut t, Signal::StreamEnded).unwrap() {
        if let Some((p, _)) = progress(&e) {
            seen.push(p);
        }
    }
    assert!(seen.windows(2).all(|w| w[0] <= w[1]));
    assert_eq!(*seen.last().unwrap(), written);
}

#[test]
fn interleaved_downloads_stay_apart() {
    let mut m = DownloadManager::new();
    let mut a = started(&mut m, "https://host/a.bin", None, Some("30"));
    let mut b = started(&mut m, "https://host/b.bin", Some(Checksum::Sha1("ab".to_string())), Some("7"));
    assert_ne!(a.id, b.id);
    m.apply(&mut b, Signal::Begin).unwrap();
    m.apply(&mut a, Signal::Begin).unwrap();
    m.apply(&mut a, Signal::Chunk { len: 10, now_ms: 1 }).unwrap();
    m.apply(&mut b, Signal::Chunk { len: 7, now_ms: 2 }).unwrap();
    m.apply(&mut a, Signal::Chunk { len: 20, now_ms: 3 }).unwrap();
    m.apply(&mut b, Signal::StreamEnded).unwrap();
    m.apply(&mut a, Signal::StreamEnded).unwrap();
    m.apply(&mut b, Signal::Verified { valid: true }).unwrap();
    let ra = m.get(&a.id).unwrap();
    let rb = m.get(&b.id).unwrap();
    assert_eq!((ra.progress_bytes, ra.size, ra.status), (30, 30, DownloadStatus::Complete));
    assert_eq!((rb.progress_bytes, rb.size, rb.status), (7, 7, DownloadStatus::Complete));
    let all = m.get_all();
    assert_eq!(all.len(), 2);
    assert!(all.iter().any(|r| r.id == a.id) && all.iter().any(|r| r.id == b.id));
}

#[test]
fn unknown_download_is_not_found() {
    let mut m = DownloadManager::new();
    let mut t = Transfer::new("missing".to_string());
    assert_eq!(m.apply(&mut t, Signal::Begin).unwrap_err(), DownloadError::NotFound);
    assert!(m.get("missing").is_none());
    assert!(m.get_all().is_empty());
}

#[test]
fn byte_count_overflow_fails_the_download() {
    let msgs = FailureMessages::new();
    let mut d = FileDownload::new("https://host/a.bin", "/tmp".to_string(), None);
    d.progress_bytes = usize::MAX - 1;
    d.status = DownloadStatus::Downloading;
    let mut t = Transfer::new(d.id.clone());
    let (rec, ev) = advance(d.clone(), &mut t, Signal::Chunk { len: 5, now_ms: 0 }, &msgs).unwrap();
    assert_eq!(rec.status, DownloadStatus::Error("Downloaded size does not fit in memory".to_string()));
    assert_eq!(rec.progress_bytes, usize::MAX - 1);
    assert_eq!(ev.len(), 2);
    let (rec, ev) = advance(d, &mut t, Signal::Chunk { len: 1, now_ms: 0 }, &msgs).unwrap();
    assert_eq!(rec.progress_bytes, usize::MAX);
    assert!(ev.is_empty());
}

#[test]
fn new_downloads_have_fresh_identifiers() {
    let a = FileDownload::new("https://host/a.bin", "/tmp".to_string(), None);
    let b = FileDownload::new("https://host/a.bin", "/tmp".to_string(), None);
    assert_eq!(a.id.len(), 36);
    assert_ne!(a.id, b.id);
    for (i, c) in a.id.chars().enumerate() {
        if [8, 13, 18, 23].contains(&i) {
            assert_eq!(c, '-');
        } else {
            assert!(c.is_ascii_digit() || ('a'..='f').contains(&c));
        }
    }
    assert_eq!(a.id.chars().nth(14), Some('4'));
    assert!("89ab".contains(a.id.chars().nth(19).unwrap()));
    assert_eq!(a.status, DownloadStatus::Pending);
    assert_eq!((a.size, a.progress_bytes, a.speed_bytes), (0, 0, 0));
}

#[test]
fn error_messages() {
    assert_eq!(DownloadError::NotFound.message(), "Download entry not found");
    assert_eq!(DownloadError::AlreadyRegistered.message(), "Download is already registered");
    let msgs = FailureMessages::new();
    assert_eq!(msgs.checksum_mismatch, "Checksum mismatch");
}
