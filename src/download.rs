//! The record of one download, its status, its checksum and the events that an
//! observer of downloads receives.
use vstd::prelude::*;

use crate::metadata::{content_length, content_length_of, suggest_name, suggested_name};
use crate::text::{opt_str_view, opt_view};

verus! {

/// A digest that a finished download is checked against.
#[derive(Debug, Clone)]
pub enum Checksum {
    /// The SHA-1 digest, written in hexadecimal.
    Sha1(String),
}

impl PartialEq for Checksum {
    fn eq(&self, other: &Checksum) -> (r: bool) {
        match (self, other) {
            (Checksum::Sha1(a), Checksum::Sha1(b)) => *a == *b,
        }
    }
}

impl vstd::std_specs::cmp::PartialEqSpecImpl for Checksum {
    open spec fn obeys_eq_spec() -> bool {
        true
    }

    open spec fn eq_spec(&self, other: &Checksum) -> bool {
        match (self, other) {
            (Checksum::Sha1(a), Checksum::Sha1(b)) => a@ == b@,
        }
    }
}

/// Where a download stands.
#[derive(Debug, Clone)]
pub enum DownloadStatus {
    Pending,
    Downloading,
    Verifying,
    Complete,
    Error(String),
}

impl DownloadStatus {
    /// Complete and Error are final: nothing follows them.
    pub open spec fn is_terminal(&self) -> bool {
        self is Complete || self is Error
    }

    pub fn is_finished(&self) -> (r: bool)
        ensures
            r == self.is_terminal(),
    {
        match self {
            DownloadStatus::Complete | DownloadStatus::Error(_) => true,
            _ => false,
        }
    }
}

impl PartialEq for DownloadStatus {
    fn eq(&self, other: &DownloadStatus) -> (r: bool) {
        match (self, other) {
            (DownloadStatus::Pending, DownloadStatus::Pending) => true,
            (DownloadStatus::Downloading, DownloadStatus::Downloading) => true,
            (DownloadStatus::Verifying, DownloadStatus::Verifying) => true,
            (DownloadStatus::Complete, DownloadStatus::Complete) => true,
            (DownloadStatus::Error(a), DownloadStatus::Error(b)) => *a == *b,
            _ => false,
        }
    }
}

impl vstd::std_specs::cmp::PartialEqSpecImpl for DownloadStatus {
    open spec fn obeys_eq_spec() -> bool {
        true
    }

    open spec fn eq_spec(&self, other: &DownloadStatus) -> bool {
        match (self, other) {
            (DownloadStatus::Pending, DownloadStatus::Pending) => true,
            (DownloadStatus::Downloading, DownloadStatus::Downloading) => true,
            (DownloadStatus::Verifying, DownloadStatus::Verifying) => true,
            (DownloadStatus::Complete, DownloadStatus::Complete) => true,
            (DownloadStatus::Error(a), DownloadStatus::Error(b)) => a@ == b@,
            _ => false,
        }
    }
}

/// One download: what was asked for and how far it has come.
#[derive(Debug, Clone)]
pub struct FileDownload {
    pub id: String,
    /// The size announced by the server; 0 when unknown.
    pub size: usize,
    /// The bytes written to disk so far.
    pub progress_bytes: usize,
    /// The bytes written during the last sampling interval.
    pub speed_bytes: usize,
    pub url: String,
    /// The directory that the file is saved in.
    pub save_path: String,
    /// The file name, once resolved.
    pub name: Option<String>,
    pub checksum: Option<Checksum>,
    pub status: DownloadStatus,
}

/// What an observer of downloads is told.
#[derive(Debug, Clone)]
pub enum DownloadEvent {
    Added(FileDownload),
    Progress { id: String, progress_bytes: usize, speed_bytes: usize },
    StatusChanged { id: String, status: DownloadStatus },
    Error { id: String, error: String },
}

/// The name a file is saved under when no usable one was found.
pub open spec fn default_file_name() -> Seq<char> {
    seq!['d', 'o', 'w', 'n', 'l', 'o', 'a', 'd', '.', 'b', 'i', 'n']
}

/// A lower-case hexadecimal digit.
pub open spec fn is_lower_hex_digit(c: char) -> bool {
    ('0' <= c && c <= '9') || ('a' <= c && c <= 'f')
}

/// The text of a random (version 4) UUID: 36 characters, lower-case hexadecimal in
/// groups of 8, 4, 4, 4 and 12 separated by hyphens, with the version digit `4`
/// and a variant digit among `8`, `9`, `a` and `b`.
pub open spec fn is_uuid_v4_text(s: Seq<char>) -> bool {
    &&& s.len() == 36
    &&& forall|i: int|
        0 <= i < 36 ==> if i == 8 || i == 13 || i == 18 || i == 23 {
            s[i] == '-'
        } else {
            is_lower_hex_digit(#[trigger] s[i])
        }
    &&& s[14] == '4'
    &&& (s[19] == '8' || s[19] == '9' || s[19] == 'a' || s[19] == 'b')
}

/// Relies on `uuid::Uuid::new_v4` and its `Display`: random bits with the version
/// and variant bits set, written hyphenated in lower-case hexadecimal.
#[verifier::external_body]
fn new_download_id() -> (r: String)
    ensures
        is_uuid_v4_text(r@),
{
    uuid::Uuid::new_v4().to_string()
}

impl FileDownload {
    /// A pending download of `url` into the directory `save_path`, under a fresh
    /// identifier, with nothing known yet of its size or name.
    pub fn new(url: &str, save_path: String, checksum: Option<Checksum>) -> (r: FileDownload)
        ensures
            is_uuid_v4_text(r.id@),
            r.size == 0,
            r.progress_bytes == 0,
            r.speed_bytes == 0,
            r.url@ == url@,
            r.save_path == save_path,
            r.name is None,
            r.checksum == checksum,
            r.status is Pending,
    {
        FileDownload {
            id: new_download_id(),
            size: 0,
            progress_bytes: 0,
            speed_bytes: 0,
            url: url.to_owned(),
            save_path,
            name: None,
            checksum,
            status: DownloadStatus::Pending,
        }
    }

    /// An exact copy of the record.
    pub fn snapshot(&self) -> (r: FileDownload)
        ensures
            r == *self,
    {
        FileDownload {
            id: self.id.clone(),
            size: self.size,
            progress_bytes: self.progress_bytes,
            speed_bytes: self.speed_bytes,
            url: self.url.clone(),
            save_path: self.save_path.clone(),
            name: match &self.name {
                Some(n) => Some(n.clone()),
                None => None,
            },
            checksum: match &self.checksum {
                Some(Checksum::Sha1(d)) => Some(Checksum::Sha1(d.clone())),
                None => None,
            },
            status: match &self.status {
                DownloadStatus::Pending => DownloadStatus::Pending,
                DownloadStatus::Downloading => DownloadStatus::Downloading,
                DownloadStatus::Verifying => DownloadStatus::Verifying,
                DownloadStatus::Complete => DownloadStatus::Complete,
                DownloadStatus::Error(m) => DownloadStatus::Error(m.clone()),
            },
        }
    }

    /// Takes in what the metadata probe returned: the size from `Content-Length`
    /// and the name from `Content-Disposition` or from the URL.
    pub fn apply_metadata(&mut self, content_length_header: Option<&str>, content_disposition: Option<&str>)
        ensures
            final(self).size == content_length_of(opt_str_view(content_length_header)),
            opt_view(final(self).name) == suggested_name(opt_str_view(content_disposition), old(self).url@),
            final(self).id == old(self).id,
            final(self).progress_bytes == old(self).progress_bytes,
            final(self).speed_bytes == old(self).speed_bytes,
            final(self).url == old(self).url,
            final(self).save_path == old(self).save_path,
            final(self).checksum == old(self).checksum,
            final(self).status == old(self).status,
    {
        self.size = content_length(content_length_header);
        self.name = suggest_name(content_disposition, self.url.as_str());
    }

    /// The name the file is written under: the resolved one, else `download.bin`.
    pub fn file_name(&self) -> (r: String)
        ensures
            r@ == match self.name {
                Some(n) => n@,
                None => default_file_name(),
            },
    {
        match &self.name {
            Some(n) => n.clone(),
            None => {
                let r = "download.bin".to_owned();
                proof {
                    reveal_strlit("download.bin");
                }
                assert(r@ =~= default_file_name());
                r
            },
        }
    }
}

} // verus!
