//! Staged upload jobs and destination blob names.

use vstd::prelude::*;
use vstd::string::StringExecFns;

verus! {

/// One file staged for upload: its position in the staging order, its
/// display name, the blob name it will be stored under, and its contents.
///
/// A job is immutable once created and is consumed exactly once by the
/// upload stage.
#[derive(Debug, Clone, PartialEq, Eq)]
pub struct UploadJob {
    /// Position in the staging order; unique within a run, starting at 0.
    pub index: usize,
    /// Display name of the source file.
    pub file_name: String,
    /// Full destination name: the run's prefix, a slash, the file name.
    pub blob_name: String,
    /// The file's contents.
    pub payload: Vec<u8>,
}

/// Mathematical model of an [`UploadJob`].
pub struct JobView {
    pub index: int,
    pub file_name: Seq<char>,
    pub blob_name: Seq<char>,
    pub payload: Seq<u8>,
}

impl View for UploadJob {
    type V = JobView;

    open spec fn view(&self) -> JobView {
        JobView {
            index: self.index as int,
            file_name: self.file_name@,
            blob_name: self.blob_name@,
            payload: self.payload@,
        }
    }
}

/// The models of a sequence of jobs, in staging order.
pub open spec fn views_of_jobs(jobs: Seq<UploadJob>) -> Seq<JobView> {
    jobs.map_values(|j: UploadJob| j@)
}

/// The destination name of `file_name` under `prefix`: the prefix, one
/// slash, the file name.
pub open spec fn blob_name_for(prefix: Seq<char>, file_name: Seq<char>) -> Seq<char> {
    prefix + "/"@ + file_name
}

impl UploadJob {
    /// Number of payload bytes.
    pub fn size(&self) -> (n: usize)
        ensures
            n == self.payload@.len(),
    {
        self.payload.len()
    }
}

/// Joins a destination prefix and a file name with a single slash.
pub fn make_blob_name(prefix: &str, file_name: &str) -> (r: String)
    ensures
        r@ == blob_name_for(prefix@, file_name@),
{
    let mut r: String = prefix.to_owned();
    r.append("/");
    r.append(file_name);
    r
}

} // verus!
