//! Staged files.
//!
//! A staging directory holds files whose content may be a sealed
//! reference. Resolving the directory replaces each such file by a symlink
//! to a plaintext file in the secrets directory, named after the entry.
//!
//! The work alternates file-system operations, a remote call and
//! decisions. The decisions are made here, as a machine: a scan is always
//! at one step, which names the operation that its driver is to perform,
//! and the driver reports the outcome as an event, which takes the scan to
//! its next step. Entries are taken one at a time, and the first failure
//! ends the scan.

use crate::cdh::{unseal_request, CDHClient, UnsealRequest, UnsealRequestView};
use crate::error::{outcome, CdhError, CdhErrorView, Failure, FailureView};
use crate::sealed::{is_sealed, SEALED_PREFIX};
use crate::text::{decode, decoded, join};
use vstd::prelude::*;
use vstd::string::*;
use vstd::utf8::*;

verus! {

/// The operation that a scan waits for. Entries are named by their file
/// name in the staging directory, as raw bytes.
#[derive(Debug, PartialEq, Eq)]
pub enum FileStep {
    /// Tell whether the staging directory exists. Answered by a flag.
    ProbeDir,
    /// Open the staging directory for listing. Answered by `Done`.
    OpenDir,
    /// Take the next entry of the listing. Answered by an entry, or by
    /// none at the end of the listing.
    NextEntry,
    /// Tell whether the entry itself is a symlink. Answered by a flag.
    ProbeSymlink { name: Vec<u8> },
    /// Tell whether the entry, links followed, is a regular file.
    /// Answered by a flag.
    ProbeRegular { name: Vec<u8> },
    /// Resolve the entry to its canonical absolute path. Answered by a
    /// path.
    Canonicalize { name: Vec<u8> },
    /// Tell whether `target` is a regular file. Answered by a flag.
    ProbeTarget { name: Vec<u8>, target: Vec<u8> },
    /// Read the whole of `target`. Answered by its bytes.
    ReadTarget { name: Vec<u8>, target: Vec<u8> },
    /// Issue the remote call `request`. Answered by the plaintext bytes.
    Unseal { name: Vec<u8>, secret_path: String, request: UnsealRequest },
    /// Create the file `secret_path` and write `plaintext` to it.
    /// Answered by `Done`.
    WriteSecret { name: Vec<u8>, secret_path: String, plaintext: Vec<u8> },
    /// Delete the staged entry. Answered by `Done`.
    RemoveEntry { name: Vec<u8>, secret_path: String },
    /// Make a symlink to `secret_path` where the entry was. Answered by
    /// `Done`.
    LinkEntry { name: Vec<u8>, secret_path: String },
    /// The scan is over, with this result. Nothing is left to do.
    Finished { result: Result<(), CdhError> },
}

/// The scan of one staging directory.
#[derive(Debug, PartialEq, Eq)]
pub struct FileScan {
    /// The staging directory.
    pub dir: String,
    /// What the driver is to do next.
    pub step: FileStep,
}

/// The outcome of an operation, as the driver reports it.
#[derive(Debug, Clone, PartialEq, Eq)]
pub enum FileEvent {
    /// The answer to a yes-or-no question.
    Flag { value: bool },
    /// The next entry's file name, or none at the end of the listing.
    Entry { name: Option<Vec<u8>> },
    /// A canonical path.
    Path { path: Vec<u8> },
    /// The content of a file, or the plaintext of a secret.
    Bytes { bytes: Vec<u8> },
    /// The operation was carried out.
    Done,
    /// The operation failed.
    Failed { failure: Failure },
}

/// The model of a [`FileStep`].
pub enum FileStepView {
    ProbeDir,
    OpenDir,
    NextEntry,
    ProbeSymlink { name: Seq<u8> },
    ProbeRegular { name: Seq<u8> },
    Canonicalize { name: Seq<u8> },
    ProbeTarget { name: Seq<u8>, target: Seq<u8> },
    ReadTarget { name: Seq<u8>, target: Seq<u8> },
    Unseal { name: Seq<u8>, secret_path: Seq<char>, request: UnsealRequestView },
    WriteSecret { name: Seq<u8>, secret_path: Seq<char>, plaintext: Seq<u8> },
    RemoveEntry { name: Seq<u8>, secret_path: Seq<char> },
    LinkEntry { name: Seq<u8>, secret_path: Seq<char> },
    Finished { result: Result<(), CdhErrorView> },
}

/// The model of a [`FileScan`].
pub struct FileScanView {
    pub dir: Seq<char>,
    pub step: FileStepView,
}

/// The model of a [`FileEvent`].
pub enum FileEventView {
    Flag { value: bool },
    Entry { name: Option<Seq<u8>> },
    Path { path: Seq<u8> },
    Bytes { bytes: Seq<u8> },
    Done,
    Failed { failure: FailureView },
}

impl View for FileStep {
    type V = FileStepView;

    open spec fn view(&self) -> FileStepView {
        match *self {
            FileStep::ProbeDir => FileStepView::ProbeDir,
            FileStep::OpenDir => FileStepView::OpenDir,
            FileStep::NextEntry => FileStepView::NextEntry,
            FileStep::ProbeSymlink { name } => FileStepView::ProbeSymlink { name: name@ },
            FileStep::ProbeRegular { name } => FileStepView::ProbeRegular { name: name@ },
            FileStep::Canonicalize { name } => FileStepView::Canonicalize { name: name@ },
            FileStep::ProbeTarget { name, target } => FileStepView::ProbeTarget {
                name: name@,
                target: target@,
            },
            FileStep::ReadTarget { name, target } => FileStepView::ReadTarget {
                name: name@,
                target: target@,
            },
            FileStep::Unseal { name, secret_path, request } => FileStepView::Unseal {
                name: name@,
                secret_path: secret_path@,
                request: request@,
            },
            FileStep::WriteSecret { name, secret_path, plaintext } => FileStepView::WriteSecret {
                name: name@,
                secret_path: secret_path@,
                plaintext: plaintext@,
            },
            FileStep::RemoveEntry { name, secret_path } => FileStepView::RemoveEntry {
                name: name@,
                secret_path: secret_path@,
            },
            FileStep::LinkEntry { name, secret_path } => FileStepView::LinkEntry {
                name: name@,
                secret_path: secret_path@,
            },
            FileStep::Finished { result } => FileStepView::Finished { result: outcome(result) },
        }
    }
}

impl View for FileScan {
    type V = FileScanView;

    open spec fn view(&self) -> FileScanView {
        FileScanView { dir: self.dir@, step: self.step@ }
    }
}

impl View for FileEvent {
    type V = FileEventView;

    open spec fn view(&self) -> FileEventView {
        match *self {
            FileEvent::Flag { value } => FileEventView::Flag { value },
            FileEvent::Entry { name } => FileEventView::Entry {
                name: match name {
                    Some(name) => Some(name@),
                    None => None,
                },
            },
            FileEvent::Path { path } => FileEventView::Path { path: path@ },
            FileEvent::Bytes { bytes } => FileEventView::Bytes { bytes: bytes@ },
            FileEvent::Done => FileEventView::Done,
            FileEvent::Failed { failure } => FileEventView::Failed { failure: failure@ },
        }
    }
}

/// A scan of `dir` that has not done anything yet.
pub open spec fn scan_start(dir: Seq<char>) -> FileScanView {
    FileScanView { dir, step: FileStepView::ProbeDir }
}

/// The error that a failure at `step` amounts to.
pub open spec fn failure_at(step: FileStepView, failure: FailureView) -> CdhErrorView {
    match step {
        FileStepView::Canonicalize { .. } => CdhErrorView::Canonicalization(failure),
        FileStepView::Unseal { .. } => CdhErrorView::Remote(failure),
        _ => CdhErrorView::Io(failure),
    }
}

/// What follows the reading of the entry `name`, whose target holds
/// `contents`. Contents that are not UTF-8 text end the scan. Text
/// without the marker leaves the entry as it is. Sealed text is unsealed,
/// and the plaintext will go to the file in the secrets directory that is
/// named as the entry is, which therefore must have a UTF-8 name.
pub open spec fn after_read(
    secrets_dir: Seq<char>,
    timeout_nano: i64,
    name: Seq<u8>,
    contents: Seq<u8>,
) -> FileStepView {
    match decoded(contents) {
        None => FileStepView::Finished { result: Err(CdhErrorView::Decode) },
        Some(text) => match unseal_request(timeout_nano, text) {
            Err(_) => FileStepView::NextEntry,
            Ok(request) => match decoded(name) {
                None => FileStepView::Finished { result: Err(CdhErrorView::Decode) },
                Some(file_name) => FileStepView::Unseal {
                    name,
                    secret_path: secrets_dir + file_name,
                    request,
                },
            },
        },
    }
}

/// The step that follows `step` on `event`. A finished scan stays as it
/// is. A failure ends the scan. An event that does not answer `step`
/// changes nothing.
pub open spec fn step_on(
    secrets_dir: Seq<char>,
    timeout_nano: i64,
    step: FileStepView,
    event: FileEventView,
) -> FileStepView {
    match (step, event) {
        (FileStepView::Finished { .. }, _) => step,
        (_, FileEventView::Failed { failure }) => FileStepView::Finished {
            result: Err(failure_at(step, failure)),
        },
        (FileStepView::ProbeDir, FileEventView::Flag { value }) => if value {
            FileStepView::OpenDir
        } else {
            FileStepView::Finished { result: Ok(()) }
        },
        (FileStepView::OpenDir, FileEventView::Done) => FileStepView::NextEntry,
        (FileStepView::NextEntry, FileEventView::Entry { name }) => match name {
            Some(name) => FileStepView::ProbeSymlink { name },
            None => FileStepView::Finished { result: Ok(()) },
        },
        (FileStepView::ProbeSymlink { name }, FileEventView::Flag { value }) => if value {
            FileStepView::Canonicalize { name }
        } else {
            FileStepView::ProbeRegular { name }
        },
        (FileStepView::ProbeRegular { name }, FileEventView::Flag { value }) => if value {
            FileStepView::Canonicalize { name }
        } else {
            FileStepView::NextEntry
        },
        (FileStepView::Canonicalize { name }, FileEventView::Path { path }) => {
            FileStepView::ProbeTarget { name, target: path }
        },
        (FileStepView::ProbeTarget { name, target }, FileEventView::Flag { value }) => if value {
            FileStepView::ReadTarget { name, target }
        } else {
            FileStepView::NextEntry
        },
        (FileStepView::ReadTarget { name, .. }, FileEventView::Bytes { bytes }) => after_read(
            secrets_dir,
            timeout_nano,
            name,
            bytes,
        ),
        (FileStepView::Unseal { name, secret_path, .. }, FileEventView::Bytes { bytes }) => {
            FileStepView::WriteSecret { name, secret_path, plaintext: bytes }
        },
        (FileStepView::WriteSecret { name, secret_path, .. }, FileEventView::Done) => {
            FileStepView::RemoveEntry { name, secret_path }
        },
        (FileStepView::RemoveEntry { name, secret_path }, FileEventView::Done) => {
            FileStepView::LinkEntry { name, secret_path }
        },
        (FileStepView::LinkEntry { .. }, FileEventView::Done) => FileStepView::NextEntry,
        _ => step,
    }
}

/// The scan that follows `scan` on `event`.
pub open spec fn scan_step(
    secrets_dir: Seq<char>,
    timeout_nano: i64,
    scan: FileScanView,
    event: FileEventView,
) -> FileScanView {
    FileScanView { dir: scan.dir, step: step_on(secrets_dir, timeout_nano, scan.step, event) }
}

impl CDHClient {
    /// Begins the scan of the staging directory `sealed_source_path`.
    pub fn unseal_file(&self, sealed_source_path: &String) -> (scan: FileScan)
        ensures
            scan@ == scan_start(sealed_source_path@),
    {
        FileScan { dir: sealed_source_path.clone(), step: FileStep::ProbeDir }
    }

    /// Takes `scan` one step further, on the outcome `event` of the
    /// operation that it waited for.
    pub fn unseal_file_step(&self, scan: FileScan, event: FileEvent) -> (next: FileScan)
        ensures
            next@ == scan_step(self.secrets_dir@, self.timeout_nano, scan@, event@),
    {
        let FileScan { dir, step } = scan;
        let step = match step {
            FileStep::Finished { result } => FileStep::Finished { result },
            FileStep::ProbeDir => match event {
                FileEvent::Flag { value } => if value {
                    FileStep::OpenDir
                } else {
                    FileStep::Finished { result: Ok(()) }
                },
                FileEvent::Failed { failure } => FileStep::Finished {
                    result: Err(CdhError::Io(failure)),
                },
                _ => FileStep::ProbeDir,
            },
            FileStep::OpenDir => match event {
                FileEvent::Done => FileStep::NextEntry,
                FileEvent::Failed { failure } => FileStep::Finished {
                    result: Err(CdhError::Io(failure)),
                },
                _ => FileStep::OpenDir,
            },
            FileStep::NextEntry => match event {
                FileEvent::Entry { name } => match name {
                    Some(name) => FileStep::ProbeSymlink { name },
                    None => FileStep::Finished { result: Ok(()) },
                },
                FileEvent::Failed { failure } => FileStep::Finished {
                    result: Err(CdhError::Io(failure)),
                },
                _ => FileStep::NextEntry,
            },
            FileStep::ProbeSymlink { name } => match event {
                FileEvent::Flag { value } => if value {
                    FileStep::Canonicalize { name }
                } else {
                    FileStep::ProbeRegular { name }
                },
                FileEvent::Failed { failure } => FileStep::Finished {
                    result: Err(CdhError::Io(failure)),
                },
                _ => FileStep::ProbeSymlink { name },
            },
            FileStep::ProbeRegular { name } => match event {
                FileEvent::Flag { value } => if value {
                    FileStep::Canonicalize { name }
                } else {
                    FileStep::NextEntry
                },
                FileEvent::Failed { failure } => FileStep::Finished {
                    result: Err(CdhError::Io(failure)),
                },
                _ => FileStep::ProbeRegular { name },
            },
            FileStep::Canonicalize { name } => match event {
                FileEvent::Path { path } => FileStep::ProbeTarget { name, target: path },
                FileEvent::Failed { failure } => FileStep::Finished {
                    result: Err(CdhError::Canonicalization(failure)),
                },
                _ => FileStep::Canonicalize { name },
            },
            FileStep::ProbeTarget { name, target } => match event {
                FileEvent::Flag { value } => if value {
                    FileStep::ReadTarget { name, target }
                } else {
                    FileStep::NextEntry
                },
                FileEvent::Failed { failure } => FileStep::Finished {
                    result: Err(CdhError::Io(failure)),
                },
                _ => FileStep::ProbeTarget { name, target },
            },
            FileStep::ReadTarget { name, target } => match event {
                FileEvent::Bytes { bytes } => self.after_read(name, bytes),
                FileEvent::Failed { failure } => FileStep::Finished {
                    result: Err(CdhError::Io(failure)),
                },
                _ => FileStep::ReadTarget { name, target },
            },
            FileStep::Unseal { name, secret_path, request } => match event {
                FileEvent::Bytes { bytes } => FileStep::WriteSecret {
                    name,
                    secret_path,
                    plaintext: bytes,
                },
                FileEvent::Failed { failure } => FileStep::Finished {
                    result: Err(CdhError::Remote(failure)),
                },
                _ => FileStep::Unseal { name, secret_path, request },
            },
            FileStep::WriteSecret { name, secret_path, plaintext } => match event {
                FileEvent::Done => FileStep::RemoveEntry { name, secret_path },
                FileEvent::Failed { failure } => FileStep::Finished {
                    result: Err(CdhError::Io(failure)),
                },
                _ => FileStep::WriteSecret { name, secret_path, plaintext },
            },
            FileStep::RemoveEntry { name, secret_path } => match event {
                FileEvent::Done => FileStep::LinkEntry { name, secret_path },
                FileEvent::Failed { failure } => FileStep::Finished {
                    result: Err(CdhError::Io(failure)),
                },
                _ => FileStep::RemoveEntry { name, secret_path },
            },
            FileStep::LinkEntry { name, secret_path } => match event {
                FileEvent::Done => FileStep::NextEntry,
                FileEvent::Failed { failure } => FileStep::Finished {
                    result: Err(CdhError::Io(failure)),
                },
                _ => FileStep::LinkEntry { name, secret_path },
            },
        };
        FileScan { dir, step }
    }

    /// Decides what to do with the entry `name` once its target has been
    /// read.
    fn after_read(&self, name: Vec<u8>, contents: Vec<u8>) -> (step: FileStep)
        ensures
            step@ == after_read(self.secrets_dir@, self.timeout_nano, name@, contents@),
    {
        let text = match decode(contents.as_slice()) {
            Some(text) => text,
            None => {
                return FileStep::Finished { result: Err(CdhError::Decode) };
            },
        };
        let request = match self.unseal_secret_async(text) {
            Ok(request) => request,
            Err(_) => {
                return FileStep::NextEntry;
            },
        };
        let secret_path = match decode(name.as_slice()) {
            Some(file_name) => join(self.secrets_dir.as_str(), file_name),
            None => {
                return FileStep::Finished { result: Err(CdhError::Decode) };
            },
        };
        FileStep::Unseal { name, secret_path, request }
    }
}

/// The steps that a scan goes through from `step` as `events` come in,
/// one for each event.
pub open spec fn scan_trace(
    secrets_dir: Seq<char>,
    timeout_nano: i64,
    step: FileStepView,
    events: Seq<FileEventView>,
) -> Seq<FileStepView>
    decreases events.len(),
{
    if events.len() == 0 {
        Seq::empty()
    } else {
        let next = step_on(secrets_dir, timeout_nano, step, events.first());
        seq![next] + scan_trace(secrets_dir, timeout_nano, next, events.drop_first())
    }
}

/// How many operations an entry may still take at `step`, before the scan
/// asks for the next entry or ends.
pub open spec fn operations_left(step: FileStepView) -> nat {
    match step {
        FileStepView::ProbeSymlink { .. } => 9,
        FileStepView::ProbeRegular { .. } => 8,
        FileStepView::Canonicalize { .. } => 7,
        FileStepView::ProbeTarget { .. } => 6,
        FileStepView::ReadTarget { .. } => 5,
        FileStepView::Unseal { .. } => 4,
        FileStepView::WriteSecret { .. } => 3,
        FileStepView::RemoveEntry { .. } => 2,
        FileStepView::LinkEntry { .. } => 1,
        _ => 0,
    }
}

/// Where `step` names a plaintext file, that file lies in the secrets
/// directory and is named as the entry is.
pub open spec fn targets_secrets_dir(secrets_dir: Seq<char>, step: FileStepView) -> bool {
    match step {
        FileStepView::Unseal { name, secret_path, .. }
        | FileStepView::WriteSecret { name, secret_path, .. }
        | FileStepView::RemoveEntry { name, secret_path }
        | FileStepView::LinkEntry { name, secret_path } => {
            &&& decoded(name) is Some
            &&& secret_path == secrets_dir + decoded(name)->0
        },
        _ => true,
    }
}

/// A staging directory that does not exist is no error: the scan ends
/// well after the one question, and nothing was read or written.
pub proof fn lemma_absent_directory(secrets_dir: Seq<char>, timeout_nano: i64, dir: Seq<char>)
    ensures
        scan_start(dir).step == FileStepView::ProbeDir,
        scan_step(secrets_dir, timeout_nano, scan_start(dir), FileEventView::Flag { value: false })
            == (FileScanView { dir, step: FileStepView::Finished { result: Ok(()) } }),
{
}

/// The first failure ends the scan, with the error of the step at which
/// it came, and a scan that has ended stays so.
pub proof fn lemma_fails_closed(
    secrets_dir: Seq<char>,
    timeout_nano: i64,
    step: FileStepView,
    failure: FailureView,
    event: FileEventView,
)
    ensures
        !(step is Finished) ==> step_on(
            secrets_dir,
            timeout_nano,
            step,
            FileEventView::Failed { failure },
        ) == (FileStepView::Finished { result: Err(failure_at(step, failure)) }),
        step is Finished ==> step_on(secrets_dir, timeout_nano, step, event) == step,
{
}

/// The file system is written to in one order only. A remote call is
/// made only for an entry whose content was read and carries the marker;
/// a plaintext file is written only with the answer to that call; the
/// staged entry is deleted only once the plaintext file is written; and
/// the symlink is made only once the staged entry is deleted.
pub proof fn lemma_order_of_effects(
    secrets_dir: Seq<char>,
    timeout_nano: i64,
    step: FileStepView,
    event: FileEventView,
)
    ensures
        ({
            let next = step_on(secrets_dir, timeout_nano, step, event);
            &&& next is Unseal && next != step ==> {
                &&& step matches FileStepView::ReadTarget { name, .. }
                &&& event matches FileEventView::Bytes { bytes }
                &&& decoded(bytes) matches Some(text)
                &&& is_sealed(text)
                &&& next->Unseal_name == name
                &&& unseal_request(timeout_nano, text) == Ok::<UnsealRequestView, CdhErrorView>(
                    next->request,
                )
            }
            &&& next is WriteSecret && next != step ==> {
                &&& step matches FileStepView::Unseal { name, secret_path, .. }
                &&& event matches FileEventView::Bytes { bytes }
                &&& next == (FileStepView::WriteSecret { name, secret_path, plaintext: bytes })
            }
            &&& next is RemoveEntry && next != step ==> {
                &&& step matches FileStepView::WriteSecret { name, secret_path, .. }
                &&& next == (FileStepView::RemoveEntry { name, secret_path })
            }
            &&& next is LinkEntry && next != step ==> {
                &&& step matches FileStepView::RemoveEntry { name, secret_path }
                &&& next == (FileStepView::LinkEntry { name, secret_path })
            }
        }),
{
}

/// Each entry is done with in nine operations at most: every event that
/// changes the step of an entry brings the scan closer to the next entry,
/// or ends it. So an entry takes one remote call at most, and is written,
/// deleted and linked once at most.
pub proof fn lemma_entry_progress(
    secrets_dir: Seq<char>,
    timeout_nano: i64,
    step: FileStepView,
    event: FileEventView,
)
    requires
        operations_left(step) > 0,
    ensures
        ({
            let next = step_on(secrets_dir, timeout_nano, step, event);
            next != step ==> operations_left(next) < operations_left(step)
        }),
{
}

/// Plaintext only ever goes to the secrets directory, under the entry's
/// own name: that holds at the start, and every step keeps it.
pub proof fn lemma_targets_secrets_dir(
    secrets_dir: Seq<char>,
    timeout_nano: i64,
    step: FileStepView,
    event: FileEventView,
)
    requires
        targets_secrets_dir(secrets_dir, step),
    ensures
        targets_secrets_dir(secrets_dir, FileStepView::ProbeDir),
        targets_secrets_dir(secrets_dir, step_on(secrets_dir, timeout_nano, step, event)),
{
}

/// Whatever events come in, and however many, a scan that begins at the
/// beginning never names a plaintext file outside the secrets directory.
pub proof fn lemma_trace_targets_secrets_dir(
    secrets_dir: Seq<char>,
    timeout_nano: i64,
    events: Seq<FileEventView>,
    i: int,
)
    requires
        0 <= i < events.len(),
    ensures
        scan_trace(secrets_dir, timeout_nano, FileStepView::ProbeDir, events).len() == events.len(),
        targets_secrets_dir(
            secrets_dir,
            scan_trace(secrets_dir, timeout_nano, FileStepView::ProbeDir, events)[i],
        ),
{
    lemma_trace_keeps(secrets_dir, timeout_nano, FileStepView::ProbeDir, events, i);
}

/// A scan that is at a step which names no plaintext file outside the
/// secrets directory stays so.
proof fn lemma_trace_keeps(
    secrets_dir: Seq<char>,
    timeout_nano: i64,
    step: FileStepView,
    events: Seq<FileEventView>,
    i: int,
)
    requires
        targets_secrets_dir(secrets_dir, step),
        0 <= i < events.len(),
    ensures
        scan_trace(secrets_dir, timeout_nano, step, events).len() == events.len(),
        targets_secrets_dir(secrets_dir, scan_trace(secrets_dir, timeout_nano, step, events)[i]),
    decreases events.len(),
{
    let next = step_on(secrets_dir, timeout_nano, step, events.first());
    lemma_targets_secrets_dir(secrets_dir, timeout_nano, step, events.first());
    lemma_trace_len(secrets_dir, timeout_nano, next, events.drop_first());
    if i > 0 {
        lemma_trace_keeps(secrets_dir, timeout_nano, next, events.drop_first(), i - 1);
    }
}

/// A trace has one step for each event.
proof fn lemma_trace_len(
    secrets_dir: Seq<char>,
    timeout_nano: i64,
    step: FileStepView,
    events: Seq<FileEventView>,
)
    ensures
        scan_trace(secrets_dir, timeout_nano, step, events).len() == events.len(),
    decreases events.len(),
{
    if events.len() > 0 {
        let next = step_on(secrets_dir, timeout_nano, step, events.first());
        lemma_trace_len(secrets_dir, timeout_nano, next, events.drop_first());
    }
}

/// A staging directory with one regular file, named `file_name`, whose
/// content is `sealed.` followed by `x`. The scan makes one remote call,
/// with the payload `x`; writes the plaintext that the service answered
/// with to the file in the secrets directory that is named `file_name`;
/// deletes the staged file; makes a symlink to the plaintext file in its
/// place; and ends well.
pub proof fn lemma_sealed_file(
    secrets_dir: Seq<char>,
    timeout_nano: i64,
    file_name: Seq<char>,
    target: Seq<u8>,
    x: Seq<char>,
    plaintext: Seq<u8>,
)
    ensures
        ({
            let name = encode_utf8(file_name);
            let secret_path = secrets_dir + file_name;
            let request = UnsealRequestView { secret: encode_utf8(x), timeout_nano };
            scan_trace(
                secrets_dir,
                timeout_nano,
                FileStepView::ProbeDir,
                seq![
                    FileEventView::Flag { value: true },
                    FileEventView::Done,
                    FileEventView::Entry { name: Some(name) },
                    FileEventView::Flag { value: false },
                    FileEventView::Flag { value: true },
                    FileEventView::Path { path: target },
                    FileEventView::Flag { value: true },
                    FileEventView::Bytes { bytes: encode_utf8(SEALED_PREFIX@ + x) },
                    FileEventView::Bytes { bytes: plaintext },
                    FileEventView::Done,
                    FileEventView::Done,
                    FileEventView::Done,
                    FileEventView::Entry { name: None },
                ],
            ) == seq![
                FileStepView::OpenDir,
                FileStepView::NextEntry,
                FileStepView::ProbeSymlink { name },
                FileStepView::ProbeRegular { name },
                FileStepView::Canonicalize { name },
                FileStepView::ProbeTarget { name, target },
                FileStepView::ReadTarget { name, target },
                FileStepView::Unseal { name, secret_path, request },
                FileStepView::WriteSecret { name, secret_path, plaintext },
                FileStepView::RemoveEntry { name, secret_path },
                FileStepView::LinkEntry { name, secret_path },
                FileStepView::NextEntry,
                FileStepView::Finished { result: Ok(()) },
            ]
        }),
{
    let name = encode_utf8(file_name);
    let text = SEALED_PREFIX@ + x;
    encode_utf8_valid_utf8(file_name);
    encode_utf8_decode_utf8(file_name);
    encode_utf8_valid_utf8(text);
    encode_utf8_decode_utf8(text);
    assert(text.take(SEALED_PREFIX@.len() as int) =~= SEALED_PREFIX@);
    assert(text.skip(SEALED_PREFIX@.len() as int) =~= x);
    let request = UnsealRequestView { secret: encode_utf8(x), timeout_nano };
    let unseal = FileStepView::Unseal { name, secret_path: secrets_dir + file_name, request };
    assert(after_read(secrets_dir, timeout_nano, name, encode_utf8(text)) == unseal);
    reveal_with_fuel(scan_trace, 14);
}

/// A staging directory with one regular file whose content is text
/// without the marker. The scan reads the file and ends well: no call is
/// made, and nothing is written, deleted or linked.
pub proof fn lemma_plain_file(
    secrets_dir: Seq<char>,
    timeout_nano: i64,
    name: Seq<u8>,
    target: Seq<u8>,
    text: Seq<char>,
)
    requires
        !is_sealed(text),
    ensures
        ({
            scan_trace(
                secrets_dir,
                timeout_nano,
                FileStepView::ProbeDir,
                seq![
                    FileEventView::Flag { value: true },
                    FileEventView::Done,
                    FileEventView::Entry { name: Some(name) },
                    FileEventView::Flag { value: false },
                    FileEventView::Flag { value: true },
                    FileEventView::Path { path: target },
                    FileEventView::Flag { value: true },
                    FileEventView::Bytes { bytes: encode_utf8(text) },
                    FileEventView::Entry { name: None },
                ],
            ) == seq![
                FileStepView::OpenDir,
                FileStepView::NextEntry,
                FileStepView::ProbeSymlink { name },
                FileStepView::ProbeRegular { name },
                FileStepView::Canonicalize { name },
                FileStepView::ProbeTarget { name, target },
                FileStepView::ReadTarget { name, target },
                FileStepView::NextEntry,
                FileStepView::Finished { result: Ok(()) },
            ]
        }),
{
    encode_utf8_valid_utf8(text);
    encode_utf8_decode_utf8(text);
    assert(after_read(secrets_dir, timeout_nano, name, encode_utf8(text))
        == FileStepView::NextEntry);
    reveal_with_fuel(scan_trace, 10);
}

} // verus!
