//! A single upload transaction: the content-addressed block list, the
//! precreate/transfer/commit handshake, and the order it must run in.
//!
//! As in the credential flow, every network request is commanded, never
//! performed, here: the surrounding process sends each request and feeds
//! the answer back as an event.

use vstd::prelude::*;
use vstd::string::StringExecFns;
use crate::chunk::{spec_block_count, spec_chunk, block_count_of_len, chunk_at};
use crate::errors::UploadError;
use crate::strutil::{spec_dec_digits, spec_trim_end_slashes, trim_end_slashes, u64_to_dec};

verus! {

/// The lowercase hexadecimal MD5 digest of a byte sequence. Left
/// unspecified: it is computed only by the outside hash implementation.
pub uninterp spec fn spec_md5_hex(data: Seq<u8>) -> Seq<char>;

/// A lowercase hexadecimal digit.
pub open spec fn is_hex_digit(c: char) -> bool {
    (48 <= c as u32 && c as u32 <= 57) || (97 <= c as u32 && c as u32 <= 102)
}

/// A character that JSON copies into a quoted string unescaped: printable
/// ASCII other than the quote and the backslash.
pub open spec fn json_plain_char(c: char) -> bool {
    32 <= c as u32 && c as u32 <= 126 && c as u32 != 34 && c as u32 != 92
}

pub open spec fn json_plain(s: Seq<char>) -> bool {
    forall|i: int| 0 <= i < s.len() ==> json_plain_char(s[i])
}

/// Relies on md5::compute and the md5 crate's LowerHex rendering: the
/// digest of `data`, printed as two lowercase hexadecimal digits per
/// digest byte, 32 characters in all, a function of `data` alone.
#[verifier::external_body]
fn md5_hex(data: &[u8]) -> (r: String)
    ensures
        r@ == spec_md5_hex(data@),
        r@.len() == 32,
        forall|i: int| 0 <= i < r@.len() ==> is_hex_digit(r@[i]),
{
    let digest = md5::compute(data);
    format!("{:x}", digest)
}

/// `s` wrapped in JSON string quotes, with nothing escaped.
pub open spec fn spec_json_quoted(s: Seq<char>) -> Seq<char> {
    "\""@ + s + "\""@
}

/// The comma-separated quoted items of a JSON array of strings.
pub open spec fn spec_json_items(items: Seq<Seq<char>>) -> Seq<char>
    decreases items.len(),
{
    if items.len() == 0 {
        Seq::empty()
    } else if items.len() == 1 {
        spec_json_quoted(items[0])
    } else {
        spec_json_items(items.drop_last()) + ","@ + spec_json_quoted(items.last())
    }
}

/// The JSON rendering of an array of strings none of which needs escaping.
pub open spec fn spec_json_string_list(items: Seq<Seq<char>>) -> Seq<char> {
    "["@ + spec_json_items(items) + "]"@
}

/// Relies on serde_json::to_string: a vector serializes as a JSON array,
/// and a string of plain ASCII without quotes or backslashes is copied
/// between quotes unescaped, so the result is exactly the bracketed,
/// comma-separated, quoted list. Serializing strings cannot fail.
#[verifier::external_body]
fn json_string_list(items: &Vec<String>) -> (r: String)
    requires
        forall|i: int| 0 <= i < items@.len() ==> json_plain(items@[i]@),
    ensures
        r@ == spec_json_string_list(items@.map_values(|s: String| s@)),
{
    match serde_json::to_string(items) {
        Ok(s) => s,
        Err(_) => String::new(),
    }
}

/// The block list of `data`: one lowercase hex MD5 digest per chunk, in
/// chunk order.
pub fn calculate_block_list(data: &[u8]) -> (r: Vec<String>)
    ensures
        r@.len() == spec_block_count(data@.len() as int),
        forall|i: int| 0 <= i < r@.len() ==> #[trigger] r@[i]@ == spec_md5_hex(
            spec_chunk(data@, i),
        ),
        forall|i: int| 0 <= i < r@.len() ==> json_plain(#[trigger] r@[i]@),
{
    let n = block_count_of_len(data.len());
    let mut out: Vec<String> = Vec::new();
    let mut i: usize = 0;
    while i < n
        invariant
            0 <= i <= n,
            n as int == spec_block_count(data@.len() as int),
            out@.len() == i,
            forall|k: int| 0 <= k < i ==> #[trigger] out@[k]@ == spec_md5_hex(
                spec_chunk(data@, k),
            ),
            forall|k: int| 0 <= k < i ==> json_plain(#[trigger] out@[k]@),
        decreases n - i,
    {
        let piece = chunk_at(data, i);
        let h = md5_hex(piece);
        proof {
            assert forall|j: int| 0 <= j < h@.len() implies json_plain_char(h@[j]) by {
                assert(is_hex_digit(h@[j]));
            }
        }
        out.push(h);
        i = i + 1;
    }
    out
}

/// The vendor-side destination: `dest_path` with trailing slashes
/// stripped, a single slash, and the file's base name.
pub open spec fn spec_remote_full_path(dest_path: Seq<char>, file_name: Seq<char>) -> Seq<char> {
    spec_trim_end_slashes(dest_path) + "/"@ + file_name
}

pub fn remote_full_path(dest_path: &str, file_name: &str) -> (r: String)
    ensures
        r@ == spec_remote_full_path(dest_path@, file_name@),
{
    let base = trim_end_slashes(dest_path);
    let mut out = String::new();
    out.append(base);
    out.append("/");
    out.append(file_name);
    proof {
        assert(out@ =~= spec_remote_full_path(dest_path@, file_name@));
    }
    out
}

/// The precreate request for a bearer token.
pub open spec fn spec_precreate_url(access_token: Seq<char>) -> Seq<char> {
    "https://pan.baidu.com/rest/2.0/xpan/"@ + "file?method=precreate&access_token="@ + access_token
}

/// The create/commit request for a bearer token.
pub open spec fn spec_create_url(access_token: Seq<char>) -> Seq<char> {
    "https://pan.baidu.com/rest/2.0/xpan/"@ + "file?method=create&access_token="@ + access_token
}

/// The chunk-transfer request: the data-plane host, the remote path, the
/// upload id, and the zero-based chunk sequence number.
pub open spec fn spec_chunk_url(
    access_token: Seq<char>,
    path: Seq<char>,
    uploadid: Seq<char>,
    partseq: int,
) -> Seq<char> {
    "https://d.pcs.baidu.com/rest/2.0/pcs/superfile2?method=upload&access_token="@ + access_token
        + "&type=tmpfile&path="@ + path + "&uploadid="@ + uploadid + "&partseq="@
        + spec_dec_digits(partseq)
}

fn build_precreate_url(access_token: &str) -> (r: String)
    ensures
        r@ == spec_precreate_url(access_token@),
{
    let mut url = String::new();
    url.append("https://pan.baidu.com/rest/2.0/xpan/");
    url.append("file?method=precreate&access_token=");
    url.append(access_token);
    proof {
        assert(url@ =~= spec_precreate_url(access_token@));
    }
    url
}

fn build_create_url(access_token: &str) -> (r: String)
    ensures
        r@ == spec_create_url(access_token@),
{
    let mut url = String::new();
    url.append("https://pan.baidu.com/rest/2.0/xpan/");
    url.append("file?method=create&access_token=");
    url.append(access_token);
    proof {
        assert(url@ =~= spec_create_url(access_token@));
    }
    url
}

fn build_chunk_url(access_token: &str, path: &str, uploadid: &str, partseq: u64) -> (r: String)
    ensures
        r@ == spec_chunk_url(access_token@, path@, uploadid@, partseq as int),
{
    let mut url = String::new();
    url.append("https://d.pcs.baidu.com/rest/2.0/pcs/superfile2?method=upload&access_token=");
    url.append(access_token);
    url.append("&type=tmpfile&path=");
    url.append(path);
    url.append("&uploadid=");
    url.append(uploadid);
    url.append("&partseq=");
    let digits = u64_to_dec(partseq);
    url.append(digits.as_str());
    proof {
        assert(url@ =~= spec_chunk_url(access_token@, path@, uploadid@, partseq as int));
    }
    url
}

/// Everything a transaction carries: the bearer token, the destination,
/// the file size, and the block list with its JSON rendering.
#[derive(Debug)]
pub struct UploadPlan {
    pub access_token: String,
    pub remote_path: String,
    pub size: u64,
    pub block_list: Vec<String>,
    pub block_list_json: String,
}

impl UploadPlan {
    /// The block list counts the file's chunks and the JSON rendering
    /// matches the list.
    pub open spec fn wf(self) -> bool {
        &&& self.block_list@.len() == spec_block_count(self.size as int)
        &&& self.block_list_json@ == spec_json_string_list(
            self.block_list@.map_values(|s: String| s@),
        )
    }
}

/// Assemble the plan for uploading `data` as `file_name` under
/// `dest_path`, authorized by `access_token`.
pub fn make_plan(access_token: String, dest_path: &str, file_name: &str, data: &[u8]) -> (r:
    UploadPlan)
    ensures
        r.wf(),
        r.access_token == access_token,
        r.remote_path@ == spec_remote_full_path(dest_path@, file_name@),
        r.size == data@.len(),
        r.block_list@.len() == spec_block_count(data@.len() as int),
        forall|i: int| 0 <= i < r.block_list@.len() ==> #[trigger] r.block_list@[i]@
            == spec_md5_hex(spec_chunk(data@, i)),
{
    let block_list = calculate_block_list(data);
    let block_list_json = json_string_list(&block_list);
    let remote_path = remote_full_path(dest_path, file_name);
    let size = data.len() as u64;
    UploadPlan { access_token, remote_path, size, block_list, block_list_json }
}

/// Where a transaction stands.
#[derive(Debug)]
pub enum UploadPhase {
    /// The precreate request is owed or in flight.
    Precreating,
    /// Chunk `next_chunk` is in flight under `uploadid`.
    Transferring { uploadid: String, next_chunk: usize },
    /// All chunks were accepted; the commit is in flight.
    Committing { uploadid: String },
    /// The commit was accepted; the upload is durably stored.
    Done,
    /// The transaction aborted; nothing further may be sent.
    Failed,
}

/// What the surrounding process reports back to the session.
pub enum UploadEvent {
    /// The precreate endpoint answered.
    PrecreateResponse { errno: i32, uploadid: Option<String> },
    /// The precreate request failed in transport.
    PrecreateFailed,
    /// The chunk transfer answered with this HTTP status.
    ChunkResponse { status: u16 },
    /// The chunk transfer failed in transport.
    ChunkFailed,
    /// The commit endpoint answered.
    CommitResponse { errno: i32 },
    /// The commit request failed in transport.
    CommitFailed,
}

/// What the session commands next.
pub enum UploadCmd {
    /// Transfer chunk `partseq` of the file as the body of this request.
    SendChunk { url: String, partseq: usize },
    /// Send the commit request with these form fields.
    SendCommit { url: String, path: String, size: u64, uploadid: String, block_list_json: String },
    /// The upload succeeded; the call reports `true`.
    Finish,
    /// The upload failed with this error; nothing further is sent.
    Abort { err: UploadError },
}

/// The command stripped of its payload.
#[derive(Debug, Clone, Copy, PartialEq, Eq, Structural)]
pub enum UploadCmdKind {
    Chunk,
    Commit,
    Finish,
    Abort,
}

pub open spec fn upload_kind_of(cmd: UploadCmd) -> UploadCmdKind {
    match cmd {
        UploadCmd::SendChunk { .. } => UploadCmdKind::Chunk,
        UploadCmd::SendCommit { .. } => UploadCmdKind::Commit,
        UploadCmd::Finish => UploadCmdKind::Finish,
        UploadCmd::Abort { .. } => UploadCmdKind::Abort,
    }
}

/// Which events a phase can consume. The two terminal phases consume
/// none: a finished or failed transaction commands nothing further.
pub open spec fn upload_accepts(phase: UploadPhase, ev: UploadEvent) -> bool {
    match (phase, ev) {
        (UploadPhase::Precreating, UploadEvent::PrecreateResponse { .. }) => true,
        (UploadPhase::Precreating, UploadEvent::PrecreateFailed) => true,
        (UploadPhase::Transferring { .. }, UploadEvent::ChunkResponse { .. }) => true,
        (UploadPhase::Transferring { .. }, UploadEvent::ChunkFailed) => true,
        (UploadPhase::Committing { .. }, UploadEvent::CommitResponse { .. }) => true,
        (UploadPhase::Committing { .. }, UploadEvent::CommitFailed) => true,
        _ => false,
    }
}

/// The phase after consuming `ev`, for a block list of `n` entries.
pub open spec fn spec_upload_next(phase: UploadPhase, ev: UploadEvent, n: int) -> UploadPhase {
    match (phase, ev) {
        (UploadPhase::Precreating, UploadEvent::PrecreateResponse { errno, uploadid }) => {
            if errno != 0 {
                UploadPhase::Failed
            } else if uploadid is Some {
                if n > 0 {
                    UploadPhase::Transferring { uploadid: uploadid->Some_0, next_chunk: 0 }
                } else {
                    UploadPhase::Committing { uploadid: uploadid->Some_0 }
                }
            } else {
                UploadPhase::Failed
            }
        },
        (UploadPhase::Precreating, UploadEvent::PrecreateFailed) => UploadPhase::Failed,
        (UploadPhase::Transferring { uploadid, next_chunk }, UploadEvent::ChunkResponse {
            status,
        }) => {
            if 200 <= status < 300 {
                if next_chunk + 1 < n {
                    UploadPhase::Transferring {
                        uploadid,
                        next_chunk: (next_chunk + 1) as usize,
                    }
                } else {
                    UploadPhase::Committing { uploadid }
                }
            } else {
                UploadPhase::Failed
            }
        },
        (UploadPhase::Transferring { .. }, UploadEvent::ChunkFailed) => UploadPhase::Failed,
        (UploadPhase::Committing { .. }, UploadEvent::CommitResponse { errno }) => {
            if errno == 0 {
                UploadPhase::Done
            } else {
                UploadPhase::Failed
            }
        },
        (UploadPhase::Committing { .. }, UploadEvent::CommitFailed) => UploadPhase::Failed,
        _ => phase,
    }
}

/// The command issued on consuming `ev`, for a block list of `n` entries.
pub open spec fn spec_upload_cmd(phase: UploadPhase, ev: UploadEvent, n: int) -> UploadCmdKind {
    match (phase, ev) {
        (UploadPhase::Precreating, UploadEvent::PrecreateResponse { errno, uploadid }) => {
            if errno != 0 {
                UploadCmdKind::Abort
            } else if uploadid is Some {
                if n > 0 {
                    UploadCmdKind::Chunk
                } else {
                    UploadCmdKind::Commit
                }
            } else {
                UploadCmdKind::Abort
            }
        },
        (UploadPhase::Precreating, UploadEvent::PrecreateFailed) => UploadCmdKind::Abort,
        (UploadPhase::Transferring { next_chunk, .. }, UploadEvent::ChunkResponse { status }) => {
            if 200 <= status < 300 {
                if next_chunk + 1 < n {
                    UploadCmdKind::Chunk
                } else {
                    UploadCmdKind::Commit
                }
            } else {
                UploadCmdKind::Abort
            }
        },
        (UploadPhase::Transferring { .. }, UploadEvent::ChunkFailed) => UploadCmdKind::Abort,
        (UploadPhase::Committing { .. }, UploadEvent::CommitResponse { errno }) => {
            if errno == 0 {
                UploadCmdKind::Finish
            } else {
                UploadCmdKind::Abort
            }
        },
        (UploadPhase::Committing { .. }, UploadEvent::CommitFailed) => UploadCmdKind::Abort,
        _ => UploadCmdKind::Abort,
    }
}

/// The form fields of the precreate request.
pub struct PrecreateRequest {
    pub url: String,
    pub path: String,
    pub size: u64,
    pub block_list_json: String,
}

/// One upload transaction, stepped by the surrounding process.
pub struct UploadSession {
    pub plan: UploadPlan,
    pub phase: UploadPhase,
}

impl UploadSession {
    /// A session never points past the end of its block list.
    pub open spec fn wf(self) -> bool {
        &&& self.plan.wf()
        &&& (self.phase matches UploadPhase::Transferring { next_chunk, .. } ==> next_chunk
            < self.plan.block_list@.len())
    }

    /// Open a transaction; the first duty of the surrounding process is to
    /// send the precreate request of `precreate_request`.
    pub fn new(plan: UploadPlan) -> (r: UploadSession)
        requires
            plan.wf(),
        ensures
            r.wf(),
            r.plan == plan,
            r.phase is Precreating,
    {
        UploadSession { plan, phase: UploadPhase::Precreating }
    }

    /// The precreate request: destination path, total size, and the
    /// JSON-rendered block list, asking for auto-initialization.
    pub fn precreate_request(&self) -> (r: PrecreateRequest)
        requires
            self.phase is Precreating,
        ensures
            r.url@ == spec_precreate_url(self.plan.access_token@),
            r.path@ == self.plan.remote_path@,
            r.size == self.plan.size,
            r.block_list_json@ == self.plan.block_list_json@,
    {
        PrecreateRequest {
            url: build_precreate_url(self.plan.access_token.as_str()),
            path: self.plan.remote_path.clone(),
            size: self.plan.size,
            block_list_json: self.plan.block_list_json.clone(),
        }
    }

    /// Consume one vendor answer and command the next request.
    pub fn step(self, ev: UploadEvent) -> (r: (UploadSession, UploadCmd))
        requires
            self.wf(),
            upload_accepts(self.phase, ev),
        ensures
            r.0.wf(),
            r.0.plan == self.plan,
            r.0.phase == spec_upload_next(self.phase, ev, self.plan.block_list@.len() as int),
            upload_kind_of(r.1) == spec_upload_cmd(
                self.phase,
                ev,
                self.plan.block_list@.len() as int,
            ),
            r.1 matches UploadCmd::SendChunk { url, partseq } ==> {
                &&& r.0.phase matches UploadPhase::Transferring { uploadid, next_chunk }
                &&& partseq == next_chunk
                &&& url@ == spec_chunk_url(
                    self.plan.access_token@,
                    self.plan.remote_path@,
                    uploadid@,
                    partseq as int,
                )
            },
            r.1 matches UploadCmd::SendCommit {
                url,
                path,
                size,
                uploadid,
                block_list_json,
            } ==> {
                &&& url@ == spec_create_url(self.plan.access_token@)
                &&& path@ == self.plan.remote_path@
                &&& size == self.plan.size
                &&& block_list_json@ == self.plan.block_list_json@
                &&& (r.0.phase matches UploadPhase::Committing { uploadid: held }
                    && uploadid@ == held@)
            },
            ev matches UploadEvent::PrecreateResponse { errno, uploadid } ==> (self.phase
                is Precreating ==> ((errno != 0 ==> (r.1 matches UploadCmd::Abort { err } && err
                matches UploadError::PrecreateRejected { errno: reported } && reported == errno))
                && (errno == 0 && uploadid is None ==> (r.1 matches UploadCmd::Abort { err }
                && err is Network)))),
            ev matches UploadEvent::ChunkResponse { status } ==> (self.phase
                matches UploadPhase::Transferring { next_chunk, .. } ==> (!(200 <= status < 300)
                ==> (r.1 matches UploadCmd::Abort { err } && err
                matches UploadError::ChunkFailed { index, status: reported } && index == next_chunk
                && reported == status))),
            ev matches UploadEvent::CommitResponse { errno } ==> (self.phase is Committing ==> ((
            errno != 0 ==> (r.1 matches UploadCmd::Abort { err } && err
                matches UploadError::CommitRejected { errno: reported } && reported == errno)) && (
            errno == 0 ==> r.1 is Finish))),
            (ev is PrecreateFailed || ev is ChunkFailed || ev is CommitFailed) ==> (r.1
                matches UploadCmd::Abort { err } && err is Network),
    {
        let UploadSession { plan, phase } = self;
        match (phase, ev) {
            (UploadPhase::Precreating, UploadEvent::PrecreateResponse { errno, uploadid }) => {
                if errno != 0 {
                    (
                        UploadSession { plan, phase: UploadPhase::Failed },
                        UploadCmd::Abort { err: UploadError::PrecreateRejected { errno } },
                    )
                } else {
                    match uploadid {
                        Some(id) => {
                            let n = plan.block_list.len();
                            if n > 0 {
                                let url = build_chunk_url(
                                    plan.access_token.as_str(),
                                    plan.remote_path.as_str(),
                                    id.as_str(),
                                    0,
                                );
                                (
                                    UploadSession {
                                        plan,
                                        phase: UploadPhase::Transferring {
                                            uploadid: id,
                                            next_chunk: 0,
                                        },
                                    },
                                    UploadCmd::SendChunk { url, partseq: 0 },
                                )
                            } else {
                                let cmd = UploadCmd::SendCommit {
                                    url: build_create_url(plan.access_token.as_str()),
                                    path: plan.remote_path.clone(),
                                    size: plan.size,
                                    uploadid: id.clone(),
                                    block_list_json: plan.block_list_json.clone(),
                                };
                                (
                                    UploadSession {
                                        plan,
                                        phase: UploadPhase::Committing { uploadid: id },
                                    },
                                    cmd,
                                )
                            }
                        },
                        None => (
                            UploadSession { plan, phase: UploadPhase::Failed },
                            UploadCmd::Abort { err: UploadError::Network },
                        ),
                    }
                }
            },
            (UploadPhase::Precreating, UploadEvent::PrecreateFailed) => (
                UploadSession { plan, phase: UploadPhase::Failed },
                UploadCmd::Abort { err: UploadError::Network },
            ),
            (
                UploadPhase::Transferring { uploadid, next_chunk },
                UploadEvent::ChunkResponse { status },
            ) => {
                if 200 <= status && status < 300 {
                    let n = plan.block_list.len();
                    if next_chunk + 1 < n {
                        let partseq = next_chunk + 1;
                        let url = build_chunk_url(
                            plan.access_token.as_str(),
                            plan.remote_path.as_str(),
                            uploadid.as_str(),
                            partseq as u64,
                        );
                        (
                            UploadSession {
                                plan,
                                phase: UploadPhase::Transferring {
                                    uploadid,
                                    next_chunk: partseq,
                                },
                            },
                            UploadCmd::SendChunk { url, partseq },
                        )
                    } else {
                        let cmd = UploadCmd::SendCommit {
                            url: build_create_url(plan.access_token.as_str()),
                            path: plan.remote_path.clone(),
                            size: plan.size,
                            uploadid: uploadid.clone(),
                            block_list_json: plan.block_list_json.clone(),
                        };
                        (
                            UploadSession { plan, phase: UploadPhase::Committing { uploadid } },
                            cmd,
                        )
                    }
                } else {
                    (
                        UploadSession { plan, phase: UploadPhase::Failed },
                        UploadCmd::Abort {
                            err: UploadError::ChunkFailed { index: next_chunk, status },
                        },
                    )
                }
            },
            (UploadPhase::Transferring { .. }, UploadEvent::ChunkFailed) => (
                UploadSession { plan, phase: UploadPhase::Failed },
                UploadCmd::Abort { err: UploadError::Network },
            ),
            (UploadPhase::Committing { .. }, UploadEvent::CommitResponse { errno }) => {
                if errno == 0 {
                    (UploadSession { plan, phase: UploadPhase::Done }, UploadCmd::Finish)
                } else {
                    (
                        UploadSession { plan, phase: UploadPhase::Failed },
                        UploadCmd::Abort { err: UploadError::CommitRejected { errno } },
                    )
                }
            },
            (UploadPhase::Committing { .. }, UploadEvent::CommitFailed) => (
                UploadSession { plan, phase: UploadPhase::Failed },
                UploadCmd::Abort { err: UploadError::Network },
            ),
            (other, _) => (
                UploadSession { plan, phase: other },
                UploadCmd::Abort { err: UploadError::Network },
            ),
        }
    }
}

/// The commands a session in `phase` issues over a whole sequence of
/// events, one command per event.
pub open spec fn spec_upload_run(
    phase: UploadPhase,
    evs: Seq<UploadEvent>,
    n: int,
) -> Seq<UploadCmdKind>
    decreases evs.len(),
{
    if evs.len() == 0 {
        Seq::empty()
    } else {
        seq![spec_upload_cmd(phase, evs[0], n)] + spec_upload_run(
            spec_upload_next(phase, evs[0], n),
            evs.drop_first(),
            n,
        )
    }
}

/// Law: a failed session stays failed and only ever aborts: over any
/// sequence of further events, not one chunk transfer and not one commit
/// is commanded.
pub proof fn lemma_failed_run_only_aborts(phase: UploadPhase, evs: Seq<UploadEvent>, n: int)
    requires
        phase is Failed,
    ensures
        spec_upload_run(phase, evs, n).len() == evs.len(),
        forall|i: int| 0 <= i < evs.len() ==> #[trigger] spec_upload_run(phase, evs, n)[i]
            == UploadCmdKind::Abort,
    decreases evs.len(),
{
    if evs.len() > 0 {
        assert(spec_upload_next(phase, evs[0], n) is Failed);
        lemma_failed_run_only_aborts(spec_upload_next(phase, evs[0], n), evs.drop_first(), n);
    }
}

/// Law: a terminal session consumes nothing: after a failure or a finish
/// no event is accepted, so no chunk upload and no commit can ever be
/// commanded again.
pub proof fn lemma_terminal_accepts_nothing(phase: UploadPhase, ev: UploadEvent)
    requires
        phase is Failed || phase is Done,
    ensures
        !upload_accepts(phase, ev),
{
}

/// Law: a precreate answer with a non-zero vendor code aborts the
/// transaction at once with that code, before any chunk or commit request
/// is commanded, and leaves the session in the terminal failed phase.
pub proof fn lemma_precreate_rejected_blocks_all(phase: UploadPhase, ev: UploadEvent, n: int)
    requires
        phase is Precreating,
        ev matches UploadEvent::PrecreateResponse { errno, .. } && errno != 0,
    ensures
        spec_upload_next(phase, ev, n) is Failed,
        spec_upload_cmd(phase, ev, n) == UploadCmdKind::Abort,
        forall|ev2: UploadEvent| !upload_accepts(spec_upload_next(phase, ev, n), ev2),
{
}

/// Law: a chunk transfer that is not accepted aborts the transaction at
/// the failing index: no chunk after it and no commit is ever commanded,
/// and the session is terminally failed.
pub proof fn lemma_chunk_failure_blocks_rest(phase: UploadPhase, ev: UploadEvent, n: int)
    requires
        phase is Transferring,
        (ev matches UploadEvent::ChunkResponse { status } && !(200 <= status < 300)) || ev
            is ChunkFailed,
    ensures
        spec_upload_next(phase, ev, n) is Failed,
        spec_upload_cmd(phase, ev, n) == UploadCmdKind::Abort,
        forall|ev2: UploadEvent| !upload_accepts(spec_upload_next(phase, ev, n), ev2),
{
}

/// Law: chunks are commanded strictly in order, with no gaps: chunk 0
/// right after the precreate grant, and chunk `k + 1` only after chunk
/// `k`'s transfer was accepted.
pub proof fn lemma_chunks_in_order(phase: UploadPhase, ev: UploadEvent, n: int)
    requires
        upload_accepts(phase, ev),
        n <= usize::MAX,
        spec_upload_cmd(phase, ev, n) == UploadCmdKind::Chunk,
    ensures
        spec_upload_next(phase, ev, n) is Transferring,
        ({
            let commanded = spec_upload_next(phase, ev, n)->Transferring_next_chunk;
            (phase is Precreating && commanded == 0) || ({
                &&& phase matches UploadPhase::Transferring { next_chunk, .. }
                &&& commanded == next_chunk + 1
                &&& ev matches UploadEvent::ChunkResponse { status }
                &&& 200 <= status < 300
            })
        }),
{
}

/// Law: the commit is commanded only once every chunk has been accepted:
/// after the last chunk's transfer succeeded, or right after the
/// precreate grant when the file has no chunks at all.
pub proof fn lemma_commit_only_after_all_chunks(phase: UploadPhase, ev: UploadEvent, n: int)
    requires
        upload_accepts(phase, ev),
        spec_upload_cmd(phase, ev, n) == UploadCmdKind::Commit,
    ensures
        ({
            &&& phase matches UploadPhase::Transferring { next_chunk, .. }
            &&& next_chunk + 1 >= n
            &&& ev matches UploadEvent::ChunkResponse { status }
            &&& 200 <= status < 300
        }) || (phase is Precreating && n <= 0),
{
}

} // verus!
