use estan::chunk::{block_count, block_count_of_len, chunk_at, CHUNK_SIZE};
use estan::errors::UploadError;
use estan::strutil::u64_to_dec;
use estan::upload::{
    calculate_block_list, make_plan, remote_full_path, UploadCmd, UploadEvent, UploadPhase,
    UploadSession,
};

const MIB: usize = 1024 * 1024;

fn patterned(len: usize) -> Vec<u8> {
    let mut data = Vec::with_capacity(len);
    for i in 0..len {
        data.push((i % 251) as u8);
    }
    data
}

#[test]
fn block_count_is_ceiling_of_size_over_chunk() {
    assert_eq!(block_count(0), 0);
    assert_eq!(block_count(1), 1);
    assert_eq!(block_count(4 * MIB as u64), 1);
    assert_eq!(block_count(4 * MIB as u64 + 1), 2);
    assert_eq!(block_count(10 * MIB as u64), 3);
    assert_eq!(block_count_of_len(10 * MIB), 3);
}

#[test]
fn u64_to_dec_renders_decimal() {
    assert_eq!(u64_to_dec(0), "0");
    assert_eq!(u64_to_dec(7), "7");
    assert_eq!(u64_to_dec(10), "10");
    assert_eq!(u64_to_dec(1234567890), "1234567890");
}

#[test]
fn block_list_of_known_bytes_is_the_md5_hex() {
    let list = calculate_block_list(b"hello");
    assert_eq!(list, vec!["5d41402abc4b2a76b9719d911017c592".to_string()]);
    let empty = calculate_block_list(b"");
    assert!(empty.is_empty());
}

#[test]
fn chunk_boundaries_partition_the_file_exactly() {
    // Hashing and transfer read the same windows: concatenating the
    // chunks in order reproduces the file bit for bit.
    let data = patterned(10 * MIB);
    let n = block_count_of_len(data.len());
    assert_eq!(n, 3);
    assert_eq!(chunk_at(&data, 0).len(), 4 * MIB);
    assert_eq!(chunk_at(&data, 1).len(), 4 * MIB);
    assert_eq!(chunk_at(&data, 2).len(), 2 * MIB);
    let mut rebuilt: Vec<u8> = Vec::with_capacity(data.len());
    for i in 0..n {
        rebuilt.extend_from_slice(chunk_at(&data, i));
    }
    assert_eq!(rebuilt, data);
}

#[test]
fn short_last_chunk_keeps_exact_sizes() {
    let data = patterned(4 * MIB + 3);
    assert_eq!(block_count_of_len(data.len()), 2);
    assert_eq!(chunk_at(&data, 0).len(), CHUNK_SIZE);
    assert_eq!(chunk_at(&data, 1).len(), 3);
}

#[test]
fn remote_path_joins_with_a_single_slash() {
    assert_eq!(remote_full_path("/backup/", "a.tar.zst"), "/backup/a.tar.zst");
    assert_eq!(remote_full_path("/backup///", "a.tar.zst"), "/backup/a.tar.zst");
    assert_eq!(remote_full_path("/backup", "a.tar.zst"), "/backup/a.tar.zst");
}

#[test]
fn plan_renders_block_list_as_json() {
    let plan = make_plan("tok".to_string(), "/backup/", "hello.bin", b"hello");
    assert_eq!(plan.remote_path, "/backup/hello.bin");
    assert_eq!(plan.size, 5);
    assert_eq!(plan.block_list_json, "[\"5d41402abc4b2a76b9719d911017c592\"]");
    let empty = make_plan("tok".to_string(), "/backup", "empty.bin", b"");
    assert_eq!(empty.block_list_json, "[]");
}

#[test]
fn ten_mib_upload_runs_three_chunks_then_commit() {
    // A 10 MiB file: three block-list entries, three chunk transfers with
    // sequence numbers 0, 1, 2, then a single commit, and success.
    let data = patterned(10 * MIB);
    let plan = make_plan("tok".to_string(), "/backup", "big.bin", &data);
    assert_eq!(plan.block_list.len(), 3);
    let session = UploadSession::new(plan);

    let req = session.precreate_request();
    assert_eq!(
        req.url,
        "https://pan.baidu.com/rest/2.0/xpan/file?method=precreate&access_token=tok"
    );
    assert_eq!(req.path, "/backup/big.bin");
    assert_eq!(req.size, 10 * MIB as u64);

    let (session, cmd) = session.step(UploadEvent::PrecreateResponse {
        errno: 0,
        uploadid: Some("uid1".to_string()),
    });
    let mut partseqs = Vec::new();
    match &cmd {
        UploadCmd::SendChunk { url, partseq } => {
            partseqs.push(*partseq);
            assert_eq!(
                url,
                "https://d.pcs.baidu.com/rest/2.0/pcs/superfile2?method=upload&access_token=tok&type=tmpfile&path=/backup/big.bin&uploadid=uid1&partseq=0"
            );
        }
        _ => panic!("expected the first chunk command"),
    }

    let (session, cmd) = session.step(UploadEvent::ChunkResponse { status: 200 });
    match &cmd {
        UploadCmd::SendChunk { partseq, .. } => partseqs.push(*partseq),
        _ => panic!("expected the second chunk command"),
    }
    let (session, cmd) = session.step(UploadEvent::ChunkResponse { status: 200 });
    match &cmd {
        UploadCmd::SendChunk { partseq, .. } => partseqs.push(*partseq),
        _ => panic!("expected the third chunk command"),
    }
    assert_eq!(partseqs, vec![0, 1, 2]);

    let (session, cmd) = session.step(UploadEvent::ChunkResponse { status: 200 });
    match &cmd {
        UploadCmd::SendCommit { url, path, size, uploadid, block_list_json } => {
            assert_eq!(
                url,
                "https://pan.baidu.com/rest/2.0/xpan/file?method=create&access_token=tok"
            );
            assert_eq!(path, "/backup/big.bin");
            assert_eq!(*size, 10 * MIB as u64);
            assert_eq!(uploadid, "uid1");
            assert!(block_list_json.starts_with("[\""));
        }
        _ => panic!("expected the commit command"),
    }

    let (session, cmd) = session.step(UploadEvent::CommitResponse { errno: 0 });
    assert!(matches!(cmd, UploadCmd::Finish));
    assert!(matches!(session.phase, UploadPhase::Done));
}

#[test]
fn rejected_precreate_blocks_chunks_and_commit() {
    let plan = make_plan("tok".to_string(), "/backup", "a.bin", b"hello");
    let session = UploadSession::new(plan);
    let (session, cmd) = session.step(UploadEvent::PrecreateResponse { errno: 2, uploadid: None });
    assert!(matches!(
        cmd,
        UploadCmd::Abort { err: UploadError::PrecreateRejected { errno: 2 } }
    ));
    assert!(matches!(session.phase, UploadPhase::Failed));
}

#[test]
fn missing_upload_id_aborts_as_a_protocol_fault() {
    let plan = make_plan("tok".to_string(), "/backup", "a.bin", b"hello");
    let session = UploadSession::new(plan);
    let (session, cmd) = session.step(UploadEvent::PrecreateResponse { errno: 0, uploadid: None });
    assert!(matches!(cmd, UploadCmd::Abort { err: UploadError::Network }));
    assert!(matches!(session.phase, UploadPhase::Failed));
}

#[test]
fn failed_chunk_aborts_with_its_index_and_status() {
    let data = patterned(10 * MIB);
    let plan = make_plan("tok".to_string(), "/backup", "big.bin", &data);
    let session = UploadSession::new(plan);
    let (session, _) = session.step(UploadEvent::PrecreateResponse {
        errno: 0,
        uploadid: Some("uid1".to_string()),
    });
    let (session, _) = session.step(UploadEvent::ChunkResponse { status: 200 });
    let (session, cmd) = session.step(UploadEvent::ChunkResponse { status: 500 });
    assert!(matches!(
        cmd,
        UploadCmd::Abort { err: UploadError::ChunkFailed { index: 1, status: 500 } }
    ));
    assert!(matches!(session.phase, UploadPhase::Failed));
}

#[test]
fn rejected_commit_aborts_with_the_vendor_code() {
    let plan = make_plan("tok".to_string(), "/backup", "a.bin", b"hello");
    let session = UploadSession::new(plan);
    let (session, _) = session.step(UploadEvent::PrecreateResponse {
        errno: 0,
        uploadid: Some("uid1".to_string()),
    });
    let (session, _) = session.step(UploadEvent::ChunkResponse { status: 201 });
    let (session, cmd) = session.step(UploadEvent::CommitResponse { errno: -7 });
    assert!(matches!(
        cmd,
        UploadCmd::Abort { err: UploadError::CommitRejected { errno: -7 } }
    ));
    assert!(matches!(session.phase, UploadPhase::Failed));
}

#[test]
fn empty_file_commits_straight_after_precreate() {
    let plan = make_plan("tok".to_string(), "/backup", "empty.bin", b"");
    let session = UploadSession::new(plan);
    let (session, cmd) = session.step(UploadEvent::PrecreateResponse {
        errno: 0,
        uploadid: Some("uid1".to_string()),
    });
    assert!(matches!(cmd, UploadCmd::SendCommit { .. }));
    let (session, cmd) = session.step(UploadEvent::CommitResponse { errno: 0 });
    assert!(matches!(cmd, UploadCmd::Finish));
    assert!(matches!(session.phase, UploadPhase::Done));
}

#[test]
fn transport_failures_abort_as_network_errors() {
    let plan = make_plan("tok".to_string(), "/backup", "a.bin", b"hello");
    let session = UploadSession::new(plan);
    let (session, cmd) = session.step(UploadEvent::PrecreateFailed);
    assert!(matches!(cmd, UploadCmd::Abort { err: UploadError::Network }));
    assert!(matches!(session.phase, UploadPhase::Failed));
}
