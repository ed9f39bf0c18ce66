use std::collections::HashMap;

use pcm24_wav::durable::WriteAction::{
    CreateDest, CreateTemp, Fail, Finish, FlushDest, FlushTemp, RenameOntoDest, SyncDest, SyncDir,
    SyncTemp, WriteDest, WriteTemp,
};
use pcm24_wav::durable::{DurableWriter, WriteAction, WriteMode};
use pcm24_wav::path::{sync_parent_dir, temp_file_name, temp_path_in_same_dir};

/// Runs a writer to its end, failing the action at position `fail_at`.
fn run(mode: WriteMode, has_dir: bool, fail_at: Option<usize>) -> Vec<WriteAction> {
    let mut w = DurableWriter::new(mode, has_dir);
    let mut seen = Vec::new();
    loop {
        let a = w.action();
        seen.push(a);
        if a == WriteAction::Finish || a == WriteAction::Fail {
            return seen;
        }
        w.advance(Some(seen.len() - 1) != fail_at);
    }
}

#[test]
fn atomic_plan_syncs_before_rename() {
    assert_eq!(
        run(WriteMode::Atomic, true, None),
        vec![CreateTemp, WriteTemp, FlushTemp, SyncTemp, RenameOntoDest, SyncDir, Finish]
    );
    assert_eq!(
        run(WriteMode::Atomic, false, None),
        vec![CreateTemp, WriteTemp, FlushTemp, SyncTemp, RenameOntoDest, Finish]
    );
}

#[test]
fn direct_plan_writes_in_place() {
    assert_eq!(
        run(WriteMode::Direct, true, None),
        vec![CreateDest, WriteDest, FlushDest, SyncDest, SyncDir, Finish]
    );
}

#[test]
fn failure_before_rename_aborts() {
    assert_eq!(run(WriteMode::Atomic, true, Some(1)), vec![CreateTemp, WriteTemp, Fail]);
    assert_eq!(
        run(WriteMode::Atomic, true, Some(4)),
        vec![CreateTemp, WriteTemp, FlushTemp, SyncTemp, RenameOntoDest, Fail]
    );
}

#[test]
fn directory_sync_failure_is_ignored() {
    assert_eq!(
        run(WriteMode::Atomic, true, Some(5)),
        vec![CreateTemp, WriteTemp, FlushTemp, SyncTemp, RenameOntoDest, SyncDir, Finish]
    );
}

#[test]
fn interrupted_write_leaves_destination_intact() {
    // A simulated directory: the destination holds old content.
    let dest = "out.wav".to_string();
    let (tmp, _) = temp_path_in_same_dir(&dest);
    for stop_after in 0..7usize {
        let mut files: HashMap<String, Vec<u8>> = HashMap::new();
        files.insert(dest.clone(), b"old".to_vec());
        let mut w = DurableWriter::new(WriteMode::Atomic, true);
        for _ in 0..stop_after {
            match w.action() {
                WriteAction::CreateTemp => {
                    files.insert(tmp.clone(), Vec::new());
                }
                WriteAction::WriteTemp => {
                    files.insert(tmp.clone(), b"new".to_vec());
                }
                WriteAction::RenameOntoDest => {
                    let data = files.remove(&tmp).unwrap();
                    files.insert(dest.clone(), data);
                }
                _ => {}
            }
            w.advance(true);
        }
        let content = files.get(&dest).unwrap().clone();
        assert!(content == b"old".to_vec() || content == b"new".to_vec());
        if w.action() == WriteAction::Finish {
            assert_eq!(content, b"new".to_vec());
            assert!(!files.keys().any(|k| k.ends_with(".tmp")));
        }
    }
}

#[test]
fn temp_name_is_hidden_with_suffix() {
    assert_eq!(temp_file_name("out.wav"), ".out.wav.tmp");
    assert_eq!(temp_file_name(""), "..tmp");
}

#[test]
fn temp_path_stays_in_directory() {
    assert_eq!(
        temp_path_in_same_dir("/data/audio/out.wav"),
        ("/data/audio/.out.wav.tmp".to_string(), Some("/data/audio".to_string()))
    );
    assert_eq!(
        temp_path_in_same_dir("out.wav"),
        (".out.wav.tmp".to_string(), Some(String::new()))
    );
    assert_eq!(temp_path_in_same_dir("/"), (".output.wav.tmp".to_string(), None));
}

#[test]
fn parent_directory_to_sync() {
    assert_eq!(sync_parent_dir("/data/out.wav"), Some("/data".to_string()));
    assert_eq!(sync_parent_dir("/"), None);
}
