use agnoshi::checkpoint::{
    join_path_text, Checkpoint, CheckpointManager, CheckpointOp, RemovePlan, UndoStep,
};

fn is_uuid_v4(s: &str) -> bool {
    let b: Vec<char> = s.chars().collect();
    if b.len() != 36 {
        return false;
    }
    for (i, c) in b.iter().enumerate() {
        let ok = if i == 8 || i == 13 || i == 18 || i == 23 {
            *c == '-'
        } else {
            c.is_ascii_digit() || ('a'..='f').contains(c)
        };
        if !ok {
            return false;
        }
    }
    b[14] == '4' && matches!(b[19], '8' | '9' | 'a' | 'b')
}

#[test]
fn checkpoint_dir_is_under_temp_dir() {
    let mgr = CheckpointManager::new("/tmp");
    assert_eq!(mgr.checkpoint_dir(), "/tmp/agnoshi-checkpoints");
    let mgr = CheckpointManager::new("/tmp/");
    assert_eq!(mgr.checkpoint_dir(), "/tmp/agnoshi-checkpoints");
    assert_eq!(mgr.checkpoint_count(), 0);
}

#[test]
fn join_path_adds_one_separator() {
    assert_eq!(join_path_text("/var/tmp", "x"), "/var/tmp/x");
    assert_eq!(join_path_text("/var/tmp/", "x"), "/var/tmp/x");
    assert_eq!(join_path_text("", "x"), "x");
}

#[test]
fn checkpoint_move_records_the_move() {
    let mut mgr = CheckpointManager::new("/tmp");
    let cp = mgr.checkpoint_move("/home/u/a.txt", "/home/u/b.txt").unwrap();
    assert_eq!(cp.command, "mv");
    assert_eq!(cp.args, vec!["/home/u/a.txt".to_string(), "/home/u/b.txt".to_string()]);
    assert!(is_uuid_v4(&cp.id), "id {} is not a v4 uuid", cp.id);
    assert!(cp.timestamp.ends_with("+00:00"));
    match &cp.operation {
        CheckpointOp::FileMoved { source, destination } => {
            assert_eq!(source, "/home/u/a.txt");
            assert_eq!(destination, "/home/u/b.txt");
        }
        other => panic!("unexpected operation {:?}", other),
    }
    assert_eq!(mgr.checkpoint_count(), 1);
}

#[test]
fn checkpoint_ids_differ() {
    let mut mgr = CheckpointManager::new("/tmp");
    let a = mgr.checkpoint_move("a", "b").unwrap();
    let b = mgr.checkpoint_move("c", "d").unwrap();
    assert_ne!(a.id, b.id);
    assert_eq!(mgr.checkpoint_count(), 2);
}

#[test]
fn undo_after_move_moves_back() {
    let mut mgr = CheckpointManager::new("/tmp");
    mgr.checkpoint_move("/src.txt", "/dst.txt").unwrap();
    match mgr.undo_last() {
        Some(UndoStep::MoveBack { from, to, done, missing }) => {
            assert_eq!(from, "/dst.txt");
            assert_eq!(to, "/src.txt");
            assert_eq!(done, "Moved back: /dst.txt -> /src.txt");
            assert_eq!(missing, "File not found at: /dst.txt");
        }
        _ => panic!("expected a move back"),
    }
    assert_eq!(mgr.checkpoint_count(), 0);
}

#[test]
fn undo_with_no_checkpoint_is_none() {
    let mut mgr = CheckpointManager::new("/tmp");
    assert!(mgr.undo_last().is_none());
    assert_eq!(mgr.checkpoint_count(), 0);
}

#[test]
fn undo_takes_the_latest_first() {
    let mut mgr = CheckpointManager::new("/tmp");
    mgr.checkpoint_move("/a", "/b").unwrap();
    mgr.checkpoint_move("/c", "/d").unwrap();
    match mgr.undo_last() {
        Some(UndoStep::MoveBack { from, to, .. }) => {
            assert_eq!(from, "/d");
            assert_eq!(to, "/c");
        }
        _ => panic!("expected a move back"),
    }
    match mgr.undo_last() {
        Some(UndoStep::MoveBack { from, to, .. }) => {
            assert_eq!(from, "/b");
            assert_eq!(to, "/a");
        }
        _ => panic!("expected a move back"),
    }
    assert!(mgr.undo_last().is_none());
}

#[test]
fn plan_remove_skips_missing_paths_and_directories() {
    let mgr = CheckpointManager::new("/tmp");
    assert!(matches!(mgr.plan_remove(false, false), RemovePlan::Skip));
    assert!(matches!(mgr.plan_remove(false, true), RemovePlan::Skip));
    assert!(matches!(mgr.plan_remove(true, true), RemovePlan::Skip));
    match mgr.plan_remove(true, false) {
        RemovePlan::Backup { id, backup_path } => {
            assert!(is_uuid_v4(&id));
            assert_eq!(backup_path, format!("/tmp/agnoshi-checkpoints/{}", id));
        }
        RemovePlan::Skip | RemovePlan::NoRandomness => panic!("a file is backed up"),
    }
}

#[test]
fn checkpoint_remove_then_undo_restores() {
    let mut mgr = CheckpointManager::new("/tmp");
    let id = match mgr.plan_remove(true, false) {
        RemovePlan::Backup { id, .. } => id,
        RemovePlan::Skip | RemovePlan::NoRandomness => panic!("a file is backed up"),
    };
    let cp = mgr.checkpoint_remove("/home/u/notes.txt", id.clone()).unwrap();
    assert_eq!(cp.command, "rm");
    assert_eq!(cp.args, vec!["/home/u/notes.txt".to_string()]);
    assert_eq!(cp.id, id);
    assert!(cp.timestamp.ends_with("+00:00"));
    let backup = format!("/tmp/agnoshi-checkpoints/{}", id);
    match &cp.operation {
        CheckpointOp::FileRemoved { original_path, backup_path } => {
            assert_eq!(original_path, "/home/u/notes.txt");
            assert_eq!(backup_path, &backup);
        }
        other => panic!("unexpected operation {:?}", other),
    }
    assert_eq!(mgr.checkpoint_count(), 1);
    match mgr.undo_last() {
        Some(UndoStep::MoveBack { from, to, done, missing }) => {
            assert_eq!(from, backup);
            assert_eq!(to, "/home/u/notes.txt");
            assert_eq!(done, "Restored: /home/u/notes.txt");
            assert_eq!(missing, format!("Backup not found: {}", backup));
        }
        _ => panic!("expected a move back"),
    }
    assert_eq!(mgr.checkpoint_count(), 0);
}

#[test]
fn permission_changes_cannot_be_undone() {
    let cp = Checkpoint {
        id: "x".to_string(),
        timestamp: "t".to_string(),
        command: "chmod".to_string(),
        args: vec!["755".to_string(), "/f".to_string()],
        operation: CheckpointOp::PermissionsChanged { path: "/f".to_string(), old_mode: 0o644 },
    };
    match cp.undo_step() {
        UndoStep::Unsupported { message } => {
            assert_eq!(message, "Undo not supported for this operation type")
        }
        _ => panic!("expected no undo"),
    }
    let cp = Checkpoint {
        id: "y".to_string(),
        timestamp: "t".to_string(),
        command: "chown".to_string(),
        args: vec![],
        operation: CheckpointOp::OwnershipChanged { path: "/f".to_string(), old_owner: "root".to_string() },
    };
    assert!(matches!(cp.undo_step(), UndoStep::Unsupported { .. }));
}

#[test]
fn duplicate_keeps_every_field() {
    let cp = Checkpoint {
        id: "id-1".to_string(),
        timestamp: "2026-01-01T00:00:00+00:00".to_string(),
        command: "mv".to_string(),
        args: vec!["a".to_string(), "b".to_string()],
        operation: CheckpointOp::FileMoved { source: "a".to_string(), destination: "b".to_string() },
    };
    let d = cp.duplicate();
    assert_eq!(d.id, cp.id);
    assert_eq!(d.timestamp, cp.timestamp);
    assert_eq!(d.command, cp.command);
    assert_eq!(d.args, cp.args);
    assert_eq!(format!("{:?}", d.operation), format!("{:?}", cp.operation));
}

#[test]
fn test_undo_last_returns_none_when_empty() {
    let mut mgr = CheckpointManager::new("/tmp");
    let result = mgr.undo_last();
    assert!(result.is_none());
}

#[test]
fn test_checkpoint_remove_nonexistent_file() {
    let mgr = CheckpointManager::new("/tmp");
    // "/nonexistent/file.txt" does not exist.
    let result = mgr.plan_remove(false, false);
    assert!(matches!(result, RemovePlan::Skip));
    assert_eq!(mgr.checkpoint_count(), 0);
}

#[test]
fn test_checkpoint_remove_directory_skipped() {
    let mgr = CheckpointManager::new("/tmp");
    // The path exists and is a directory.
    let result = mgr.plan_remove(true, true);
    assert!(matches!(result, RemovePlan::Skip));
    assert_eq!(mgr.checkpoint_count(), 0);
}

#[test]
fn record_move_keeps_the_given_id_and_time() {
    let mut mgr = CheckpointManager::new("/tmp");
    let cp = mgr.record_move("id-7".to_string(), "2026-01-02T03:04:05+00:00".to_string(), "/a", "/b");
    assert_eq!(cp.id, "id-7");
    assert_eq!(cp.timestamp, "2026-01-02T03:04:05+00:00");
    assert_eq!(cp.command, "mv");
    assert_eq!(cp.args, vec!["/a".to_string(), "/b".to_string()]);
    assert_eq!(mgr.checkpoint_count(), 1);
    mgr.record_move("id-8".to_string(), "t".to_string(), "/c", "/d");
    assert_eq!(mgr.checkpoint_count(), 2);
}

#[test]
fn record_remove_backs_up_under_the_given_id() {
    let mut mgr = CheckpointManager::new("/var/tmp");
    let cp = mgr.record_remove("/home/u/x", "id-9".to_string(), "t0".to_string());
    assert_eq!(cp.id, "id-9");
    assert_eq!(cp.timestamp, "t0");
    assert_eq!(cp.command, "rm");
    assert_eq!(cp.args, vec!["/home/u/x".to_string()]);
    match &cp.operation {
        CheckpointOp::FileRemoved { original_path, backup_path } => {
            assert_eq!(original_path, "/home/u/x");
            assert_eq!(backup_path, "/var/tmp/agnoshi-checkpoints/id-9");
        }
        other => panic!("unexpected operation {:?}", other),
    }
    assert_eq!(mgr.checkpoint_count(), 1);
}
