use std::collections::BTreeMap;

use cargo_mini_repo::err_context::ErrWithContext;
use cargo_mini_repo::metadata::PublishedCrate;
use cargo_mini_repo::payload::{FramePart, PayloadError};
use cargo_mini_repo::publish::{
    advance, begin_transaction, commit_parents, descriptor_failure, index_line, payload_failure, plan_publish,
    record_encoding_failure, remote_master_parent, BranchLookup,
    PublishError, PublishStep, SyncPhase, TxState,
};
use cargo_mini_repo::storage::resolve_download;

fn descriptor(name: &str, vers: &str) -> PublishedCrate {
    PublishedCrate {
        name: name.to_string(),
        vers: vers.to_string(),
        deps: vec![],
        features: BTreeMap::new(),
        authors: vec![],
        description: None,
        documentation: None,
        homepage: None,
        readme: None,
        readme_file: None,
        keywords: vec![],
        categories: vec![],
        license: None,
        license_file: None,
        repository: None,
        badges: BTreeMap::new(),
        links: None,
        v: None,
    }
}

#[test]
fn publish_foo_plan() {
    let plan = plan_publish(descriptor("foo", "1.0.0"), b"DATA".to_vec()).ok().unwrap();
    assert_eq!(plan.archive_path, "foo/1.0.0/archive.crate");
    assert_eq!(plan.archive, b"DATA".to_vec());
    assert_eq!(plan.index_path, "3/f/foo");
    assert_eq!(plan.record.name, "foo");
    assert_eq!(plan.record.vers, "1.0.0");
    assert_eq!(
        plan.record.cksum,
        "c97c29c7a71b392b437ee03fd17f09bb10b75e879466fc0eb757b2c4a78ac938"
    );
    assert!(!plan.record.yanked);
}

#[test]
fn download_after_publish_finds_archive() {
    let plan = plan_publish(descriptor("foo", "1.0.0"), b"DATA".to_vec()).ok().unwrap();
    assert_eq!(resolve_download("/foo/1.0.0"), Some(plan.archive_path));
    assert_ne!(
        resolve_download("/foo/9.9.9"),
        Some("foo/1.0.0/archive.crate".to_string())
    );
}

#[test]
fn republish_targets_same_files() {
    let first = plan_publish(descriptor("Serde", "1.0.0"), b"one".to_vec()).ok().unwrap();
    let second = plan_publish(descriptor("Serde", "1.0.0"), b"two".to_vec()).ok().unwrap();
    assert_eq!(first.archive_path, second.archive_path);
    assert_eq!(first.archive_path, "Serde/1.0.0/archive.crate");
    assert_eq!(first.index_path, second.index_path);
    assert_eq!(first.index_path, "se/rd/serde");
    assert_eq!(second.archive, b"two".to_vec());
    assert_ne!(first.record.cksum, second.record.cksum);
}

#[test]
fn plan_rejects_unstorable_names() {
    for (name, vers) in [("", "1.0.0"), ("..", "1.0.0"), ("a/b", "1.0.0"), ("foo", ".."), ("foo", "")] {
        match plan_publish(descriptor(name, vers), vec![]) {
            Err(PublishError::BadDescriptor(_)) => {}
            _ => panic!("accepted {}/{}", name, vers),
        }
    }
}

#[test]
fn index_line_ends_with_newline() {
    assert_eq!(index_line("{\"name\":\"foo\"}"), "{\"name\":\"foo\"}\n");
}

#[test]
fn transaction_runs_every_step_in_order() {
    let mut state = begin_transaction();
    let mut seen = Vec::new();
    loop {
        match state {
            TxState::Running(step) => {
                seen.push(step);
                state = advance(step, Ok(()));
            }
            TxState::Done => break,
            TxState::Failed(_) => panic!("no step failed"),
        }
    }
    assert_eq!(seen.len(), 17);
    assert_eq!(seen[0], PublishStep::CreateArchiveDir);
    assert_eq!(seen[5], PublishStep::AppendIndexLine);
    assert_eq!(seen[6], PublishStep::FindOrigin);
    assert_eq!(seen[7], PublishStep::GetIndex);
    assert_eq!(seen[15], PublishStep::Commit);
    assert_eq!(seen[16], PublishStep::Push);
    assert_eq!(PublishStep::Push.phase(), SyncPhase::Pushing);
    assert!(!PublishStep::WriteArchive.needs_repository());
    assert!(PublishStep::StageAll.needs_repository());
}

#[test]
fn failed_storing_step_is_io_error() {
    match advance(PublishStep::WriteArchive, Err("disk full".to_string())) {
        TxState::Failed(PublishError::Io(c)) => {
            assert_eq!(c.context, "Write tarball");
            assert_eq!(c.source, "disk full");
        }
        _ => panic!("expected an I/O failure"),
    }
}

#[test]
fn failed_push_is_git_error_with_trace() {
    match advance(PublishStep::Push, Err("non-fast-forward".to_string())) {
        TxState::Failed(e) => {
            assert_eq!(
                e.trace(),
                "Failed to commit changes to index\nCaused by:\nContext: Push to origin\nCaused by:\nnon-fast-forward\n"
            );
        }
        _ => panic!("expected a failure"),
    }
}

#[test]
fn payload_failures_map_to_publish_errors() {
    assert!(matches!(payload_failure(PayloadError::NoData), PublishError::NoData));
    assert_eq!(payload_failure(PayloadError::NoData).trace(), "Unable to retrieve the data\n");
    match payload_failure(PayloadError::Truncated(FramePart::Archive)) {
        PublishError::Io(c) => {
            assert_eq!(c.context, "Read tarball");
            assert_eq!(c.source, "payload ended early");
        }
        _ => panic!("expected an I/O failure"),
    }
}

#[test]
fn descriptor_failure_chain() {
    let e = descriptor_failure("invalid semver".to_string());
    assert_eq!(e.headline(), "Failed to parse JSON data");
    assert_eq!(
        e.chain(),
        vec![
            "Failed to parse JSON data".to_string(),
            "Context: Parse JSON".to_string(),
            "invalid semver".to_string()
        ]
    );
    let g = PublishError::Git(ErrWithContext { context: "Commit".to_string(), source: "x".to_string() });
    assert_eq!(g.headline(), "Failed to commit changes to index");
}

#[test]
fn status_codes_by_error_kind() {
    assert_eq!(PublishError::NoData.status_code(), 400);
    assert_eq!(descriptor_failure("bad".to_string()).status_code(), 400);
    match advance(PublishStep::Push, Err("rejected".to_string())) {
        TxState::Failed(e) => assert_eq!(e.status_code(), 500),
        _ => panic!("expected a failure"),
    }
    match advance(PublishStep::CreateIndexDir, Err("denied".to_string())) {
        TxState::Failed(e) => assert_eq!(e.status_code(), 500),
        _ => panic!("expected a failure"),
    }
}

#[test]
fn plan_accepts_empty_archive() {
    let plan = plan_publish(descriptor("foo", "1.0.0"), vec![]).ok().unwrap();
    assert!(plan.archive.is_empty());
    assert_eq!(
        plan.record.cksum,
        "e3b0c44298fc1c149afbf4c8996fb92427ae41e4649b934ca495991b7852b855"
    );
}

#[test]
fn plan_failure_labels() {
    match plan_publish(descriptor("a/b", "1.0.0"), vec![]) {
        Err(PublishError::BadDescriptor(c)) => {
            assert_eq!(c.context, "Check crate name");
            assert_eq!(c.source, "not usable as a directory name");
        }
        _ => panic!("expected a descriptor error"),
    }
    match plan_publish(descriptor("foo", ".."), vec![]) {
        Err(PublishError::BadDescriptor(c)) => assert_eq!(c.context, "Check version"),
        _ => panic!("expected a descriptor error"),
    }
}

#[test]
fn failed_origin_lookup_comes_before_staging() {
    match advance(PublishStep::FindOrigin, Err("remote 'origin' does not exist".to_string())) {
        TxState::Failed(PublishError::Git(c)) => assert_eq!(c.context, "Get remote origin"),
        _ => panic!("expected a repository failure"),
    }
    assert!(matches!(
        advance(PublishStep::AppendIndexLine, Ok(())),
        TxState::Running(PublishStep::FindOrigin)
    ));
}

#[test]
fn record_encoding_failure_label() {
    let e = record_encoding_failure("bad".to_string());
    assert_eq!(e.status_code(), 500);
    assert_eq!(e.headline(), "Failed to generate index record");
    match e {
        PublishError::BadRecord(c) => {
            assert_eq!(c.context, "Generate JSON");
            assert_eq!(c.source, "bad");
        }
        _ => panic!("expected a record error"),
    }
}

#[test]
fn plan_names_directories() {
    let plan = plan_publish(descriptor("Serde", "1.0.0"), b"x".to_vec()).ok().unwrap();
    assert_eq!(plan.archive_dir, "Serde/1.0.0");
    assert_eq!(plan.index_dir, "se/rd");
    let plan = plan_publish(descriptor("foo", "0.1.0"), b"x".to_vec()).ok().unwrap();
    assert_eq!(plan.index_dir, "3/f");
}

#[test]
fn remote_master_lookup_decides_parent() {
    assert_eq!(remote_master_parent(BranchLookup::Found(Some(5u8))), Ok(Some(5u8)));
    assert_eq!(remote_master_parent(BranchLookup::Found(None::<u8>)), Ok(None));
    assert_eq!(remote_master_parent(BranchLookup::<u8>::Missing), Ok(None));
    assert_eq!(
        remote_master_parent(BranchLookup::<u8>::Failed("broken".to_string())),
        Err("broken".to_string())
    );
}

#[test]
fn commit_parents_from_remote_master() {
    assert_eq!(commit_parents(Some(7u8)), vec![7u8]);
    assert!(commit_parents::<u8>(None).is_empty());
}
