use file_browser_core::browser::FileBrowser;
use file_browser_core::conflict::{
    apply_conflict_choice, QueuedTransfer, TransferConflictChoice, TransferConflictItem, TransferConflictMode,
    TransferConflictState, TransferConflictStrategy,
};
use file_browser_core::fs_path::FsPath;

fn path(text: &str) -> FsPath {
    FsPath::from_text(text)
}

fn transfer(source: &str, target: &str) -> QueuedTransfer {
    QueuedTransfer { source: path(source), target: path(target), conflict_strategy: TransferConflictStrategy::Ask }
}

fn conflict(source: &str, target: &str) -> TransferConflictItem {
    TransferConflictItem { source: path(source), target: path(target) }
}

fn test_conflict_state() -> TransferConflictState {
    TransferConflictState {
        mode: TransferConflictMode::Copy,
        transfers: vec![transfer("/source/report.txt", "/target/report.txt")],
        conflicts: vec![conflict("/source/report.txt", "/target/report.txt")],
        current_index: 0,
        apply_to_all: false,
    }
}

#[test]
fn transfer_conflict_rename_uses_keep_both_strategy() {
    let mut state = test_conflict_state();

    apply_conflict_choice(&mut state, TransferConflictChoice::Rename);

    assert_eq!(state.transfers[0].conflict_strategy, TransferConflictStrategy::KeepBoth);
}

#[test]
fn transfers_without_conflicts_are_ready_at_once() {
    let mut browser = FileBrowser::new(path("/"));
    let ready = browser
        .accept_transfer_conflicts_checked(TransferConflictMode::Move, vec![transfer("/a", "/b/a")], vec![])
        .expect("ready");
    assert_eq!(ready.mode, TransferConflictMode::Move);
    assert_eq!(ready.transfers.len(), 1);
    assert!(browser.transfer_conflict.is_none());
}

#[test]
fn conflicts_are_answered_one_by_one_then_queued() {
    let mut browser = FileBrowser::new(path("/"));
    let transfers = vec![transfer("/a", "/t/a"), transfer("/b", "/t/b"), transfer("/c", "/t/c")];
    let conflicts = vec![conflict("/a", "/t/a"), conflict("/c", "/t/c")];
    assert!(browser.accept_transfer_conflicts_checked(TransferConflictMode::Copy, transfers, conflicts).is_none());
    assert!(browser.resolve_transfer_conflict_choice(TransferConflictChoice::Skip).is_none());
    assert_eq!(browser.transfer_conflict.as_ref().map(|s| s.current_index), Some(1));
    let ready = browser.resolve_transfer_conflict_choice(TransferConflictChoice::Replace).expect("ready");
    let strategies: Vec<_> = ready.transfers.iter().map(|t| t.conflict_strategy).collect();
    assert_eq!(
        strategies,
        vec![TransferConflictStrategy::Skip, TransferConflictStrategy::Ask, TransferConflictStrategy::Replace]
    );
    assert!(browser.transfer_conflict.is_none());
}

#[test]
fn apply_to_all_answers_every_remaining_conflict() {
    let mut browser = FileBrowser::new(path("/"));
    let transfers = vec![transfer("/a", "/t/a"), transfer("/b", "/t/b")];
    let conflicts = vec![conflict("/a", "/t/a"), conflict("/b", "/t/b")];
    assert!(browser.accept_transfer_conflicts_checked(TransferConflictMode::Move, transfers, conflicts).is_none());
    browser.toggle_transfer_conflict_apply_to_all();
    let ready = browser.resolve_transfer_conflict_choice(TransferConflictChoice::Rename).expect("ready");
    assert!(ready.transfers.iter().all(|t| t.conflict_strategy == TransferConflictStrategy::KeepBoth));
}

#[test]
fn conflict_without_matching_transfer_changes_nothing() {
    let mut state = test_conflict_state();
    state.conflicts = vec![conflict("/elsewhere", "/target/report.txt")];
    apply_conflict_choice(&mut state, TransferConflictChoice::Replace);
    assert_eq!(state.transfers[0].conflict_strategy, TransferConflictStrategy::Ask);
}
