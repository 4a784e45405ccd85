use vstd::prelude::*;

use crate::browser::FileBrowser;
use crate::fs_path::{FsPath, PathModel};

verus! {

/// Whether a transfer copies or moves.
#[derive(Debug, Clone, Copy, PartialEq, Eq, Structural)]
pub enum TransferConflictMode {
    Copy,
    Move,
}

/// How a transfer treats an existing target.
#[derive(Debug, Clone, Copy, PartialEq, Eq, Structural)]
pub enum TransferConflictStrategy {
    Ask,
    Replace,
    Skip,
    KeepBoth,
}

/// The user's answer to one conflict.
#[derive(Debug, Clone, Copy, PartialEq, Eq, Structural)]
pub enum TransferConflictChoice {
    Replace,
    Skip,
    Rename,
}

/// One queued transfer of a source to a target.
#[derive(Debug, Clone, PartialEq, Eq)]
pub struct QueuedTransfer {
    pub source: FsPath,
    pub target: FsPath,
    pub conflict_strategy: TransferConflictStrategy,
}

/// A transfer whose target already exists.
#[derive(Debug, Clone, PartialEq, Eq)]
pub struct TransferConflictItem {
    pub source: FsPath,
    pub target: FsPath,
}

/// The conflicts of a batch of transfers being answered one by one.
#[derive(Debug, Clone, PartialEq, Eq)]
pub struct TransferConflictState {
    pub mode: TransferConflictMode,
    pub transfers: Vec<QueuedTransfer>,
    pub conflicts: Vec<TransferConflictItem>,
    pub current_index: usize,
    pub apply_to_all: bool,
}

/// A destructive action waiting for confirmation.
#[derive(Debug, Clone, PartialEq, Eq)]
pub enum DestructiveActionConfirmation {
    DeleteTrashEntries { entries: Vec<FsPath> },
    DeletePermanently { paths: Vec<FsPath> },
    EmptyTrash,
}


/// The meaning of a [`QueuedTransfer`].
pub struct TransferModel {
    pub source: PathModel,
    pub target: PathModel,
    pub conflict_strategy: TransferConflictStrategy,
}

impl View for QueuedTransfer {
    type V = TransferModel;

    open spec fn view(&self) -> TransferModel {
        TransferModel { source: self.source@, target: self.target@, conflict_strategy: self.conflict_strategy }
    }
}

/// The meanings of a list of transfers.
pub open spec fn transfers_view(transfers: Seq<QueuedTransfer>) -> Seq<TransferModel> {
    transfers.map_values(|t: QueuedTransfer| t@)
}

/// The source and target of each transfer, in order.
pub open spec fn transfer_keys(transfers: Seq<TransferModel>) -> Seq<(PathModel, PathModel)> {
    transfers.map_values(|t: TransferModel| (t.source, t.target))
}

/// The source and target of each conflict, in order.
pub open spec fn conflict_keys(conflicts: Seq<TransferConflictItem>) -> Seq<(PathModel, PathModel)> {
    conflicts.map_values(|c: TransferConflictItem| (c.source@, c.target@))
}

/// The strategy an answer sets: a rename keeps both files.
pub open spec fn strategy_for(choice: TransferConflictChoice) -> TransferConflictStrategy {
    match choice {
        TransferConflictChoice::Replace => TransferConflictStrategy::Replace,
        TransferConflictChoice::Skip => TransferConflictStrategy::Skip,
        TransferConflictChoice::Rename => TransferConflictStrategy::KeepBoth,
    }
}

/// The transfers after the answer `choice` to the conflict at `index`: the
/// first transfer with the conflict's source and target takes the answer's
/// strategy. Without such a conflict or transfer nothing changes.
pub open spec fn answered(
    transfers: Seq<TransferModel>,
    conflicts: Seq<(PathModel, PathModel)>,
    index: int,
    choice: TransferConflictChoice,
) -> Seq<TransferModel> {
    if 0 <= index < conflicts.len() {
        match transfer_keys(transfers).index_of_first(conflicts[index]) {
            Some(p) => transfers.update(p, TransferModel { conflict_strategy: strategy_for(choice), ..transfers[p] }),
            None => transfers,
        }
    } else {
        transfers
    }
}

/// The transfers after the answer `choice` is given to each conflict from
/// `from` up to (not including) `to`, in order.
pub open spec fn answered_range(
    transfers: Seq<TransferModel>,
    conflicts: Seq<(PathModel, PathModel)>,
    from: int,
    to: int,
    choice: TransferConflictChoice,
) -> Seq<TransferModel>
    decreases to - from,
{
    if to <= from {
        transfers
    } else {
        answered(answered_range(transfers, conflicts, from, to - 1, choice), conflicts, to - 1, choice)
    }
}

/// The position of the first transfer with the conflict's source and target.
pub fn conflict_transfer_position(state: &TransferConflictState, conflict: &TransferConflictItem) -> (r: Option<usize>)
    ensures
        match r {
            Some(i) => transfer_keys(transfers_view(state.transfers@)).index_of_first((conflict.source@, conflict.target@))
                == Some(i as int),
            None => transfer_keys(transfers_view(state.transfers@)).index_of_first((conflict.source@, conflict.target@)) is None,
        },
{
    let ghost keys = transfer_keys(transfers_view(state.transfers@));
    let ghost key = (conflict.source@, conflict.target@);
    proof {
        keys.index_of_first_ensures(key);
    }
    let mut i: usize = 0;
    while i < state.transfers.len()
        invariant
            i <= state.transfers@.len(),
            keys == transfer_keys(transfers_view(state.transfers@)),
            key == (conflict.source@, conflict.target@),
            forall|j: int| 0 <= j < i ==> keys[j] != key,
        decreases state.transfers.len() - i,
    {
        let transfer = &state.transfers[i];
        proof {
            assert(keys[i as int] == (transfer.source@, transfer.target@));
        }
        if transfer.source.same_path(&conflict.source) && transfer.target.same_path(&conflict.target) {
            proof {
                keys.index_of_first_ensures(key);
                assert(keys.contains(key));
                let k = keys.index_of_first(key).unwrap();
                if k < i {
                    assert(keys[k] != key);
                }
                if k > i {
                    assert(keys[i as int] != key);
                }
            }
            return Some(i);
        }
        i = i + 1;
    }
    proof {
        if keys.contains(key) {
            let k = choose|k: int| 0 <= k < keys.len() && keys[k] == key;
            assert(keys[k] != key);
        }
    }
    None
}

/// Gives the answer `choice` to the current conflict: see [`answered`].
pub fn apply_conflict_choice(state: &mut TransferConflictState, choice: TransferConflictChoice)
    ensures
        transfers_view(final(state).transfers@) == answered(
            transfers_view(old(state).transfers@),
            conflict_keys(old(state).conflicts@),
            old(state).current_index as int,
            choice,
        ),
        final(state).conflicts == old(state).conflicts,
        final(state).current_index == old(state).current_index,
        final(state).apply_to_all == old(state).apply_to_all,
        final(state).mode == old(state).mode,
{
    if state.current_index >= state.conflicts.len() {
        return;
    }
    let conflict = TransferConflictItem {
        source: state.conflicts[state.current_index].source.copy(),
        target: state.conflicts[state.current_index].target.copy(),
    };
    let position = match conflict_transfer_position(state, &conflict) {
        Some(p) => p,
        None => return,
    };
    proof {
        transfer_keys(transfers_view(state.transfers@)).index_of_first_ensures((conflict.source@, conflict.target@));
    }
    let strategy = match choice {
        TransferConflictChoice::Replace => TransferConflictStrategy::Replace,
        TransferConflictChoice::Skip => TransferConflictStrategy::Skip,
        TransferConflictChoice::Rename => TransferConflictStrategy::KeepBoth,
    };
    let ghost before = transfers_view(state.transfers@);
    let mut transfer = QueuedTransfer {
        source: state.transfers[position].source.copy(),
        target: state.transfers[position].target.copy(),
        conflict_strategy: strategy,
    };
    state.transfers.set(position, transfer);
    proof {
        assert(transfers_view(state.transfers@) =~= before.update(
            position as int,
            TransferModel { conflict_strategy: strategy_for(choice), ..before[position as int] },
        ));
    }
}

/// A batch of transfers that is ready to be queued.
pub struct ReadyTransfers {
    pub mode: TransferConflictMode,
    pub transfers: Vec<QueuedTransfer>,
}

impl FileBrowser {
    /// Receives the conflicts found for a batch of transfers. Without
    /// conflicts the batch is ready to be queued; otherwise menus close and
    /// the conflicts are asked one by one from the first.
    pub fn accept_transfer_conflicts_checked(
        &mut self,
        mode: TransferConflictMode,
        transfers: Vec<QueuedTransfer>,
        conflicts: Vec<TransferConflictItem>,
    ) -> (ready: Option<ReadyTransfers>)
        ensures
            conflicts@.len() == 0 ==> *final(self) == *old(self) && (ready matches Some(r) && r.mode == mode
                && r.transfers == transfers),
            conflicts@.len() > 0 ==> ready is None && *final(self) == (FileBrowser {
                context_menu: None,
                transfer_conflict: Some(TransferConflictState { mode, transfers, conflicts, current_index: 0, apply_to_all: false }),
                ..*old(self)
            }),
    {
        if conflicts.len() == 0 {
            return Some(ReadyTransfers { mode, transfers });
        }
        self.context_menu = None;
        self.transfer_conflict = Some(
            TransferConflictState { mode, transfers, conflicts, current_index: 0, apply_to_all: false },
        );
        None
    }

    /// Flips whether the next answer applies to all remaining conflicts.
    pub fn toggle_transfer_conflict_apply_to_all(&mut self)
        ensures
            *final(self) == match old(self).transfer_conflict {
                Some(state) => FileBrowser {
                    transfer_conflict: Some(TransferConflictState { apply_to_all: !state.apply_to_all, ..state }),
                    ..*old(self)
                },
                None => *old(self),
            },
    {
        match &mut self.transfer_conflict {
            Some(state) => {
                state.apply_to_all = !state.apply_to_all;
            },
            None => {},
        }
    }

    /// Dismisses the conflict prompt without queuing anything.
    pub fn cancel_transfer_conflicts(&mut self)
        ensures
            *final(self) == (FileBrowser { transfer_conflict: None, ..*old(self) }),
    {
        self.transfer_conflict = None;
    }

    /// Answers the current conflict with `choice`, or every remaining one
    /// when the answer applies to all. When no conflict is left the batch,
    /// with the answers' strategies, is ready to be queued and the prompt
    /// closes; otherwise the prompt moves on to the next conflict.
    pub fn resolve_transfer_conflict_choice(&mut self, choice: TransferConflictChoice) -> (ready: Option<ReadyTransfers>)
        ensures
            match old(self).transfer_conflict {
                None => ready is None && *final(self) == *old(self),
                Some(state) => {
                    let n = state.conflicts@.len() as int;
                    let i = state.current_index as int;
                    let end = if i >= n {
                        i
                    } else if state.apply_to_all {
                        n
                    } else {
                        i + 1
                    };
                    let transfers = answered_range(
                        transfers_view(state.transfers@),
                        conflict_keys(state.conflicts@),
                        i,
                        end,
                        choice,
                    );
                    if end >= n {
                        &&& *final(self) == (FileBrowser { transfer_conflict: None, ..*old(self) })
                        &&& ready matches Some(r) && r.mode == state.mode && transfers_view(r.transfers@) == transfers
                    } else {
                        &&& ready is None
                        &&& final(self).transfer_conflict matches Some(f) && f.mode == state.mode
                            && transfers_view(f.transfers@) == transfers && f.conflicts == state.conflicts
                            && f.current_index == end && f.apply_to_all == state.apply_to_all
                        &&& *final(self) == (FileBrowser { transfer_conflict: final(self).transfer_conflict, ..*old(self) })
                    }
                },
            },
    {
        let mut state = match self.transfer_conflict.take() {
            Some(state) => state,
            None => return None,
        };
        let ghost start = state.current_index as int;
        let ghost initial = transfers_view(state.transfers@);
        let ghost keys = conflict_keys(state.conflicts@);
        let apply_to_all = state.apply_to_all;
        loop
            invariant_except_break
                !apply_to_all ==> state.current_index == start,
            invariant
                start <= state.current_index <= (if start >= state.conflicts@.len() {
                    start
                } else {
                    state.conflicts@.len() as int
                }),
                keys == conflict_keys(state.conflicts@),
                apply_to_all == state.apply_to_all,
                transfers_view(state.transfers@) == answered_range(initial, keys, start, state.current_index as int, choice),
                state.mode == old(self).transfer_conflict.unwrap().mode,
                state.conflicts == old(self).transfer_conflict.unwrap().conflicts,
                state.apply_to_all == old(self).transfer_conflict.unwrap().apply_to_all,
                start == old(self).transfer_conflict.unwrap().current_index,
                initial == transfers_view(old(self).transfer_conflict.unwrap().transfers@),
            ensures
                state.current_index as int == (if start >= state.conflicts@.len() {
                    start
                } else if apply_to_all {
                    state.conflicts@.len() as int
                } else {
                    start + 1
                }),
                transfers_view(state.transfers@) == answered_range(initial, keys, start, state.current_index as int, choice),
                state.mode == old(self).transfer_conflict.unwrap().mode,
                state.conflicts == old(self).transfer_conflict.unwrap().conflicts,
                state.apply_to_all == old(self).transfer_conflict.unwrap().apply_to_all,
            decreases state.conflicts@.len() - state.current_index,
        {
            if state.current_index >= state.conflicts.len() {
                break;
            }
            apply_conflict_choice(&mut state, choice);
            state.current_index = state.current_index + 1;
            if !apply_to_all {
                break;
            }
        }
        if state.current_index >= state.conflicts.len() {
            return Some(ReadyTransfers { mode: state.mode, transfers: state.transfers });
        }
        self.transfer_conflict = Some(state);
        None
    }
}
} // verus!
