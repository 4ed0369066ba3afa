//! The bookkeeping of a play session.

use crate::game::action_log::ActionLog;
use vstd::prelude::*;

verus! {

/// The resolved events, oldest first. The engine only ever appends.
#[derive(PartialEq, Eq, Debug)]
pub struct ActionJournal {
    pub entries: Vec<ActionLog>,
}

/// The number of turns resolved so far.
#[derive(Clone, Copy, PartialEq, Eq, Debug, Structural)]
pub struct GameTurn(pub u32);

/// The entry of the main menu that the cursor is on.
#[derive(Clone, Copy, PartialEq, Eq, Debug, Structural)]
pub struct ActiveMenuIndex(pub usize);

impl Clone for ActionJournal {
    fn clone(&self) -> (copy: Self)
        ensures
            copy.entries@ == self.entries@,
    {
        let mut entries: Vec<ActionLog> = Vec::new();
        let mut i: usize = 0;
        while i < self.entries.len()
            invariant
                i <= self.entries@.len(),
                entries@.len() == i,
                forall|k: int| 0 <= k < i ==> #[trigger] entries@[k] == self.entries@[k],
            decreases self.entries@.len() - i,
        {
            entries.push(self.entries[i].clone());
            i += 1;
        }
        assert(entries@ =~= self.entries@);
        ActionJournal { entries }
    }
}

impl Default for ActionJournal {
    fn default() -> (journal: Self)
        ensures
            journal.entries@ == Seq::<ActionLog>::empty(),
    {
        ActionJournal { entries: Vec::new() }
    }
}

impl Default for GameTurn {
    fn default() -> (turn: Self)
        ensures
            turn == GameTurn(0),
    {
        GameTurn(0)
    }
}

impl Default for ActiveMenuIndex {
    fn default() -> (index: Self)
        ensures
            index == ActiveMenuIndex(0),
    {
        ActiveMenuIndex(0)
    }
}

impl ActionJournal {
    /// The `count` newest records, newest first, or all of them where the
    /// journal holds fewer.
    pub open spec fn newest(entries: Seq<ActionLog>, count: nat) -> Seq<ActionLog> {
        Seq::new(
            if count <= entries.len() {
                count
            } else {
                entries.len()
            },
            |i: int| entries[entries.len() - 1 - i],
        )
    }

    /// See [`ActionJournal::newest`]. The journal itself is left as it is.
    pub fn recent(&self, count: usize) -> (records: Vec<ActionLog>)
        ensures
            records@ == Self::newest(self.entries@, count as nat),
    {
        let mut records: Vec<ActionLog> = Vec::new();
        let total = self.entries.len();
        let wanted = if count <= total {
            count
        } else {
            total
        };
        let mut taken: usize = 0;
        while taken < wanted
            invariant
                taken <= wanted <= total,
                total == self.entries@.len(),
                records@.len() == taken,
                forall|i: int| 0 <= i < taken ==> records@[i] == self.entries@[total - 1 - i],
            decreases wanted - taken,
        {
            records.push(self.entries[total - 1 - taken].clone());
            taken += 1;
        }
        assert(records@ =~= Self::newest(self.entries@, count as nat));
        records
    }
}

} // verus!
