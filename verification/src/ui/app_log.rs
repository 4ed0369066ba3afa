//! The journal as lines of text.

use crate::game::action_log::{ActionLog, ActionType};
use crate::game::state::ActionJournal;
use crate::ui::text::{decimal, push_decimal};
use vstd::prelude::*;
use vstd::string::StringExecFns;

verus! {

/// How many lines of the journal the game screen shows.
pub const JOURNAL_LINES: usize = 5;

/// What a record says happened.
pub open spec fn message_text(action: ActionType) -> Seq<char> {
    match action {
        ActionType::Movement { position } => "Player moved into: ("@ + decimal(position.x as nat)
            + ", "@ + decimal(position.y as nat) + ")"@,
        ActionType::MonsterAttack { attacker_name, target_name, damage } => attacker_name@
            + " attacked "@ + target_name@ + " for "@ + decimal(damage as nat) + " damage."@,
    }
}

/// The line for a record: its turn, then what happened.
pub open spec fn log_entry_text(log: ActionLog) -> Seq<char> {
    "[Turn: "@ + decimal(log.turn as nat) + "]: "@ + message_text(log.action_type)
}

/// The lines for the newest records of a journal, newest first.
pub open spec fn journal_text(entries: Seq<ActionLog>, count: nat) -> Seq<Seq<char>> {
    ActionJournal::newest(entries, count).map_values(|log: ActionLog| log_entry_text(log))
}

/// See [`log_entry_text`].
pub fn create_log_entry(action_log: &ActionLog) -> (line: String)
    ensures
        line@ == log_entry_text(*action_log),
{
    let mut line = String::new();
    line.append("[Turn: ");
    push_decimal(&mut line, action_log.turn as u64);
    line.append("]: ");
    match &action_log.action_type {
        ActionType::Movement { position } => {
            line.append("Player moved into: (");
            push_decimal(&mut line, position.x as u64);
            line.append(", ");
            push_decimal(&mut line, position.y as u64);
            line.append(")");
        },
        ActionType::MonsterAttack { attacker_name, target_name, damage } => {
            line.append(attacker_name.as_str());
            line.append(" attacked ");
            line.append(target_name.as_str());
            line.append(" for ");
            push_decimal(&mut line, *damage as u64);
            line.append(" damage.");
        },
    }
    assert(line@ =~= log_entry_text(*action_log));
    line
}

/// The lines that the game screen shows of a journal: those of its
/// [`JOURNAL_LINES`] newest records, newest first.
pub fn journal_lines(journal: &ActionJournal) -> (lines: Vec<String>)
    ensures
        lines@.len() == journal_text(journal.entries@, JOURNAL_LINES as nat).len(),
        forall|i: int|
            0 <= i < lines@.len() ==> (#[trigger] lines@[i])@ == journal_text(
                journal.entries@,
                JOURNAL_LINES as nat,
            )[i],
{
    let records = journal.recent(JOURNAL_LINES);
    let mut lines: Vec<String> = Vec::new();
    let mut i: usize = 0;
    while i < records.len()
        invariant
            i <= records@.len(),
            lines@.len() == i,
            records@ == ActionJournal::newest(journal.entries@, JOURNAL_LINES as nat),
            forall|k: int| 0 <= k < i ==> (#[trigger] lines@[k])@ == log_entry_text(records@[k]),
        decreases records@.len() - i,
    {
        lines.push(create_log_entry(&records[i]));
        i += 1;
    }
    lines
}

} // verus!
