//! The bot's replies: the help listing, the confirmations for adding and
//! completing a task, and the numbered task list.

use vstd::prelude::*;

use crate::router::HELP_COMMAND;
use crate::router::POMODORO_CHECK;
use crate::router::POMODORO_PAUSE;
use crate::router::POMODORO_START;
use crate::router::TASK_ADD_COMMAND;
use crate::router::TASK_LIST_COMMAND;
use crate::router::TASK_REMOVE_COMMAND;
use crate::text::spec_decimal;
use crate::text::u64_to_string;

verus! {

/// The reply to a message that matches no command.
pub const COMMAND_NOT_FOUND_MESSAGE: &'static str = "\nI'm just a bot, I cannot do this\n";

/// The numbered lines of a task list, one per task in order, each line
/// carrying its 1-based position.
pub open spec fn spec_task_lines(tasks: Seq<Seq<char>>) -> Seq<char>
    decreases tasks.len(),
{
    if tasks.len() == 0 {
        Seq::empty()
    } else {
        spec_task_lines(tasks.drop_last()) + spec_decimal(tasks.len() as int) + ". "@
            + tasks.last() + "\n"@
    }
}

/// The whole task-list reply: a count headline, then the numbered lines.
pub open spec fn spec_task_list_response(tasks: Seq<Seq<char>>) -> Seq<char> {
    "You have "@ + spec_decimal(tasks.len() as int) + " pending tasks:\n"@ + spec_task_lines(
        tasks,
    )
}

/// The confirmation for a newly added task.
pub fn added_response(description: &str) -> (r: String)
    ensures
        r@ == "Successfully added `"@ + description@ + "` to your todo list"@,
{
    let mut r = String::from_str("Successfully added `");
    r.append(description);
    r.append("` to your todo list");
    proof {
        assert(r@ =~= "Successfully added `"@ + description@ + "` to your todo list"@);
    }
    r
}

/// The confirmation for a completed (removed) task.
pub fn completed_response(description: &str) -> (r: String)
    ensures
        r@ == "Successfully completed `"@ + description@ + "`!"@,
{
    let mut r = String::from_str("Successfully completed `");
    r.append(description);
    r.append("`!");
    proof {
        assert(r@ =~= "Successfully completed `"@ + description@ + "`!"@);
    }
    r
}

/// The task-list reply: how many tasks are pending, then each one on its
/// own numbered line, in insertion order.
pub fn task_list_response(tasks: &Vec<String>) -> (r: String)
    ensures
        r@ == spec_task_list_response(tasks@.map_values(|s: String| s@)),
{
    let ghost m = tasks@.map_values(|s: String| s@);
    let mut r = String::from_str("You have ");
    let count = u64_to_string(tasks.len() as u64);
    r.append(count.as_str());
    r.append(" pending tasks:\n");
    proof {
        assert(r@ =~= "You have "@ + spec_decimal(m.len() as int) + " pending tasks:\n"@
            + spec_task_lines(m.take(0)));
    }
    let mut i: usize = 0;
    while i < tasks.len()
        invariant
            i <= tasks@.len(),
            m == tasks@.map_values(|s: String| s@),
            r@ == "You have "@ + spec_decimal(m.len() as int) + " pending tasks:\n"@
                + spec_task_lines(m.take(i as int)),
        decreases tasks@.len() - i,
    {
        let number = u64_to_string((i as u64) + 1);
        r.append(number.as_str());
        r.append(". ");
        r.append(tasks[i].as_str());
        r.append("\n");
        i += 1;
        proof {
            assert(m.take(i as int).drop_last() =~= m.take(i - 1));
            assert(m.take(i as int).last() == m[i - 1]);
            assert(r@ =~= "You have "@ + spec_decimal(m.len() as int) + " pending tasks:\n"@
                + spec_task_lines(m.take(i as int)));
        }
    }
    proof {
        assert(m.take(m.len() as int) =~= m);
    }
    r
}

/// The help listing, naming every command the bot advertises.
pub fn help_message() -> (r: String)
    ensures
        r@ == "\n        Hello, I'm pomodoro bot!\n        Heres a list of available commands: \n        '"@
            + HELP_COMMAND@ + "' - lists available commands,\n        '"@ + TASK_ADD_COMMAND@
            + "' - adds a task to the task list,\n        '"@ + TASK_REMOVE_COMMAND@
            + "' + 'task number' - removes and completes a specific task,\n        '"@
            + TASK_LIST_COMMAND@ + "' - displays task list,\n        '"@ + POMODORO_START@
            + "' - start the pomodoro timer,\n        '"@ + POMODORO_CHECK@
            + "' - pause the pomodoro timer,\n        '"@ + POMODORO_PAUSE@
            + "' - check the pomodoro current time,\n\n        — PomodoroBot 🤖"@,
{
    let mut r = String::from_str(
        "\n        Hello, I'm pomodoro bot!\n        Heres a list of available commands: \n        '",
    );
    r.append(HELP_COMMAND);
    r.append("' - lists available commands,\n        '");
    r.append(TASK_ADD_COMMAND);
    r.append("' - adds a task to the task list,\n        '");
    r.append(TASK_REMOVE_COMMAND);
    r.append("' + 'task number' - removes and completes a specific task,\n        '");
    r.append(TASK_LIST_COMMAND);
    r.append("' - displays task list,\n        '");
    r.append(POMODORO_START);
    r.append("' - start the pomodoro timer,\n        '");
    r.append(POMODORO_CHECK);
    r.append("' - pause the pomodoro timer,\n        '");
    r.append(POMODORO_PAUSE);
    r.append("' - check the pomodoro current time,\n\n        — PomodoroBot 🤖");
    proof {
        assert(r@ =~= "\n        Hello, I'm pomodoro bot!\n        Heres a list of available commands: \n        '"@
            + HELP_COMMAND@ + "' - lists available commands,\n        '"@ + TASK_ADD_COMMAND@
            + "' - adds a task to the task list,\n        '"@ + TASK_REMOVE_COMMAND@
            + "' + 'task number' - removes and completes a specific task,\n        '"@
            + TASK_LIST_COMMAND@ + "' - displays task list,\n        '"@ + POMODORO_START@
            + "' - start the pomodoro timer,\n        '"@ + POMODORO_CHECK@
            + "' - pause the pomodoro timer,\n        '"@ + POMODORO_PAUSE@
            + "' - check the pomodoro current time,\n\n        — PomodoroBot 🤖"@);
    }
    r
}

} // verus!
