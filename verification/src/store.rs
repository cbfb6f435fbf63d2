//! The task table: rows of `{rowid, description, user_id}`, held in rowid
//! order with store-assigned, strictly growing row identifiers. Each
//! user's task list is the rowid-ordered sequence of that user's
//! descriptions; every operation leaves every other user's list alone.

use vstd::prelude::*;

verus! {

/// One row of the task table.
pub struct TaskRow {
    pub rowid: u64,
    pub user_id: i64,
    pub description: String,
}

/// A lookup that found no row.
#[derive(Debug, PartialEq, Eq, Structural)]
pub enum TaskStoreError {
    NoSuchTask,
}

/// The rowid-ordered descriptions belonging to one user.
pub open spec fn spec_user_tasks(rows: Seq<TaskRow>, user_id: i64) -> Seq<Seq<char>>
    decreases rows.len(),
{
    if rows.len() == 0 {
        Seq::empty()
    } else {
        spec_user_tasks(rows.drop_last(), user_id) + (if rows.last().user_id == user_id {
            seq![rows.last().description@]
        } else {
            Seq::empty()
        })
    }
}

/// A user's tasks in a concatenation of row sequences are the
/// concatenation of the user's tasks in each part.
pub proof fn lemma_user_tasks_concat(a: Seq<TaskRow>, b: Seq<TaskRow>, user_id: i64)
    ensures
        spec_user_tasks(a + b, user_id) == spec_user_tasks(a, user_id) + spec_user_tasks(
            b,
            user_id,
        ),
    decreases b.len(),
{
    if b.len() == 0 {
        assert(a + b =~= a);
        assert(spec_user_tasks(a, user_id) + spec_user_tasks(b, user_id) =~= spec_user_tasks(
            a,
            user_id,
        ));
    } else {
        assert((a + b).drop_last() =~= a + b.drop_last());
        lemma_user_tasks_concat(a, b.drop_last(), user_id);
        assert((a + b).last() == b.last());
        assert(spec_user_tasks(a, user_id) + spec_user_tasks(b, user_id) =~= (spec_user_tasks(
            a,
            user_id,
        ) + spec_user_tasks(b.drop_last(), user_id)) + (if b.last().user_id == user_id {
            seq![b.last().description@]
        } else {
            Seq::empty()
        }));
    }
}

proof fn lemma_user_tasks_singleton(r: TaskRow, user_id: i64)
    ensures
        r.user_id == user_id ==> spec_user_tasks(seq![r], user_id) == seq![r.description@],
        r.user_id != user_id ==> spec_user_tasks(seq![r], user_id) == Seq::<Seq<char>>::empty(),
{
    assert(seq![r].drop_last() =~= Seq::<TaskRow>::empty());
    assert(spec_user_tasks(Seq::<TaskRow>::empty(), user_id) == Seq::<Seq<char>>::empty());
    if r.user_id == user_id {
        assert(spec_user_tasks(seq![r], user_id) =~= seq![r.description@]);
    } else {
        assert(spec_user_tasks(seq![r], user_id) =~= Seq::<Seq<char>>::empty());
    }
}

/// The task table, with the next identifier the store will assign.
pub struct TaskStore {
    pub rows: Vec<TaskRow>,
    pub next_rowid: u64,
}

impl TaskStore {
    /// Invariant: rows stand in strictly increasing rowid order, and every
    /// assigned rowid is below the next one to assign.
    pub open spec fn wf(&self) -> bool {
        &&& forall|i: int, j: int|
            0 <= i < j < self.rows@.len() ==> self.rows@[i].rowid < self.rows@[j].rowid
        &&& forall|i: int| 0 <= i < self.rows@.len() ==> self.rows@[i].rowid < self.next_rowid
    }

    /// The given user's task descriptions, in insertion order.
    pub open spec fn spec_tasks_of(&self, user_id: i64) -> Seq<Seq<char>> {
        spec_user_tasks(self.rows@, user_id)
    }

    pub fn new() -> (s: TaskStore)
        ensures
            s.wf(),
            s.next_rowid == 0,
            forall|u: i64| #[trigger] s.spec_tasks_of(u) == Seq::<Seq<char>>::empty(),
    {
        TaskStore { rows: Vec::new(), next_rowid: 0 }
    }

    /// Inserts a task row for the user: the user's list grows by the
    /// description at its end, and no other user's list changes.
    pub fn add_task(&mut self, user_id: i64, description: &str)
        requires
            old(self).wf(),
            old(self).next_rowid < u64::MAX,
        ensures
            final(self).wf(),
            final(self).next_rowid == old(self).next_rowid + 1,
            final(self).spec_tasks_of(user_id) == old(self).spec_tasks_of(user_id).push(
                description@,
            ),
            forall|u: i64|
                u != user_id ==> #[trigger] final(self).spec_tasks_of(u) == old(
                    self,
                ).spec_tasks_of(u),
    {
        let ghost rows0 = self.rows@;
        let rowid = self.next_rowid;
        self.next_rowid = self.next_rowid + 1;
        let row = TaskRow { rowid, user_id, description: String::from_str(description) };
        self.rows.push(row);
        proof {
            assert(self.rows@.drop_last() =~= rows0);
            assert(self.spec_tasks_of(user_id) =~= spec_user_tasks(rows0, user_id).push(
                description@,
            ));
            assert forall|u: i64| u != user_id implies #[trigger] self.spec_tasks_of(u)
                == spec_user_tasks(rows0, u) by {
                assert(self.spec_tasks_of(u) =~= spec_user_tasks(rows0, u));
            }
        }
    }

    /// Reads the user's task descriptions, in insertion order, touching
    /// nothing.
    pub fn list_tasks(&self, user_id: i64) -> (v: Vec<String>)
        ensures
            v@.map_values(|s: String| s@) == self.spec_tasks_of(user_id),
    {
        let mut v: Vec<String> = Vec::new();
        let mut i: usize = 0;
        while i < self.rows.len()
            invariant
                i <= self.rows@.len(),
                v@.map_values(|s: String| s@) == spec_user_tasks(
                    self.rows@.take(i as int),
                    user_id,
                ),
            decreases self.rows@.len() - i,
        {
            let row = &self.rows[i];
            let ghost prev = v@;
            if row.user_id == user_id {
                v.push(row.description.clone());
            }
            i += 1;
            proof {
                assert(self.rows@.take(i as int).drop_last() =~= self.rows@.take(i - 1));
                assert(self.rows@.take(i as int).last() == self.rows@[i - 1]);
                if self.rows@[i - 1].user_id == user_id {
                    assert(v@.map_values(|s: String| s@) =~= prev.map_values(|s: String| s@).push(
                        self.rows@[i - 1].description@,
                    ));
                    assert(v@.map_values(|s: String| s@) =~= spec_user_tasks(
                        self.rows@.take(i as int),
                        user_id,
                    ));
                } else {
                    assert(v@.map_values(|s: String| s@) =~= spec_user_tasks(
                        self.rows@.take(i as int),
                        user_id,
                    ));
                }
            }
        }
        proof {
            assert(self.rows@.take(self.rows@.len() as int) =~= self.rows@);
        }
        v
    }

    /// Deletes the row at the given 0-based position within the user's
    /// ordered list and hands back its description. Exactly the positions
    /// inside the list succeed; any other offset fails and changes
    /// nothing. No other user's list changes either way.
    pub fn remove_task(&mut self, user_id: i64, offset: i64) -> (r: Result<String, TaskStoreError>)
        requires
            old(self).wf(),
        ensures
            final(self).wf(),
            final(self).next_rowid == old(self).next_rowid,
            0 <= offset < old(self).spec_tasks_of(user_id).len() ==> {
                &&& r is Ok
                &&& r->Ok_0@ == old(self).spec_tasks_of(user_id)[offset as int]
                &&& final(self).spec_tasks_of(user_id) == old(self).spec_tasks_of(
                    user_id,
                ).remove(offset as int)
            },
            !(0 <= offset < old(self).spec_tasks_of(user_id).len()) ==> r is Err && *final(self)
                == *old(self),
            forall|u: i64|
                u != user_id ==> #[trigger] final(self).spec_tasks_of(u) == old(
                    self,
                ).spec_tasks_of(u),
    {
        let ghost rows0 = self.rows@;
        if offset < 0 {
            return Err(TaskStoreError::NoSuchTask);
        }
        let mut count: i64 = 0;
        let mut i: usize = 0;
        while i < self.rows.len()
            invariant
                old(self).wf(),
                *self == *old(self),
                rows0 == self.rows@,
                i <= rows0.len(),
                0 <= count <= offset,
                count == spec_user_tasks(rows0.take(i as int), user_id).len(),
            decreases rows0.len() - i,
        {
            let matches_user = self.rows[i].user_id == user_id;
            if matches_user && count == offset {
                proof {
                    lemma_remove_found(rows0, user_id, i as int, offset as int);
                }
                let row = self.rows.remove(i);
                proof {
                    lemma_remove_result(rows0, user_id, i as int, offset as int);
                    assert forall|u: i64| u != user_id implies #[trigger] self.spec_tasks_of(u)
                        == spec_user_tasks(rows0, u) by {
                        lemma_remove_other_user(rows0, user_id, u, i as int);
                    }
                    lemma_remove_wf(rows0, old(self).next_rowid, i as int);
                }
                return Ok(row.description);
            }
            i += 1;
            proof {
                assert(rows0.take(i as int).drop_last() =~= rows0.take(i - 1));
                assert(rows0.take(i as int).last() == rows0[i - 1]);
            }
            if matches_user {
                count += 1;
            }
        }
        proof {
            assert(rows0.take(rows0.len() as int) =~= rows0);
        }
        Err(TaskStoreError::NoSuchTask)
    }
}

/// At the row where the user's running count reaches the offset, the
/// user's task at that offset is this row's description.
proof fn lemma_remove_found(rows: Seq<TaskRow>, user_id: i64, i: int, offset: int)
    requires
        0 <= i < rows.len(),
        rows[i].user_id == user_id,
        0 <= offset,
        offset == spec_user_tasks(rows.take(i), user_id).len(),
    ensures
        offset < spec_user_tasks(rows, user_id).len(),
        spec_user_tasks(rows, user_id)[offset] == rows[i].description@,
{
    lemma_split_at_row(rows, user_id, i);
    lemma_user_tasks_singleton(rows[i], user_id);
    let a = spec_user_tasks(rows.take(i), user_id);
    let s = spec_user_tasks(seq![rows[i]], user_id);
    let b = spec_user_tasks(rows.skip(i + 1), user_id);
    assert((a + s + b)[offset] == (a + s)[offset]);
    assert((a + s)[offset] == s[0]);
}

/// Splits the user's tasks around row `i`:
/// tasks(rows) == tasks(before) + tasks(row i alone) + tasks(after).
proof fn lemma_split_at_row(rows: Seq<TaskRow>, user_id: i64, i: int)
    requires
        0 <= i < rows.len(),
    ensures
        spec_user_tasks(rows, user_id) == spec_user_tasks(rows.take(i), user_id)
            + spec_user_tasks(seq![rows[i]], user_id) + spec_user_tasks(
            rows.skip(i + 1),
            user_id,
        ),
{
    assert(rows =~= rows.take(i) + (seq![rows[i]] + rows.skip(i + 1)));
    lemma_user_tasks_concat(rows.take(i), seq![rows[i]] + rows.skip(i + 1), user_id);
    lemma_user_tasks_concat(seq![rows[i]], rows.skip(i + 1), user_id);
    lemma_user_tasks_singleton(rows[i], user_id);
}

/// Removing row `i`, the user's match at `offset`, removes exactly the
/// task at `offset` from the user's list.
proof fn lemma_remove_result(rows: Seq<TaskRow>, user_id: i64, i: int, offset: int)
    requires
        0 <= i < rows.len(),
        rows[i].user_id == user_id,
        0 <= offset,
        offset == spec_user_tasks(rows.take(i), user_id).len(),
    ensures
        spec_user_tasks(rows.remove(i), user_id) == spec_user_tasks(rows, user_id).remove(offset),
{
    lemma_split_at_row(rows, user_id, i);
    lemma_user_tasks_singleton(rows[i], user_id);
    assert(rows.remove(i) =~= rows.take(i) + rows.skip(i + 1));
    lemma_user_tasks_concat(rows.take(i), rows.skip(i + 1), user_id);
    assert(spec_user_tasks(rows.remove(i), user_id) =~= spec_user_tasks(rows, user_id).remove(
        offset,
    ));
}

/// Removing a row belonging to one user leaves every other user's list
/// unchanged.
proof fn lemma_remove_other_user(rows: Seq<TaskRow>, user_id: i64, u: i64, i: int)
    requires
        0 <= i < rows.len(),
        rows[i].user_id == user_id,
        u != user_id,
    ensures
        spec_user_tasks(rows.remove(i), u) == spec_user_tasks(rows, u),
{
    lemma_split_at_row(rows, u, i);
    lemma_user_tasks_singleton(rows[i], u);
    assert(rows.remove(i) =~= rows.take(i) + rows.skip(i + 1));
    lemma_user_tasks_concat(rows.take(i), rows.skip(i + 1), u);
    assert(spec_user_tasks(rows.remove(i), u) =~= spec_user_tasks(rows, u));
}

/// Removing a row keeps rowids strictly increasing and below the next to
/// assign.
proof fn lemma_remove_wf(rows: Seq<TaskRow>, next_rowid: u64, i: int)
    requires
        0 <= i < rows.len(),
        forall|a: int, b: int| 0 <= a < b < rows.len() ==> rows[a].rowid < rows[b].rowid,
        forall|a: int| 0 <= a < rows.len() ==> rows[a].rowid < next_rowid,
    ensures
        forall|a: int, b: int|
            0 <= a < b < rows.remove(i).len() ==> rows.remove(i)[a].rowid < rows.remove(
                i,
            )[b].rowid,
        forall|a: int| 0 <= a < rows.remove(i).len() ==> rows.remove(i)[a].rowid < next_rowid,
{
    assert forall|a: int, b: int| 0 <= a < b < rows.remove(i).len() implies rows.remove(
        i,
    )[a].rowid < rows.remove(i)[b].rowid by {
        assert(rows.remove(i)[a] == if a < i {
            rows[a]
        } else {
            rows[a + 1]
        });
        assert(rows.remove(i)[b] == if b < i {
            rows[b]
        } else {
            rows[b + 1]
        });
    }
    assert forall|a: int| 0 <= a < rows.remove(i).len() implies rows.remove(i)[a].rowid
        < next_rowid by {
        assert(rows.remove(i)[a] == if a < i {
            rows[a]
        } else {
            rows[a + 1]
        });
    }
}

} // verus!
