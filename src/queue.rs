use vstd::prelude::*;

use crate::types::{ChangeResult, ScheduledPost, ScheduledPostStatus, same_text};

verus! {

/// One row of the job table. Its id is its position, so ascending ids follow
/// the order in which the jobs were pushed.
pub struct JobRow {
    pub id: u128,
    pub post: ScheduledPost,
    pub status: ScheduledPostStatus,
}

impl JobRow {
    pub fn duplicate(&self) -> (r: JobRow)
        ensures
            r == *self,
    {
        JobRow { id: self.id, post: self.post.duplicate(), status: self.status }
    }
}

pub open spec fn key_of(row: JobRow) -> Seq<char> {
    row.post.mastodon_id@
}

/// Position of the first row at or after `start` whose key is `key`.
pub open spec fn find_key_from(rows: Seq<JobRow>, key: Seq<char>, start: int) -> Option<int>
    decreases rows.len() - start,
{
    if start < 0 || start >= rows.len() {
        None
    } else if key_of(rows[start]) == key {
        Some(start)
    } else {
        find_key_from(rows, key, start + 1)
    }
}

/// Position of the row whose key is `key`, if there is one.
pub open spec fn find_key(rows: Seq<JobRow>, key: Seq<char>) -> Option<int> {
    find_key_from(rows, key, 0)
}

pub open spec fn has_key(rows: Seq<JobRow>, key: Seq<char>) -> bool {
    find_key(rows, key) is Some
}

/// Ids follow positions, and no two rows share an `external_post_id`.
pub open spec fn jobs_wf(rows: Seq<JobRow>) -> bool {
    &&& rows.len() <= usize::MAX
    &&& forall|i: int| 0 <= i < rows.len() ==> #[trigger] rows[i].id == i as u128
    &&& forall|i: int, j: int|
        0 <= i < rows.len() && 0 <= j < rows.len() && i != j ==> key_of(#[trigger] rows[i])
            != key_of(#[trigger] rows[j])
}

/// The table after pushing `post`: a new `New` row, or no change when a row
/// with the same `external_post_id` is already there.
pub open spec fn push_spec(rows: Seq<JobRow>, post: ScheduledPost) -> Seq<JobRow> {
    if has_key(rows, post.mastodon_id@) {
        rows
    } else {
        rows.push(JobRow { id: rows.len() as u128, post, status: ScheduledPostStatus::New })
    }
}

/// Position of the first `New` row at or after `start`.
pub open spec fn first_new_from(rows: Seq<JobRow>, start: int) -> Option<int>
    decreases rows.len() - start,
{
    if start < 0 || start >= rows.len() {
        None
    } else if rows[start].status == ScheduledPostStatus::New {
        Some(start)
    } else {
        first_new_from(rows, start + 1)
    }
}

/// Position of the lowest-id `New` row, if there is one.
pub open spec fn first_new(rows: Seq<JobRow>) -> Option<int> {
    first_new_from(rows, 0)
}

pub open spec fn with_status(row: JobRow, status: ScheduledPostStatus) -> JobRow {
    JobRow { status, ..row }
}

/// The table after a claim: the lowest-id `New` row turns `Running`.
pub open spec fn claim_spec(rows: Seq<JobRow>) -> Seq<JobRow> {
    match first_new(rows) {
        Some(i) => rows.update(i, with_status(rows[i], ScheduledPostStatus::Running)),
        None => rows,
    }
}

/// The row that a claim hands out, in its new state.
pub open spec fn claimed_spec(rows: Seq<JobRow>) -> Option<JobRow> {
    match first_new(rows) {
        Some(i) => Some(with_status(rows[i], ScheduledPostStatus::Running)),
        None => None,
    }
}

/// Whether the row of `key` is `Running`, the only state that `finish` and
/// `error` move out of.
pub open spec fn is_running(rows: Seq<JobRow>, key: Seq<char>) -> bool {
    match find_key(rows, key) {
        Some(i) => rows[i].status == ScheduledPostStatus::Running,
        None => false,
    }
}

/// The table after moving the `Running` row of `key` to `status`; no change
/// when that row is missing or not `Running`.
pub open spec fn settle_spec(rows: Seq<JobRow>, key: Seq<char>, status: ScheduledPostStatus) -> Seq<
    JobRow,
> {
    if is_running(rows, key) {
        let i = find_key(rows, key)->Some_0;
        rows.update(i, with_status(rows[i], status))
    } else {
        rows
    }
}

pub open spec fn settle_result(rows: Seq<JobRow>, key: Seq<char>) -> ChangeResult {
    if is_running(rows, key) {
        ChangeResult::Changed(rows[find_key(rows, key)->Some_0].id)
    } else {
        ChangeResult::Unchanged
    }
}

proof fn lemma_find_key_from(rows: Seq<JobRow>, key: Seq<char>, start: int)
    requires
        0 <= start <= rows.len(),
    ensures
        match find_key_from(rows, key, start) {
            Some(i) => start <= i < rows.len() && key_of(rows[i]) == key && forall|k: int|
                start <= k < i ==> key_of(#[trigger] rows[k]) != key,
            None => forall|k: int| start <= k < rows.len() ==> key_of(#[trigger] rows[k]) != key,
        },
    decreases rows.len() - start,
{
    if start < rows.len() && key_of(rows[start]) != key {
        lemma_find_key_from(rows, key, start + 1);
    }
}

/// What `find_key` says, spelled out.
pub proof fn lemma_find_key(rows: Seq<JobRow>, key: Seq<char>)
    ensures
        match find_key(rows, key) {
            Some(i) => 0 <= i < rows.len() && key_of(rows[i]) == key && forall|k: int|
                0 <= k < i ==> key_of(#[trigger] rows[k]) != key,
            None => forall|k: int| 0 <= k < rows.len() ==> key_of(#[trigger] rows[k]) != key,
        },
{
    lemma_find_key_from(rows, key, 0);
}

proof fn lemma_first_new_from(rows: Seq<JobRow>, start: int)
    requires
        0 <= start <= rows.len(),
    ensures
        match first_new_from(rows, start) {
            Some(i) => start <= i < rows.len() && rows[i].status == ScheduledPostStatus::New
                && forall|k: int| start <= k < i ==> #[trigger] rows[k].status != ScheduledPostStatus::New,
            None => forall|k: int|
                start <= k < rows.len() ==> #[trigger] rows[k].status != ScheduledPostStatus::New,
        },
    decreases rows.len() - start,
{
    if start < rows.len() && rows[start].status != ScheduledPostStatus::New {
        lemma_first_new_from(rows, start + 1);
    }
}

/// What `first_new` says, spelled out.
pub proof fn lemma_first_new(rows: Seq<JobRow>)
    ensures
        match first_new(rows) {
            Some(i) => 0 <= i < rows.len() && rows[i].status == ScheduledPostStatus::New && forall|
                k: int,
            | 0 <= k < i ==> #[trigger] rows[k].status != ScheduledPostStatus::New,
            None => forall|k: int|
                0 <= k < rows.len() ==> #[trigger] rows[k].status != ScheduledPostStatus::New,
        },
{
    lemma_first_new_from(rows, 0);
}

/// The job table: durable, exclusive, at-least-once delivery of relay jobs.
///
/// Claims carry no lease: a job whose claimant never finishes or fails it
/// stays `Running`, and nothing here puts it back to `New`.
pub struct JobQueue {
    pub rows: Vec<JobRow>,
}

impl JobQueue {
    pub open spec fn wf(&self) -> bool {
        jobs_wf(self.rows@)
    }

    pub fn new() -> (r: JobQueue)
        ensures
            r.wf(),
            r.rows@ == Seq::<JobRow>::empty(),
    {
        JobQueue { rows: Vec::new() }
    }

    /// Position of the row of `key`, if there is one.
    fn find(&self, key: &str) -> (r: Option<usize>)
        ensures
            match r {
                Some(i) => find_key(self.rows@, key@) == Some(i as int),
                None => find_key(self.rows@, key@) is None,
            },
    {
        proof {
            lemma_find_key(self.rows@, key@);
        }
        let mut i: usize = 0;
        while i < self.rows.len()
            invariant
                i <= self.rows@.len(),
                forall|k: int| 0 <= k < i ==> key_of(#[trigger] self.rows@[k]) != key@,
                match find_key(self.rows@, key@) {
                    Some(j) => 0 <= j < self.rows@.len() && key_of(self.rows@[j]) == key@ && forall|k: int|
                        0 <= k < j ==> key_of(#[trigger] self.rows@[k]) != key@,
                    None => forall|k: int| 0 <= k < self.rows@.len() ==> key_of(#[trigger] self.rows@[k]) != key@,
                },
            decreases self.rows@.len() - i,
        {
            if same_text(self.rows[i].post.mastodon_id.as_str(), key) {
                return Some(i);
            }
            i += 1;
        }
        None
    }

    /// Inserts `post` as a `New` job unless a job with its `external_post_id`
    /// exists already: the first writer wins.
    pub fn push(&mut self, post: ScheduledPost) -> (r: ChangeResult)
        requires
            old(self).wf(),
            old(self).rows@.len() < usize::MAX,
        ensures
            final(self).wf(),
            final(self).rows@ == push_spec(old(self).rows@, post),
            r == (if has_key(old(self).rows@, post.mastodon_id@) {
                ChangeResult::Unchanged
            } else {
                ChangeResult::Changed(old(self).rows@.len() as u128)
            }),
    {
        match self.find(post.mastodon_id.as_str()) {
            Some(_) => ChangeResult::Unchanged,
            None => {
                let id = self.rows.len() as u128;
                proof {
                    lemma_find_key(old(self).rows@, post.mastodon_id@);
                }
                self.rows.push(JobRow { id, post, status: ScheduledPostStatus::New });
                assert forall|i: int, j: int|
                    0 <= i < self.rows@.len() && 0 <= j < self.rows@.len() && i != j implies key_of(
                    #[trigger] self.rows@[i],
                ) != key_of(#[trigger] self.rows@[j]) by {
                    if i == self.rows@.len() - 1 {
                        assert(key_of(old(self).rows@[j]) != key_of(self.rows@[i]));
                    } else if j == self.rows@.len() - 1 {
                        assert(key_of(old(self).rows@[i]) != key_of(self.rows@[j]));
                    }
                }
                ChangeResult::Changed(id)
            },
        }
    }

    /// Moves the row at `i` to `status`.
    fn set_status(&mut self, i: usize, status: ScheduledPostStatus)
        requires
            old(self).wf(),
            i < old(self).rows@.len(),
        ensures
            final(self).wf(),
            final(self).rows@ == old(self).rows@.update(
                i as int,
                with_status(old(self).rows@[i as int], status),
            ),
    {
        let mut row = self.rows.remove(i);
        row.status = status;
        self.rows.insert(i, row);
        assert(self.rows@ =~= old(self).rows@.update(
            i as int,
            with_status(old(self).rows@[i as int], status),
        ));
        assert forall|a: int, b: int|
            0 <= a < self.rows@.len() && 0 <= b < self.rows@.len() && a != b implies key_of(
            #[trigger] self.rows@[a],
        ) != key_of(#[trigger] self.rows@[b]) by {
            assert(key_of(self.rows@[a]) == key_of(old(self).rows@[a]));
            assert(key_of(self.rows@[b]) == key_of(old(self).rows@[b]));
        }
    }

    /// Takes the lowest-id `New` job, marks it `Running` and hands it out.
    pub fn claim_next(&mut self) -> (r: Option<JobRow>)
        requires
            old(self).wf(),
        ensures
            final(self).wf(),
            final(self).rows@ == claim_spec(old(self).rows@),
            r == claimed_spec(old(self).rows@),
    {
        proof {
            lemma_first_new(self.rows@);
        }
        let mut i: usize = 0;
        while i < self.rows.len()
            invariant
                self.wf(),
                i <= self.rows@.len(),
                self.rows@ == old(self).rows@,
                forall|k: int| 0 <= k < i ==> #[trigger] self.rows@[k].status != ScheduledPostStatus::New,
                match first_new(self.rows@) {
                    Some(j) => 0 <= j < self.rows@.len() && self.rows@[j].status == ScheduledPostStatus::New
                        && forall|k: int| 0 <= k < j ==> #[trigger] self.rows@[k].status != ScheduledPostStatus::New,
                    None => forall|k: int|
                        0 <= k < self.rows@.len() ==> #[trigger] self.rows@[k].status != ScheduledPostStatus::New,
                },
            decreases self.rows@.len() - i,
        {
            if self.rows[i].status == ScheduledPostStatus::New {
                proof {
                    let f = first_new(self.rows@)->Some_0;
                    if f < i {
                        assert(self.rows@[f].status != ScheduledPostStatus::New);
                    } else if f > i {
                        assert(self.rows@[i as int].status != ScheduledPostStatus::New);
                    }
                }
                self.set_status(i, ScheduledPostStatus::Running);
                return Some(self.rows[i].duplicate());
            }
            i += 1;
        }
        None
    }

    fn settle(&mut self, key: &str, status: ScheduledPostStatus) -> (r: ChangeResult)
        requires
            old(self).wf(),
        ensures
            final(self).wf(),
            final(self).rows@ == settle_spec(old(self).rows@, key@, status),
            r == settle_result(old(self).rows@, key@),
    {
        proof {
            lemma_find_key(self.rows@, key@);
        }
        match self.find(key) {
            Some(i) => {
                if self.rows[i].status == ScheduledPostStatus::Running {
                    let id = self.rows[i].id;
                    self.set_status(i, status);
                    ChangeResult::Changed(id)
                } else {
                    ChangeResult::Unchanged
                }
            },
            None => ChangeResult::Unchanged,
        }
    }

    /// Marks the `Running` job of `key` as `Finished`; a no-op that reports
    /// `Unchanged` when no job of that key is `Running`.
    pub fn finish(&mut self, key: &str) -> (r: ChangeResult)
        requires
            old(self).wf(),
        ensures
            final(self).wf(),
            final(self).rows@ == settle_spec(old(self).rows@, key@, ScheduledPostStatus::Finished),
            r == settle_result(old(self).rows@, key@),
            !is_running(old(self).rows@, key@) ==> final(self).rows@ == old(self).rows@ && r
                == ChangeResult::Unchanged,
    {
        self.settle(key, ScheduledPostStatus::Finished)
    }

    /// Marks the `Running` job of `key` as `Errored`, for good; a no-op that
    /// reports `Unchanged` when no job of that key is `Running`.
    pub fn error(&mut self, key: &str) -> (r: ChangeResult)
        requires
            old(self).wf(),
        ensures
            final(self).wf(),
            final(self).rows@ == settle_spec(old(self).rows@, key@, ScheduledPostStatus::Errored),
            r == settle_result(old(self).rows@, key@),
    {
        self.settle(key, ScheduledPostStatus::Errored)
    }
}

/// One operation on the job table.
pub enum JobOp {
    Push(ScheduledPost),
    Claim,
    Finish(Seq<char>),
    Fail(Seq<char>),
}

pub open spec fn apply_op(rows: Seq<JobRow>, op: JobOp) -> Seq<JobRow> {
    match op {
        JobOp::Push(post) => push_spec(rows, post),
        JobOp::Claim => claim_spec(rows),
        JobOp::Finish(key) => settle_spec(rows, key, ScheduledPostStatus::Finished),
        JobOp::Fail(key) => settle_spec(rows, key, ScheduledPostStatus::Errored),
    }
}

pub open spec fn apply_ops(rows: Seq<JobRow>, ops: Seq<JobOp>) -> Seq<JobRow>
    decreases ops.len(),
{
    if ops.len() == 0 {
        rows
    } else {
        apply_ops(apply_op(rows, ops[0]), ops.drop_first())
    }
}

proof fn lemma_push_keeps_wf(rows: Seq<JobRow>, post: ScheduledPost)
    requires
        jobs_wf(rows),
        rows.len() < usize::MAX,
    ensures
        jobs_wf(push_spec(rows, post)),
{
    lemma_find_key(rows, post.mastodon_id@);
    if !has_key(rows, post.mastodon_id@) {
        let out = push_spec(rows, post);
        assert forall|i: int, j: int|
            0 <= i < out.len() && 0 <= j < out.len() && i != j implies key_of(#[trigger] out[i])
            != key_of(#[trigger] out[j]) by {
            if i == rows.len() {
                assert(key_of(rows[j]) != key_of(out[i]));
            } else if j == rows.len() {
                assert(key_of(rows[i]) != key_of(out[j]));
            } else {
                assert(key_of(rows[i]) != key_of(rows[j]));
            }
        }
    }
}

proof fn lemma_status_update_keeps_wf(rows: Seq<JobRow>, i: int, status: ScheduledPostStatus)
    requires
        jobs_wf(rows),
        0 <= i < rows.len(),
    ensures
        jobs_wf(rows.update(i, with_status(rows[i], status))),
{
    let out = rows.update(i, with_status(rows[i], status));
    assert forall|a: int, b: int|
        0 <= a < out.len() && 0 <= b < out.len() && a != b implies key_of(#[trigger] out[a])
        != key_of(#[trigger] out[b]) by {
        assert(key_of(out[a]) == key_of(rows[a]));
        assert(key_of(out[b]) == key_of(rows[b]));
    }
}

/// Invariant of a row that has left `New`: it keeps its place and never
/// comes back to `New`.
pub open spec fn left_new(rows: Seq<JobRow>, id: int) -> bool {
    &&& jobs_wf(rows)
    &&& 0 <= id < rows.len()
    &&& rows[id].status != ScheduledPostStatus::New
}

proof fn lemma_op_keeps_left_new(rows: Seq<JobRow>, id: int, op: JobOp)
    requires
        left_new(rows, id),
        rows.len() < usize::MAX,
    ensures
        left_new(apply_op(rows, op), id),
        apply_op(rows, op).len() <= rows.len() + 1,
{
    match op {
        JobOp::Push(post) => {
            lemma_push_keeps_wf(rows, post);
        },
        JobOp::Claim => {
            lemma_first_new(rows);
            if let Some(i) = first_new(rows) {
                lemma_status_update_keeps_wf(rows, i, ScheduledPostStatus::Running);
            }
        },
        JobOp::Finish(key) => {
            lemma_find_key(rows, key);
            if is_running(rows, key) {
                lemma_status_update_keeps_wf(rows, find_key(rows, key)->Some_0, ScheduledPostStatus::Finished);
            }
        },
        JobOp::Fail(key) => {
            lemma_find_key(rows, key);
            if is_running(rows, key) {
                lemma_status_update_keeps_wf(rows, find_key(rows, key)->Some_0, ScheduledPostStatus::Errored);
            }
        },
    }
}

proof fn lemma_ops_keep_left_new(rows: Seq<JobRow>, id: int, ops: Seq<JobOp>)
    requires
        left_new(rows, id),
        rows.len() + ops.len() <= usize::MAX,
    ensures
        left_new(apply_ops(rows, ops), id),
    decreases ops.len(),
{
    if ops.len() > 0 {
        lemma_op_keeps_left_new(rows, id, ops[0]);
        lemma_ops_keep_left_new(apply_op(rows, ops[0]), id, ops.drop_first());
    }
}

/// Pushing a job twice under one `external_post_id` leaves exactly one row of
/// that id: the second push changes nothing, and a job that was not there
/// before stands once, as `New`, with the first writer's content.
pub proof fn lemma_push_idempotent(rows: Seq<JobRow>, first: ScheduledPost, second: ScheduledPost)
    requires
        jobs_wf(rows),
        rows.len() < usize::MAX,
        second.mastodon_id@ == first.mastodon_id@,
    ensures
        push_spec(push_spec(rows, first), second) == push_spec(rows, first),
        jobs_wf(push_spec(rows, first)),
        !has_key(rows, first.mastodon_id@) ==> {
            let out = push_spec(rows, first);
            &&& out.last() == (JobRow {
                id: rows.len() as u128,
                post: first,
                status: ScheduledPostStatus::New,
            })
            &&& forall|i: int|
                0 <= i < out.len() && #[trigger] key_of(out[i]) == first.mastodon_id@ ==> i
                    == out.len() - 1
        },
{
    lemma_push_keeps_wf(rows, first);
    let out = push_spec(rows, first);
    lemma_find_key(rows, first.mastodon_id@);
    lemma_find_key(out, second.mastodon_id@);
    if !has_key(rows, first.mastodon_id@) {
        assert(key_of(out[out.len() - 1]) == second.mastodon_id@);
        assert forall|i: int|
            0 <= i < out.len() && #[trigger] key_of(out[i]) == first.mastodon_id@ implies i
            == out.len() - 1 by {
            if i < rows.len() {
                assert(key_of(rows[i]) == first.mastodon_id@);
            }
        }
    }
}

/// Two claims in a row never hand out the same job.
pub proof fn lemma_claims_exclusive(rows: Seq<JobRow>)
    requires
        jobs_wf(rows),
        claimed_spec(rows) is Some,
        claimed_spec(claim_spec(rows)) is Some,
    ensures
        claimed_spec(rows)->Some_0.id != claimed_spec(claim_spec(rows))->Some_0.id,
{
    lemma_claimed_never_redelivered(rows, Seq::empty());
}

/// A claimed job that is never put back to `New` is never handed out again,
/// whatever pushes, claims, finishes and failures follow (as long as the
/// table's length fits in a `usize`).
pub proof fn lemma_claimed_never_redelivered(rows: Seq<JobRow>, ops: Seq<JobOp>)
    requires
        jobs_wf(rows),
        rows.len() + ops.len() <= usize::MAX,
        claimed_spec(rows) is Some,
    ensures
        claimed_spec(apply_ops(claim_spec(rows), ops)) is Some ==> claimed_spec(
            apply_ops(claim_spec(rows), ops),
        )->Some_0.id != claimed_spec(rows)->Some_0.id,
{
    lemma_first_new(rows);
    let id = first_new(rows)->Some_0;
    lemma_status_update_keeps_wf(rows, id, ScheduledPostStatus::Running);
    let after = claim_spec(rows);
    assert(left_new(after, id));
    lemma_ops_keep_left_new(after, id, ops);
    let later = apply_ops(after, ops);
    lemma_first_new(later);
    if first_new(later) is Some {
        let f = first_new(later)->Some_0;
        assert(f != id);
        assert(later[f].id == f as u128);
        assert(rows[id].id == id as u128);
    }
}

} // verus!
