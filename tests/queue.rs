use nostodon::queue::JobQueue;
use nostodon::types::{ChangeResult, ScheduledPost, ScheduledPostStatus};

fn job(key: &str, content: &str) -> ScheduledPost {
    ScheduledPost {
        user_id: 1,
        instance_id: 2,
        mastodon_id: key.to_string(),
        content: content.to_string(),
        profile_name: "alice".to_string(),
        profile_display_name: "Alice".to_string(),
        profile_about: "about".to_string(),
        profile_picture: "https://example.com/a.png".to_string(),
        profile_nip05: "alice.example.com".to_string(),
        profile_banner: "https://example.com/b.png".to_string(),
    }
}

fn rows_with(q: &JobQueue, key: &str) -> usize {
    q.rows.iter().filter(|r| r.post.mastodon_id == key).count()
}

#[test]
fn push_claim_finish_scenario() {
    let mut q = JobQueue::new();
    assert_eq!(q.push(job("A", "hi")), ChangeResult::Changed(0));
    assert_eq!(q.push(job("A", "hi")), ChangeResult::Unchanged);
    assert_eq!(rows_with(&q, "A"), 1);
    assert_eq!(q.rows[0].status, ScheduledPostStatus::New);

    let claimed = q.claim_next().expect("a job is waiting");
    assert_eq!(claimed.post.mastodon_id, "A");
    assert_eq!(claimed.post.content, "hi");
    assert_eq!(claimed.status, ScheduledPostStatus::Running);
    assert_eq!(q.rows[0].status, ScheduledPostStatus::Running);

    assert_eq!(q.finish("A"), ChangeResult::Changed(0));
    assert_eq!(q.rows[0].status, ScheduledPostStatus::Finished);
    assert_eq!(q.finish("A"), ChangeResult::Unchanged);
    assert_eq!(q.rows[0].status, ScheduledPostStatus::Finished);
}

#[test]
fn duplicate_push_keeps_first_writer() {
    let mut q = JobQueue::new();
    q.push(job("A", "first"));
    q.push(job("A", "second"));
    assert_eq!(q.rows.len(), 1);
    assert_eq!(q.rows[0].post.content, "first");
    assert_eq!(q.rows[0].status, ScheduledPostStatus::New);
}

#[test]
fn claims_follow_push_order_and_never_repeat() {
    let mut q = JobQueue::new();
    q.push(job("A", "a"));
    q.push(job("B", "b"));
    let first = q.claim_next().unwrap();
    let second = q.claim_next().unwrap();
    assert_eq!(first.id, 0);
    assert_eq!(second.id, 1);
    assert_ne!(first.id, second.id);
    assert!(q.claim_next().is_none());
}

#[test]
fn abandoned_claim_is_not_redelivered() {
    let mut q = JobQueue::new();
    q.push(job("A", "a"));
    let first = q.claim_next().unwrap();
    q.push(job("A", "again"));
    q.push(job("C", "c"));
    q.finish("C");
    let next = q.claim_next().unwrap();
    assert_ne!(next.id, first.id);
    assert_eq!(next.post.mastodon_id, "C");
    assert!(q.claim_next().is_none());
    assert_eq!(q.rows[0].status, ScheduledPostStatus::Running);
}

#[test]
fn finish_and_error_need_a_running_job() {
    let mut q = JobQueue::new();
    q.push(job("A", "a"));
    assert_eq!(q.finish("A"), ChangeResult::Unchanged);
    assert_eq!(q.error("A"), ChangeResult::Unchanged);
    assert_eq!(q.finish("missing"), ChangeResult::Unchanged);
    assert_eq!(q.rows[0].status, ScheduledPostStatus::New);
    q.claim_next();
    assert_eq!(q.error("A"), ChangeResult::Changed(0));
    assert_eq!(q.rows[0].status, ScheduledPostStatus::Errored);
    assert_eq!(q.finish("A"), ChangeResult::Unchanged);
    assert_eq!(q.rows[0].status, ScheduledPostStatus::Errored);
    assert!(q.claim_next().is_none());
}
