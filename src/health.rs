use vstd::prelude::*;

verus! {

pub const EVENTS_SCHEDULED: &'static str = "nostodon_mastodon_events_scheduled_count";

pub const EVENTS_SKIPPED: &'static str = "nostodon_mastodon_events_skipped_count";

pub const TASK_COUNT: &'static str = "nostodon_task_count";

pub const TASK_TIMEOUT_COUNT: &'static str = "nostodon_task_timeout_count";

pub const TASK_TIME_ELAPSED: &'static str = "nostodon_task_time_elapsed_ms";

pub const TASK_TIME_ELAPSED_HISTOGRAM: &'static str = "nostodon_task_elapsed_histogram";

pub const POSTS_CREATED: &'static str = "nostodon_posts_created_count";

pub const POSTS_DELETED: &'static str = "nostodon_posts_deleted_count";

pub const PROFILES_UPDATED: &'static str = "nostodon_profiles_updated_count";

/// A metric and its help text.
pub struct Description {
    pub name: &'static str,
    pub help: &'static str,
}

/// The relay's metrics.
pub struct Provider;

/// Names and help texts of the counters that the relay describes, in order.
pub open spec fn catalogue() -> Seq<(Seq<char>, Seq<char>)> {
    seq![
        (EVENTS_SKIPPED@, "Counter of events that have been skipped because of some rule"@),
        (EVENTS_SCHEDULED@, "Counter of events that have been scheduled to be posted"@),
        (TASK_COUNT@, "Counter of tasks that have been processed"@),
        (TASK_TIMEOUT_COUNT@, "Counter of tasks that have been timed out"@),
        (TASK_TIME_ELAPSED@, "The cumulative amount of time taken to run a task"@),
        (TASK_TIME_ELAPSED_HISTOGRAM@, "The historigram for the amount of time (and percentiles) of each task"@),
        (POSTS_CREATED@, "Number of posts that have been created"@),
        (PROFILES_UPDATED@, "Number of posts that have been created"@),
    ]
}

fn describe(out: &mut Vec<Description>, name: &'static str, help: &'static str)
    ensures
        final(out)@ == old(out)@.push(Description { name, help }),
{
    out.push(Description { name, help });
}

impl Provider {
    /// The descriptions that the metrics recorder is set up with.
    pub fn setup() -> (r: Vec<Description>)
        ensures
            r@.len() == catalogue().len(),
            forall|i: int| 0 <= i < r@.len() ==> (#[trigger] r@[i].name@, r@[i].help@) == catalogue()[i],
    {
        let mut r: Vec<Description> = Vec::new();
        describe(&mut r, EVENTS_SKIPPED, "Counter of events that have been skipped because of some rule");
        describe(&mut r, EVENTS_SCHEDULED, "Counter of events that have been scheduled to be posted");
        describe(&mut r, TASK_COUNT, "Counter of tasks that have been processed");
        describe(&mut r, TASK_TIMEOUT_COUNT, "Counter of tasks that have been timed out");
        describe(&mut r, TASK_TIME_ELAPSED, "The cumulative amount of time taken to run a task");
        describe(
            &mut r,
            TASK_TIME_ELAPSED_HISTOGRAM,
            "The historigram for the amount of time (and percentiles) of each task",
        );
        describe(&mut r, POSTS_CREATED, "Number of posts that have been created");
        describe(&mut r, PROFILES_UPDATED, "Number of posts that have been created");
        r
    }
}

} // verus!
