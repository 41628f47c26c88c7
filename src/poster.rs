use vstd::prelude::*;

use crate::types::{
    ChangeResult, MastodonPost, MastodonPostStatus, Profile, RelayError, ScheduledPost,
    profile_of_job,
};
use crate::store::{PostRow, holds_key, key_at, keyed, post_ids, post_keys};
use crate::url::parsed_url;

verus! {

/// The Markdown that `html2md` makes of the HTML text `html`.
pub uninterp spec fn markdown_of(html: Seq<char>) -> Seq<char>;

/// Relies on `html2md::parse_html`: the Markdown depends on the HTML text alone.
#[verifier::external_body]
fn html_to_markdown(html: &str) -> (r: String)
    ensures
        r@ == markdown_of(html@),
{
    html2md::parse_html(html)
}

/// The text of the note that relays a post whose content is `html`.
pub fn note_text(html: &str) -> (r: String)
    ensures
        r@ == markdown_of(html@),
{
    html_to_markdown(html)
}

/// The profile fields written on the target platform for a mirrored account.
pub struct Metadata {
    pub name: String,
    pub display_name: String,
    pub about: String,
    pub picture: String,
    pub banner: String,
    pub nip05: String,
}

pub open spec fn mirror_display_name(name: Seq<char>) -> Seq<char> {
    "[Unofficial Mirror] "@ + name
}

pub open spec fn mirror_about(about: Seq<char>) -> Seq<char> {
    "THIS IS AN UNNOFICIAL MIRROR. CHECK THE PROFILE FOR CORRECT INFO.\n\n"@ + about
}

pub open spec fn mirror_nip05(handle: Seq<char>) -> Seq<char> {
    handle + "@nostodon.org"@
}

/// The text of a URL as the URL parser writes it back, if it parses.
pub open spec fn url_text(s: Seq<char>) -> Option<Seq<char>> {
    match parsed_url(s) {
        Some(v) => Some(v.text),
        None => None,
    }
}

/// The metadata that mirrors `profile`: every field marked as a mirror, and
/// the picture and banner as the URLs they must be.
pub fn mirror_metadata(profile: &Profile) -> (r: Result<Metadata, RelayError>)
    ensures
        match (url_text(profile.banner@), url_text(profile.picture@)) {
            (Some(banner), Some(picture)) => r is Ok && {
                let m = r->Ok_0;
                &&& m.name@ == profile.name@
                &&& m.display_name@ == mirror_display_name(profile.display_name@)
                &&& m.about@ == mirror_about(profile.about@)
                &&& m.picture@ == picture
                &&& m.banner@ == banner
                &&& m.nip05@ == mirror_nip05(profile.nip05@)
            },
            _ => r == Err::<Metadata, RelayError>(RelayError::InvalidUrl),
        },
{
    let banner = match crate::url::parse(profile.banner.as_str()) {
        Some(u) => u.as_str().to_owned(),
        None => return Err(RelayError::InvalidUrl),
    };
    let picture = match crate::url::parse(profile.picture.as_str()) {
        Some(u) => u.as_str().to_owned(),
        None => return Err(RelayError::InvalidUrl),
    };
    let mut display_name = "[Unofficial Mirror] ".to_owned();
    display_name.append(profile.display_name.as_str());
    let mut about = "THIS IS AN UNNOFICIAL MIRROR. CHECK THE PROFILE FOR CORRECT INFO.\n\n".to_owned();
    about.append(profile.about.as_str());
    let mut nip05 = profile.nip05.clone();
    nip05.append("@nostodon.org");
    Ok(Metadata { name: profile.name.clone(), display_name, about, picture, banner, nip05 })
}

/// What the poster waits for while it drives one claimed job.
#[derive(Debug, Clone, Copy, PartialEq, Eq, Structural)]
pub enum Stage {
    Start,
    Credentials,
    Profile,
    Mirror,
    Publish,
    Record,
    Settle,
    Done,
}

/// What came back from the last action.
pub enum Event {
    Begin,
    /// The last action failed.
    Failed,
    CredentialsFound,
    ProfileStored(ChangeResult),
    Mirrored,
    /// The note was published under this target id.
    Published(String),
    Recorded,
    Settled,
}

/// What the poster asks its caller to do next.
pub enum Action {
    /// Resolve the identity's keypair.
    FetchCredentials(u128),
    /// Upsert the job's profile snapshot in the store.
    StoreProfile(Profile),
    /// Write the profile on the target platform.
    MirrorProfile(Metadata),
    /// Publish a note with this text.
    Publish(String),
    /// Record the published post in the store.
    RecordPost(MastodonPost),
    /// Mark the job `Finished`.
    Finish(String),
    /// Mark the job `Errored`.
    Fail(String),
    /// Nothing is left to do for this job.
    Stop,
}

/// Stages in which the job is still in progress, so a failure errs it.
pub open spec fn in_progress(stage: Stage) -> bool {
    match stage {
        Stage::Credentials | Stage::Profile | Stage::Mirror | Stage::Publish | Stage::Record => true,
        _ => false,
    }
}

/// The action that marks `job` as failed.
pub open spec fn fails_job(a: Action, job: ScheduledPost) -> bool {
    a is Fail && a->Fail_0@ == job.mastodon_id@
}

pub open spec fn publishes(a: Action, job: ScheduledPost) -> bool {
    a is Publish && a->Publish_0@ == markdown_of(job.content@)
}

/// The record of `job`, published under `target`.
pub open spec fn record_matches(p: MastodonPost, job: ScheduledPost, target: Seq<char>) -> bool {
    &&& p.instance_id == job.instance_id
    &&& p.user_id == job.user_id
    &&& p.mastodon_id@ == job.mastodon_id@
    &&& p.nostr_id@ == target
    &&& p.status == MastodonPostStatus::Posted
}

fn fail(job: &ScheduledPost) -> (r: (Stage, Action))
    ensures
        r.0 == Stage::Settle,
        fails_job(r.1, *job),
{
    (Stage::Settle, Action::Fail(job.mastodon_id.clone()))
}

/// One step of the pipeline that turns a claimed job into a published note:
/// resolve the credentials, mirror the profile when its snapshot changed,
/// publish, record the post, and finish the job. A failure at any point
/// before the job is settled marks it `Errored`.
pub fn step(stage: Stage, job: &ScheduledPost, event: Event) -> (r: (Stage, Action))
    ensures
        in_progress(stage) && event is Failed ==> r.0 == Stage::Settle && fails_job(r.1, *job),
        match (stage, event) {
            (Stage::Start, Event::Begin) => r.0 == Stage::Credentials && r.1 == Action::FetchCredentials(job.user_id),
            (Stage::Credentials, Event::CredentialsFound) => r.0 == Stage::Profile && r.1 == Action::StoreProfile(profile_of_job(*job)),
            (Stage::Profile, Event::ProfileStored(ChangeResult::Unchanged)) => r.0 == Stage::Publish && publishes(r.1, *job),
            (Stage::Profile, Event::ProfileStored(ChangeResult::Changed(_))) => match (url_text(job.profile_banner@), url_text(job.profile_picture@)) {
                (Some(banner), Some(picture)) => r.0 == Stage::Mirror && r.1 is MirrorProfile && {
                    let m = r.1->MirrorProfile_0;
                    &&& m.name@ == job.profile_name@
                    &&& m.display_name@ == mirror_display_name(job.profile_display_name@)
                    &&& m.about@ == mirror_about(job.profile_about@)
                    &&& m.picture@ == picture
                    &&& m.banner@ == banner
                    &&& m.nip05@ == mirror_nip05(job.profile_nip05@)
                },
                _ => r.0 == Stage::Settle && fails_job(r.1, *job),
            },
            (Stage::Mirror, Event::Mirrored) => r.0 == Stage::Publish && publishes(r.1, *job),
            (Stage::Publish, Event::Published(target)) => r.0 == Stage::Record && r.1 is RecordPost && record_matches(r.1->RecordPost_0, *job, target@),
            (Stage::Record, Event::Recorded) => r.0 == Stage::Settle && r.1 is Finish && r.1->Finish_0@ == job.mastodon_id@,
            (Stage::Settle, _) => r.0 == Stage::Done && r.1 is Stop,
            (Stage::Done, _) => r.0 == Stage::Done && r.1 is Stop,
            _ => r.0 == Stage::Settle && fails_job(r.1, *job),
        },
{
    match (stage, event) {
        (Stage::Start, Event::Begin) => (Stage::Credentials, Action::FetchCredentials(job.user_id)),
        (Stage::Credentials, Event::CredentialsFound) => (Stage::Profile, Action::StoreProfile(Profile::from(job.duplicate()))),
        (Stage::Profile, Event::ProfileStored(ChangeResult::Unchanged)) => (Stage::Publish, Action::Publish(note_text(job.content.as_str()))),
        (Stage::Profile, Event::ProfileStored(ChangeResult::Changed(_))) => {
            let profile = Profile::from(job.duplicate());
            match mirror_metadata(&profile) {
                Ok(m) => (Stage::Mirror, Action::MirrorProfile(m)),
                Err(_) => fail(job),
            }
        },
        (Stage::Mirror, Event::Mirrored) => (Stage::Publish, Action::Publish(note_text(job.content.as_str()))),
        (Stage::Publish, Event::Published(target)) => (Stage::Record, Action::RecordPost(MastodonPost {
            instance_id: job.instance_id,
            user_id: job.user_id,
            mastodon_id: job.mastodon_id.clone(),
            nostr_id: target,
            status: MastodonPostStatus::Posted,
        })),
        (Stage::Record, Event::Recorded) => (Stage::Settle, Action::Finish(job.mastodon_id.clone())),
        (Stage::Settle, _) => (Stage::Done, Action::Stop),
        (Stage::Done, _) => (Stage::Done, Action::Stop),
        _ => fail(job),
    }
}

/// A published job leaves one record: when no post of the job's source id
/// was recorded yet, storing the record that `step` asks for after the
/// publication adds exactly one row of that id, `Posted` under the target id.
pub proof fn lemma_publish_recorded(
    posts: Seq<PostRow>,
    job: ScheduledPost,
    target: Seq<char>,
    record: MastodonPost,
)
    requires
        keyed(posts, post_ids(), post_keys()),
        posts.len() < usize::MAX,
        !holds_key(posts, post_keys(), job.mastodon_id@),
        record_matches(record, job, target),
    ensures
        ({
            let out = posts.push(PostRow { id: posts.len() as u128, post: record });
            &&& key_at(out, post_keys(), job.mastodon_id@, posts.len() as int)
            &&& out[posts.len() as int].post.status == MastodonPostStatus::Posted
            &&& out[posts.len() as int].post.nostr_id@ == target
            &&& out[posts.len() as int].post.user_id == job.user_id
            &&& out[posts.len() as int].post.instance_id == job.instance_id
            &&& forall|i: int| #[trigger] key_at(out, post_keys(), job.mastodon_id@, i) ==> i == posts.len()
        }),
{
    let out = posts.push(PostRow { id: posts.len() as u128, post: record });
    assert forall|i: int| #[trigger] key_at(out, post_keys(), job.mastodon_id@, i) implies i == posts.len() by {
        if i < posts.len() {
            assert(out[i] == posts[i]);
            assert(key_at(posts, post_keys(), job.mastodon_id@, i));
        }
    }
}

} // verus!
