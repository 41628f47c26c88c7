use vstd::prelude::*;

use crate::queue::push_spec;
use crate::store::{Store, holds_key, instance_keys, key_at, same_content, user_keys};
use crate::store::UserRow;
use crate::types::{
    ChangeResult, KeysContainer, MastodonInstance, Profile, RelayError, ScheduledPost, Status, User,
    Visibility, profile_of_job,
};
use crate::url::{base_of, extract_instance_url, opt_view, parsed_url};

verus! {

/// Why an event was not relayed, as the skip counter tags it.
#[derive(Debug, Clone, Copy, PartialEq, Eq, Structural)]
pub enum SkipReason {
    Visibility,
    /// Counted, but the event still goes on (the instance blacklist does not
    /// block queuing).
    InstanceBlacklist,
    UserBlacklist,
}

pub open spec fn reason_text(r: SkipReason) -> Seq<char> {
    match r {
        SkipReason::Visibility => "visibility"@,
        SkipReason::InstanceBlacklist => "instance_blacklist"@,
        SkipReason::UserBlacklist => "user_blacklist"@,
    }
}

pub open spec fn visibility_text(v: Visibility) -> Seq<char> {
    match v {
        Visibility::Direct => "direct"@,
        Visibility::Private => "private"@,
        Visibility::Unlisted => "unlisted"@,
        Visibility::Public => "public"@,
    }
}

impl SkipReason {
    /// The `reason` tag of the skip counter.
    pub fn label(&self) -> (r: &'static str)
        ensures
            r@ == reason_text(*self),
    {
        match self {
            SkipReason::Visibility => "visibility",
            SkipReason::InstanceBlacklist => "instance_blacklist",
            SkipReason::UserBlacklist => "user_blacklist",
        }
    }
}

/// The `visibility` tag of the skip counter.
pub fn visibility_label(v: Visibility) -> (r: &'static str)
    ensures
        r@ == visibility_text(v),
{
    match v {
        Visibility::Direct => "direct",
        Visibility::Private => "private",
        Visibility::Unlisted => "unlisted",
        Visibility::Public => "public",
    }
}

/// One increment of the skip counter, with its two tags.
#[derive(Debug, Clone, Copy, PartialEq, Eq, Structural)]
pub struct Skip {
    pub reason: SkipReason,
    pub visibility: Visibility,
}

/// Where a status comes from: its instance's base URL and host.
pub struct Origin {
    pub instance_url: String,
    pub host: String,
}

/// The instance base URL and host of a status URL, or why there are none.
pub open spec fn origin_spec(url: Option<Seq<char>>) -> Result<(Seq<char>, Seq<char>), RelayError> {
    match url {
        None => Err(RelayError::MissingUrl),
        Some(u) => match parsed_url(u) {
            None => Err(RelayError::InvalidUrl),
            Some(v) => if v.cannot_be_a_base {
                Err(RelayError::CannotBeABase)
            } else {
                match base_of(v).host {
                    None => Err(RelayError::MissingHost),
                    Some(h) => Ok((base_of(v).text, h)),
                }
            },
        },
    }
}

/// The handle under which an account is known: `username.host`.
pub open spec fn handle_spec(username: Seq<char>, host: Seq<char>) -> Seq<char> {
    username + seq!['.'] + host
}

pub fn origin_of(status: &Status) -> (r: Result<Origin, RelayError>)
    ensures
        match origin_spec(opt_view(status.url)) {
            Ok((u, h)) => r is Ok && r->Ok_0.instance_url@ == u && r->Ok_0.host@ == h,
            Err(e) => r == Err::<Origin, RelayError>(e),
        },
{
    match &status.url {
        None => Err(RelayError::MissingUrl),
        Some(u) => {
            let base = extract_instance_url(u.as_str())?;
            match base.host() {
                None => Err(RelayError::MissingHost),
                Some(host) => {
                    Ok(Origin { instance_url: base.as_str().to_owned(), host })
                },
            }
        },
    }
}

/// `username.host`.
pub fn handle_of(username: &str, host: &str) -> (r: String)
    ensures
        r@ == handle_spec(username@, host@),
{
    let mut r = username.to_owned();
    proof {
        reveal_strlit(".");
    }
    r.append(".");
    r.append(host);
    r
}

impl Profile {
    /// The profile of the account that wrote `status`, under the identity
    /// `user_id` of the instance `instance_id`.
    pub fn build(instance_id: u128, user_id: u128, status: &Status) -> (r: Result<Profile, RelayError>)
        ensures
            match origin_spec(opt_view(status.url)) {
                Ok((_, h)) => r is Ok && profile_matches(r->Ok_0, instance_id, user_id, *status, h),
                Err(e) => r == Err::<Profile, RelayError>(e),
            },
    {
        let origin = origin_of(status)?;
        Ok(Profile {
            instance_id,
            user_id,
            name: status.account.username.clone(),
            display_name: status.account.display_name.clone(),
            about: status.account.note.clone(),
            picture: status.account.avatar.clone(),
            nip05: handle_of(status.account.username.as_str(), origin.host.as_str()),
            banner: status.account.header.clone(),
        })
    }
}

pub open spec fn profile_matches(p: Profile, instance_id: u128, user_id: u128, status: Status, host: Seq<char>) -> bool {
    &&& p.instance_id == instance_id
    &&& p.user_id == user_id
    &&& p.name == status.account.username
    &&& p.display_name == status.account.display_name
    &&& p.about == status.account.note
    &&& p.picture == status.account.avatar
    &&& p.nip05@ == handle_spec(status.account.username@, host)
    &&& p.banner == status.account.header
}

/// The job that relays `status` with the profile snapshot `profile`.
pub open spec fn job_matches(post: ScheduledPost, status: Status, profile: Profile) -> bool {
    &&& post.user_id == profile.user_id
    &&& post.instance_id == profile.instance_id
    &&& post.mastodon_id == status.id
    &&& post.content == status.content
    &&& post.profile_name == profile.name
    &&& post.profile_display_name == profile.display_name
    &&& post.profile_about == profile.about
    &&& post.profile_picture == profile.picture
    &&& post.profile_nip05 == profile.nip05
    &&& post.profile_banner == profile.banner
}

/// The job of `status`, by identity `user_id` of instance `instance_id`,
/// whose author's host is `host`: the status with its author's profile.
pub open spec fn job_for(job: ScheduledPost, status: Status, instance_id: u128, user_id: u128, host: Seq<
    char,
>) -> bool {
    &&& job_matches(job, status, profile_of_job(job))
    &&& profile_matches(profile_of_job(job), instance_id, user_id, status, host)
}

pub open spec fn instance_flag(blacklisted: bool, v: Visibility) -> Seq<Skip> {
    if blacklisted {
        seq![Skip { reason: SkipReason::InstanceBlacklist, visibility: v }]
    } else {
        Seq::empty()
    }
}

/// What the pre-queue filter waits for.
#[derive(Debug, Clone, Copy, PartialEq, Eq, Structural)]
pub enum AdmitStage {
    Start,
    /// The instance of the status's origin.
    Instance,
    /// The identity of the author, on instance `instance_id`.
    Identity { instance_id: u128 },
    /// Whether identity `user_id` is blacklisted.
    Blacklist { instance_id: u128, user_id: u128 },
    Done,
}

/// What came back from the last action.
pub enum AdmitEvent {
    Begin,
    InstanceFound(MastodonInstance),
    IdentityFound(User),
    Blacklisted(bool),
    /// The last action failed.
    Failed,
}

/// What the filter asks its caller to do next.
pub enum AdmitAction {
    /// Fetch or create the instance of this origin URL.
    FetchInstance(String),
    /// Fetch or create the identity of this handle on this instance.
    FetchIdentity(u128, String),
    /// Tell whether this identity is blacklisted.
    CheckBlacklist(u128),
    /// Queue this job; nothing follows.
    Push(ScheduledPost),
    /// Nothing is left to do; the status was dropped or failed.
    Stop(Result<(), RelayError>),
}

pub open spec fn stops(a: AdmitAction, r: Result<(), RelayError>) -> bool {
    a is Stop && a->Stop_0 == r
}

/// One step of the pre-queue filter over `status`. A status that is not
/// public is dropped and counted; the instance of a public one is fetched or
/// created and counted when blacklisted (which does not block it); then the
/// author's identity is fetched or created, and the job is queued unless the
/// identity is blacklisted, which is counted instead.
pub fn admit_step(stage: AdmitStage, status: &Status, event: AdmitEvent) -> (r: (
    AdmitStage,
    Vec<Skip>,
    AdmitAction,
))
    ensures
        event is Failed && stage != AdmitStage::Done ==> r.0 == AdmitStage::Done && r.1@.len() == 0
            && stops(r.2, Err(RelayError::StoreFailed)),
        match (stage, event) {
            (AdmitStage::Start, AdmitEvent::Begin) => if status.visibility != Visibility::Public {
                &&& r.0 == AdmitStage::Done
                &&& r.1@ == seq![Skip { reason: SkipReason::Visibility, visibility: status.visibility }]
                &&& stops(r.2, Ok(()))
            } else {
                &&& r.1@.len() == 0
                &&& match origin_spec(opt_view(status.url)) {
                    Err(e) => r.0 == AdmitStage::Done && stops(r.2, Err(e)),
                    Ok((url, _)) => r.0 == AdmitStage::Instance && r.2 is FetchInstance
                        && r.2->FetchInstance_0@ == url,
                }
            },
            (AdmitStage::Instance, AdmitEvent::InstanceFound(i)) => match origin_spec(opt_view(status.url)) {
                Err(e) => r.0 == AdmitStage::Done && r.1@.len() == 0 && stops(r.2, Err(e)),
                Ok((_, host)) => {
                    &&& r.0 == (AdmitStage::Identity { instance_id: i.id })
                    &&& r.1@ == instance_flag(i.blacklisted, status.visibility)
                    &&& r.2 is FetchIdentity
                    &&& r.2->FetchIdentity_0 == i.id
                    &&& r.2->FetchIdentity_1@ == handle_spec(status.account.username@, host)
                },
            },
            (AdmitStage::Identity { instance_id }, AdmitEvent::IdentityFound(u)) => {
                &&& r.0 == (AdmitStage::Blacklist { instance_id, user_id: u.id })
                &&& r.1@.len() == 0
                &&& r.2 == AdmitAction::CheckBlacklist(u.id)
            },
            (AdmitStage::Blacklist { .. }, AdmitEvent::Blacklisted(true)) => {
                &&& r.0 == AdmitStage::Done
                &&& r.1@ == seq![Skip { reason: SkipReason::UserBlacklist, visibility: status.visibility }]
                &&& stops(r.2, Ok(()))
            },
            (AdmitStage::Blacklist { instance_id, user_id }, AdmitEvent::Blacklisted(false)) => match origin_spec(
                opt_view(status.url),
            ) {
                Err(e) => r.0 == AdmitStage::Done && r.1@.len() == 0 && stops(r.2, Err(e)),
                Ok((_, host)) => {
                    &&& r.0 == AdmitStage::Done
                    &&& r.1@.len() == 0
                    &&& r.2 is Push
                    &&& job_for(r.2->Push_0, *status, instance_id, user_id, host)
                },
            },
            (AdmitStage::Done, _) => r.0 == AdmitStage::Done && r.1@.len() == 0 && stops(r.2, Ok(())),
            (_, AdmitEvent::Failed) => true,
            _ => r.0 == AdmitStage::Done && r.1@.len() == 0 && stops(r.2, Err(RelayError::OutOfOrder)),
        },
{
    let visibility = status.visibility;
    let mut skips: Vec<Skip> = Vec::new();
    match (stage, event) {
        (AdmitStage::Done, _) => (AdmitStage::Done, skips, AdmitAction::Stop(Ok(()))),
        (_, AdmitEvent::Failed) => (AdmitStage::Done, skips, AdmitAction::Stop(Err(RelayError::StoreFailed))),
        (AdmitStage::Start, AdmitEvent::Begin) => {
            if visibility != Visibility::Public {
                skips.push(Skip { reason: SkipReason::Visibility, visibility });
                return (AdmitStage::Done, skips, AdmitAction::Stop(Ok(())));
            }
            match origin_of(status) {
                Err(e) => (AdmitStage::Done, skips, AdmitAction::Stop(Err(e))),
                Ok(o) => (AdmitStage::Instance, skips, AdmitAction::FetchInstance(o.instance_url)),
            }
        },
        (AdmitStage::Instance, AdmitEvent::InstanceFound(i)) => match origin_of(status) {
            Err(e) => (AdmitStage::Done, skips, AdmitAction::Stop(Err(e))),
            Ok(o) => {
                if i.blacklisted {
                    skips.push(Skip { reason: SkipReason::InstanceBlacklist, visibility });
                }
                proof {
                    assert(skips@ == instance_flag(i.blacklisted, visibility));
                }
                let handle = handle_of(status.account.username.as_str(), o.host.as_str());
                (AdmitStage::Identity { instance_id: i.id }, skips, AdmitAction::FetchIdentity(i.id, handle))
            },
        },
        (AdmitStage::Identity { instance_id }, AdmitEvent::IdentityFound(u)) => (
            AdmitStage::Blacklist { instance_id, user_id: u.id },
            skips,
            AdmitAction::CheckBlacklist(u.id),
        ),
        (AdmitStage::Blacklist { instance_id, user_id }, AdmitEvent::Blacklisted(blacklisted)) => {
            if blacklisted {
                skips.push(Skip { reason: SkipReason::UserBlacklist, visibility });
                return (AdmitStage::Done, skips, AdmitAction::Stop(Ok(())));
            }
            match Profile::build(instance_id, user_id, status) {
                Err(e) => (AdmitStage::Done, skips, AdmitAction::Stop(Err(e))),
                Ok(p) => {
                    let job = ScheduledPost {
                        user_id: p.user_id,
                        instance_id: p.instance_id,
                        mastodon_id: status.id.clone(),
                        content: status.content.clone(),
                        profile_name: p.name,
                        profile_display_name: p.display_name,
                        profile_about: p.about,
                        profile_picture: p.picture,
                        profile_nip05: p.nip05,
                        profile_banner: p.banner,
                    };
                    (AdmitStage::Done, skips, AdmitAction::Push(job))
                },
            }
        },
        _ => (AdmitStage::Done, skips, AdmitAction::Stop(Err(RelayError::OutOfOrder))),
    }
}

/// What became of one status event.
pub struct Report {
    /// Increments of the skip counter, in order.
    pub skips: Vec<Skip>,
    /// The result of queuing the job, when it was queued.
    pub queued: Option<ChangeResult>,
}

pub open spec fn same_store(a: Store, b: Store) -> bool {
    &&& a.instances@ == b.instances@
    &&& a.users@ == b.users@
    &&& a.user_blacklist@ == b.user_blacklist@
    &&& same_content(a, b)
}

/// The instance table after fetching or creating the instance of `url`,
/// found at row `ii`: a known instance is kept as it is; a new one is
/// appended, not blacklisted.
pub open spec fn instance_upsert(
    pre: Seq<MastodonInstance>,
    post: Seq<MastodonInstance>,
    url: Seq<char>,
    ii: int,
) -> bool {
    if holds_key(pre, instance_keys(), url) {
        &&& key_at(pre, instance_keys(), url, ii)
        &&& post == pre
    } else {
        &&& ii == pre.len()
        &&& post.len() == pre.len() + 1
        &&& post.drop_last() == pre
        &&& post[ii].id == ii as u128
        &&& post[ii].url@ == url
        &&& !post[ii].blacklisted
    }
}

/// The identity table after fetching or creating the identity of `handle`
/// on instance `instance`, found at row `ui`: a known identity keeps its
/// place and keypair and only moves to `instance`; a new one is appended
/// with `keys`.
pub open spec fn user_upsert(
    pre: Seq<UserRow>,
    post: Seq<UserRow>,
    handle: Seq<char>,
    instance: u128,
    keys: KeysContainer,
    ui: int,
) -> bool {
    if holds_key(pre, user_keys(), handle) {
        &&& key_at(pre, user_keys(), handle, ui)
        &&& post == pre.update(ui, UserRow { instance_id: instance, ..pre[ui] })
    } else {
        &&& ui == pre.len()
        &&& post.len() == pre.len() + 1
        &&& post.drop_last() == pre
        &&& post[ui].id == ui as u128
        &&& post[ui].instance_id == instance
        &&& post[ui].mastodon_user@ == handle
        &&& post[ui].keys == keys
    }
}

/// The effect of a public status from instance `url` and host `host`: the
/// instance (row `ii`) and the author's identity (row `ui`) are fetched or
/// created, a blacklisted instance is counted, and the job is queued unless
/// the identity is blacklisted, which is counted instead.
pub open spec fn admitted(
    pre: Store,
    post: Store,
    status: Status,
    url: Seq<char>,
    host: Seq<char>,
    keys: KeysContainer,
    report: Report,
) -> bool {
    exists|ii: int, ui: int|
        #![trigger instance_upsert(pre.instances@, post.instances@, url, ii), user_upsert(pre.users@, post.users@, handle_spec(status.account.username@, host), ii as u128, keys, ui)]
        {
            &&& instance_upsert(pre.instances@, post.instances@, url, ii)
            &&& user_upsert(
                pre.users@,
                post.users@,
                handle_spec(status.account.username@, host),
                ii as u128,
                keys,
                ui,
            )
            &&& post.profiles@ == pre.profiles@
            &&& post.posts@ == pre.posts@
            &&& post.user_blacklist@ == pre.user_blacklist@
            &&& if pre.user_blacklist@.contains(ui as u128) {
                &&& report.skips@ == instance_flag(post.instances@[ii].blacklisted, status.visibility)
                    + seq![Skip { reason: SkipReason::UserBlacklist, visibility: status.visibility }]
                &&& report.queued is None
                &&& post.jobs.rows@ == pre.jobs.rows@
            } else {
                &&& report.skips@ == instance_flag(post.instances@[ii].blacklisted, status.visibility)
                &&& exists|job: ScheduledPost|
                    {
                        &&& #[trigger] job_for(job, status, ii as u128, ui as u128, host)
                        &&& post.jobs.rows@ == push_spec(pre.jobs.rows@, job)
                        &&& report.queued == Some(
                            if crate::queue::has_key(pre.jobs.rows@, status.id@) {
                                ChangeResult::Unchanged
                            } else {
                                ChangeResult::Changed(pre.jobs.rows@.len() as u128)
                            },
                        )
                    }
            }
        }
}

/// Runs the pre-queue filter on `status` against `store`, doing what each
/// step of `admit_step` asks: the instance and the author's identity (with
/// `new_keys` when new) are fetched or created, and the job is queued in the
/// store unless the filter drops the status.
pub fn process_status(store: &mut Store, status: Status, new_keys: KeysContainer) -> (r: Result<
    Report,
    RelayError,
>)
    requires
        old(store).wf(),
        old(store).instances@.len() < usize::MAX,
        old(store).users@.len() < usize::MAX,
        old(store).jobs.rows@.len() < usize::MAX,
    ensures
        final(store).wf(),
        status.visibility != Visibility::Public ==> {
            &&& r is Ok
            &&& r->Ok_0.skips@ == seq![Skip { reason: SkipReason::Visibility, visibility: status.visibility }]
            &&& r->Ok_0.queued is None
            &&& same_store(*final(store), *old(store))
        },
        status.visibility == Visibility::Public ==> match origin_spec(opt_view(status.url)) {
            Err(e) => r == Err::<Report, RelayError>(e) && same_store(*final(store), *old(store)),
            Ok((url, host)) => r is Ok && admitted(
                *old(store),
                *final(store),
                status,
                url,
                host,
                new_keys,
                r->Ok_0,
            ),
        },
{
    let (stage, mut skips, action) = admit_step(AdmitStage::Start, &status, AdmitEvent::Begin);
    let url = match action {
        AdmitAction::FetchInstance(u) => u,
        AdmitAction::Stop(Ok(())) => return Ok(Report { skips, queued: None }),
        AdmitAction::Stop(Err(e)) => return Err(e),
        _ => return Err(RelayError::OutOfOrder),
    };
    let ghost host = origin_spec(opt_view(status.url))->Ok_0.1;
    let ghost handle = handle_spec(status.account.username@, host);
    let instance = store.fetch_or_create_instance(url.as_str());
    let ghost ii = instance.id as int;
    let ghost flagged = instance.blacklisted;
    proof {
        if !holds_key(old(store).instances@, instance_keys(), url@) {
            assert(store.instances@.drop_last() =~= old(store).instances@);
        }
        assert(instance_upsert(old(store).instances@, store.instances@, url@, ii));
        assert(store.instances@[ii].blacklisted == flagged);
    }
    let (stage, mut found, action) = admit_step(stage, &status, AdmitEvent::InstanceFound(instance));
    skips.append(&mut found);
    assert(skips@ =~= instance_flag(flagged, status.visibility));
    let (iid, name) = match action {
        AdmitAction::FetchIdentity(i, h) => (i, h),
        AdmitAction::Stop(Err(e)) => return Err(e),
        _ => return Err(RelayError::OutOfOrder),
    };
    let ghost keys = new_keys;
    let user = store.fetch_or_create_user(iid, name.as_str(), new_keys);
    let ghost ui = user.id as int;
    proof {
        assert(user_upsert(old(store).users@, store.users@, handle, ii as u128, keys, ui));
    }
    let (stage, _, action) = admit_step(stage, &status, AdmitEvent::IdentityFound(user));
    let uid = match action {
        AdmitAction::CheckBlacklist(u) => u,
        _ => return Err(RelayError::OutOfOrder),
    };
    let blacklisted = store.is_user_blacklisted(uid);
    let (_, mut last, action) = admit_step(stage, &status, AdmitEvent::Blacklisted(blacklisted));
    skips.append(&mut last);
    match action {
        AdmitAction::Push(job) => {
            let ghost j = job;
            let queued = store.jobs.push(job);
            let report = Report { skips, queued: Some(queued) };
            proof {
                assert(report.skips@ =~= instance_flag(flagged, status.visibility));
                assert(job_for(j, status, ii as u128, ui as u128, host));
                assert(!old(store).user_blacklist@.contains(ui as u128));
                assert(store.jobs.rows@ == push_spec(old(store).jobs.rows@, j));
                assert(store.instances@[ii].blacklisted == flagged);
                assert(instance_upsert(old(store).instances@, store.instances@, url@, ii));
                assert(user_upsert(old(store).users@, store.users@, handle, ii as u128, keys, ui));
                assert(admitted(*old(store), *store, status, url@, host, keys, report));
            }
            Ok(report)
        },
        AdmitAction::Stop(Ok(())) => {
            let report = Report { skips, queued: None };
            proof {
                assert(report.skips@ =~= instance_flag(flagged, status.visibility) + seq![
                    Skip { reason: SkipReason::UserBlacklist, visibility: status.visibility },
                ]);
                assert(blacklisted);
                assert(old(store).user_blacklist@.contains(ui as u128));
                assert(store.jobs.rows@ == old(store).jobs.rows@);
                assert(store.instances@[ii].blacklisted == flagged);
                assert(instance_upsert(old(store).instances@, store.instances@, url@, ii));
                assert(user_upsert(old(store).users@, store.users@, handle, ii as u128, keys, ui));
                assert(admitted(*old(store), *store, status, url@, host, keys, report));
            }
            Ok(report)
        },
        AdmitAction::Stop(Err(e)) => Err(e),
        _ => Err(RelayError::OutOfOrder),
    }
}

} // verus!
