use nostodon::admission::{
    admit_step, handle_of, origin_of, process_status, visibility_label, AdmitAction, AdmitEvent, AdmitStage, Skip,
    SkipReason,
};
use nostodon::health::{Provider, EVENTS_SKIPPED, PROFILES_UPDATED};
use nostodon::listener::{check_sources, on_stream_event, Fault, StreamAction, StreamEvent, RECONNECT_BACKOFF_MS};
use nostodon::store::Store;
use nostodon::types::{
    Account, ChangeResult, KeysContainer, MastodonInstance, MastodonPost, MastodonPostStatus, MastodonServer, Profile,
    RelayError, ScheduledPostStatus, Status, User, Visibility,
};

fn keys(tag: &str) -> KeysContainer {
    KeysContainer { nostr_public_key: format!("npub-{tag}"), nostr_private_key: format!("nsec-{tag}") }
}

fn status(id: &str, username: &str, visibility: Visibility) -> Status {
    Status {
        id: id.to_string(),
        url: Some(format!("https://mastodon.social/@{username}/{id}")),
        visibility,
        content: "<p>hello</p>".to_string(),
        account: Account {
            username: username.to_string(),
            display_name: "Alice".to_string(),
            note: "about me".to_string(),
            avatar: "https://mastodon.social/a.png".to_string(),
            header: "https://mastodon.social/h.png".to_string(),
        },
    }
}

#[test]
fn non_public_status_is_skipped_for_visibility() {
    for v in [Visibility::Direct, Visibility::Private, Visibility::Unlisted] {
        let mut store = Store::new();
        let report = process_status(&mut store, status("1", "alice", v), keys("a")).unwrap();
        assert_eq!(report.skips, vec![Skip { reason: SkipReason::Visibility, visibility: v }]);
        assert_eq!(report.queued, None);
        assert!(store.jobs.rows.is_empty());
        assert!(store.instances.is_empty());
        assert!(store.users.is_empty());
    }
    assert_eq!(SkipReason::Visibility.label(), "visibility");
    assert_eq!(visibility_label(Visibility::Direct), "direct");
    assert_eq!(visibility_label(Visibility::Unlisted), "unlisted");
}

#[test]
fn public_status_is_queued_with_profile_snapshot() {
    let mut store = Store::new();
    let report = process_status(&mut store, status("42", "alice", Visibility::Public), keys("a")).unwrap();
    assert!(report.skips.is_empty());
    assert_eq!(report.queued, Some(ChangeResult::Changed(0)));
    assert_eq!(store.instances.len(), 1);
    assert_eq!(store.instances[0].url, "https://mastodon.social/");
    assert_eq!(store.users[0].mastodon_user, "alice.mastodon.social");
    assert_eq!(store.users[0].keys.nostr_private_key, "nsec-a");
    let job = &store.jobs.rows[0];
    assert_eq!(job.status, ScheduledPostStatus::New);
    assert_eq!(job.post.mastodon_id, "42");
    assert_eq!(job.post.content, "<p>hello</p>");
    assert_eq!(job.post.profile_nip05, "alice.mastodon.social");
    assert_eq!(job.post.profile_display_name, "Alice");

    let again = process_status(&mut store, status("42", "alice", Visibility::Public), keys("b")).unwrap();
    assert_eq!(again.queued, Some(ChangeResult::Unchanged));
    assert_eq!(store.jobs.rows.len(), 1);
    assert_eq!(store.users.len(), 1);
    assert_eq!(store.users[0].keys.nostr_private_key, "nsec-a");
}

#[test]
fn blacklisted_identity_never_reaches_the_queue() {
    let mut store = Store::new();
    let instance = store.fetch_or_create_instance("https://mastodon.social/");
    let user = store.fetch_or_create_user(instance.id, "mallory.mastodon.social", keys("m"));
    store.blacklist_user(user.id);
    assert!(store.is_user_blacklisted(user.id));
    let report = process_status(&mut store, status("7", "mallory", Visibility::Public), keys("x")).unwrap();
    assert_eq!(
        report.skips,
        vec![Skip { reason: SkipReason::UserBlacklist, visibility: Visibility::Public }]
    );
    assert_eq!(SkipReason::UserBlacklist.label(), "user_blacklist");
    assert_eq!(report.queued, None);
    assert!(store.jobs.rows.is_empty());
}

#[test]
fn blacklisted_instance_is_counted_but_still_queued() {
    let mut store = Store::new();
    let instance = store.fetch_or_create_instance("https://mastodon.social/");
    store.blacklist_instance(instance.id);
    let report = process_status(&mut store, status("8", "bob", Visibility::Public), keys("b")).unwrap();
    assert_eq!(
        report.skips,
        vec![Skip { reason: SkipReason::InstanceBlacklist, visibility: Visibility::Public }]
    );
    assert_eq!(report.queued, Some(ChangeResult::Changed(0)));
    assert_eq!(SkipReason::InstanceBlacklist.label(), "instance_blacklist");
}

#[test]
fn status_without_usable_url_is_an_error() {
    let mut store = Store::new();
    let mut s = status("9", "carol", Visibility::Public);
    s.url = None;
    assert_eq!(process_status(&mut store, s, keys("c")).err(), Some(RelayError::MissingUrl));
    let mut s = status("9", "carol", Visibility::Public);
    s.url = Some("::".to_string());
    assert_eq!(process_status(&mut store, s, keys("c")).err(), Some(RelayError::InvalidUrl));
    assert!(store.instances.is_empty());
}

#[test]
fn identity_keeps_keys_and_follows_instance() {
    let mut store = Store::new();
    let first = store.fetch_or_create_user(0, "dave.example.com", keys("d1"));
    let second = store.fetch_or_create_user(3, "dave.example.com", keys("d2"));
    assert_eq!(first.id, second.id);
    assert_eq!(second.nostr_creds.nostr_private_key, "nsec-d1");
    assert_eq!(store.users[0].instance_id, 3);
    assert_eq!(store.fetch_credentials(first.id).unwrap().nostr_public_key, "npub-d1");
    assert!(store.fetch_credentials(9).is_none());
}

#[test]
fn instance_upsert_is_idempotent() {
    let mut store = Store::new();
    let a = store.fetch_or_create_instance("https://a.example/");
    let b = store.fetch_or_create_instance("https://b.example/");
    let a2 = store.fetch_or_create_instance("https://a.example/");
    assert_eq!((a.id, b.id, a2.id), (0, 1, 0));
    assert!(!a2.blacklisted);
    assert_eq!(store.instances.len(), 2);
}

fn profile(user: u128, name: &str) -> Profile {
    Profile {
        instance_id: 0,
        user_id: user,
        name: name.to_string(),
        display_name: "D".to_string(),
        about: "A".to_string(),
        picture: "https://x.example/p.png".to_string(),
        nip05: "n.x.example".to_string(),
        banner: "https://x.example/b.png".to_string(),
    }
}

#[test]
fn profile_mirror_reports_changes_only() {
    let mut store = Store::new();
    assert_eq!(store.update_profile(profile(4, "erin")), ChangeResult::Changed(0));
    assert_eq!(store.update_profile(profile(4, "erin")), ChangeResult::Unchanged);
    assert_eq!(store.update_profile(profile(5, "frank")), ChangeResult::Changed(1));
    assert_eq!(store.update_profile(profile(4, "erin2")), ChangeResult::Changed(0));
    assert_eq!(store.profiles[0].profile.name, "erin2");
    assert_eq!(store.profiles.len(), 2);
}

fn published(key: &str, target: &str) -> MastodonPost {
    MastodonPost {
        instance_id: 0,
        user_id: 2,
        mastodon_id: key.to_string(),
        nostr_id: target.to_string(),
        status: MastodonPostStatus::Posted,
    }
}

#[test]
fn published_post_then_delete_once() {
    let mut store = Store::new();
    assert_eq!(store.add_post(published("B", "note1")), ChangeResult::Changed(0));
    assert_eq!(store.add_post(published("B", "note2")), ChangeResult::Unchanged);
    assert_eq!(store.posts.len(), 1);
    assert_eq!(store.posts[0].post.status, MastodonPostStatus::Posted);
    assert_eq!(store.posts[0].post.nostr_id, "note1");

    let mut remote_deletes = 0;
    for _ in 0..2 {
        if let Some((user, target)) = store.delete_post("B") {
            assert_eq!((user, target.as_str()), (2, "note1"));
            remote_deletes += 1;
        }
    }
    assert_eq!(remote_deletes, 1);
    assert_eq!(store.posts[0].post.status, MastodonPostStatus::Deleted);
    assert!(store.delete_post("never-published").is_none());
}

#[test]
fn listener_reconnects_for_ever() {
    assert_eq!(on_stream_event(StreamEvent::Item), StreamAction::Forward);
    assert_eq!(
        on_stream_event(StreamEvent::Ended),
        StreamAction::Reconnect { delay_ms: RECONNECT_BACKOFF_MS, report: false }
    );
    assert_eq!(
        on_stream_event(StreamEvent::Failed(Fault::Timeout)),
        StreamAction::Reconnect { delay_ms: RECONNECT_BACKOFF_MS, report: false }
    );
    assert_eq!(
        on_stream_event(StreamEvent::Failed(Fault::Rejected)),
        StreamAction::Reconnect { delay_ms: RECONNECT_BACKOFF_MS, report: true }
    );
    assert_eq!(RECONNECT_BACKOFF_MS, 500);
}

#[test]
fn relay_needs_a_source() {
    assert_eq!(check_sources(&vec![]), Err(RelayError::NoSources));
    let server = MastodonServer {
        instance_url: "https://mastodon.social".to_string(),
        client_key: "k".to_string(),
        client_secret: "s".to_string(),
        redirect_url: "urn:ietf:wg:oauth:2.0:oob".to_string(),
        token: "t".to_string(),
    };
    assert_eq!(check_sources(&vec![server]), Ok(()));
}

#[test]
fn metrics_catalogue() {
    let d = Provider::setup();
    assert_eq!(d.len(), 8);
    assert_eq!(d[0].name, EVENTS_SKIPPED);
    assert_eq!(d[0].name, "nostodon_mastodon_events_skipped_count");
    assert_eq!(d[7].name, PROFILES_UPDATED);
}

#[test]
fn origin_of_a_status() {
    let s = status("10", "gina", Visibility::Public);
    let origin = origin_of(&s).unwrap();
    assert_eq!(origin.instance_url, "https://mastodon.social/");
    assert_eq!(origin.host, "mastodon.social");
    assert_eq!(handle_of("gina", &origin.host), "gina.mastodon.social");

    let mut hostless = status("11", "gina", Visibility::Public);
    hostless.url = Some("unix:/run/foo.socket".to_string());
    assert_eq!(origin_of(&hostless).err(), Some(RelayError::MissingHost));
    let mut store = Store::new();
    assert_eq!(process_status(&mut store, hostless, keys("g")).err(), Some(RelayError::MissingHost));
}

#[test]
fn profile_build_from_status() {
    let s = status("12", "hana", Visibility::Public);
    let p = Profile::build(3, 4, &s).unwrap();
    assert_eq!((p.instance_id, p.user_id), (3, 4));
    assert_eq!(p.name, "hana");
    assert_eq!(p.display_name, "Alice");
    assert_eq!(p.about, "about me");
    assert_eq!(p.picture, "https://mastodon.social/a.png");
    assert_eq!(p.banner, "https://mastodon.social/h.png");
    assert_eq!(p.nip05, "hana.mastodon.social");
    let mut no_url = status("13", "hana", Visibility::Public);
    no_url.url = None;
    assert_eq!(Profile::build(3, 4, &no_url).err(), Some(RelayError::MissingUrl));
}

fn instance(id: u128, blacklisted: bool) -> MastodonInstance {
    MastodonInstance { id, url: "https://mastodon.social/".to_string(), blacklisted }
}

#[test]
fn admit_steps_for_a_public_status() {
    let s = status("20", "ivy", Visibility::Public);
    let (stage, skips, action) = admit_step(AdmitStage::Start, &s, AdmitEvent::Begin);
    assert!(skips.is_empty());
    assert_eq!(stage, AdmitStage::Instance);
    match action {
        AdmitAction::FetchInstance(url) => assert_eq!(url, "https://mastodon.social/"),
        _ => panic!("expected an instance lookup"),
    }
    let (stage, skips, action) = admit_step(stage, &s, AdmitEvent::InstanceFound(instance(7, true)));
    assert_eq!(skips, vec![Skip { reason: SkipReason::InstanceBlacklist, visibility: Visibility::Public }]);
    assert_eq!(stage, AdmitStage::Identity { instance_id: 7 });
    match action {
        AdmitAction::FetchIdentity(i, handle) => {
            assert_eq!(i, 7);
            assert_eq!(handle, "ivy.mastodon.social");
        }
        _ => panic!("expected an identity lookup"),
    }
    let user = User { id: 9, nostr_creds: keys("i") };
    let (stage, skips, action) = admit_step(stage, &s, AdmitEvent::IdentityFound(user));
    assert!(skips.is_empty());
    assert_eq!(stage, AdmitStage::Blacklist { instance_id: 7, user_id: 9 });
    assert!(matches!(action, AdmitAction::CheckBlacklist(9)));
    let (stage, skips, action) = admit_step(stage, &s, AdmitEvent::Blacklisted(false));
    assert!(skips.is_empty());
    assert_eq!(stage, AdmitStage::Done);
    match action {
        AdmitAction::Push(job) => {
            assert_eq!((job.instance_id, job.user_id), (7, 9));
            assert_eq!(job.mastodon_id, "20");
            assert_eq!(job.content, "<p>hello</p>");
            assert_eq!(job.profile_nip05, "ivy.mastodon.social");
            assert_eq!(job.profile_name, "ivy");
        }
        _ => panic!("expected the job to be queued"),
    }
}

#[test]
fn admit_step_drops_and_fails() {
    let private = status("21", "ivy", Visibility::Private);
    let (stage, skips, action) = admit_step(AdmitStage::Start, &private, AdmitEvent::Begin);
    assert_eq!(stage, AdmitStage::Done);
    assert_eq!(skips, vec![Skip { reason: SkipReason::Visibility, visibility: Visibility::Private }]);
    assert!(matches!(action, AdmitAction::Stop(Ok(()))));

    let public = status("22", "ivy", Visibility::Public);
    let stage = AdmitStage::Blacklist { instance_id: 1, user_id: 2 };
    let (_, skips, action) = admit_step(stage, &public, AdmitEvent::Blacklisted(true));
    assert_eq!(skips, vec![Skip { reason: SkipReason::UserBlacklist, visibility: Visibility::Public }]);
    assert!(matches!(action, AdmitAction::Stop(Ok(()))));

    let (_, _, action) = admit_step(AdmitStage::Instance, &public, AdmitEvent::Failed);
    assert!(matches!(action, AdmitAction::Stop(Err(RelayError::StoreFailed))));
    let (_, _, action) = admit_step(AdmitStage::Instance, &public, AdmitEvent::Blacklisted(false));
    assert!(matches!(action, AdmitAction::Stop(Err(RelayError::OutOfOrder))));

    let mut no_url = status("23", "ivy", Visibility::Public);
    no_url.url = None;
    let (_, _, action) = admit_step(AdmitStage::Start, &no_url, AdmitEvent::Begin);
    assert!(matches!(action, AdmitAction::Stop(Err(RelayError::MissingUrl))));
}

#[test]
fn known_blacklisted_identity_keeps_its_row() {
    let mut store = Store::new();
    let inst = store.fetch_or_create_instance("https://mastodon.social/");
    store.blacklist_instance(inst.id);
    let user = store.fetch_or_create_user(inst.id, "kim.mastodon.social", keys("k"));
    store.blacklist_user(user.id);
    let report = process_status(&mut store, status("30", "kim", Visibility::Public), keys("x")).unwrap();
    assert_eq!(
        report.skips,
        vec![
            Skip { reason: SkipReason::InstanceBlacklist, visibility: Visibility::Public },
            Skip { reason: SkipReason::UserBlacklist, visibility: Visibility::Public },
        ]
    );
    assert_eq!(store.users.len(), 1);
    assert_eq!(store.users[0].keys.nostr_private_key, "nsec-k");
    assert!(store.instances[0].blacklisted);
    assert!(store.jobs.rows.is_empty());
}
