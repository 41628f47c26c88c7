use nostodon::types::{ChangeResult, Profile, RelayError, ResultContainer, ScheduledPost};
use nostodon::url::{base_url, extract_instance_url, parse};

#[test]
fn change_result_from_query_result() {
    let none = ResultContainer { result: None };
    assert_eq!(none.to_change_result(), Ok(ChangeResult::Unchanged));
    let word = ResultContainer { result: Some("unchanged".to_string()) };
    assert_eq!(word.to_change_result(), Ok(ChangeResult::Unchanged));
    let id = ResultContainer { result: Some("67e55044-10b1-426f-9247-bb680e5fe0c8".to_string()) };
    assert_eq!(
        id.to_change_result(),
        Ok(ChangeResult::Changed(0x67e55044_10b1_426f_9247_bb680e5fe0c8))
    );
    let bad = ResultContainer { result: Some("not-an-id".to_string()) };
    assert_eq!(bad.to_change_result(), Err(RelayError::InvalidId));
    assert!(ChangeResult::Changed(3).changed());
    assert!(!ChangeResult::Unchanged.changed());
}

#[test]
fn instance_url_drops_path_and_query() {
    let u = extract_instance_url("https://mastodon.social/@alice/109?x=1").unwrap();
    assert_eq!(u.as_str(), "https://mastodon.social/");
    assert_eq!(u.host().as_deref(), Some("mastodon.social"));
}

#[test]
fn instance_url_keeps_fragment_and_port() {
    let u = extract_instance_url("https://example.com:8443/a/b?q=1#top").unwrap();
    assert_eq!(u.as_str(), "https://example.com:8443/#top");
}

#[test]
fn instance_url_errors() {
    assert_eq!(extract_instance_url("not a url").err(), Some(RelayError::InvalidUrl));
    assert_eq!(extract_instance_url("mailto:someone@example.com").err(), Some(RelayError::CannotBeABase));
    let u = parse("mailto:someone@example.com").unwrap();
    assert!(u.cannot_be_a_base());
    assert_eq!(base_url(u).err(), Some(RelayError::CannotBeABase));
}

#[test]
fn parsed_url_text_is_normalized() {
    let u = parse("HTTPS://Example.COM").unwrap();
    assert_eq!(u.as_str(), "https://example.com/");
    let hostless = extract_instance_url("unix:/run/foo.socket?x").unwrap();
    assert_eq!(hostless.as_str(), "unix:/");
    assert_eq!(hostless.host(), None);
}

#[test]
fn profile_from_job_snapshot() {
    let job = ScheduledPost {
        user_id: 5,
        instance_id: 6,
        mastodon_id: "1".to_string(),
        content: "c".to_string(),
        profile_name: "n".to_string(),
        profile_display_name: "d".to_string(),
        profile_about: "a".to_string(),
        profile_picture: "p".to_string(),
        profile_nip05: "h".to_string(),
        profile_banner: "b".to_string(),
    };
    let p = Profile::from(job);
    assert_eq!((p.user_id, p.instance_id), (5, 6));
    assert_eq!(
        (p.name.as_str(), p.display_name.as_str(), p.about.as_str(), p.picture.as_str(), p.nip05.as_str(), p.banner.as_str()),
        ("n", "d", "a", "p", "h", "b")
    );
}
