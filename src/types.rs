use vstd::prelude::*;

verus! {

/// State of a scheduled post: `New -> Running -> Finished`, or `Running -> Errored`.
#[derive(Debug, Clone, Copy, PartialEq, Eq, Structural)]
pub enum ScheduledPostStatus {
    New,
    Running,
    Errored,
    Finished,
}

/// State of a post that was published on the target platform.
#[derive(Debug, Clone, Copy, PartialEq, Eq, Structural)]
pub enum MastodonPostStatus {
    Posted,
    Deleted,
}

/// Acknowledgement of an upsert: the id of the row that a first write created
/// or changed, or `Unchanged` for a repeated write.
#[derive(Debug, Clone, Copy, PartialEq, Eq, Structural)]
pub enum ChangeResult {
    Changed(u128),
    Unchanged,
}

impl ChangeResult {
    pub fn changed(&self) -> (r: bool)
        ensures
            r == (*self is Changed),
    {
        match self {
            ChangeResult::Changed(_) => true,
            ChangeResult::Unchanged => false,
        }
    }
}

/// A relay job: a post of a source account waiting to be published, with a
/// snapshot of the account's profile.
#[derive(Debug, Clone)]
pub struct ScheduledPost {
    pub user_id: u128,
    pub instance_id: u128,
    pub mastodon_id: String,
    pub content: String,
    pub profile_name: String,
    pub profile_display_name: String,
    pub profile_about: String,
    pub profile_picture: String,
    pub profile_nip05: String,
    pub profile_banner: String,
}

impl ScheduledPost {
    pub fn duplicate(&self) -> (r: ScheduledPost)
        ensures
            r == *self,
    {
        ScheduledPost {
            user_id: self.user_id,
            instance_id: self.instance_id,
            mastodon_id: self.mastodon_id.clone(),
            content: self.content.clone(),
            profile_name: self.profile_name.clone(),
            profile_display_name: self.profile_display_name.clone(),
            profile_about: self.profile_about.clone(),
            profile_picture: self.profile_picture.clone(),
            profile_nip05: self.profile_nip05.clone(),
            profile_banner: self.profile_banner.clone(),
        }
    }
}

/// A Nostr keypair in bech32 text.
#[derive(Debug, Clone)]
pub struct KeysContainer {
    pub nostr_public_key: String,
    pub nostr_private_key: String,
}

impl KeysContainer {
    pub fn duplicate(&self) -> (r: KeysContainer)
        ensures
            r == *self,
    {
        KeysContainer {
            nostr_public_key: self.nostr_public_key.clone(),
            nostr_private_key: self.nostr_private_key.clone(),
        }
    }
}

/// A row id handed back by an insert.
#[derive(Debug, Clone)]
pub struct IdContainer {
    pub result: u128,
}

/// A source server, seen by its origin URL.
#[derive(Debug, Clone)]
pub struct MastodonInstance {
    pub id: u128,
    pub url: String,
    pub blacklisted: bool,
}

impl MastodonInstance {
    pub fn duplicate(&self) -> (r: MastodonInstance)
        ensures
            r == *self,
    {
        MastodonInstance { id: self.id, url: self.url.clone(), blacklisted: self.blacklisted }
    }
}

/// An identity: one source account and the credentials generated for it.
#[derive(Debug, Clone)]
pub struct User {
    pub id: u128,
    pub nostr_creds: KeysContainer,
}

/// The mirrored copy of a source account's profile.
#[derive(Debug, Clone)]
pub struct Profile {
    pub instance_id: u128,
    pub user_id: u128,
    pub name: String,
    pub display_name: String,
    pub about: String,
    pub picture: String,
    pub nip05: String,
    pub banner: String,
}

/// Whether two profiles hold the same values.
pub open spec fn same_profile(a: Profile, b: Profile) -> bool {
    &&& a.instance_id == b.instance_id
    &&& a.user_id == b.user_id
    &&& a.name@ == b.name@
    &&& a.display_name@ == b.display_name@
    &&& a.about@ == b.about@
    &&& a.picture@ == b.picture@
    &&& a.nip05@ == b.nip05@
    &&& a.banner@ == b.banner@
}

impl Profile {
    pub fn same_as(&self, other: &Profile) -> (r: bool)
        ensures
            r == same_profile(*self, *other),
    {
        self.instance_id == other.instance_id && self.user_id == other.user_id && self.name
            == other.name && self.display_name == other.display_name && self.about == other.about
            && self.picture == other.picture && self.nip05 == other.nip05 && self.banner
            == other.banner
    }
}

impl From<ScheduledPost> for Profile {
    /// The profile snapshot that a job carries.
    fn from(value: ScheduledPost) -> (r: Profile)
        ensures
            r == profile_of_job(value),
    {
        Profile {
            instance_id: value.instance_id,
            user_id: value.user_id,
            name: value.profile_name,
            display_name: value.profile_display_name,
            about: value.profile_about,
            picture: value.profile_picture,
            nip05: value.profile_nip05,
            banner: value.profile_banner,
        }
    }
}

pub open spec fn profile_of_job(value: ScheduledPost) -> Profile {
    Profile {
        instance_id: value.instance_id,
        user_id: value.user_id,
        name: value.profile_name,
        display_name: value.profile_display_name,
        about: value.profile_about,
        picture: value.profile_picture,
        nip05: value.profile_nip05,
        banner: value.profile_banner,
    }
}

impl vstd::std_specs::convert::FromSpecImpl<ScheduledPost> for Profile {
    open spec fn obeys_from_spec() -> bool {
        true
    }

    open spec fn from_spec(v: ScheduledPost) -> Profile {
        profile_of_job(v)
    }
}

/// A post published on the target platform, keyed by its source post id.
#[derive(Debug, Clone)]
pub struct MastodonPost {
    pub instance_id: u128,
    pub user_id: u128,
    pub mastodon_id: String,
    pub nostr_id: String,
    pub status: MastodonPostStatus,
}

/// Credentials of one source server.
#[derive(Debug, Clone)]
pub struct MastodonServer {
    pub instance_url: String,
    pub client_key: String,
    pub client_secret: String,
    pub redirect_url: String,
    pub token: String,
}

/// Where the relational store lives.
#[derive(Debug, Clone)]
pub struct PostgresConfig {
    pub url: String,
}

/// Settings of a relay process.
#[derive(Debug, Clone)]
pub struct Config {
    pub postgres: PostgresConfig,
    /// Only schedule posts in the store; do not publish them.
    pub skip_posting: bool,
}

/// Who may see a status on its source server.
#[derive(Debug, Clone, Copy, PartialEq, Eq, Structural)]
pub enum Visibility {
    Direct,
    Private,
    Unlisted,
    Public,
}

/// The account that wrote a status.
#[derive(Debug, Clone)]
pub struct Account {
    pub username: String,
    pub display_name: String,
    pub note: String,
    pub avatar: String,
    pub header: String,
}

/// A status update read from a source server's stream.
#[derive(Debug, Clone)]
pub struct Status {
    pub id: String,
    pub url: Option<String>,
    pub visibility: Visibility,
    pub content: String,
    pub account: Account,
}

/// Errors of the relay's own logic.
#[derive(Debug, Clone, Copy, PartialEq, Eq, Structural)]
pub enum RelayError {
    /// A store reported a row id that is not a UUID.
    InvalidId,
    /// A text that should hold a URL does not parse as one.
    InvalidUrl,
    /// The URL cannot be a base, so it has no path to clear.
    CannotBeABase,
    /// A status carries no URL.
    MissingUrl,
    /// An instance URL carries no host.
    MissingHost,
    /// No source server is configured.
    NoSources,
    /// A store operation failed.
    StoreFailed,
    /// A step came with an event that its stage does not wait for.
    OutOfOrder,
}

#[verifier::external_type_specification]
#[verifier::external_body]
pub struct ExUuidError(uuid::Error);

/// The 128-bit value of the UUID written in `s`, if `s` holds one.
pub uninterp spec fn uuid_value(s: Seq<char>) -> Option<u128>;

/// Relies on `uuid::Uuid::parse_str`: it accepts the text forms of a UUID and
/// fails on anything else; the value depends on the text alone.
#[verifier::external_body]
fn parse_uuid(s: &str) -> (r: Result<u128, uuid::Error>)
    ensures
        match r {
            Ok(v) => uuid_value(s@) == Some(v),
            Err(_) => uuid_value(s@) is None,
        },
{
    uuid::Uuid::parse_str(s).map(|u| u.as_u128())
}

/// Whether two texts hold the same characters.
pub(crate) fn same_text(a: &str, b: &str) -> (r: bool)
    ensures
        r == (a@ == b@),
{
    a.to_owned() == b.to_owned()
}

/// What an upsert query hands back: a row id as text, the word `unchanged`,
/// or nothing.
#[derive(Debug, Clone)]
pub struct ResultContainer {
    pub result: Option<String>,
}

impl ResultContainer {
    /// `None` and `"unchanged"` mean that nothing changed; any other text must
    /// be the UUID of the changed row.
    pub fn to_change_result(&self) -> (r: Result<ChangeResult, RelayError>)
        ensures
            match self.result {
                None => r == Ok::<ChangeResult, RelayError>(ChangeResult::Unchanged),
                Some(s) => if s@ == "unchanged"@ {
                    r == Ok::<ChangeResult, RelayError>(ChangeResult::Unchanged)
                } else {
                    match uuid_value(s@) {
                        Some(v) => r == Ok::<ChangeResult, RelayError>(ChangeResult::Changed(v)),
                        None => r == Err::<ChangeResult, RelayError>(RelayError::InvalidId),
                    }
                },
            },
    {
        match &self.result {
            None => Ok(ChangeResult::Unchanged),
            Some(s) => {
                if same_text(s.as_str(), "unchanged") {
                    Ok(ChangeResult::Unchanged)
                } else {
                    match parse_uuid(s.as_str()) {
                        Ok(v) => Ok(ChangeResult::Changed(v)),
                        Err(_) => Err(RelayError::InvalidId),
                    }
                }
            },
        }
    }
}

} // verus!
