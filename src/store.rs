use vstd::prelude::*;

use crate::queue::JobQueue;
use crate::types::{
    ChangeResult, KeysContainer, MastodonInstance, MastodonPost, MastodonPostStatus, Profile, User,
    same_profile, same_text,
};

verus! {

/// An identity row: the source account's handle and its generated keypair.
pub struct UserRow {
    pub id: u128,
    pub instance_id: u128,
    pub mastodon_user: String,
    pub keys: KeysContainer,
}

pub struct ProfileRow {
    pub id: u128,
    pub profile: Profile,
}

pub struct PostRow {
    pub id: u128,
    pub post: MastodonPost,
}

/// Every row's id is its position, and no key stands twice.
pub open spec fn keyed<T>(rows: Seq<T>, id: spec_fn(T) -> u128, key: spec_fn(T) -> Seq<char>) -> bool {
    &&& rows.len() <= usize::MAX
    &&& forall|i: int| 0 <= i < rows.len() ==> id(#[trigger] rows[i]) == i as u128
    &&& forall|i: int, j: int|
        0 <= i < rows.len() && 0 <= j < rows.len() && i != j ==> key(#[trigger] rows[i]) != key(
            #[trigger] rows[j],
        )
}

/// Row `i` holds `k`.
pub open spec fn key_at<T>(rows: Seq<T>, key: spec_fn(T) -> Seq<char>, k: Seq<char>, i: int) -> bool {
    0 <= i < rows.len() && key(rows[i]) == k
}

pub open spec fn holds_key<T>(rows: Seq<T>, key: spec_fn(T) -> Seq<char>, k: Seq<char>) -> bool {
    exists|i: int| #[trigger] key_at(rows, key, k, i)
}

pub open spec fn instance_ids() -> spec_fn(MastodonInstance) -> u128 {
    |r: MastodonInstance| r.id
}

/// Instances are keyed by their origin URL.
pub open spec fn instance_keys() -> spec_fn(MastodonInstance) -> Seq<char> {
    |r: MastodonInstance| r.url@
}

pub open spec fn user_ids() -> spec_fn(UserRow) -> u128 {
    |r: UserRow| r.id
}

/// Identities are keyed by their source handle.
pub open spec fn user_keys() -> spec_fn(UserRow) -> Seq<char> {
    |r: UserRow| r.mastodon_user@
}

pub open spec fn post_ids() -> spec_fn(PostRow) -> u128 {
    |r: PostRow| r.id
}

/// Published posts are keyed by their source post id.
pub open spec fn post_keys() -> spec_fn(PostRow) -> Seq<char> {
    |r: PostRow| r.post.mastodon_id@
}

pub open spec fn same_identities(a: Store, b: Store) -> bool {
    &&& a.instances@ == b.instances@
    &&& a.users@ == b.users@
    &&& a.user_blacklist@ == b.user_blacklist@
}

pub open spec fn same_content(a: Store, b: Store) -> bool {
    &&& a.profiles@ == b.profiles@
    &&& a.posts@ == b.posts@
    &&& a.jobs.rows@ == b.jobs.rows@
}

/// Profiles are keyed by their identity.
pub open spec fn profiles_wf(rows: Seq<ProfileRow>) -> bool {
    &&& rows.len() <= usize::MAX
    &&& forall|i: int| 0 <= i < rows.len() ==> (#[trigger] rows[i]).id == i as u128
    &&& forall|i: int, j: int|
        0 <= i < rows.len() && 0 <= j < rows.len() && i != j ==> (#[trigger] rows[i]).profile.user_id
            != (#[trigger] rows[j]).profile.user_id
}

pub open spec fn profile_at(rows: Seq<ProfileRow>, user: u128, i: int) -> bool {
    0 <= i < rows.len() && rows[i].profile.user_id == user
}

/// The relay's tables, with the rules of the relational schema.
pub struct Store {
    pub instances: Vec<MastodonInstance>,
    pub users: Vec<UserRow>,
    pub profiles: Vec<ProfileRow>,
    pub posts: Vec<PostRow>,
    /// Ids of the identities whose posts are never relayed.
    pub user_blacklist: Vec<u128>,
    pub jobs: JobQueue,
}

impl Store {
    pub open spec fn wf(&self) -> bool {
        &&& keyed(self.instances@, instance_ids(), instance_keys())
        &&& keyed(self.users@, user_ids(), user_keys())
        &&& profiles_wf(self.profiles@)
        &&& keyed(self.posts@, post_ids(), post_keys())
        &&& self.jobs.wf()
    }

    pub fn new() -> (r: Store)
        ensures
            r.wf(),
            r.instances@.len() == 0,
            r.users@.len() == 0,
            r.profiles@.len() == 0,
            r.posts@.len() == 0,
            r.user_blacklist@.len() == 0,
            r.jobs.rows@.len() == 0,
    {
        Store {
            instances: Vec::new(),
            users: Vec::new(),
            profiles: Vec::new(),
            posts: Vec::new(),
            user_blacklist: Vec::new(),
            jobs: JobQueue::new(),
        }
    }

    fn find_instance(&self, url: &str) -> (r: Option<usize>)
        ensures
            match r {
                Some(i) => key_at(self.instances@, instance_keys(), url@, i as int),
                None => !holds_key(self.instances@, instance_keys(), url@),
            },
    {
        let mut i: usize = 0;
        while i < self.instances.len()
            invariant
                i <= self.instances@.len(),
                forall|k: int| 0 <= k < i ==> !#[trigger] key_at(self.instances@, instance_keys(), url@, k),
            decreases self.instances@.len() - i,
        {
            if same_text(self.instances[i].url.as_str(), url) {
                return Some(i);
            }
            i += 1;
        }
        None
    }

    fn find_user(&self, name: &str) -> (r: Option<usize>)
        ensures
            match r {
                Some(i) => key_at(self.users@, user_keys(), name@, i as int),
                None => !holds_key(self.users@, user_keys(), name@),
            },
    {
        let mut i: usize = 0;
        while i < self.users.len()
            invariant
                i <= self.users@.len(),
                forall|k: int| 0 <= k < i ==> !#[trigger] key_at(self.users@, user_keys(), name@, k),
            decreases self.users@.len() - i,
        {
            if same_text(self.users[i].mastodon_user.as_str(), name) {
                return Some(i);
            }
            i += 1;
        }
        None
    }

    fn find_post(&self, key: &str) -> (r: Option<usize>)
        ensures
            match r {
                Some(i) => key_at(self.posts@, post_keys(), key@, i as int),
                None => !holds_key(self.posts@, post_keys(), key@),
            },
    {
        let mut i: usize = 0;
        while i < self.posts.len()
            invariant
                i <= self.posts@.len(),
                forall|k: int| 0 <= k < i ==> !#[trigger] key_at(self.posts@, post_keys(), key@, k),
            decreases self.posts@.len() - i,
        {
            if same_text(self.posts[i].post.mastodon_id.as_str(), key) {
                return Some(i);
            }
            i += 1;
        }
        None
    }

    fn find_profile(&self, user: u128) -> (r: Option<usize>)
        ensures
            match r {
                Some(i) => profile_at(self.profiles@, user, i as int),
                None => forall|i: int| !#[trigger] profile_at(self.profiles@, user, i),
            },
    {
        let mut i: usize = 0;
        while i < self.profiles.len()
            invariant
                i <= self.profiles@.len(),
                forall|k: int| 0 <= k < i ==> !#[trigger] profile_at(self.profiles@, user, k),
            decreases self.profiles@.len() - i,
        {
            if self.profiles[i].profile.user_id == user {
                return Some(i);
            }
            i += 1;
        }
        None
    }

    /// The instance of origin `url`, created (not blacklisted) on first sight.
    pub fn fetch_or_create_instance(&mut self, url: &str) -> (r: MastodonInstance)
        requires
            old(self).wf(),
            old(self).instances@.len() < usize::MAX,
        ensures
            final(self).wf(),
            final(self).users@ == old(self).users@,
            final(self).user_blacklist@ == old(self).user_blacklist@,
            same_content(*final(self), *old(self)),
            holds_key(old(self).instances@, instance_keys(), url@) ==> {
                &&& final(self).instances@ == old(self).instances@
                &&& key_at(old(self).instances@, instance_keys(), url@, r.id as int)
                &&& r == old(self).instances@[r.id as int]
            },
            !holds_key(old(self).instances@, instance_keys(), url@) ==> {
                &&& final(self).instances@ == old(self).instances@.push(r)
                &&& r.id == old(self).instances@.len()
                &&& r.url@ == url@
                &&& !r.blacklisted
            },
    {
        match self.find_instance(url) {
            Some(i) => {
                let r = self.instances[i].duplicate();
                assert(r.id == i);
                r
            },
            None => {
                let id = self.instances.len() as u128;
                let row = MastodonInstance { id, url: url.to_owned(), blacklisted: false };
                self.instances.push(row.duplicate());
                assert forall|i: int, j: int|
                    0 <= i < self.instances@.len() && 0 <= j < self.instances@.len() && i != j implies (
                    instance_keys())(#[trigger] self.instances@[i]) != (instance_keys())(
                    #[trigger] self.instances@[j],
                ) by {
                    if i == self.instances@.len() - 1 {
                        assert(!key_at(old(self).instances@, instance_keys(), url@, j));
                    } else if j == self.instances@.len() - 1 {
                        assert(!key_at(old(self).instances@, instance_keys(), url@, i));
                    }
                }
                row
            },
        }
    }

    /// Marks the instance `id` as blacklisted; an operator's decision that
    /// nothing clears.
    pub fn blacklist_instance(&mut self, id: u128)
        requires
            old(self).wf(),
        ensures
            final(self).wf(),
            final(self).users@ == old(self).users@,
            final(self).user_blacklist@ == old(self).user_blacklist@,
            same_content(*final(self), *old(self)),
            id < old(self).instances@.len() ==> final(self).instances@ == old(self).instances@.update(
                id as int,
                MastodonInstance { blacklisted: true, ..old(self).instances@[id as int] },
            ),
            id >= old(self).instances@.len() ==> final(self).instances@ == old(self).instances@,
    {
        if id < self.instances.len() as u128 {
            let i = id as usize;
            let mut row = self.instances.remove(i);
            row.blacklisted = true;
            self.instances.insert(i, row);
            let ghost want = old(self).instances@.update(
                id as int,
                MastodonInstance { blacklisted: true, ..old(self).instances@[id as int] },
            );
            assert(self.instances@ =~= want);
            assert forall|a: int, b: int|
                0 <= a < want.len() && 0 <= b < want.len() && a != b implies (instance_keys())(
                #[trigger] want[a],
            ) != (instance_keys())(#[trigger] want[b]) by {
                assert((instance_keys())(want[a]) == (instance_keys())(old(self).instances@[a]));
                assert((instance_keys())(want[b]) == (instance_keys())(old(self).instances@[b]));
            }
        }
    }

    /// The identity of handle `name`, created with `new_keys` on first sight.
    /// A known identity keeps its keypair and moves to `instance`.
    pub fn fetch_or_create_user(&mut self, instance: u128, name: &str, new_keys: KeysContainer) -> (r:
        User)
        requires
            old(self).wf(),
            old(self).users@.len() < usize::MAX,
        ensures
            final(self).wf(),
            final(self).instances@ == old(self).instances@,
            final(self).user_blacklist@ == old(self).user_blacklist@,
            same_content(*final(self), *old(self)),
            holds_key(old(self).users@, user_keys(), name@) ==> {
                &&& key_at(old(self).users@, user_keys(), name@, r.id as int)
                &&& final(self).users@ == old(self).users@.update(
                    r.id as int,
                    UserRow { instance_id: instance, ..old(self).users@[r.id as int] },
                )
                &&& r.nostr_creds == old(self).users@[r.id as int].keys
            },
            !holds_key(old(self).users@, user_keys(), name@) ==> {
                &&& r.id == old(self).users@.len()
                &&& final(self).users@.len() == old(self).users@.len() + 1
                &&& final(self).users@.drop_last() == old(self).users@
                &&& final(self).users@.last().id == r.id
                &&& final(self).users@.last().instance_id == instance
                &&& final(self).users@.last().mastodon_user@ == name@
                &&& final(self).users@.last().keys == new_keys
                &&& r.nostr_creds == new_keys
            },
    {
        match self.find_user(name) {
            Some(i) => {
                let mut row = self.users.remove(i);
                row.instance_id = instance;
                let keys = row.keys.duplicate();
                self.users.insert(i, row);
                let ghost want = old(self).users@.update(
                    i as int,
                    UserRow { instance_id: instance, ..old(self).users@[i as int] },
                );
                assert(self.users@ =~= want);
                assert forall|a: int, b: int|
                    0 <= a < want.len() && 0 <= b < want.len() && a != b implies (user_keys())(
                    #[trigger] want[a],
                ) != (user_keys())(#[trigger] want[b]) by {
                    assert((user_keys())(want[a]) == (user_keys())(old(self).users@[a]));
                    assert((user_keys())(want[b]) == (user_keys())(old(self).users@[b]));
                }
                assert(old(self).users@[i as int].id == i);
                User { id: i as u128, nostr_creds: keys }
            },
            None => {
                let id = self.users.len() as u128;
                let keys = new_keys.duplicate();
                self.users.push(
                    UserRow { id, instance_id: instance, mastodon_user: name.to_owned(), keys: new_keys },
                );
                assert(self.users@.drop_last() =~= old(self).users@);
                assert forall|i: int, j: int|
                    0 <= i < self.users@.len() && 0 <= j < self.users@.len() && i != j implies (
                    user_keys())(#[trigger] self.users@[i]) != (user_keys())(#[trigger] self.users@[j]) by {
                    if i == self.users@.len() - 1 {
                        assert(!key_at(old(self).users@, user_keys(), name@, j));
                    } else if j == self.users@.len() - 1 {
                        assert(!key_at(old(self).users@, user_keys(), name@, i));
                    }
                }
                User { id, nostr_creds: keys }
            },
        }
    }

    /// Whether the identity `user` is blacklisted.
    pub fn is_user_blacklisted(&self, user: u128) -> (r: bool)
        ensures
            r == self.user_blacklist@.contains(user),
    {
        let mut i: usize = 0;
        while i < self.user_blacklist.len()
            invariant
                i <= self.user_blacklist@.len(),
                forall|k: int| 0 <= k < i ==> #[trigger] self.user_blacklist@[k] != user,
            decreases self.user_blacklist@.len() - i,
        {
            if self.user_blacklist[i] == user {
                return true;
            }
            i += 1;
        }
        false
    }

    /// Adds the identity `user` to the blacklist.
    pub fn blacklist_user(&mut self, user: u128)
        requires
            old(self).wf(),
        ensures
            final(self).wf(),
            final(self).instances@ == old(self).instances@,
            final(self).users@ == old(self).users@,
            same_content(*final(self), *old(self)),
            final(self).user_blacklist@.to_set() == old(self).user_blacklist@.to_set().insert(user),
    {
        if !self.is_user_blacklisted(user) {
            self.user_blacklist.push(user);
            assert(self.user_blacklist@.to_set() =~= old(self).user_blacklist@.to_set().insert(user)) by {
                assert forall|x: u128| #[trigger] self.user_blacklist@.contains(x) <==> old(self).user_blacklist@.contains(x) || x == user by {
                    if old(self).user_blacklist@.contains(x) {
                        let k = choose|k: int| 0 <= k < old(self).user_blacklist@.len() && old(self).user_blacklist@[k] == x;
                        assert(self.user_blacklist@[k] == x);
                    }
                    if x == user {
                        assert(self.user_blacklist@[self.user_blacklist@.len() - 1] == x);
                    }
                }
            }
        } else {
            assert(old(self).user_blacklist@.to_set() =~= old(self).user_blacklist@.to_set().insert(user));
        }
    }

    /// The keypair of the identity `user`, if it exists.
    pub fn fetch_credentials(&self, user: u128) -> (r: Option<KeysContainer>)
        requires
            self.wf(),
        ensures
            user < self.users@.len() ==> r == Some(self.users@[user as int].keys),
            user >= self.users@.len() ==> r is None,
    {
        if user < self.users.len() as u128 {
            Some(self.users[user as usize].keys.duplicate())
        } else {
            None
        }
    }

    /// Stores `profile` as the mirror of its identity. Reports `Changed` with
    /// the row id when the row is new or its content changed, `Unchanged` when
    /// the stored profile already held the same values.
    pub fn update_profile(&mut self, profile: Profile) -> (r: ChangeResult)
        requires
            old(self).wf(),
            old(self).profiles@.len() < usize::MAX,
        ensures
            final(self).wf(),
            same_identities(*final(self), *old(self)),
            final(self).posts@ == old(self).posts@,
            final(self).jobs.rows@ == old(self).jobs.rows@,
            (forall|i: int| !#[trigger] profile_at(old(self).profiles@, profile.user_id, i)) ==> {
                &&& final(self).profiles@ == old(self).profiles@.push(
                    ProfileRow { id: old(self).profiles@.len() as u128, profile },
                )
                &&& r == ChangeResult::Changed(old(self).profiles@.len() as u128)
            },
            forall|i: int| #[trigger] profile_at(old(self).profiles@, profile.user_id, i) ==> {
                if same_profile(old(self).profiles@[i].profile, profile) {
                    &&& final(self).profiles@ == old(self).profiles@
                    &&& r == ChangeResult::Unchanged
                } else {
                    &&& final(self).profiles@ == old(self).profiles@.update(
                        i,
                        ProfileRow { id: i as u128, profile },
                    )
                    &&& r == ChangeResult::Changed(i as u128)
                }
            },
    {
        match self.find_profile(profile.user_id) {
            Some(i) => {
                proof {
                    assert forall|j: int| #[trigger] profile_at(old(self).profiles@, profile.user_id, j) implies j == i by {
                        if j != i {
                            assert(old(self).profiles@[j].profile.user_id != old(self).profiles@[i as int].profile.user_id);
                        }
                    }
                }
                if self.profiles[i].profile.same_as(&profile) {
                    ChangeResult::Unchanged
                } else {
                    let id = i as u128;
                    let _ = self.profiles.remove(i);
                    self.profiles.insert(i, ProfileRow { id, profile });
                    let ghost want = old(self).profiles@.update(i as int, ProfileRow { id, profile });
                    assert(self.profiles@ =~= want);
                    assert forall|a: int, b: int|
                        0 <= a < want.len() && 0 <= b < want.len() && a != b implies (#[trigger] want[a]).profile.user_id
                        != (#[trigger] want[b]).profile.user_id by {
                        if a != i && b != i {
                            assert(old(self).profiles@[a].profile.user_id != old(self).profiles@[b].profile.user_id);
                        } else if a == i {
                            assert(old(self).profiles@[i as int].profile.user_id != old(self).profiles@[b].profile.user_id);
                        } else {
                            assert(old(self).profiles@[i as int].profile.user_id != old(self).profiles@[a].profile.user_id);
                        }
                    }
                    ChangeResult::Changed(id)
                }
            },
            None => {
                let id = self.profiles.len() as u128;
                self.profiles.push(ProfileRow { id, profile });
                assert forall|a: int, b: int|
                    0 <= a < self.profiles@.len() && 0 <= b < self.profiles@.len() && a != b implies (#[trigger] self.profiles@[a]).profile.user_id
                    != (#[trigger] self.profiles@[b]).profile.user_id by {
                    if a == self.profiles@.len() - 1 {
                        assert(!profile_at(old(self).profiles@, profile.user_id, b));
                    } else if b == self.profiles@.len() - 1 {
                        assert(!profile_at(old(self).profiles@, profile.user_id, a));
                    }
                }
                ChangeResult::Changed(id)
            },
        }
    }

    /// Records a published post, once per source post id: the first record
    /// wins and a repeated one reports `Unchanged`.
    pub fn add_post(&mut self, post: MastodonPost) -> (r: ChangeResult)
        requires
            old(self).wf(),
            old(self).posts@.len() < usize::MAX,
        ensures
            final(self).wf(),
            same_identities(*final(self), *old(self)),
            final(self).profiles@ == old(self).profiles@,
            final(self).jobs.rows@ == old(self).jobs.rows@,
            holds_key(old(self).posts@, post_keys(), post.mastodon_id@) ==> {
                &&& final(self).posts@ == old(self).posts@
                &&& r == ChangeResult::Unchanged
            },
            !holds_key(old(self).posts@, post_keys(), post.mastodon_id@) ==> {
                &&& final(self).posts@ == old(self).posts@.push(
                    PostRow { id: old(self).posts@.len() as u128, post },
                )
                &&& r == ChangeResult::Changed(old(self).posts@.len() as u128)
            },
    {
        match self.find_post(post.mastodon_id.as_str()) {
            Some(_) => ChangeResult::Unchanged,
            None => {
                let id = self.posts.len() as u128;
                let ghost key = post.mastodon_id@;
                self.posts.push(PostRow { id, post });
                assert forall|i: int, j: int|
                    0 <= i < self.posts@.len() && 0 <= j < self.posts@.len() && i != j implies (
                    post_keys())(#[trigger] self.posts@[i]) != (post_keys())(#[trigger] self.posts@[j]) by {
                    if i == self.posts@.len() - 1 {
                        assert(!key_at(old(self).posts@, post_keys(), key, j));
                    } else if j == self.posts@.len() - 1 {
                        assert(!key_at(old(self).posts@, post_keys(), key, i));
                    }
                }
                ChangeResult::Changed(id)
            },
        }
    }

    /// Marks the published post of source id `key` as deleted, when it is
    /// still `Posted`, and hands back its identity and target id, which the
    /// caller deletes remotely. Nothing happens, and `None` comes back, when
    /// no such post was published or it was deleted already.
    pub fn delete_post(&mut self, key: &str) -> (r: Option<(u128, String)>)
        requires
            old(self).wf(),
        ensures
            final(self).wf(),
            same_identities(*final(self), *old(self)),
            final(self).profiles@ == old(self).profiles@,
            final(self).jobs.rows@ == old(self).jobs.rows@,
            match r {
                Some((user, target)) => exists|i: int| {
                    &&& #[trigger] key_at(old(self).posts@, post_keys(), key@, i)
                    &&& old(self).posts@[i].post.status == MastodonPostStatus::Posted
                    &&& user == old(self).posts@[i].post.user_id
                    &&& target == old(self).posts@[i].post.nostr_id
                    &&& final(self).posts@ == old(self).posts@.update(i, deleted_row(old(self).posts@[i]))
                },
                None => {
                    &&& final(self).posts@ == old(self).posts@
                    &&& forall|i: int| #[trigger] key_at(old(self).posts@, post_keys(), key@, i)
                        ==> old(self).posts@[i].post.status != MastodonPostStatus::Posted
                },
            },
    {
        match self.find_post(key) {
            Some(i) => {
                proof {
                    assert forall|j: int| #[trigger] key_at(old(self).posts@, post_keys(), key@, j) implies j == i by {
                        if j != i {
                            assert((post_keys())(old(self).posts@[j]) != (post_keys())(old(self).posts@[i as int]));
                        }
                    }
                }
                if self.posts[i].post.status == MastodonPostStatus::Posted {
                    let mut row = self.posts.remove(i);
                    row.post.status = MastodonPostStatus::Deleted;
                    let out = (row.post.user_id, row.post.nostr_id.clone());
                    self.posts.insert(i, row);
                    let ghost want = old(self).posts@.update(i as int, deleted_row(old(self).posts@[i as int]));
                    assert(self.posts@ =~= want);
                    assert forall|a: int, b: int|
                        0 <= a < want.len() && 0 <= b < want.len() && a != b implies (post_keys())(
                        #[trigger] want[a],
                    ) != (post_keys())(#[trigger] want[b]) by {
                        assert((post_keys())(want[a]) == (post_keys())(old(self).posts@[a]));
                        assert((post_keys())(want[b]) == (post_keys())(old(self).posts@[b]));
                    }
                    assert(key_at(old(self).posts@, post_keys(), key@, i as int));
                    Some(out)
                } else {
                    None
                }
            },
            None => None,
        }
    }
}

/// The row with its post marked `Deleted`.
pub open spec fn deleted_row(row: PostRow) -> PostRow {
    PostRow { post: MastodonPost { status: MastodonPostStatus::Deleted, ..row.post }, ..row }
}

/// A published post is deleted remotely at most once: once its record was
/// flipped to `Deleted`, no record of that source post id is `Posted`, so a
/// later delete event finds nothing to delete.
pub proof fn lemma_delete_once(posts: Seq<PostRow>, key: Seq<char>, i: int)
    requires
        keyed(posts, post_ids(), post_keys()),
        key_at(posts, post_keys(), key, i),
    ensures
        forall|j: int| #[trigger]
            key_at(posts.update(i, deleted_row(posts[i])), post_keys(), key, j) ==> posts.update(
                i,
                deleted_row(posts[i]),
            )[j].post.status != MastodonPostStatus::Posted,
{
    let after = posts.update(i, deleted_row(posts[i]));
    assert forall|j: int| #[trigger] key_at(after, post_keys(), key, j) implies after[j].post.status
        != MastodonPostStatus::Posted by {
        if j != i {
            assert((post_keys())(posts[j]) == (post_keys())(after[j]));
            assert((post_keys())(posts[j]) != (post_keys())(posts[i]));
        }
    }
}

} // verus!