//! Users: validation, cache-assisted conflict checks, then the store, then the cache.
use vstd::prelude::*;

use crate::cache::{some_user_named, UserCache};
use crate::domain::{user_name_outcome, User, UserID, UserName};
use crate::error::{ErrRepo, ErrService, ErrUser};
use crate::repo::{lists_users, users_not_named, UserRepo};

verus! {

/// No two entries of `m` share a user name.
pub open spec fn user_names_unique(m: Map<u128, User>) -> bool {
    forall|a: u128, b: u128|
        #[trigger] m.contains_key(a) && #[trigger] m.contains_key(b) && a != b ==> m[a].user_name.name@
            != m[b].user_name.name@
}

/// How adding a user named after `raw` moved cache and store from (`c0`, `s0`)
/// to (`c1`, `s1`) and what it returned: an invalid name or one already cached
/// is refused and changes nothing; otherwise the stored user is cached too.
pub open spec fn user_added(
    c0: Map<u128, User>,
    s0: Map<u128, User>,
    c1: Map<u128, User>,
    s1: Map<u128, User>,
    raw: Seq<char>,
    r: Result<User, ErrService>,
) -> bool {
    match user_name_outcome(raw) {
        Err(e) => r == Err::<User, ErrService>(ErrService::Domain(e)) && c1 == c0 && s1 == s0,
        Ok(n) => if some_user_named(c0, n) {
            r == Err::<User, ErrService>(ErrService::User(ErrUser::AlreadyExist)) && c1 == c0 && s1
                == s0
        } else {
            match r {
                Ok(u) => u.user_name.name@ == n && !s0.contains_key(u.user_id.id) && s1 == s0.insert(
                    u.user_id.id,
                    u,
                ) && c1 == c0.insert(u.user_id.id, u),
                Err(_) => c1 == c0 && s1 == s0,
            }
        },
    }
}

/// How renaming the user called `from` to `to` moved cache and store from
/// (`c0`, `s0`) to (`c1`, `s1`) and what it returned. Invalid names, an unknown
/// user and a name already taken are refused and change nothing; the identity
/// is kept.
pub open spec fn user_renamed(
    c0: Map<u128, User>,
    s0: Map<u128, User>,
    c1: Map<u128, User>,
    s1: Map<u128, User>,
    from: Seq<char>,
    to: Seq<char>,
    r: Result<User, ErrService>,
) -> bool {
    let unchanged = c1 == c0 && s1 == s0;
    match (user_name_outcome(from), user_name_outcome(to)) {
        (Err(e), _) => r == Err::<User, ErrService>(ErrService::Domain(e)) && unchanged,
        (Ok(_), Err(e)) => r == Err::<User, ErrService>(ErrService::Domain(e)) && unchanged,
        (Ok(o), Ok(n)) => if !some_user_named(c0, o) {
            r == Err::<User, ErrService>(ErrService::User(ErrUser::UserNotFound)) && unchanged
        } else if some_user_named(c0, n) {
            r == Err::<User, ErrService>(ErrService::User(ErrUser::AlreadyExist)) && unchanged
        } else {
            match r {
                Ok(u) => c0.contains_key(u.user_id.id) && c0[u.user_id.id].user_name.name@ == o
                    && u.user_name.name@ == n && s0.contains_key(u.user_id.id) && s1 == s0.insert(
                    u.user_id.id,
                    u,
                ) && c1 == c0.insert(u.user_id.id, u),
                Err(_) => unchanged,
            }
        },
    }
}

/// The user service: a store of users and the cache that mirrors it.
pub struct UserService<T> {
    repo: T,
    cache: UserCache,
}

impl<T> UserService<T> {
    /// The store behind the service.
    pub closed spec fn repo(&self) -> T {
        self.repo
    }

    /// The cached users, by identity.
    pub closed spec fn cached(&self) -> Map<u128, User> {
        self.cache@
    }

    /// A service over `repo` with an empty cache; `populate_cache` fills it.
    pub fn new(repo: T) -> (r: Self)
        ensures
            r.repo() == repo,
            r.cached() == Map::<u128, User>::empty(),
    {
        UserService { repo, cache: UserCache::new() }
    }
}

impl<T: UserRepo> UserService<T> {
    /// The stored users, by identity.
    pub open spec fn stored(&self) -> Map<u128, User> {
        self.repo().user_rows()
    }

    /// The cache holds exactly the stored users.
    pub open spec fn mirrored(&self) -> bool {
        self.cached() == self.stored()
    }

    /// Neither the cache nor the store differs between `self` and `other`.
    pub open spec fn same_as(&self, other: &Self) -> bool {
        self.cached() == other.cached() && self.stored() == other.stored()
    }

    /// Creates a user named after `name` with a fresh identity, refusing a
    /// name that is invalid or already cached.
    pub fn add_user(&mut self, name: &str) -> (r: Result<User, ErrService>)
        ensures
            user_added(
                old(self).cached(),
                old(self).stored(),
                final(self).cached(),
                final(self).stored(),
                name@,
                r,
            ),
            old(self).mirrored() ==> final(self).mirrored(),
            user_names_unique(old(self).cached()) ==> user_names_unique(final(self).cached()),
    {
        let candidate = match User::new(name) {
            Ok(u) => u,
            Err(e) => return Err(ErrService::Domain(e)),
        };
        if self.cache.find_by_name(&candidate.user_name).is_some() {
            return Err(ErrService::User(ErrUser::AlreadyExist));
        }
        let answer = self.repo.insert_user(&candidate);
        self.record_write(answer)
    }

    /// Renames the cached user called `old_name` to `new_name`, keeping its identity.
    pub fn update_user(&mut self, old_name: &str, new_name: &str) -> (r: Result<User, ErrService>)
        ensures
            user_renamed(
                old(self).cached(),
                old(self).stored(),
                final(self).cached(),
                final(self).stored(),
                old_name@,
                new_name@,
                r,
            ),
            old(self).mirrored() ==> final(self).mirrored(),
            user_names_unique(old(self).cached()) ==> user_names_unique(final(self).cached()),
    {
        let old_n = match UserName::new(old_name) {
            Ok(x) => x,
            Err(e) => return Err(ErrService::Domain(e)),
        };
        let new_n = match UserName::new(new_name) {
            Ok(x) => x,
            Err(e) => return Err(ErrService::Domain(e)),
        };
        let (k, _current) = match self.cache.find_by_name(&old_n) {
            Some(p) => p,
            None => return Err(ErrService::User(ErrUser::UserNotFound)),
        };
        if self.cache.find_by_name(&new_n).is_some() {
            return Err(ErrService::User(ErrUser::AlreadyExist));
        }
        let answer = self.repo.update_user(k, &new_n);
        self.record_write(answer)
    }

    /// Deletes the users named after `user_name` from the store, then from the cache.
    pub fn delete_user_by_name(&mut self, user_name: &str) -> (r: Result<(), ErrService>)
        ensures
            match user_name_outcome(user_name@) {
                Err(e) => r == Err::<(), ErrService>(ErrService::Domain(e))
                    && final(self).same_as(old(self)),
                Ok(n) => match r {
                    Ok(_) => some_user_named(old(self).stored(), n) && final(self).stored()
                        == users_not_named(old(self).stored(), n) && final(self).cached()
                        == users_not_named(old(self).cached(), n),
                    Err(_) => final(self).same_as(old(self)),
                },
            },
            (user_name_outcome(user_name@) matches Ok(n) && !some_user_named(old(self).stored(), n))
                ==> r is Err,
            old(self).mirrored() ==> final(self).mirrored(),
            user_names_unique(old(self).cached()) ==> user_names_unique(final(self).cached()),
    {
        let name = match UserName::new(user_name) {
            Ok(x) => x,
            Err(e) => return Err(ErrService::Domain(e)),
        };
        let answer = self.repo.delete_user_by_name(&name);
        if answer matches Ok(false) {
            assert(self.stored() =~= old(self).stored());
        }
        self.record_delete(&name, answer)
    }

    /// Records in the cache what the store answered to a write of a user: the
    /// stored user when the write succeeded; nothing when it failed, and its
    /// error is returned as it is.
    pub fn record_write(&mut self, answer: Result<User, ErrService>) -> (r: Result<User, ErrService>)
        ensures
            final(self).repo() == old(self).repo(),
            r == answer,
            match answer {
                Ok(u) => final(self).cached() == old(self).cached().insert(u.user_id.id, u),
                Err(_) => final(self).cached() == old(self).cached(),
            },
    {
        match answer {
            Ok(u) => {
                self.cache.insert(u.clone());
                Ok(u)
            },
            Err(e) => Err(e),
        }
    }

    /// Records in the cache what the store answered to deleting the users
    /// named `name`: `Ok(true)` drops them from the cache; `Ok(false)`, nothing
    /// deleted, gives `UnableToDelete`; a store error is returned as it is.
    pub fn record_delete(&mut self, name: &UserName, answer: Result<bool, ErrService>) -> (r: Result<
        (),
        ErrService,
    >)
        ensures
            final(self).repo() == old(self).repo(),
            match answer {
                Ok(true) => r is Ok && final(self).cached() == users_not_named(old(self).cached(), name.name@),
                Ok(false) => r == Err::<(), ErrService>(ErrService::Repo(ErrRepo::UnableToDelete))
                    && final(self).cached() == old(self).cached(),
                Err(e) => r == Err::<(), ErrService>(e) && final(self).cached() == old(self).cached(),
            },
    {
        match answer {
            Ok(found) => {
                if found {
                    self.forget_named(name);
                    Ok(())
                } else {
                    Err(ErrService::Repo(ErrRepo::UnableToDelete))
                }
            },
            Err(e) => Err(e),
        }
    }

    /// Drops from the cache every user named `name`.
    fn forget_named(&mut self, name: &UserName)
        ensures
            final(self).repo == old(self).repo,
            final(self).cache@ == users_not_named(old(self).cache@, name.name@),
    {
        let pairs = self.cache.snapshot();
        let ghost start = self.cache@;
        let mut i: usize = 0;
        while i < pairs.len()
            invariant
                self.repo == old(self).repo,
                start == old(self).cache@,
                crate::cache::lists_entries(pairs@, start),
                i <= pairs@.len(),
                forall|k: u128|
                    #[trigger] self.cache@.contains_key(k) ==> start.contains_key(k) && self.cache@[k]
                        == start[k],
                forall|k: u128|
                    #[trigger] start.contains_key(k) ==> (self.cache@.contains_key(k) <==> !(
                    start[k].user_name.name@ == name.name@ && exists|j: int|
                        0 <= j < i && pairs@[j].0 == k)),
            decreases pairs@.len() - i,
        {
            if pairs[i].1.user_name.name == name.name {
                self.cache.remove(pairs[i].0);
            }
            i = i + 1;
            proof {
                assert forall|k: u128| #[trigger] start.contains_key(k) implies (self.cache@.contains_key(
                    k,
                ) <==> !(start[k].user_name.name@ == name.name@ && exists|j: int|
                    0 <= j < i && pairs@[j].0 == k)) by {
                    if k == pairs@[i - 1].0 {
                        assert(exists|j: int| 0 <= j < i && pairs@[j].0 == k);
                    }
                }
            }
        }
        proof {
            assert(self.cache@ =~= users_not_named(start, name.name@));
        }
    }

    /// Every stored user, as the store lists them.
    pub fn list_users(&self) -> (r: Result<Vec<User>, ErrService>)
        ensures
            r matches Ok(v) ==> lists_users(v@, self.stored()),
    {
        self.repo.get_all_users()
    }

    /// Whether a cached user is named `user_name`; never consults the store.
    pub fn is_exist_user(&self, user_name: &UserName) -> (r: Result<bool, ErrService>)
        ensures
            r == Ok::<bool, ErrService>(some_user_named(self.cached(), user_name.name@)),
    {
        Ok(self.cache.find_by_name(user_name).is_some())
    }

    /// Reports `AlreadyExist` when an entry equal to `user` is cached, and
    /// `UserNotFound` otherwise.
    pub fn get_user_by_user_struct_on_cache(&self, user: &User) -> (r: Result<User, ErrService>)
        ensures
            if self.cached().contains_key(user.user_id.id) && self.cached()[user.user_id.id].user_name.name@
                == user.user_name.name@ {
                r == Err::<User, ErrService>(ErrService::User(ErrUser::AlreadyExist))
            } else {
                r == Err::<User, ErrService>(ErrService::User(ErrUser::UserNotFound))
            },
    {
        match self.cache.get(user.user_id.id) {
            Some(u) => {
                if u.user_name.name == user.user_name.name {
                    Err(ErrService::User(ErrUser::AlreadyExist))
                } else {
                    Err(ErrService::User(ErrUser::UserNotFound))
                }
            },
            None => Err(ErrService::User(ErrUser::UserNotFound)),
        }
    }

    /// The cached user with identity `user_id`, if any.
    pub fn get_user_by_id_on_cache(&self, user_id: UserID) -> (r: Result<Option<User>, ErrService>)
        ensures
            r == Ok::<Option<User>, ErrService>(
                if self.cached().contains_key(user_id.id) {
                    Some(self.cached()[user_id.id])
                } else {
                    None
                },
            ),
    {
        Ok(self.cache.get(user_id.id))
    }

    /// Loads every stored user into the cache.
    pub fn populate_cache(&mut self) -> (r: Result<(), ErrService>)
        ensures
            final(self).stored() == old(self).stored(),
            match r {
                Ok(_) => final(self).cached() == old(self).cached().union_prefer_right(
                    old(self).stored(),
                ),
                Err(_) => final(self).cached() == old(self).cached(),
            },
    {
        let listed = self.repo.get_all_users();
        self.load_listed(listed)
    }

    /// Loads the store's listing `listed` into the cache: every listed user
    /// when the listing succeeded; nothing when it failed, and its error is
    /// returned as it is.
    pub fn load_listed(&mut self, listed: Result<Vec<User>, ErrService>) -> (r: Result<(), ErrService>)
        requires
            listed matches Ok(v) ==> lists_users(v@, old(self).stored()),
        ensures
            final(self).repo() == old(self).repo(),
            match listed {
                Ok(_) => r is Ok && final(self).cached() == old(self).cached().union_prefer_right(
                    old(self).stored(),
                ),
                Err(e) => r == Err::<(), ErrService>(e) && final(self).cached() == old(self).cached(),
            },
    {
        let users = match listed {
            Ok(v) => v,
            Err(e) => return Err(e),
        };
        let ghost rows = self.stored();
        let ghost start = self.cache@;
        let mut i: usize = 0;
        while i < users.len()
            invariant
                self.stored() == rows,
                self.repo == old(self).repo,
                start == old(self).cache@,
                lists_users(users@, rows),
                i <= users@.len(),
                forall|k: u128|
                    #[trigger] self.cache@.contains_key(k) == (start.contains_key(k) || exists|j: int|
                        0 <= j < i && users@[j].user_id.id == k),
                forall|k: u128|
                    #[trigger] self.cache@.contains_key(k) ==> self.cache@[k] == if exists|j: int|
                        0 <= j < i && users@[j].user_id.id == k {
                        rows[k]
                    } else {
                        start[k]
                    },
            decreases users@.len() - i,
        {
            let x = users[i].clone();
            proof {
                assert(rows.contains_key(users@[i as int].user_id.id));
            }
            self.cache.insert(x);
            i = i + 1;
            proof {
                assert forall|k: u128| #[trigger] self.cache@.contains_key(k) implies self.cache@[k]
                    == if exists|j: int| 0 <= j < i && users@[j].user_id.id == k {
                    rows[k]
                } else {
                    start[k]
                } by {
                    if k == users@[i - 1].user_id.id {
                        assert(exists|j: int| 0 <= j < i && users@[j].user_id.id == k);
                    }
                }
            }
        }
        proof {
            assert forall|k: u128| #[trigger] rows.contains_key(k) implies exists|j: int|
                0 <= j < i && users@[j].user_id.id == k by {}
            assert(self.cache@ =~= start.union_prefer_right(rows));
        }
        Ok(())
    }
}

} // verus!
