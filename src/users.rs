//! The user store: lookup by credentials and the admin mutations.
use vstd::prelude::*;
use crate::state::{Permission, PermissionView, User, UserView, users_view};
use crate::text::str_eq;

verus! {

broadcast use vstd::seq_lib::group_seq_properties;

/// Why an admin mutation was refused.
#[derive(Debug, PartialEq, Eq, Structural, Clone, Copy)]
pub enum AdminError {
    /// A user of that name exists already.
    Conflict,
    /// A user may not delete itself.
    SelfDelete,
    /// No user of that name exists.
    NotFound,
}

impl AdminError {
    /// The HTTP status that reports the refusal.
    pub fn status_code(&self) -> (r: u16)
        ensures
            r == match *self {
                AdminError::Conflict => 409u16,
                AdminError::SelfDelete => 400u16,
                AdminError::NotFound => 404u16,
            },
    {
        match self {
            AdminError::Conflict => 409,
            AdminError::SelfDelete => 400,
            AdminError::NotFound => 404,
        }
    }
}

/// The process-wide set of users.
#[derive(Debug)]
pub struct UserStore {
    pub users: Vec<User>,
}

/// Some user is named `name`.
pub open spec fn has_user(users: Seq<UserView>, name: Seq<char>) -> bool {
    exists|i: int| 0 <= i < users.len() && (#[trigger] users[i]).username == name
}

/// User `u` holds exactly these credentials.
pub open spec fn credentials_match(u: UserView, username: Seq<char>, password: Seq<char>) -> bool {
    u.username == username && u.password == password
}

/// The users other than those named `name`, in their order.
pub open spec fn without_user(users: Seq<UserView>, name: Seq<char>) -> Seq<UserView> {
    users.filter(|u: UserView| u.username != name)
}

/// Every user named `name` with `p` appended to its permissions.
pub open spec fn with_permission(users: Seq<UserView>, name: Seq<char>, p: PermissionView) -> Seq<
    UserView,
> {
    users.map_values(
        |u: UserView|
            if u.username == name {
                UserView { permissions: u.permissions.push(p), ..u }
            } else {
                u
            },
    )
}

impl View for UserStore {
    type V = Seq<UserView>;

    open spec fn view(&self) -> Seq<UserView> {
        users_view(self.users@)
    }
}

impl UserStore {
    /// A store holding `users`.
    pub fn new(users: Vec<User>) -> (r: UserStore)
        ensures
            r@ == users_view(users@),
    {
        UserStore { users }
    }

    /// An empty store.
    pub fn empty() -> (r: UserStore)
        ensures
            r@ == Seq::<UserView>::empty(),
    {
        let r = UserStore { users: Vec::new() };
        assert(r@ =~= Seq::<UserView>::empty());
        r
    }

    /// Whether some user is named `name`.
    pub fn contains_user(&self, name: &str) -> (r: bool)
        ensures
            r == has_user(self@, name@),
    {
        let mut i: usize = 0;
        while i < self.users.len()
            invariant
                i <= self.users@.len(),
                forall|j: int| 0 <= j < i ==> (#[trigger] self@[j]).username != name@,
            decreases self.users@.len() - i,
        {
            if str_eq(self.users[i].username.as_str(), name) {
                assert(self@[i as int].username == name@);
                return true;
            }
            i += 1;
        }
        false
    }

    /// The first user holding exactly these credentials.
    pub fn authenticate(&self, username: &str, password: &str) -> (r: Option<User>)
        ensures
            match r {
                Some(u) => exists|i: int|
                    0 <= i < self@.len() && credentials_match(#[trigger] self@[i], username@, password@)
                        && u@ == self@[i] && forall|j: int|
                        0 <= j < i ==> !credentials_match(#[trigger] self@[j], username@, password@),
                None => forall|i: int|
                    0 <= i < self@.len() ==> !credentials_match(#[trigger] self@[i], username@, password@),
            },
    {
        let mut i: usize = 0;
        while i < self.users.len()
            invariant
                i <= self.users@.len(),
                forall|j: int|
                    0 <= j < i ==> !credentials_match(#[trigger] self@[j], username@, password@),
            decreases self.users@.len() - i,
        {
            let u = &self.users[i];
            if str_eq(u.username.as_str(), username) && str_eq(u.password.as_str(), password) {
                let found = u.duplicate();
                assert(credentials_match(self@[i as int], username@, password@));
                return Some(found);
            }
            i += 1;
        }
        None
    }

    /// Adds `user`, refusing a name that is taken.
    pub fn create_user(&mut self, user: User) -> (r: Result<(), AdminError>)
        ensures
            r is Err <==> has_user(old(self)@, user@.username),
            r is Err ==> r == Err::<(), AdminError>(AdminError::Conflict) && final(self)@ == old(
                self,
            )@,
            r is Ok ==> final(self)@ == old(self)@.push(user@),
    {
        if self.contains_user(user.username.as_str()) {
            return Err(AdminError::Conflict);
        }
        self.users.push(user);
        proof {
            assert(users_view(self.users@) =~= users_view(old(self).users@).push(user@));
        }
        Ok(())
    }

    /// Removes the users named `username` on behalf of `actor`, who may not
    /// remove itself.
    pub fn delete_user(&mut self, actor: &str, username: &str) -> (r: Result<(), AdminError>)
        ensures
            actor@ == username@ ==> r == Err::<(), AdminError>(AdminError::SelfDelete),
            actor@ != username@ && !has_user(old(self)@, username@) ==> r == Err::<(), AdminError>(
                AdminError::NotFound,
            ),
            actor@ != username@ && has_user(old(self)@, username@) ==> r is Ok,
            r is Err ==> final(self)@ == old(self)@,
            r is Ok ==> final(self)@ == without_user(old(self)@, username@),
    {
        if str_eq(actor, username) {
            return Err(AdminError::SelfDelete);
        }
        if !self.contains_user(username) {
            return Err(AdminError::NotFound);
        }
        let mut kept: Vec<User> = Vec::new();
        let mut i: usize = 0;
        while i < self.users.len()
            invariant
                i <= self.users@.len(),
                users_view(kept@) == without_user(users_view(self.users@.take(i as int)), username@),
            decreases self.users@.len() - i,
        {
            let u = &self.users[i];
            proof {
                let all = users_view(self.users@.take(i + 1));
                assert(all.drop_last() =~= users_view(self.users@.take(i as int)));
                assert(all.last() == u@);
                reveal(Seq::filter);
            }
            if !str_eq(u.username.as_str(), username) {
                let c = u.duplicate();
                proof {
                    assert(users_view(kept@.push(c)) =~= users_view(kept@).push(c@));
                }
                kept.push(c);
            }
            i += 1;
        }
        assert(self.users@.take(self.users@.len() as int) =~= self.users@);
        self.users = kept;
        Ok(())
    }

    /// Appends `permission` to every user named `username`.
    pub fn add_permission(&mut self, username: &str, permission: Permission) -> (r: Result<
        (),
        AdminError,
    >)
        ensures
            r is Err <==> !has_user(old(self)@, username@),
            r is Err ==> r == Err::<(), AdminError>(AdminError::NotFound) && final(self)@ == old(
                self,
            )@,
            r is Ok ==> final(self)@ == with_permission(old(self)@, username@, permission@),
    {
        if !self.contains_user(username) {
            return Err(AdminError::NotFound);
        }
        let mut updated: Vec<User> = Vec::new();
        let mut i: usize = 0;
        while i < self.users.len()
            invariant
                i <= self.users@.len(),
                users_view(updated@) == with_permission(
                    users_view(self.users@.take(i as int)),
                    username@,
                    permission@,
                ),
            decreases self.users@.len() - i,
        {
            let mut c = self.users[i].duplicate();
            if str_eq(c.username.as_str(), username) {
                c.permissions.push(permission.duplicate());
                proof {
                    assert(crate::state::permissions_view(c.permissions@) =~= crate::state::permissions_view(
                        self.users@[i as int].permissions@,
                    ).push(permission@));
                }
            }
            proof {
                assert(users_view(updated@.push(c)) =~= users_view(updated@).push(c@));
                assert(with_permission(users_view(self.users@.take(i + 1)), username@, permission@)
                    =~= with_permission(
                    users_view(self.users@.take(i as int)),
                    username@,
                    permission@,
                ).push(c@));
            }
            updated.push(c);
            i += 1;
        }
        assert(self.users@.take(self.users@.len() as int) =~= self.users@);
        self.users = updated;
        Ok(())
    }
}

} // verus!
