//! Users and their permission records.
use vstd::prelude::*;

verus! {

/// A grant of `actions` on repositories matching `repository` and tags
/// matching `tag` (both glob patterns).
#[derive(Debug)]
pub struct Permission {
    pub repository: String,
    pub tag: String,
    pub actions: Vec<String>,
}

/// A registry user with its ordered permission list.
#[derive(Debug)]
pub struct User {
    pub username: String,
    pub password: String,
    pub permissions: Vec<Permission>,
}

/// The persisted user set.
#[derive(Debug)]
pub struct UsersFile {
    pub users: Vec<User>,
}

/// The mathematical value of a permission.
pub struct PermissionView {
    pub repository: Seq<char>,
    pub tag: Seq<char>,
    pub actions: Seq<Seq<char>>,
}

/// The mathematical value of a user.
pub struct UserView {
    pub username: Seq<char>,
    pub password: Seq<char>,
    pub permissions: Seq<PermissionView>,
}

/// The characters of each string.
pub open spec fn strings_view(v: Seq<String>) -> Seq<Seq<char>> {
    v.map_values(|s: String| s@)
}

impl View for Permission {
    type V = PermissionView;

    open spec fn view(&self) -> PermissionView {
        PermissionView {
            repository: self.repository@,
            tag: self.tag@,
            actions: strings_view(self.actions@),
        }
    }
}

/// The view of each permission.
pub open spec fn permissions_view(v: Seq<Permission>) -> Seq<PermissionView> {
    v.map_values(|p: Permission| p@)
}

impl View for User {
    type V = UserView;

    open spec fn view(&self) -> UserView {
        UserView {
            username: self.username@,
            password: self.password@,
            permissions: permissions_view(self.permissions@),
        }
    }
}

/// The view of each user.
pub open spec fn users_view(v: Seq<User>) -> Seq<UserView> {
    v.map_values(|u: User| u@)
}

/// A copy of a list of strings.
pub fn copy_strings(v: &Vec<String>) -> (r: Vec<String>)
    ensures
        r@ == v@,
{
    let r = v.clone();
    assert(r@ =~= v@);
    r
}

impl Permission {
    /// A field-by-field copy.
    pub fn duplicate(&self) -> (r: Permission)
        ensures
            r@ == self@,
    {
        Permission {
            repository: self.repository.clone(),
            tag: self.tag.clone(),
            actions: copy_strings(&self.actions),
        }
    }
}

/// A copy of a list of permissions.
pub fn copy_permissions(v: &Vec<Permission>) -> (r: Vec<Permission>)
    ensures
        permissions_view(r@) == permissions_view(v@),
{
    let mut r: Vec<Permission> = Vec::new();
    let mut i: usize = 0;
    while i < v.len()
        invariant
            i <= v.len(),
            permissions_view(r@) == permissions_view(v@.take(i as int)),
        decreases v.len() - i,
    {
        let p = v[i].duplicate();
        proof {
            let old_r = r@;
            assert(permissions_view(old_r.push(p)) =~= permissions_view(old_r).push(p@));
            assert(permissions_view(v@.take(i + 1)) =~= permissions_view(v@.take(i as int)).push(
                v@[i as int]@,
            ));
        }
        r.push(p);
        i += 1;
    }
    assert(v@.take(v.len() as int) =~= v@);
    r
}

impl User {
    /// A field-by-field copy.
    pub fn duplicate(&self) -> (r: User)
        ensures
            r@ == self@,
    {
        User {
            username: self.username.clone(),
            password: self.password.clone(),
            permissions: copy_permissions(&self.permissions),
        }
    }
}

} // verus!
