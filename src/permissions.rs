//! The authorization predicate.
use vstd::prelude::*;
use crate::pattern::{glob_match, matches_pattern};
use crate::state::{Permission, PermissionView, User, UserView};
use crate::text::str_eq;

verus! {

/// An operation on a repository.
#[derive(Debug, PartialEq, Eq, Structural, Clone, Copy)]
pub enum Action {
    Pull,
    Push,
    Delete,
}

/// The name under which an action is listed in a permission.
pub open spec fn action_name(a: Action) -> Seq<char> {
    match a {
        Action::Pull => "pull"@,
        Action::Push => "push"@,
        Action::Delete => "delete"@,
    }
}

impl Action {
    /// The action's name: `pull`, `push` or `delete`.
    pub fn as_str(&self) -> (r: &str)
        ensures
            r@ == action_name(*self),
    {
        match self {
            Action::Pull => "pull",
            Action::Push => "push",
            Action::Delete => "delete",
        }
    }
}

/// `name` is among `actions`.
pub open spec fn action_listed(actions: Seq<Seq<char>>, name: Seq<char>) -> bool {
    exists|k: int| 0 <= k < actions.len() && #[trigger] actions[k] == name
}

/// The tag as characters, if there is one.
pub open spec fn tag_view(tag: Option<&str>) -> Option<Seq<char>> {
    match tag {
        Some(t) => Some(t@),
        None => None,
    }
}

/// Permission `p` grants `action` on `repository` (and on `tag`, where one
/// is given).
pub open spec fn grants(
    p: PermissionView,
    repository: Seq<char>,
    tag: Option<Seq<char>>,
    action: Action,
) -> bool {
    &&& glob_match(p.repository, repository)
    &&& (tag matches Some(t) ==> glob_match(p.tag, t))
    &&& action_listed(p.actions, action_name(action))
}

/// Some permission of `user` grants `action`; an empty list grants nothing.
pub open spec fn allowed(
    user: UserView,
    repository: Seq<char>,
    tag: Option<Seq<char>>,
    action: Action,
) -> bool {
    exists|i: int|
        0 <= i < user.permissions.len() && grants(
            #[trigger] user.permissions[i],
            repository,
            tag,
            action,
        )
}

/// Whether `name` is among `actions`.
fn lists_action(actions: &Vec<String>, name: &str) -> (r: bool)
    ensures
        r == action_listed(crate::state::strings_view(actions@), name@),
{
    let mut k: usize = 0;
    while k < actions.len()
        invariant
            k <= actions.len(),
            forall|j: int| 0 <= j < k ==> (#[trigger] actions@[j])@ != name@,
            crate::state::strings_view(actions@).len() == actions@.len(),
        decreases actions.len() - k,
    {
        if str_eq(actions[k].as_str(), name) {
            assert(crate::state::strings_view(actions@)[k as int] == name@);
            return true;
        }
        k += 1;
    }
    false
}

/// Whether one permission grants the request.
fn permission_grants(p: &Permission, repository: &str, tag: Option<&str>, action: Action) -> (r:
    bool)
    ensures
        r == grants(p@, repository@, tag_view(tag), action),
{
    if !matches_pattern(p.repository.as_str(), repository) {
        return false;
    }
    match tag {
        Some(t) => {
            if !matches_pattern(p.tag.as_str(), t) {
                return false;
            }
        },
        None => {},
    }
    lists_action(&p.actions, action.as_str())
}

/// Whether `user` may perform `action` on `repository` (and `tag`, where the
/// operation names one).
pub fn has_permission(user: &User, repository: &str, tag: Option<&str>, action: Action) -> (r:
    bool)
    ensures
        r == allowed(user@, repository@, tag_view(tag), action),
{
    if user.permissions.len() == 0 {
        return false;
    }
    let mut i: usize = 0;
    while i < user.permissions.len()
        invariant
            i <= user.permissions@.len(),
            forall|j: int|
                0 <= j < i ==> !grants(
                    #[trigger] user@.permissions[j],
                    repository@,
                    tag_view(tag),
                    action,
                ),
        decreases user.permissions@.len() - i,
    {
        if permission_grants(&user.permissions[i], repository, tag, action) {
            assert(user@.permissions[i as int] == user.permissions@[i as int]@);
            return true;
        }
        i += 1;
    }
    false
}

/// A user is an administrator when it may delete on every repository and tag.
pub open spec fn admin(user: UserView) -> bool {
    allowed(user, "*"@, Some("*"@), Action::Delete)
}

/// Whether `user` holds the administrator capability.
pub fn is_admin(user: &User) -> (r: bool)
    ensures
        r == admin(user@),
{
    has_permission(user, "*", Some("*"), Action::Delete)
}

/// Deny by default: a user without permissions is refused every action.
pub proof fn lemma_no_permissions_deny(
    user: UserView,
    repository: Seq<char>,
    tag: Option<Seq<char>>,
    action: Action,
)
    requires
        user.permissions.len() == 0,
    ensures
        !allowed(user, repository, tag, action),
{
}

} // verus!
