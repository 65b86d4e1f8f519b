//! Accounts and their roles.

use crate::ids::DocId;
use crate::text::str_eq;
use vstd::prelude::*;

verus! {

/// What an account may do: administer everything, or take part as a member.
#[derive(Clone, Copy, Debug, PartialEq, Eq, Structural, Hash)]
pub enum Role {
    Admin,
    Member,
}

impl Role {
    /// The name under which a role is stored and carried in session claims.
    pub open spec fn name(self) -> Seq<char> {
        match self {
            Role::Admin => "Admin"@,
            Role::Member => "Member"@,
        }
    }

    /// The role that a role name of a request stands for: `Admin` for exactly
    /// "Admin", `Member` for everything else.
    pub open spec fn named(s: Seq<char>) -> Role {
        if s == "Admin"@ {
            Role::Admin
        } else {
            Role::Member
        }
    }

    /// The name under which the role is stored and carried in session claims.
    pub fn as_str(&self) -> (r: &'static str)
        ensures
            r@ == self.name(),
    {
        match self {
            Role::Admin => "Admin",
            Role::Member => "Member",
        }
    }

    /// Reads a role name given in a request. Only the exact name "Admin" grants
    /// the administrator role.
    pub fn parse(s: &str) -> (r: Role)
        ensures
            r == Role::named(s@),
    {
        if str_eq(s, "Admin") {
            Role::Admin
        } else {
            Role::Member
        }
    }

    /// Whether this is the administrator role.
    pub fn is_admin(&self) -> (r: bool)
        ensures
            r == (*self == Role::Admin),
    {
        match self {
            Role::Admin => true,
            Role::Member => false,
        }
    }
}

/// Reading back the name of a role gives the role.
pub proof fn lemma_role_name_round_trip(role: Role)
    ensures
        Role::named(role.name()) == role,
{
    reveal_strlit("Admin");
    reveal_strlit("Member");
    if role == Role::Member {
        assert("Member"@.len() == 6);
        assert("Admin"@.len() == 5);
    }
}

/// An account as the store holds it.
#[derive(Debug, PartialEq, Eq)]
pub struct User {
    /// Absent until the store has assigned one.
    pub id: Option<DocId>,
    pub username: String,
    pub full_name: String,
    pub email: String,
    /// Credential material; empty for accounts that only sign in through the
    /// identity provider. Never handed out.
    pub password_hash: String,
    pub role: Role,
    pub coins: i32,
    /// The projects the account belongs to.
    pub project_ids: Option<Vec<DocId>>,
    pub created_at: String,
    pub updated_at: String,
}

/// The mathematical content of a [`User`].
pub struct UserView {
    pub id: Option<DocId>,
    pub username: Seq<char>,
    pub full_name: Seq<char>,
    pub email: Seq<char>,
    pub password_hash: Seq<char>,
    pub role: Role,
    pub coins: i32,
    pub project_ids: Option<Seq<DocId>>,
    pub created_at: Seq<char>,
    pub updated_at: Seq<char>,
}

impl UserView {
    /// The projects the account belongs to, as a set.
    pub open spec fn memberships(self) -> Set<DocId> {
        match self.project_ids {
            Some(ids) => ids.to_set(),
            None => Set::empty(),
        }
    }
}

/// The view of an optional list of identifiers.
pub open spec fn ids_view(ids: Option<Vec<DocId>>) -> Option<Seq<DocId>> {
    match ids {
        Some(v) => Some(v@),
        None => None,
    }
}

/// Copies an optional list of identifiers.
pub fn copy_ids(ids: &Option<Vec<DocId>>) -> (r: Option<Vec<DocId>>)
    ensures
        ids_view(r) == ids_view(*ids),
{
    match ids {
        Some(v) => {
            let mut out: Vec<DocId> = Vec::new();
            let mut i: usize = 0;
            while i < v.len()
                invariant
                    i <= v.len(),
                    out@ == v@.take(i as int),
                decreases v.len() - i,
            {
                out.push(v[i]);
                assert(v@.take(i as int + 1) =~= v@.take(i as int).push(v@[i as int]));
                i += 1;
            }
            assert(v@.take(v.len() as int) =~= v@);
            Some(out)
        },
        None => None,
    }
}

impl View for User {
    type V = UserView;

    open spec fn view(&self) -> UserView {
        UserView {
            id: self.id,
            username: self.username@,
            full_name: self.full_name@,
            email: self.email@,
            password_hash: self.password_hash@,
            role: self.role,
            coins: self.coins,
            project_ids: ids_view(self.project_ids),
            created_at: self.created_at@,
            updated_at: self.updated_at@,
        }
    }
}

impl Clone for User {
    fn clone(&self) -> (r: Self)
        ensures
            r@ == self@,
    {
        User {
            id: self.id,
            username: self.username.clone(),
            full_name: self.full_name.clone(),
            email: self.email.clone(),
            password_hash: self.password_hash.clone(),
            role: self.role,
            coins: self.coins,
            project_ids: copy_ids(&self.project_ids),
            created_at: self.created_at.clone(),
            updated_at: self.updated_at.clone(),
        }
    }
}

} // verus!
