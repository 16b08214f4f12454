//! Updating a user profile.  The statement sets exactly the fields given,
//! binding their values as parameters `$1`, `$2`, ... in column order, and
//! selects the profile by `user_id`, bound as the last parameter.  When no
//! field is given nothing is written and the stored profile is the answer.
use crate::text::{owned, text_is};
use vstd::prelude::*;
use vstd::string::StringExecFns;

verus! {

/// Which profile fields an update gives.
#[derive(Clone, Copy, PartialEq, Eq, Structural, Debug)]
pub struct ProfileFields {
    pub display_name: bool,
    pub avatar_url: bool,
    pub bio: bool,
    pub country: bool,
    pub metadata: bool,
}

/// The columns set by an update, in order.
pub open spec fn updated_columns(f: ProfileFields) -> Seq<Seq<char>> {
    let a = if f.display_name {
        seq!["display_name"@]
    } else {
        Seq::empty()
    };
    let b = if f.avatar_url {
        seq!["avatar_url"@]
    } else {
        Seq::empty()
    };
    let c = if f.bio {
        seq!["bio"@]
    } else {
        Seq::empty()
    };
    let d = if f.country {
        seq!["country"@]
    } else {
        Seq::empty()
    };
    let e = if f.metadata {
        seq!["metadata"@]
    } else {
        Seq::empty()
    };
    a + b + c + d + e
}

/// The placeholder of parameter `n` (parameters are numbered from 1).
pub open spec fn placeholder(n: int) -> Seq<char> {
    if n == 1 {
        "$1"@
    } else if n == 2 {
        "$2"@
    } else if n == 3 {
        "$3"@
    } else if n == 4 {
        "$4"@
    } else if n == 5 {
        "$5"@
    } else {
        "$6"@
    }
}

/// `col = $n, ...` for the given columns, numbered from 1.
pub open spec fn set_clause(cols: Seq<Seq<char>>) -> Seq<char>
    decreases cols.len(),
{
    if cols.len() == 0 {
        Seq::empty()
    } else if cols.len() == 1 {
        cols[0] + " = "@ + placeholder(1)
    } else {
        set_clause(cols.drop_last()) + ", "@ + cols.last() + " = "@ + placeholder(cols.len() as int)
    }
}

/// The columns a profile statement returns.
pub open spec fn returning_clause() -> Seq<char> {
    " RETURNING id, user_id, display_name, avatar_url, bio, country, metadata, verification_status, created_at, updated_at"@
}

/// The update statement for the given fields; none when no field is given.
pub open spec fn update_statement(f: ProfileFields) -> Option<Seq<char>> {
    let cols = updated_columns(f);
    if cols.len() == 0 {
        None
    } else {
        Some(
            "UPDATE user_profiles SET "@ + set_clause(cols) + " WHERE user_id = "@ + placeholder(
                cols.len() + 1 as int,
            ) + returning_clause(),
        )
    }
}

fn placeholder_text(n: usize) -> (r: &'static str)
    requires
        1 <= n <= 6,
    ensures
        r@ == placeholder(n as int),
{
    if n == 1 {
        "$1"
    } else if n == 2 {
        "$2"
    } else if n == 3 {
        "$3"
    } else if n == 4 {
        "$4"
    } else if n == 5 {
        "$5"
    } else {
        "$6"
    }
}

/// The statement updating the given profile fields, or `None` when no field
/// is given (then there is nothing to update).  The number of parameters it
/// binds is one more than the number of fields given.
pub fn profile_update_statement(fields: &ProfileFields) -> (r: Option<String>)
    ensures
        match update_statement(*fields) {
            Some(s) => r matches Some(q) && q@ == s,
            None => r is None,
        },
{
    let mut cols: Vec<&str> = Vec::new();
    if fields.display_name {
        cols.push("display_name");
    }
    if fields.avatar_url {
        cols.push("avatar_url");
    }
    if fields.bio {
        cols.push("bio");
    }
    if fields.country {
        cols.push("country");
    }
    if fields.metadata {
        cols.push("metadata");
    }
    let ghost names = updated_columns(*fields);
    assert(cols@.map_values(|c: &str| c@) =~= names);
    if cols.len() == 0 {
        return None;
    }
    let mut clause = String::new();
    let mut i: usize = 0;
    while i < cols.len()
        invariant
            0 <= i <= cols.len() <= 5,
            cols@.map_values(|c: &str| c@) == names,
            clause@ == set_clause(names.take(i as int)),
        decreases cols.len() - i,
    {
        if i > 0 {
            clause.append(", ");
        }
        clause.append(cols[i]);
        clause.append(" = ");
        clause.append(placeholder_text(i + 1));
        assert(names.take(i + 1).drop_last() =~= names.take(i as int));
        i = i + 1;
    }
    assert(names.take(cols.len() as int) =~= names);
    let mut statement = owned("UPDATE user_profiles SET ");
    statement.append(clause.as_str());
    statement.append(" WHERE user_id = ");
    statement.append(placeholder_text(cols.len() + 1));
    statement.append(
        " RETURNING id, user_id, display_name, avatar_url, bio, country, metadata, verification_status, created_at, updated_at",
    );
    Some(statement)
}


/// A stored user profile.  `metadata` is the JSON text of the metadata
/// document; the timestamps are kept as the text the database gives.
#[derive(Clone, PartialEq, Eq, Debug)]
pub struct UserProfile {
    pub id: String,
    pub user_id: String,
    pub display_name: String,
    pub avatar_url: Option<String>,
    pub bio: Option<String>,
    pub country: Option<String>,
    pub metadata: Option<String>,
    pub verification_status: String,
    pub created_at: String,
    pub updated_at: String,
}

/// The new values of a profile update; `None` leaves a field as it is.
#[derive(Clone, PartialEq, Eq, Debug)]
pub struct ProfileUpdate {
    pub display_name: Option<String>,
    pub avatar_url: Option<String>,
    pub bio: Option<String>,
    pub country: Option<String>,
    pub metadata: Option<String>,
}

/// Why a profile update fails.
#[derive(Clone, Copy, PartialEq, Eq, Structural, Debug)]
pub enum ProfileError {
    /// Nothing was to be updated and no profile is stored for the user.
    NotFound,
    /// The database refused the statement, or the update found no row.
    Database,
    /// Creating a profile for a user who already has one.
    Conflict,
}

impl ProfileError {
    /// The message sent back with the refusal.
    pub fn message(&self) -> (r: String)
        ensures
            *self == ProfileError::NotFound ==> r@ == "Profile not found"@,
            *self == ProfileError::Database ==> r@ == "Database error"@,
            *self == ProfileError::Conflict ==> r@ == "Profile already exists"@,
    {
        match self {
            ProfileError::NotFound => owned("Profile not found"),
            ProfileError::Database => owned("Database error"),
            ProfileError::Conflict => owned("Profile already exists"),
        }
    }
}

/// The values of `opt` as a sequence of at most one element.
pub open spec fn given<T>(opt: Option<T>) -> Seq<T> {
    match opt {
        Some(v) => seq![v],
        None => Seq::empty(),
    }
}

impl ProfileUpdate {
    /// Which fields the update gives.
    pub open spec fn spec_fields(self) -> ProfileFields {
        ProfileFields {
            display_name: self.display_name is Some,
            avatar_url: self.avatar_url is Some,
            bio: self.bio is Some,
            country: self.country is Some,
            metadata: self.metadata is Some,
        }
    }

    /// The values the update statement binds before `user_id`, in column order.
    pub open spec fn bound_values(self) -> Seq<String> {
        given(self.display_name) + given(self.avatar_url) + given(self.bio) + given(self.country)
            + given(self.metadata)
    }

    /// Whether the update gives any field at all.
    pub open spec fn is_empty(self) -> bool {
        updated_columns(self.spec_fields()).len() == 0
    }

    /// Which fields the update gives.
    pub fn fields(&self) -> (r: ProfileFields)
        ensures
            r == self.spec_fields(),
    {
        ProfileFields {
            display_name: self.display_name.is_some(),
            avatar_url: self.avatar_url.is_some(),
            bio: self.bio.is_some(),
            country: self.country.is_some(),
            metadata: self.metadata.is_some(),
        }
    }

    /// The values the update statement binds before `user_id`: one for each
    /// column it sets, in the same order.
    pub fn bindings(&self) -> (r: Vec<String>)
        ensures
            r@ == self.bound_values(),
            r@.len() == updated_columns(self.spec_fields()).len(),
    {
        let mut r: Vec<String> = Vec::new();
        if let Some(v) = &self.display_name {
            r.push(v.clone());
        }
        if let Some(v) = &self.avatar_url {
            r.push(v.clone());
        }
        if let Some(v) = &self.bio {
            r.push(v.clone());
        }
        if let Some(v) = &self.country {
            r.push(v.clone());
        }
        if let Some(v) = &self.metadata {
            r.push(v.clone());
        }
        assert(r@ =~= self.bound_values());
        r
    }
}

/// The profile after the update: each given field replaced, the others kept.
pub open spec fn updated_profile(p: UserProfile, u: ProfileUpdate) -> UserProfile {
    UserProfile {
        display_name: match u.display_name {
            Some(v) => v,
            None => p.display_name,
        },
        avatar_url: if u.avatar_url is Some {
            u.avatar_url
        } else {
            p.avatar_url
        },
        bio: if u.bio is Some {
            u.bio
        } else {
            p.bio
        },
        country: if u.country is Some {
            u.country
        } else {
            p.country
        },
        metadata: if u.metadata is Some {
            u.metadata
        } else {
            p.metadata
        },
        ..p
    }
}

/// The outcome of updating the profile `stored` (the user's stored profile,
/// if any) with `update`.  With no field given nothing is written: the stored
/// profile is returned, or `NotFound` when there is none.  Otherwise the
/// given fields are overwritten and the updated profile returned; with no
/// stored profile the update finds no row and fails with `Database`.
pub fn apply_profile_update(stored: Option<UserProfile>, update: ProfileUpdate) -> (r: Result<
    UserProfile,
    ProfileError,
>)
    ensures
        update.is_empty() ==> match stored {
            Some(p) => r == Ok::<UserProfile, ProfileError>(p),
            None => r == Err::<UserProfile, ProfileError>(ProfileError::NotFound),
        },
        !update.is_empty() ==> match stored {
            Some(p) => r == Ok::<UserProfile, ProfileError>(updated_profile(p, update)),
            None => r == Err::<UserProfile, ProfileError>(ProfileError::Database),
        },
{
    let fields = update.fields();
    let nothing = !fields.display_name && !fields.avatar_url && !fields.bio && !fields.country
        && !fields.metadata;
    if nothing {
        return match stored {
            Some(p) => Ok(p),
            None => Err(ProfileError::NotFound),
        };
    }
    let p = match stored {
        Some(p) => p,
        None => return Err(ProfileError::Database),
    };
    let ProfileUpdate { display_name, avatar_url, bio, country, metadata } = update;
    let display_name = match display_name {
        Some(v) => v,
        None => p.display_name,
    };
    let avatar_url = if avatar_url.is_some() {
        avatar_url
    } else {
        p.avatar_url
    };
    let bio = if bio.is_some() {
        bio
    } else {
        p.bio
    };
    let country = if country.is_some() {
        country
    } else {
        p.country
    };
    let metadata = if metadata.is_some() {
        metadata
    } else {
        p.metadata
    };
    Ok(
        UserProfile {
            id: p.id,
            user_id: p.user_id,
            display_name,
            avatar_url,
            bio,
            country,
            metadata,
            verification_status: p.verification_status,
            created_at: p.created_at,
            updated_at: p.updated_at,
        },
    )
}

/// The SQLSTATE code of a unique-key violation.
pub open spec fn unique_violation() -> Seq<char> {
    "23505"@
}

/// Why creating a profile failed, given the SQLSTATE code of the database's
/// refusal (`None` when the failure came with no such code): a unique-key
/// violation means the user already has a profile; anything else is a
/// database error.
pub fn create_profile_failure(sql_state: Option<&str>) -> (r: ProfileError)
    ensures
        r == (if sql_state matches Some(code) && code@ == unique_violation() {
            ProfileError::Conflict
        } else {
            ProfileError::Database
        }),
{
    match sql_state {
        Some(code) => if text_is(code, "23505") {
            ProfileError::Conflict
        } else {
            ProfileError::Database
        },
        None => ProfileError::Database,
    }
}

/// How many of the fields that come before field number `index` (numbered
/// from 0 in the order display_name, avatar_url, bio, country, metadata) are
/// given: the position that field's column takes in the statement.
pub open spec fn given_before(f: ProfileFields, index: int) -> int {
    (if index > 0 && f.display_name { 1int } else { 0int }) + (if index > 1 && f.avatar_url {
        1int
    } else {
        0int
    }) + (if index > 2 && f.bio { 1int } else { 0int }) + (if index > 3 && f.country {
        1int
    } else {
        0int
    }) + (if index > 4 && f.metadata { 1int } else { 0int })
}

/// The statement sets exactly the given fields, in the order display_name,
/// avatar_url, bio, country, metadata, and the value bound at each column's
/// position is that field's new value: the statement's `k`-th column (bound
/// to parameter `$k+1`) is the column of the `k`-th value of `bindings`.
/// With no field given there is no statement.
pub proof fn lemma_columns_match_bindings(u: ProfileUpdate)
    ensures
        ({
            let f = u.spec_fields();
            let cols = updated_columns(f);
            let vals = u.bound_values();
            &&& cols.len() == vals.len() == given_before(f, 5)
            &&& update_statement(f) is None <==> given_before(f, 5) == 0
            &&& u.display_name matches Some(v) ==> cols[given_before(f, 0)] == "display_name"@
                && vals[given_before(f, 0)] == v
            &&& u.avatar_url matches Some(v) ==> cols[given_before(f, 1)] == "avatar_url"@
                && vals[given_before(f, 1)] == v
            &&& u.bio matches Some(v) ==> cols[given_before(f, 2)] == "bio"@ && vals[given_before(
                f,
                2,
            )] == v
            &&& u.country matches Some(v) ==> cols[given_before(f, 3)] == "country"@
                && vals[given_before(f, 3)] == v
            &&& u.metadata matches Some(v) ==> cols[given_before(f, 4)] == "metadata"@
                && vals[given_before(f, 4)] == v
        }),
{
}

} // verus!
