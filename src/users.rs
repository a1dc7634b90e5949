//! Rules of the user service: unique usernames and emails, the guarded
//! bootstrap admin, and which fields an update may change.
use vstd::prelude::*;
use crate::auth::{bcrypt_verdict, hash_password};
use crate::errors::ServiceError;
use crate::models::{CreateUserRequest, UpdateUserRequest};

verus! {

/// The seeded administrator's id.
pub const BOOTSTRAP_ADMIN_ID: i64 = 1;

/// The id of the role whose permission list is the wildcard.
pub const SUPER_ADMIN_ROLE_ID: i64 = 1;

/// The status of an enabled account.
pub const STATUS_ENABLED: i32 = 1;

pub open spec fn admin_name() -> Seq<char> {
    seq!['a', 'd', 'm', 'i', 'n']
}

/// The bootstrap admin: the fixed id, or the username "admin".
pub open spec fn is_bootstrap_admin(user_id: i64, username: Seq<char>) -> bool {
    user_id == BOOTSTRAP_ADMIN_ID || username == admin_name()
}

/// An account that may never be deleted: the bootstrap admin, or any holder
/// of the super-admin role.
pub open spec fn is_protected(user_id: i64, username: Seq<char>, role_id: i64) -> bool {
    is_bootstrap_admin(user_id, username) || role_id == SUPER_ADMIN_ROLE_ID
}

/// Whether a username is the bootstrap admin's.
pub fn is_admin_name(username: &str) -> (r: bool)
    ensures
        r == (username@ == admin_name()),
{
    let admin = "admin".to_string();
    proof {
        reveal_strlit("admin");
    }
    assert(admin@ =~= admin_name());
    username.to_string().eq(&admin)
}

/// Refuses to delete a protected account.
pub fn check_user_deletable(user_id: i64, username: &str, role_id: i64) -> (r: Result<(), ServiceError>)
    ensures
        r is Ok <==> !is_protected(user_id, username@, role_id),
        r is Err ==> r->Err_0 is ProtectedResource,
{
    if user_id == BOOTSTRAP_ADMIN_ID || is_admin_name(username) || role_id == SUPER_ADMIN_ROLE_ID {
        Err(ServiceError::ProtectedResource("管理员账户不可删除".to_string()))
    } else {
        Ok(())
    }
}

/// Deleting the bootstrap admin is refused whatever role the account holds.
pub proof fn lemma_bootstrap_admin_protected(user_id: i64, username: Seq<char>, role_id: i64)
    requires
        user_id == BOOTSTRAP_ADMIN_ID || username == admin_name(),
    ensures
        is_protected(user_id, username, role_id),
{
}

/// The username and email of an existing account.
#[derive(Debug, Clone)]
pub struct AccountKey {
    pub username: String,
    pub email: String,
}

pub open spec fn taken(existing: Seq<AccountKey>, username: Seq<char>, email: Seq<char>) -> bool {
    exists|i: int|
        0 <= i < existing.len() && ((#[trigger] existing[i]).username@ == username
            || existing[i].email@ == email)
}

fn same_text(a: &String, b: &String) -> (r: bool)
    ensures
        r == (a@ == b@),
{
    a.eq(b)
}

/// Whether an existing account already has this username or this email.
pub fn username_or_email_taken(existing: &Vec<AccountKey>, username: &String, email: &String) -> (r: bool)
    ensures
        r == taken(existing@, username@, email@),
{
    let mut i: usize = 0;
    while i < existing.len()
        invariant
            0 <= i <= existing.len(),
            forall|j: int|
                0 <= j < i ==> (#[trigger] existing@[j]).username@ != username@
                    && existing@[j].email@ != email@,
        decreases existing.len() - i,
    {
        if same_text(&existing[i].username, username) || same_text(&existing[i].email, email) {
            return true;
        }
        i = i + 1;
    }
    false
}

/// The row to insert for a new account.
#[derive(Debug, Clone)]
pub struct NewUser {
    pub username: String,
    pub email: String,
    pub password_hash: String,
    pub phone: Option<String>,
    pub address: Option<String>,
    pub avatar: Option<String>,
    pub role_id: i64,
    pub status: i32,
}

/// The characters of an optional text.
pub open spec fn opt_view(o: Option<String>) -> Option<Seq<char>> {
    match o {
        Some(s) => Some(s@),
        None => None,
    }
}

pub fn copy_text(o: &Option<String>) -> (r: Option<String>)
    ensures
        opt_view(r) == opt_view(*o),
{
    match o {
        Some(s) => Some(s.clone()),
        None => None,
    }
}

/// A new, enabled account with a hashed password; refused where the username
/// or the email is taken, and an internal error where hashing fails.
pub fn prepare_new_user(request: &CreateUserRequest, existing: &Vec<AccountKey>) -> (r: Result<NewUser, ServiceError>)
    ensures
        taken(existing@, request.username@, request.email@) <==> r matches Err(
            ServiceError::Validation(_),
        ),
        r is Err ==> r->Err_0 is Validation || r->Err_0 is Internal,
        r is Ok ==> {
            let u = r->Ok_0;
            &&& u.username@ == request.username@
            &&& u.email@ == request.email@
            &&& opt_view(u.phone) == opt_view(request.phone)
            &&& opt_view(u.address) == opt_view(request.address)
            &&& opt_view(u.avatar) == opt_view(request.avatar)
            &&& u.role_id == request.role_id
            &&& u.status == STATUS_ENABLED
            &&& bcrypt_verdict(request.password@, u.password_hash@) == Some(true)
        },
{
    if username_or_email_taken(existing, &request.username, &request.email) {
        return Err(ServiceError::Validation("用户名或邮箱已存在".to_string()));
    }
    match hash_password(request.password.as_str()) {
        Some(h) => Ok(NewUser {
            username: request.username.clone(),
            email: request.email.clone(),
            password_hash: h,
            phone: copy_text(&request.phone),
            address: copy_text(&request.address),
            avatar: copy_text(&request.avatar),
            role_id: request.role_id,
            status: STATUS_ENABLED,
        }),
        None => Err(ServiceError::Internal("password hashing failed".to_string())),
    }
}

/// The editable fields of an account.
#[derive(Debug, Clone)]
pub struct UserProfile {
    pub id: i64,
    pub username: String,
    pub email: String,
    pub phone: Option<String>,
    pub address: Option<String>,
    pub avatar: Option<String>,
    pub role_id: i64,
}

/// An update of an account: the admin account takes only its contact fields
/// and avatar; any other account takes every field of the request.
pub fn apply_user_update(current: &UserProfile, request: &UpdateUserRequest) -> (r: UserProfile)
    ensures
        r.id == current.id,
        opt_view(r.phone) == opt_view(request.phone),
        opt_view(r.address) == opt_view(request.address),
        opt_view(r.avatar) == opt_view(request.avatar),
        current.username@ == admin_name() ==> {
            &&& r.username@ == current.username@
            &&& r.email@ == current.email@
            &&& r.role_id == current.role_id
        },
        current.username@ != admin_name() ==> {
            &&& r.username@ == request.username@
            &&& r.email@ == request.email@
            &&& r.role_id == request.role_id
        },
{
    if is_admin_name(current.username.as_str()) {
        UserProfile {
            id: current.id,
            username: current.username.clone(),
            email: current.email.clone(),
            phone: copy_text(&request.phone),
            address: copy_text(&request.address),
            avatar: copy_text(&request.avatar),
            role_id: current.role_id,
        }
    } else {
        UserProfile {
            id: current.id,
            username: request.username.clone(),
            email: request.email.clone(),
            phone: copy_text(&request.phone),
            address: copy_text(&request.address),
            avatar: copy_text(&request.avatar),
            role_id: request.role_id,
        }
    }
}

} // verus!
