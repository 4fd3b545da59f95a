//! Users, their roles within organizations, and passwords.

use pbkdf2::password_hash::{PasswordHash, PasswordHasher, PasswordVerifier, SaltString};
use pbkdf2::Pbkdf2;
use vstd::prelude::*;
use vstd::std_specs::convert::{FromSpecImpl, TryFromSpecImpl};

verus! {

/// What a user may do within an organization.
#[derive(Clone, Copy, Debug, PartialEq, Eq, Structural)]
pub enum Role {
    EditCompanyStations,
    CreateCompanyStations,
    DeleteCompanyStations,
    EditMaintainedStations,
    CreateMaintainedStations,
    DeleteMaintainedStations,
    EditOrgUserRoles,
    EditOwnCompany,
    ApproveStations,
}

/// What [`Role::try_from`] answers to a number that stands for no role.
pub const NO_SUCH_ROLE: &'static str = "No role corresponding to {role} value!";

/// The number that stands for a role, in storage and on the wire.
pub open spec fn role_number(role: Role) -> i32 {
    match role {
        Role::EditCompanyStations => 0,
        Role::CreateCompanyStations => 1,
        Role::DeleteCompanyStations => 2,
        Role::EditMaintainedStations => 3,
        Role::CreateMaintainedStations => 4,
        Role::DeleteMaintainedStations => 5,
        Role::EditOrgUserRoles => 6,
        Role::EditOwnCompany => 7,
        Role::ApproveStations => 8,
    }
}

/// The role that a number stands for, if it stands for one.
pub open spec fn role_of(number: i32) -> Option<Role> {
    match number {
        0 => Some(Role::EditCompanyStations),
        1 => Some(Role::CreateCompanyStations),
        2 => Some(Role::DeleteCompanyStations),
        3 => Some(Role::EditMaintainedStations),
        4 => Some(Role::CreateMaintainedStations),
        5 => Some(Role::DeleteMaintainedStations),
        6 => Some(Role::EditOrgUserRoles),
        7 => Some(Role::EditOwnCompany),
        8 => Some(Role::ApproveStations),
        _ => None,
    }
}

impl TryFrom<i32> for Role {
    type Error = &'static str;

    fn try_from(role: i32) -> (r: Result<Self, Self::Error>) {
        match role {
            0 => Ok(Role::EditCompanyStations),
            1 => Ok(Role::CreateCompanyStations),
            2 => Ok(Role::DeleteCompanyStations),
            3 => Ok(Role::EditMaintainedStations),
            4 => Ok(Role::CreateMaintainedStations),
            5 => Ok(Role::DeleteMaintainedStations),
            6 => Ok(Role::EditOrgUserRoles),
            7 => Ok(Role::EditOwnCompany),
            8 => Ok(Role::ApproveStations),
            _ => Err(NO_SUCH_ROLE),
        }
    }
}

impl TryFromSpecImpl<i32> for Role {
    open spec fn obeys_try_from_spec() -> bool {
        true
    }

    open spec fn try_from_spec(role: i32) -> Result<Self, Self::Error> {
        match role_of(role) {
            Some(r) => Ok(r),
            None => Err(NO_SUCH_ROLE),
        }
    }
}

impl From<Role> for i32 {
    fn from(val: Role) -> (n: i32) {
        match val {
            Role::EditCompanyStations => 0,
            Role::CreateCompanyStations => 1,
            Role::DeleteCompanyStations => 2,
            Role::EditMaintainedStations => 3,
            Role::CreateMaintainedStations => 4,
            Role::DeleteMaintainedStations => 5,
            Role::EditOrgUserRoles => 6,
            Role::EditOwnCompany => 7,
            Role::ApproveStations => 8,
        }
    }
}

impl FromSpecImpl<Role> for i32 {
    open spec fn obeys_from_spec() -> bool {
        true
    }

    open spec fn from_spec(val: Role) -> i32 {
        role_number(val)
    }
}

/// Every role comes back from its number, and every number that stands for
/// a role is the number of that role.
pub proof fn lemma_role_number_round_trip(role: Role, number: i32)
    ensures
        role_of(role_number(role)) == Some(role),
        role_of(number) matches Some(r) ==> role_number(r) == number,
        role_of(number) is Some <==> 0 <= number <= 8,
{
}

/// A user of the platform.
#[derive(Debug, Clone)]
pub struct User {
    /// Unique identifier (a UUID, as its 128-bit number).
    pub id: u128,
    /// Name of the user.
    pub name: Option<String>,
    /// E-mail address of the user.
    pub email: Option<String>,
    /// Hash of the password, in PHC string format.
    pub password: String,
    /// Which notifications the user wants by e-mail.
    pub email_setting: Option<i32>,
    /// Whether the user is deleted; the record is kept for consistency.
    pub deactivated: bool,
    /// Whether the user administers the whole platform.
    pub admin: bool,
}

/// The role that a user has within an organization.
#[derive(Debug, Clone)]
pub struct OrgUsersRelation {
    /// Unique identifier of the relation (a UUID).
    pub id: u128,
    /// The organization (a UUID).
    pub organisation: u128,
    /// The user (a UUID).
    pub user_id: u128,
    /// The role.
    pub role: Role,
}

/// The organization that owns the stations of the community.
pub const COMMUNITY_ORG_ID: u128 = 0x53e643d7_c300_4de7_ab48_540d08a0cbc6;

/// An organization.
#[derive(Debug, Clone)]
pub struct Organization {
    /// Unique identifier (a UUID).
    pub id: u128,
    /// Name of the organization.
    pub name: String,
    /// Whether what is known of the organization may be shared.
    pub public: bool,
}

/// The most bytes of salt that a password can be hashed with.
pub const MAX_SALT_BYTES: usize = 48;

/// The error of the `password-hash` crate, which tells why a hash could not
/// be computed, parsed or verified.
#[verifier::external_type_specification]
#[verifier::external_body]
pub struct ExPasswordHashError(pbkdf2::password_hash::Error);

/// The text that `SaltString::b64_encode` makes of the bytes of a salt:
/// their Base64 encoding without padding.
pub uninterp spec fn salt_text(salt: Seq<u8>) -> Seq<char>;

/// What `Pbkdf2.hash_password` makes of a password and the text of a salt,
/// written out in PHC string format; `None` where it reports an error.
pub uninterp spec fn pbkdf2_hash(password: Seq<char>, salt: Seq<char>) -> Option<Seq<char>>;

/// What `PasswordHash::new` reads from a text in PHC string format, written
/// out again; `None` where it reports that the text is not in that format.
pub uninterp spec fn phc_text(text: Seq<char>) -> Option<Seq<char>>;

/// Whether `Pbkdf2.verify_password` accepts a password for the hash that a
/// well-formed PHC string holds.
pub uninterp spec fn pbkdf2_accepts(password: Seq<char>, hash: Seq<char>) -> bool;

/// Encodes a salt with `SaltString::b64_encode`.
///
/// Trusted: the call succeeds exactly on salts of at most 48 bytes, whose
/// encoding fits the 64 characters that a salt may have; its result is a
/// function of the bytes alone.
#[verifier::external_body]
fn encode_salt(salt: &[u8]) -> (r: Result<String, pbkdf2::password_hash::Error>)
    ensures
        r is Ok <==> salt@.len() <= MAX_SALT_BYTES,
        r matches Ok(text) ==> text@ == salt_text(salt@),
{
    match SaltString::b64_encode(salt) {
        Ok(encoded) => Ok(encoded.as_str().to_owned()),
        Err(e) => Err(e),
    }
}

/// Hashes a password with `Pbkdf2.hash_password`, under its default
/// parameters, and writes the hash out.
///
/// Trusted: the result is a function of password and salt alone.
#[verifier::external_body]
fn derive_hash(password: &str, salt: &str) -> (r: Result<String, pbkdf2::password_hash::Error>)
    ensures
        r is Ok <==> pbkdf2_hash(password@, salt@) is Some,
        r matches Ok(hash) ==> pbkdf2_hash(password@, salt@) == Some(hash@),
{
    match Pbkdf2.hash_password(password.as_bytes(), salt) {
        Ok(hash) => Ok(hash.to_string()),
        Err(e) => Err(e),
    }
}

/// Reads a PHC string with `PasswordHash::new` and writes it out again.
///
/// Trusted: the result is a function of the text alone.
#[verifier::external_body]
fn reparse_hash(text: &str) -> (r: Result<String, pbkdf2::password_hash::Error>)
    ensures
        r is Ok <==> phc_text(text@) is Some,
        r matches Ok(hash) ==> phc_text(text@) == Some(hash@),
{
    match PasswordHash::new(text) {
        Ok(hash) => Ok(hash.to_string()),
        Err(e) => Err(e),
    }
}

/// Checks a password against a well-formed PHC string with
/// `Pbkdf2.verify_password`.
///
/// Trusted: the result is a function of password and hash alone.
#[verifier::external_body]
fn check_against(password: &str, hash: &str) -> (r: Result<(), pbkdf2::password_hash::Error>)
    requires
        phc_text(hash@) is Some,
    ensures
        r is Ok <==> pbkdf2_accepts(password@, hash@),
{
    match PasswordHash::new(hash) {
        Ok(parsed) => Pbkdf2.verify_password(password.as_bytes(), &parsed),
        Err(e) => Err(e),
    }
}

/// The hash under which a password is stored, given the hash that was
/// computed for it: that hash as it reads once parsed and written again.
pub open spec fn stored_hash(computed: Option<Seq<char>>) -> Option<Seq<char>> {
    match computed {
        Some(hash) => phc_text(hash),
        None => None,
    }
}

/// Whether a password is accepted for a stored hash: the hash must be a
/// well-formed PHC string, and the password must hash to it.
pub open spec fn password_accepted(password: Seq<char>, hashed_password: Seq<char>) -> bool {
    phc_text(hashed_password) is Some && pbkdf2_accepts(password, hashed_password)
}

/// The PBKDF2 hash of a password under the given salt, as a PHC string, or
/// `None` where the hash cannot be computed (a salt of less than three
/// bytes is too short for it).
pub fn hash_password(password: &String, salt: &[u8]) -> (r: Option<String>)
    requires
        salt@.len() <= MAX_SALT_BYTES,
    ensures
        r is Some <==> stored_hash(pbkdf2_hash(password@, salt_text(salt@))) is Some,
        r matches Some(hash) ==> stored_hash(pbkdf2_hash(password@, salt_text(salt@))) == Some(
            hash@,
        ),
{
    let encoded = match encode_salt(salt) {
        Ok(text) => text,
        Err(_) => {
            return None;
        },
    };
    match derive_hash(password.as_str(), encoded.as_str()) {
        Ok(hash) => match reparse_hash(hash.as_str()) {
            Ok(stored) => Some(stored),
            Err(_) => None,
        },
        Err(_) => None,
    }
}

/// Whether `password` is the password that was hashed to `hashed_password`;
/// `false` where that is no well-formed PHC string.
pub fn verify_password(password: &String, hashed_password: &str) -> (ok: bool)
    ensures
        ok == password_accepted(password@, hashed_password@),
{
    match reparse_hash(hashed_password) {
        Ok(_) => {},
        Err(_) => {
            return false;
        },
    }
    match check_against(password.as_str(), hashed_password) {
        Ok(()) => true,
        Err(_) => false,
    }
}

} // verus!
