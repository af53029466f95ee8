//! Users of the planning service, and the rules on what a request costs
//! them.

use vstd::prelude::*;
use vstd::string::*;
use crate::text::{chars_of, contains_chars, contains_seq, text_eq};

verus! {

/// What a user may do.
#[derive(Debug, Clone, Copy, PartialEq, Eq)]
pub enum UserRole {
    SuperAdmin,
    Admin,
    Team,
    Pro,
    Free,
}

/// Where a device login stands.
#[derive(Debug, Clone, Copy, PartialEq, Eq)]
pub enum DeviceStatus {
    Pending,
    Verified,
    Expired,
}

/// The tokens that one request to the language model used.
#[derive(Debug, Clone, Copy, PartialEq, Eq)]
pub struct UsageStats {
    pub prompt_tokens: i32,
    pub completion_tokens: i32,
    pub total_tokens: i32,
}

/// The credits that a user needs to have before a request is served.
pub const MIN_CREDITS: i32 = 5;

/// The credits that a new user starts with.
pub const STARTING_CREDITS: i32 = 50;

/// The credits that the service's owner starts with.
pub const OWNER_CREDITS: i32 = 999999;

impl UserRole {
    /// The roles that are never charged.
    pub open spec fn is_staff(self) -> bool {
        self is SuperAdmin || self is Admin || self is Team
    }

    /// Whether the role is never charged.
    pub fn has_free_pass(&self) -> (free: bool)
        ensures
            free == self.is_staff(),
    {
        match self {
            UserRole::SuperAdmin => true,
            UserRole::Admin => true,
            UserRole::Team => true,
            _ => false,
        }
    }

    /// The name of the role in the service's records.
    pub open spec fn name_of(self) -> Seq<char> {
        match self {
            UserRole::SuperAdmin => "super_admin"@,
            UserRole::Admin => "admin"@,
            UserRole::Team => "team"@,
            UserRole::Pro => "pro"@,
            UserRole::Free => "free"@,
        }
    }

    /// The name of the role in the service's records.
    pub fn name(&self) -> (name: &'static str)
        ensures
            name@ == self.name_of(),
    {
        match self {
            UserRole::SuperAdmin => "super_admin",
            UserRole::Admin => "admin",
            UserRole::Team => "team",
            UserRole::Pro => "pro",
            UserRole::Free => "free",
        }
    }

    /// The role that a recorded name stands for, if it is the name of a
    /// role.
    pub fn from_name(text: &str) -> (role: Option<UserRole>)
        ensures
            match role {
                Some(found) => found.name_of() == text@,
                None => forall|any: UserRole| any.name_of() != text@,
            },
    {
        if text_eq(text, "super_admin") {
            Some(UserRole::SuperAdmin)
        } else if text_eq(text, "admin") {
            Some(UserRole::Admin)
        } else if text_eq(text, "team") {
            Some(UserRole::Team)
        } else if text_eq(text, "pro") {
            Some(UserRole::Pro)
        } else if text_eq(text, "free") {
            Some(UserRole::Free)
        } else {
            None
        }
    }
}

impl DeviceStatus {
    /// The status that a recorded status text stands for: anything but
    /// `verified` and `expired` is pending.
    pub open spec fn of_text(text: Seq<char>) -> DeviceStatus {
        if text == "verified"@ {
            DeviceStatus::Verified
        } else if text == "expired"@ {
            DeviceStatus::Expired
        } else {
            DeviceStatus::Pending
        }
    }

    /// Reads a recorded status text.
    pub fn from_text(text: &str) -> (status: DeviceStatus)
        ensures
            status == DeviceStatus::of_text(text@),
    {
        if text_eq(text, "verified") {
            DeviceStatus::Verified
        } else if text_eq(text, "expired") {
            DeviceStatus::Expired
        } else {
            DeviceStatus::Pending
        }
    }
}

impl UsageStats {
    /// The usage of a request of which the model reported none.
    pub fn none() -> (usage: UsageStats)
        ensures
            usage == (UsageStats { prompt_tokens: 0, completion_tokens: 0, total_tokens: 0 }),
    {
        UsageStats { prompt_tokens: 0, completion_tokens: 0, total_tokens: 0 }
    }
}

/// Whether a user may be served: staff always, anyone else with at least
/// [`MIN_CREDITS`] credits.
pub fn has_sufficient_credits(role: UserRole, credits: i32) -> (enough: bool)
    ensures
        enough == (role.is_staff() || credits >= MIN_CREDITS),
{
    role.has_free_pass() || credits >= MIN_CREDITS
}

/// The credits to take for a request whose cost came to `computed`
/// credits.
pub open spec fn charge_of(role: UserRole, computed: i32) -> i32 {
    if role.is_staff() {
        0
    } else if computed < 1 {
        1
    } else {
        computed
    }
}

/// The credits to take for a request whose cost came to `computed`
/// credits: nothing from staff, at least one credit from anyone else.
pub fn credits_to_charge(role: UserRole, computed: i32) -> (charge: i32)
    ensures
        charge == charge_of(role, computed),
        role.is_staff() <==> charge == 0,
{
    if role.has_free_pass() {
        0
    } else if computed < 1 {
        1
    } else {
        computed
    }
}

/// The wallet is the one that the service is configured to treat as its
/// owner's. An empty configuration names no owner.
pub fn is_super_admin_wallet(wallet: &str, configured: &str) -> (owner: bool)
    ensures
        owner == (wallet@ == configured@ && configured@.len() > 0),
{
    text_eq(wallet, configured) && !configured.is_empty()
}

/// Whether a known user is to be made the owner: the wallet is the
/// owner's and the user is not the owner yet.
pub fn needs_promotion(is_owner: bool, role: UserRole) -> (promote: bool)
    ensures
        promote == (is_owner && !(role is SuperAdmin)),
{
    match role {
        UserRole::SuperAdmin => false,
        _ => is_owner,
    }
}

/// The role and the credits that a new user starts with.
pub fn starting_grant(is_owner: bool) -> (grant: (UserRole, i32))
    ensures
        grant == if is_owner {
            (UserRole::SuperAdmin, OWNER_CREDITS)
        } else {
            (UserRole::Free, STARTING_CREDITS)
        },
{
    if is_owner {
        (UserRole::SuperAdmin, OWNER_CREDITS)
    } else {
        (UserRole::Free, STARTING_CREDITS)
    }
}

/// The model's name marks it as one of the large, dearer models.
pub open spec fn is_premium_name(model: Seq<char>) -> bool {
    contains_seq(model, "max"@) || contains_seq(model, "gpt-4"@) || contains_seq(model, "opus"@)
}

/// Whether a model is charged at the rate of the large models.
pub fn is_premium_model(model: &str) -> (premium: bool)
    ensures
        premium == is_premium_name(model@),
{
    let name = chars_of(model);
    contains_chars(&name, &chars_of("max")) || contains_chars(&name, &chars_of("gpt-4"))
        || contains_chars(&name, &chars_of("opus"))
}

} // verus!
