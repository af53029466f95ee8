//! Device logins as the planning service sees them: what it is asked,
//! and what it answers.

use vstd::prelude::*;
use vstd::string::*;
use crate::service::models::DeviceStatus;
use crate::text::{decimal, decimal_of};

verus! {

/// The seconds for which a device code stays valid.
pub const CODE_LIFETIME_SECS: i64 = 600;

/// The seconds that a client waits between two polls.
pub const POLL_INTERVAL_SECS: u64 = 5;

/// A request to start a device login.
#[derive(Debug, Clone, PartialEq, Eq)]
pub struct DeviceInitRequest {
    pub client_id: Option<String>,
}

/// A request to hear how a device login stands.
#[derive(Debug, Clone, PartialEq, Eq)]
pub struct DevicePollRequest {
    pub device_code: String,
}

/// A request to verify a device login for a wallet.
#[derive(Debug, Clone, PartialEq, Eq)]
pub struct DeviceVerifyRequest {
    pub user_code: String,
    pub wallet_address: String,
    pub message: String,
    pub signature: String,
}

/// The answer to a [`DeviceInitRequest`].
#[derive(Debug, Clone, PartialEq, Eq)]
pub struct InitiateDeviceFlowResponse {
    pub device_code: String,
    pub user_code: String,
    pub verification_uri: String,
    pub expires_in: i64,
    pub interval: u64,
}

/// The mathematical value of an [`InitiateDeviceFlowResponse`].
pub struct InitiateDeviceFlowResponseView {
    pub device_code: Seq<char>,
    pub user_code: Seq<char>,
    pub verification_uri: Seq<char>,
    pub expires_in: i64,
    pub interval: u64,
}

impl View for InitiateDeviceFlowResponse {
    type V = InitiateDeviceFlowResponseView;

    open spec fn view(&self) -> InitiateDeviceFlowResponseView {
        InitiateDeviceFlowResponseView {
            device_code: self.device_code@,
            user_code: self.user_code@,
            verification_uri: self.verification_uri@,
            expires_in: self.expires_in,
            interval: self.interval,
        }
    }
}

/// The answer to a [`DevicePollRequest`] for a code that is known.
#[derive(Debug, Clone, PartialEq, Eq)]
pub struct PollAnswer {
    pub status: DeviceStatus,
    /// The token of the session, once the login is verified.
    pub token: Option<String>,
    /// The wallet that verified the login.
    pub wallet: Option<String>,
}

/// The mathematical value of a [`PollAnswer`].
pub struct PollAnswerView {
    pub status: DeviceStatus,
    pub token: Option<Seq<char>>,
    pub wallet: Option<Seq<char>>,
}

impl View for PollAnswer {
    type V = PollAnswerView;

    open spec fn view(&self) -> PollAnswerView {
        PollAnswerView {
            status: self.status,
            token: self.token.deep_view(),
            wallet: self.wallet.deep_view(),
        }
    }
}

/// The token of the session of a wallet.
pub open spec fn session_token_of(wallet: Seq<char>) -> Seq<char> {
    "neurust_jwt_"@ + wallet
}

/// The answer to a poll for a login that stands at `status`. A verified
/// login tells its wallet (none counts as the empty one) and the token of
/// its session; any other tells its status alone.
pub open spec fn poll_answer_of(status: DeviceStatus, wallet: Option<Seq<char>>) -> PollAnswerView {
    match status {
        DeviceStatus::Verified => {
            let known = match wallet {
                Some(address) => address,
                None => Seq::empty(),
            };
            PollAnswerView {
                status: DeviceStatus::Verified,
                token: Some(session_token_of(known)),
                wallet: Some(known),
            }
        },
        other => PollAnswerView { status: other, token: None, wallet: None },
    }
}

impl InitiateDeviceFlowResponse {
    /// The answer to a request to start a login: the codes, the page at
    /// `client_url` to enter the user code on, and the times to keep.
    pub fn new(device_code: String, user_code: String, client_url: &str) -> (response:
        InitiateDeviceFlowResponse)
        ensures
            response@ == (InitiateDeviceFlowResponseView {
                device_code: device_code@,
                user_code: user_code@,
                verification_uri: client_url@ + "/login"@,
                expires_in: CODE_LIFETIME_SECS,
                interval: POLL_INTERVAL_SECS,
            }),
    {
        let mut verification_uri = String::from_str(client_url);
        verification_uri.append("/login");
        InitiateDeviceFlowResponse {
            device_code,
            user_code,
            verification_uri,
            expires_in: CODE_LIFETIME_SECS,
            interval: POLL_INTERVAL_SECS,
        }
    }
}

/// The answer to a poll for a login that stands at `status` and was
/// verified, if it was, for `wallet`.
pub fn poll_answer(status: DeviceStatus, wallet: Option<String>) -> (answer: PollAnswer)
    ensures
        answer@ == poll_answer_of(status, wallet.deep_view()),
{
    match status {
        DeviceStatus::Verified => {
            let known = match wallet {
                Some(address) => address,
                None => String::new(),
            };
            let mut token = String::from_str("neurust_jwt_");
            token.append(known.as_str());
            PollAnswer { status: DeviceStatus::Verified, token: Some(token), wallet: Some(known) }
        },
        DeviceStatus::Pending => PollAnswer {
            status: DeviceStatus::Pending,
            token: None,
            wallet: None,
        },
        DeviceStatus::Expired => PollAnswer {
            status: DeviceStatus::Expired,
            token: None,
            wallet: None,
        },
    }
}

/// The smallest part of a user code.
pub const CODE_PART_MIN: u16 = 1000;

/// The bound that the parts of a user code stay below.
pub const CODE_PART_BOUND: u16 = 10000;

/// The user code made of two parts: the parts in decimal digits with a
/// hyphen between them.
pub open spec fn user_code_of(first: u16, second: u16) -> Seq<char> {
    decimal_of(first as nat) + "-"@ + decimal_of(second as nat)
}

/// Calls `rand::rng` and `Rng::random_range` on the half-open range from
/// `low` to `high`: some number of that range, which differs from call
/// to call. `rand` panics on an empty range.
#[verifier::external_body]
pub(crate) fn random_between(low: u16, high: u16) -> (picked: u16)
    requires
        low < high,
    ensures
        low <= picked < high,
{
    rand::Rng::random_range(&mut rand::rng(), low..high)
}

/// A digit of a number written to base sixteen in lower case.
pub open spec fn is_lower_hex(c: char) -> bool {
    ('0' <= c && c <= '9') || ('a' <= c && c <= 'f')
}

/// The shape of a random identifier as text: thirty-two digits to base
/// sixteen in lower case, in groups of eight, four, four, four and twelve
/// with a hyphen between one group and the next. The first digit of the
/// third group is `4`, the mark of an identifier made by chance; the
/// first digit of the fourth group is `8`, `9`, `a` or `b`.
pub open spec fn is_random_identifier(code: Seq<char>) -> bool {
    &&& code.len() == 36
    &&& forall|i: int|
        #![trigger code[i]]
        0 <= i < 36 ==> if i == 8 || i == 13 || i == 18 || i == 23 {
            code[i] == '-'
        } else {
            is_lower_hex(code[i])
        }
    &&& code[14] == '4'
    &&& (code[19] == '8' || code[19] == '9' || code[19] == 'a' || code[19] == 'b')
}

/// Calls `uuid::Uuid::new_v4` and writes the identifier out with its
/// `Display`: an identifier that differs from call to call. Which one
/// comes is not claimed, only its shape: `new_v4` sets the version to
/// four and the variant to that of the standard, and `Display` writes
/// the hyphenated form in lower case.
#[verifier::external_body]
pub(crate) fn random_identifier() -> (code: String)
    ensures
        is_random_identifier(code@),
{
    uuid::Uuid::new_v4().to_string()
}

/// The user code made of two parts.
pub fn user_code(first: u16, second: u16) -> (code: String)
    ensures
        code@ == user_code_of(first, second),
{
    let mut code = decimal(first as u64);
    code.append("-");
    code.append(decimal(second as u64).as_str());
    code
}

/// A new user code: two random parts of four digits each.
pub fn generate_user_code() -> (code: String)
    ensures
        exists|first: u16, second: u16|
            CODE_PART_MIN <= first < CODE_PART_BOUND && CODE_PART_MIN <= second < CODE_PART_BOUND
                && code@ == user_code_of(first, second),
{
    let first = random_between(CODE_PART_MIN, CODE_PART_BOUND);
    let second = random_between(CODE_PART_MIN, CODE_PART_BOUND);
    user_code(first, second)
}

/// A new device code: a random identifier, written as text.
pub fn generate_device_code() -> (code: String)
    ensures
        is_random_identifier(code@),
{
    random_identifier()
}

} // verus!
