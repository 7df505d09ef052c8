//! How a connect session comes by its credentials: from the cache where it
//! holds them, else from a pairing with a remote client, which this module
//! steers step by step while the embedding program does the advertising,
//! the waiting and the network calls.

use crate::error::ConnectError;
use vstd::prelude::*;
use vstd::string::*;

verus! {

/// Upper bound of the content cache in bytes: four gigabytes.
pub const CACHE_LIMIT_BYTES: u64 = 4_000_000_000;

/// Seconds that a pairing waits for a remote client.
pub const PAIRING_TIMEOUT_SECS: u64 = 300;

/// Client identifier under which the device advertises itself for pairing.
pub fn pairing_client_id() -> (id: String)
    ensures
        id@ == "fa-63-0e-75-00-01"@,
{
    String::from_str("fa-63-0e-75-00-01")
}

/// What a look into the credential cache found.
#[derive(Clone, Copy, Debug, PartialEq, Eq, Structural)]
pub enum CacheProbe {
    /// The cache could not be opened.
    Unavailable,
    /// The cache is open and holds no credentials.
    Empty,
    /// The cache holds credentials.
    Holds,
}

/// How the credentials of a session are to be had.
#[derive(Clone, Copy, Debug, PartialEq, Eq, Structural)]
pub enum CredentialPlan {
    /// Use what the cache holds.
    UseCached,
    /// Pair with a remote client. Where `persist` is set the credentials are
    /// validated and stored in the cache directory, else they serve this run
    /// only.
    Pair { persist: bool },
}

/// The plan that a cache lookup leads to: a hit is used as it is, a miss
/// leads to a pairing, which persists its result only where the cache is
/// open and has a directory to keep it in.
pub open spec fn spec_resolve_credentials(probe: CacheProbe, has_cache_dir: bool) -> CredentialPlan {
    match probe {
        CacheProbe::Holds => CredentialPlan::UseCached,
        CacheProbe::Empty => CredentialPlan::Pair { persist: has_cache_dir },
        CacheProbe::Unavailable => CredentialPlan::Pair { persist: false },
    }
}

/// Decides how the credentials are to be had, see
/// [`spec_resolve_credentials`].
pub fn resolve_credentials(probe: CacheProbe, has_cache_dir: bool) -> (plan: CredentialPlan)
    ensures
        plan == spec_resolve_credentials(probe, has_cache_dir),
{
    match probe {
        CacheProbe::Holds => CredentialPlan::UseCached,
        CacheProbe::Empty => CredentialPlan::Pair { persist: has_cache_dir },
        CacheProbe::Unavailable => CredentialPlan::Pair { persist: false },
    }
}

/// Whether `c` is a digit of lower-case hexadecimal notation.
pub open spec fn is_lower_hex(c: char) -> bool {
    ('0' <= c && c <= '9') || ('a' <= c && c <= 'f')
}

/// Whether `text` has the hyphenated form of a UUID: 36 characters, hyphens
/// after the groups of 8, 4, 4 and 4 digits, lower-case hexadecimal digits
/// elsewhere.
pub open spec fn is_hyphenated_uuid(text: Seq<char>) -> bool {
    &&& text.len() == 36
    &&& forall|i: int|
        0 <= i < 36 ==> if i == 8 || i == 13 || i == 18 || i == 23 {
            #[trigger] text[i] == '-'
        } else {
            is_lower_hex(text[i])
        }
}

/// The device identifier made from `text`: the prefix `aoede-` and the
/// first eight characters of `text`, or all of them where there are fewer.
pub open spec fn spec_device_id(text: Seq<char>) -> Seq<char> {
    "aoede-"@ + text.take(
        if text.len() < 8 {
            text.len() as int
        } else {
            8
        },
    )
}

/// Makes a device identifier from the text of a unique identifier, see
/// [`spec_device_id`].
pub fn device_id_from(text: &str) -> (id: String)
    ensures
        id@ == spec_device_id(text@),
{
    let len = text.unicode_len();
    let keep: usize = if len < 8 {
        len
    } else {
        8
    };
    let head = text.substring_char(0, keep);
    proof {
        assert(text@.subrange(0, keep as int) =~= text@.take(keep as int));
    }
    String::from_str("aoede-").concat(head)
}

/// A device identifier that no earlier call is known to have returned:
/// `aoede-` and eight hexadecimal digits drawn at random.
pub fn fresh_device_id() -> (id: String)
    ensures
        id@.len() == 14,
        id@.take(6) == "aoede-"@,
        forall|i: int| 6 <= i < 14 ==> is_lower_hex(#[trigger] id@[i]),
{
    let text = random_uuid_text();
    let id = device_id_from(text.as_str());
    proof {
        reveal_strlit("aoede-");
        assert(id@.take(6) =~= "aoede-"@);
        assert forall|i: int| 6 <= i < 14 implies is_lower_hex(#[trigger] id@[i]) by {
            assert(id@[i] == text@[i - 6]);
        }
    }
    id
}

/// Where a pairing stands.
#[derive(Clone, Copy, Debug, PartialEq, Eq, Structural)]
pub enum PairingState {
    /// Nothing was started.
    Idle,
    /// The device is advertised and waits for a remote client.
    Advertising,
    /// Credentials arrived and are being validated and stored.
    Validating,
    /// The pairing gave credentials; `saved` tells whether they were stored.
    Paired { saved: bool },
    /// The pairing gave no credentials.
    Failed,
}

/// What the embedding program reports to a pairing.
#[derive(Clone, Copy, Debug, PartialEq, Eq, Structural)]
pub enum PairingEvent {
    /// The caller wants credentials.
    Begin,
    /// Advertising could not be started.
    LaunchFailed,
    /// A remote client supplied credentials.
    CredentialsReceived,
    /// The wait for a remote client ran out.
    TimedOut,
    /// A session was established with the credentials, which stored them.
    Validated,
    /// The cache could not be opened or the session was refused.
    ValidationFailed,
}

/// What the embedding program is to do next for a pairing.
#[derive(Clone, Copy, Debug, PartialEq, Eq, Structural)]
pub enum PairingAction {
    /// Advertise the device and wait for credentials, no longer than
    /// `timeout_secs`.
    Advertise { timeout_secs: u64 },
    /// Open the cache, establish a session with the credentials and let it
    /// store them.
    Validate,
    /// Hand the credentials to the caller.
    Finish { saved: bool },
    /// Give up with this error.
    Fail(ConnectError),
    /// The event does not belong to the state of the pairing; nothing is to
    /// be done.
    Ignore,
}

/// The transition of a pairing that persists its credentials or not.
pub open spec fn pairing_step(state: PairingState, persist: bool, event: PairingEvent) -> (
    PairingState,
    PairingAction,
) {
    match (state, event) {
        (PairingState::Idle, PairingEvent::Begin) => (
            PairingState::Advertising,
            PairingAction::Advertise { timeout_secs: PAIRING_TIMEOUT_SECS },
        ),
        (PairingState::Advertising, PairingEvent::CredentialsReceived) => if persist {
            (PairingState::Validating, PairingAction::Validate)
        } else {
            (PairingState::Paired { saved: false }, PairingAction::Finish { saved: false })
        },
        (PairingState::Advertising, PairingEvent::LaunchFailed) => (
            PairingState::Failed,
            PairingAction::Fail(ConnectError::AuthenticationFailed),
        ),
        (PairingState::Advertising, PairingEvent::TimedOut) => (
            PairingState::Failed,
            PairingAction::Fail(ConnectError::AuthenticationFailed),
        ),
        (PairingState::Validating, PairingEvent::Validated) => (
            PairingState::Paired { saved: true },
            PairingAction::Finish { saved: true },
        ),
        (PairingState::Validating, PairingEvent::ValidationFailed) => (
            PairingState::Failed,
            PairingAction::Fail(ConnectError::AuthenticationFailed),
        ),
        _ => (state, PairingAction::Ignore),
    }
}

/// One interactive pairing: the identity under which the device advertises
/// itself, where the credentials are to be kept, and how far it has got.
pub struct PairingFlow {
    state: PairingState,
    cache_dir: Option<String>,
    device_name: String,
    device_id: String,
}

impl PairingFlow {
    /// How far the pairing has got.
    pub closed spec fn state(&self) -> PairingState {
        self.state
    }

    /// Whether the credentials are validated and stored.
    pub closed spec fn persists(&self) -> bool {
        self.cache_dir.is_some()
    }

    /// The directory that the credentials are stored in, if any.
    pub closed spec fn spec_cache_dir(&self) -> Option<String> {
        self.cache_dir
    }

    /// The name that the device shows to remote clients.
    pub closed spec fn spec_device_name(&self) -> Seq<char> {
        self.device_name@
    }

    /// The identifier that the device advertises.
    pub closed spec fn spec_device_id(&self) -> Seq<char> {
        self.device_id@
    }

    /// A pairing that has not begun, for a device `device_name` known to
    /// clients as `device_id`, which stores its credentials in `cache_dir`
    /// where that is given.
    pub fn new(cache_dir: Option<String>, device_name: String, device_id: String) -> (flow: Self)
        ensures
            flow.state() == PairingState::Idle,
            flow.spec_cache_dir() == cache_dir,
            flow.persists() == cache_dir.is_some(),
            flow.spec_device_name() == device_name@,
            flow.spec_device_id() == device_id@,
    {
        PairingFlow { state: PairingState::Idle, cache_dir, device_name, device_id }
    }

    /// How far the pairing has got.
    pub fn current(&self) -> (state: PairingState)
        ensures
            state == self.state(),
    {
        self.state
    }

    /// The directory that the credentials are stored in, if any.
    pub fn cache_dir(&self) -> (dir: &Option<String>)
        ensures
            *dir == self.spec_cache_dir(),
    {
        &self.cache_dir
    }

    /// The name that the device shows to remote clients.
    pub fn device_name(&self) -> (name: &str)
        ensures
            name@ == self.spec_device_name(),
    {
        self.device_name.as_str()
    }

    /// The identifier that the device advertises.
    pub fn device_id(&self) -> (id: &str)
        ensures
            id@ == self.spec_device_id(),
    {
        self.device_id.as_str()
    }

    /// Takes an event and says what is to be done next, see
    /// [`pairing_step`]. Identity and cache directory stay as they are.
    pub fn step(&mut self, event: PairingEvent) -> (action: PairingAction)
        ensures
            (final(self).state(), action) == pairing_step(
                old(self).state(),
                old(self).persists(),
                event,
            ),
            final(self).spec_cache_dir() == old(self).spec_cache_dir(),
            final(self).persists() == old(self).persists(),
            final(self).spec_device_name() == old(self).spec_device_name(),
            final(self).spec_device_id() == old(self).spec_device_id(),
    {
        let persist = self.cache_dir.is_some();
        let (next, action) = match (self.state, event) {
            (PairingState::Idle, PairingEvent::Begin) => (
                PairingState::Advertising,
                PairingAction::Advertise { timeout_secs: PAIRING_TIMEOUT_SECS },
            ),
            (PairingState::Advertising, PairingEvent::CredentialsReceived) => {
                if persist {
                    (PairingState::Validating, PairingAction::Validate)
                } else {
                    (PairingState::Paired { saved: false }, PairingAction::Finish { saved: false })
                }
            },
            (PairingState::Advertising, PairingEvent::LaunchFailed) => (
                PairingState::Failed,
                PairingAction::Fail(ConnectError::AuthenticationFailed),
            ),
            (PairingState::Advertising, PairingEvent::TimedOut) => (
                PairingState::Failed,
                PairingAction::Fail(ConnectError::AuthenticationFailed),
            ),
            (PairingState::Validating, PairingEvent::Validated) => (
                PairingState::Paired { saved: true },
                PairingAction::Finish { saved: true },
            ),
            (PairingState::Validating, PairingEvent::ValidationFailed) => (
                PairingState::Failed,
                PairingAction::Fail(ConnectError::AuthenticationFailed),
            ),
            (state, _) => (state, PairingAction::Ignore),
        };
        self.state = next;
        action
    }
}

/// A pairing ends with credentials or with `AuthenticationFailed`, and with
/// nothing else. Credentials that were to be stored are handed out only
/// after they were, and once the pairing has ended no event moves it.
pub proof fn lemma_pairing_outcomes(state: PairingState, persist: bool, event: PairingEvent)
    ensures
        pairing_step(state, persist, event).1 matches PairingAction::Fail(error) ==> error
            == ConnectError::AuthenticationFailed && pairing_step(state, persist, event).0
            == PairingState::Failed,
        pairing_step(state, persist, event).1 matches PairingAction::Finish { saved }
            ==> pairing_step(state, persist, event).0 == (PairingState::Paired { saved }),
        (state is Validating ==> persist) ==> (pairing_step(state, persist, event).1
            matches PairingAction::Finish { saved } ==> saved == persist),
        (state is Paired || state is Failed) ==> pairing_step(state, persist, event) == (
            state,
            PairingAction::Ignore,
        ),
{
}

/// `uuid::Uuid::new_v4` followed by the `to_string` of its `Display` impl:
/// a random identifier in hyphenated lower-case form. Which identifier comes
/// out is not stated; two calls may, and almost surely do, differ.
#[verifier::external_body]
fn random_uuid_text() -> (text: String)
    ensures
        is_hyphenated_uuid(text@),
{
    uuid::Uuid::new_v4().to_string()
}

} // verus!
