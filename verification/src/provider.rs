//! The two shock providers behind one face: whose credentials are needed,
//! which targets an account has, and which command a target gets.

use vstd::prelude::*;
use vstd::std_specs::cmp::PartialEqSpecImpl;

use crate::pishock::{same_device, Credentials, Device, Error};
use crate::text::{
    blank, decimal, decimal_text, is_blank, occurs, occurs_at, quoted, quoted_text, trim, trimmed,
    trimming_takes_white_space_alone, white_space,
};

verus! {

/// The name under which commands are sent.
pub const SENDER_NAME: &'static str = "deadlockshock-companion";

/// The length of a test sound in nanoseconds: one second.
pub const TEST_SOUND_DURATION: u64 = 1_000_000_000;

/// A shock provider.
#[derive(Clone, Copy, Debug, Eq, PartialEq, Structural)]
pub enum ProviderKind {
    PiShock,
    OpenShock,
}

impl Default for ProviderKind {
    fn default() -> (kind: Self)
        ensures
            kind == ProviderKind::PiShock,
    {
        ProviderKind::PiShock
    }
}

impl ProviderKind {
    /// The provider's name.
    pub open spec fn name(self) -> Seq<char> {
        match self {
            ProviderKind::PiShock => "PiShock"@,
            ProviderKind::OpenShock => "OpenShock"@,
        }
    }

    /// The provider's name.
    pub fn label(self) -> (label: &'static str)
        ensures
            label@ == self.name(),
    {
        match self {
            ProviderKind::PiShock => "PiShock",
            ProviderKind::OpenShock => "OpenShock",
        }
    }
}

/// What a user entered to log in with either provider.
///
/// The debug text shows the username alone.
#[derive(Clone)]
pub struct ProviderCredentials {
    pub pishock_username: String,
    pub pishock_api_key: String,
    pub openshock_token: String,
}

impl Default for ProviderCredentials {
    fn default() -> (credentials: Self)
        ensures
            credentials.pishock_username@ == Seq::<char>::empty(),
            credentials.pishock_api_key@ == Seq::<char>::empty(),
            credentials.openshock_token@ == Seq::<char>::empty(),
    {
        Self {
            pishock_username: String::new(),
            pishock_api_key: String::new(),
            openshock_token: String::new(),
        }
    }
}

/// Whether everything that a provider's login needs was entered.
pub open spec fn login_complete(
    provider: ProviderKind,
    username: Seq<char>,
    api_key: Seq<char>,
    token: Seq<char>,
) -> bool {
    match provider {
        ProviderKind::PiShock => !blank(username) && !blank(api_key),
        ProviderKind::OpenShock => !blank(token),
    }
}

/// The debug text of credentials: a function of the username alone.
pub open spec fn provider_credentials_debug(username: Seq<char>) -> Seq<char> {
    "ProviderCredentials { pishock_username: "@ + quoted(username)
        + ", pishock_api_key: \"[REDACTED]\", openshock_token: \"[REDACTED]\" }"@
}

impl ProviderCredentials {
    /// Whether everything that the provider's login needs was entered.
    pub fn present(&self, provider: ProviderKind) -> (present: bool)
        ensures
            present == login_complete(
                provider,
                self.pishock_username@,
                self.pishock_api_key@,
                self.openshock_token@,
            ),
    {
        match provider {
            ProviderKind::PiShock => !is_blank(self.pishock_username.as_str()) && !is_blank(
                self.pishock_api_key.as_str(),
            ),
            ProviderKind::OpenShock => !is_blank(self.openshock_token.as_str()),
        }
    }

    /// Renders the credentials for diagnostics, without key and token.
    pub fn debug_text(&self) -> (text: String)
        ensures
            text@ == provider_credentials_debug(self.pishock_username@),
    {
        let username = quoted_text(self.pishock_username.as_str());
        "ProviderCredentials { pishock_username: ".to_owned().concat(username.as_str()).concat(
            ", pishock_api_key: \"[REDACTED]\", openshock_token: \"[REDACTED]\" }",
        )
    }
}

/// What identifies a target with its provider.
#[derive(Clone, Debug)]
pub enum TargetId {
    PiShock(u64),
    OpenShock(String),
}

impl PartialEqSpecImpl for TargetId {
    open spec fn obeys_eq_spec() -> bool {
        true
    }

    open spec fn eq_spec(&self, other: &Self) -> bool {
        same_id(*self, *other)
    }
}

impl PartialEq for TargetId {
    fn eq(&self, other: &Self) -> (equal: bool) {
        match (self, other) {
            (TargetId::PiShock(a), TargetId::PiShock(b)) => *a == *b,
            (TargetId::OpenShock(a), TargetId::OpenShock(b)) => *a == *b,
            _ => false,
        }
    }
}

impl Eq for TargetId {

}

/// Whether two identifiers name the same target.
pub open spec fn same_id(a: TargetId, b: TargetId) -> bool {
    match (a, b) {
        (TargetId::PiShock(a), TargetId::PiShock(b)) => a == b,
        (TargetId::OpenShock(a), TargetId::OpenShock(b)) => a@ == b@,
        _ => false,
    }
}

impl TargetId {
    /// The provider that the target belongs to.
    pub open spec fn provider(self) -> ProviderKind {
        match self {
            TargetId::PiShock(_) => ProviderKind::PiShock,
            TargetId::OpenShock(_) => ProviderKind::OpenShock,
        }
    }

    /// Whether the identifier holds anything to be seen.
    pub open spec fn visible(self) -> bool {
        match self {
            TargetId::PiShock(_) => true,
            TargetId::OpenShock(id) => !blank(id@),
        }
    }

    /// Decides whether the identifier holds anything to be seen.
    pub fn is_visible(&self) -> (visible: bool)
        ensures
            visible == self.visible(),
    {
        match self {
            TargetId::PiShock(_) => true,
            TargetId::OpenShock(id) => !is_blank(id.as_str()),
        }
    }

    /// The debug text of the identifier.
    pub open spec fn debug(self) -> Seq<char> {
        match self {
            TargetId::PiShock(id) => "PiShock("@ + decimal(id as nat) + ")"@,
            TargetId::OpenShock(id) => "OpenShock("@ + quoted(id@) + ")"@,
        }
    }

    /// Renders the identifier for diagnostics.
    pub fn debug_text(&self) -> (text: String)
        ensures
            text@ == self.debug(),
    {
        match self {
            TargetId::PiShock(id) => {
                let number = decimal_text(*id as u128);
                "PiShock(".to_owned().concat(number.as_str()).concat(")")
            },
            TargetId::OpenShock(id) => {
                let shown = quoted_text(id.as_str());
                "OpenShock(".to_owned().concat(shown.as_str()).concat(")")
            },
        }
    }

    /// A copy of the identifier.
    pub fn duplicate(&self) -> (copy: Self)
        ensures
            copy == *self,
    {
        match self {
            TargetId::PiShock(id) => TargetId::PiShock(*id),
            TargetId::OpenShock(id) => TargetId::OpenShock(id.clone()),
        }
    }
}

/// An OpenShock device group.
#[derive(Clone, Debug, Eq, PartialEq)]
pub struct DeviceGroup {
    pub id: String,
    pub name: String,
}

impl DeviceGroup {
    /// A copy of the group.
    pub fn duplicate(&self) -> (copy: Self)
        ensures
            copy == *self,
    {
        DeviceGroup { id: self.id.clone(), name: self.name.clone() }
    }
}

/// What the provider reported of a target.
#[derive(Clone)]
pub enum TargetData {
    PiShock(Device),
    OpenShock(DeviceGroup),
}

/// Whether two reports say the same.
pub open spec fn same_data(a: TargetData, b: TargetData) -> bool {
    match (a, b) {
        (TargetData::PiShock(a), TargetData::PiShock(b)) => same_device(a, b),
        (TargetData::OpenShock(a), TargetData::OpenShock(b)) => a == b,
        _ => false,
    }
}

impl TargetData {
    /// A copy of the report.
    pub fn duplicate(&self) -> (copy: Self)
        ensures
            same_data(copy, *self),
    {
        match self {
            TargetData::PiShock(device) => TargetData::PiShock(device.duplicate()),
            TargetData::OpenShock(group) => TargetData::OpenShock(group.duplicate()),
        }
    }
}

/// Something of an account that can be made to act.
#[derive(Clone)]
pub struct ProviderTarget {
    pub id: TargetId,
    pub name: String,
    pub data: Option<TargetData>,
}

impl PartialEqSpecImpl for ProviderTarget {
    open spec fn obeys_eq_spec() -> bool {
        true
    }

    open spec fn eq_spec(&self, other: &Self) -> bool {
        same_id(self.id, other.id) && self.name@ == other.name@
    }
}

impl PartialEq for ProviderTarget {
    fn eq(&self, other: &Self) -> (equal: bool) {
        self.id == other.id && self.name == other.name
    }
}

impl Eq for ProviderTarget {

}

/// Whether two values describe the same target, with the same report.
pub open spec fn same_target(a: ProviderTarget, b: ProviderTarget) -> bool {
    &&& a.id == b.id
    &&& a.name == b.name
    &&& match (a.data, b.data) {
        (Some(a), Some(b)) => same_data(a, b),
        (None, None) => true,
        _ => false,
    }
}

impl ProviderTarget {
    /// A target of which nothing but identifier and name is known.
    pub fn new(id: TargetId, name: &str) -> (target: Self)
        ensures
            target.id == id,
            target.name@ == name@,
            target.data is None,
    {
        Self { id, name: name.to_owned(), data: None }
    }

    /// What identifies the target.
    pub fn id(&self) -> (id: &TargetId)
        ensures
            *id == self.id,
    {
        &self.id
    }

    /// The target's display name.
    pub fn name(&self) -> (name: &str)
        ensures
            name@ == self.name@,
    {
        self.name.as_str()
    }

    /// Renders the target for diagnostics, without the provider's report.
    pub fn debug_text(&self) -> (text: String)
        ensures
            text@ == "ProviderTarget { id: "@ + self.id.debug() + ", name: "@ + quoted(self.name@)
                + " }"@,
    {
        let id = self.id.debug_text();
        let name = quoted_text(self.name.as_str());
        "ProviderTarget { id: ".to_owned().concat(id.as_str()).concat(", name: ").concat(
            name.as_str(),
        ).concat(" }")
    }

    /// A copy of the target.
    pub fn duplicate(&self) -> (copy: Self)
        ensures
            same_target(copy, *self),
    {
        let data = match &self.data {
            Some(data) => Some(data.duplicate()),
            None => None,
        };
        ProviderTarget { id: self.id.duplicate(), name: self.name.clone(), data }
    }
}

/// A failure of an OpenShock client, in its own words.
#[derive(Debug, Eq, PartialEq)]
pub struct OpenShockError {
    pub message: String,
}

/// A failure of either provider.
#[derive(Debug, Eq, PartialEq)]
pub enum ProviderError {
    PiShock(Error),
    OpenShock(OpenShockError),
    TargetProviderMismatch,
    NotConnected,
}

impl ProviderError {
    /// The sentence that tells a user of the error.
    pub open spec fn sentence(self) -> Seq<char> {
        match self {
            ProviderError::PiShock(error) => "PiShock: "@ + error.sentence(),
            ProviderError::OpenShock(error) => "OpenShock: "@ + error.message@,
            ProviderError::TargetProviderMismatch =>
                "provider target does not belong to the active provider"@,
            ProviderError::NotConnected => "no provider is connected"@,
        }
    }

    /// Renders the error for a user.
    pub fn to_text(&self) -> (text: String)
        ensures
            text@ == self.sentence(),
    {
        match self {
            ProviderError::PiShock(error) => {
                let told = error.to_text();
                "PiShock: ".to_owned().concat(told.as_str())
            },
            ProviderError::OpenShock(error) => {
                "OpenShock: ".to_owned().concat(error.message.as_str())
            },
            ProviderError::TargetProviderMismatch => {
                "provider target does not belong to the active provider".to_owned()
            },
            ProviderError::NotConnected => "no provider is connected".to_owned(),
        }
    }

    /// The word under which the error is logged.
    pub fn kind(&self) -> (kind: &'static str)
        ensures
            kind@ == match *self {
                ProviderError::PiShock(_) => "pishock"@,
                ProviderError::OpenShock(_) => "openshock"@,
                ProviderError::TargetProviderMismatch => "target_provider_mismatch"@,
                ProviderError::NotConnected => "not_connected"@,
            },
    {
        match self {
            ProviderError::PiShock(_) => "pishock",
            ProviderError::OpenShock(_) => "openshock",
            ProviderError::TargetProviderMismatch => "target_provider_mismatch",
            ProviderError::NotConnected => "not_connected",
        }
    }
}

/// What a client has to be opened with.
pub enum Login {
    PiShock { credentials: Credentials, sender: &'static str },
    OpenShock { token: String, sender: &'static str },
}

/// What a client said when it was asked to open or to act.
pub enum ClientReply {
    PiShock(Result<(), Error>),
    OpenShock(Result<(), OpenShockError>),
}

/// What a client said when it was asked for its targets.
pub enum Listing {
    PiShock(Result<Vec<Device>, Error>),
    OpenShock(Result<Vec<DeviceGroup>, OpenShockError>),
}

/// A sound that a client has to make.
pub enum SoundCommand {
    PiShock { device: Device, seconds: u8 },
    OpenShock { group: DeviceGroup, millis: u64 },
}

/// The provider whose client is open.
#[derive(Clone, Copy, Debug, Eq, PartialEq, Structural)]
pub enum ConnectedProvider {
    PiShock,
    OpenShock,
}

impl ConnectedProvider {
    /// The provider that is connected.
    pub open spec fn provider(self) -> ProviderKind {
        match self {
            ConnectedProvider::PiShock => ProviderKind::PiShock,
            ConnectedProvider::OpenShock => ProviderKind::OpenShock,
        }
    }

    /// The provider that is connected.
    pub fn kind(self) -> (kind: ProviderKind)
        ensures
            kind == self.provider(),
    {
        match self {
            ConnectedProvider::PiShock => ProviderKind::PiShock,
            ConnectedProvider::OpenShock => ProviderKind::OpenShock,
        }
    }

    /// What the provider's client has to be opened with: the credentials that
    /// belong to it, without surrounding white space.
    pub fn connect(kind: ProviderKind, credentials: &ProviderCredentials) -> (login: Login)
        ensures
            match login {
                Login::PiShock { credentials: given, sender } => {
                    &&& kind == ProviderKind::PiShock
                    &&& given.username@ == trimmed(credentials.pishock_username@)
                    &&& given.api_key@ == trimmed(credentials.pishock_api_key@)
                    &&& sender@ == SENDER_NAME@
                },
                Login::OpenShock { token, sender } => {
                    &&& kind == ProviderKind::OpenShock
                    &&& token@ == trimmed(credentials.openshock_token@)
                    &&& sender@ == SENDER_NAME@
                },
            },
    {
        match kind {
            ProviderKind::PiShock => {
                let username = trim(credentials.pishock_username.as_str());
                let api_key = trim(credentials.pishock_api_key.as_str());
                Login::PiShock {
                    credentials: Credentials::new(username.as_str(), api_key.as_str()),
                    sender: SENDER_NAME,
                }
            },
            ProviderKind::OpenShock => Login::OpenShock {
                token: trim(credentials.openshock_token.as_str()),
                sender: SENDER_NAME,
            },
        }
    }

    /// The connected provider, once its client was opened.
    pub fn connected(reply: ClientReply) -> (result: Result<Self, ProviderError>)
        ensures
            result == match reply {
                ClientReply::PiShock(Ok(_)) => Ok::<Self, ProviderError>(ConnectedProvider::PiShock),
                ClientReply::OpenShock(Ok(_)) => Ok(ConnectedProvider::OpenShock),
                ClientReply::PiShock(Err(error)) => Err(ProviderError::PiShock(error)),
                ClientReply::OpenShock(Err(error)) => Err(ProviderError::OpenShock(error)),
            },
    {
        match reply {
            ClientReply::PiShock(Ok(_)) => Ok(ConnectedProvider::PiShock),
            ClientReply::OpenShock(Ok(_)) => Ok(ConnectedProvider::OpenShock),
            ClientReply::PiShock(Err(error)) => Err(ProviderError::PiShock(error)),
            ClientReply::OpenShock(Err(error)) => Err(ProviderError::OpenShock(error)),
        }
    }

    /// The targets of the account, in the order in which they were reported.
    pub fn list_targets(listing: Listing) -> (targets: Result<Vec<ProviderTarget>, ProviderError>)
        ensures
            match listing {
                Listing::PiShock(Ok(devices)) => {
                    &&& targets matches Ok(list)
                    &&& list@.len() == devices@.len()
                    &&& forall|i: int|
                        0 <= i < list@.len() ==> pishock_target(devices@[i], #[trigger] list@[i])
                },
                Listing::OpenShock(Ok(groups)) => {
                    &&& targets matches Ok(list)
                    &&& list@.len() == groups@.len()
                    &&& forall|i: int|
                        0 <= i < list@.len() ==> openshock_target(groups@[i], #[trigger] list@[i])
                },
                Listing::PiShock(Err(error)) => targets == Err::<
                    Vec<ProviderTarget>,
                    ProviderError,
                >(ProviderError::PiShock(error)),
                Listing::OpenShock(Err(error)) => targets == Err::<
                    Vec<ProviderTarget>,
                    ProviderError,
                >(ProviderError::OpenShock(error)),
            },
    {
        match listing {
            Listing::PiShock(Ok(devices)) => {
                let mut list: Vec<ProviderTarget> = Vec::new();
                let mut i: usize = 0;
                while i < devices.len()
                    invariant
                        i <= devices@.len(),
                        list@.len() == i,
                        forall|j: int|
                            0 <= j < i ==> pishock_target(devices@[j], #[trigger] list@[j]),
                    decreases devices@.len() - i,
                {
                    list.push(target_from_pishock(devices[i].duplicate()));
                    i += 1;
                }
                Ok(list)
            },
            Listing::OpenShock(Ok(groups)) => {
                let mut list: Vec<ProviderTarget> = Vec::new();
                let mut i: usize = 0;
                while i < groups.len()
                    invariant
                        i <= groups@.len(),
                        list@.len() == i,
                        forall|j: int|
                            0 <= j < i ==> openshock_target(groups@[j], #[trigger] list@[j]),
                    decreases groups@.len() - i,
                {
                    list.push(target_from_openshock(groups[i].duplicate()));
                    i += 1;
                }
                Ok(list)
            },
            Listing::PiShock(Err(error)) => Err(ProviderError::PiShock(error)),
            Listing::OpenShock(Err(error)) => Err(ProviderError::OpenShock(error)),
        }
    }

    /// Whether `command` is the sound owed to a target.
    pub open spec fn sounds(
        self,
        target: ProviderTarget,
        command: Result<SoundCommand, ProviderError>,
    ) -> bool {
        if target.id.provider() != self.provider() {
            command == Err::<SoundCommand, ProviderError>(ProviderError::TargetProviderMismatch)
        } else {
            match (self, target.data) {
                (ConnectedProvider::PiShock, Some(TargetData::PiShock(of))) => {
                    &&& command matches Ok(SoundCommand::PiShock { device, seconds })
                    &&& same_device(device, of)
                    &&& seconds == TEST_SOUND_DURATION / 1_000_000_000
                },
                (ConnectedProvider::OpenShock, Some(TargetData::OpenShock(of))) => {
                    &&& command matches Ok(SoundCommand::OpenShock { group, millis })
                    &&& group == of
                    &&& millis == TEST_SOUND_DURATION / 1_000_000
                },
                _ => command == Err::<SoundCommand, ProviderError>(ProviderError::NotConnected),
            }
        }
    }

    /// The sound that the connected client has to make for a target: a short
    /// beep, where the target belongs to it and its report is at hand.
    pub fn test_sound(self, target: &ProviderTarget) -> (command: Result<
        SoundCommand,
        ProviderError,
    >)
        ensures
            self.sounds(*target, command),
    {
        if !target_matches(self.kind(), target.id()) {
            return Err(ProviderError::TargetProviderMismatch);
        }
        match (self, &target.data) {
            (ConnectedProvider::PiShock, Some(TargetData::PiShock(device))) => Ok(
                SoundCommand::PiShock {
                    device: device.duplicate(),
                    seconds: (TEST_SOUND_DURATION / 1_000_000_000) as u8,
                },
            ),
            (ConnectedProvider::OpenShock, Some(TargetData::OpenShock(group))) => Ok(
                SoundCommand::OpenShock {
                    group: group.duplicate(),
                    millis: TEST_SOUND_DURATION / 1_000_000,
                },
            ),
            _ => Err(ProviderError::NotConnected),
        }
    }

    /// What a sound's result means to the provider's user.
    pub fn sound_outcome(reply: ClientReply) -> (outcome: Result<(), ProviderError>)
        ensures
            outcome == match reply {
                ClientReply::PiShock(Ok(_)) => Ok::<(), ProviderError>(()),
                ClientReply::OpenShock(Ok(_)) => Ok(()),
                ClientReply::PiShock(Err(error)) => Err(ProviderError::PiShock(error)),
                ClientReply::OpenShock(Err(error)) => Err(ProviderError::OpenShock(error)),
            },
    {
        match reply {
            ClientReply::PiShock(Ok(_)) => Ok(()),
            ClientReply::OpenShock(Ok(_)) => Ok(()),
            ClientReply::PiShock(Err(error)) => Err(ProviderError::PiShock(error)),
            ClientReply::OpenShock(Err(error)) => Err(ProviderError::OpenShock(error)),
        }
    }

    /// The end of a connection. A PiShock client needs no farewell; for
    /// OpenShock, `closed` is what its client said when it was closed.
    pub fn disconnect(self, closed: Result<(), OpenShockError>) -> (outcome: Result<
        (),
        ProviderError,
    >)
        ensures
            outcome == match (self, closed) {
                (ConnectedProvider::OpenShock, Err(error)) => Err::<(), ProviderError>(
                    ProviderError::OpenShock(error),
                ),
                _ => Ok(()),
            },
    {
        match (self, closed) {
            (ConnectedProvider::OpenShock, Err(error)) => Err(ProviderError::OpenShock(error)),
            _ => Ok(()),
        }
    }
}

/// Whether a target belongs to a provider.
pub fn target_matches(provider: ProviderKind, target: &TargetId) -> (matching: bool)
    ensures
        matching == (target.provider() == provider),
{
    match (provider, target) {
        (ProviderKind::PiShock, TargetId::PiShock(_)) => true,
        (ProviderKind::OpenShock, TargetId::OpenShock(_)) => true,
        _ => false,
    }
}

/// Whether `target` stands for a hub.
pub open spec fn pishock_target(device: Device, target: ProviderTarget) -> bool {
    &&& target.id == TargetId::PiShock(device.client_id)
    &&& target.name == device.name
    &&& target.data matches Some(TargetData::PiShock(kept)) && same_device(kept, device)
}

/// The target that stands for a hub.
pub fn target_from_pishock(device: Device) -> (target: ProviderTarget)
    ensures
        pishock_target(device, target),
{
    ProviderTarget {
        id: TargetId::PiShock(device.client_id),
        name: device.name.clone(),
        data: Some(TargetData::PiShock(device)),
    }
}

/// Whether `target` stands for a device group.
pub open spec fn openshock_target(group: DeviceGroup, target: ProviderTarget) -> bool {
    &&& target.id == TargetId::OpenShock(group.id)
    &&& target.name == group.name
    &&& target.data == Some(TargetData::OpenShock(group))
}

/// The target that stands for a device group.
pub fn target_from_openshock(group: DeviceGroup) -> (target: ProviderTarget)
    ensures
        openshock_target(group, target),
{
    ProviderTarget {
        id: TargetId::OpenShock(group.id.clone()),
        name: group.name.clone(),
        data: Some(TargetData::OpenShock(group)),
    }
}

/// A hub that PiShock listed can sound while PiShock is connected, and never
/// through OpenShock.
pub proof fn listed_hubs_can_sound(
    device: Device,
    target: ProviderTarget,
    own: Result<SoundCommand, ProviderError>,
    other: Result<SoundCommand, ProviderError>,
)
    requires
        pishock_target(device, target),
        ConnectedProvider::PiShock.sounds(target, own),
        ConnectedProvider::OpenShock.sounds(target, other),
    ensures
        own is Ok,
        other == Err::<SoundCommand, ProviderError>(ProviderError::TargetProviderMismatch),
{
}

/// A group that OpenShock listed can sound while OpenShock is connected, and
/// never through PiShock.
pub proof fn listed_groups_can_sound(
    group: DeviceGroup,
    target: ProviderTarget,
    own: Result<SoundCommand, ProviderError>,
    other: Result<SoundCommand, ProviderError>,
)
    requires
        openshock_target(group, target),
        ConnectedProvider::OpenShock.sounds(target, own),
        ConnectedProvider::PiShock.sounds(target, other),
    ensures
        own is Ok,
        other == Err::<SoundCommand, ProviderError>(ProviderError::TargetProviderMismatch),
{
}

/// A login is complete if and only if everything that belongs to the provider
/// holds something visible; what belongs to the other provider plays no part.
pub proof fn logins_need_what_belongs_to_the_provider(
    provider: ProviderKind,
    username: Seq<char>,
    api_key: Seq<char>,
    token: Seq<char>,
)
    ensures
        login_complete(provider, username, api_key, token) <==> {
            &&& provider is PiShock ==> {
                &&& exists|i: int| 0 <= i < username.len() && !white_space(#[trigger] username[i])
                &&& exists|i: int| 0 <= i < api_key.len() && !white_space(#[trigger] api_key[i])
            }
            &&& provider is OpenShock ==> exists|i: int|
                0 <= i < token.len() && !white_space(#[trigger] token[i])
        },
{
}

/// Identifiers are the same if and only if they belong to the same provider
/// and hold the same number or text.
pub proof fn same_identifiers_hold_the_same(a: TargetId, b: TargetId)
    ensures
        same_id(a, b) ==> a.provider() == b.provider(),
        a matches TargetId::PiShock(number) ==> (same_id(a, b) <==> b == TargetId::PiShock(number)),
        a matches TargetId::OpenShock(text) ==> (same_id(a, b) <==> (b matches TargetId::OpenShock(
            other,
        ) && other@ == text@)),
        same_id(a, a),
        same_id(a, b) <==> same_id(b, a),
        a is PiShock <==> a.provider() is PiShock,
        a is PiShock ==> a.visible(),
        a matches TargetId::OpenShock(text) ==> (a.visible() <==> exists|i: int|
            0 <= i < text@.len() && !white_space(#[trigger] text@[i])),
{
}

/// Targets that are the same agree in identifier, name and everything that the
/// provider reported of them.
pub proof fn same_targets_agree_in_everything(a: ProviderTarget, b: ProviderTarget)
    requires
        same_target(a, b),
    ensures
        same_id(a.id, b.id),
        a.name@ == b.name@,
        a.data is Some <==> b.data is Some,
        a.data matches Some(TargetData::PiShock(of)) ==> (b.data matches Some(
            TargetData::PiShock(to),
        ) && of.client_id == to.client_id && of.name == to.name && of.user_id == to.user_id
            && of.username == to.username && of.shockers@ == to.shockers@),
        a.data matches Some(TargetData::OpenShock(of)) ==> (b.data matches Some(
            TargetData::OpenShock(to),
        ) && of.id@ == to.id@ && of.name@ == to.name@),
{
}

/// A hub or a group is listed under its own identifier and name, with all that
/// was reported of it.
pub proof fn targets_stand_for_what_was_reported(
    device: Device,
    hub: ProviderTarget,
    group: DeviceGroup,
    set: ProviderTarget,
)
    requires
        pishock_target(device, hub),
        openshock_target(group, set),
    ensures
        hub.id == TargetId::PiShock(device.client_id),
        hub.name@ == device.name@,
        hub.data matches Some(TargetData::PiShock(kept)) && kept.client_id == device.client_id
            && kept.name@ == device.name@ && kept.user_id == device.user_id && kept.username@
            == device.username@ && kept.shockers@ == device.shockers@,
        set.id matches TargetId::OpenShock(id) && id@ == group.id@,
        set.name@ == group.name@,
        set.data matches Some(TargetData::OpenShock(kept)) && kept.id@ == group.id@ && kept.name@
            == group.name@,
{
}

/// A test sound lasts one second and is made by the very hub or group that the
/// target stands for. A target of the other provider is refused, and so is one
/// of which nothing was reported.
pub proof fn sounds_are_made_by_the_target(
    provider: ConnectedProvider,
    target: ProviderTarget,
    command: Result<SoundCommand, ProviderError>,
)
    requires
        provider.sounds(target, command),
    ensures
        match command {
            Ok(SoundCommand::PiShock { device, seconds }) => {
                &&& provider is PiShock
                &&& target.id is PiShock
                &&& seconds == 1
                &&& target.data matches Some(TargetData::PiShock(of)) && device.client_id
                    == of.client_id && device.name@ == of.name@ && device.shockers@ == of.shockers@
            },
            Ok(SoundCommand::OpenShock { group, millis }) => {
                &&& provider is OpenShock
                &&& target.id is OpenShock
                &&& millis == 1000
                &&& target.data matches Some(TargetData::OpenShock(of)) && group.id@ == of.id@
                    && group.name@ == of.name@
            },
            Err(ProviderError::TargetProviderMismatch) => provider is PiShock
                != target.id is PiShock,
            Err(ProviderError::NotConnected) => {
                &&& provider is PiShock == target.id is PiShock
                &&& provider is PiShock ==> !(target.data matches Some(TargetData::PiShock(_)))
                &&& provider is OpenShock ==> !(target.data matches Some(TargetData::OpenShock(_)))
            },
            Err(_) => false,
        },
{
}

/// The debug text of an identifier shows its provider and its number or text,
/// that of credentials the username.
pub proof fn debug_texts_show_what_is_no_secret(id: TargetId, username: Seq<char>)
    ensures
        id matches TargetId::PiShock(number) ==> id.debug() == "PiShock("@ + decimal(number as nat)
            + ")"@,
        id matches TargetId::OpenShock(text) ==> id.debug() == "OpenShock("@ + quoted(text@) + ")"@,
        occurs(provider_credentials_debug(username), quoted(username)),
{
    let text = provider_credentials_debug(username);
    let at = "ProviderCredentials { pishock_username: "@.len() as int;
    assert(text.subrange(at, at + quoted(username).len()) =~= quoted(username));
    assert(occurs_at(text, quoted(username), at));
}

/// A connected provider is that provider, and no two providers are called the
/// same.
pub proof fn providers_are_told_apart(provider: ConnectedProvider)
    ensures
        provider is PiShock <==> provider.provider() is PiShock,
        ProviderKind::PiShock.name() != ProviderKind::OpenShock.name(),
{
    reveal_strlit("PiShock");
    reveal_strlit("OpenShock");
    assert(ProviderKind::PiShock.name().len() != ProviderKind::OpenShock.name().len());
}

/// An error names the provider that it came from and tells what that provider
/// said.
pub proof fn provider_errors_tell_what_was_said(error: ProviderError)
    ensures
        error matches ProviderError::PiShock(told) ==> error.sentence().skip(
            "PiShock: "@.len() as int,
        ) == told.sentence() && "PiShock: "@.is_prefix_of(error.sentence()),
        error matches ProviderError::OpenShock(told) ==> error.sentence().skip(
            "OpenShock: "@.len() as int,
        ) == told.message@ && "OpenShock: "@.is_prefix_of(error.sentence()),
{
    match error {
        ProviderError::PiShock(told) => {
            assert(error.sentence().skip("PiShock: "@.len() as int) =~= told.sentence());
            assert(error.sentence().subrange(0, "PiShock: "@.len() as int) =~= "PiShock: "@);
        },
        ProviderError::OpenShock(told) => {
            assert(error.sentence().skip("OpenShock: "@.len() as int) =~= told.message@);
            assert(error.sentence().subrange(0, "OpenShock: "@.len() as int) =~= "OpenShock: "@);
        },
        _ => {},
    }
}

/// Targets are listed as they were reported: one for each, in their order,
/// under its own identifier and name; an error stays with the provider that
/// reported it.
pub proof fn targets_are_listed_as_reported(
    listing: Listing,
    targets: Result<Vec<ProviderTarget>, ProviderError>,
    at: int,
)
    requires
        call_ensures(ConnectedProvider::list_targets, (listing,), targets),
    ensures
        match listing {
            Listing::PiShock(Ok(devices)) => {
                &&& targets matches Ok(list)
                &&& list@.len() == devices@.len()
                &&& 0 <= at < list@.len() ==> list@[at].id == TargetId::PiShock(
                    devices@[at].client_id,
                ) && list@[at].name@ == devices@[at].name@
            },
            Listing::OpenShock(Ok(groups)) => {
                &&& targets matches Ok(list)
                &&& list@.len() == groups@.len()
                &&& 0 <= at < list@.len() ==> (list@[at].id matches TargetId::OpenShock(id) && id@
                    == groups@[at].id@) && list@[at].name@ == groups@[at].name@
            },
            Listing::PiShock(Err(error)) => targets matches Err(ProviderError::PiShock(told))
                && told == error,
            Listing::OpenShock(Err(error)) => targets matches Err(ProviderError::OpenShock(told))
                && told == error,
        },
{
}

/// A login uses what was entered for its own provider, without the white space
/// around it, and nothing that was entered for the other.
pub proof fn logins_use_what_was_entered(
    kind: ProviderKind,
    credentials: ProviderCredentials,
    login: Login,
    front: Seq<char>,
    core: Seq<char>,
    back: Seq<char>,
)
    requires
        call_ensures(ConnectedProvider::connect, (kind, &credentials), login),
        blank(front),
        blank(back),
        core.len() > 0,
        !white_space(core[0]),
        !white_space(core[core.len() - 1]),
    ensures
        kind is PiShock <==> login is PiShock,
        login matches Login::PiShock { credentials: given, .. } ==> {
            &&& credentials.pishock_username@ == front + core + back ==> given.username@ == core
            &&& credentials.pishock_api_key@ == front + core + back ==> given.api_key@ == core
        },
        login matches Login::OpenShock { token, .. } ==> (credentials.openshock_token@ == front
            + core + back ==> token@ == core),
{
    trimming_takes_white_space_alone(front, core, back);
}

} // verus!
