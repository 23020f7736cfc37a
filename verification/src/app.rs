//! The state of the companion and what changes it: connecting to a provider,
//! choosing a target, following the log, and turning what the log reports into
//! shocks.

use std::collections::BTreeMap;
use vstd::prelude::*;

use crate::bridge_listener::{text_of, ConsoleLogListener, ListenerPhase};
use crate::bridge_record::{
    duplicate_text, same_event, AbilityCatalog, AbilityCatalogEntry, BridgeEvent,
};
use crate::provider::{
    login_complete, same_id, same_target, ConnectedProvider, Login, ProviderCredentials,
    ProviderError, ProviderKind, ProviderTarget, SoundCommand, TargetId, SENDER_NAME,
};
use crate::settings::{
    default_triggers, first_copy_source, usual_copy_source, AbilityFilter, CredentialState,
    ResolvedShock, StatusColor, TriggerKind, TriggerSettings, TriggerSettingsSet,
};
use crate::shock::{
    ShockCompletion, ShockCompletionResult, ShockEnqueueResult, ShockRequest, ShockStatus,
    TriggerIdentity,
};
use crate::text::{blank, is_blank, trim, trimmed};

verus! {

broadcast use vstd::std_specs::btree::group_btree_axioms;

/// What became of the search for the log.
#[derive(Clone, Debug, Eq, PartialEq)]
pub enum LogDetectionStatus {
    Found,
    NotCreated,
    Failed(String),
}

impl LogDetectionStatus {
    /// The status in words.
    pub open spec fn description(self) -> Seq<char> {
        match self {
            LogDetectionStatus::Found => "Found Deadlock console.log."@,
            LogDetectionStatus::NotCreated =>
                "Deadlock is installed, but console.log has not been created. Add -condebug to Deadlock's Steam launch options, then launch the game."@,
            LogDetectionStatus::Failed(message) => message@,
        }
    }

    /// Renders the status in words.
    pub fn label(&self) -> (label: &str)
        ensures
            label@ == self.description(),
    {
        match self {
            LogDetectionStatus::Found => "Found Deadlock console.log.",
            LogDetectionStatus::NotCreated => {
                "Deadlock is installed, but console.log has not been created. Add -condebug to Deadlock's Steam launch options, then launch the game."
            },
            LogDetectionStatus::Failed(message) => message.as_str(),
        }
    }

    /// The colour of the status.
    pub fn color(&self) -> (color: StatusColor)
        ensures
            color == match *self {
                LogDetectionStatus::Found => StatusColor::Success,
                LogDetectionStatus::NotCreated => StatusColor::Warning,
                LogDetectionStatus::Failed(_) => StatusColor::Failure,
            },
    {
        match self {
            LogDetectionStatus::Found => StatusColor::Success,
            LogDetectionStatus::NotCreated => StatusColor::Warning,
            LogDetectionStatus::Failed(_) => StatusColor::Failure,
        }
    }
}

/// What became of a test sound.
#[derive(Clone, Debug, Eq, PartialEq)]
pub enum SoundStatus {
    Sending,
    Sent,
    Failed(String),
}

impl SoundStatus {
    /// The status in words.
    pub open spec fn description(self) -> Seq<char> {
        match self {
            SoundStatus::Sending => "Sending test sound…"@,
            SoundStatus::Sent => "Test sound sent."@,
            SoundStatus::Failed(message) => message@,
        }
    }

    /// Renders the status in words.
    pub fn label(&self) -> (label: &str)
        ensures
            label@ == self.description(),
    {
        match self {
            SoundStatus::Sending => "Sending test sound…",
            SoundStatus::Sent => "Test sound sent.",
            SoundStatus::Failed(message) => message.as_str(),
        }
    }

    /// The colour of the status.
    pub open spec fn shade(self) -> StatusColor {
        match self {
            SoundStatus::Sending => StatusColor::Neutral,
            SoundStatus::Sent => StatusColor::Success,
            SoundStatus::Failed(_) => StatusColor::Failure,
        }
    }

    /// The colour of the status.
    pub fn color(&self) -> (color: StatusColor)
        ensures
            color == self.shade(),
    {
        match self {
            SoundStatus::Sending => StatusColor::Neutral,
            SoundStatus::Sent => StatusColor::Success,
            SoundStatus::Failed(_) => StatusColor::Failure,
        }
    }
}

/// A part of the window.
#[derive(Clone, Copy, Debug, Eq, PartialEq, Structural)]
pub enum AppSection {
    Setup,
    Effects,
    GameConnection,
}

impl Default for AppSection {
    fn default() -> (section: Self)
        ensures
            section == AppSection::Setup,
    {
        AppSection::Setup
    }
}

impl AppSection {
    /// The heading of the section.
    pub fn label(self) -> (label: &'static str)
        ensures
            label@ == match self {
                AppSection::Setup => "Setup"@,
                AppSection::Effects => "Effects"@,
                AppSection::GameConnection => "Game connection"@,
            },
    {
        match self {
            AppSection::Setup => "Setup",
            AppSection::Effects => "Effects",
            AppSection::GameConnection => "Game connection",
        }
    }
}

/// A look at work that is done elsewhere.
pub enum Poll<T> {
    /// There is a result.
    Ready(T),
    /// There is no result yet.
    Empty,
    /// There will be no further result.
    Closed,
}

/// What a connection test came to.
pub type ConnectionResult = Result<(ConnectedProvider, Vec<ProviderTarget>), ProviderError>;

/// What a test sound came to.
pub type SoundResult = Result<(), ProviderError>;

/// Where the log was found.
pub enum Detection {
    /// The log is there.
    Ready { path: String },
    /// The game is there, its log is not yet.
    NotCreated { path: String },
}

/// A log that has to be followed, where it is not followed already.
pub struct ListenerStart {
    pub path: String,
    pub needed: bool,
}

/// The state of the companion.
pub struct AppState {
    pub provider: ProviderKind,
    pub username: String,
    pub api_key: String,
    pub openshock_token: String,
    pub credential_state: CredentialState,
    pub devices: Vec<ProviderTarget>,
    pub selected_device: Option<TargetId>,
    pub preferred_target: Option<TargetId>,
    pub triggers: TriggerSettingsSet,
    pub log_path: String,
    /// The provider that is connected.
    pub client: Option<ConnectedProvider>,
    pub connection_error: Option<String>,
    /// Whether a connection test is under way.
    pub connection_testing: bool,
    /// Whether a test sound is under way.
    pub sound_pending: bool,
    pub sound_status: Option<SoundStatus>,
    /// How many shocks were queued and not yet heard of.
    pub shock_in_flight: usize,
    pub shock_status: Option<ShockStatus>,
    pub log_detection_status: Option<LogDetectionStatus>,
    pub bridge_listener: ConsoleLogListener,
    /// The subscription to what the log reports.
    pub bridge_events: Option<u64>,
    pub last_bridge_event: Option<BridgeEvent>,
    /// Session and number of the last trigger that was heard of.
    pub last_sequence: Option<(String, u64)>,
    /// The names of abilities by their slots.
    pub ability_catalog: BTreeMap<u32, Option<String>>,
    pub listener_action_error: Option<String>,
    pub selected_section: AppSection,
    pub selected_effect: TriggerKind,
    pub copy_source: TriggerKind,
    pub copy_feedback: Option<String>,
}

/// The first target with an identifier.
pub open spec fn target_with(devices: Seq<ProviderTarget>, id: TargetId) -> Option<ProviderTarget>
    decreases devices.len(),
{
    if devices.len() == 0 {
        None
    } else if same_id(devices.first().id, id) {
        Some(devices.first())
    } else {
        target_with(devices.drop_first(), id)
    }
}

/// Finds the first target with an identifier.
fn find_target<'a>(devices: &'a Vec<ProviderTarget>, id: &TargetId) -> (found: Option<
    &'a ProviderTarget,
>)
    ensures
        match found {
            Some(target) => target_with(devices@, *id) == Some(*target),
            None => target_with(devices@, *id) is None,
        },
{
    let mut i: usize = 0;
    assert(devices@.skip(0) =~= devices@);
    while i < devices.len()
        invariant
            i <= devices@.len(),
            target_with(devices@.skip(i as int), *id) == target_with(devices@, *id),
        decreases devices@.len() - i,
    {
        assert(devices@.skip(i as int).first() == devices@[i as int]);
        assert(devices@.skip(i as int).drop_first() =~= devices@.skip(i + 1));
        if devices[i].id == *id {
            return Some(&devices[i]);
        }
        i += 1;
    }
    None
}

/// A target with an identifier is found if and only if there is one.
pub proof fn target_is_found_where_it_is(devices: Seq<ProviderTarget>, id: TargetId)
    ensures
        target_with(devices, id) is Some <==> exists|i: int|
            0 <= i < devices.len() && same_id(#[trigger] devices[i].id, id),
        target_with(devices, id) matches Some(target) ==> same_id(target.id, id)
            && devices.contains(target),
    decreases devices.len(),
{
    if devices.len() > 0 {
        let rest = devices.drop_first();
        target_is_found_where_it_is(rest, id);
        if same_id(devices.first().id, id) {
            assert(same_id(devices[0].id, id));
        } else {
            assert forall|i: int|
                0 <= i < devices.len() && same_id(#[trigger] devices[i].id, id) implies exists|
                j: int,
            | 0 <= j < rest.len() && same_id(#[trigger] rest[j].id, id) by {
                assert(rest[i - 1].id == devices[i].id);
            }
            assert forall|j: int|
                0 <= j < rest.len() && same_id(#[trigger] rest[j].id, id) implies exists|i: int|
                0 <= i < devices.len() && same_id(#[trigger] devices[i].id, id) by {
                assert(devices[j + 1].id == rest[j].id);
            }
            if let Some(target) = target_with(rest, id) {
                let j = choose|j: int| 0 <= j < rest.len() && rest[j] == target;
                assert(devices[j + 1] == target);
            }
        }
    }
}

/// The names of abilities by their slots, of those in a numbered slot; where a
/// slot occurs more than once, the last entry counts.
pub open spec fn catalog_of(entries: Seq<AbilityCatalogEntry>) -> Map<u32, Option<String>>
    decreases entries.len(),
{
    if entries.len() == 0 {
        Map::empty()
    } else {
        let before = catalog_of(entries.drop_last());
        let entry = entries.last();
        if entry.ability_slot > 0 {
            before.insert(entry.ability_slot, entry.ability_name)
        } else {
            before
        }
    }
}

/// Whether a trigger is new: it belongs to another session than the last one,
/// or has a higher number.
pub open spec fn newer(last: Option<(String, u64)>, session: Seq<char>, sequence: u64) -> bool {
    match last {
        Some((last_session, last_sequence)) => last_session@ != session || sequence > last_sequence,
        None => true,
    }
}

/// Whether the last trigger heard of is the given one.
pub open spec fn last_is(last: Option<(String, u64)>, session: Seq<char>, sequence: u64) -> bool {
    last matches Some((last_session, last_sequence)) && last_session@ == session && last_sequence
        == sequence
}

impl Default for AppState {
    fn default() -> (state: Self)
        ensures
            state.initial(),
    {
        Self {
            provider: ProviderKind::default(),
            username: String::new(),
            api_key: String::new(),
            openshock_token: String::new(),
            credential_state: CredentialState::default(),
            devices: Vec::new(),
            selected_device: None,
            preferred_target: None,
            triggers: TriggerSettingsSet::default(),
            log_path: String::new(),
            client: None,
            connection_error: None,
            connection_testing: false,
            sound_pending: false,
            sound_status: None,
            shock_in_flight: 0,
            shock_status: None,
            log_detection_status: None,
            bridge_listener: ConsoleLogListener::new(),
            bridge_events: None,
            last_bridge_event: None,
            last_sequence: None,
            ability_catalog: BTreeMap::new(),
            listener_action_error: None,
            selected_section: AppSection::default(),
            selected_effect: TriggerKind::Death,
            copy_source: TriggerKind::AbilityUse,
            copy_feedback: None,
        }
    }
}

impl AppState {
    /// Nothing was entered, connected or heard of yet.
    pub open spec fn initial(self) -> bool {
        &&& self.provider == ProviderKind::PiShock
        &&& self.username@ == Seq::<char>::empty()
        &&& self.api_key@ == Seq::<char>::empty()
        &&& self.openshock_token@ == Seq::<char>::empty()
        &&& self.preferred_target is None
        &&& self.triggers == default_triggers()
        &&& self.log_path@ == Seq::<char>::empty()
        &&& self.disconnected()
        &&& self.nothing_heard()
        &&& self.log_detection_status is None
        &&& self.bridge_listener.fresh()
        &&& self.listener_action_error is None
        &&& self.selected_section == AppSection::Setup
        &&& self.selected_effect == TriggerKind::Death
        &&& self.copy_source == TriggerKind::AbilityUse
        &&& self.copy_feedback is None
    }

    /// No provider is connected or being connected, and nothing is known of
    /// the account.
    pub open spec fn disconnected(self) -> bool {
        &&& self.client is None
        &&& self.credential_state == CredentialState::Unknown
        &&& !self.connection_testing
        &&& self.devices@ == Seq::<ProviderTarget>::empty()
        &&& self.selected_device is None
        &&& self.connection_error is None
        &&& !self.sound_pending
        &&& self.sound_status is None
    }

    /// No trigger was heard of and no shock asked for.
    pub open spec fn nothing_heard(self) -> bool {
        &&& self.bridge_events is None
        &&& self.last_bridge_event is None
        &&& self.last_sequence is None
        &&& self.ability_catalog@ == Map::<u32, Option<String>>::empty()
        &&& self.shock_status is None
        &&& self.shock_in_flight == 0
    }

    /// The selected target, where one is selected and among those listed.
    pub open spec fn selected(self) -> Option<ProviderTarget> {
        match self.selected_device {
            Some(id) => target_with(self.devices@, id),
            None => None,
        }
    }

    /// A selected target is among those listed.
    pub open spec fn selection_listed(self) -> bool {
        self.selected_device is Some ==> self.selected() is Some
    }

    /// Work is under way that must not be disturbed.
    pub open spec fn busy(self) -> bool {
        self.connection_testing || self.sound_pending || self.shock_in_flight != 0
    }

    /// Whether everything that the provider's login needs was entered.
    pub fn credentials_present(&self) -> (present: bool)
        ensures
            present == login_complete(
                self.provider,
                self.username@,
                self.api_key@,
                self.openshock_token@,
            ),
    {
        match self.provider {
            ProviderKind::PiShock => !is_blank(self.username.as_str()) && !is_blank(
                self.api_key.as_str(),
            ),
            ProviderKind::OpenShock => !is_blank(self.openshock_token.as_str()),
        }
    }

    /// What was entered to log in with either provider.
    pub fn provider_credentials(&self) -> (credentials: ProviderCredentials)
        ensures
            credentials.pishock_username == self.username,
            credentials.pishock_api_key == self.api_key,
            credentials.openshock_token == self.openshock_token,
    {
        ProviderCredentials {
            pishock_username: self.username.clone(),
            pishock_api_key: self.api_key.clone(),
            openshock_token: self.openshock_token.clone(),
        }
    }

    /// The selected target, where one is selected and among those listed.
    pub fn selected_device(&self) -> (target: Option<&ProviderTarget>)
        ensures
            match target {
                Some(target) => self.selected() == Some(*target),
                None => self.selected() is None,
            },
    {
        match &self.selected_device {
            Some(id) => find_target(&self.devices, id),
            None => None,
        }
    }

    /// Whether work is under way that must not be disturbed.
    pub fn is_busy(&self) -> (busy: bool)
        ensures
            busy == self.busy(),
    {
        self.connection_testing || self.sound_pending || self.shock_in_flight != 0
    }

    /// Whether the window has to be drawn again before anything is done to it:
    /// while a log is followed and while shocks are under way.
    pub fn needs_repaint(&self) -> (needed: bool)
        ensures
            needed == (self.bridge_listener.status.phase != ListenerPhase::Stopped
                || self.shock_in_flight != 0),
    {
        self.bridge_listener.status.phase != ListenerPhase::Stopped || self.shock_in_flight != 0
    }
}

/// Whether `next` is a state with nothing left of its connection but what was
/// entered and preferred.
pub open spec fn connection_reset(state: AppState, next: AppState) -> bool {
    &&& next.disconnected()
    &&& next == (AppState {
        client: None,
        credential_state: CredentialState::Unknown,
        connection_testing: false,
        devices: next.devices,
        selected_device: None,
        connection_error: None,
        sound_pending: false,
        sound_status: None,
        ..state
    })
}

/// Whether `next` is a state after a connection test failed.
pub open spec fn connection_failed(
    state: AppState,
    error: ProviderError,
    next: AppState,
) -> bool {
    &&& next.devices@ == Seq::<ProviderTarget>::empty()
    &&& next.connection_error matches Some(told) && told@ == error.sentence()
    &&& next == (AppState {
        client: None,
        sound_pending: false,
        sound_status: None,
        devices: next.devices,
        selected_device: None,
        credential_state: CredentialState::Invalid,
        connection_error: next.connection_error,
        ..state
    })
}

/// The target to select among those listed: the preferred one where it is
/// there, else the first.
pub open spec fn choice_among(
    devices: Seq<ProviderTarget>,
    preferred: Option<TargetId>,
) -> Option<TargetId> {
    if preferred matches Some(id) && target_with(devices, id) is Some {
        preferred
    } else if devices.len() > 0 {
        Some(devices.first().id)
    } else {
        None
    }
}

/// Whether `next` is a state after its targets were listed.
pub open spec fn devices_applied(
    state: AppState,
    devices: Vec<ProviderTarget>,
    next: AppState,
) -> bool {
    next == (AppState {
        preferred_target: choice_among(devices@, state.preferred_target),
        selected_device: choice_among(devices@, state.preferred_target),
        devices,
        credential_state: CredentialState::Valid,
        sound_status: None,
        connection_error: None,
        ..state
    })
}

/// Whether `next` is a state after a connection test came to a result.
pub open spec fn connection_settled(
    state: AppState,
    result: ConnectionResult,
    next: AppState,
) -> bool {
    match result {
        Ok((client, devices)) => devices_applied(
            (AppState { client: Some(client), ..state }),
            devices,
            next,
        ),
        Err(error) => connection_failed(state, error, next),
    }
}

/// Whether `next` is a state after a test sound came to a result.
pub open spec fn sound_settled(state: AppState, result: SoundResult, next: AppState) -> bool {
    &&& next == (AppState { sound_status: next.sound_status, ..state })
    &&& match result {
        Ok(_) => next.sound_status == Some(SoundStatus::Sent),
        Err(error) => next.sound_status matches Some(SoundStatus::Failed(told)) && told@
            == "Test sound failed: "@ + error.sentence(),
    }
}

impl AppState {
    /// Forgets the connection and everything that came with it. What was
    /// entered stays, and so does the preferred target. Hands out the provider
    /// whose client is to be closed, if one was connected.
    pub fn reset_connection(&mut self) -> (closed: Option<ConnectedProvider>)
        ensures
            connection_reset(*old(self), *final(self)),
            closed == old(self).client,
    {
        let closed = self.client;
        self.client = None;
        self.credential_state = CredentialState::Unknown;
        self.connection_testing = false;
        self.devices.clear();
        self.selected_device = None;
        self.connection_error = None;
        self.sound_pending = false;
        self.sound_status = None;
        closed
    }

    /// Changes the provider, unless work is under way. Hands out the provider
    /// whose client is to be closed, if the change ended a connection.
    pub fn set_provider(&mut self, provider: ProviderKind) -> (closed: Option<ConnectedProvider>)
        ensures
            if old(self).provider == provider || old(self).busy() {
                *final(self) == *old(self) && closed is None
            } else {
                &&& connection_reset(
                    (AppState { provider, preferred_target: None, ..*old(self) }),
                    *final(self),
                )
                &&& closed == old(self).client
            },
    {
        if self.provider == provider {
            return None;
        }
        if self.is_busy() {
            return None;
        }
        self.provider = provider;
        self.preferred_target = None;
        self.reset_connection()
    }

    /// Begins a connection test, and says what the provider's client has to be
    /// opened with, and whose client is to be closed, if one was connected.
    pub fn start_connection_test(&mut self) -> (test: (Login, Option<ConnectedProvider>))
        ensures
            test.1 == old(self).client,
            final(self).connection_testing,
            final(self).credential_state == CredentialState::Testing,
            connection_reset(
                *old(self),
                (AppState {
                    connection_testing: false,
                    credential_state: CredentialState::Unknown,
                    ..*final(self)
                }),
            ),
            match test.0 {
                Login::PiShock { credentials, sender } => {
                    &&& old(self).provider == ProviderKind::PiShock
                    &&& credentials.username@ == trimmed(old(self).username@)
                    &&& credentials.api_key@ == trimmed(old(self).api_key@)
                    &&& sender@ == SENDER_NAME@
                },
                Login::OpenShock { token, sender } => {
                    &&& old(self).provider == ProviderKind::OpenShock
                    &&& token@ == trimmed(old(self).openshock_token@)
                    &&& sender@ == SENDER_NAME@
                },
            },
    {
        let credentials = self.provider_credentials();
        let login = ConnectedProvider::connect(self.provider, &credentials);
        let closed = self.reset_connection();
        self.credential_state = CredentialState::Testing;
        self.connection_testing = true;
        (login, closed)
    }

    /// Takes a look at the connection test, where one is under way.
    pub fn poll_connection_test(&mut self, poll: Poll<ConnectionResult>)
        ensures
            if !old(self).connection_testing {
                *final(self) == *old(self)
            } else {
                let done = AppState { connection_testing: false, ..*old(self) };
                match poll {
                    Poll::Ready(result) => connection_settled(done, result, *final(self)),
                    Poll::Empty => *final(self) == *old(self),
                    Poll::Closed => connection_failed(
                        done,
                        ProviderError::NotConnected,
                        *final(self),
                    ),
                }
            },
    {
        if !self.connection_testing {
            return;
        }
        match poll {
            Poll::Ready(result) => {
                self.connection_testing = false;
                self.apply_connection_result(result);
            },
            Poll::Empty => {},
            Poll::Closed => {
                self.connection_testing = false;
                self.apply_connection_error(ProviderError::NotConnected);
            },
        }
    }

    /// Takes over what a connection test came to.
    pub fn apply_connection_result(&mut self, result: ConnectionResult)
        ensures
            connection_settled(*old(self), result, *final(self)),
            final(self).selection_listed(),
            result is Err ==> final(self).preferred_target == old(self).preferred_target,
    {
        match result {
            Ok((client, devices)) => {
                self.client = Some(client);
                self.apply_devices(devices);
            },
            Err(error) => {
                self.apply_connection_error(error);
            },
        }
    }

    /// Notes that a connection test failed. The preferred target stays.
    pub fn apply_connection_error(&mut self, error: ProviderError)
        ensures
            connection_failed(*old(self), error, *final(self)),
    {
        self.client = None;
        self.sound_pending = false;
        self.sound_status = None;
        self.devices.clear();
        self.selected_device = None;
        self.credential_state = CredentialState::Invalid;
        self.connection_error = Some(error.to_text());
    }

    /// Takes over the targets that were listed, and selects one of them: the
    /// preferred one where it is there, else the first.
    pub fn apply_devices(&mut self, devices: Vec<ProviderTarget>)
        ensures
            devices_applied(*old(self), devices, *final(self)),
            final(self).selection_listed(),
            final(self).selected() is Some <==> devices@.len() > 0,
    {
        let preferred = match &self.preferred_target {
            Some(id) => match find_target(&devices, id) {
                Some(_) => Some(id.duplicate()),
                None => None,
            },
            None => None,
        };
        let selected = match preferred {
            Some(id) => Some(id),
            None => if devices.len() > 0 {
                Some(devices[0].id.duplicate())
            } else {
                None
            },
        };
        self.preferred_target = match &selected {
            Some(id) => Some(id.duplicate()),
            None => None,
        };
        self.selected_device = selected;
        self.devices = devices;
        self.credential_state = CredentialState::Valid;
        self.sound_status = None;
        self.connection_error = None;
        proof {
            if devices@.len() > 0 {
                let first = devices@.first().id;
                assert(same_id(first, first));
                assert(target_with(devices@, first) is Some);
            }
        }
    }

    /// Selects a target that is listed, and prefers it from now on.
    pub fn select_device(&mut self, target: TargetId) -> (selected: bool)
        ensures
            selected == (target_with(old(self).devices@, target) is Some),
            *final(self) == if selected {
                AppState {
                    selected_device: Some(target),
                    preferred_target: Some(target),
                    sound_status: None,
                    ..*old(self)
                }
            } else {
                *old(self)
            },
            old(self).selection_listed() ==> final(self).selection_listed(),
    {
        if find_target(&self.devices, &target).is_none() {
            return false;
        }
        self.selected_device = Some(target.duplicate());
        self.preferred_target = Some(target);
        self.sound_status = None;
        true
    }

    /// Begins a test sound, where a provider is connected and a target
    /// selected, and says which sound its client has to make.
    pub fn start_sound(&mut self) -> (command: Option<Result<SoundCommand, ProviderError>>)
        ensures
            match (old(self).client, old(self).selected()) {
                (Some(client), Some(target)) => {
                    &&& command matches Some(command)
                    &&& client.sounds(target, command)
                    &&& *final(self) == (AppState {
                        sound_status: Some(SoundStatus::Sending),
                        sound_pending: true,
                        ..*old(self)
                    })
                },
                _ => command is None && *final(self) == *old(self),
            },
    {
        let command = match (self.client, self.selected_device()) {
            (Some(client), Some(target)) => client.test_sound(target),
            _ => return None,
        };
        self.sound_status = Some(SoundStatus::Sending);
        self.sound_pending = true;
        Some(command)
    }

    /// Takes a look at the test sound, where one is under way.
    pub fn poll_sound(&mut self, poll: Poll<SoundResult>)
        ensures
            if !old(self).sound_pending {
                *final(self) == *old(self)
            } else {
                let done = AppState { sound_pending: false, ..*old(self) };
                match poll {
                    Poll::Ready(result) => sound_settled(done, result, *final(self)),
                    Poll::Empty => *final(self) == *old(self),
                    Poll::Closed => sound_settled(
                        done,
                        Err(ProviderError::NotConnected),
                        *final(self),
                    ),
                }
            },
    {
        if !self.sound_pending {
            return;
        }
        match poll {
            Poll::Ready(result) => {
                self.sound_pending = false;
                self.apply_sound_result(result);
            },
            Poll::Empty => {},
            Poll::Closed => {
                self.sound_pending = false;
                self.apply_sound_error(ProviderError::NotConnected);
            },
        }
    }

    /// Takes over what a test sound came to.
    pub fn apply_sound_result(&mut self, result: SoundResult)
        ensures
            sound_settled(*old(self), result, *final(self)),
    {
        match result {
            Ok(_) => {
                self.sound_status = Some(SoundStatus::Sent);
            },
            Err(error) => {
                self.apply_sound_error(error);
            },
        }
    }

    /// Notes that a test sound failed.
    pub fn apply_sound_error(&mut self, error: ProviderError)
        ensures
            sound_settled(*old(self), Err(error), *final(self)),
    {
        let told = error.to_text();
        self.sound_status = Some(
            SoundStatus::Failed("Test sound failed: ".to_owned().concat(told.as_str())),
        );
    }

    /// Copies the shock settings of one trigger to another, and nothing else
    /// of it.
    pub fn copy_shock_settings(&mut self, source: TriggerKind, destination: TriggerKind) -> (copied:
        bool)
        ensures
            copied == (source != destination),
            if copied {
                &&& final(self).triggers == old(self).triggers.with(
                    destination,
                    (TriggerSettings {
                        shock: old(self).triggers.of(source).shock,
                        ..old(self).triggers.of(destination)
                    }),
                )
                &&& final(self).copy_feedback matches Some(told) && told@ == "Copied "@
                    + source.name() + " shock settings to "@ + destination.name() + "."@
                &&& *final(self) == (AppState {
                    triggers: final(self).triggers,
                    copy_feedback: final(self).copy_feedback,
                    ..*old(self)
                })
            } else {
                *final(self) == *old(self)
            },
    {
        if source == destination {
            return false;
        }
        let shock = self.triggers.get(source).shock;
        let enabled = self.triggers.get(destination).enabled;
        *self.triggers.get_mut(destination) = TriggerSettings { enabled, shock };
        self.copy_feedback = Some(
            "Copied ".to_owned().concat(source.label()).concat(" shock settings to ").concat(
                destination.label(),
            ).concat("."),
        );
        true
    }

    /// Shows the settings of one trigger. The trigger to copy from is never
    /// the one shown.
    pub fn select_effect(&mut self, kind: TriggerKind)
        ensures
            *final(self) == (AppState {
                selected_effect: kind,
                copy_source: if old(self).copy_source == kind {
                    usual_copy_source(kind)
                } else {
                    old(self).copy_source
                },
                copy_feedback: None,
                ..*old(self)
            }),
            final(self).copy_source != final(self).selected_effect,
    {
        self.selected_effect = kind;
        if self.copy_source == kind {
            self.copy_source = first_copy_source(kind);
        }
        self.copy_feedback = None;
    }

    /// Takes over the names of abilities.
    pub fn replace_ability_catalog(&mut self, catalog: AbilityCatalog)
        ensures
            final(self).ability_catalog@ == catalog_of(catalog.abilities@),
            *final(self) == (AppState {
                ability_catalog: final(self).ability_catalog,
                ..*old(self)
            }),
    {
        let mut names: BTreeMap<u32, Option<String>> = BTreeMap::new();
        let entries = &catalog.abilities;
        let mut i: usize = 0;
        while i < entries.len()
            invariant
                i <= entries@.len(),
                names@ == catalog_of(entries@.take(i as int)),
            decreases entries@.len() - i,
        {
            assert(entries@.take(i + 1).drop_last() =~= entries@.take(i as int));
            let entry = &entries[i];
            if entry.ability_slot > 0 {
                names.insert(entry.ability_slot, duplicate_text(&entry.ability_name));
            }
            i += 1;
        }
        assert(entries@.take(i as int) =~= entries@);
        self.ability_catalog = names;
    }
}

/// Whether a trigger asks for a shock: it is new, its kind is enabled, and its
/// ability counts where it is about one.
pub open spec fn asks_for_shock(state: AppState, trigger: TriggerIdentity) -> bool {
    &&& newer(state.last_sequence, trigger.session_id@, trigger.sequence)
    &&& state.triggers.of(trigger.kind).enabled
    &&& match (state.triggers.filter_of(trigger.kind), trigger.ability_slot) {
        (Some(filter), Some(slot)) => filter.admits(slot),
        _ => true,
    }
}

/// Whether `next` is a state after a trigger was heard of: the last trigger
/// moved on to it where it is new.
pub open spec fn trigger_noted(
    state: AppState,
    trigger: TriggerIdentity,
    next: AppState,
) -> bool {
    if newer(state.last_sequence, trigger.session_id@, trigger.sequence) {
        &&& last_is(next.last_sequence, trigger.session_id@, trigger.sequence)
        &&& next == (AppState { last_sequence: next.last_sequence, ..state })
    } else {
        next == state
    }
}

/// Whether a request asks for a shock on behalf of a trigger, as things stand.
pub open spec fn request_stands(
    state: AppState,
    trigger: TriggerIdentity,
    resolved: Option<ResolvedShock>,
    request: ShockRequest,
) -> bool {
    &&& request.provider == state.provider
    &&& request.resolved == resolved
    &&& request.trigger == trigger
    &&& match (state.selected(), request.target) {
        (Some(selected), Some(target)) => same_target(target, selected),
        (None, None) => true,
        _ => false,
    }
}

/// Why a shock cannot be sent as things stand, if it cannot.
pub open spec fn obstacle(state: AppState, resolved: Option<ResolvedShock>) -> Option<Seq<char>> {
    if state.client is None {
        Some("provider is not connected"@)
    } else if state.selected() is None {
        Some("no target is selected"@)
    } else if resolved is None {
        Some("shock settings are invalid"@)
    } else {
        None
    }
}

/// Whether `next` and `request` are the state after a shock was prepared and
/// the request to queue, if there is one: what stands in the way of a shock
/// becomes its status.
pub open spec fn shock_prepared(
    state: AppState,
    trigger: TriggerIdentity,
    resolved: Option<ResolvedShock>,
    next: AppState,
    request: Option<ShockRequest>,
) -> bool {
    match obstacle(state, resolved) {
        Some(reason) => {
            &&& request is None
            &&& next == (AppState { shock_status: next.shock_status, ..state })
            &&& next.shock_status matches Some(ShockStatus::Skipped { request, reason: told })
            &&& request_stands(state, trigger, resolved, request)
            &&& told@ == reason
        },
        None => {
            &&& next == state
            &&& request matches Some(request)
            &&& request_stands(state, trigger, resolved, request)
        },
    }
}

/// Whether `next` and `request` are the state after a trigger was handled and
/// the request to queue, if there is one, given what its shock settings came
/// to.
pub open spec fn trigger_handled(
    state: AppState,
    trigger: TriggerIdentity,
    resolved: Option<ResolvedShock>,
    next: AppState,
    request: Option<ShockRequest>,
) -> bool {
    let noted = AppState { last_sequence: next.last_sequence, ..state };
    &&& trigger_noted(state, trigger, noted)
    &&& if asks_for_shock(state, trigger) {
        shock_prepared(noted, trigger, resolved, next, request)
    } else {
        next == noted && request is None
    }
}

/// Whether `next` is a state after it was known what became of a queued shock.
pub open spec fn shock_settled(
    state: AppState,
    completion: ShockCompletion,
    next: AppState,
) -> bool {
    &&& next == (AppState {
        shock_in_flight: if state.shock_in_flight > 0 {
            (state.shock_in_flight - 1) as usize
        } else {
            0
        },
        shock_status: next.shock_status,
        ..state
    })
    &&& match completion.result {
        ShockCompletionResult::Skipped { reason } => {
            &&& next.shock_status matches Some(ShockStatus::Skipped { request, reason: told })
            &&& request == completion.request
            &&& told@ == reason@
        },
        ShockCompletionResult::Completed(Ok(_)) => next.shock_status == Some(
            ShockStatus::Sent(completion.request),
        ),
        ShockCompletionResult::Completed(Err(error)) => {
            &&& next.shock_status matches Some(ShockStatus::Failed { request, error: told })
            &&& request == completion.request
            &&& told@ == error.sentence()
        },
    }
}

/// The trigger that an event is, if it is one.
pub open spec fn trigger_of(event: BridgeEvent) -> Option<TriggerIdentity> {
    match event {
        BridgeEvent::HookReady(_) => None,
        BridgeEvent::AbilityCatalog(_) => None,
        BridgeEvent::LocalPlayerDeath(death) => Some(TriggerIdentity::of_death(death)),
        BridgeEvent::AbilityUsed(ability) => Some(
            TriggerIdentity::of_ability(TriggerKind::AbilityUse, ability),
        ),
        BridgeEvent::AbilityCooldownReady(ability) => Some(
            TriggerIdentity::of_ability(TriggerKind::AbilityCooldownReady, ability),
        ),
    }
}

/// Whether `next` is a state after an event was taken note of, before its
/// trigger is handled: a new session forgets the names of abilities, a catalog
/// replaces them.
pub open spec fn event_noted(state: AppState, event: BridgeEvent, next: AppState) -> bool {
    &&& next.last_bridge_event matches Some(kept) && same_event(kept, event)
    &&& next == (AppState {
        last_bridge_event: next.last_bridge_event,
        ability_catalog: next.ability_catalog,
        ..state
    })
    &&& match event {
        BridgeEvent::HookReady(_) => next.ability_catalog@ == Map::<u32, Option<String>>::empty(),
        BridgeEvent::AbilityCatalog(catalog) => next.ability_catalog@ == catalog_of(
            catalog.abilities@,
        ),
        _ => next.ability_catalog == state.ability_catalog,
    }
}

/// Whether `next` and `request` are what an event leads to, given what the
/// shock settings of its trigger came to.
pub open spec fn event_handled(
    state: AppState,
    event: BridgeEvent,
    resolved: Option<ResolvedShock>,
    next: AppState,
    request: Option<ShockRequest>,
) -> bool {
    let noted = AppState {
        last_bridge_event: next.last_bridge_event,
        ability_catalog: next.ability_catalog,
        ..state
    };
    &&& event_noted(state, event, noted)
    &&& match trigger_of(event) {
        Some(trigger) => trigger_handled(noted, trigger, resolved, next, request),
        None => next == noted && request is None,
    }
}

/// What the shock settings of an event's trigger may come to.
pub open spec fn event_may_resolve_to(
    state: AppState,
    event: BridgeEvent,
    resolved: Option<ResolvedShock>,
) -> bool {
    trigger_of(event) matches Some(trigger) ==> state.triggers.of(
        trigger.kind,
    ).shock.may_resolve_to(resolved)
}

impl AppState {
    /// Takes note of a trigger, and says whether it is new.
    pub fn trigger_is_new(&mut self, trigger: &TriggerIdentity) -> (new: bool)
        ensures
            new == newer(old(self).last_sequence, trigger.session_id@, trigger.sequence),
            trigger_noted(*old(self), *trigger, *final(self)),
    {
        let stale = match &self.last_sequence {
            Some((session_id, sequence)) => *session_id == trigger.session_id && trigger.sequence
                <= *sequence,
            None => false,
        };
        if stale {
            return false;
        }
        self.last_sequence = Some((trigger.session_id.clone(), trigger.sequence));
        true
    }

    /// Takes note of a trigger, and says whether it asks for a shock. It counts
    /// as heard of even where its kind is disabled or its ability filtered out.
    pub fn accept_trigger(&mut self, trigger: &TriggerIdentity) -> (accepted: bool)
        ensures
            accepted == asks_for_shock(*old(self), *trigger),
            trigger_noted(*old(self), *trigger, *final(self)),
            accepted <==> {
                &&& match old(self).last_sequence {
                    Some(last) => last.0@ != trigger.session_id@ || last.1 < trigger.sequence,
                    None => true,
                }
                &&& match trigger.kind {
                    TriggerKind::Death => old(self).triggers.death.enabled,
                    TriggerKind::AbilityUse => {
                        &&& old(self).triggers.ability_use.trigger.enabled
                        &&& match (
                            old(self).triggers.ability_use.ability_filter,
                            trigger.ability_slot,
                        ) {
                            (AbilityFilter::Selected(slots), Some(slot)) => slots@.contains(slot),
                            _ => true,
                        }
                    },
                    TriggerKind::AbilityCooldownReady => {
                        &&& old(self).triggers.ability_cooldown_ready.trigger.enabled
                        &&& match (
                            old(self).triggers.ability_cooldown_ready.ability_filter,
                            trigger.ability_slot,
                        ) {
                            (AbilityFilter::Selected(slots), Some(slot)) => slots@.contains(slot),
                            _ => true,
                        }
                    },
                }
            },
    {
        if !self.trigger_is_new(trigger) {
            return false;
        }
        if !self.triggers.get(trigger.kind).enabled {
            return false;
        }
        match (self.triggers.ability_filter(trigger.kind), trigger.ability_slot) {
            (Some(filter), Some(slot)) => filter.accepts(slot),
            _ => true,
        }
    }

    /// Prepares a shock, given what its settings came to. Hands out the request
    /// to queue, or notes what stands in the way of one.
    pub fn prepare_shock(&mut self, trigger: TriggerIdentity, resolved: Option<ResolvedShock>) -> (request:
        Option<ShockRequest>)
        ensures
            shock_prepared(*old(self), trigger, resolved, *final(self), request),
    {
        let target = match self.selected_device() {
            Some(target) => Some(target.duplicate()),
            None => None,
        };
        let connected = self.client.is_some();
        let targeted = target.is_some();
        let request = ShockRequest { provider: self.provider, target, resolved, trigger };
        let reason = if !connected {
            "provider is not connected"
        } else if !targeted {
            "no target is selected"
        } else if resolved.is_none() {
            "shock settings are invalid"
        } else {
            return Some(request);
        };
        self.shock_status = Some(ShockStatus::Skipped { request, reason: reason.to_owned() });
        None
    }

    /// Handles a trigger, given what its shock settings came to. Hands out the
    /// request to queue, if there is one.
    pub fn handle_trigger(&mut self, trigger: TriggerIdentity, resolved: Option<ResolvedShock>) -> (request:
        Option<ShockRequest>)
        ensures
            trigger_handled(*old(self), trigger, resolved, *final(self), request),
    {
        if !self.accept_trigger(&trigger) {
            return None;
        }
        self.prepare_shock(trigger, resolved)
    }

    /// Handles a trigger, and draws a shock from its settings where it asks for
    /// one. Hands out the request to queue, if there is one.
    pub fn queue_trigger_shock(&mut self, trigger: TriggerIdentity) -> (request: Option<ShockRequest>)
        ensures
            exists|resolved: Option<ResolvedShock>|
                {
                    &&& #[trigger] old(self).triggers.of(trigger.kind).shock.may_resolve_to(resolved)
                    &&& trigger_handled(*old(self), trigger, resolved, *final(self), request)
                },
    {
        if !self.accept_trigger(&trigger) {
            proof {
                let settings = old(self).triggers.of(trigger.kind).shock;
                assert(settings.may_resolve_to(settings.least()));
            }
            return None;
        }
        let resolved = self.triggers.get(trigger.kind).shock.resolve();
        assert(old(self).triggers.of(trigger.kind).shock.may_resolve_to(resolved));
        self.prepare_shock(trigger, resolved)
    }

    /// Notes what became of an attempt to queue a shock.
    pub fn apply_shock_enqueue_result(&mut self, request: ShockRequest, result: ShockEnqueueResult)
        ensures
            *final(self) == (AppState {
                shock_status: final(self).shock_status,
                shock_in_flight: if result == ShockEnqueueResult::Accepted
                    && old(self).shock_in_flight < usize::MAX {
                    (old(self).shock_in_flight + 1) as usize
                } else {
                    old(self).shock_in_flight
                },
                ..*old(self)
            }),
            match result {
                ShockEnqueueResult::Accepted => final(self).shock_status == Some(
                    ShockStatus::Sending(request),
                ),
                ShockEnqueueResult::Full => {
                    &&& final(self).shock_status matches Some(
                        ShockStatus::Skipped { request: kept, reason },
                    )
                    &&& kept == request
                    &&& reason@ == "shock queue is full"@
                },
                ShockEnqueueResult::Disconnected => {
                    &&& final(self).shock_status matches Some(
                        ShockStatus::Failed { request: kept, error },
                    )
                    &&& kept == request
                    &&& error@ == "shock worker is unavailable"@
                },
            },
    {
        match result {
            ShockEnqueueResult::Accepted => {
                self.shock_status = Some(ShockStatus::Sending(request));
                self.shock_in_flight = self.shock_in_flight.saturating_add(1);
            },
            ShockEnqueueResult::Full => {
                self.shock_status = Some(
                    ShockStatus::Skipped { request, reason: "shock queue is full".to_owned() },
                );
            },
            ShockEnqueueResult::Disconnected => {
                self.shock_status = Some(
                    ShockStatus::Failed {
                        request,
                        error: "shock worker is unavailable".to_owned(),
                    },
                );
            },
        }
    }

    /// Takes over what became of a queued shock.
    pub fn apply_shock_completion(&mut self, completion: ShockCompletion)
        ensures
            shock_settled(*old(self), completion, *final(self)),
    {
        self.shock_in_flight = self.shock_in_flight.saturating_sub(1);
        match completion.result {
            ShockCompletionResult::Skipped { reason } => {
                self.shock_status = Some(
                    ShockStatus::Skipped {
                        request: completion.request,
                        reason: reason.to_owned(),
                    },
                );
            },
            ShockCompletionResult::Completed(Ok(_)) => {
                self.shock_status = Some(ShockStatus::Sent(completion.request));
            },
            ShockCompletionResult::Completed(Err(error)) => {
                self.shock_status = Some(
                    ShockStatus::Failed { request: completion.request, error: error.to_text() },
                );
            },
        }
    }

    /// Takes a look at the queued shocks, and says whether there may be more
    /// to see. Without a worker no shock is under way any more.
    pub fn poll_shock(&mut self, poll: Poll<ShockCompletion>) -> (more: bool)
        ensures
            match poll {
                Poll::Ready(completion) => more && shock_settled(
                    *old(self),
                    completion,
                    *final(self),
                ),
                Poll::Empty => !more && *final(self) == *old(self),
                Poll::Closed => !more && *final(self) == (AppState {
                    shock_in_flight: 0,
                    ..*old(self)
                }),
            },
    {
        match poll {
            Poll::Ready(completion) => {
                self.apply_shock_completion(completion);
                true
            },
            Poll::Empty => false,
            Poll::Closed => {
                self.shock_in_flight = 0;
                false
            },
        }
    }

    /// Takes note of an event, and hands out the trigger that it is, if it is
    /// one.
    pub fn note_event(&mut self, event: BridgeEvent) -> (trigger: Option<TriggerIdentity>)
        ensures
            event_noted(*old(self), event, *final(self)),
            trigger == trigger_of(event),
            match event {
                BridgeEvent::LocalPlayerDeath(death) => {
                    &&& trigger matches Some(trigger)
                    &&& trigger.kind is Death
                    &&& trigger.session_id@ == death.session_id@
                    &&& trigger.sequence == death.sequence
                    &&& trigger.ability_slot is None
                },
                BridgeEvent::AbilityUsed(ability) => {
                    &&& trigger matches Some(trigger)
                    &&& trigger.kind is AbilityUse
                    &&& trigger.session_id@ == ability.session_id@
                    &&& trigger.sequence == ability.sequence
                    &&& trigger.ability_slot == Some(ability.ability_slot)
                },
                BridgeEvent::AbilityCooldownReady(ability) => {
                    &&& trigger matches Some(trigger)
                    &&& trigger.kind is AbilityCooldownReady
                    &&& trigger.session_id@ == ability.session_id@
                    &&& trigger.sequence == ability.sequence
                    &&& trigger.ability_slot == Some(ability.ability_slot)
                },
                _ => trigger is None,
            },
    {
        self.last_bridge_event = Some(event.duplicate());
        match event {
            BridgeEvent::HookReady(_) => {
                self.ability_catalog.clear();
                None
            },
            BridgeEvent::AbilityCatalog(catalog) => {
                self.replace_ability_catalog(catalog);
                None
            },
            BridgeEvent::LocalPlayerDeath(death) => Some(TriggerIdentity::from_death(death)),
            BridgeEvent::AbilityUsed(ability) => Some(
                TriggerIdentity::from_ability(TriggerKind::AbilityUse, ability),
            ),
            BridgeEvent::AbilityCooldownReady(ability) => Some(
                TriggerIdentity::from_ability(TriggerKind::AbilityCooldownReady, ability),
            ),
        }
    }

    /// Handles an event. Hands out the shock to queue, if it leads to one.
    pub fn handle_event(&mut self, event: BridgeEvent) -> (request: Option<ShockRequest>)
        ensures
            exists|resolved: Option<ResolvedShock>|
                {
                    &&& #[trigger] event_may_resolve_to(*old(self), event, resolved)
                    &&& event_handled(*old(self), event, resolved, *final(self), request)
                },
            request matches Some(asked) ==> match event {
                BridgeEvent::LocalPlayerDeath(_) => asked.trigger.kind is Death
                    && old(self).triggers.death.enabled,
                BridgeEvent::AbilityUsed(_) => asked.trigger.kind is AbilityUse
                    && old(self).triggers.ability_use.trigger.enabled,
                BridgeEvent::AbilityCooldownReady(_) => asked.trigger.kind is AbilityCooldownReady
                    && old(self).triggers.ability_cooldown_ready.trigger.enabled,
                _ => false,
            },
    {
        let trigger = self.note_event(event);
        let ghost noted = *self;
        match trigger {
            Some(trigger) => {
                let request = self.queue_trigger_shock(trigger);
                proof {
                    let resolved = choose|resolved: Option<ResolvedShock>|
                        {
                            &&& #[trigger] noted.triggers.of(trigger.kind).shock.may_resolve_to(
                                resolved,
                            )
                            &&& trigger_handled(noted, trigger, resolved, *self, request)
                        };
                    assert(event_may_resolve_to(*old(self), event, resolved));
                }
                request
            },
            None => {
                assert(event_may_resolve_to(*old(self), event, None));
                None
            },
        }
    }

    /// Takes a look at what the log reports, where it is subscribed to, and
    /// says whether there may be more to see. Hands out the shock to queue, if
    /// there is one.
    pub fn poll_bridge_events(&mut self, poll: Poll<BridgeEvent>) -> (outcome: (
        bool,
        Option<ShockRequest>,
    ))
        ensures
            if old(self).bridge_events is None {
                outcome == (false, None::<ShockRequest>) && *final(self) == *old(self)
            } else {
                match poll {
                    Poll::Ready(event) => {
                        &&& outcome.0
                        &&& exists|resolved: Option<ResolvedShock>|
                            {
                                &&& #[trigger] event_may_resolve_to(*old(self), event, resolved)
                                &&& event_handled(
                                    *old(self),
                                    event,
                                    resolved,
                                    *final(self),
                                    outcome.1,
                                )
                            }
                    },
                    Poll::Empty => {
                        outcome == (false, None::<ShockRequest>) && *final(self) == *old(self)
                    },
                    Poll::Closed => {
                        &&& outcome == (false, None::<ShockRequest>)
                        &&& *final(self) == (AppState { bridge_events: None, ..*old(self) })
                    },
                }
            },
    {
        if self.bridge_events.is_none() {
            return (false, None);
        }
        match poll {
            Poll::Ready(event) => {
                let request = self.handle_event(event);
                (true, request)
            },
            Poll::Empty => (false, None),
            Poll::Closed => {
                self.bridge_events = None;
                (false, None)
            },
        }
    }
}

/// Whether `next` is a state that has begun to follow a log: there is a
/// subscription, and the listener is prepared where it does not follow the log
/// already.
pub open spec fn listening_begun(
    state: AppState,
    path: Seq<char>,
    needed: bool,
    next: AppState,
) -> bool {
    let subscribed = ConsoleLogListener {
        subscribers: next.bridge_listener.subscribers,
        next_subscriber: next.bridge_listener.next_subscriber,
        ..state.bridge_listener
    };
    &&& next == (AppState {
        bridge_events: next.bridge_events,
        bridge_listener: next.bridge_listener,
        ..state
    })
    &&& next.bridge_events is Some
    &&& if state.bridge_events is Some {
        &&& next.bridge_events == state.bridge_events
        &&& subscribed == state.bridge_listener
    } else {
        &&& next.bridge_events == Some(state.bridge_listener.next_subscriber)
        &&& next.bridge_listener.subscribers@ == state.bridge_listener.subscribers@.push(
            state.bridge_listener.next_subscriber,
        )
        &&& next.bridge_listener.next_subscriber == state.bridge_listener.next_subscriber + 1
    }
    &&& needed == !(state.bridge_listener.running && text_of(
        state.bridge_listener.status.configured_path,
    ) == Some(path))
    &&& if needed {
        subscribed.stopped(next.bridge_listener)
    } else {
        next.bridge_listener == subscribed
    }
}

/// Whether a subscription can be had where there is none.
pub open spec fn can_subscribe(state: AppState) -> bool {
    state.bridge_events is None ==> state.bridge_listener.next_subscriber < u64::MAX
}

/// Whether `next` is a state that was reset: everything that is saved is as at
/// first, and nothing is left of connection, log and shocks.
pub open spec fn reset_applied(state: AppState, next: AppState) -> bool {
    &&& next.provider == ProviderKind::PiShock
    &&& next.username@ == Seq::<char>::empty()
    &&& next.api_key@ == Seq::<char>::empty()
    &&& next.openshock_token@ == Seq::<char>::empty()
    &&& next.preferred_target is None
    &&& next.triggers == default_triggers()
    &&& next.log_path@ == Seq::<char>::empty()
    &&& next.disconnected()
    &&& next.nothing_heard()
    &&& next.log_detection_status is None
    &&& next.bridge_listener.fresh()
    &&& next.listener_action_error is None
    &&& next.copy_feedback is None
    &&& next.selected_section == state.selected_section
    &&& next.selected_effect == state.selected_effect
    &&& next.copy_source == state.copy_source
}

impl AppState {
    /// Subscribes to what the log reports, unless there is a subscription.
    pub fn ensure_bridge_subscription(&mut self)
        requires
            can_subscribe(*old(self)),
        ensures
            *final(self) == (AppState {
                bridge_events: final(self).bridge_events,
                bridge_listener: final(self).bridge_listener,
                ..*old(self)
            }),
            if old(self).bridge_events is Some {
                *final(self) == *old(self)
            } else {
                let listener = old(self).bridge_listener;
                &&& final(self).bridge_events == Some(listener.next_subscriber)
                &&& final(self).bridge_listener.subscribers@ == listener.subscribers@.push(
                    listener.next_subscriber,
                )
                &&& final(self).bridge_listener.next_subscriber == listener.next_subscriber + 1
                &&& final(self).bridge_listener.status == listener.status
                &&& final(self).bridge_listener.running == listener.running
            },
    {
        if self.bridge_events.is_none() {
            let subscriber: u64 = self.bridge_listener.subscribe();
            self.bridge_events = Some(subscriber);
        }
    }

    /// Begins to follow a log, and says whether there is anything to do.
    pub fn start_log_listener(&mut self, path: &String) -> (needed: bool)
        requires
            can_subscribe(*old(self)),
        ensures
            listening_begun(*old(self), path@, needed, *final(self)),
    {
        self.ensure_bridge_subscription();
        self.bridge_listener.start(path)
    }

    /// Begins to follow the log whose path was entered, or notes that none was.
    pub fn start_listener_from_input(&mut self) -> (start: Option<ListenerStart>)
        requires
            can_subscribe(*old(self)),
        ensures
            if blank(old(self).log_path@) {
                &&& start is None
                &&& final(self).listener_action_error matches Some(told) && told@
                    == "Enter a console.log path before starting the listener."@
                &&& *final(self) == (AppState {
                    listener_action_error: final(self).listener_action_error,
                    ..*old(self)
                })
            } else {
                &&& start matches Some(start)
                &&& start.path@ == trimmed(old(self).log_path@)
                &&& listening_begun(
                    *old(self),
                    trimmed(old(self).log_path@),
                    start.needed,
                    *final(self),
                )
            },
    {
        if is_blank(self.log_path.as_str()) {
            self.listener_action_error = Some(
                "Enter a console.log path before starting the listener.".to_owned(),
            );
            return None;
        }
        let path = trim(self.log_path.as_str());
        let needed = self.start_log_listener(&path);
        Some(ListenerStart { path, needed })
    }

    /// Notes whether the log whose path was entered can be followed.
    pub fn listener_started(&mut self, outcome: Result<(), String>)
        ensures
            match outcome {
                Ok(_) => final(self).listener_action_error is None,
                Err(error) => final(self).listener_action_error matches Some(told) && told@
                    == "Could not start listener: "@ + error@,
            },
            *final(self) == (AppState {
                listener_action_error: final(self).listener_action_error,
                ..*old(self)
            }),
    {
        self.listener_action_error = match outcome {
            Ok(_) => None,
            Err(error) => Some("Could not start listener: ".to_owned().concat(error.as_str())),
        };
    }

    /// Begins to follow the log that was searched for, where it was found. A
    /// search that failed leaves the path as it was entered.
    pub fn apply_log_detection(&mut self, result: Result<Detection, String>) -> (start: Option<
        (ListenerStart, LogDetectionStatus),
    >)
        requires
            can_subscribe(*old(self)),
        ensures
            match result {
                Ok(Detection::Ready { path }) => {
                    &&& start matches Some((start, status))
                    &&& start.path == path
                    &&& status == LogDetectionStatus::Found
                    &&& listening_begun(
                        (AppState { log_path: path, ..*old(self) }),
                        path@,
                        start.needed,
                        *final(self),
                    )
                },
                Ok(Detection::NotCreated { path }) => {
                    &&& start matches Some((start, status))
                    &&& start.path == path
                    &&& status == LogDetectionStatus::NotCreated
                    &&& listening_begun(
                        (AppState { log_path: path, ..*old(self) }),
                        path@,
                        start.needed,
                        *final(self),
                    )
                },
                Err(error) => {
                    &&& start is None
                    &&& final(self).log_detection_status matches Some(
                        LogDetectionStatus::Failed(told),
                    ) && told@ == "Auto-detect failed: "@ + error@
                    &&& *final(self) == (AppState {
                        log_detection_status: final(self).log_detection_status,
                        ..*old(self)
                    })
                },
            },
    {
        let (path, status) = match result {
            Ok(Detection::Ready { path }) => (path, LogDetectionStatus::Found),
            Ok(Detection::NotCreated { path }) => (path, LogDetectionStatus::NotCreated),
            Err(error) => {
                self.log_detection_status = Some(
                    LogDetectionStatus::Failed(
                        "Auto-detect failed: ".to_owned().concat(error.as_str()),
                    ),
                );
                return None;
            },
        };
        self.log_path = path.clone();
        let needed = self.start_log_listener(&path);
        Some((ListenerStart { path, needed }, status))
    }

    /// Notes whether the log that was found can be followed.
    pub fn detection_finished(&mut self, status: LogDetectionStatus, outcome: Result<(), String>)
        ensures
            match (outcome, status) {
                (Ok(_), _) => final(self).log_detection_status == Some(status),
                (Err(error), LogDetectionStatus::NotCreated) => {
                    final(self).log_detection_status matches Some(LogDetectionStatus::Failed(told))
                        && told@
                        == "Deadlock was found, but the listener could not start: "@ + error@
                },
                (Err(error), _) => {
                    final(self).log_detection_status matches Some(LogDetectionStatus::Failed(told))
                        && told@
                        == "Deadlock console.log was found, but the listener could not start: "@
                        + error@
                },
            },
            *final(self) == (AppState {
                log_detection_status: final(self).log_detection_status,
                ..*old(self)
            }),
    {
        self.log_detection_status = match outcome {
            Ok(_) => Some(status),
            Err(error) => {
                let opening = match status {
                    LogDetectionStatus::NotCreated => {
                        "Deadlock was found, but the listener could not start: "
                    },
                    _ => "Deadlock console.log was found, but the listener could not start: ",
                };
                Some(LogDetectionStatus::Failed(opening.to_owned().concat(error.as_str())))
            },
        };
    }

    /// Begins a search for the log.
    pub fn auto_detect_log_path(&mut self)
        ensures
            *final(self) == (AppState { listener_action_error: None, ..*old(self) }),
    {
        self.listener_action_error = None;
    }

    /// Resets everything that is saved and stops following the log, unless work
    /// is under way. A client that was connected before is to be closed.
    pub fn reset_saved_state(&mut self) -> (done: bool)
        ensures
            done == !old(self).busy(),
            if done {
                reset_applied(*old(self), *final(self))
            } else {
                *final(self) == *old(self)
            },
    {
        if self.is_busy() {
            return false;
        }
        self.bridge_listener.stop();
        self.reset_connection();
        self.provider = ProviderKind::default();
        self.username = String::new();
        self.api_key = String::new();
        self.openshock_token = String::new();
        self.preferred_target = None;
        self.triggers = TriggerSettingsSet::default();
        self.log_path = String::new();
        self.log_detection_status = None;
        self.bridge_listener = ConsoleLogListener::new();
        self.bridge_events = None;
        self.last_bridge_event = None;
        self.last_sequence = None;
        self.ability_catalog.clear();
        self.listener_action_error = None;
        self.copy_feedback = None;
        self.shock_status = None;
        self.shock_in_flight = 0;
        true
    }

    /// Whether a log is being followed, or was meant to be.
    pub fn listener_is_running(&self) -> (running: bool)
        ensures
            running == (self.bridge_listener.status.phase != ListenerPhase::Stopped),
    {
        self.bridge_listener.status.phase != ListenerPhase::Stopped
    }

    /// Whether no trigger was heard of and no shock asked for.
    pub fn runtime_trigger_and_shock_state_is_clear(&self) -> (clear: bool)
        ensures
            clear == self.nothing_heard(),
    {
        let clear = self.bridge_events.is_none() && self.last_bridge_event.is_none()
            && self.last_sequence.is_none() && self.ability_catalog.is_empty()
            && self.shock_status.is_none() && self.shock_in_flight == 0;
        proof {
            if self.ability_catalog@.dom().is_empty() {
                assert(self.ability_catalog@ =~= Map::empty());
            }
        }
        clear
    }
}

/// Once a trigger was heard of, no trigger of its session up to its number
/// asks for a shock, whatever the kinds of the two are.
pub proof fn heard_triggers_ask_once(
    state: AppState,
    trigger: TriggerIdentity,
    next: AppState,
    later: TriggerIdentity,
)
    requires
        trigger_noted(state, trigger, next),
        later.session_id@ == trigger.session_id@,
        later.sequence <= trigger.sequence,
    ensures
        !asks_for_shock(next, later),
        trigger_noted(next, later, next),
{
}

/// Within a session the number of the last trigger never falls.
pub proof fn watermark_never_falls(state: AppState, trigger: TriggerIdentity, next: AppState)
    requires
        trigger_noted(state, trigger, next),
    ensures
        (state.last_sequence matches Some(before) ==> next.last_sequence matches Some(after) && (
        after.0@ == before.0@ ==> after.1 >= before.1)),
{
}

/// A trigger that is disabled or whose ability is filtered out leads to no
/// shock and no news of one, but counts as heard of.
pub proof fn unwanted_triggers_are_silent(
    state: AppState,
    trigger: TriggerIdentity,
    resolved: Option<ResolvedShock>,
    next: AppState,
    request: Option<ShockRequest>,
)
    requires
        trigger_handled(state, trigger, resolved, next, request),
        ({
            ||| !state.triggers.of(trigger.kind).enabled
            ||| state.triggers.filter_of(trigger.kind) matches Some(filter)
                && trigger.ability_slot matches Some(slot) && !filter.admits(slot)
        }),
    ensures
        request is None,
        next.shock_status == state.shock_status,
        newer(state.last_sequence, trigger.session_id@, trigger.sequence) ==> last_is(
            next.last_sequence,
            trigger.session_id@,
            trigger.sequence,
        ),
{
}

/// A shock is handed out only on behalf of an enabled trigger, with a provider
/// connected, for the selected target, and within what the trigger's own
/// settings allow.
pub proof fn shocks_are_asked_for(
    state: AppState,
    trigger: TriggerIdentity,
    resolved: Option<ResolvedShock>,
    next: AppState,
    request: ShockRequest,
)
    requires
        state.triggers.of(trigger.kind).shock.may_resolve_to(resolved),
        trigger_handled(state, trigger, resolved, next, Some(request)),
    ensures
        asks_for_shock(state, trigger),
        state.client is Some,
        request.trigger == trigger,
        request.provider == state.provider,
        state.selected() matches Some(selected) && request.target matches Some(target)
            && same_target(target, selected),
        state.triggers.of(trigger.kind).shock.allowed() matches Some(bounds)
            && request.resolved matches Some(shock) && bounds.hold(shock),
{
}

/// An event that is no trigger leads to no shock, no news of one, and does not
/// count as a trigger heard of.
pub proof fn other_events_trigger_nothing(
    state: AppState,
    event: BridgeEvent,
    resolved: Option<ResolvedShock>,
    next: AppState,
    request: Option<ShockRequest>,
)
    requires
        event_handled(state, event, resolved, next, request),
        event is HookReady || event is AbilityCatalog,
    ensures
        request is None,
        next.last_sequence == state.last_sequence,
        next.shock_status == state.shock_status,
        next.shock_in_flight == state.shock_in_flight,
        event is HookReady ==> next.ability_catalog@.dom().is_empty(),
{
}

/// Copying shock settings changes neither whether triggers are enabled nor
/// which abilities count, and no shock settings but those copied to.
pub proof fn copying_changes_shock_settings_alone(
    triggers: TriggerSettingsSet,
    source: TriggerKind,
    destination: TriggerKind,
    kind: TriggerKind,
)
    ensures
        ({
            let copied = triggers.with(
                destination,
                (TriggerSettings {
                    shock: triggers.of(source).shock,
                    ..triggers.of(destination)
                }),
            );
            &&& copied.of(kind).enabled == triggers.of(kind).enabled
            &&& copied.filter_of(kind) == triggers.filter_of(kind)
            &&& copied.of(destination).shock == triggers.of(source).shock
            &&& kind != destination ==> copied.of(kind) == triggers.of(kind)
        }),
{
}

/// A shock that was queued and then settled leaves as many under way as there
/// were before.
pub proof fn settled_shocks_are_no_longer_under_way(
    state: AppState,
    queued: AppState,
    completion: ShockCompletion,
    next: AppState,
)
    requires
        state.shock_in_flight < usize::MAX,
        queued.shock_in_flight == state.shock_in_flight + 1,
        shock_settled(queued, completion, next),
    ensures
        next.shock_in_flight == state.shock_in_flight,
        next.shock_status matches Some(status) && status.about() == completion.request,
{
}

/// A connection that fails and then succeeds selects the target that was
/// preferred before, where it is still listed.
pub proof fn preference_survives_failure(
    state: AppState,
    error: ProviderError,
    failed: AppState,
    devices: Vec<ProviderTarget>,
    next: AppState,
)
    requires
        connection_failed(state, error, failed),
        devices_applied(failed, devices, next),
        state.preferred_target matches Some(id) && target_with(devices@, id) is Some,
    ensures
        failed.preferred_target == state.preferred_target,
        next.selected_device == state.preferred_target,
        next.preferred_target == state.preferred_target,
        next.selected() is Some,
{
}

/// Once targets were listed, what is selected is also preferred, and something
/// is selected if and only if something is listed.
pub proof fn selection_is_preferred(
    state: AppState,
    devices: Vec<ProviderTarget>,
    next: AppState,
)
    requires
        devices_applied(state, devices, next),
    ensures
        next.selected_device == next.preferred_target,
        next.selected_device is Some <==> devices@.len() > 0,
{
}

/// What an event is decides which trigger it is: a death, an ability used or
/// an ability that is ready again, with everything that the event reports. The
/// other events are no triggers.
pub proof fn events_are_triggers_of_their_own_kind(event: BridgeEvent)
    ensures
        match event {
            BridgeEvent::HookReady(_) => trigger_of(event) is None,
            BridgeEvent::AbilityCatalog(_) => trigger_of(event) is None,
            BridgeEvent::LocalPlayerDeath(death) => {
                &&& trigger_of(event) matches Some(trigger)
                &&& trigger.kind is Death
                &&& trigger.session_id@ == death.session_id@
                &&& trigger.sequence == death.sequence
                &&& trigger.client_time_ms == death.client_time_ms
                &&& trigger.detection@ == death.detection@
                &&& trigger.ability_slot is None
                &&& trigger.ability_name is None
                &&& trigger.charges_before is None
                &&& trigger.charges_after is None
            },
            BridgeEvent::AbilityUsed(ability) => {
                &&& trigger_of(event) matches Some(trigger)
                &&& trigger.kind is AbilityUse
                &&& trigger.session_id@ == ability.session_id@
                &&& trigger.sequence == ability.sequence
                &&& trigger.client_time_ms == ability.client_time_ms
                &&& trigger.detection@ == ability.detection@
                &&& trigger.ability_slot == Some(ability.ability_slot)
                &&& trigger.ability_name == ability.ability_name
                &&& trigger.charges_before == ability.charges_before
                &&& trigger.charges_after == ability.charges_after
            },
            BridgeEvent::AbilityCooldownReady(ability) => {
                &&& trigger_of(event) matches Some(trigger)
                &&& trigger.kind is AbilityCooldownReady
                &&& trigger.session_id@ == ability.session_id@
                &&& trigger.sequence == ability.sequence
                &&& trigger.client_time_ms == ability.client_time_ms
                &&& trigger.detection@ == ability.detection@
                &&& trigger.ability_slot == Some(ability.ability_slot)
                &&& trigger.ability_name == ability.ability_name
                &&& trigger.charges_before == ability.charges_before
                &&& trigger.charges_after == ability.charges_after
            },
        },
{
}

/// A trigger asks for a shock if and only if it belongs to another session
/// than the last one heard of or has a higher number, its kind is enabled, and
/// its ability, where it is about one, is among those that count: all of them,
/// or those selected one by one.
pub proof fn wanted_triggers_ask_for_a_shock(state: AppState, trigger: TriggerIdentity)
    ensures
        asks_for_shock(state, trigger) <==> {
            &&& match state.last_sequence {
                Some(last) => last.0@ != trigger.session_id@ || last.1 < trigger.sequence,
                None => true,
            }
            &&& match trigger.kind {
                TriggerKind::Death => state.triggers.death.enabled,
                TriggerKind::AbilityUse => state.triggers.ability_use.trigger.enabled,
                TriggerKind::AbilityCooldownReady =>
                    state.triggers.ability_cooldown_ready.trigger.enabled,
            }
            &&& trigger.ability_slot matches Some(slot) ==> match trigger.kind {
                TriggerKind::Death => true,
                TriggerKind::AbilityUse => match state.triggers.ability_use.ability_filter {
                    AbilityFilter::All => true,
                    AbilityFilter::Selected(slots) => slots@.contains(slot),
                },
                TriggerKind::AbilityCooldownReady =>
                    match state.triggers.ability_cooldown_ready.ability_filter {
                        AbilityFilter::All => true,
                        AbilityFilter::Selected(slots) => slots@.contains(slot),
                    },
            }
        },
{
}

/// A trigger with a new number becomes the last one heard of, a stale one does
/// not; nothing else changes either way.
pub proof fn new_triggers_move_the_watermark(
    state: AppState,
    trigger: TriggerIdentity,
    next: AppState,
)
    requires
        trigger_noted(state, trigger, next),
    ensures
        next == (AppState { last_sequence: next.last_sequence, ..state }),
        match state.last_sequence {
            Some(last) => if last.0@ == trigger.session_id@ && trigger.sequence <= last.1 {
                next.last_sequence == state.last_sequence
            } else {
                &&& next.last_sequence matches Some(kept)
                &&& kept.0@ == trigger.session_id@
                &&& kept.1 == trigger.sequence
            },
            None => {
                &&& next.last_sequence matches Some(kept)
                &&& kept.0@ == trigger.session_id@
                &&& kept.1 == trigger.sequence
            },
        },
{
}

/// The selected target is the first listed one with the selected identifier;
/// without one among those listed, no target is selected.
pub proof fn selected_target_is_the_first_of_its_name(state: AppState, at: int)
    requires
        0 <= at < state.devices@.len(),
        state.selected_device matches Some(id) && same_id(state.devices@[at].id, id) && forall|
            before: int,
        |
            0 <= before < at ==> !same_id(#[trigger] state.devices@[before].id, id),
    ensures
        state.selected() == Some(state.devices@[at]),
{
    first_target_is_found(state.devices@, state.selected_device->0, at);
}

/// The first target with an identifier is the one that is found.
pub proof fn first_target_is_found(devices: Seq<ProviderTarget>, id: TargetId, at: int)
    requires
        0 <= at < devices.len(),
        same_id(devices[at].id, id),
        forall|before: int| 0 <= before < at ==> !same_id(#[trigger] devices[before].id, id),
    ensures
        target_with(devices, id) == Some(devices[at]),
    decreases devices.len(),
{
    if at > 0 {
        assert(!same_id(devices[0].id, id));
        let rest = devices.drop_first();
        assert forall|before: int| 0 <= before < at - 1 implies !same_id(
            #[trigger] rest[before].id,
            id,
        ) by {
            assert(!same_id(devices[before + 1].id, id));
        }
        first_target_is_found(rest, id, at - 1);
    }
}

/// A shock is handed out with what the trigger, the provider and the settings
/// say, for the selected target, whenever a provider is connected, a target
/// selected and the settings came to a shock. Otherwise there is no shock, and
/// the news says which of the three is missing, the first of them if several.
pub proof fn shocks_are_prepared_or_skipped_with_a_reason(
    state: AppState,
    trigger: TriggerIdentity,
    resolved: Option<ResolvedShock>,
    next: AppState,
    request: Option<ShockRequest>,
)
    requires
        shock_prepared(state, trigger, resolved, next, request),
    ensures
        request is Some <==> state.client is Some && state.selected() is Some && resolved is Some,
        request matches Some(asked) ==> {
            &&& next == state
            &&& asked.provider == state.provider
            &&& asked.trigger == trigger
            &&& asked.resolved == resolved
            &&& asked.target matches Some(target) && state.selected() matches Some(selected)
                && target.id == selected.id && target.name@ == selected.name@ && same_target(
                target,
                selected,
            )
        },
        request is None ==> {
            &&& next == (AppState { shock_status: next.shock_status, ..state })
            &&& next.shock_status matches Some(ShockStatus::Skipped { request: skipped, reason })
            &&& skipped.provider == state.provider
            &&& skipped.trigger == trigger
            &&& skipped.resolved == resolved
            &&& skipped.target is Some <==> state.selected() is Some
            &&& state.client is None ==> reason@ == "provider is not connected"@
            &&& state.client is Some && state.selected() is None ==> reason@
                == "no target is selected"@
            &&& state.client is Some && state.selected() is Some ==> reason@
                == "shock settings are invalid"@
        },
{
}

/// What an event leads to, from what it reports. A death, a use and a cooldown
/// each go by their own switch, their own filter and their own shock settings.
/// Where the event is new, switched on and about an ability that counts, with
/// a provider connected, the selected target listed and settings that come to
/// a shock, there is a request: of the event's own kind, for that target, with
/// a shock that those settings come to. In every other case there is none.
pub proof fn events_lead_to_shocks_of_their_own_kind(
    state: AppState,
    event: BridgeEvent,
    resolved: Option<ResolvedShock>,
    next: AppState,
    request: Option<ShockRequest>,
)
    requires
        event_may_resolve_to(state, event, resolved),
        event_handled(state, event, resolved, next, request),
        event is LocalPlayerDeath || event is AbilityUsed || event is AbilityCooldownReady,
    ensures
        ({
            let (session, sequence) = match event {
                BridgeEvent::LocalPlayerDeath(death) => (death.session_id@, death.sequence),
                BridgeEvent::AbilityUsed(ability) => (ability.session_id@, ability.sequence),
                BridgeEvent::AbilityCooldownReady(ability) => (
                    ability.session_id@,
                    ability.sequence,
                ),
                _ => (Seq::empty(), 0),
            };
            let settings = match event {
                BridgeEvent::AbilityUsed(_) => state.triggers.ability_use.trigger,
                BridgeEvent::AbilityCooldownReady(_) =>
                    state.triggers.ability_cooldown_ready.trigger,
                _ => state.triggers.death,
            };
            let counts = match event {
                BridgeEvent::AbilityUsed(ability) => match state.triggers.ability_use.ability_filter {
                    AbilityFilter::All => true,
                    AbilityFilter::Selected(slots) => slots@.contains(ability.ability_slot),
                },
                BridgeEvent::AbilityCooldownReady(ability) =>
                    match state.triggers.ability_cooldown_ready.ability_filter {
                        AbilityFilter::All => true,
                        AbilityFilter::Selected(slots) => slots@.contains(ability.ability_slot),
                    },
                _ => true,
            };
            let new = match state.last_sequence {
                Some(last) => last.0@ != session || last.1 < sequence,
                None => true,
            };
            let wanted = new && settings.enabled && counts;
            &&& request is Some <==> {
                &&& wanted
                &&& state.client is Some
                &&& state.selected_device matches Some(id) && exists|i: int|
                    0 <= i < state.devices@.len() && same_id(#[trigger] state.devices@[i].id, id)
                &&& settings.shock.allowed() is Some
            }
            &&& request matches Some(asked) ==> {
                &&& event is LocalPlayerDeath ==> asked.trigger.kind is Death
                &&& event is AbilityUsed ==> asked.trigger.kind is AbilityUse
                &&& event is AbilityCooldownReady ==> asked.trigger.kind is AbilityCooldownReady
                &&& asked.trigger.session_id@ == session
                &&& asked.trigger.sequence == sequence
                &&& asked.provider == state.provider
                &&& asked.target matches Some(target) && state.selected_device matches Some(id)
                    && same_id(target.id, id)
                &&& asked.resolved matches Some(shock) && settings.shock.may_resolve_to(Some(shock))
                &&& settings.shock.allowed() matches Some(bounds) && bounds.minimum_intensity
                    <= asked.resolved->0.intensity <= bounds.maximum_intensity
                    && bounds.minimum_duration_ms <= asked.resolved->0.duration_ms
                    <= bounds.maximum_duration_ms
                &&& next.shock_status == state.shock_status
            }
            &&& request is None && wanted ==> {
                &&& next.shock_status matches Some(ShockStatus::Skipped { request: skipped, .. })
                &&& skipped.trigger.session_id@ == session
                &&& skipped.trigger.sequence == sequence
            }
            &&& !wanted ==> next.shock_status == state.shock_status
            &&& if new {
                next.last_sequence matches Some(last) && last.0@ == session && last.1 == sequence
            } else {
                next.last_sequence == state.last_sequence
            }
        }),
{
    events_are_triggers_of_their_own_kind(event);
    if let Some(id) = state.selected_device {
        target_is_found_where_it_is(state.devices@, id);
    }
}

/// Whatever an event leads to, it changes nothing that the user entered or
/// chose, no connection, and no count of shocks under way.
pub proof fn events_leave_what_was_entered(
    state: AppState,
    event: BridgeEvent,
    resolved: Option<ResolvedShock>,
    next: AppState,
    request: Option<ShockRequest>,
)
    requires
        event_handled(state, event, resolved, next, request),
    ensures
        next == (AppState {
            last_bridge_event: next.last_bridge_event,
            ability_catalog: next.ability_catalog,
            last_sequence: next.last_sequence,
            shock_status: next.shock_status,
            ..state
        }),
        next.last_bridge_event matches Some(kept) && same_event(kept, event),
        event is HookReady ==> next.ability_catalog@.dom().is_empty(),
        event matches BridgeEvent::AbilityCatalog(catalog) ==> next.ability_catalog@ == catalog_of(
            catalog.abilities@,
        ),
        !(event is HookReady || event is AbilityCatalog) ==> next.ability_catalog
            == state.ability_catalog,
{
}

/// A catalog names the ability in each numbered slot by the last entry for it,
/// and no other slot.
pub proof fn catalogs_name_the_numbered_slots(entries: Seq<AbilityCatalogEntry>, slot: u32)
    ensures
        catalog_of(entries).contains_key(slot) <==> slot > 0 && exists|i: int|
            0 <= i < entries.len() && #[trigger] entries[i].ability_slot == slot,
    decreases entries.len(),
{
    if entries.len() > 0 {
        let before = entries.drop_last();
        catalogs_name_the_numbered_slots(before, slot);
        let last = entries.len() - 1;
        if entries[last].ability_slot == slot {
            assert(entries[last].ability_slot == slot);
        } else {
            assert forall|i: int|
                0 <= i < entries.len() && #[trigger] entries[i].ability_slot == slot implies exists|
                j: int,
            | 0 <= j < before.len() && #[trigger] before[j].ability_slot == slot by {
                assert(before[i].ability_slot == slot);
            }
            assert forall|i: int|
                0 <= i < before.len() && #[trigger] before[i].ability_slot == slot implies exists|
                j: int,
            | 0 <= j < entries.len() && #[trigger] entries[j].ability_slot == slot by {
                assert(entries[i].ability_slot == slot);
            }
        }
    }
}

/// The last entry for a numbered slot says what the ability in it is called.
pub proof fn last_entry_of_a_slot_counts(entries: Seq<AbilityCatalogEntry>, at: int)
    requires
        0 <= at < entries.len(),
        entries[at].ability_slot > 0,
        forall|after: int|
            at < after < entries.len() ==> #[trigger] entries[after].ability_slot
                != entries[at].ability_slot,
    ensures
        catalog_of(entries).contains_key(entries[at].ability_slot),
        catalog_of(entries)[entries[at].ability_slot] == entries[at].ability_name,
    decreases entries.len(),
{
    let before = entries.drop_last();
    if at < entries.len() - 1 {
        assert forall|after: int| at < after < before.len() implies #[trigger] before[after].ability_slot
            != before[at].ability_slot by {
            assert(entries[after].ability_slot != entries[at].ability_slot);
        }
        last_entry_of_a_slot_counts(before, at);
        assert(entries[entries.len() - 1].ability_slot != entries[at].ability_slot);
    }
}

/// A connection that fails leaves no provider connected and no target listed,
/// and tells why; what was entered, chosen and preferred stays, and so does
/// what was heard of.
pub proof fn failed_connections_are_told(state: AppState, error: ProviderError, next: AppState)
    requires
        connection_failed(state, error, next),
    ensures
        next.client is None,
        next.credential_state is Invalid,
        next.devices@.len() == 0,
        next.selected_device is None,
        next.selected() is None,
        next.connection_error matches Some(told) && told@ == error.sentence(),
        !next.sound_pending && next.sound_status is None,
        next.preferred_target == state.preferred_target,
        next.provider == state.provider,
        next.username == state.username,
        next.api_key == state.api_key,
        next.openshock_token == state.openshock_token,
        next.triggers == state.triggers,
        next.log_path == state.log_path,
        next.last_sequence == state.last_sequence,
        next.shock_in_flight == state.shock_in_flight,
        next.shock_status == state.shock_status,
        next.bridge_listener == state.bridge_listener,
        next.bridge_events == state.bridge_events,
        next.connection_testing == state.connection_testing,
{
}

/// A connection that succeeds leaves its provider connected and its targets
/// listed in their order. Selected and preferred is the target that was
/// preferred before, where it is listed, else the first one listed, else none;
/// what was entered and heard of stays.
pub proof fn successful_connections_select_a_target(
    state: AppState,
    client: ConnectedProvider,
    devices: Vec<ProviderTarget>,
    next: AppState,
)
    requires
        connection_settled(state, Ok((client, devices)), next),
    ensures
        next.client == Some(client),
        next.credential_state is Valid,
        next.connection_error is None,
        next.devices@ == devices@,
        next.sound_status is None,
        next.preferred_target == next.selected_device,
        if state.preferred_target matches Some(id) && exists|i: int|
            0 <= i < devices@.len() && same_id(#[trigger] devices@[i].id, id) {
            next.selected_device == state.preferred_target
        } else if devices@.len() > 0 {
            next.selected_device == Some(devices@[0].id)
        } else {
            next.selected_device is None
        },
        devices@.len() > 0 ==> (next.selected() matches Some(target) && devices@.contains(target)),
        next.provider == state.provider,
        next.username == state.username,
        next.api_key == state.api_key,
        next.openshock_token == state.openshock_token,
        next.triggers == state.triggers,
        next.log_path == state.log_path,
        next.last_sequence == state.last_sequence,
        next.shock_in_flight == state.shock_in_flight,
        next.shock_status == state.shock_status,
        next.bridge_listener == state.bridge_listener,
        next.bridge_events == state.bridge_events,
        next.connection_testing == state.connection_testing,
        next.sound_pending == state.sound_pending,
{
    if let Some(id) = state.preferred_target {
        target_is_found_where_it_is(devices@, id);
    }
    if devices@.len() > 0 {
        let first = devices@[0].id;
        assert(same_id(first, first));
        target_is_found_where_it_is(devices@, first);
    }
}

/// Forgetting a connection forgets the client, the targets and the news of
/// both, and nothing else.
pub proof fn forgotten_connections_leave_what_was_entered(state: AppState, next: AppState)
    requires
        connection_reset(state, next),
    ensures
        next.client is None,
        next.credential_state is Unknown,
        !next.connection_testing,
        next.devices@.len() == 0,
        next.selected_device is None,
        next.connection_error is None,
        !next.sound_pending,
        next.sound_status is None,
        next.provider == state.provider,
        next.username == state.username,
        next.api_key == state.api_key,
        next.openshock_token == state.openshock_token,
        next.preferred_target == state.preferred_target,
        next.triggers == state.triggers,
        next.log_path == state.log_path,
        next.last_sequence == state.last_sequence,
        next.shock_in_flight == state.shock_in_flight,
        next.shock_status == state.shock_status,
        next.bridge_listener == state.bridge_listener,
        next.bridge_events == state.bridge_events,
        next.ability_catalog == state.ability_catalog,
        next.selected_section == state.selected_section,
        next.selected_effect == state.selected_effect,
{
}

/// The news of a test sound tells whether it was sent, and if not, why; the
/// colour tells success from failure, and nothing else changes.
pub proof fn sounds_are_told_of(state: AppState, result: SoundResult, next: AppState)
    requires
        sound_settled(state, result, next),
    ensures
        next == (AppState { sound_status: next.sound_status, ..state }),
        next.sound_status matches Some(status) && {
            &&& result is Ok ==> status is Sent && status.shade() is Success
            &&& result matches Err(error) ==> {
                &&& status is Failed
                &&& status.shade() is Failure
                &&& status.description() == "Test sound failed: "@ + error.sentence()
            }
        },
{
}

/// What became of a queued shock is told of that shock: that it was sent, why
/// it failed, or why it was skipped. One shock fewer is under way, and nothing
/// else changes.
pub proof fn settled_shocks_are_told_of(
    state: AppState,
    completion: ShockCompletion,
    next: AppState,
)
    requires
        shock_settled(state, completion, next),
    ensures
        next == (AppState {
            shock_in_flight: next.shock_in_flight,
            shock_status: next.shock_status,
            ..state
        }),
        state.shock_in_flight > 0 ==> next.shock_in_flight + 1 == state.shock_in_flight,
        state.shock_in_flight == 0 ==> next.shock_in_flight == 0,
        match completion.result {
            ShockCompletionResult::Completed(Ok(_)) => next.shock_status matches Some(
                ShockStatus::Sent(request),
            ) && request == completion.request,
            ShockCompletionResult::Completed(Err(failure)) => next.shock_status matches Some(
                ShockStatus::Failed { request, error },
            ) && request == completion.request && error@ == failure.sentence(),
            ShockCompletionResult::Skipped { reason } => next.shock_status matches Some(
                ShockStatus::Skipped { request, reason: told },
            ) && request == completion.request && told@ == reason@,
        },
{
}

/// Work is under way while a connection is tested, a sound is made or a shock
/// was queued, and at no other time.
pub proof fn work_is_under_way_while_something_is_awaited(state: AppState)
    ensures
        state.connection_testing ==> state.busy(),
        state.sound_pending ==> state.busy(),
        state.shock_in_flight > 0 ==> state.busy(),
        state.busy() ==> state.connection_testing || state.sound_pending || state.shock_in_flight
            > 0,
{
}

/// At first nothing was entered, PiShock is the provider, deaths alone cause
/// shocks, no log is followed, and nothing is connected or was heard of.
pub proof fn first_state_holds_nothing(state: AppState)
    requires
        state.initial(),
    ensures
        state.provider is PiShock,
        state.username@.len() == 0 && state.api_key@.len() == 0 && state.openshock_token@.len()
            == 0,
        state.log_path@.len() == 0,
        state.client is None,
        state.credential_state is Unknown,
        state.devices@.len() == 0,
        state.selected_device is None && state.preferred_target is None,
        state.connection_error is None && state.sound_status is None,
        !state.connection_testing && !state.sound_pending && state.shock_in_flight == 0,
        !state.busy(),
        state.triggers.death.enabled,
        !state.triggers.ability_use.trigger.enabled,
        !state.triggers.ability_cooldown_ready.trigger.enabled,
        state.shock_status is None && state.last_sequence is None,
        state.last_bridge_event is None && state.bridge_events is None,
        state.ability_catalog@.dom().is_empty(),
        state.log_detection_status is None && state.listener_action_error is None,
        state.bridge_listener.status.phase is Stopped,
        !state.bridge_listener.running,
        state.bridge_listener.subscribers@.len() == 0,
        state.selected_section is Setup && state.selected_effect is Death,
        state.copy_source is AbilityUse && state.copy_feedback is None,
{
}

/// After a reset nothing is left of what was entered, connected, chosen for the
/// triggers, followed or heard of; what the window shows stays.
pub proof fn reset_leaves_nothing(state: AppState, next: AppState)
    requires
        reset_applied(state, next),
    ensures
        next.provider is PiShock,
        next.username@.len() == 0 && next.api_key@.len() == 0 && next.openshock_token@.len() == 0,
        next.log_path@.len() == 0,
        next.client is None,
        next.credential_state is Unknown,
        next.devices@.len() == 0,
        next.selected_device is None && next.preferred_target is None,
        next.connection_error is None && next.sound_status is None,
        !next.connection_testing && !next.sound_pending && next.shock_in_flight == 0,
        next.triggers == default_triggers(),
        next.shock_status is None && next.last_sequence is None,
        next.last_bridge_event is None && next.bridge_events is None,
        next.ability_catalog@.dom().is_empty(),
        next.log_detection_status is None && next.listener_action_error is None,
        next.bridge_listener.status.phase is Stopped,
        !next.bridge_listener.running,
        next.bridge_listener.subscribers@.len() == 0,
        next.copy_feedback is None,
        next.selected_section == state.selected_section,
        next.selected_effect == state.selected_effect,
        next.copy_source == state.copy_source,
{
}

/// Once a log is to be followed there is one subscription to it, which the
/// listener knows, and a log that is followed already is not begun anew.
/// Nothing but the listener and the subscription changes.
pub proof fn listening_subscribes_once(
    state: AppState,
    path: Seq<char>,
    needed: bool,
    next: AppState,
)
    requires
        listening_begun(state, path, needed, next),
    ensures
        next == (AppState {
            bridge_events: next.bridge_events,
            bridge_listener: next.bridge_listener,
            ..state
        }),
        next.bridge_events is Some,
        state.bridge_events is Some ==> next.bridge_events == state.bridge_events
            && next.bridge_listener.subscribers == state.bridge_listener.subscribers,
        state.bridge_events is None ==> next.bridge_listener.subscribers@
            == state.bridge_listener.subscribers@.push(next.bridge_events->0)
            && next.bridge_listener.next_subscriber == next.bridge_events->0 + 1
            && next.bridge_events->0 == state.bridge_listener.next_subscriber,
        !needed <==> state.bridge_listener.running && (
        state.bridge_listener.status.configured_path matches Some(followed) && followed@ == path),
        !needed ==> next.bridge_listener.running && next.bridge_listener.status
            == state.bridge_listener.status,
        needed ==> !next.bridge_listener.running && next.bridge_listener.status.phase is Stopped
            && next.bridge_listener.status.current_error is None,
{
}

/// A search for the log that failed reads as it was told, and so does a test
/// sound that failed.
pub proof fn failures_read_as_they_were_told(message: String)
    ensures
        LogDetectionStatus::Failed(message).description() == message@,
        SoundStatus::Failed(message).description() == message@,
{
}

/// Changing the provider while work is under way, or to the one that it is
/// already, does nothing. Otherwise it forgets the connection, its targets and
/// the preferred one, closes the client, and keeps everything that was
/// entered.
pub proof fn changed_providers_start_over()
    ensures
        forall|state: &mut AppState, provider: ProviderKind, closed: Option<ConnectedProvider>|
            #[trigger] call_ensures(AppState::set_provider, (state, provider), closed) ==> if
                state.provider == provider || state.connection_testing || state.sound_pending
                || state.shock_in_flight > 0 {
                *final(state) == *state && closed is None
            } else {
                &&& final(state).provider == provider
                &&& final(state).preferred_target is None
                &&& final(state).selected_device is None
                &&& final(state).devices@.len() == 0
                &&& final(state).client is None
                &&& closed == state.client
                &&& final(state).username == state.username
                &&& final(state).api_key == state.api_key
                &&& final(state).openshock_token == state.openshock_token
                &&& final(state).triggers == state.triggers
                &&& final(state).log_path == state.log_path
            },
{
}

/// A connection test begins with the credentials of the chosen provider,
/// closes the client that was connected, and until it is settled counts as
/// under way; what was entered and preferred stays.
pub proof fn connection_tests_begin_with_what_was_entered()
    ensures
        forall|state: &mut AppState, test: (Login, Option<ConnectedProvider>)|
            #[trigger] call_ensures(AppState::start_connection_test, (state,), test) ==> {
                &&& test.0 is PiShock <==> state.provider is PiShock
                &&& test.0 matches Login::PiShock { credentials, .. } ==> credentials.username@
                    == trimmed(state.username@) && credentials.api_key@ == trimmed(state.api_key@)
                &&& test.0 matches Login::OpenShock { token, .. } ==> token@ == trimmed(
                    state.openshock_token@,
                )
                &&& test.1 == state.client
                &&& final(state).client is None
                &&& final(state).connection_testing
                &&& final(state).credential_state is Testing
                &&& final(state).devices@.len() == 0
                &&& final(state).provider == state.provider
                &&& final(state).username == state.username
                &&& final(state).api_key == state.api_key
                &&& final(state).openshock_token == state.openshock_token
                &&& final(state).preferred_target == state.preferred_target
                &&& final(state).triggers == state.triggers
            },
{
}

/// A target is selected, and preferred from then on, if and only if it is
/// listed; nothing else changes but the news of a test sound.
pub proof fn listed_targets_can_be_selected()
    ensures
        forall|state: &mut AppState, target: TargetId, selected: bool|
            #[trigger] call_ensures(AppState::select_device, (state, target), selected) ==> {
                &&& selected <==> exists|i: int|
                    0 <= i < state.devices@.len() && same_id(#[trigger] state.devices@[i].id, target)
                &&& selected ==> final(state).selected_device == Some(target)
                    && final(state).preferred_target == Some(target)
                &&& *final(state) == (AppState {
                    selected_device: final(state).selected_device,
                    preferred_target: final(state).preferred_target,
                    sound_status: final(state).sound_status,
                    ..*state
                })
                &&& !selected ==> *final(state) == *state
            },
{
    assert forall|state: &mut AppState, target: TargetId, selected: bool|
        #[trigger] call_ensures(AppState::select_device, (state, target), selected) implies {
        &&& selected <==> exists|i: int|
            0 <= i < state.devices@.len() && same_id(#[trigger] state.devices@[i].id, target)
        &&& selected ==> final(state).selected_device == Some(target)
            && final(state).preferred_target == Some(target)
        &&& *final(state) == (AppState {
            selected_device: final(state).selected_device,
            preferred_target: final(state).preferred_target,
            sound_status: final(state).sound_status,
            ..*state
        })
        &&& !selected ==> *final(state) == *state
    } by {
        target_is_found_where_it_is(state.devices@, target);
    }
}

/// Copying gives the one trigger the shock settings of the other, and leaves
/// every switch, every filter and the settings of the source and of the third
/// trigger as they are; settings are not copied onto themselves.
pub proof fn copied_settings_reach_one_trigger()
    ensures
        forall|state: &mut AppState, source: TriggerKind, destination: TriggerKind, copied: bool|
            #[trigger] call_ensures(
                AppState::copy_shock_settings,
                (state, source, destination),
                copied,
            ) ==> {
                let (before, after) = (state.triggers, final(state).triggers);
                let shock = match source {
                    TriggerKind::Death => before.death.shock,
                    TriggerKind::AbilityUse => before.ability_use.trigger.shock,
                    TriggerKind::AbilityCooldownReady =>
                        before.ability_cooldown_ready.trigger.shock,
                };
                &&& copied <==> source != destination
                &&& after.death.enabled == before.death.enabled
                &&& after.ability_use.trigger.enabled == before.ability_use.trigger.enabled
                &&& after.ability_cooldown_ready.trigger.enabled
                    == before.ability_cooldown_ready.trigger.enabled
                &&& after.ability_use.ability_filter == before.ability_use.ability_filter
                &&& after.ability_cooldown_ready.ability_filter
                    == before.ability_cooldown_ready.ability_filter
                &&& after.death.shock == if destination is Death {
                    shock
                } else {
                    before.death.shock
                }
                &&& after.ability_use.trigger.shock == if destination is AbilityUse {
                    shock
                } else {
                    before.ability_use.trigger.shock
                }
                &&& after.ability_cooldown_ready.trigger.shock
                    == if destination is AbilityCooldownReady {
                    shock
                } else {
                    before.ability_cooldown_ready.trigger.shock
                }
                &&& final(state).last_sequence == state.last_sequence
                &&& final(state).client == state.client
            },
{
}

/// A shock counts as under way once it was queued, and only then; where it was
/// not, the news says so of that shock. Once it is known what became of it, it
/// is under way no longer.
pub proof fn queued_shocks_are_counted()
    ensures
        forall|state: &mut AppState, request: ShockRequest, result: ShockEnqueueResult|
            #[trigger] call_ensures(
                AppState::apply_shock_enqueue_result,
                (state, request, result),
                (),
            ) ==> {
                &&& result is Accepted && state.shock_in_flight < usize::MAX
                    ==> final(state).shock_in_flight == state.shock_in_flight + 1
                &&& !(result is Accepted) ==> final(state).shock_in_flight == state.shock_in_flight
                &&& final(state).shock_status matches Some(status) && {
                    &&& status.about() == request
                    &&& result is Accepted <==> status is Sending
                    &&& result is Full <==> status is Skipped
                    &&& result is Disconnected <==> status is Failed
                }
                &&& final(state).last_sequence == state.last_sequence
                &&& final(state).triggers == state.triggers
            },
        forall|state: &mut AppState, completion: ShockCompletion|
            #[trigger] call_ensures(AppState::apply_shock_completion, (state, completion), ()) ==> {
                &&& state.shock_in_flight > 0 ==> final(state).shock_in_flight + 1
                    == state.shock_in_flight
                &&& state.shock_in_flight == 0 ==> final(state).shock_in_flight == 0
                &&& final(state).shock_status matches Some(status) && status.about()
                    == completion.request
            },
{
}

/// A test sound begins if and only if a provider is connected and the selected
/// target listed, and counts as under way until it is settled.
pub proof fn sounds_begin_where_they_can()
    ensures
        forall|state: &mut AppState, command: Option<Result<SoundCommand, ProviderError>>|
            #[trigger] call_ensures(AppState::start_sound, (state,), command) ==> {
                &&& command is Some <==> state.client is Some && state.selected() is Some
                &&& command is Some ==> final(state).sound_pending && final(state).sound_status
                    == Some(SoundStatus::Sending)
                &&& command is None ==> *final(state) == *state
                &&& final(state).selected_device == state.selected_device
                &&& final(state).preferred_target == state.preferred_target
                &&& final(state).client == state.client
            },
{
}

/// Nothing is reset while work is under way; otherwise nothing of what was
/// entered, connected or heard of is left.
pub proof fn resets_wait_for_work_under_way()
    ensures
        forall|state: &mut AppState, done: bool|
            #[trigger] call_ensures(AppState::reset_saved_state, (state,), done) ==> {
                &&& done <==> !state.connection_testing && !state.sound_pending
                    && state.shock_in_flight == 0
                &&& !done ==> *final(state) == *state
                &&& done ==> {
                    &&& final(state).provider is PiShock
                    &&& final(state).username@.len() == 0
                    &&& final(state).api_key@.len() == 0
                    &&& final(state).openshock_token@.len() == 0
                    &&& final(state).preferred_target is None
                    &&& final(state).log_path@.len() == 0
                    &&& final(state).client is None
                    &&& final(state).triggers == default_triggers()
                    &&& final(state).last_sequence is None
                }
            },
{
}

/// Nothing that comes of a connection test, a test sound or the log is taken
/// over unless it was asked for.
pub proof fn only_what_was_asked_for_is_taken_over()
    ensures
        forall|state: &mut AppState, poll: Poll<ConnectionResult>|
            #[trigger] call_ensures(AppState::poll_connection_test, (state, poll), ()) ==> {
                &&& !state.connection_testing || poll is Empty ==> *final(state) == *state
                &&& state.connection_testing && !(poll is Empty) ==> !final(state).connection_testing
                &&& state.connection_testing && poll is Closed ==> final(state).client is None
                    && final(state).credential_state is Invalid
            },
        forall|state: &mut AppState, poll: Poll<SoundResult>|
            #[trigger] call_ensures(AppState::poll_sound, (state, poll), ()) ==> {
                &&& !state.sound_pending || poll is Empty ==> *final(state) == *state
                &&& state.sound_pending && !(poll is Empty) ==> !final(state).sound_pending
            },
        forall|state: &mut AppState, poll: Poll<BridgeEvent>, outcome: (bool, Option<ShockRequest>)|
            #[trigger] call_ensures(AppState::poll_bridge_events, (state, poll), outcome) ==> {
                &&& state.bridge_events is None || !(poll is Ready) ==> outcome.1 is None
                    && final(state).last_sequence == state.last_sequence
                &&& outcome.0 <==> state.bridge_events is Some && poll is Ready
            },
{
}

/// The trigger that settings are copied from is never the one shown; it
/// changes only where it would be.
pub proof fn copy_source_differs_from_what_is_shown()
    ensures
        forall|state: &mut AppState, kind: TriggerKind|
            #[trigger] call_ensures(AppState::select_effect, (state, kind), ()) ==> {
                &&& final(state).selected_effect == kind
                &&& final(state).copy_source != kind
                &&& state.copy_source != kind ==> final(state).copy_source == state.copy_source
                &&& final(state).copy_feedback is None
                &&& final(state).triggers == state.triggers
            },
{
}

/// A new event whose kind is switched on and whose ability counts leads to a
/// shock of its own kind, for the selected target and within the bounds of its
/// own settings, whenever a provider is connected, a target selected and those
/// settings come to a shock; no other event does.
pub proof fn handled_events_shock_by_their_own_settings()
    ensures
        forall|state: &mut AppState, event: BridgeEvent, request: Option<ShockRequest>|
            #[trigger] call_ensures(AppState::handle_event, (state, event), request) ==> match event {
                BridgeEvent::LocalPlayerDeath(death) => leads_to(
                    *state,
                    death.session_id@,
                    death.sequence,
                    state.triggers.death,
                    true,
                    TriggerKind::Death,
                    request,
                ),
                BridgeEvent::AbilityUsed(ability) => leads_to(
                    *state,
                    ability.session_id@,
                    ability.sequence,
                    state.triggers.ability_use.trigger,
                    match state.triggers.ability_use.ability_filter {
                        AbilityFilter::All => true,
                        AbilityFilter::Selected(slots) => slots@.contains(ability.ability_slot),
                    },
                    TriggerKind::AbilityUse,
                    request,
                ),
                BridgeEvent::AbilityCooldownReady(ability) => leads_to(
                    *state,
                    ability.session_id@,
                    ability.sequence,
                    state.triggers.ability_cooldown_ready.trigger,
                    match state.triggers.ability_cooldown_ready.ability_filter {
                        AbilityFilter::All => true,
                        AbilityFilter::Selected(slots) => slots@.contains(ability.ability_slot),
                    },
                    TriggerKind::AbilityCooldownReady,
                    request,
                ),
                _ => request is None,
            },
{
    assert forall|state: &mut AppState, event: BridgeEvent, request: Option<ShockRequest>|
        #[trigger] call_ensures(AppState::handle_event, (state, event), request) implies match event {
        BridgeEvent::LocalPlayerDeath(death) => leads_to(
            *state,
            death.session_id@,
            death.sequence,
            state.triggers.death,
            true,
            TriggerKind::Death,
            request,
        ),
        BridgeEvent::AbilityUsed(ability) => leads_to(
            *state,
            ability.session_id@,
            ability.sequence,
            state.triggers.ability_use.trigger,
            match state.triggers.ability_use.ability_filter {
                AbilityFilter::All => true,
                AbilityFilter::Selected(slots) => slots@.contains(ability.ability_slot),
            },
            TriggerKind::AbilityUse,
            request,
        ),
        BridgeEvent::AbilityCooldownReady(ability) => leads_to(
            *state,
            ability.session_id@,
            ability.sequence,
            state.triggers.ability_cooldown_ready.trigger,
            match state.triggers.ability_cooldown_ready.ability_filter {
                AbilityFilter::All => true,
                AbilityFilter::Selected(slots) => slots@.contains(ability.ability_slot),
            },
            TriggerKind::AbilityCooldownReady,
            request,
        ),
        _ => request is None,
    } by {
        let (before, after) = (*state, *final(state));
        let resolved = choose|resolved: Option<ResolvedShock>|
            {
                &&& #[trigger] event_may_resolve_to(before, event, resolved)
                &&& event_handled(before, event, resolved, after, request)
            };
        if event is HookReady || event is AbilityCatalog {
            other_events_trigger_nothing(before, event, resolved, after, request);
        } else {
            events_lead_to_shocks_of_their_own_kind(before, event, resolved, after, request);
            if let Some(id) = before.selected_device {
                target_is_found_where_it_is(before.devices@, id);
            }
        }
    }
}

/// Whether `request` is what a trigger of a session and number leads to, given
/// its settings, whether its ability counts, and its kind.
pub open spec fn leads_to(
    state: AppState,
    session: Seq<char>,
    sequence: u64,
    settings: TriggerSettings,
    counts: bool,
    kind: TriggerKind,
    request: Option<ShockRequest>,
) -> bool {
    &&& request is Some <==> {
        &&& match state.last_sequence {
            Some(last) => last.0@ != session || last.1 < sequence,
            None => true,
        }
        &&& settings.enabled
        &&& counts
        &&& state.client is Some
        &&& state.selected() is Some
        &&& settings.shock.allowed() is Some
    }
    &&& request matches Some(asked) ==> {
        &&& asked.trigger.kind == kind
        &&& asked.trigger.session_id@ == session
        &&& asked.trigger.sequence == sequence
        &&& asked.resolved matches Some(shock) && settings.shock.allowed() matches Some(bounds)
            && bounds.minimum_intensity <= shock.intensity <= bounds.maximum_intensity
            && bounds.minimum_duration_ms <= shock.duration_ms <= bounds.maximum_duration_ms
    }
}

/// A path that was entered is followed without the white space around it;
/// without one nothing is followed and the user is told. A log that was
/// searched for and found, or is yet to be created, becomes the entered path
/// and is followed; a search that failed leaves the path as it was.
pub proof fn logs_are_followed_where_they_were_found()
    ensures
        forall|state: &mut AppState, start: Option<ListenerStart>|
            #[trigger] call_ensures(AppState::start_listener_from_input, (state,), start) ==> {
                &&& start is None <==> blank(state.log_path@)
                &&& start matches Some(begun) ==> begun.path@ == trimmed(state.log_path@)
                    && final(state).bridge_events is Some
                &&& start is None ==> final(state).listener_action_error is Some
                    && final(state).bridge_events == state.bridge_events
                &&& final(state).log_path == state.log_path
            },
        forall|
            state: &mut AppState,
            result: Result<Detection, String>,
            start: Option<(ListenerStart, LogDetectionStatus)>,
        |
            #[trigger] call_ensures(AppState::apply_log_detection, (state, result), start) ==> {
                &&& result is Ok <==> start is Some
                &&& result matches Ok(Detection::Ready { path }) ==> final(state).log_path@ == path@
                    && (start matches Some((begun, status)) && begun.path@ == path@
                    && status is Found)
                &&& result matches Ok(Detection::NotCreated { path }) ==> final(state).log_path@
                    == path@ && (start matches Some((begun, status)) && begun.path@ == path@
                    && status is NotCreated)
                &&& result is Ok ==> final(state).bridge_events is Some
                &&& result is Err ==> final(state).log_path == state.log_path && (
                final(state).log_detection_status matches Some(status) && status is Failed)
            },
{
}

} // verus!
