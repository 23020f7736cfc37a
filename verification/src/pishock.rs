//! A PiShock client without its network: which requests are made, and what
//! the answers to them mean.
//!
//! A [`Device`] is a PiShock hub and contains its owned [`Shocker`]s. Legacy
//! information and commands instead address a shocker through a share code.
//! Each operation first hands out the request to send; the answer, as a
//! [`Reply`], then gives the operation's result. No operation asks for a
//! second request.

use vstd::prelude::*;

use crate::text::{
    blank, decimal, decimal_text, has_prefix, is_blank, joined,
    nothing_is_replaced_where_nothing_stands, occurs, occurs_at, pieces_between, quoted,
    quoted_text, replace, replaced, replacement_takes_every_occurrence, same_text, trim, trimmed,
    white_space,
};

verus! {

/// The longest duration of a command, in seconds.
pub const MAX_DURATION: u8 = 15;

/// The highest intensity of a command.
pub const MAX_INTENSITY: u8 = 100;

/// A PiShock username and API key.
///
/// The debug text always redacts the API key.
#[derive(Clone)]
pub struct Credentials {
    pub username: String,
    pub api_key: String,
}

impl Credentials {
    /// Creates credentials. Values are validated by [`PiShockClient::connect`].
    pub fn new(username: &str, api_key: &str) -> (credentials: Self)
        ensures
            credentials.username@ == username@,
            credentials.api_key@ == api_key@,
    {
        Self { username: username.to_owned(), api_key: api_key.to_owned() }
    }

    /// A copy of the credentials.
    pub fn duplicate(&self) -> (copy: Self)
        ensures
            copy == *self,
    {
        Self { username: self.username.clone(), api_key: self.api_key.clone() }
    }

    /// Renders the credentials for diagnostics, without the API key.
    pub fn debug_text(&self) -> (text: String)
        ensures
            text@ == credentials_debug(self.username@),
    {
        let mut text = "Credentials { username: ".to_owned();
        let username = quoted_text(self.username.as_str());
        text.append(username.as_str());
        text.append(", api_key: \"[REDACTED]\" }");
        text
    }
}

/// The debug text of credentials: a function of the username alone.
pub open spec fn credentials_debug(username: Seq<char>) -> Seq<char> {
    "Credentials { username: "@ + quoted(username) + ", api_key: \"[REDACTED]\" }"@
}

/// An owned PiShock hub and the shockers paired to it.
#[derive(Clone, Debug, Eq, PartialEq)]
pub struct Device {
    /// The hub's client ID.
    pub client_id: u64,
    /// The hub's display name.
    pub name: String,
    /// The owning user's ID.
    pub user_id: u64,
    /// The owning user's username.
    pub username: String,
    /// Shockers paired to this hub.
    pub shockers: Vec<Shocker>,
}

/// A shocker paired to an owned hub.
#[derive(Clone, Debug, Eq, PartialEq)]
pub struct Shocker {
    /// The shocker's display name.
    pub name: String,
    /// The shocker's ID within PiShock.
    pub shocker_id: u64,
    /// Whether commands to the shocker are paused.
    pub is_paused: bool,
}

/// Whether two values describe the same hub in every field.
pub open spec fn same_device(a: Device, b: Device) -> bool {
    &&& a.client_id == b.client_id
    &&& a.name == b.name
    &&& a.user_id == b.user_id
    &&& a.username == b.username
    &&& a.shockers@ == b.shockers@
}

impl Device {
    /// A copy of the device.
    pub fn duplicate(&self) -> (copy: Self)
        ensures
            same_device(copy, *self),
    {
        let mut shockers: Vec<Shocker> = Vec::new();
        let mut i: usize = 0;
        while i < self.shockers.len()
            invariant
                i <= self.shockers@.len(),
                shockers@ == self.shockers@.take(i as int),
            decreases self.shockers@.len() - i,
        {
            let shocker = &self.shockers[i];
            shockers.push(
                Shocker {
                    name: shocker.name.clone(),
                    shocker_id: shocker.shocker_id,
                    is_paused: shocker.is_paused,
                },
            );
            assert(shockers@ =~= self.shockers@.take(i + 1));
            i += 1;
        }
        assert(self.shockers@.take(i as int) =~= self.shockers@);
        Device {
            client_id: self.client_id,
            name: self.name.clone(),
            user_id: self.user_id,
            username: self.username.clone(),
            shockers,
        }
    }
}

/// Information and share limits for a share-code command target.
#[derive(Clone, Debug, Eq, PartialEq)]
pub struct ShockerInfo {
    /// The client ID of the hub hosting the shocker.
    pub client_id: u64,
    /// The shocker's ID within PiShock.
    pub id: u64,
    /// The shocker's display name.
    pub name: String,
    /// Whether commands are paused.
    pub paused: bool,
    /// The maximum intensity allowed by the share code.
    pub max_intensity: u8,
    /// The maximum duration allowed by the share code.
    pub max_duration: u8,
    /// Whether the hosting hub is connected, when reported by PiShock.
    pub online: Option<bool>,
}

/// An operation sent to a shocker through a share code.
#[derive(Clone, Copy, Debug, Eq, PartialEq)]
pub enum Command {
    /// Shock at `intensity` for `duration` seconds.
    Shock { intensity: u8, duration: u8 },
    /// Vibrate at `intensity` for `duration` seconds.
    Vibrate { intensity: u8, duration: u8 },
    /// Beep for `duration` seconds.
    Beep { duration: u8 },
}

impl Command {
    /// The intensity of the command, where it has one.
    pub open spec fn intensity(self) -> Option<u8> {
        match self {
            Command::Shock { intensity, .. } => Some(intensity),
            Command::Vibrate { intensity, .. } => Some(intensity),
            Command::Beep { .. } => None,
        }
    }

    /// The duration of the command in seconds.
    pub open spec fn duration(self) -> u8 {
        match self {
            Command::Shock { duration, .. } => duration,
            Command::Vibrate { duration, .. } => duration,
            Command::Beep { duration } => duration,
        }
    }

    /// The operation code that stands for the command on the wire.
    pub open spec fn code(self) -> u8 {
        match self {
            Command::Shock { .. } => 0,
            Command::Vibrate { .. } => 1,
            Command::Beep { .. } => 2,
        }
    }
}

/// An error produced by validation or a PiShock API request.
///
/// No variant holds a request's address, so an API key in a query string does
/// not reach an error.
#[derive(Debug, Eq, PartialEq)]
pub enum Error {
    /// The username was empty.
    EmptyUsername,
    /// The API key was empty.
    EmptyApiKey,
    /// The operation-log sender name was empty.
    EmptySender,
    /// A share code was empty.
    EmptyShareCode,
    /// An intensity was outside 1 through 100.
    InvalidIntensity,
    /// A duration was outside 1 through 15 seconds.
    InvalidDuration,
    /// The API key authentication request was rejected.
    AuthenticationRejected,
    /// The share code does not exist.
    ShareCodeNotFound,
    /// The username or API key was not authorized.
    NotAuthorized,
    /// The target shocker is paused or unavailable.
    ShockerPaused,
    /// The target hub is offline.
    DeviceOffline,
    /// The target device or share code is already in use elsewhere.
    ShareCodeInUse,
    /// PiShock rejected the command operation code.
    InvalidOperation,
    /// The share code does not allow the selected operation.
    OperationNotAllowed,
    /// PiShock rejected the requested intensity against share limits.
    IntensityRejected {
        /// The rejection returned by PiShock.
        message: String,
    },
    /// PiShock rejected the requested duration against share limits.
    DurationRejected {
        /// The rejection returned by PiShock.
        message: String,
    },
    /// PiShock returned an otherwise unknown operation rejection.
    OperationRejected {
        /// The trimmed rejection returned by PiShock.
        message: String,
    },
    /// A server returned a non-success HTTP status.
    HttpStatus {
        /// The operation that failed, without its URL.
        operation: &'static str,
        /// The numeric HTTP status.
        status: u16,
    },
    /// A request could not be sent or its response could not be read.
    Transport,
    /// A successful HTTP response did not match PiShock's documented schema.
    Decode {
        /// The operation whose response could not be decoded.
        operation: &'static str,
    },
}

impl Error {
    /// The sentence that tells a user of the error.
    pub open spec fn sentence(self) -> Seq<char> {
        match self {
            Error::EmptyUsername => "username must not be empty"@,
            Error::EmptyApiKey => "API key must not be empty"@,
            Error::EmptySender => "sender name must not be empty"@,
            Error::EmptyShareCode => "share code must not be empty"@,
            Error::InvalidIntensity => "intensity must be between 1 and 100"@,
            Error::InvalidDuration => "duration must be between 1 and 15 seconds"@,
            Error::AuthenticationRejected => "PiShock authentication was rejected"@,
            Error::ShareCodeNotFound => "the share code does not exist"@,
            Error::NotAuthorized => "PiShock did not authorize the request"@,
            Error::ShockerPaused => "the target shocker is paused or unavailable"@,
            Error::DeviceOffline => "the target PiShock hub is not connected"@,
            Error::ShareCodeInUse => "the target PiShock device is already in use"@,
            Error::InvalidOperation => "PiShock rejected the operation code"@,
            Error::OperationNotAllowed => "the share code does not allow this operation"@,
            Error::IntensityRejected { message } => "PiShock rejected the intensity: "@ + message@,
            Error::DurationRejected { message } => "PiShock rejected the duration: "@ + message@,
            Error::OperationRejected { message } => "PiShock rejected the operation: "@ + message@,
            Error::HttpStatus { operation, status } => operation@ + " returned HTTP status "@
                + decimal(status as nat),
            Error::Transport => "PiShock transport error"@,
            Error::Decode { operation } => "invalid PiShock response for "@ + operation@,
        }
    }

    /// Renders the error for a user.
    pub fn to_text(&self) -> (text: String)
        ensures
            text@ == self.sentence(),
    {
        match self {
            Error::EmptyUsername => "username must not be empty".to_owned(),
            Error::EmptyApiKey => "API key must not be empty".to_owned(),
            Error::EmptySender => "sender name must not be empty".to_owned(),
            Error::EmptyShareCode => "share code must not be empty".to_owned(),
            Error::InvalidIntensity => "intensity must be between 1 and 100".to_owned(),
            Error::InvalidDuration => "duration must be between 1 and 15 seconds".to_owned(),
            Error::AuthenticationRejected => "PiShock authentication was rejected".to_owned(),
            Error::ShareCodeNotFound => "the share code does not exist".to_owned(),
            Error::NotAuthorized => "PiShock did not authorize the request".to_owned(),
            Error::ShockerPaused => "the target shocker is paused or unavailable".to_owned(),
            Error::DeviceOffline => "the target PiShock hub is not connected".to_owned(),
            Error::ShareCodeInUse => "the target PiShock device is already in use".to_owned(),
            Error::InvalidOperation => "PiShock rejected the operation code".to_owned(),
            Error::OperationNotAllowed => "the share code does not allow this operation".to_owned(),
            Error::IntensityRejected { message } => {
                "PiShock rejected the intensity: ".to_owned().concat(message.as_str())
            },
            Error::DurationRejected { message } => {
                "PiShock rejected the duration: ".to_owned().concat(message.as_str())
            },
            Error::OperationRejected { message } => {
                "PiShock rejected the operation: ".to_owned().concat(message.as_str())
            },
            Error::HttpStatus { operation, status } => {
                let code = decimal_text(*status as u128);
                (*operation).to_owned().concat(" returned HTTP status ").concat(code.as_str())
            },
            Error::Transport => "PiShock transport error".to_owned(),
            Error::Decode { operation } => {
                "invalid PiShock response for ".to_owned().concat(*operation)
            },
        }
    }
}

/// What became of a request.
pub enum Reply<T> {
    /// The request could not be sent, or no response came.
    Unanswered,
    /// A response came. `body` is what it holds, where it could be read.
    Answered { status: u16, body: Option<T> },
}

/// Where the three PiShock services are.
#[derive(Clone)]
pub struct BaseUrls {
    pub auth: String,
    pub platform: String,
    pub legacy: String,
}

impl BaseUrls {
    /// The production services.
    pub fn production() -> (urls: Self)
        ensures
            urls.auth@ == "https://auth.pishock.com"@,
            urls.platform@ == "https://ps.pishock.com"@,
            urls.legacy@ == "https://do.pishock.com"@,
    {
        Self {
            auth: "https://auth.pishock.com".to_owned(),
            platform: "https://ps.pishock.com".to_owned(),
            legacy: "https://do.pishock.com".to_owned(),
        }
    }
}

/// A request by address and query parameters.
pub struct QueryRequest {
    pub url: String,
    /// Names and values of the query parameters, in order.
    pub query: Vec<(String, String)>,
}

/// The characters of names and values.
pub open spec fn pairs_text(pairs: Seq<(String, String)>) -> Seq<(Seq<char>, Seq<char>)> {
    pairs.map_values(|pair: (String, String)| (pair.0@, pair.1@))
}

/// A request for share limits and status.
pub struct ShockerInfoRequest {
    pub url: String,
    pub username: String,
    pub code: String,
    pub api_key: String,
}

/// A request that makes a shocker act.
pub struct OperationRequest {
    pub url: String,
    pub username: String,
    pub name: String,
    pub code: String,
    /// Left out of the request where it is `None`.
    pub intensity: Option<u8>,
    pub duration: u8,
    pub api_key: String,
    pub operation: u8,
}

/// A PiShock API client.
///
/// The connection authenticates the API key once and stores the resulting user
/// ID.
pub struct PiShockClient {
    pub credentials: Credentials,
    pub sender: String,
    pub user_id: u64,
    pub urls: BaseUrls,
}

/// A connection whose authentication request has yet to be answered.
pub struct PendingConnection {
    pub credentials: Credentials,
    pub sender: String,
    pub urls: BaseUrls,
}

/// What validation says of credentials and a sender name.
pub open spec fn credentials_verdict(credentials: Credentials, sender: Seq<char>) -> Result<
    (),
    Error,
> {
    if blank(credentials.username@) {
        Err(Error::EmptyUsername)
    } else if blank(credentials.api_key@) {
        Err(Error::EmptyApiKey)
    } else if blank(sender) {
        Err(Error::EmptySender)
    } else {
        Ok(())
    }
}

/// Refuses credentials and sender names without a visible character.
pub fn validate_credentials(credentials: &Credentials, sender: &str) -> (verdict: Result<(), Error>)
    ensures
        verdict == credentials_verdict(*credentials, sender@),
{
    if is_blank(credentials.username.as_str()) {
        return Err(Error::EmptyUsername);
    }
    if is_blank(credentials.api_key.as_str()) {
        return Err(Error::EmptyApiKey);
    }
    if is_blank(sender) {
        return Err(Error::EmptySender);
    }
    Ok(())
}

/// What validation says of a share code.
pub open spec fn share_code_verdict(share_code: Seq<char>) -> Result<(), Error> {
    if blank(share_code) {
        Err(Error::EmptyShareCode)
    } else {
        Ok(())
    }
}

/// Refuses share codes without a visible character.
pub fn validate_share_code(share_code: &str) -> (verdict: Result<(), Error>)
    ensures
        verdict == share_code_verdict(share_code@),
{
    if is_blank(share_code) {
        Err(Error::EmptyShareCode)
    } else {
        Ok(())
    }
}

/// What validation says of a command.
pub open spec fn command_verdict(command: Command) -> Result<(), Error> {
    if command.intensity() matches Some(intensity) && !(1 <= intensity <= MAX_INTENSITY) {
        Err(Error::InvalidIntensity)
    } else if !(1 <= command.duration() <= MAX_DURATION) {
        Err(Error::InvalidDuration)
    } else {
        Ok(())
    }
}

/// Refuses commands whose intensity or duration is out of range.
pub fn validate_command(command: Command) -> (verdict: Result<(), Error>)
    ensures
        verdict == command_verdict(command),
{
    let (intensity, duration): (Option<u8>, u8) = match command {
        Command::Shock { intensity, duration } => (Some(intensity), duration),
        Command::Vibrate { intensity, duration } => (Some(intensity), duration),
        Command::Beep { duration } => (None, duration),
    };
    if let Some(value) = intensity {
        if value < 1 || value > MAX_INTENSITY {
            return Err(Error::InvalidIntensity);
        }
    }
    if duration < 1 || duration > MAX_DURATION {
        return Err(Error::InvalidDuration);
    }
    Ok(())
}

/// Whether a status reports success.
pub open spec fn success(status: u16) -> bool {
    200 <= status <= 299
}

/// What the status of an answer means for an operation.
pub open spec fn status_verdict(status: u16, operation: &'static str) -> Result<(), Error> {
    if success(status) {
        Ok(())
    } else if operation@ == "authentication"@ && (status == 401 || status == 403) {
        Err(Error::AuthenticationRejected)
    } else {
        Err(Error::HttpStatus { operation, status })
    }
}

/// Refuses answers whose status reports a failure.
pub fn expect_status(status: u16, operation: &'static str) -> (verdict: Result<(), Error>)
    ensures
        verdict == status_verdict(status, operation),
{
    if 200 <= status && status <= 299 {
        Ok(())
    } else if same_text(operation, "authentication") && (status == 401 || status == 403) {
        Err(Error::AuthenticationRejected)
    } else {
        Err(Error::HttpStatus { operation, status })
    }
}

/// What the status of an answer about a share code means.
pub open spec fn shocker_info_verdict(status: u16) -> Result<(), Error> {
    if status == 404 {
        Err(Error::ShareCodeNotFound)
    } else if status == 401 || status == 403 {
        Err(Error::NotAuthorized)
    } else {
        status_verdict(status, "shocker information")
    }
}

/// Refuses answers about a share code whose status reports a failure.
pub fn expect_shocker_info_status(status: u16) -> (verdict: Result<(), Error>)
    ensures
        verdict == shocker_info_verdict(status),
{
    if status == 404 {
        Err(Error::ShareCodeNotFound)
    } else if status == 401 || status == 403 {
        Err(Error::NotAuthorized)
    } else {
        expect_status(status, "shocker information")
    }
}

/// A rejection without the API key.
pub open spec fn redacted(message: Seq<char>, api_key: Seq<char>) -> Seq<char> {
    replaced(message, api_key, "[REDACTED]"@)
}

/// Puts a marker in place of every occurrence of the API key.
pub fn redact_api_key(message: &str, api_key: &str) -> (text: String)
    ensures
        text@ == redacted(message@, api_key@),
{
    replace(message, api_key, "[REDACTED]")
}

/// Whether `result` is what the body of an answer to a command means.
pub open spec fn operation_result(
    body: Seq<char>,
    api_key: Seq<char>,
    result: Result<(), Error>,
) -> bool {
    if body == "Operation Succeeded."@ {
        result == Ok::<(), Error>(())
    } else if body == "This code doesn’t exist."@ || body == "This code doesn't exist."@ {
        result == Err::<(), Error>(Error::ShareCodeNotFound)
    } else if body == "Not Authorized."@ {
        result == Err::<(), Error>(Error::NotAuthorized)
    } else if body == "Shocker is Paused, unable to send command."@ || body
        == "Shocker is Paused or does not exist. Unpause to send command."@ {
        result == Err::<(), Error>(Error::ShockerPaused)
    } else if body == "Device currently not connected."@ {
        result == Err::<(), Error>(Error::DeviceOffline)
    } else if body == "This share code has already been used by somebody else."@ || body
        == "Device in Use."@ {
        result == Err::<(), Error>(Error::ShareCodeInUse)
    } else if body == "Unknown Op, use 0 for shock, 1 for vibrate and 2 for beep."@ {
        result == Err::<(), Error>(Error::InvalidOperation)
    } else if body == "Shock not allowed."@ || body == "Vibrate not allowed."@ || body
        == "Beep not allowed."@ {
        result == Err::<(), Error>(Error::OperationNotAllowed)
    } else if "Intensity must be between 0 and "@.is_prefix_of(body) {
        result matches Err(Error::IntensityRejected { message }) && message@ == redacted(
            body,
            api_key,
        )
    } else if "Duration must be between 1 and "@.is_prefix_of(body) {
        result matches Err(Error::DurationRejected { message }) && message@ == redacted(
            body,
            api_key,
        )
    } else {
        result matches Err(Error::OperationRejected { message }) && message@ == redacted(
            body,
            api_key,
        )
    }
}

/// Reads the body of an answer to a command.
pub fn parse_operation_response(body: &str, api_key: &str) -> (result: Result<(), Error>)
    ensures
        operation_result(body@, api_key@, result),
{
    if same_text(body, "Operation Succeeded.") {
        Ok(())
    } else if same_text(body, "This code doesn’t exist.") || same_text(
        body,
        "This code doesn't exist.",
    ) {
        Err(Error::ShareCodeNotFound)
    } else if same_text(body, "Not Authorized.") {
        Err(Error::NotAuthorized)
    } else if same_text(body, "Shocker is Paused, unable to send command.") || same_text(
        body,
        "Shocker is Paused or does not exist. Unpause to send command.",
    ) {
        Err(Error::ShockerPaused)
    } else if same_text(body, "Device currently not connected.") {
        Err(Error::DeviceOffline)
    } else if same_text(body, "This share code has already been used by somebody else.")
        || same_text(body, "Device in Use.") {
        Err(Error::ShareCodeInUse)
    } else if same_text(body, "Unknown Op, use 0 for shock, 1 for vibrate and 2 for beep.") {
        Err(Error::InvalidOperation)
    } else if same_text(body, "Shock not allowed.") || same_text(body, "Vibrate not allowed.")
        || same_text(body, "Beep not allowed.") {
        Err(Error::OperationNotAllowed)
    } else if has_prefix(body, "Intensity must be between 0 and ") {
        Err(Error::IntensityRejected { message: redact_api_key(body, api_key) })
    } else if has_prefix(body, "Duration must be between 1 and ") {
        Err(Error::DurationRejected { message: redact_api_key(body, api_key) })
    } else {
        Err(Error::OperationRejected { message: redact_api_key(body, api_key) })
    }
}

/// Whether `shown` is `told` with every stretch of the key replaced by a
/// marker: both are made of the same pieces, and the key stands in none of
/// them.
pub open spec fn key_removed(shown: Seq<char>, told: Seq<char>, api_key: Seq<char>) -> bool {
    exists|pieces: Seq<Seq<char>>|
        {
            &&& #[trigger] joined(pieces, api_key) == told
            &&& joined(pieces, "[REDACTED]"@) == shown
            &&& forall|i: int| 0 <= i < pieces.len() ==> !occurs(#[trigger] pieces[i], api_key)
        }
}

/// A rejection that reaches the caller tells what PiShock said with the API
/// key taken out.
pub proof fn rejections_hide_the_api_key(
    body: Seq<char>,
    api_key: Seq<char>,
    result: Result<(), Error>,
)
    requires
        operation_result(body, api_key, result),
        api_key.len() > 0,
    ensures
        result matches Err(Error::IntensityRejected { message }) ==> key_removed(
            message@,
            body,
            api_key,
        ),
        result matches Err(Error::DurationRejected { message }) ==> key_removed(
            message@,
            body,
            api_key,
        ),
        result matches Err(Error::OperationRejected { message }) ==> key_removed(
            message@,
            body,
            api_key,
        ),
{
    replacement_takes_every_occurrence(body, api_key, "[REDACTED]"@);
    let pieces = pieces_between(body, api_key);
    assert(joined(pieces, api_key) == body);
}

/// Whether a request with this address and these parameters was made.
pub open spec fn query_is(
    request: QueryRequest,
    url: Seq<char>,
    query: Seq<(Seq<char>, Seq<char>)>,
) -> bool {
    request.url@ == url && pairs_text(request.query@) == query
}

/// Whether `result` is what a command request is for this client.
pub open spec fn command_request(
    client: PiShockClient,
    share_code: Seq<char>,
    command: Command,
    result: Result<OperationRequest, Error>,
) -> bool {
    match share_code_verdict(share_code) {
        Err(error) => result == Err::<OperationRequest, Error>(error),
        Ok(_) => match command_verdict(command) {
            Err(error) => result == Err::<OperationRequest, Error>(error),
            Ok(_) => {
                &&& result matches Ok(request)
                &&& request.url@ == client.urls.legacy@ + "/api/apioperate/"@
                &&& request.username == client.credentials.username
                &&& request.name == client.sender
                &&& request.code@ == share_code
                &&& request.intensity == command.intensity()
                &&& request.duration == command.duration()
                &&& request.api_key == client.credentials.api_key
                &&& request.operation == command.code()
            },
        },
    }
}

impl PiShockClient {
    /// Validates credentials and sender name and begins a connection to the
    /// production services.
    pub fn connect(credentials: Credentials, sender_name: &str) -> (pending: Result<
        PendingConnection,
        Error,
    >)
        ensures
            match credentials_verdict(credentials, sender_name@) {
                Ok(_) => {
                    &&& pending matches Ok(p)
                    &&& p.credentials == credentials
                    &&& p.sender@ == sender_name@
                    &&& p.urls.auth@ == "https://auth.pishock.com"@
                    &&& p.urls.platform@ == "https://ps.pishock.com"@
                    &&& p.urls.legacy@ == "https://do.pishock.com"@
                },
                Err(error) => pending == Err::<PendingConnection, Error>(error),
            },
    {
        Self::connect_to(credentials, sender_name.to_owned(), BaseUrls::production())
    }

    /// Validates credentials and sender name and begins a connection to the
    /// services at the given addresses.
    pub fn connect_to(credentials: Credentials, sender: String, urls: BaseUrls) -> (pending: Result<
        PendingConnection,
        Error,
    >)
        ensures
            pending == match credentials_verdict(credentials, sender@) {
                Ok(_) => Ok::<PendingConnection, Error>(
                    (PendingConnection { credentials, sender, urls }),
                ),
                Err(error) => Err(error),
            },
    {
        match validate_credentials(&credentials, sender.as_str()) {
            Ok(_) => Ok(PendingConnection { credentials, sender, urls }),
            Err(error) => Err(error),
        }
    }

    /// The request that lists the authenticated user's owned hubs and their
    /// paired shockers.
    pub fn list_devices(&self) -> (request: QueryRequest)
        ensures
            query_is(
                request,
                self.urls.platform@ + "/PiShock/GetUserDevices"@,
                seq![
                    ("UserId"@, decimal(self.user_id as nat)),
                    ("Token"@, self.credentials.api_key@),
                    ("api"@, "true"@),
                ],
            ),
    {
        let mut query: Vec<(String, String)> = Vec::new();
        query.push(("UserId".to_owned(), decimal_text(self.user_id as u128)));
        query.push(("Token".to_owned(), self.credentials.api_key.clone()));
        query.push(("api".to_owned(), "true".to_owned()));
        let request = QueryRequest {
            url: self.urls.platform.clone().concat("/PiShock/GetUserDevices"),
            query,
        };
        assert(pairs_text(request.query@) =~= seq![
            ("UserId"@, decimal(self.user_id as nat)),
            ("Token"@, self.credentials.api_key@),
            ("api"@, "true"@),
        ]);
        request
    }

    /// The owned hubs, from the answer to the listing request.
    pub fn listed_devices(reply: Reply<Vec<Device>>) -> (devices: Result<Vec<Device>, Error>)
        ensures
            devices == listing(reply),
    {
        match reply {
            Reply::Unanswered => Err(Error::Transport),
            Reply::Answered { status, body } => match expect_status(status, "device listing") {
                Err(error) => Err(error),
                Ok(_) => match body {
                    Some(devices) => Ok(devices),
                    None => Err(Error::Decode { operation: "device listing" }),
                },
            },
        }
    }

    /// The owned hub with `client_id`, if present, from the answer to the
    /// listing request.
    pub fn get_device(client_id: u64, reply: Reply<Vec<Device>>) -> (device: Result<
        Option<Device>,
        Error,
    >)
        ensures
            match listing(reply) {
                Err(error) => device == Err::<Option<Device>, Error>(error),
                Ok(devices) => device matches Ok(found) && device_lookup(
                    devices@,
                    client_id,
                    found,
                ),
            },
    {
        match Self::listed_devices(reply) {
            Err(error) => Err(error),
            Ok(devices) => {
                let mut i: usize = 0;
                while i < devices.len()
                    invariant
                        i <= devices@.len(),
                        forall|j: int|
                            0 <= j < i ==> (#[trigger] devices@[j]).client_id != client_id,
                        listing(reply) == Ok::<Vec<Device>, Error>(devices),
                    decreases devices@.len() - i,
                {
                    if devices[i].client_id == client_id {
                        let found = devices[i].duplicate();
                        assert(first_with_id(devices@, client_id, i as int));
                        return Ok(Some(found));
                    }
                    i += 1;
                }
                Ok(None)
            },
        }
    }

    /// The request for share limits and status of a legacy share code.
    pub fn get_shocker_info(&self, share_code: &str) -> (request: Result<ShockerInfoRequest, Error>)
        ensures
            match share_code_verdict(share_code@) {
                Err(error) => request == Err::<ShockerInfoRequest, Error>(error),
                Ok(_) => {
                    &&& request matches Ok(r)
                    &&& r.url@ == self.urls.legacy@ + "/api/GetShockerInfo"@
                    &&& r.username == self.credentials.username
                    &&& r.code@ == share_code@
                    &&& r.api_key == self.credentials.api_key
                },
            },
    {
        match validate_share_code(share_code) {
            Err(error) => Err(error),
            Ok(_) => Ok(
                ShockerInfoRequest {
                    url: self.urls.legacy.clone().concat("/api/GetShockerInfo"),
                    username: self.credentials.username.clone(),
                    code: share_code.to_owned(),
                    api_key: self.credentials.api_key.clone(),
                },
            ),
        }
    }

    /// Share limits and status, from the answer to their request.
    pub fn shocker_info(reply: Reply<ShockerInfo>) -> (info: Result<ShockerInfo, Error>)
        ensures
            info == match reply {
                Reply::Unanswered => Err::<ShockerInfo, Error>(Error::Transport),
                Reply::Answered { status, body } => match shocker_info_verdict(status) {
                    Err(error) => Err(error),
                    Ok(_) => match body {
                        Some(info) => Ok(info),
                        None => Err(Error::Decode { operation: "shocker information" }),
                    },
                },
            },
    {
        match reply {
            Reply::Unanswered => Err(Error::Transport),
            Reply::Answered { status, body } => match expect_shocker_info_status(status) {
                Err(error) => Err(error),
                Ok(_) => match body {
                    Some(info) => Ok(info),
                    None => Err(Error::Decode { operation: "shocker information" }),
                },
            },
        }
    }

    /// The one request that sends a command to a legacy share-code target.
    pub fn send_command(&self, share_code: &str, command: Command) -> (request: Result<
        OperationRequest,
        Error,
    >)
        ensures
            command_request(*self, share_code@, command, request),
            request matches Ok(asked) ==> match command {
                Command::Shock { intensity, duration } => {
                    asked.operation == 0 && asked.intensity == Some(intensity) && asked.duration
                        == duration
                },
                Command::Vibrate { intensity, duration } => {
                    asked.operation == 1 && asked.intensity == Some(intensity) && asked.duration
                        == duration
                },
                Command::Beep { duration } => {
                    asked.operation == 2 && asked.intensity is None && asked.duration == duration
                },
            },
    {
        match validate_share_code(share_code) {
            Err(error) => return Err(error),
            Ok(_) => {},
        }
        match validate_command(command) {
            Err(error) => return Err(error),
            Ok(_) => {},
        }
        let (operation, intensity, duration): (u8, Option<u8>, u8) = match command {
            Command::Shock { intensity, duration } => (0, Some(intensity), duration),
            Command::Vibrate { intensity, duration } => (1, Some(intensity), duration),
            Command::Beep { duration } => (2, None, duration),
        };
        Ok(
            OperationRequest {
                url: self.urls.legacy.clone().concat("/api/apioperate/"),
                username: self.credentials.username.clone(),
                name: self.sender.clone(),
                code: share_code.to_owned(),
                intensity,
                duration,
                api_key: self.credentials.api_key.clone(),
                operation,
            },
        )
    }

    /// What the answer to a command means.
    pub fn command_outcome(&self, reply: Reply<String>) -> (outcome: Result<(), Error>)
        ensures
            match reply {
                Reply::Unanswered => outcome == Err::<(), Error>(Error::Transport),
                Reply::Answered { status, body } => match status_verdict(status, "command") {
                    Err(error) => outcome == Err::<(), Error>(error),
                    Ok(_) => match body {
                        Some(text) => operation_result(
                            trimmed(text@),
                            self.credentials.api_key@,
                            outcome,
                        ),
                        None => outcome == Err::<(), Error>(Error::Transport),
                    },
                },
            },
    {
        match reply {
            Reply::Unanswered => Err(Error::Transport),
            Reply::Answered { status, body } => match expect_status(status, "command") {
                Err(error) => Err(error),
                Ok(_) => match body {
                    Some(text) => {
                        let core = trim(text.as_str());
                        parse_operation_response(core.as_str(), self.credentials.api_key.as_str())
                    },
                    None => Err(Error::Transport),
                },
            },
        }
    }

    /// The request that shocks a share-code target at `intensity` for
    /// `duration` seconds.
    pub fn shock(&self, share_code: &str, intensity: u8, duration: u8) -> (request: Result<
        OperationRequest,
        Error,
    >)
        ensures
            command_request(
                *self,
                share_code@,
                (Command::Shock { intensity, duration }),
                request,
            ),
            request is Ok <==> !blank(share_code@) && 1 <= intensity <= 100 && 1 <= duration <= 15,
            request matches Ok(asked) ==> {
                &&& asked.operation == 0
                &&& asked.intensity == Some(intensity)
                &&& asked.duration == duration
                &&& asked.code@ == share_code@
            },
    {
        self.send_command(share_code, Command::Shock { intensity, duration })
    }

    /// The request that vibrates a share-code target at `intensity` for
    /// `duration` seconds.
    pub fn vibrate(&self, share_code: &str, intensity: u8, duration: u8) -> (request: Result<
        OperationRequest,
        Error,
    >)
        ensures
            command_request(
                *self,
                share_code@,
                (Command::Vibrate { intensity, duration }),
                request,
            ),
            request is Ok <==> !blank(share_code@) && 1 <= intensity <= 100 && 1 <= duration <= 15,
            request matches Ok(asked) ==> {
                &&& asked.operation == 1
                &&& asked.intensity == Some(intensity)
                &&& asked.duration == duration
                &&& asked.code@ == share_code@
            },
    {
        self.send_command(share_code, Command::Vibrate { intensity, duration })
    }

    /// The request that beeps a share-code target for `duration` seconds.
    pub fn beep(&self, share_code: &str, duration: u8) -> (request: Result<OperationRequest, Error>)
        ensures
            command_request(*self, share_code@, (Command::Beep { duration }), request),
            request is Ok <==> !blank(share_code@) && 1 <= duration <= 15,
            request matches Ok(asked) ==> {
                &&& asked.operation == 2
                &&& asked.intensity is None
                &&& asked.duration == duration
                &&& asked.code@ == share_code@
            },
    {
        self.send_command(share_code, Command::Beep { duration })
    }
}

/// Whether the `i`th hub is the first with `client_id`.
pub open spec fn first_with_id(devices: Seq<Device>, client_id: u64, i: int) -> bool {
    &&& 0 <= i < devices.len()
    &&& devices[i].client_id == client_id
    &&& forall|j: int| 0 <= j < i ==> (#[trigger] devices[j]).client_id != client_id
}

/// Whether `found` is what a search for `client_id` gives.
pub open spec fn device_lookup(
    devices: Seq<Device>,
    client_id: u64,
    found: Option<Device>,
) -> bool {
    match found {
        Some(device) => exists|i: int|
            #[trigger] first_with_id(devices, client_id, i) && same_device(device, devices[i]),
        None => forall|j: int|
            0 <= j < devices.len() ==> (#[trigger] devices[j]).client_id != client_id,
    }
}

/// What the answer to the listing request means.
pub open spec fn listing(reply: Reply<Vec<Device>>) -> Result<Vec<Device>, Error> {
    match reply {
        Reply::Unanswered => Err(Error::Transport),
        Reply::Answered { status, body } => match status_verdict(status, "device listing") {
            Err(error) => Err(error),
            Ok(_) => match body {
                Some(devices) => Ok(devices),
                None => Err(Error::Decode { operation: "device listing" }),
            },
        },
    }
}

impl PendingConnection {
    /// The authentication request.
    pub fn request(&self) -> (request: QueryRequest)
        ensures
            query_is(
                request,
                self.urls.auth@ + "/Auth/GetUserIfAPIKeyValid"@,
                seq![
                    ("apikey"@, self.credentials.api_key@),
                    ("username"@, self.credentials.username@),
                ],
            ),
    {
        let mut query: Vec<(String, String)> = Vec::new();
        query.push(("apikey".to_owned(), self.credentials.api_key.clone()));
        query.push(("username".to_owned(), self.credentials.username.clone()));
        let request = QueryRequest {
            url: self.urls.auth.clone().concat("/Auth/GetUserIfAPIKeyValid"),
            query,
        };
        assert(pairs_text(request.query@) =~= seq![
            ("apikey"@, self.credentials.api_key@),
            ("username"@, self.credentials.username@),
        ]);
        request
    }

    /// The connected client, from the answer to the authentication request,
    /// whose body holds the user ID.
    pub fn finish(self, reply: Reply<u64>) -> (client: Result<PiShockClient, Error>)
        ensures
            client == match reply {
                Reply::Unanswered => Err::<PiShockClient, Error>(Error::Transport),
                Reply::Answered { status, body } => match status_verdict(status, "authentication") {
                    Err(error) => Err(error),
                    Ok(_) => match body {
                        Some(user_id) => Ok(
                            (PiShockClient {
                                credentials: self.credentials,
                                sender: self.sender,
                                user_id,
                                urls: self.urls,
                            }),
                        ),
                        None => Err(Error::Decode { operation: "authentication" }),
                    },
                },
            },
    {
        match reply {
            Reply::Unanswered => Err(Error::Transport),
            Reply::Answered { status, body } => match expect_status(status, "authentication") {
                Err(error) => Err(error),
                Ok(_) => match body {
                    Some(user_id) => Ok(
                        PiShockClient {
                            credentials: self.credentials,
                            sender: self.sender,
                            user_id,
                            urls: self.urls,
                        },
                    ),
                    None => Err(Error::Decode { operation: "authentication" }),
                },
            },
        }
    }
}

/// A command reaches the share code with the caller's own numbers. A command
/// is refused for a blank share code, then for an intensity outside one to one
/// hundred, then for a duration outside one to fifteen seconds, and for
/// nothing else.
pub proof fn commands_carry_the_callers_numbers(
    client: PiShockClient,
    share_code: Seq<char>,
    command: Command,
    result: Result<OperationRequest, Error>,
)
    requires
        command_request(client, share_code, command, result),
    ensures
        ({
            let (strength, seconds) = match command {
                Command::Shock { intensity, duration } => (Some(intensity), duration),
                Command::Vibrate { intensity, duration } => (Some(intensity), duration),
                Command::Beep { duration } => (None, duration),
            };
            let fit = strength matches Some(intensity) ==> 1 <= intensity <= 100;
            match result {
                Ok(request) => {
                    &&& !blank(share_code)
                    &&& fit
                    &&& 1 <= seconds <= 15
                    &&& request.intensity == strength
                    &&& request.duration == seconds
                    &&& command is Shock <==> request.operation == 0
                    &&& command is Vibrate <==> request.operation == 1
                    &&& command is Beep <==> request.operation == 2
                    &&& request.code@ == share_code
                    &&& request.name@ == client.sender@
                    &&& request.username@ == client.credentials.username@
                    &&& request.api_key@ == client.credentials.api_key@
                    &&& request.url@ == client.urls.legacy@ + "/api/apioperate/"@
                },
                Err(error) => {
                    &&& error is EmptyShareCode <==> blank(share_code)
                    &&& error is InvalidIntensity <==> !blank(share_code) && !fit
                    &&& error is InvalidDuration <==> !blank(share_code) && fit
                    &&& error is EmptyShareCode || error is InvalidIntensity
                        || error is InvalidDuration
                    &&& error is InvalidDuration ==> !(1 <= seconds <= 15)
                },
            }
        }),
{
}

/// Two commands that both reach a share code ask for the same only if they are
/// the same.
pub proof fn different_commands_ask_for_different_things(
    client: PiShockClient,
    share_code: Seq<char>,
    a: Command,
    b: Command,
    of_a: OperationRequest,
    of_b: OperationRequest,
)
    requires
        command_request(client, share_code, a, Ok(of_a)),
        command_request(client, share_code, b, Ok(of_b)),
        of_a.operation == of_b.operation,
        of_a.intensity == of_b.intensity,
        of_a.duration == of_b.duration,
    ensures
        a == b,
{
}

/// Credentials are taken if and only if username, key and sender each hold
/// something visible; else the first of them that does not is named.
pub proof fn credentials_are_refused_for_what_is_missing(
    credentials: Credentials,
    sender: Seq<char>,
)
    ensures
        match credentials_verdict(credentials, sender) {
            Ok(_) => !blank(credentials.username@) && !blank(credentials.api_key@)
                && !blank(sender),
            Err(error) => {
                &&& blank(credentials.username@) ==> error is EmptyUsername
                &&& !blank(credentials.username@) && blank(credentials.api_key@)
                    ==> error is EmptyApiKey
                &&& !blank(credentials.username@) && !blank(credentials.api_key@)
                    ==> error is EmptySender && blank(sender)
            },
        },
{
}

/// A share code is taken if and only if it holds something visible.
pub proof fn share_codes_are_refused_where_blank(share_code: Seq<char>)
    ensures
        share_code_verdict(share_code) is Ok <==> exists|i: int|
            0 <= i < share_code.len() && !white_space(#[trigger] share_code[i]),
        share_code_verdict(share_code) matches Err(error) ==> error is EmptyShareCode,
{
}

/// An answer is a success if and only if its status is one of the two
/// hundreds. Any other is told with that status and the operation, but that an
/// unauthorized or forbidden authentication is a rejection, and a share code
/// that is unknown or forbidden is told as such.
pub proof fn statuses_tell_success_from_failure(status: u16, operation: &'static str)
    ensures
        status_verdict(status, operation) is Ok <==> status / 100 == 2,
        status_verdict(status, operation) matches Err(error) ==> match error {
            Error::AuthenticationRejected => operation@ == "authentication"@ && (status == 401
                || status == 403),
            Error::HttpStatus { operation: told, status: code } => told@ == operation@ && code
                == status && !(operation@ == "authentication"@ && (status == 401 || status == 403)),
            _ => false,
        },
        shocker_info_verdict(status) is Ok <==> status / 100 == 2,
        status == 404 <==> shocker_info_verdict(status) == Err::<(), Error>(
            Error::ShareCodeNotFound,
        ),
        status == 401 || status == 403 <==> shocker_info_verdict(status) == Err::<(), Error>(
            Error::NotAuthorized,
        ),
        shocker_info_verdict(status) matches Err(Error::HttpStatus { operation, status: code })
            ==> operation@ == "shocker information"@ && code == status,
        !(shocker_info_verdict(status) matches Err(Error::AuthenticationRejected)),
{
    reveal_strlit("authentication");
    reveal_strlit("shocker information");
    assert("authentication"@.len() != "shocker information"@.len());
}

/// A listing gives exactly the hubs that a successful, readable answer holds;
/// what went wrong otherwise is told.
pub proof fn listings_hold_what_was_answered(reply: Reply<Vec<Device>>)
    ensures
        match reply {
            Reply::Unanswered => listing(reply) matches Err(Error::Transport),
            Reply::Answered { status, body } => if status / 100 == 2 {
                match body {
                    Some(devices) => listing(reply) matches Ok(listed) && listed@ == devices@,
                    None => listing(reply) matches Err(Error::Decode { operation }) && operation@
                        == "device listing"@,
                }
            } else {
                listing(reply) matches Err(Error::HttpStatus { operation, status: code })
                    && operation@ == "device listing"@ && code == status
            },
        },
{
    reveal_strlit("authentication");
    reveal_strlit("device listing");
    assert("authentication"@[0] != "device listing"@[0]);
}

/// A search for a hub finds the first listed one with the wanted identifier,
/// with everything that was listed of it, and nothing where there is none.
pub proof fn searches_find_the_listed_hub(
    devices: Seq<Device>,
    client_id: u64,
    found: Option<Device>,
    at: int,
)
    requires
        device_lookup(devices, client_id, found),
        0 <= at < devices.len(),
        devices[at].client_id == client_id,
        forall|before: int|
            0 <= before < at ==> (#[trigger] devices[before]).client_id != client_id,
    ensures
        found matches Some(device) && {
            &&& device.client_id == client_id
            &&& device.name@ == devices[at].name@
            &&& device.user_id == devices[at].user_id
            &&& device.username@ == devices[at].username@
            &&& device.shockers@ == devices[at].shockers@
        },
{
    if let Some(device) = found {
        let i = choose|i: int|
            #[trigger] first_with_id(devices, client_id, i) && same_device(device, devices[i]);
        assert(first_with_id(devices, client_id, i));
        if i < at {
            assert(devices[i].client_id != client_id);
        }
        if at < i {
            assert(devices[at].client_id != client_id);
        }
    }
}

/// A search for a hub finds none where none is listed under its identifier.
pub proof fn searches_find_no_hub_that_is_not_listed(
    devices: Seq<Device>,
    client_id: u64,
    found: Option<Device>,
)
    requires
        device_lookup(devices, client_id, found),
        forall|i: int| 0 <= i < devices.len() ==> (#[trigger] devices[i]).client_id != client_id,
    ensures
        found is None,
{
}

/// Hubs that are the same agree in every field and in every shocker.
pub proof fn same_hubs_agree_in_every_field(a: Device, b: Device)
    ensures
        same_device(a, b) <==> {
            &&& a.client_id == b.client_id
            &&& a.name == b.name
            &&& a.user_id == b.user_id
            &&& a.username == b.username
            &&& a.shockers@.len() == b.shockers@.len()
            &&& forall|i: int|
                0 <= i < a.shockers@.len() ==> {
                    &&& (#[trigger] a.shockers@[i]).name == b.shockers@[i].name
                    &&& a.shockers@[i].shocker_id == b.shockers@[i].shocker_id
                    &&& a.shockers@[i].is_paused == b.shockers@[i].is_paused
                }
        },
{
    if a.shockers@.len() == b.shockers@.len() && forall|i: int|
        0 <= i < a.shockers@.len() ==> {
            &&& (#[trigger] a.shockers@[i]).name == b.shockers@[i].name
            &&& a.shockers@[i].shocker_id == b.shockers@[i].shocker_id
            &&& a.shockers@[i].is_paused == b.shockers@[i].is_paused
        } {
        assert(a.shockers@ =~= b.shockers@);
    }
}

/// An answer to a command is a success if and only if PiShock says so in these
/// very words; any rejection that is kept in PiShock's own words is kept whole
/// where the key does not stand in it, and one about intensity or duration
/// begins as PiShock's do.
pub proof fn answers_to_commands_are_kept(
    body: Seq<char>,
    api_key: Seq<char>,
    result: Result<(), Error>,
)
    requires
        operation_result(body, api_key, result),
        api_key.len() > 0,
        !occurs(body, api_key),
    ensures
        result is Ok <==> body == "Operation Succeeded."@,
        result matches Err(error) ==> match error {
            Error::IntensityRejected { message } => message@ == body
                && "Intensity must be between 0 and "@.is_prefix_of(body),
            Error::DurationRejected { message } => message@ == body
                && "Duration must be between 1 and "@.is_prefix_of(body),
            Error::OperationRejected { message } => message@ == body
                && !"Intensity must be between 0 and "@.is_prefix_of(body)
                && !"Duration must be between 1 and "@.is_prefix_of(body),
            Error::ShareCodeNotFound => body == "This code doesn’t exist."@ || body
                == "This code doesn't exist."@,
            Error::NotAuthorized => body == "Not Authorized."@,
            Error::ShockerPaused => body == "Shocker is Paused, unable to send command."@ || body
                == "Shocker is Paused or does not exist. Unpause to send command."@,
            Error::DeviceOffline => body == "Device currently not connected."@,
            Error::ShareCodeInUse => body
                == "This share code has already been used by somebody else."@ || body
                == "Device in Use."@,
            Error::InvalidOperation => body
                == "Unknown Op, use 0 for shock, 1 for vibrate and 2 for beep."@,
            Error::OperationNotAllowed => body == "Shock not allowed."@ || body
                == "Vibrate not allowed."@ || body == "Beep not allowed."@,
            _ => false,
        },
{
    nothing_is_replaced_where_nothing_stands(body, api_key, "[REDACTED]"@);
}

/// The parameters of a request are its names and values, one by one and in
/// their order.
pub proof fn parameters_are_sent_as_given(
    request: QueryRequest,
    url: Seq<char>,
    query: Seq<(Seq<char>, Seq<char>)>,
    at: int,
)
    requires
        query_is(request, url, query),
    ensures
        request.url@ == url,
        request.query@.len() == query.len(),
        0 <= at < query.len() ==> request.query@[at].0@ == query[at].0 && request.query@[at].1@
            == query[at].1,
{
}

/// What an error says holds what PiShock or the server said of it, and the
/// debug text of credentials shows the username.
pub proof fn errors_tell_what_was_said(error: Error, username: Seq<char>)
    ensures
        match error {
            Error::IntensityRejected { message } => message@.is_suffix_of(error.sentence()),
            Error::DurationRejected { message } => message@.is_suffix_of(error.sentence()),
            Error::OperationRejected { message } => message@.is_suffix_of(error.sentence()),
            Error::HttpStatus { operation, status } => operation@.is_prefix_of(error.sentence())
                && decimal(status as nat).is_suffix_of(error.sentence()),
            Error::Decode { operation } => operation@.is_suffix_of(error.sentence()),
            _ => true,
        },
        occurs(credentials_debug(username), quoted(username)),
{
    match error {
        Error::IntensityRejected { message } => {
            ends_with_its_end("PiShock rejected the intensity: "@, message@);
        },
        Error::DurationRejected { message } => {
            ends_with_its_end("PiShock rejected the duration: "@, message@);
        },
        Error::OperationRejected { message } => {
            ends_with_its_end("PiShock rejected the operation: "@, message@);
        },
        Error::HttpStatus { operation, status } => {
            ends_with_its_end(operation@ + " returned HTTP status "@, decimal(status as nat));
            assert(operation@ =~= error.sentence().subrange(0, operation@.len() as int));
        },
        Error::Decode { operation } => {
            ends_with_its_end("invalid PiShock response for "@, operation@);
        },
        _ => {},
    }
    let text = credentials_debug(username);
    let at = "Credentials { username: "@.len() as int;
    assert(text.subrange(at, at + quoted(username).len()) =~= quoted(username));
    assert(occurs_at(text, quoted(username), at));
}

proof fn ends_with_its_end(front: Seq<char>, end: Seq<char>)
    ensures
        end.is_suffix_of(front + end),
{
    let text = front + end;
    assert(text.subrange(text.len() - end.len(), text.len() as int) =~= end);
}

/// A connection is made if and only if the authentication was answered with
/// success and a user, and then for the credentials, sender and addresses that
/// it was begun with; a key that is refused is told as such.
pub proof fn connections_are_made_for_the_authenticated_user(
    pending: PendingConnection,
    reply: Reply<u64>,
    client: Result<PiShockClient, Error>,
)
    requires
        call_ensures(PendingConnection::finish, (pending, reply), client),
    ensures
        match reply {
            Reply::Unanswered => client matches Err(Error::Transport),
            Reply::Answered { status, body } => if status / 100 == 2 {
                match body {
                    Some(user_id) => {
                        &&& client matches Ok(connected)
                        &&& connected.user_id == user_id
                        &&& connected.credentials == pending.credentials
                        &&& connected.sender == pending.sender
                        &&& connected.urls == pending.urls
                    },
                    None => client matches Err(Error::Decode { .. }),
                }
            } else if status == 401 || status == 403 {
                client matches Err(Error::AuthenticationRejected)
            } else {
                client matches Err(Error::HttpStatus { status: told, .. }) && told == status
            },
        },
{
}

/// A command that was answered with success succeeded if and only if PiShock
/// says so, whatever white space surrounds its words; without an answer or
/// with another status it did not.
pub proof fn commands_succeed_where_the_answer_says_so(
    client: PiShockClient,
    reply: Reply<String>,
    outcome: Result<(), Error>,
)
    requires
        call_ensures(PiShockClient::command_outcome, (&client, reply), outcome),
    ensures
        match reply {
            Reply::Unanswered => outcome matches Err(Error::Transport),
            Reply::Answered { status, body } => if status / 100 == 2 {
                match body {
                    Some(text) => outcome is Ok <==> trimmed(text@) == "Operation Succeeded."@,
                    None => outcome matches Err(Error::Transport),
                }
            } else {
                outcome matches Err(Error::HttpStatus { status: told, .. }) && told == status
            },
        },
{
    reveal_strlit("authentication");
    reveal_strlit("command");
    assert("authentication"@.len() != "command"@.len());
}

/// The share limits are those of a successful, readable answer; an unknown
/// share code and a refused login are told as such.
pub proof fn share_limits_are_those_that_were_answered(
    reply: Reply<ShockerInfo>,
    info: Result<ShockerInfo, Error>,
)
    requires
        call_ensures(PiShockClient::shocker_info, (reply,), info),
    ensures
        match reply {
            Reply::Unanswered => info matches Err(Error::Transport),
            Reply::Answered { status, body } => if status / 100 == 2 {
                match body {
                    Some(answered) => info == Ok::<ShockerInfo, Error>(answered),
                    None => info matches Err(Error::Decode { .. }),
                }
            } else if status == 404 {
                info matches Err(Error::ShareCodeNotFound)
            } else if status == 401 || status == 403 {
                info matches Err(Error::NotAuthorized)
            } else {
                info matches Err(Error::HttpStatus { status: told, .. }) && told == status
            },
        },
{
    statuses_tell_success_from_failure(
        match reply {
            Reply::Answered { status, .. } => status,
            Reply::Unanswered => 0,
        },
        "shocker information",
    );
}

/// A shock and a vibration with an intensity from one to one hundred and a
/// length from one to fifteen seconds are asked for with these very numbers.
pub proof fn shocks_are_asked_for_as_given(
    client: PiShockClient,
    share_code: &str,
    intensity: u8,
    duration: u8,
    shock: Result<OperationRequest, Error>,
    vibration: Result<OperationRequest, Error>,
)
    requires
        call_ensures(PiShockClient::shock, (&client, share_code, intensity, duration), shock),
        call_ensures(PiShockClient::vibrate, (&client, share_code, intensity, duration), vibration),
        !blank(share_code@),
        1 <= intensity <= 100,
        1 <= duration <= 15,
    ensures
        shock matches Ok(request) && request.intensity == Some(intensity) && request.duration
            == duration && request.operation == 0,
        vibration matches Ok(request) && request.intensity == Some(intensity) && request.duration
            == duration && request.operation == 1,
{
}

} // verus!
