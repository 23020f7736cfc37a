//! The companion as a whole: its state, what is saved of it, its menu, and
//! what it says of newer versions.

use vstd::prelude::*;

use crate::app::{reset_applied, AppState};
use crate::persistence::{
    alike, default_saved, restores, same_saved, saves, until, LoadOutcome, Observation,
    PersistedState, Persistence, SaveJob, SaveReason, SAVE_DEBOUNCE,
};
use crate::provider::ConnectedProvider;

verus! {

/// What is known of the version of the mod.
#[derive(Clone, Debug, Eq, PartialEq)]
pub enum ModVersionObservation {
    /// Nothing was heard of the mod.
    Unknown,
    /// The mod is older than reports on versions.
    Legacy,
    /// The mod reported something that is no version.
    Invalid,
    /// The mod reported its version.
    Reported(String),
}

/// What is known of the newest version.
#[derive(Clone, Debug, Eq, PartialEq)]
pub enum VersionCheckState {
    Checking,
    Current { latest: String },
    UpdateAvailable { latest: String },
    Unavailable { reason: String },
}

impl VersionCheckState {
    /// The newest version, where a finished check found one.
    pub open spec fn newest(self) -> Option<Seq<char>> {
        match self {
            VersionCheckState::Current { latest } => Some(latest@),
            VersionCheckState::UpdateAvailable { latest } => Some(latest@),
            _ => None,
        }
    }

    /// The newest version that is known: the one that a finished check found,
    /// and none before that and where the check failed.
    pub fn newest_known(&self) -> (latest: Option<&str>)
        ensures
            match latest {
                Some(latest) => self.newest() == Some(latest@),
                None => self.newest() is None,
            },
    {
        match self {
            VersionCheckState::Current { latest } => Some(latest.as_str()),
            VersionCheckState::UpdateAvailable { latest } => Some(latest.as_str()),
            VersionCheckState::Checking => None,
            VersionCheckState::Unavailable { .. } => None,
        }
    }
}

/// What there is to say of versions that are too old.
#[derive(Clone, Debug, Eq, PartialEq)]
pub struct WarningSelection {
    /// The version that the companion should have.
    pub companion_outdated: Option<String>,
    /// The version of the mod, and the one that it should have.
    pub mod_outdated: Option<(String, String)>,
    pub mod_legacy: bool,
    pub mod_invalid: bool,
}

impl Default for WarningSelection {
    fn default() -> (selection: Self)
        ensures
            selection == (WarningSelection {
                companion_outdated: None,
                mod_outdated: None,
                mod_legacy: false,
                mod_invalid: false,
            }),
    {
        Self { companion_outdated: None, mod_outdated: None, mod_legacy: false, mod_invalid: false }
    }
}

/// The version of the mod in words.
pub open spec fn mod_version_text(observation: ModVersionObservation) -> Seq<char> {
    "Mod version: "@ + (match observation {
        ModVersionObservation::Unknown => "unknown"@,
        ModVersionObservation::Legacy => "legacy (no version reporting)"@,
        ModVersionObservation::Invalid => "invalid"@,
        ModVersionObservation::Reported(version) => "last observed "@ + version@,
    })
}

/// Renders the version of the mod in words.
pub fn mod_version_line(observation: &ModVersionObservation) -> (text: String)
    ensures
        text@ == mod_version_text(*observation),
{
    let told = match observation {
        ModVersionObservation::Unknown => "unknown".to_owned(),
        ModVersionObservation::Legacy => "legacy (no version reporting)".to_owned(),
        ModVersionObservation::Invalid => "invalid".to_owned(),
        ModVersionObservation::Reported(version) => "last observed ".to_owned().concat(
            version.as_str(),
        ),
    };
    "Mod version: ".to_owned().concat(told.as_str())
}

/// The newest version in words.
pub open spec fn latest_version_text(state: VersionCheckState) -> Seq<char> {
    match state {
        VersionCheckState::Checking => "Latest stable: checking…"@,
        VersionCheckState::Current { latest } => "Latest stable: "@ + latest@ + " (current)"@,
        VersionCheckState::UpdateAvailable { latest } => "Latest stable: "@ + latest@
            + " (update available)"@,
        VersionCheckState::Unavailable { reason } => "Latest stable: unavailable ("@ + reason@
            + ")"@,
    }
}

/// Renders the newest version in words.
pub fn latest_version_line(state: &VersionCheckState) -> (text: String)
    ensures
        text@ == latest_version_text(*state),
{
    match state {
        VersionCheckState::Checking => "Latest stable: checking…".to_owned(),
        VersionCheckState::Current { latest } => "Latest stable: ".to_owned().concat(
            latest.as_str(),
        ).concat(" (current)"),
        VersionCheckState::UpdateAvailable { latest } => "Latest stable: ".to_owned().concat(
            latest.as_str(),
        ).concat(" (update available)"),
        VersionCheckState::Unavailable { reason } => {
            "Latest stable: unavailable (".to_owned().concat(reason.as_str()).concat(")")
        },
    }
}

/// Where a notice leads.
#[derive(Clone, Copy, Debug, Eq, PartialEq, Structural)]
pub enum UpdateLink {
    Companion,
    Mod,
}

/// A notice of something that is too old.
#[derive(Debug, Eq, PartialEq)]
pub struct UpdateNotice {
    pub text: String,
    pub link: UpdateLink,
}

/// A notice in characters.
pub open spec fn notice_text(notice: UpdateNotice) -> (Seq<char>, UpdateLink) {
    (notice.text@, notice.link)
}

/// The notices to show: one for the companion where it is too old, and one for
/// the mod, where it is too old, else where it is older than reports on
/// versions, else where it reported no version.
pub open spec fn notices(warnings: WarningSelection, version: Seq<char>) -> Seq<
    (Seq<char>, UpdateLink),
> {
    let companion = match warnings.companion_outdated {
        Some(target) => seq![
            (
                "Companion "@ + version + " is older than "@ + target@ + "."@,
                UpdateLink::Companion,
            ),
        ],
        None => Seq::empty(),
    };
    let of_mod = match warnings.mod_outdated {
        Some((installed, target)) => seq![
            (
                "DeadlockShock mod "@ + installed@ + " is older than "@ + target@ + "."@,
                UpdateLink::Mod,
            ),
        ],
        None => if warnings.mod_legacy {
            seq![
                (
                    "The last observed DeadlockShock mod predates version reporting."@,
                    UpdateLink::Mod,
                ),
            ]
        } else if warnings.mod_invalid {
            seq![
                (
                    "The last observed DeadlockShock mod reported an invalid version; reinstall the latest mod."@,
                    UpdateLink::Mod,
                ),
            ]
        } else {
            Seq::empty()
        },
    };
    companion + of_mod
}

/// Lists the notices to show.
pub fn update_notices(warnings: &WarningSelection, version: &str) -> (list: Vec<UpdateNotice>)
    ensures
        list@.map_values(|notice: UpdateNotice| notice_text(notice)) == notices(
            *warnings,
            version@,
        ),
{
    let mut list: Vec<UpdateNotice> = Vec::new();
    match &warnings.companion_outdated {
        Some(target) => {
            list.push(
                UpdateNotice {
                    text: "Companion ".to_owned().concat(version).concat(" is older than ").concat(
                        target.as_str(),
                    ).concat("."),
                    link: UpdateLink::Companion,
                },
            );
        },
        None => {},
    }
    match &warnings.mod_outdated {
        Some((installed, target)) => {
            list.push(
                UpdateNotice {
                    text: "DeadlockShock mod ".to_owned().concat(installed.as_str()).concat(
                        " is older than ",
                    ).concat(target.as_str()).concat("."),
                    link: UpdateLink::Mod,
                },
            );
        },
        None => {
            if warnings.mod_legacy {
                list.push(
                    UpdateNotice {
                        text:
                            "The last observed DeadlockShock mod predates version reporting.".to_owned(),
                        link: UpdateLink::Mod,
                    },
                );
            } else if warnings.mod_invalid {
                list.push(
                    UpdateNotice {
                        text:
                            "The last observed DeadlockShock mod reported an invalid version; reinstall the latest mod.".to_owned(),
                        link: UpdateLink::Mod,
                    },
                );
            }
        },
    }
    assert(list@.map_values(|notice: UpdateNotice| notice_text(notice)) =~= notices(
        *warnings,
        version@,
    ));
    list
}

/// There are notices if and only if there is something to say.
pub proof fn notices_are_shown_where_there_is_one(warnings: WarningSelection, version: Seq<char>)
    ensures
        notices(warnings, version).len() > 0 <==> warnings.companion_outdated is Some
            || warnings.mod_outdated is Some || warnings.mod_legacy || warnings.mod_invalid,
        notices(warnings, version).len() <= 2,
{
}

/// The companion as a whole.
pub struct CompanionApp {
    pub state: AppState,
    pub persistence: Persistence,
    /// Whether the user is being asked to confirm a reset.
    pub reset_confirmation: bool,
    pub menu_error: Option<String>,
    pub version_check: VersionCheckState,
    pub version_warnings: WarningSelection,
}

/// What the menu shows.
pub struct MenuView {
    pub companion_version: String,
    pub mod_version: String,
    pub latest_version: String,
    /// Newer versions may be looked for.
    pub can_check: bool,
    /// The state may be reset.
    pub can_reset: bool,
}

/// What the user did with the question whether to reset.
pub struct ResetDialog {
    pub open: bool,
    pub confirmed: bool,
    pub cancelled: bool,
}

/// Whether a companion has just begun with a saved state: the state is
/// restored, nothing has yet to be written, and nothing was asked or heard.
pub open spec fn begun(app: CompanionApp, path: Option<String>, saved: PersistedState) -> bool {
    &&& restores(saved, app.state)
    &&& app.persistence.wf()
    &&& app.persistence.clean()
    &&& app.persistence.path == path
    &&& same_saved(app.persistence.saved, saved)
    &&& same_saved(app.persistence.observed, saved)
    &&& app.persistence.pending_reason == SaveReason::Autosave
    &&& app.persistence.debounce == SAVE_DEBOUNCE
    &&& app.persistence.save_error is None
    &&& !app.reset_confirmation
    &&& app.menu_error is None
    &&& app.version_check is Checking
    &&& app.version_warnings == (WarningSelection {
        companion_outdated: None,
        mod_outdated: None,
        mod_legacy: false,
        mod_invalid: false,
    })
}

/// What a user is told where there is no place for a saved state.
pub open spec fn unavailable_text(message: Seq<char>) -> Seq<char> {
    "Saved state is unavailable: "@ + message
        + " Settings will remain in memory for this session."@
}

/// What follows a reset.
pub struct ResetWork {
    /// The state that has to be written.
    pub job: SaveJob,
    /// The provider whose client is to be closed, if one was connected.
    pub closed: Option<ConnectedProvider>,
}

impl CompanionApp {
    /// Begins with a saved state.
    fn begin(persistence: Persistence, saved: &PersistedState) -> (app: Self)
        ensures
            restores(*saved, app.state),
            app.persistence == persistence,
            !app.reset_confirmation,
            app.menu_error is None,
            app.version_check is Checking,
            app.version_warnings == (WarningSelection {
                companion_outdated: None,
                mod_outdated: None,
                mod_legacy: false,
                mod_invalid: false,
            }),
    {
        Self {
            state: saved.restore_app(),
            persistence,
            reset_confirmation: false,
            menu_error: None,
            version_check: VersionCheckState::Checking,
            version_warnings: WarningSelection::default(),
        }
    }

    /// Begins without a place for a saved state.
    pub fn load_unavailable(message: &str) -> (app: Self)
        ensures
            exists|saved: PersistedState| #[trigger] default_saved(saved) && begun(app, None, saved),
            app.persistence.load_warning matches Some(told) && told@ == unavailable_text(message@),
    {
        let (persistence, saved) = Persistence::unavailable(message);
        Self::begin(persistence, &saved)
    }

    /// Begins with a file that was loaded.
    pub fn load_from_path(path: String, outcome: LoadOutcome) -> (app: Self)
        ensures
            begun(app, Some(path), outcome.state),
            app.persistence.load_warning == outcome.warning,
    {
        let (persistence, saved) = Persistence::open(path, outcome);
        Self::begin(persistence, &saved)
    }

    /// Begins with the file at its usual place, or without a place for one.
    pub fn load(place: Result<(String, LoadOutcome), String>) -> (app: Self)
        ensures
            match place {
                Ok((path, outcome)) => {
                    &&& begun(app, Some(path), outcome.state)
                    &&& app.persistence.load_warning == outcome.warning
                },
                Err(message) => {
                    &&& exists|saved: PersistedState| #[trigger]
                        default_saved(saved) && begun(app, None, saved)
                    &&& app.persistence.load_warning matches Some(told) && told@
                        == unavailable_text(message@)
                },
            },
    {
        match place {
            Ok((path, outcome)) => Self::load_from_path(path, outcome),
            Err(message) => Self::load_unavailable(message.as_str()),
        }
    }

    /// Shows the menu.
    pub fn menu_view(&self, version: &str, observation: &ModVersionObservation) -> (view: MenuView)
        ensures
            view.companion_version@ == "Companion version: "@ + version@,
            view.mod_version@ == mod_version_text(*observation),
            view.latest_version@ == latest_version_text(self.version_check),
            view.can_check == !(self.version_check is Checking),
            view.can_reset == !self.state.busy(),
    {
        MenuView {
            companion_version: "Companion version: ".to_owned().concat(version),
            mod_version: mod_version_line(observation),
            latest_version: latest_version_line(&self.version_check),
            can_check: match &self.version_check {
                VersionCheckState::Checking => false,
                _ => true,
            },
            can_reset: self.reset_available(),
        }
    }

    /// Takes a look at the state, and says what of it has to be written now, if
    /// anything.
    pub fn observe(&mut self, now: u64) -> (observation: Observation)
        requires
            old(self).persistence.wf(),
            old(self).persistence.can_defer(now),
        ensures
            final(self).persistence.wf(),
            *final(self) == (CompanionApp { persistence: final(self).persistence, ..*old(self) }),
            exists|saved: PersistedState|
                {
                    &&& #[trigger] saves(old(self).state, saved)
                    &&& old(self).persistence.after_look(saved, now, final(self).persistence)
                },
            match observation.job {
                Some(job) => {
                    &&& final(self).persistence.due(now)
                    &&& final(self).persistence.hands_out(job)
                    &&& observation.delay is None
                },
                None => {
                    &&& !final(self).persistence.due(now)
                    &&& observation.delay == until(final(self).persistence.deadline, now)
                },
            },
    {
        let saved = PersistedState::from_app(&self.state);
        self.persistence.observe(saved, now)
    }

    /// Has the state written at once because there will be no later, unless
    /// the file holds it already.
    pub fn flush_pending(&mut self) -> (job: Option<SaveJob>)
        ensures
            exists|saved: PersistedState|
                {
                    &&& #[trigger] saves(old(self).state, saved)
                    &&& if alike(saved, old(self).persistence.saved)
                        && old(self).persistence.pending is None {
                        job is None && *final(self) == *old(self)
                    } else {
                        &&& job matches Some(job)
                        &&& job.state == saved
                        &&& job.reason == if old(self).persistence.pending is Some {
                            old(self).persistence.pending_reason
                        } else {
                            SaveReason::Autosave
                        }
                        &&& same_saved(final(self).persistence.observed, saved)
                        &&& *final(self) == (CompanionApp {
                            persistence: Persistence {
                                observed: final(self).persistence.observed,
                                ..old(self).persistence
                            },
                            ..*old(self)
                        })
                    }
                },
    {
        let saved = PersistedState::from_app(&self.state);
        self.persistence.flush(saved)
    }

    /// Resets the state and has it written at once, unless work is under way.
    pub fn reset_and_save(&mut self) -> (reset: Option<ResetWork>)
        ensures
            reset is Some <==> !old(self).state.busy(),
            match reset {
                Some(reset) => {
                    &&& reset.closed == old(self).state.client
                    &&& reset_applied(old(self).state, final(self).state)
                    &&& saves(final(self).state, reset.job.state)
                    &&& reset.job.reason == SaveReason::Reset
                    &&& same_saved(final(self).persistence.observed, reset.job.state)
                    &&& *final(self) == (CompanionApp {
                        state: final(self).state,
                        persistence: Persistence {
                            observed: final(self).persistence.observed,
                            ..old(self).persistence
                        },
                        ..*old(self)
                    })
                },
                None => *final(self) == *old(self),
            },
    {
        let closed = self.state.client;
        if !self.state.reset_saved_state() {
            return None;
        }
        let saved = PersistedState::from_app(&self.state);
        Some(ResetWork { job: self.persistence.save_reset_now(saved), closed })
    }

    /// Whether the state may be reset.
    pub fn reset_available(&self) -> (available: bool)
        ensures
            available == !self.state.busy(),
    {
        !self.state.is_busy()
    }

    /// Asks the user to confirm a reset.
    pub fn ask_for_reset(&mut self)
        ensures
            *final(self) == (CompanionApp { reset_confirmation: true, ..*old(self) }),
    {
        self.reset_confirmation = true;
    }

    /// Takes over what the user did with the question whether to reset. It is
    /// asked no more once it was closed, cancelled or followed by a reset.
    pub fn close_reset_dialog(&mut self, dialog: ResetDialog) -> (reset: Option<ResetWork>)
        ensures
            reset is Some <==> dialog.confirmed && !old(self).state.busy(),
            final(self).reset_confirmation == (dialog.open && !dialog.cancelled && reset is None),
            match reset {
                Some(reset) => {
                    &&& reset.closed == old(self).state.client
                    &&& reset_applied(old(self).state, final(self).state)
                    &&& saves(final(self).state, reset.job.state)
                    &&& reset.job.reason == SaveReason::Reset
                    &&& same_saved(final(self).persistence.observed, reset.job.state)
                    &&& *final(self) == (CompanionApp {
                        state: final(self).state,
                        persistence: Persistence {
                            observed: final(self).persistence.observed,
                            ..old(self).persistence
                        },
                        reset_confirmation: false,
                        ..*old(self)
                    })
                },
                None => *final(self) == (CompanionApp {
                    reset_confirmation: final(self).reset_confirmation,
                    ..*old(self)
                }),
            },
    {
        self.reset_confirmation = dialog.open && !dialog.cancelled;
        if !dialog.confirmed {
            return None;
        }
        let reset = self.reset_and_save();
        if reset.is_some() {
            self.reset_confirmation = false;
        }
        reset
    }
}

/// The newest version is known once a check found one, and shown with its
/// result; a check that failed tells why.
pub proof fn found_versions_are_known(state: VersionCheckState)
    ensures
        state matches VersionCheckState::Current { latest } ==> state.newest() == Some(latest@)
            && ("Latest stable: "@ + latest@).is_prefix_of(latest_version_text(state)),
        state matches VersionCheckState::UpdateAvailable { latest } ==> state.newest() == Some(
            latest@,
        ) && ("Latest stable: "@ + latest@).is_prefix_of(latest_version_text(state)),
        state matches VersionCheckState::Unavailable { reason } ==> state.newest() is None
            && latest_version_text(state) == "Latest stable: unavailable ("@ + reason@ + ")"@,
        state is Checking ==> state.newest() is None,
{
    let text = latest_version_text(state);
    match state {
        VersionCheckState::Current { latest } => {
            let opening = "Latest stable: "@ + latest@;
            assert(text.subrange(0, opening.len() as int) =~= opening);
        },
        VersionCheckState::UpdateAvailable { latest } => {
            let opening = "Latest stable: "@ + latest@;
            assert(text.subrange(0, opening.len() as int) =~= opening);
        },
        _ => {},
    }
}

/// The version that the mod reported is shown as it was reported.
pub proof fn reported_versions_are_shown(version: String)
    ensures
        version@.is_suffix_of(mod_version_text(ModVersionObservation::Reported(version))),
{
    let text = mod_version_text(ModVersionObservation::Reported(version));
    assert(text.subrange(text.len() - version@.len(), text.len() as int) =~= version@);
}

/// The companion has a notice of its own if and only if it is too old, in front
/// of that on the mod; the mod has one where there is anything to say of it,
/// and that it is too old goes before that it reported no version. A notice
/// names the version there is and the one that there should be.
pub proof fn notices_say_what_is_too_old(warnings: WarningSelection, version: Seq<char>)
    ensures
        ({
            let list = notices(warnings, version);
            let of_mod = warnings.mod_outdated is Some || warnings.mod_legacy
                || warnings.mod_invalid;
            let own: int = if warnings.companion_outdated is Some {
                1
            } else {
                0
            };
            &&& list.len() == own + if of_mod {
                1int
            } else {
                0
            }
            &&& warnings.companion_outdated matches Some(target) ==> list[0].1 is Companion
                && list[0].0 == "Companion "@ + version + " is older than "@ + target@ + "."@
            &&& of_mod ==> list[own].1 is Mod
            &&& warnings.mod_outdated matches Some(versions) ==> list[own].0 == "DeadlockShock mod "@
                + versions.0@ + " is older than "@ + versions.1@ + "."@
            &&& warnings.mod_outdated is None && warnings.mod_legacy ==> list[own].0
                == "The last observed DeadlockShock mod predates version reporting."@
            &&& warnings.mod_outdated is None && !warnings.mod_legacy && warnings.mod_invalid
                ==> list[own].0
                == "The last observed DeadlockShock mod reported an invalid version; reinstall the latest mod."@
        }),
{
}

/// A companion begins with what was saved, with nothing to write and nothing
/// asked of its user, and writes changes half a second after they were made.
pub proof fn companions_begin_with_what_was_saved(
    app: CompanionApp,
    path: Option<String>,
    saved: PersistedState,
)
    requires
        begun(app, path, saved),
    ensures
        app.state.provider == saved.provider,
        app.state.username@ == saved.credentials.pishock.username@,
        app.state.api_key@ == saved.credentials.pishock.api_key@,
        app.state.openshock_token@ == saved.credentials.openshock.token@,
        app.state.log_path@ == saved.log_path@,
        app.state.triggers.death.enabled == saved.triggers.death_enabled,
        app.state.triggers.death.shock == saved.shock,
        app.state.triggers.ability_use.trigger == saved.triggers.ability_use.trigger,
        app.state.triggers.ability_cooldown_ready.trigger
            == saved.triggers.ability_cooldown_ready.trigger,
        app.state.client is None && app.state.last_sequence is None && app.state.shock_in_flight
            == 0,
        app.persistence.path == path,
        app.persistence.pending is None && app.persistence.deadline is None,
        app.persistence.debounce == 500_000_000,
        app.persistence.saved.credentials == saved.credentials,
        app.persistence.observed.credentials == saved.credentials,
        app.persistence.save_error is None,
        !app.reset_confirmation && app.menu_error is None,
        app.version_check is Checking,
        app.version_warnings.companion_outdated is None,
        app.version_warnings.mod_outdated is None,
        !app.version_warnings.mod_legacy && !app.version_warnings.mod_invalid,
{
}

/// What is told where there is no place for a saved state holds the reason.
pub proof fn missing_places_are_told_with_the_reason(message: Seq<char>)
    ensures
        ("Saved state is unavailable: "@ + message).is_prefix_of(unavailable_text(message)),
{
    let opening = "Saved state is unavailable: "@ + message;
    assert(unavailable_text(message).subrange(0, opening.len() as int) =~= opening);
}

/// A reset that the user confirmed is made unless work is under way: nothing of
/// the setup is left, the defaults are written at once and the client is
/// closed. Without a confirmation nothing is reset, and the question is asked
/// no more once it was closed or cancelled.
pub proof fn confirmed_resets_are_made()
    ensures
        forall|app: &mut CompanionApp, dialog: ResetDialog, reset: Option<ResetWork>|
            #[trigger] call_ensures(CompanionApp::close_reset_dialog, (app, dialog), reset) ==> {
                &&& reset is Some <==> dialog.confirmed && !app.state.connection_testing
                    && !app.state.sound_pending && app.state.shock_in_flight == 0
                &&& reset matches Some(work) ==> {
                    &&& work.closed == app.state.client
                    &&& work.job.state.credentials.pishock.username@.len() == 0
                    &&& work.job.state.credentials.pishock.api_key@.len() == 0
                    &&& work.job.state.credentials.openshock.token@.len() == 0
                    &&& work.job.state.preferred_target is None
                    &&& final(app).state.username@.len() == 0
                    &&& !final(app).reset_confirmation
                }
                &&& reset is None ==> final(app).state == app.state && final(app).persistence
                    == app.persistence
                &&& !dialog.open || dialog.cancelled ==> !final(app).reset_confirmation
            },
{
}

} // verus!
