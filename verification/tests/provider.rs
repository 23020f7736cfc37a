use deadlockshock::pishock::{Device, Error, Shocker};
use deadlockshock::provider::{
    target_from_openshock, target_from_pishock, target_matches, ClientReply, ConnectedProvider,
    DeviceGroup, Listing, Login, OpenShockError, ProviderCredentials, ProviderError, ProviderKind,
    ProviderTarget, SoundCommand, TargetId, SENDER_NAME,
};

fn hub() -> Device {
    Device {
        client_id: 7,
        name: "Hub".to_owned(),
        user_id: 42,
        username: "api-user".to_owned(),
        shockers: vec![Shocker {
            name: "Collar".to_owned(),
            shocker_id: 9,
            is_paused: false,
        }],
    }
}

fn group() -> DeviceGroup {
    DeviceGroup {
        id: "group".to_owned(),
        name: "Group".to_owned(),
    }
}

#[test]
fn default_provider_is_pishock() {
    assert_eq!(ProviderKind::default(), ProviderKind::PiShock);
}

#[test]
fn credentials_are_provider_specific() {
    let mut credentials = ProviderCredentials::default();
    assert!(!credentials.present(ProviderKind::PiShock));
    assert!(!credentials.present(ProviderKind::OpenShock));
    credentials.pishock_username = "user".into();
    credentials.pishock_api_key = "key".into();
    assert!(credentials.present(ProviderKind::PiShock));
    assert!(!credentials.present(ProviderKind::OpenShock));
    credentials.openshock_token = "token".into();
    assert!(credentials.present(ProviderKind::OpenShock));
}

#[test]
fn target_mismatch_is_rejected() {
    assert!(!target_matches(
        ProviderKind::PiShock,
        &TargetId::OpenShock("group".into())
    ));
    assert!(target_matches(
        ProviderKind::OpenShock,
        &TargetId::OpenShock("group".into())
    ));
}

#[test]
fn credentials_debug_redacts_secrets() {
    let credentials = ProviderCredentials {
        pishock_username: "account".into(),
        pishock_api_key: "api-secret-123".into(),
        openshock_token: "token-secret-456".into(),
    };
    let rendered = credentials.debug_text();
    assert!(!rendered.contains("api-secret-123"));
    assert!(!rendered.contains("token-secret-456"));
    assert!(rendered.contains("account"));
}

#[test]
fn credentials_debug_quotes_the_username() {
    let credentials = ProviderCredentials {
        pishock_username: "a\"b\n".into(),
        pishock_api_key: "k".into(),
        openshock_token: "t".into(),
    };
    assert_eq!(
        credentials.debug_text(),
        "ProviderCredentials { pishock_username: \"a\\\"b\\n\", pishock_api_key: \"[REDACTED]\", openshock_token: \"[REDACTED]\" }"
    );
}

#[test]
fn labels_name_the_providers() {
    assert_eq!(ProviderKind::PiShock.label(), "PiShock");
    assert_eq!(ProviderKind::OpenShock.label(), "OpenShock");
}

#[test]
fn blank_credentials_are_not_present() {
    let credentials = ProviderCredentials {
        pishock_username: " \t".into(),
        pishock_api_key: "key".into(),
        openshock_token: "\u{2003}\u{a0}".into(),
    };
    assert!(!credentials.present(ProviderKind::PiShock));
    assert!(!credentials.present(ProviderKind::OpenShock));
}

#[test]
fn logins_carry_trimmed_credentials_of_one_provider() {
    let credentials = ProviderCredentials {
        pishock_username: " user ".into(),
        pishock_api_key: "\tkey\n".into(),
        openshock_token: "  token".into(),
    };
    match ConnectedProvider::connect(ProviderKind::PiShock, &credentials) {
        Login::PiShock { credentials, sender } => {
            assert_eq!(credentials.username, "user");
            assert_eq!(credentials.api_key, "key");
            assert_eq!(sender, SENDER_NAME);
            assert_eq!(sender, "deadlockshock-companion");
        }
        Login::OpenShock { .. } => panic!("wrong provider"),
    }
    match ConnectedProvider::connect(ProviderKind::OpenShock, &credentials) {
        Login::OpenShock { token, sender } => {
            assert_eq!(token, "token");
            assert_eq!(sender, SENDER_NAME);
        }
        Login::PiShock { .. } => panic!("wrong provider"),
    }
}

#[test]
fn login_replies_give_the_connection_or_the_error() {
    assert_eq!(
        ConnectedProvider::connected(ClientReply::PiShock(Ok(()))),
        Ok(ConnectedProvider::PiShock)
    );
    assert_eq!(
        ConnectedProvider::connected(ClientReply::OpenShock(Ok(()))),
        Ok(ConnectedProvider::OpenShock)
    );
    assert_eq!(
        ConnectedProvider::connected(ClientReply::PiShock(Err(Error::AuthenticationRejected))),
        Err(ProviderError::PiShock(Error::AuthenticationRejected))
    );
    assert_eq!(ConnectedProvider::PiShock.kind(), ProviderKind::PiShock);
    assert_eq!(ConnectedProvider::OpenShock.kind(), ProviderKind::OpenShock);
}

#[test]
fn listed_targets_sound_only_on_their_own_provider() {
    let hubs = ConnectedProvider::list_targets(Listing::PiShock(Ok(vec![hub()])))
        .ok()
        .unwrap();
    assert_eq!(hubs.len(), 1);
    assert_eq!(hubs[0].id(), &TargetId::PiShock(7));
    assert_eq!(hubs[0].name(), "Hub");
    match ConnectedProvider::PiShock.test_sound(&hubs[0]) {
        Ok(SoundCommand::PiShock { device, seconds }) => {
            assert_eq!(device, hub());
            assert_eq!(seconds, 1);
        }
        _ => panic!("a listed hub can sound"),
    }
    assert_eq!(
        ConnectedProvider::OpenShock.test_sound(&hubs[0]).err(),
        Some(ProviderError::TargetProviderMismatch)
    );

    let groups = ConnectedProvider::list_targets(Listing::OpenShock(Ok(vec![group()])))
        .ok()
        .unwrap();
    assert_eq!(groups[0].id(), &TargetId::OpenShock("group".to_owned()));
    match ConnectedProvider::OpenShock.test_sound(&groups[0]) {
        Ok(SoundCommand::OpenShock { group: kept, millis }) => {
            assert_eq!(kept, group());
            assert_eq!(millis, 1_000);
        }
        _ => panic!("a listed group can sound"),
    }
    assert_eq!(
        ConnectedProvider::PiShock.test_sound(&groups[0]).err(),
        Some(ProviderError::TargetProviderMismatch)
    );
}

#[test]
fn targets_without_a_report_cannot_sound() {
    let target = ProviderTarget::new(TargetId::PiShock(1), "hub");
    assert_eq!(
        ConnectedProvider::PiShock.test_sound(&target).err(),
        Some(ProviderError::NotConnected)
    );
}

#[test]
fn failed_listings_keep_the_error() {
    assert_eq!(
        ConnectedProvider::list_targets(Listing::PiShock(Err(Error::Transport))).err(),
        Some(ProviderError::PiShock(Error::Transport))
    );
    let error = OpenShockError {
        message: "token rejected".to_owned(),
    };
    assert_eq!(
        ConnectedProvider::list_targets(Listing::OpenShock(Err(error)))
            .err()
            .unwrap()
            .to_text(),
        "OpenShock: token rejected"
    );
}

#[test]
fn targets_are_equal_by_identifier_and_name() {
    assert!(target_from_pishock(hub()) == ProviderTarget::new(TargetId::PiShock(7), "Hub"));
    assert!(target_from_pishock(hub()) != ProviderTarget::new(TargetId::PiShock(8), "Hub"));
    assert!(target_from_pishock(hub()) != ProviderTarget::new(TargetId::PiShock(7), "Other"));
    assert!(
        target_from_openshock(group())
            == ProviderTarget::new(TargetId::OpenShock("group".to_owned()), "Group")
    );
    assert!(TargetId::PiShock(1) != TargetId::OpenShock("1".to_owned()));
}

#[test]
fn only_openshock_needs_a_farewell() {
    let error = || OpenShockError {
        message: "gone".to_owned(),
    };
    assert_eq!(ConnectedProvider::PiShock.disconnect(Err(error())), Ok(()));
    assert_eq!(ConnectedProvider::OpenShock.disconnect(Ok(())), Ok(()));
    assert_eq!(
        ConnectedProvider::OpenShock.disconnect(Err(error())),
        Err(ProviderError::OpenShock(error()))
    );
}

#[test]
fn provider_errors_have_sentences_and_kinds() {
    assert_eq!(
        ProviderError::PiShock(Error::Transport).to_text(),
        "PiShock: PiShock transport error"
    );
    assert_eq!(
        ProviderError::TargetProviderMismatch.to_text(),
        "provider target does not belong to the active provider"
    );
    assert_eq!(
        ProviderError::NotConnected.to_text(),
        "no provider is connected"
    );
    assert_eq!(ProviderError::PiShock(Error::Transport).kind(), "pishock");
    assert_eq!(
        ProviderError::OpenShock(OpenShockError {
            message: String::new()
        })
        .kind(),
        "openshock"
    );
    assert_eq!(
        ProviderError::TargetProviderMismatch.kind(),
        "target_provider_mismatch"
    );
    assert_eq!(ProviderError::NotConnected.kind(), "not_connected");
}

#[test]
fn sound_outcomes_keep_the_error() {
    assert_eq!(
        ConnectedProvider::sound_outcome(ClientReply::PiShock(Ok(()))),
        Ok(())
    );
    assert_eq!(
        ConnectedProvider::sound_outcome(ClientReply::PiShock(Err(Error::DeviceOffline))),
        Err(ProviderError::PiShock(Error::DeviceOffline))
    );
    assert_eq!(
        ConnectedProvider::sound_outcome(ClientReply::OpenShock(Ok(()))),
        Ok(())
    );
}

#[test]
fn targets_are_rendered_for_diagnostics() {
    assert_eq!(TargetId::PiShock(7).debug_text(), "PiShock(7)");
    assert_eq!(
        TargetId::OpenShock("a\"b".to_owned()).debug_text(),
        "OpenShock(\"a\\\"b\")"
    );
    assert_eq!(
        ProviderTarget::new(TargetId::PiShock(7), "hub").debug_text(),
        "ProviderTarget { id: PiShock(7), name: \"hub\" }"
    );
}
