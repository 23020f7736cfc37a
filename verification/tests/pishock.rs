use deadlockshock::pishock::{
    expect_status, parse_operation_response, redact_api_key, BaseUrls, Command, Credentials,
    Device, Error, PiShockClient, Reply, Shocker, ShockerInfo,
};

const USERNAME: &str = "api-user";
const API_KEY: &str = "super-secret-key";
const SENDER: &str = "desktop-companion";
const SHARE_CODE: &str = "SHARE-CODE";

fn credentials() -> Credentials {
    Credentials::new(USERNAME, API_KEY)
}

fn urls() -> BaseUrls {
    BaseUrls {
        auth: "http://server".to_owned(),
        platform: "http://server".to_owned(),
        legacy: "http://server".to_owned(),
    }
}

fn connect() -> PiShockClient {
    PiShockClient::connect_to(credentials(), SENDER.into(), urls())
        .ok()
        .unwrap()
        .finish(Reply::Answered {
            status: 200,
            body: Some(42),
        })
        .ok()
        .unwrap()
}

fn answered<T>(status: u16, body: T) -> Reply<T> {
    Reply::Answered {
        status,
        body: Some(body),
    }
}

fn pair(name: &str, value: &str) -> (String, String) {
    (name.to_owned(), value.to_owned())
}

fn hub(client_id: u64, name: &str, shockers: Vec<Shocker>) -> Device {
    Device {
        client_id,
        name: name.to_owned(),
        user_id: 42,
        username: "api-user".to_owned(),
        shockers,
    }
}

#[test]
fn credentials_debug_redacts_api_key() {
    let rendered = credentials().debug_text();
    assert!(rendered.contains("[REDACTED]"));
    assert!(!rendered.contains(API_KEY));
    assert_eq!(
        rendered,
        "Credentials { username: \"api-user\", api_key: \"[REDACTED]\" }"
    );
}

#[test]
fn connect_and_list_devices_obey_discovery_contracts() {
    let pending = PiShockClient::connect_to(credentials(), SENDER.into(), urls())
        .ok()
        .unwrap();
    let authentication = pending.request();
    assert_eq!(
        authentication.url,
        "http://server/Auth/GetUserIfAPIKeyValid"
    );
    assert_eq!(
        authentication.query,
        vec![pair("apikey", API_KEY), pair("username", USERNAME)]
    );
    let client = pending.finish(answered(200, 42)).ok().unwrap();

    let listing = client.list_devices();
    assert_eq!(listing.url, "http://server/PiShock/GetUserDevices");
    assert_eq!(
        listing.query,
        vec![
            pair("UserId", "42"),
            pair("Token", API_KEY),
            pair("api", "true")
        ]
    );

    let devices = PiShockClient::listed_devices(answered(
        200,
        vec![hub(
            7,
            "Hub",
            vec![Shocker {
                name: "Collar".to_owned(),
                shocker_id: 9,
                is_paused: false,
            }],
        )],
    ))
    .unwrap();
    assert_eq!(devices[0].client_id, 7);
    assert_eq!(devices[0].shockers[0].shocker_id, 9);
}

#[test]
fn get_device_lists_and_selects_by_client_id() {
    let listing = || {
        answered(
            200,
            vec![hub(1, "First", vec![]), hub(2, "Second", vec![])],
        )
    };
    assert_eq!(
        PiShockClient::get_device(2, listing())
            .unwrap()
            .unwrap()
            .name,
        "Second"
    );
    assert_eq!(PiShockClient::get_device(99, listing()), Ok(None));
    assert_eq!(
        PiShockClient::get_device(2, Reply::Unanswered),
        Err(Error::Transport)
    );
}

#[test]
fn get_shocker_info_uses_pascal_request_and_parses_camel_response() {
    let client = connect();
    let request = client.get_shocker_info(SHARE_CODE).ok().unwrap();
    assert_eq!(request.url, "http://server/api/GetShockerInfo");
    assert_eq!(request.username, USERNAME);
    assert_eq!(request.code, SHARE_CODE);
    assert_eq!(request.api_key, API_KEY);

    let info = || ShockerInfo {
        client_id: 7,
        id: 9,
        name: "Collar".into(),
        paused: false,
        max_intensity: 60,
        max_duration: 12,
        online: None,
    };
    assert_eq!(
        PiShockClient::shocker_info(answered(200, info())),
        Ok(info())
    );
}

#[test]
fn get_shocker_info_maps_not_found_and_authorization_statuses() {
    for (status, expected) in [
        (404, Error::ShareCodeNotFound),
        (401, Error::NotAuthorized),
        (403, Error::NotAuthorized),
    ] {
        assert_eq!(
            PiShockClient::shocker_info(Reply::Answered { status, body: None }),
            Err(expected)
        );
    }
    assert_eq!(
        PiShockClient::shocker_info(Reply::Answered {
            status: 500,
            body: None
        }),
        Err(Error::HttpStatus {
            operation: "shocker information",
            status: 500
        })
    );
    assert_eq!(
        PiShockClient::shocker_info(Reply::Answered {
            status: 200,
            body: None
        }),
        Err(Error::Decode {
            operation: "shocker information"
        })
    );
}

#[test]
fn convenience_commands_emit_exact_operation_payloads() {
    let client = connect();

    let shock = client.shock(SHARE_CODE, 25, 3).ok().unwrap();
    assert_eq!(shock.url, "http://server/api/apioperate/");
    assert_eq!(shock.username, USERNAME);
    assert_eq!(shock.name, SENDER);
    assert_eq!(shock.code, SHARE_CODE);
    assert_eq!(shock.intensity, Some(25));
    assert_eq!(shock.duration, 3);
    assert_eq!(shock.api_key, API_KEY);
    assert_eq!(shock.operation, 0);
    assert_eq!(
        client.command_outcome(answered(200, "Operation Succeeded.\n".to_owned())),
        Ok(())
    );

    let vibrate = client.vibrate(SHARE_CODE, 80, 4).ok().unwrap();
    assert_eq!(vibrate.intensity, Some(80));
    assert_eq!(vibrate.duration, 4);
    assert_eq!(vibrate.operation, 1);
    assert_eq!(
        client.command_outcome(answered(200, " Operation Succeeded. ".to_owned())),
        Ok(())
    );

    let beep = client.beep(SHARE_CODE, 2).ok().unwrap();
    assert_eq!(beep.intensity, None);
    assert_eq!(beep.duration, 2);
    assert_eq!(beep.operation, 2);
    assert_eq!(
        client.command_outcome(answered(200, "Operation Succeeded.".to_owned())),
        Ok(())
    );
}

#[test]
fn unified_command_path_sends_the_selected_command() {
    let client = connect();
    let request = client
        .send_command(
            SHARE_CODE,
            Command::Shock {
                intensity: 1,
                duration: 15,
            },
        )
        .ok()
        .unwrap();
    assert_eq!(request.intensity, Some(1));
    assert_eq!(request.duration, 15);
    assert_eq!(request.operation, 0);
    assert_eq!(
        client.command_outcome(answered(200, "Operation Succeeded.".to_owned())),
        Ok(())
    );
}

#[test]
fn invalid_values_are_rejected_without_networking() {
    let client = connect();
    assert_eq!(
        client.shock(" ", 1, 1).err(),
        Some(Error::EmptyShareCode)
    );
    assert_eq!(
        client.shock(SHARE_CODE, 0, 1).err(),
        Some(Error::InvalidIntensity)
    );
    assert_eq!(
        client.vibrate(SHARE_CODE, 101, 1).err(),
        Some(Error::InvalidIntensity)
    );
    assert_eq!(
        client.beep(SHARE_CODE, 0).err(),
        Some(Error::InvalidDuration)
    );
    assert_eq!(
        client.beep(SHARE_CODE, 16).err(),
        Some(Error::InvalidDuration)
    );
    assert_eq!(
        client.get_shocker_info("\t").err(),
        Some(Error::EmptyShareCode)
    );
}

#[test]
fn credentials_are_validated_before_authentication_networking() {
    let cases = [
        (Credentials::new("", API_KEY), SENDER, Error::EmptyUsername),
        (Credentials::new(USERNAME, " "), SENDER, Error::EmptyApiKey),
        (
            Credentials::new(USERNAME, API_KEY),
            "\t",
            Error::EmptySender,
        ),
    ];
    for (credentials, sender, expected) in cases {
        let result = PiShockClient::connect_to(credentials, sender.into(), urls());
        assert_eq!(result.err(), Some(expected));
    }
}

#[test]
fn production_addresses_are_used_by_default() {
    let pending = PiShockClient::connect(credentials(), SENDER).ok().unwrap();
    assert_eq!(
        pending.request().url,
        "https://auth.pishock.com/Auth/GetUserIfAPIKeyValid"
    );
    let client = pending.finish(answered(200, 42)).ok().unwrap();
    assert_eq!(
        client.list_devices().url,
        "https://ps.pishock.com/PiShock/GetUserDevices"
    );
    assert_eq!(
        client.beep(SHARE_CODE, 1).ok().unwrap().url,
        "https://do.pishock.com/api/apioperate/"
    );
}

#[test]
fn documented_operation_rejections_map_to_typed_errors() {
    let cases = [
        ("This code doesn’t exist.", Error::ShareCodeNotFound),
        ("Not Authorized.", Error::NotAuthorized),
        (
            "Shocker is Paused, unable to send command.",
            Error::ShockerPaused,
        ),
        ("Device currently not connected.", Error::DeviceOffline),
        (
            "This share code has already been used by somebody else.",
            Error::ShareCodeInUse,
        ),
        (
            "Unknown Op, use 0 for shock, 1 for vibrate and 2 for beep.",
            Error::InvalidOperation,
        ),
    ];
    for (body, expected) in cases {
        let client = connect();
        let request = client.beep(SHARE_CODE, 1).ok().unwrap();
        assert_eq!(request.duration, 1);
        assert_eq!(request.operation, 2);
        assert_eq!(
            client.command_outcome(answered(200, body.to_owned())),
            Err(expected)
        );
    }
}

#[test]
fn other_documented_rejections_map_to_typed_errors() {
    let cases = [
        ("This code doesn't exist.", Error::ShareCodeNotFound),
        (
            "Shocker is Paused or does not exist. Unpause to send command.",
            Error::ShockerPaused,
        ),
        ("Vibrate not allowed.", Error::OperationNotAllowed),
        ("Beep not allowed.", Error::OperationNotAllowed),
    ];
    for (body, expected) in cases {
        assert_eq!(parse_operation_response(body, API_KEY), Err(expected));
    }
}

#[test]
fn bounded_live_and_unknown_rejections_are_preserved() {
    assert_eq!(
        parse_operation_response("Intensity must be between 0 and 50", API_KEY),
        Err(Error::IntensityRejected {
            message: "Intensity must be between 0 and 50".into()
        })
    );
    assert_eq!(
        parse_operation_response("Duration must be between 1 and 8", API_KEY),
        Err(Error::DurationRejected {
            message: "Duration must be between 1 and 8".into()
        })
    );
    assert_eq!(
        parse_operation_response("Unexpected policy rejection", API_KEY),
        Err(Error::OperationRejected {
            message: "Unexpected policy rejection".into()
        })
    );
    assert_eq!(
        parse_operation_response("Shock not allowed.", API_KEY),
        Err(Error::OperationNotAllowed)
    );
    assert_eq!(
        parse_operation_response("Device in Use.", API_KEY),
        Err(Error::ShareCodeInUse)
    );
    assert_eq!(
        parse_operation_response(&format!("Rejected key {API_KEY}"), API_KEY),
        Err(Error::OperationRejected {
            message: "Rejected key [REDACTED]".into()
        })
    );
}

#[test]
fn a_rejected_command_is_sent_exactly_once() {
    let client = connect();
    let request = client.beep(SHARE_CODE, 1).ok().unwrap();
    assert_eq!(request.duration, 1);
    assert_eq!(
        client.command_outcome(answered(200, "Device in Use.".to_owned())),
        Err(Error::ShareCodeInUse)
    );
}

#[test]
fn http_and_decode_failures_are_typed_and_redacted() {
    let error = PiShockClient::connect_to(credentials(), SENDER.into(), urls())
        .ok()
        .unwrap()
        .finish(Reply::Answered {
            status: 403,
            body: None,
        })
        .err()
        .unwrap();
    assert_eq!(error, Error::AuthenticationRejected);
    assert!(!format!("{error:?} {}", error.to_text()).contains(API_KEY));

    let error = PiShockClient::connect_to(credentials(), SENDER.into(), urls())
        .ok()
        .unwrap()
        .finish(Reply::Answered {
            status: 200,
            body: None,
        })
        .err()
        .unwrap();
    assert_eq!(
        error,
        Error::Decode {
            operation: "authentication"
        }
    );
    assert!(!format!("{error:?} {}", error.to_text()).contains(API_KEY));
}

#[test]
fn statuses_mean_success_rejection_or_failure() {
    assert_eq!(expect_status(200, "command"), Ok(()));
    assert_eq!(expect_status(299, "command"), Ok(()));
    assert_eq!(
        expect_status(401, "authentication"),
        Err(Error::AuthenticationRejected)
    );
    assert_eq!(
        expect_status(401, "command"),
        Err(Error::HttpStatus {
            operation: "command",
            status: 401
        })
    );
    assert_eq!(
        expect_status(300, "authentication"),
        Err(Error::HttpStatus {
            operation: "authentication",
            status: 300
        })
    );
    let client = connect();
    assert_eq!(
        client.command_outcome(Reply::Unanswered),
        Err(Error::Transport)
    );
    assert_eq!(
        client.command_outcome(Reply::Answered {
            status: 200,
            body: None
        }),
        Err(Error::Transport)
    );
    assert_eq!(
        PiShockClient::listed_devices(Reply::Answered {
            status: 200,
            body: None
        }),
        Err(Error::Decode {
            operation: "device listing"
        })
    );
}

#[test]
fn errors_have_sentences() {
    let cases = [
        (Error::EmptyUsername, "username must not be empty"),
        (Error::EmptyApiKey, "API key must not be empty"),
        (Error::EmptySender, "sender name must not be empty"),
        (Error::EmptyShareCode, "share code must not be empty"),
        (
            Error::InvalidIntensity,
            "intensity must be between 1 and 100",
        ),
        (
            Error::InvalidDuration,
            "duration must be between 1 and 15 seconds",
        ),
        (
            Error::AuthenticationRejected,
            "PiShock authentication was rejected",
        ),
        (Error::ShareCodeNotFound, "the share code does not exist"),
        (
            Error::NotAuthorized,
            "PiShock did not authorize the request",
        ),
        (
            Error::ShockerPaused,
            "the target shocker is paused or unavailable",
        ),
        (
            Error::DeviceOffline,
            "the target PiShock hub is not connected",
        ),
        (
            Error::ShareCodeInUse,
            "the target PiShock device is already in use",
        ),
        (
            Error::InvalidOperation,
            "PiShock rejected the operation code",
        ),
        (
            Error::OperationNotAllowed,
            "the share code does not allow this operation",
        ),
        (
            Error::IntensityRejected {
                message: "a".to_owned(),
            },
            "PiShock rejected the intensity: a",
        ),
        (
            Error::DurationRejected {
                message: "b".to_owned(),
            },
            "PiShock rejected the duration: b",
        ),
        (
            Error::OperationRejected {
                message: "c".to_owned(),
            },
            "PiShock rejected the operation: c",
        ),
        (
            Error::HttpStatus {
                operation: "command",
                status: 503,
            },
            "command returned HTTP status 503",
        ),
        (Error::Transport, "PiShock transport error"),
        (
            Error::Decode {
                operation: "device listing",
            },
            "invalid PiShock response for device listing",
        ),
    ];
    for (error, sentence) in cases {
        assert_eq!(error.to_text(), sentence);
    }
}

#[test]
fn every_stretch_of_the_key_is_redacted() {
    for (message, key) in [
        ("key key key", "key"),
        ("aaaa", "aa"),
        ("aaaaa", "aa"),
        ("nothing here", "key"),
        ("", "key"),
        ("abc", ""),
        ("ünïcödé ï", "ï"),
    ] {
        assert_eq!(
            redact_api_key(message, key),
            message.replace(key, "[REDACTED]")
        );
    }
}
