use edgehog_device_runtime::ota::status::{
    ota_response, ota_response_sent, OtaError, OtaEvent, OtaOperation, OtaRequest, OtaStatus,
    OtaStatusMessage, OTA_RESPONSE_INTERFACE, OTA_RESPONSE_PATH,
};
use uuid::Uuid;

const UUID: u128 = 0x67e5504410b1426f9247bb680e5fe0c8;

fn ota_request() -> OtaRequest {
    OtaRequest {
        uuid: UUID,
        url: "http://ota.bin".to_string(),
    }
}

#[test]
#[allow(non_snake_case)]
fn convert_ota_status_Init_to_OtaStatusMessage() {
    let expected_ota_event = OtaEvent {
        requestUUID: "".to_string(),
        status: "".to_string(),
        statusProgress: 0,
        statusCode: "".to_string(),
        message: "".to_string(),
    };

    let ota_event = OtaEvent::from(&OtaStatus::Init);
    assert_eq!(expected_ota_event.status, ota_event.status);
    assert_eq!(expected_ota_event.statusCode, ota_event.statusCode);
    assert_eq!(expected_ota_event.message, ota_event.message);
}

#[test]
#[allow(non_snake_case)]
fn convert_ota_status_Acknowledged_to_OtaStatusMessage() {
    let expected_ota_event = OtaEvent {
        requestUUID: Uuid::from_u128(UUID).to_string(),
        status: "Acknowledged".to_string(),
        statusProgress: 0,
        statusCode: "".to_string(),
        message: "".to_string(),
    };

    let ota_event = OtaEvent::from(&OtaStatus::Acknowledged(ota_request()));
    assert_eq!(expected_ota_event.status, ota_event.status);
    assert_eq!(expected_ota_event.statusCode, ota_event.statusCode);
    assert_eq!(expected_ota_event.message, ota_event.message);
    assert_eq!(expected_ota_event.requestUUID, ota_event.requestUUID);
    assert_eq!(expected_ota_event.statusProgress, ota_event.statusProgress);
}

#[test]
#[allow(non_snake_case)]
fn convert_ota_status_downloading_to_OtaStatusMessage() {
    let expected_ota_event = OtaEvent {
        requestUUID: Uuid::from_u128(UUID).to_string(),
        status: "Downloading".to_string(),
        statusProgress: 100,
        statusCode: "".to_string(),
        message: "".to_string(),
    };

    let ota_event = OtaEvent::from(&OtaStatus::Downloading(ota_request(), 100));
    assert_eq!(expected_ota_event.status, ota_event.status);
    assert_eq!(expected_ota_event.statusCode, ota_event.statusCode);
    assert_eq!(expected_ota_event.message, ota_event.message);
    assert_eq!(expected_ota_event.requestUUID, ota_event.requestUUID);
    assert_eq!(expected_ota_event.statusProgress, ota_event.statusProgress);
}

#[test]
#[allow(non_snake_case)]
fn convert_ota_status_Deploying_to_OtaStatusMessage() {
    let expected_ota_event = OtaEvent {
        requestUUID: Uuid::from_u128(UUID).to_string(),
        status: "Deploying".to_string(),
        statusProgress: 0,
        statusCode: "".to_string(),
        message: "".to_string(),
    };

    let ota_event = OtaEvent::from(&OtaStatus::Deploying(ota_request()));
    assert_eq!(expected_ota_event.status, ota_event.status);
    assert_eq!(expected_ota_event.statusCode, ota_event.statusCode);
    assert_eq!(expected_ota_event.message, ota_event.message);
    assert_eq!(expected_ota_event.requestUUID, ota_event.requestUUID);
    assert_eq!(expected_ota_event.statusProgress, ota_event.statusProgress);
}

#[test]
#[allow(non_snake_case)]
fn convert_ota_status_Deployed_to_OtaStatusMessage() {
    let expected_ota_event = OtaEvent {
        requestUUID: Uuid::from_u128(UUID).to_string(),
        status: "Deployed".to_string(),
        statusProgress: 0,
        statusCode: "".to_string(),
        message: "".to_string(),
    };

    let ota_event = OtaEvent::from(&OtaStatus::Deployed(ota_request()));
    assert_eq!(expected_ota_event.status, ota_event.status);
    assert_eq!(expected_ota_event.statusCode, ota_event.statusCode);
    assert_eq!(expected_ota_event.message, ota_event.message);
    assert_eq!(expected_ota_event.requestUUID, ota_event.requestUUID);
    assert_eq!(expected_ota_event.statusProgress, ota_event.statusProgress);
}

#[test]
#[allow(non_snake_case)]
fn convert_ota_status_Rebooting_to_OtaStatusMessage() {
    let expected_ota_event = OtaEvent {
        requestUUID: Uuid::from_u128(UUID).to_string(),
        status: "Rebooting".to_string(),
        statusProgress: 0,
        statusCode: "".to_string(),
        message: "".to_string(),
    };

    let ota_event = OtaEvent::from(&OtaStatus::Rebooting(ota_request()));
    assert_eq!(expected_ota_event.status, ota_event.status);
    assert_eq!(expected_ota_event.statusCode, ota_event.statusCode);
    assert_eq!(expected_ota_event.message, ota_event.message);
    assert_eq!(expected_ota_event.requestUUID, ota_event.requestUUID);
    assert_eq!(expected_ota_event.statusProgress, ota_event.statusProgress);
}

#[test]
#[allow(non_snake_case)]
fn convert_ota_status_Success_to_OtaStatusMessage() {
    let expected_ota_event = OtaEvent {
        requestUUID: Uuid::from_u128(UUID).to_string(),
        status: "Success".to_string(),
        statusProgress: 0,
        statusCode: "".to_string(),
        message: "".to_string(),
    };

    let ota_event = OtaEvent::from(&OtaStatus::Success(ota_request()));
    assert_eq!(expected_ota_event.status, ota_event.status);
    assert_eq!(expected_ota_event.statusCode, ota_event.statusCode);
    assert_eq!(expected_ota_event.message, ota_event.message);
    assert_eq!(expected_ota_event.requestUUID, ota_event.requestUUID);
    assert_eq!(expected_ota_event.statusProgress, ota_event.statusProgress);
}

#[test]
#[allow(non_snake_case)]
fn convert_ota_status_Error_to_OtaStatusMessage() {
    let expected_ota_event = OtaEvent {
        requestUUID: Uuid::from_u128(UUID).to_string(),
        status: "Error".to_string(),
        statusProgress: 0,
        statusCode: "RequestError".to_string(),
        message: "Invalid data".to_string(),
    };

    let ota_event = OtaEvent::from(&OtaStatus::Error(OtaError::Request("Invalid data"), ota_request()));
    assert_eq!(expected_ota_event.status, ota_event.status);
    assert_eq!(expected_ota_event.statusCode, ota_event.statusCode);
    assert_eq!(expected_ota_event.message, ota_event.message);
    assert_eq!(expected_ota_event.requestUUID, ota_event.requestUUID);
    assert_eq!(expected_ota_event.statusProgress, ota_event.statusProgress);
}

#[test]
#[allow(non_snake_case)]
fn convert_ota_status_Failure_RequestError_to_OtaStatusMessage() {
    let expected_ota_event = OtaEvent {
        requestUUID: Uuid::from_u128(UUID).to_string(),
        status: "Failure".to_string(),
        statusProgress: 0,
        statusCode: "RequestError".to_string(),
        message: "Invalid data".to_string(),
    };

    let ota_event = OtaEvent::from(&OtaStatus::Failure(OtaError::Request("Invalid data"), Some(ota_request())));
    assert_eq!(expected_ota_event.status, ota_event.status);
    assert_eq!(expected_ota_event.statusCode, ota_event.statusCode);
    assert_eq!(expected_ota_event.message, ota_event.message);
    assert_eq!(expected_ota_event.requestUUID, ota_event.requestUUID);
    assert_eq!(expected_ota_event.statusProgress, ota_event.statusProgress);
}

#[test]
#[allow(non_snake_case)]
fn convert_ota_status_Failure_NetworkError_to_OtaStatusMessage() {
    let expected_ota_event = OtaEvent {
        requestUUID: Uuid::from_u128(UUID).to_string(),
        status: "Failure".to_string(),
        statusProgress: 0,
        statusCode: "NetworkError".to_string(),
        message: "no network".to_string(),
    };

    let ota_event = OtaEvent::from(&OtaStatus::Failure(OtaError::Network("no network".to_string()), Some(ota_request())));
    assert_eq!(expected_ota_event.status, ota_event.status);
    assert_eq!(expected_ota_event.statusCode, ota_event.statusCode);
    assert_eq!(expected_ota_event.message, ota_event.message);
    assert_eq!(expected_ota_event.requestUUID, ota_event.requestUUID);
    assert_eq!(expected_ota_event.statusProgress, ota_event.statusProgress);
}

#[test]
#[allow(non_snake_case)]
fn convert_ota_status_Failure_IOError_to_OtaStatusMessage() {
    let expected_ota_event = OtaEvent {
        requestUUID: Uuid::from_u128(UUID).to_string(),
        status: "Failure".to_string(),
        statusProgress: 0,
        statusCode: "IOError".to_string(),
        message: "Invalid path".to_string(),
    };

    let ota_event = OtaEvent::from(&OtaStatus::Failure(OtaError::IO("Invalid path".to_string()), Some(ota_request())));
    assert_eq!(expected_ota_event.status, ota_event.status);
    assert_eq!(expected_ota_event.statusCode, ota_event.statusCode);
    assert_eq!(expected_ota_event.message, ota_event.message);
    assert_eq!(expected_ota_event.requestUUID, ota_event.requestUUID);
    assert_eq!(expected_ota_event.statusProgress, ota_event.statusProgress);
}

#[test]
#[allow(non_snake_case)]
fn convert_ota_status_Failure_Internal_to_OtaStatusMessage() {
    let expected_ota_event = OtaEvent {
        requestUUID: Uuid::from_u128(UUID).to_string(),
        status: "Failure".to_string(),
        statusProgress: 0,
        statusCode: "InternalError".to_string(),
        message: "system damage".to_string(),
    };

    let ota_event = OtaEvent::from(&OtaStatus::Failure(OtaError::Internal("system damage"), Some(ota_request())));
    assert_eq!(expected_ota_event.status, ota_event.status);
    assert_eq!(expected_ota_event.statusCode, ota_event.statusCode);
    assert_eq!(expected_ota_event.message, ota_event.message);
    assert_eq!(expected_ota_event.requestUUID, ota_event.requestUUID);
    assert_eq!(expected_ota_event.statusProgress, ota_event.statusProgress);
}

#[test]
#[allow(non_snake_case)]
fn convert_ota_status_Failure_InvalidBaseImage_to_OtaStatusMessage() {
    let expected_ota_event = OtaEvent {
        requestUUID: Uuid::from_u128(UUID).to_string(),
        status: "Failure".to_string(),
        statusProgress: 0,
        statusCode: "InvalidBaseImage".to_string(),
        message: "Unable to get info from ota".to_string(),
    };

    let ota_event = OtaEvent::from(&OtaStatus::Failure(OtaError::InvalidBaseImage("Unable to get info from ota".to_string()), Some(ota_request())));
    assert_eq!(expected_ota_event.status, ota_event.status);
    assert_eq!(expected_ota_event.statusCode, ota_event.statusCode);
    assert_eq!(expected_ota_event.message, ota_event.message);
    assert_eq!(expected_ota_event.requestUUID, ota_event.requestUUID);
    assert_eq!(expected_ota_event.statusProgress, ota_event.statusProgress);
}

#[test]
#[allow(non_snake_case)]
fn convert_ota_status_Failure_SystemRollback_to_OtaStatusMessage() {
    let expected_ota_event = OtaEvent {
        requestUUID: Uuid::from_u128(UUID).to_string(),
        status: "Failure".to_string(),
        statusProgress: 0,
        statusCode: "SystemRollback".to_string(),
        message: "Unable to switch partition".to_string(),
    };

    let ota_event = OtaEvent::from(&OtaStatus::Failure(OtaError::SystemRollback("Unable to switch partition"), Some(ota_request())));
    assert_eq!(expected_ota_event.status, ota_event.status);
    assert_eq!(expected_ota_event.statusCode, ota_event.statusCode);
    assert_eq!(expected_ota_event.message, ota_event.message);
    assert_eq!(expected_ota_event.requestUUID, ota_event.requestUUID);
    assert_eq!(expected_ota_event.statusProgress, ota_event.statusProgress);
}

#[test]
fn event_text_of_identifier_is_hyphenated() {
    let event = OtaEvent::from(&OtaStatus::Deployed(ota_request()));
    assert_eq!(event.requestUUID, "67e55044-10b1-426f-9247-bb680e5fe0c8");
    assert_eq!(Uuid::parse_str(&event.requestUUID).unwrap().as_u128(), UUID);
}

#[test]
fn statuses_without_a_name_give_an_empty_event() {
    for status in [
        OtaStatus::Idle,
        OtaStatus::Init,
        OtaStatus::NoPendingOta,
        OtaStatus::Rebooted,
    ] {
        let event = OtaEvent::from(&status);
        assert_eq!(event.requestUUID, "");
        assert_eq!(event.status, "");
        assert!(status.ota_request().is_none());
        assert!(matches!(ota_response(&status), Ok(None)));
    }
}

#[test]
fn failure_without_request_is_not_published() {
    let status = OtaStatus::Failure(OtaError::Cancelled, None);
    assert_eq!(OtaEvent::from(&status).status, "Failure");
    assert!(matches!(ota_response(&status), Ok(None)));
}

#[test]
fn responses_are_published_for_requests() {
    let event = ota_response(&OtaStatus::Downloading(ota_request(), 42))
        .unwrap()
        .unwrap();
    assert_eq!(event.status, "Downloading");
    assert_eq!(event.statusProgress, 42);
    assert_eq!(OTA_RESPONSE_INTERFACE, "io.edgehog.devicemanager.OTAResponse");
    assert_eq!(OTA_RESPONSE_PATH, "/response");
}

#[test]
fn unpublished_response_is_a_network_error() {
    assert!(ota_response_sent(true).is_ok());
    assert_eq!(
        ota_response_sent(false),
        Err(OtaError::Network("Unable to publish ota_event".to_string()))
    );
}

#[test]
fn errors_have_codes_and_messages() {
    let cases = [
        (OtaError::Request("a"), "RequestError", "a", "InvalidRequestError: a"),
        (
            OtaError::UpdateAlreadyInProgress,
            "UpdateAlreadyInProgress",
            "",
            "UpdateAlreadyInProgress",
        ),
        (OtaError::Network("b".to_string()), "NetworkError", "b", "NetworkError: b"),
        (OtaError::IO("c".to_string()), "IOError", "c", "IOError: c"),
        (OtaError::Internal("d"), "InternalError", "d", "InternalError: d"),
        (
            OtaError::InvalidBaseImage("e".to_string()),
            "InvalidBaseImage",
            "e",
            "InvalidBaseImage: e",
        ),
        (OtaError::SystemRollback("f"), "SystemRollback", "f", "SystemRollback: f"),
        (OtaError::Cancelled, "Cancelled", "", "Cancelled"),
    ];
    for (error, code, message, shown) in cases {
        let status_message = OtaStatusMessage::from(&error);
        assert_eq!(status_message.status_code, code);
        assert_eq!(status_message.message, message);
        assert_eq!(error.display(), shown);
        assert_eq!(error.clone(), error);
    }
}

#[test]
fn operations_are_read_by_their_names() {
    assert_eq!(OtaOperation::from_str("Cancel"), Ok(OtaOperation::Cancel));
    assert_eq!(OtaOperation::from_str("Update"), Ok(OtaOperation::Update));
    assert_eq!(OtaOperation::from_str("update"), Err(()));
    assert_eq!(OtaOperation::from_str(""), Err(()));
}
