use std::collections::VecDeque;

use edgehog_device_runtime::data::AstarteType;
use edgehog_device_runtime::ota::download::{Download, DownloadAction, DownloadPhase, DownloadReply};
use edgehog_device_runtime::ota::handler::{
    get_ota_status, HandlerAction, HandlerPhase, HandlerReply, OtaHandler,
};
use edgehog_device_runtime::ota::run::{
    DeployStage, InstallStage, Ota, OtaAction, OtaAnswer, OtaMessage, OtaPhase, OtaReply,
    PendingStage, Progress, RebootStage,
};
use edgehog_device_runtime::ota::status::{
    ota_response, OtaError, OtaEvent, OtaRequest, OtaStatus, PersistentState,
};
use edgehog_device_runtime::string_map::StringMap;
use uuid::Uuid;

const UUID: u128 = 0x67e5504410b1426f9247bb680e5fe0c8;
const OTHER_UUID: u128 = 0xa1a2a3a4b1b2c1c2d1d2d3d4d5d6d7d8;

fn ota_request() -> OtaRequest {
    OtaRequest {
        uuid: UUID,
        url: "http://ota.bin".to_string(),
    }
}

fn map(entries: &[(&str, AstarteType)]) -> StringMap<AstarteType> {
    let mut map = StringMap::new();
    for (key, value) in entries {
        let value = match value {
            AstarteType::String(text) => AstarteType::String(text.clone()),
            AstarteType::Integer(number) => AstarteType::Integer(*number),
            _ => AstarteType::Other,
        };
        map.insert(key.to_string(), value);
    }
    map
}

fn text(value: &str) -> AstarteType {
    AstarteType::String(value.to_string())
}

fn request_data(operation: &str, uuid: u128) -> StringMap<AstarteType> {
    map(&[
        ("url", text("http://instance.ota.bin")),
        ("uuid", text(&Uuid::from_u128(uuid).to_string())),
        ("operation", text(operation)),
    ])
}

fn kept(slot: &str) -> PersistentState {
    PersistentState {
        uuid: UUID,
        slot: slot.to_string(),
    }
}

/// A device whose replies are laid down in advance.
struct Device {
    response: Option<Option<u64>>,
    create: bool,
    chunks: Vec<Option<u64>>,
    write: bool,
    info: Option<&'static str>,
    compatible: Option<&'static str>,
    boot_slot: Option<&'static str>,
    persist: bool,
    install: bool,
    operation: bool,
    signal: Option<i32>,
    reboot: bool,
    exists: bool,
    state: Option<&'static str>,
    primary: Option<&'static str>,
    marked: Option<&'static str>,
    downloads: usize,
    sleeps: Vec<u64>,
    written: Vec<PersistentState>,
    installed: Vec<String>,
    marks: Vec<(String, String)>,
    reboots: usize,
    cleared: usize,
    removed: Vec<String>,
    published: Vec<OtaStatus>,
}

impl Device {
    fn new() -> Self {
        Device {
            response: Some(Some(3)),
            create: true,
            chunks: vec![Some(3)],
            write: true,
            info: Some("rauc-demo-x86"),
            compatible: Some("rauc-demo-x86"),
            boot_slot: Some("B"),
            persist: true,
            install: true,
            operation: true,
            signal: Some(0),
            reboot: true,
            exists: true,
            state: Some("A"),
            primary: Some("rootfs.0"),
            marked: Some("rootfs.0"),
            downloads: 0,
            sleeps: Vec::new(),
            written: Vec::new(),
            installed: Vec::new(),
            marks: Vec::new(),
            reboots: 0,
            cleared: 0,
            removed: Vec::new(),
            published: Vec::new(),
        }
    }

    fn wget(&mut self, url: &str, file_path: &str, uuid: u128) -> Result<(), OtaError> {
        let download = Download {
            url: url.to_string(),
            file_path: file_path.to_string(),
            request_uuid: uuid,
        };
        let mut chunks: VecDeque<Option<u64>> = self.chunks.iter().copied().collect();
        let (mut phase, mut action) = download.wget();
        loop {
            let reply = match action {
                DownloadAction::RemoveStale(path) => {
                    assert_eq!(path, file_path);
                    DownloadReply::Done
                }
                DownloadAction::Get(address) => {
                    assert_eq!(address, url);
                    self.downloads += 1;
                    DownloadReply::Response(self.response)
                }
                DownloadAction::CreateFile(path) => {
                    assert_eq!(path, file_path);
                    DownloadReply::Outcome(self.create)
                }
                DownloadAction::NextChunk => match chunks.pop_front() {
                    Some(chunk) => DownloadReply::Chunk(chunk),
                    None => DownloadReply::End,
                },
                DownloadAction::WriteChunk => DownloadReply::Outcome(self.write),
                DownloadAction::Publish(status) => {
                    self.published.push(status);
                    DownloadReply::Done
                }
                DownloadAction::Finish(result) => {
                    assert_eq!(phase, DownloadPhase::Done);
                    return result;
                }
            };
            let step = download.resume(phase, reply);
            phase = step.0;
            action = step.1;
        }
    }

    fn perform(&mut self, action: OtaAction) -> OtaReply {
        let owned = |value: Option<&'static str>| OtaReply::Text(value.map(str::to_string));
        match action {
            OtaAction::Publish(status) => {
                self.published.push(status);
                OtaReply::Done
            }
            OtaAction::Download { url, path, uuid } => {
                OtaReply::Downloaded(self.wget(&url, &path, uuid))
            }
            OtaAction::Sleep(seconds) => {
                self.sleeps.push(seconds);
                OtaReply::Done
            }
            OtaAction::BundleInfo(_) => owned(self.info),
            OtaAction::Compatible => owned(self.compatible),
            OtaAction::BootSlot => owned(self.boot_slot),
            OtaAction::WriteState(state) => {
                self.written.push(state);
                OtaReply::Outcome(self.persist)
            }
            OtaAction::InstallBundle(path) => {
                self.installed.push(path);
                OtaReply::Outcome(self.install)
            }
            OtaAction::Operation => OtaReply::Outcome(self.operation),
            OtaAction::ReceiveCompleted => OtaReply::Signal(self.signal),
            OtaAction::Reboot => {
                self.reboots += 1;
                OtaReply::Outcome(self.reboot)
            }
            OtaAction::StateExists => OtaReply::Outcome(self.exists),
            OtaAction::ReadState => OtaReply::State(self.state.map(kept)),
            OtaAction::ClearState => {
                self.cleared += 1;
                OtaReply::Done
            }
            OtaAction::GetPrimary => owned(self.primary),
            OtaAction::Mark { state, slot } => {
                self.marks.push((state, slot));
                owned(self.marked)
            }
            OtaAction::RemoveFile(path) => {
                self.removed.push(path);
                OtaReply::Done
            }
            OtaAction::Finish(_) => unreachable!(),
        }
    }

    fn finish(&mut self, ota: &mut Ota, step: (OtaPhase, OtaAction)) -> OtaStatus {
        let (mut phase, mut action) = step;
        loop {
            if let OtaAction::Finish(status) = action {
                assert_eq!(phase, OtaPhase::Done);
                return status;
            }
            let reply = self.perform(action);
            let step = ota.resume(phase, reply);
            phase = step.0;
            action = step.1;
        }
    }

    fn deploying(&mut self, ota: &Ota, request: &OtaRequest) -> OtaStatus {
        let url = request.url.clone();
        let path = ota.get_update_file_path();
        let mut reply = OtaReply::Downloaded(self.wget(&url, &path, request.uuid));
        let mut stage = DeployStage::Download(1);
        loop {
            match ota.deploying(request, stage, reply) {
                Progress::Await(next, action) => {
                    stage = next;
                    reply = self.perform(action);
                }
                Progress::Settled(status) => return status,
            }
        }
    }

    fn deployed(&mut self, ota: &Ota, request: &OtaRequest) -> OtaStatus {
        let mut reply = self.perform(OtaAction::InstallBundle(ota.download_file_path.clone()));
        let mut stage = InstallStage::Install;
        loop {
            match Ota::deployed(request, stage, reply) {
                Progress::Await(next, action) => {
                    stage = next;
                    reply = self.perform(action);
                }
                Progress::Settled(status) => return status,
            }
        }
    }

    fn pending(&mut self, stage: PendingStage, action: OtaAction) -> OtaStatus {
        let mut reply = self.perform(action);
        let mut stage = stage;
        loop {
            match Ota::success(stage, reply) {
                Progress::Await(next, action) => {
                    stage = next;
                    reply = self.perform(action);
                }
                Progress::Settled(status) => return status,
            }
        }
    }

    fn success(&mut self) -> OtaStatus {
        self.pending(PendingStage::Exists, OtaAction::StateExists)
    }

    fn do_pending_ota(&mut self) -> Result<(), OtaError> {
        match self.pending(PendingStage::BootSlot(kept("A")), OtaAction::BootSlot) {
            OtaStatus::Success(_) => Ok(()),
            OtaStatus::Failure(error, _) => Err(error),
            status => panic!("unexpected {status:?}"),
        }
    }
}

/// A device with its handler and its update, and the events it published.
struct Runtime {
    handler: OtaHandler,
    ota: Ota,
    device: Device,
    events: Vec<OtaEvent>,
}

impl Runtime {
    fn new(device: Device) -> Self {
        Runtime {
            handler: OtaHandler::new(),
            ota: Ota::new(String::new()),
            device,
            events: Vec::new(),
        }
    }

    fn send(&mut self, status: &OtaStatus) -> HandlerReply {
        match ota_response(status) {
            Ok(Some(event)) => {
                self.events.push(event);
                HandlerReply::Sent(Ok(()))
            }
            Ok(None) => HandlerReply::Sent(Ok(())),
            Err(error) => HandlerReply::Sent(Err(error)),
        }
    }

    fn statuses(&mut self, message: OtaMessage) -> VecDeque<OtaStatus> {
        let step = match self.ota.handle_message(message) {
            OtaAnswer::Started(phase, action) => (phase, action),
            OtaAnswer::Status(status) => panic!("unexpected {status:?}"),
        };
        let last = self.device.finish(&mut self.ota, step);
        let mut statuses: VecDeque<OtaStatus> = self.device.published.drain(..).collect();
        statuses.push_back(last);
        statuses
    }

    fn drive(
        &mut self,
        step: (HandlerPhase, HandlerAction),
        data: Option<StringMap<AstarteType>>,
    ) -> Result<(), OtaError> {
        let (mut phase, mut action) = step;
        let mut data = data;
        let mut statuses = VecDeque::new();
        loop {
            let reply = match action {
                HandlerAction::GetOtaStatus => {
                    let answer = match self.ota.handle_message(OtaMessage::GetOtaStatus) {
                        OtaAnswer::Status(status) => Some(status),
                        OtaAnswer::Started(_, _) => None,
                    };
                    HandlerReply::Status(get_ota_status(true, answer))
                }
                HandlerAction::Publish(status) => self.send(&status),
                HandlerAction::StartUpdate => {
                    assert!(self.handler.cancellable);
                    statuses = self.statuses(OtaMessage::HandleOtaEvent(data.take().unwrap()));
                    HandlerReply::Delivered(true)
                }
                HandlerAction::EnsurePendingOta => {
                    statuses = self.statuses(OtaMessage::EnsurePendingOta);
                    HandlerReply::Delivered(true)
                }
                HandlerAction::Receive => HandlerReply::Received(statuses.pop_front()),
                HandlerAction::CancelUpdate => HandlerReply::Done,
                HandlerAction::Finish(result) => return result,
            };
            let step = self.handler.resume(phase, reply);
            phase = step.0;
            action = step.1;
        }
    }

    fn ota_event(&mut self, data: StringMap<AstarteType>) -> Result<(), OtaError> {
        let step = self.handler.ota_event(&data);
        self.drive(step, Some(data))
    }

    /// Starts an update and leaves it while its image is downloaded.
    fn start_download(&mut self) -> (OtaPhase, OtaAction) {
        self.handler.cancellable = true;
        let (mut phase, mut action) = self
            .ota
            .handle_ota_event(OtaStatus::Idle, &request_data("Update", UUID));
        while !matches!(action, OtaAction::Download { .. }) {
            let reply = self.device.perform(action);
            let step = self.ota.resume(phase, reply);
            phase = step.0;
            action = step.1;
        }
        (phase, action)
    }

    fn event_names(&self) -> Vec<(&str, i32)> {
        self.events
            .iter()
            .map(|event| (event.status.as_str(), event.statusProgress))
            .collect()
    }
}

fn hyphenated(uuid: u128) -> String {
    Uuid::from_u128(uuid).to_string()
}

#[test]
fn try_to_acknowledged_fail_empty_data() {
    let ota_status = Ota::acknowledged(&StringMap::new());
    assert!(matches!(
        ota_status,
        OtaStatus::Failure(OtaError::Request(_), _)
    ))
}

#[test]
fn try_to_acknowledged_fail_uuid() {
    let ota_status = Ota::acknowledged(&map(&[("url", text("http://instance.ota.bin"))]));
    assert_eq!(
        ota_status,
        OtaStatus::Failure(
            OtaError::Request("Unable to find data in the OTA request"),
            None
        )
    )
}

#[test]
fn try_to_acknowledged_fail_data_with_one_key() {
    let data = map(&[
        ("url", text("http://instance.ota.bin")),
        ("uuid", text("bad_uuid")),
        ("operation", text("Update")),
    ]);
    assert_eq!(
        Ota::acknowledged(&data),
        OtaStatus::Failure(OtaError::Request("Unable to parse request_uuid"), None)
    )
}

#[test]
fn ota_event_fail_data_with_wrong_astarte_type() {
    let data = map(&[
        ("url", text("http://ota.bin")),
        ("uuid", AstarteType::Integer(0)),
        ("operation", text("Update")),
    ]);
    assert_eq!(
        Ota::acknowledged(&data),
        OtaStatus::Failure(OtaError::Request("Got invalid data in OTARequest"), None)
    )
}

#[test]
fn try_to_acknowledged_success() {
    let data = request_data("Update", UUID);
    let expected = OtaRequest {
        uuid: UUID,
        url: "http://instance.ota.bin".to_string(),
    };
    assert_eq!(
        Ota::acknowledged(&data),
        OtaStatus::Acknowledged(expected.clone())
    );

    let mut ota = Ota::new(String::new());
    ota.ota_status = OtaStatus::Init;
    let (phase, action) = ota.handle_ota_event(OtaStatus::Init, &data);
    assert_eq!(
        action,
        OtaAction::Publish(OtaStatus::Acknowledged(expected.clone()))
    );
    assert_eq!(phase, OtaPhase::Acknowledge(expected));
    assert_eq!(ota.ota_status, OtaStatus::Init);
}

#[test]
fn identifiers_are_read_in_any_notation() {
    for notation in [
        "67e5504410b1426f9247bb680e5fe0c8",
        "67E55044-10B1-426F-9247-BB680E5FE0C8",
        "{67e55044-10b1-426f-9247-bb680e5fe0c8}",
        "urn:uuid:67e55044-10b1-426f-9247-bb680e5fe0c8",
    ] {
        let data = map(&[("url", text("u")), ("uuid", text(notation))]);
        let request = OtaRequest {
            uuid: UUID,
            url: "u".to_string(),
        };
        assert_eq!(Ota::acknowledged(&data), OtaStatus::Acknowledged(request));
    }
}

#[test]
fn acknowledgement_takes_the_identifier_that_was_read() {
    let data = request_data("Update", UUID);
    assert!(matches!(
        Ota::acknowledged_as(&data, Some(7)),
        OtaStatus::Acknowledged(OtaRequest { uuid: 7, .. })
    ));
    assert!(matches!(
        Ota::acknowledged_as(&data, None),
        OtaStatus::Failure(OtaError::Request("Unable to parse request_uuid"), None)
    ));
}

#[test]
fn try_to_downloading_success() {
    let ota_status = Ota::downloading(ota_request());
    assert_eq!(ota_status, OtaStatus::Downloading(ota_request(), 0));

    let mut ota = Ota::new(String::new());
    let (phase, action) = ota.resume(OtaPhase::Acknowledge(ota_request()), OtaReply::Done);
    assert_eq!(
        action,
        OtaAction::Publish(OtaStatus::Downloading(ota_request(), 0))
    );
    assert_eq!(phase, OtaPhase::Announce(ota_request()));
    assert_eq!(ota.ota_status, OtaStatus::Acknowledged(ota_request()));
}

fn deploying_fails(device: Device) -> (OtaStatus, Device) {
    let mut device = device;
    let ota = Ota::new("/tmp".to_string());
    let status = device.deploying(&ota, &ota_request());
    assert_eq!(device.downloads, 1);
    assert_eq!(device.published.len(), 1);
    assert!(matches!(
        device.published[0],
        OtaStatus::Downloading(_, 100)
    ));
    (status, device)
}

#[test]
fn try_to_deploying_fail_ota_request() {
    let mut device = Device::new();
    device.info = None;
    let (ota_status, _) = deploying_fails(device);
    assert!(matches!(
        ota_status,
        OtaStatus::Failure(OtaError::InvalidBaseImage(_), _)
    ));
}

#[test]
fn try_to_deploying_fail_5_wget() {
    let mut device = Device::new();
    device.response = Some(Some(0));
    let ota = Ota::new("/tmp".to_string());
    let ota_status = device.deploying(&ota, &ota_request());
    assert_eq!(device.downloads, 5);
    assert_eq!(device.sleeps, vec![2, 4, 8, 16]);
    assert_eq!(device.published.len(), 4);
    for status in &device.published {
        assert!(matches!(status, OtaStatus::Error(OtaError::Network(_), _)));
    }
    assert!(matches!(
        ota_status,
        OtaStatus::Failure(OtaError::Network(_), _)
    ));
}

#[test]
fn try_to_deploying_fail_ota_info() {
    let mut device = Device::new();
    device.info = None;
    let (ota_status, _) = deploying_fails(device);
    assert_eq!(
        ota_status,
        OtaStatus::Failure(
            OtaError::InvalidBaseImage(
                "Unable to get info from ota_file in \"/tmp/update.bin\"".to_string()
            ),
            Some(ota_request())
        )
    );
}

#[test]
fn try_to_deploying_fail_ota_call_compatible() {
    let mut device = Device::new();
    device.compatible = None;
    let (ota_status, _) = deploying_fails(device);
    assert_eq!(
        ota_status,
        OtaStatus::Failure(
            OtaError::InvalidBaseImage(
                "Unable to get info from current deployed image".to_string()
            ),
            Some(ota_request())
        )
    );
}

#[test]
fn try_to_deploying_fail_compatible() {
    let mut device = Device::new();
    device.compatible = Some("rauc-demo-arm");
    let (ota_status, _) = deploying_fails(device);
    assert!(matches!(
        ota_status,
        OtaStatus::Failure(OtaError::InvalidBaseImage(_), _)
    ));
}

#[test]
fn try_to_deploying_fail_call_boot_slot() {
    let mut device = Device::new();
    device.boot_slot = None;
    let (ota_status, _) = deploying_fails(device);
    assert_eq!(
        ota_status,
        OtaStatus::Failure(
            OtaError::Internal("Unable to identify the booted slot"),
            Some(ota_request())
        )
    );
}

#[test]
fn try_to_deploying_fail_write_state() {
    let mut device = Device::new();
    device.boot_slot = Some("A");
    device.persist = false;
    let (ota_status, device) = deploying_fails(device);
    assert_eq!(device.written, vec![kept("A")]);
    assert_eq!(
        ota_status,
        OtaStatus::Failure(
            OtaError::IO("Unable to persist ota state".to_string()),
            Some(ota_request())
        )
    );
}

#[test]
fn try_to_deploying_success() {
    let mut device = Device::new();
    device.boot_slot = Some("A");
    let ota = Ota::new("/tmp".to_string());
    let ota_status = device.deploying(&ota, &ota_request());
    assert_eq!(device.downloads, 1);
    assert_eq!(device.published.len(), 2);
    assert!(matches!(
        device.published[0],
        OtaStatus::Downloading(_, 100)
    ));
    assert_eq!(device.published[1], OtaStatus::Deploying(ota_request()));
    assert_eq!(ota_status, OtaStatus::Deploying(ota_request()));
}

#[test]
fn try_to_deployed_fail_install_bundle() {
    let mut device = Device::new();
    device.install = false;
    let ota = Ota::new("/tmp".to_string());
    let ota_status = device.deployed(&ota, &ota_request());
    assert!(device.published.is_empty());
    assert_eq!(device.installed, vec!["/tmp".to_string()]);
    assert_eq!(
        ota_status,
        OtaStatus::Failure(
            OtaError::InvalidBaseImage("Unable to install ota image".to_string()),
            Some(ota_request())
        )
    );
}

#[test]
fn try_to_deployed_fail_operation() {
    let mut device = Device::new();
    device.operation = false;
    let ota = Ota::new("/tmp".to_string());
    let ota_status = device.deployed(&ota, &ota_request());
    assert!(device.published.is_empty());
    assert_eq!(
        ota_status,
        OtaStatus::Failure(
            OtaError::Internal("Unable to get status of ota operation"),
            Some(ota_request())
        )
    );
}

#[test]
fn try_to_deployed_fail_receive_completed() {
    let mut device = Device::new();
    device.signal = None;
    let ota = Ota::new("/tmp".to_string());
    let ota_status = device.deployed(&ota, &ota_request());
    assert!(device.published.is_empty());
    assert_eq!(
        ota_status,
        OtaStatus::Failure(
            OtaError::Internal("Unable to receive the install completed event"),
            Some(ota_request())
        )
    );
}

#[test]
fn try_to_deployed_fail_signal() {
    let mut device = Device::new();
    device.signal = Some(-1);
    let ota = Ota::new("/tmp".to_string());
    let ota_status = device.deployed(&ota, &ota_request());
    assert_eq!(
        ota_status,
        OtaStatus::Failure(
            OtaError::InvalidBaseImage("Update failed with signal -1".to_string()),
            Some(ota_request())
        )
    );
}

#[test]
fn signals_are_written_in_decimal() {
    for signal in [1, 10, 2147483647, -2147483648, -907] {
        let progress = Ota::deployed(
            &ota_request(),
            InstallStage::Completed,
            OtaReply::Signal(Some(signal)),
        );
        let message = format!("Update failed with signal {signal}");
        assert_eq!(
            progress,
            Progress::Settled(OtaStatus::Failure(
                OtaError::InvalidBaseImage(message),
                Some(ota_request())
            ))
        );
    }
}

#[test]
fn try_to_deployed_success() {
    let mut device = Device::new();
    let ota = Ota::new("/tmp".to_string());
    let ota_status = device.deployed(&ota, &ota_request());
    assert_eq!(device.published, vec![OtaStatus::Deployed(ota_request())]);
    assert_eq!(ota_status, OtaStatus::Deployed(ota_request()));
}

#[test]
fn try_to_rebooting_success() {
    let mut ota = Ota::new(String::new());
    let (phase, action) = ota.handle_ota_event(OtaStatus::Deployed(ota_request()), &StringMap::new());
    assert_eq!(
        action,
        OtaAction::Publish(OtaStatus::Rebooting(ota_request()))
    );
    let (phase, action) = ota.resume(phase, OtaReply::Done);
    assert_eq!(action, OtaAction::Sleep(5));
    let (phase, action) = ota.resume(phase, OtaReply::Done);
    assert_eq!(action, OtaAction::Reboot);
    let (_, action) = ota.resume(phase, OtaReply::Outcome(true));
    assert_eq!(action, OtaAction::StateExists);
    assert_eq!(ota.ota_status, OtaStatus::Rebooted);
}

#[test]
fn try_to_rebooting_fail() {
    let progress = Ota::rebooting(
        &ota_request(),
        RebootStage::Reboot,
        OtaReply::Outcome(false),
    );
    assert_eq!(
        progress,
        Progress::Settled(OtaStatus::Failure(
            OtaError::Internal("Unable to run reboot command"),
            Some(ota_request())
        ))
    );
}

#[test]
fn try_to_success_no_pending_update() {
    let mut device = Device::new();
    device.exists = false;
    assert_eq!(device.success(), OtaStatus::NoPendingOta);
    assert_eq!(device.cleared, 0);
}

#[test]
fn try_to_success_fail_read_state() {
    let mut device = Device::new();
    device.state = None;
    assert_eq!(
        device.success(),
        OtaStatus::Failure(
            OtaError::IO("Unable to read pending ota state".to_string()),
            None
        )
    );
    assert_eq!(device.cleared, 0);
}

#[test]
fn try_to_success_fail_pending_ota() {
    let mut device = Device::new();
    device.boot_slot = Some("A");
    let ota_status = device.success();
    assert!(matches!(
        ota_status,
        OtaStatus::Failure(OtaError::SystemRollback(_), _)
    ));
    assert_eq!(device.cleared, 1);
}

#[test]
fn try_to_success() {
    let mut device = Device::new();
    let request = OtaRequest {
        uuid: UUID,
        url: String::new(),
    };
    assert_eq!(device.success(), OtaStatus::Success(request));
    assert_eq!(device.cleared, 1);
    assert_eq!(
        device.marks,
        vec![("good".to_string(), "rootfs.0".to_string())]
    );
}

#[test]
fn do_pending_ota_fail_boot_slot() {
    let mut device = Device::new();
    device.boot_slot = None;
    assert_eq!(
        device.do_pending_ota(),
        Err(OtaError::Internal("Unable to identify the booted slot"))
    );
}

#[test]
fn do_pending_ota_fail_switch_slot() {
    let mut device = Device::new();
    device.boot_slot = Some("A");
    assert_eq!(
        device.do_pending_ota(),
        Err(OtaError::SystemRollback("Unable to switch slot"))
    );
}

#[test]
fn do_pending_ota_fail_get_primary() {
    let mut device = Device::new();
    device.primary = None;
    assert_eq!(
        device.do_pending_ota(),
        Err(OtaError::Internal("Unable to get the current primary slot"))
    );
}

#[test]
fn do_pending_ota_mark_slot_fail() {
    let mut device = Device::new();
    device.marked = None;
    assert_eq!(
        device.do_pending_ota(),
        Err(OtaError::Internal("Unable to run marking slot operation"))
    );
}

#[test]
fn do_pending_ota_fail_marked_wrong_slot() {
    let mut device = Device::new();
    device.marked = Some("rootfs.1");
    assert_eq!(
        device.do_pending_ota(),
        Err(OtaError::Internal("Unable to mark slot"))
    );
}

#[test]
fn do_pending_ota_success() {
    assert_eq!(Device::new().do_pending_ota(), Ok(()));
}

#[test]
fn handle_ota_event_bundle_not_compatible() {
    let mut device = Device::new();
    device.compatible = Some("rauc-demo-arm");
    let mut runtime = Runtime::new(device);
    let result = runtime.ota_event(request_data("Update", UUID));

    let expected = "bundle rauc-demo-x86 is not compatible with system rauc-demo-arm";
    assert_eq!(
        runtime.event_names(),
        vec![
            ("Acknowledged", 0),
            ("Downloading", 0),
            ("Downloading", 100),
            ("Failure", 0)
        ]
    );
    let last = runtime.events.last().unwrap();
    assert_eq!(last.statusCode, "InvalidBaseImage");
    assert_eq!(last.message, expected);
    assert!(runtime
        .events
        .iter()
        .all(|event| event.requestUUID == hyphenated(UUID)));
    assert_eq!(result, Err(OtaError::InvalidBaseImage(expected.to_string())));
    assert_eq!(runtime.ota.ota_status, OtaStatus::Idle);
    assert_eq!(runtime.device.removed, vec!["update.bin".to_string()]);
    assert!(!runtime.handler.cancellable);
}

#[test]
fn handle_ota_event_bundle_install_completed_fail() {
    let mut device = Device::new();
    device.boot_slot = Some("");
    device.signal = Some(-1);
    let mut runtime = Runtime::new(device);
    let result = runtime.ota_event(request_data("Update", UUID));
    assert_eq!(
        runtime.event_names(),
        vec![
            ("Acknowledged", 0),
            ("Downloading", 0),
            ("Downloading", 100),
            ("Deploying", 0),
            ("Failure", 0)
        ]
    );
    let last = runtime.events.last().unwrap();
    assert_eq!(last.statusCode, "InvalidBaseImage");
    assert_eq!(last.message, "Update failed with signal -1");
    assert_eq!(
        result,
        Err(OtaError::InvalidBaseImage(
            "Update failed with signal -1".to_string()
        ))
    );
}

#[test]
fn ota_event_fail_deployed() {
    let mut device = Device::new();
    device.install = false;
    let mut runtime = Runtime::new(device);
    let result = runtime.ota_event(request_data("Update", UUID));
    assert_eq!(
        runtime.event_names(),
        vec![
            ("Acknowledged", 0),
            ("Downloading", 0),
            ("Downloading", 100),
            ("Deploying", 0),
            ("Failure", 0)
        ]
    );
    let last = runtime.events.last().unwrap();
    assert_eq!(last.statusCode, "InvalidBaseImage");
    assert_eq!(last.message, "Unable to install ota image");
    assert_eq!(
        result,
        Err(OtaError::InvalidBaseImage(
            "Unable to install ota image".to_string()
        ))
    );
}

#[test]
fn ota_event_update_success() {
    let mut runtime = Runtime::new(Device::new());
    let result = runtime.ota_event(request_data("Update", UUID));
    assert_eq!(
        runtime.event_names(),
        vec![
            ("Acknowledged", 0),
            ("Downloading", 0),
            ("Downloading", 100),
            ("Deploying", 0),
            ("Deployed", 0),
            ("Rebooting", 0),
            ("Success", 0)
        ]
    );
    for event in &runtime.events {
        assert_eq!(event.statusCode, "");
        assert_eq!(event.requestUUID, hyphenated(UUID));
    }
    assert_eq!(result, Ok(()));
    assert_eq!(runtime.ota.ota_status, OtaStatus::Idle);
}

#[test]
fn ota_event_update_already_in_progress_same_uuid() {
    let mut runtime = Runtime::new(Device::new());
    let step = runtime.start_download();
    let result = runtime.ota_event(map(&[
        ("uuid", text(&hyphenated(UUID))),
        ("operation", text("Update")),
    ]));
    assert_eq!(result, Err(OtaError::UpdateAlreadyInProgress));
    assert_eq!(runtime.event_names(), vec![("Downloading", 0)]);
    assert_eq!(runtime.events[0].requestUUID, hyphenated(UUID));
    assert_eq!(runtime.events[0].statusCode, "");
    assert_eq!(runtime.events[0].message, "");
    assert!(runtime.handler.cancellable);

    let status = runtime.device.finish(&mut runtime.ota, step);
    assert!(matches!(status, OtaStatus::Success(_)));
}

#[test]
fn ota_event_update_already_in_progress_different_uuid() {
    let mut runtime = Runtime::new(Device::new());
    let step = runtime.start_download();
    let result = runtime.ota_event(map(&[
        ("uuid", text(&hyphenated(OTHER_UUID))),
        ("operation", text("Update")),
    ]));
    assert_eq!(result, Err(OtaError::UpdateAlreadyInProgress));
    assert_eq!(runtime.event_names(), vec![("Failure", 0)]);
    assert_eq!(runtime.events[0].requestUUID, hyphenated(OTHER_UUID));
    assert_eq!(runtime.events[0].statusCode, "UpdateAlreadyInProgress");
    assert_eq!(runtime.events[0].message, "");

    let status = runtime.device.finish(&mut runtime.ota, step);
    assert!(matches!(status, OtaStatus::Success(_)));
}

#[test]
fn ota_event_cancelled() {
    let mut runtime = Runtime::new(Device::new());
    runtime.start_download();
    let result = runtime.ota_event(map(&[
        ("uuid", text(&hyphenated(UUID))),
        ("operation", text("Cancel")),
    ]));
    assert_eq!(result, Ok(()));
    assert_eq!(runtime.event_names(), vec![("Failure", 0)]);
    assert_eq!(runtime.events[0].requestUUID, hyphenated(UUID));
    assert_eq!(runtime.events[0].statusCode, "Cancelled");
    assert!(!runtime.handler.cancellable);

    let again = runtime.ota_event(map(&[
        ("uuid", text(&hyphenated(UUID))),
        ("operation", text("Cancel")),
    ]));
    assert_eq!(again, Ok(()));
    assert_eq!(runtime.events[1].statusCode, "InternalError");
    assert_eq!(runtime.events[1].message, "Unable to cancel OTA request");
}

#[test]
fn ota_event_not_cancelled() {
    let mut handler = OtaHandler::new();
    handler.cancellable = true;
    let (_, action) = handler.resume(
        HandlerPhase::UpdateReport(OtaStatus::Deploying(ota_request())),
        HandlerReply::Sent(Ok(())),
    );
    assert_eq!(action, HandlerAction::Receive);
    assert!(!handler.cancellable);

    let mut runtime = Runtime::new(Device::new());
    runtime.handler = handler;
    runtime.ota.ota_status = OtaStatus::Deploying(ota_request());
    let result = runtime.ota_event(map(&[
        ("uuid", text(&hyphenated(UUID))),
        ("operation", text("Cancel")),
    ]));
    assert_eq!(result, Ok(()));
    assert_eq!(runtime.event_names(), vec![("Failure", 0)]);
    assert_eq!(runtime.events[0].statusCode, "InternalError");
    assert_eq!(runtime.events[0].requestUUID, hyphenated(UUID));
    assert_eq!(runtime.events[0].message, "Unable to cancel OTA request");
}

#[test]
fn ota_event_not_cancelled_different_uuid() {
    let mut runtime = Runtime::new(Device::new());
    runtime.start_download();
    let result = runtime.ota_event(map(&[
        ("uuid", text(&hyphenated(OTHER_UUID))),
        ("operation", text("Cancel")),
    ]));
    assert_eq!(result, Ok(()));
    assert_eq!(runtime.event_names(), vec![("Failure", 0)]);
    assert_eq!(runtime.events[0].statusCode, "InternalError");
    assert_eq!(runtime.events[0].requestUUID, hyphenated(OTHER_UUID));
    assert_eq!(
        runtime.events[0].message,
        "Unable to cancel OTA request, they have different identifier"
    );
    assert!(runtime.handler.cancellable);
}

#[test]
fn ota_event_not_cancelled_without_request() {
    let mut runtime = Runtime::new(Device::new());
    let result = runtime.ota_event(map(&[
        ("uuid", text(&hyphenated(UUID))),
        ("operation", text("Cancel")),
    ]));
    assert_eq!(result, Ok(()));
    assert_eq!(
        runtime.events[0].message,
        "Unable to cancel OTA request, internal request is empty"
    );
}

#[test]
fn ota_event_not_cancelled_without_status() {
    let mut handler = OtaHandler::new();
    let (_, action) = handler.resume(
        HandlerPhase::CancelStatus(UUID),
        HandlerReply::Status(get_ota_status(false, None)),
    );
    let request = OtaRequest {
        uuid: UUID,
        url: String::new(),
    };
    assert_eq!(
        action,
        HandlerAction::Publish(OtaStatus::Failure(
            OtaError::Internal("Unable to cancel OTA request"),
            Some(request)
        ))
    );
}

#[test]
fn ensure_pending_ota_response_fail() {
    let mut device = Device::new();
    device.boot_slot = Some("A");
    let mut runtime = Runtime::new(device);
    let step = runtime.handler.ensure_pending_ota_response();
    let result = runtime.drive(step, None);
    assert_eq!(runtime.event_names(), vec![("Failure", 0)]);
    assert_eq!(runtime.events[0].requestUUID, hyphenated(UUID));
    assert_eq!(runtime.events[0].statusCode, "SystemRollback");
    assert_eq!(runtime.events[0].message, "Unable to switch slot");
    assert_eq!(
        result,
        Err(OtaError::SystemRollback("Unable to switch slot"))
    );
}

#[test]
fn ensure_pending_ota_response_ota_success() {
    let mut runtime = Runtime::new(Device::new());
    let step = runtime.handler.ensure_pending_ota_response();
    let result = runtime.drive(step, None);
    assert_eq!(runtime.event_names(), vec![("Success", 0)]);
    assert_eq!(runtime.events[0].requestUUID, hyphenated(UUID));
    assert_eq!(result, Ok(()));
}

#[test]
fn only_compatible_bundles_are_installed() {
    let mut device = Device::new();
    device.info = Some("rauc-demo-arm");
    let mut runtime = Runtime::new(device);
    assert!(runtime.ota_event(request_data("Update", UUID)).is_err());
    assert!(runtime.device.written.is_empty());
    assert!(runtime.device.installed.is_empty());
    assert_eq!(runtime.device.reboots, 0);

    let mut runtime = Runtime::new(Device::new());
    assert_eq!(runtime.ota_event(request_data("Update", UUID)), Ok(()));
    assert_eq!(runtime.device.written, vec![kept("B")]);
    assert_eq!(runtime.device.installed, vec![String::new()]);
    assert_eq!(runtime.device.reboots, 1);
}

#[test]
fn failed_installations_do_not_reboot() {
    for signal in [None, Some(1)] {
        let mut device = Device::new();
        device.signal = signal;
        let mut runtime = Runtime::new(device);
        assert!(runtime.ota_event(request_data("Update", UUID)).is_err());
        assert_eq!(runtime.device.installed.len(), 1);
        assert_eq!(runtime.device.reboots, 0);
        assert!(runtime.device.sleeps.is_empty());
    }
}

#[test]
fn outcome_is_reported_after_the_reboot() {
    let mut device = Device::new();
    device.reboot = false;
    let mut before = Runtime::new(device);
    assert!(before.ota_event(request_data("Update", UUID)).is_err());
    assert_eq!(before.device.written, vec![kept("B")]);

    for (booted, name) in [("A", "Success"), ("B", "Failure")] {
        let mut device = Device::new();
        device.state = Some("B");
        device.boot_slot = Some(booted);
        let mut after = Runtime::new(device);
        let step = after.handler.ensure_pending_ota_response();
        let result = after.drive(step, None);
        assert_eq!(result.is_ok(), name == "Success");
        assert_eq!(after.event_names(), vec![(name, 0)]);
        assert_eq!(after.events[0].requestUUID, hyphenated(UUID));
        assert_eq!(after.device.cleared, 1);
    }
}

#[test]
fn unsupported_operations_are_refused() {
    let handler = OtaHandler::new();
    for data in [
        map(&[("operation", text("Remove"))]),
        map(&[("operation", AstarteType::Integer(1))]),
    ] {
        let (phase, action) = handler.ota_event(&data);
        assert_eq!(phase, HandlerPhase::Done);
        assert_eq!(
            action,
            HandlerAction::Finish(Err(OtaError::Request("Ota operation unsupported")))
        );
    }
}

#[test]
fn requests_with_a_bad_identifier_are_refused() {
    let handler = OtaHandler::new();
    for operation in ["Update", "Cancel"] {
        let data = map(&[("operation", text(operation)), ("uuid", text("bad_uuid"))]);
        assert_eq!(
            handler.ota_event(&data).1,
            HandlerAction::Finish(Err(OtaError::Request("Unable to parse request_uuid")))
        );
        let data = map(&[
            ("operation", text(operation)),
            ("uuid", AstarteType::Integer(1)),
        ]);
        assert_eq!(handler.ota_event(&data).1, HandlerAction::Finish(Ok(())));
        let data = map(&[("operation", text(operation)), ("uuid", text("any"))]);
        assert_eq!(
            handler.ota_event_as(&data, Some(UUID)).1,
            HandlerAction::GetOtaStatus
        );
    }
}

#[test]
fn dropped_channels_are_internal_errors() {
    let mut handler = OtaHandler::new();
    assert_eq!(
        handler
            .resume(HandlerPhase::UpdateDeliver, HandlerReply::Delivered(false))
            .1,
        HandlerAction::Finish(Err(OtaError::Internal(
            "Unable to execute HandleOtaEvent, receiver channel dropped"
        )))
    );
    assert_eq!(
        handler
            .resume(HandlerPhase::PendingDeliver, HandlerReply::Delivered(false))
            .1,
        HandlerAction::Finish(Err(OtaError::Internal(
            "Unable to execute EnsurePendingOta, receiver channel dropped"
        )))
    );
    assert_eq!(
        get_ota_status(false, None),
        Err(OtaError::Internal(
            "Unable to get the ota status, receiver channel dropped"
        ))
    );
    assert_eq!(
        get_ota_status(true, None),
        Err(OtaError::Internal("Unable to get the ota status"))
    );
    assert_eq!(
        get_ota_status(true, Some(OtaStatus::Init)),
        Ok(OtaStatus::Init)
    );
}

#[test]
fn unpublished_statuses_end_the_handling() {
    let mut handler = OtaHandler::new();
    handler.cancellable = true;
    let error = OtaError::Network("Unable to publish ota_event".to_string());
    for phase in [
        HandlerPhase::UpdateReport(OtaStatus::Deploying(ota_request())),
        HandlerPhase::PendingReport(OtaStatus::Success(ota_request())),
        HandlerPhase::CancelReport,
    ] {
        let (_, action) = handler.resume(phase, HandlerReply::Sent(Err(error.clone())));
        assert_eq!(action, HandlerAction::Finish(Err(error.clone())));
        assert!(handler.cancellable);
    }
}

#[test]
fn update_starts_without_a_status() {
    let mut handler = OtaHandler::new();
    let (phase, action) = handler.resume(
        HandlerPhase::UpdateStatus(UUID),
        HandlerReply::Status(get_ota_status(true, None)),
    );
    assert_eq!(phase, HandlerPhase::UpdateDeliver);
    assert_eq!(action, HandlerAction::StartUpdate);
    assert!(handler.cancellable);
}

#[test]
fn tokens_come_with_updates() {
    let busy = || HandlerReply::Status(Ok(OtaStatus::Downloading(ota_request(), 0)));
    let reported = || HandlerPhase::UpdateReport(OtaStatus::Deploying(ota_request()));
    for (phase, reply) in [
        (HandlerPhase::UpdateStatus(OTHER_UUID), busy()),
        (HandlerPhase::CancelStatus(UUID), busy()),
        (reported(), HandlerReply::Sent(Ok(()))),
        (HandlerPhase::PendingDeliver, HandlerReply::Delivered(true)),
    ] {
        let mut handler = OtaHandler::new();
        let (_, action) = handler.resume(phase, reply);
        assert!(!handler.cancellable);
        assert_ne!(action, HandlerAction::StartUpdate);
    }
    let mut handler = OtaHandler::new();
    let idle = HandlerReply::Status(Ok(OtaStatus::Idle));
    let (_, action) = handler.resume(HandlerPhase::UpdateStatus(UUID), idle);
    assert!(handler.cancellable);
    assert_eq!(action, HandlerAction::StartUpdate);
}

#[test]
fn updates_start_from_any_status() {
    let request = ota_request();
    let mut ota = Ota::new("/data/".to_string());
    ota.ota_status = OtaStatus::Idle;
    let (_, action) = ota.handle_ota_event(
        OtaStatus::Error(OtaError::Cancelled, request.clone()),
        &StringMap::new(),
    );
    assert_eq!(action, OtaAction::RemoveFile("/data/update.bin".to_string()));
    assert_eq!(
        ota.ota_status,
        OtaStatus::Failure(OtaError::Cancelled, Some(request.clone()))
    );

    ota.ota_status = OtaStatus::Idle;
    let (phase, action) =
        ota.handle_ota_event(OtaStatus::Rebooting(request.clone()), &StringMap::new());
    assert_eq!(action, OtaAction::RemoveFile("/data/update.bin".to_string()));
    assert_eq!(ota.ota_status, OtaStatus::Idle);
    let (_, action) = ota.resume(phase, OtaReply::Done);
    assert_eq!(action, OtaAction::Finish(OtaStatus::Rebooting(request)));
}

#[test]
fn updates_from_an_error_fail_with_it() {
    let mut ota = Ota::new("/data".to_string());
    let mut device = Device::new();
    let from = OtaStatus::Error(OtaError::Cancelled, ota_request());
    let step = ota.handle_ota_event(from, &StringMap::new());
    assert_eq!(
        device.finish(&mut ota, step),
        OtaStatus::Failure(OtaError::Cancelled, Some(ota_request()))
    );
    assert_eq!(device.removed, vec!["/data/update.bin".to_string()]);
    assert_eq!(ota.ota_status, OtaStatus::Idle);
}

#[test]
fn deployed_updates_are_not_cancelled_later() {
    let mut handler = OtaHandler::new();
    handler.cancellable = true;
    let deploying = || OtaStatus::Deploying(ota_request());
    for (phase, reply) in [
        (
            HandlerPhase::UpdateReport(deploying()),
            HandlerReply::Sent(Ok(())),
        ),
        (
            HandlerPhase::UpdateStatus(OTHER_UUID),
            HandlerReply::Status(Ok(deploying())),
        ),
        (
            HandlerPhase::CancelStatus(OTHER_UUID),
            HandlerReply::Status(Ok(deploying())),
        ),
        (HandlerPhase::PendingReceive, HandlerReply::Received(None)),
    ] {
        handler.resume(phase, reply);
    }
    let (_, action) = handler.resume(
        HandlerPhase::CancelStatus(UUID),
        HandlerReply::Status(Ok(deploying())),
    );
    let request = OtaRequest {
        uuid: UUID,
        url: String::new(),
    };
    assert_eq!(
        action,
        HandlerAction::Publish(OtaStatus::Failure(
            OtaError::Internal("Unable to cancel OTA request"),
            Some(request)
        ))
    );
}

#[test]
fn image_is_downloaded_into_the_directory() {
    for (directory, file) in [
        ("", "update.bin"),
        ("/", "/update.bin"),
        ("/tmp", "/tmp/update.bin"),
        ("/tmp/", "/tmp/update.bin"),
        ("data", "data/update.bin"),
    ] {
        let ota = Ota::new(directory.to_string());
        assert_eq!(ota.get_update_file_path(), file);
    }
}

#[test]
fn others_see_the_status_of_the_phase() {
    let mut runtime = Runtime::new(Device::new());
    runtime.start_download();
    let request = OtaRequest {
        uuid: UUID,
        url: "http://instance.ota.bin".to_string(),
    };
    match runtime.ota.handle_message(OtaMessage::GetOtaStatus) {
        OtaAnswer::Status(status) => assert_eq!(status, OtaStatus::Downloading(request, 0)),
        OtaAnswer::Started(_, _) => panic!("no update was asked for"),
    }
}

#[test]
fn wget_failed() {
    let mut device = Device::new();
    device.response = Some(Some(0));
    let result = device.wget("http://host/ota.bin", "/tmp/ota,bin", UUID);
    assert!(matches!(result, Err(OtaError::Network(_))));
}

#[test]
fn wget_failed_request() {
    let mut device = Device::new();
    device.response = None;
    assert_eq!(
        device.wget("http://host/ota.bin", "/tmp/ota.bin", UUID),
        Err(OtaError::Network("Error downloading update".to_string()))
    );
}

#[test]
fn wget_failed_wrong_content_length() {
    let mut device = Device::new();
    device.response = Some(Some(0));
    assert_eq!(
        device.wget("http://host/ota.bin", "/tmp/ota.bin", UUID),
        Err(OtaError::Network(
            "Unable to get content length from: http://host/ota.bin".to_string()
        ))
    );
}

#[test]
fn wget_with_empty_payload() {
    let mut device = Device::new();
    device.response = Some(None);
    device.chunks = vec![];
    let result = device.wget("http://host/ota.bin", "/tmp/ota.bin", UUID);
    assert!(matches!(result, Err(OtaError::Network(_))));
}

#[test]
fn wget_success() {
    let mut device = Device::new();
    let result = device.wget("http://host/ota.bin", "/tmp/ota.bin", UUID);
    let request = OtaRequest {
        uuid: UUID,
        url: String::new(),
    };
    assert_eq!(
        device.published,
        vec![OtaStatus::Downloading(request, 100)]
    );
    assert!(result.is_ok());
}

#[test]
fn wget_reports_nothing_until_complete() {
    let mut device = Device::new();
    device.response = Some(Some(100));
    device.chunks = vec![Some(60), Some(39), Some(1), Some(5)];
    assert_eq!(device.wget("u", "f", UUID), Ok(()));
    let progress: Vec<i32> = device
        .published
        .iter()
        .map(|status| match status {
            OtaStatus::Downloading(_, progress) => *progress,
            _ => -1,
        })
        .collect();
    assert_eq!(progress, vec![0, 0, 100, 100]);
}

#[test]
fn wget_fails_when_bytes_are_missing() {
    let mut device = Device::new();
    device.chunks = vec![Some(2)];
    assert_eq!(
        device.wget("u", "f", UUID),
        Err(OtaError::Network("Unable to download file".to_string()))
    );
}

#[test]
fn wget_fails_on_a_broken_chunk() {
    let mut device = Device::new();
    device.chunks = vec![Some(2), None];
    assert_eq!(
        device.wget("u", "f", UUID),
        Err(OtaError::Network("Unable to parse response".to_string()))
    );
}

#[test]
fn wget_fails_on_the_file() {
    let mut device = Device::new();
    device.create = false;
    assert_eq!(
        device.wget("u", "a\"b", UUID),
        Err(OtaError::IO(
            "Unable to create ota_file in \"a\\\"b\"".to_string()
        ))
    );
    let mut device = Device::new();
    device.write = false;
    assert_eq!(
        device.wget("u", "f", UUID),
        Err(OtaError::IO(
            "Unable to write chunk to ota_file in \"f\"".to_string()
        ))
    );
}
