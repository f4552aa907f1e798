use edgehog_device_runtime::containers::node::{Id, Node, State};
use edgehog_device_runtime::containers::volume::{CreateVolume, FromEventError, ReqUuid};
use edgehog_device_runtime::data::{AstarteType, DeviceEvent, Value};
use edgehog_device_runtime::string_map::StringMap;
use petgraph::stable_graph::NodeIndex;
use uuid::Uuid;

const INTERFACE: &str = "io.edgehog.devicemanager.apps.CreateVolumeRequest";

fn create_volume_request_event(
    id: Uuid,
    deployment_id: Uuid,
    driver: &str,
    options: &[&str],
) -> DeviceEvent {
    let options = options.iter().map(|s| s.to_string()).collect();

    let mut fields = StringMap::new();
    fields.insert("id".to_string(), AstarteType::String(id.to_string()));
    fields.insert(
        "deploymentId".to_string(),
        AstarteType::String(deployment_id.to_string()),
    );
    fields.insert(
        "driver".to_string(),
        AstarteType::String(driver.to_string()),
    );
    fields.insert("options".to_string(), AstarteType::StringArray(options));

    DeviceEvent {
        interface: INTERFACE.to_string(),
        path: "/volume".to_string(),
        data: Value::Object(fields),
    }
}

fn event() -> DeviceEvent {
    create_volume_request_event(Uuid::from_u128(1), Uuid::from_u128(2), "local", &[])
}

fn changed(key: &str, value: Option<AstarteType>) -> DeviceEvent {
    let mut event = event();
    if let Value::Object(fields) = &mut event.data {
        match value {
            Some(value) => fields.insert(key.to_string(), value),
            None => fields.remove(key),
        };
    }
    event
}

#[test]
fn create_volume_request() {
    let id = Uuid::from_u128(0x67e5504410b1426f9247bb680e5fe0c8);
    let deployment_id = Uuid::from_u128(0xa1a2a3a4b1b2c1c2d1d2d3d4d5d6d7d8);
    let event = create_volume_request_event(id, deployment_id, "driver", &["foo=bar", "some="]);

    let request = CreateVolume::from_event(event).unwrap();

    let expect = CreateVolume {
        id: ReqUuid(id.as_u128()),
        deployment_id: ReqUuid(deployment_id.as_u128()),
        driver: "driver".to_string(),
        options: ["foo=bar", "some="].map(str::to_string).to_vec(),
    };

    assert_eq!(request, expect);
}

#[test]
fn volume_requests_come_on_their_interface_and_path() {
    let mut other = event();
    other.interface = "other".to_string();
    assert_eq!(
        CreateVolume::from_event(other),
        Err(FromEventError::Interface("other".to_string()))
    );
    let mut other = event();
    other.path = "/volume/".to_string();
    assert_eq!(
        CreateVolume::from_event(other),
        Err(FromEventError::Path {
            interface: INTERFACE,
            base_path: "/volume/".to_string()
        })
    );
}

#[test]
fn volume_requests_are_objects() {
    for data in [Value::Individual(AstarteType::Boolean(true)), Value::Unset] {
        let mut other = event();
        other.data = data;
        assert_eq!(
            CreateVolume::from_event(other),
            Err(FromEventError::Individual {
                interface: INTERFACE,
                base_path: "/volume"
            })
        );
    }
}

#[test]
fn volume_requests_have_all_fields() {
    for path in ["id", "deploymentId", "driver", "options"] {
        assert_eq!(
            CreateVolume::from_event(changed(path, None)),
            Err(FromEventError::MissingField {
                interface: INTERFACE,
                base_path: "/volume",
                path
            })
        );
        assert_eq!(
            CreateVolume::from_event(changed(path, Some(AstarteType::Integer(1)))),
            Err(FromEventError::Conversion)
        );
    }
    let text = AstarteType::String("not an identifier".to_string());
    assert_eq!(
        CreateVolume::from_event(changed("id", Some(text))),
        Err(FromEventError::Conversion)
    );
}

#[test]
fn volume_requests_take_the_identifiers_that_were_read() {
    let object = match event().data {
        Value::Object(object) => object,
        _ => panic!("no object"),
    };
    let request = CreateVolume::from_object(object, Some(7), Some(8)).unwrap();
    assert_eq!(request.id, ReqUuid(7));
    assert_eq!(request.deployment_id, ReqUuid(8));
    assert_eq!(request.driver, "local");
}

#[test]
fn default_state_missing() {
    let id = Id::new("ab081bc6-9e71-4c3a-96ed-8374df16f764");
    let idx = NodeIndex::new(42);

    let node: Node<&str> = Node::new(id, idx);

    assert!(node.state().is_missing());
    assert_eq!(node.idx, NodeIndex::new(42));
    assert_eq!(
        node.id(),
        &Id::new("ab081bc6-9e71-4c3a-96ed-8374df16f764")
    );
    assert_eq!(node.node_type(), None);
}

#[test]
fn known_resources_are_found() {
    for state in [
        State::Stored("volume"),
        State::Created("volume"),
        State::Up("volume"),
    ] {
        let node = Node::with_state(Id::new("id"), NodeIndex::new(0), state);
        assert!(!node.state().is_missing());
        assert_eq!(node.node_type(), Some(&"volume"));
    }
    assert!(State::<u8>::default().is_missing());
}
