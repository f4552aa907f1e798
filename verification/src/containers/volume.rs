//! Requests to create a volume.

use vstd::prelude::*;

use crate::data::{read_text, read_uuid, AstarteType, DeviceEvent, Value};
use crate::string_map::StringMap;
use crate::text::same_text;

verus! {

/// The interface on which a request to create a volume comes.
pub const CREATE_VOLUME_INTERFACE: &'static str =
    "io.edgehog.devicemanager.apps.CreateVolumeRequest";

/// The path on which a request to create a volume comes.
pub const CREATE_VOLUME_PATH: &'static str = "/volume";

/// An identifier in a request.
#[derive(Debug, Clone, Copy, PartialEq, Eq, PartialOrd, Ord)]
pub struct ReqUuid(pub u128);

/// A request to create a volume.
#[derive(Debug, PartialEq, Eq, PartialOrd, Ord)]
pub struct CreateVolume {
    pub id: ReqUuid,
    pub deployment_id: ReqUuid,
    pub driver: String,
    pub options: Vec<String>,
}

/// Why an event is no request.
#[derive(Debug, PartialEq)]
pub enum FromEventError {
    /// The event came on another interface.
    Interface(String),
    /// The event came on another path.
    Path { interface: &'static str, base_path: String },
    /// The event carries no object.
    Individual { interface: &'static str, base_path: &'static str },
    /// The object lacks a field.
    MissingField { interface: &'static str, base_path: &'static str, path: &'static str },
    /// A field holds a value of another type.
    Conversion,
}

/// A [`CreateVolume`] as a mathematical value.
#[verifier::ext_equal]
pub struct CreateVolumeView {
    pub id: u128,
    pub deployment_id: u128,
    pub driver: Seq<char>,
    pub options: Seq<Seq<char>>,
}

/// A [`FromEventError`] as a mathematical value.
#[verifier::ext_equal]
pub enum FromEventErrorView {
    Interface(Seq<char>),
    Path { interface: Seq<char>, base_path: Seq<char> },
    Individual { interface: Seq<char>, base_path: Seq<char> },
    MissingField { interface: Seq<char>, base_path: Seq<char>, path: Seq<char> },
    Conversion,
}

impl View for CreateVolume {
    type V = CreateVolumeView;

    open spec fn view(&self) -> CreateVolumeView {
        CreateVolumeView {
            id: self.id.0,
            deployment_id: self.deployment_id.0,
            driver: self.driver@,
            options: crate::data::texts(self.options@),
        }
    }
}

impl View for FromEventError {
    type V = FromEventErrorView;

    open spec fn view(&self) -> FromEventErrorView {
        match self {
            FromEventError::Interface(interface) => FromEventErrorView::Interface(interface@),
            FromEventError::Path { interface, base_path } => FromEventErrorView::Path {
                interface: interface@,
                base_path: base_path@,
            },
            FromEventError::Individual { interface, base_path } => FromEventErrorView::Individual {
                interface: interface@,
                base_path: base_path@,
            },
            FromEventError::MissingField { interface, base_path, path } =>
                FromEventErrorView::MissingField {
                interface: interface@,
                base_path: base_path@,
                path: path@,
            },
            FromEventError::Conversion => FromEventErrorView::Conversion,
        }
    }
}

/// The error of an object that lacks a field.
pub open spec fn missing(path: Seq<char>) -> FromEventErrorView {
    FromEventErrorView::MissingField {
        interface: CREATE_VOLUME_INTERFACE@,
        base_path: CREATE_VOLUME_PATH@,
        path,
    }
}

/// The request that an object holds, given the identifiers that were read from
/// it. The fields are read one after the other, and the first that is missing
/// or of another type is the error.
pub open spec fn object_request(
    object: Map<Seq<char>, AstarteType>,
    id: Option<u128>,
    deployment_id: Option<u128>,
) -> Result<CreateVolumeView, FromEventErrorView> {
    if !object.contains_key("id"@) {
        Err(missing("id"@))
    } else if id is None {
        Err(FromEventErrorView::Conversion)
    } else if !object.contains_key("deploymentId"@) {
        Err(missing("deploymentId"@))
    } else if deployment_id is None {
        Err(FromEventErrorView::Conversion)
    } else if !object.contains_key("driver"@) {
        Err(missing("driver"@))
    } else if object["driver"@].text() is None {
        Err(FromEventErrorView::Conversion)
    } else if !object.contains_key("options"@) {
        Err(missing("options"@))
    } else {
        match object["options"@] {
            AstarteType::StringArray(options) => Ok(
                CreateVolumeView {
                    id: id->0,
                    deployment_id: deployment_id->0,
                    driver: object["driver"@].text()->0,
                    options: crate::data::texts(options@),
                },
            ),
            _ => Err(FromEventErrorView::Conversion),
        }
    }
}

/// The request that an event is.
pub open spec fn event_request(event: DeviceEvent) -> Result<CreateVolumeView, FromEventErrorView> {
    if event.interface@ != CREATE_VOLUME_INTERFACE@ {
        Err(FromEventErrorView::Interface(event.interface@))
    } else if event.path@ != CREATE_VOLUME_PATH@ {
        Err(
            FromEventErrorView::Path {
                interface: CREATE_VOLUME_INTERFACE@,
                base_path: event.path@,
            },
        )
    } else {
        match event.data {
            Value::Object(object) => object_request(
                object@,
                crate::data::uuid_at(object@, "id"@),
                crate::data::uuid_at(object@, "deploymentId"@),
            ),
            _ => Err(
                FromEventErrorView::Individual {
                    interface: CREATE_VOLUME_INTERFACE@,
                    base_path: CREATE_VOLUME_PATH@,
                },
            ),
        }
    }
}

fn lacks(path: &'static str) -> (res: Result<CreateVolume, FromEventError>)
    ensures
        res matches Err(error) && error@ == missing(path@),
{
    Err(
        FromEventError::MissingField {
            interface: CREATE_VOLUME_INTERFACE,
            base_path: CREATE_VOLUME_PATH,
            path,
        },
    )
}

impl CreateVolume {
    /// Reads the request that an object holds, given the identifiers that were
    /// read from it.
    pub fn from_object(
        object: StringMap<AstarteType>,
        id: Option<u128>,
        deployment_id: Option<u128>,
    ) -> (res: Result<CreateVolume, FromEventError>)
        ensures
            match res {
                Ok(request) => object_request(object@, id, deployment_id) == Ok::<
                    CreateVolumeView,
                    FromEventErrorView,
                >(request@),
                Err(error) => object_request(object@, id, deployment_id) == Err::<
                    CreateVolumeView,
                    FromEventErrorView,
                >(error@),
            },
    {
        let mut object = object;
        if !object.contains_key("id") {
            return lacks("id");
        }
        let id: u128 = match id {
            Some(id) => id,
            None => return Err(FromEventError::Conversion),
        };
        if !object.contains_key("deploymentId") {
            return lacks("deploymentId");
        }
        let deployment_id: u128 = match deployment_id {
            Some(deployment_id) => deployment_id,
            None => return Err(FromEventError::Conversion),
        };
        if !object.contains_key("driver") {
            return lacks("driver");
        }
        let driver = match read_text(&object, "driver") {
            Some(driver) => driver.clone(),
            None => return Err(FromEventError::Conversion),
        };
        let options = match object.remove("options") {
            Some(AstarteType::StringArray(options)) => options,
            Some(_) => return Err(FromEventError::Conversion),
            None => return lacks("options"),
        };
        Ok(
            CreateVolume { id: ReqUuid(id), deployment_id: ReqUuid(deployment_id), driver, options },
        )
    }

    /// Reads the request that an event is.
    pub fn from_event(event: DeviceEvent) -> (res: Result<CreateVolume, FromEventError>)
        ensures
            match res {
                Ok(request) => event_request(event) == Ok::<CreateVolumeView, FromEventErrorView>(
                    request@,
                ),
                Err(error) => event_request(event) == Err::<CreateVolumeView, FromEventErrorView>(
                    error@,
                ),
            },
    {
        if !same_text(event.interface.as_str(), CREATE_VOLUME_INTERFACE) {
            return Err(FromEventError::Interface(event.interface));
        }
        if !same_text(event.path.as_str(), CREATE_VOLUME_PATH) {
            return Err(
                FromEventError::Path { interface: CREATE_VOLUME_INTERFACE, base_path: event.path },
            );
        }
        match event.data {
            Value::Object(object) => {
                let id = read_uuid(&object, "id");
                let deployment_id = read_uuid(&object, "deploymentId");
                Self::from_object(object, id, deployment_id)
            },
            _ => Err(
                FromEventError::Individual {
                    interface: CREATE_VOLUME_INTERFACE,
                    base_path: CREATE_VOLUME_PATH,
                },
            ),
        }
    }
}

/// Whether an object holds a list of texts under a key.
pub open spec fn list_at(object: Map<Seq<char>, AstarteType>, key: Seq<char>) -> Option<
    Seq<Seq<char>>,
> {
    if object.contains_key(key) {
        match object[key] {
            AstarteType::StringArray(list) => Some(crate::data::texts(list@)),
            _ => None,
        }
    } else {
        None
    }
}

/// Each field of a request comes from the key of its name: an event is a request
/// exactly when it comes on the interface and the path of such requests and its
/// object holds two identifiers, a text and a list of texts under the four keys.
pub proof fn law_requests_are_read_field_by_field(event: DeviceEvent)
    ensures
        match (event_request(event), event.data) {
            (Ok(request), Value::Object(object)) => {
                &&& event.interface@ == "io.edgehog.devicemanager.apps.CreateVolumeRequest"@
                &&& event.path@ == "/volume"@
                &&& crate::data::uuid_at(object@, "id"@) == Some(request.id)
                &&& crate::data::uuid_at(object@, "deploymentId"@) == Some(request.deployment_id)
                &&& crate::data::text_at(object@, "driver"@) == Some(request.driver)
                &&& list_at(object@, "options"@) == Some(request.options)
            },
            (Ok(_), _) => false,
            (Err(_), Value::Object(object)) => {
                ||| event.interface@ != "io.edgehog.devicemanager.apps.CreateVolumeRequest"@
                ||| event.path@ != "/volume"@
                ||| crate::data::uuid_at(object@, "id"@) is None
                ||| crate::data::uuid_at(object@, "deploymentId"@) is None
                ||| crate::data::text_at(object@, "driver"@) is None
                ||| list_at(object@, "options"@) is None
            },
            (Err(_), _) => true,
        },
{
}

/// The keys of a request, in the order in which they are read.
pub open spec fn keys() -> Seq<Seq<char>> {
    seq!["id"@, "deploymentId"@, "driver"@, "options"@]
}

/// Whether an object holds under a key what a request needs there.
pub open spec fn key_read(object: Map<Seq<char>, AstarteType>, key: Seq<char>) -> bool {
    if key == "driver"@ {
        crate::data::text_at(object, key) is Some
    } else if key == "options"@ {
        list_at(object, key) is Some
    } else {
        crate::data::uuid_at(object, key) is Some
    }
}

/// The error of an event that is no request tells what is wrong with it first:
/// the interface, then the path, then that there is no object, then the first
/// key in order that is missing or holds something else.
pub proof fn law_errors_tell_what_is_wrong_first(event: DeviceEvent)
    ensures
        match event_request(event) {
            Ok(_) => true,
            Err(FromEventErrorView::Interface(interface)) => {
                &&& interface == event.interface@
                &&& interface != "io.edgehog.devicemanager.apps.CreateVolumeRequest"@
            },
            Err(error) => {
                &&& event.interface@ == "io.edgehog.devicemanager.apps.CreateVolumeRequest"@
                &&& match (error, event.data) {
                    (FromEventErrorView::Path { interface, base_path }, _) => {
                        &&& interface == event.interface@
                        &&& base_path == event.path@
                        &&& base_path != "/volume"@
                    },
                    (FromEventErrorView::Individual { interface, base_path }, data) => {
                        &&& interface == event.interface@
                        &&& base_path == event.path@ && base_path == "/volume"@
                        &&& !(data is Object)
                    },
                    (
                        FromEventErrorView::MissingField { interface, base_path, path },
                        Value::Object(object),
                    ) => {
                        &&& interface == event.interface@
                        &&& base_path == event.path@ && base_path == "/volume"@
                        &&& !object@.contains_key(path)
                        &&& exists|i: int|
                            0 <= i < 4 && path == #[trigger] keys()[i] && (forall|j: int|
                                0 <= j < i ==> key_read(object@, #[trigger] keys()[j]))
                    },
                    (FromEventErrorView::Conversion, Value::Object(object)) => {
                        &&& event.path@ == "/volume"@
                        &&& exists|i: int|
                            0 <= i < 4 && object@.contains_key(#[trigger] keys()[i]) && !key_read(
                                object@,
                                keys()[i],
                            ) && (forall|j: int|
                                0 <= j < i ==> key_read(object@, #[trigger] keys()[j]))
                    },
                    _ => false,
                }
            },
        },
{
    reveal_strlit("id");
    reveal_strlit("deploymentId");
    reveal_strlit("driver");
    reveal_strlit("options");
    assert("id"@.len() == 2 && "deploymentId"@.len() == 12 && "driver"@.len() == 6
        && "options"@.len() == 7);
    assert(keys()[0] == "id"@ && keys()[1] == "deploymentId"@ && keys()[2] == "driver"@
        && keys()[3] == "options"@);
}

} // verus!
