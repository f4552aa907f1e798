//! The end-to-end test: what Astarte has received from the device is held
//! against what the device reports of itself.

use vstd::prelude::*;
use vstd::string::*;

use crate::data::{AstarteType, AstarteTypeView};
use crate::string_map::StringMap;
use crate::text::{join, same_text};

verus! {

/// What an end-to-end test needs to ask Astarte about the device.
#[derive(Debug)]
pub struct Test {
    pub api_url: String,
    pub realm: String,
    pub device_id: String,
    pub e2e_token: String,
}

/// The operating system as Astarte knows it.
#[derive(Debug)]
pub struct OsInfo {
    pub os_name: String,
    pub os_version: String,
}

/// The processor as Astarte knows it.
#[derive(Debug)]
pub struct Cpu {
    pub architecture: String,
    pub model: String,
    pub model_name: String,
    pub vendor: String,
}

/// The memory as Astarte knows it.
#[derive(Debug)]
pub struct Mem {
    pub total_bytes: i64,
}

/// The hardware as Astarte knows it.
#[derive(Debug)]
pub struct HardwareInfo {
    pub cpu: Cpu,
    pub mem: Mem,
}

/// The runtime as Astarte knows it.
#[derive(Debug)]
pub struct RuntimeInfo {
    pub environment: String,
    pub name: String,
    pub url: String,
    pub version: String,
}

impl Test {
    /// Where the data of an interface of the device can be read.
    pub fn interface_url(&self, interface: &str) -> (url: String)
        ensures
            url@ == self.api_url@ + "/appengine/v1/"@ + self.realm@ + "/devices/"@ + self.device_id@
                + "/interfaces/io.edgehog.devicemanager."@ + interface@,
    {
        join(self.api_url.as_str(), "/appengine/v1/").concat(self.realm.as_str()).concat(
            "/devices/",
        ).concat(self.device_id.as_str()).concat(
            "/interfaces/io.edgehog.devicemanager.",
        ).concat(interface)
    }

    /// The header that authorises the test.
    pub fn authorization(&self) -> (header: String)
        ensures
            header@ == "Bearer "@ + self.e2e_token@,
    {
        join("Bearer ", self.e2e_token.as_str())
    }
}

/// Where the device is paired.
pub fn pairing_url(api_url: &str) -> (url: String)
    ensures
        url@ == api_url@ + "/pairing"@,
{
    join(api_url, "/pairing")
}

/// Whether the value of an environment variable, where it is set, switches
/// something on.
pub fn env_as_bool(value: Option<String>) -> (on: bool)
    ensures
        on == (value matches Some(v) && (v@ == "1"@ || v@ == "true"@)),
{
    match value {
        Some(value) => same_text(value.as_str(), "1") || same_text(value.as_str(), "true"),
        None => false,
    }
}

/// Whether the device reports the value on the path.
pub open spec fn reports(
    reported: Map<Seq<char>, AstarteType>,
    path: Seq<char>,
    value: AstarteTypeView,
) -> bool {
    reported.contains_key(path) && reported[path]@ == value
}

/// The first of the fields that the device does not report with the value that
/// Astarte knows.
pub open spec fn first_difference(
    reported: Map<Seq<char>, AstarteType>,
    fields: Seq<(Seq<char>, AstarteTypeView)>,
) -> Option<Seq<char>>
    decreases fields.len(),
{
    if fields.len() == 0 {
        None
    } else {
        match first_difference(reported, fields.drop_last()) {
            Some(path) => Some(path),
            None => if reports(reported, fields.last().0, fields.last().1) {
                None
            } else {
                Some(fields.last().0)
            },
        }
    }
}

impl OsInfo {
    /// The paths and values that Astarte knows.
    pub open spec fn fields(self) -> Seq<(Seq<char>, AstarteTypeView)> {
        seq![
            ("/osName"@, AstarteTypeView::String(self.os_name@)),
            ("/osVersion"@, AstarteTypeView::String(self.os_version@)),
        ]
    }
}

impl HardwareInfo {
    /// The paths and values that Astarte knows.
    pub open spec fn fields(self) -> Seq<(Seq<char>, AstarteTypeView)> {
        seq![
            ("/cpu/architecture"@, AstarteTypeView::String(self.cpu.architecture@)),
            ("/cpu/model"@, AstarteTypeView::String(self.cpu.model@)),
            ("/cpu/modelName"@, AstarteTypeView::String(self.cpu.model_name@)),
            ("/cpu/vendor"@, AstarteTypeView::String(self.cpu.vendor@)),
            ("/mem/totalBytes"@, AstarteTypeView::LongInteger(self.mem.total_bytes)),
        ]
    }
}

impl RuntimeInfo {
    /// The paths and values that Astarte knows.
    pub open spec fn fields(self) -> Seq<(Seq<char>, AstarteTypeView)> {
        seq![
            ("/environment"@, AstarteTypeView::String(self.environment@)),
            ("/name"@, AstarteTypeView::String(self.name@)),
            ("/url"@, AstarteTypeView::String(self.url@)),
            ("/version"@, AstarteTypeView::String(self.version@)),
        ]
    }
}

/// A path that Astarte knows, with its value.
struct Field<'a> {
    path: &'static str,
    value: FieldValue<'a>,
}

enum FieldValue<'a> {
    Text(&'a String),
    Long(i64),
}

spec fn field_view(field: Field<'_>) -> (Seq<char>, AstarteTypeView) {
    (
        field.path@,
        match field.value {
            FieldValue::Text(text) => AstarteTypeView::String(text@),
            FieldValue::Long(number) => AstarteTypeView::LongInteger(number),
        },
    )
}

fn field_reported(reported: &StringMap<AstarteType>, field: &Field<'_>) -> (same: bool)
    ensures
        same == reports(reported@, field_view(*field).0, field_view(*field).1),
{
    match (reported.get(field.path), &field.value) {
        (Some(AstarteType::String(text)), FieldValue::Text(expected)) => *text == **expected,
        (Some(AstarteType::LongInteger(number)), FieldValue::Long(expected)) => *number
            == *expected,
        _ => false,
    }
}

fn compare(reported: &StringMap<AstarteType>, fields: Vec<Field<'_>>) -> (difference: Option<
    &'static str,
>)
    ensures
        match difference {
            Some(path) => first_difference(
                reported@,
                fields@.map_values(|f: Field<'_>| field_view(f)),
            ) == Some(path@),
            None => first_difference(
                reported@,
                fields@.map_values(|f: Field<'_>| field_view(f)),
            ) is None,
        },
{
    let ghost views = fields@.map_values(|f: Field<'_>| field_view(f));
    let mut difference: Option<&'static str> = None;
    let mut i: usize = 0;
    assert(views.take(0) =~= Seq::empty());
    while i < fields.len()
        invariant
            i <= fields.len(),
            views == fields@.map_values(|f: Field<'_>| field_view(f)),
            match difference {
                Some(path) => first_difference(reported@, views.take(i as int)) == Some(path@),
                None => first_difference(reported@, views.take(i as int)) is None,
            },
        decreases fields.len() - i,
    {
        proof {
            assert(views.take(i + 1).drop_last() =~= views.take(i as int));
            assert(views.take(i + 1).last() == field_view(fields[i as int]));
        }
        if difference.is_none() && !field_reported(reported, &fields[i]) {
            difference = Some(fields[i].path);
        }
        i += 1;
    }
    assert(views.take(i as int) =~= views);
    difference
}

/// Holds the operating system that Astarte knows against what the device
/// reports, and gives the first path on which they differ.
pub fn os_info_test(info: &OsInfo, reported: &StringMap<AstarteType>) -> (difference: Option<
    &'static str,
>)
    ensures
        match difference {
            Some(path) => first_difference(reported@, info.fields()) == Some(path@),
            None => first_difference(reported@, info.fields()) is None,
        },
{
    let mut fields: Vec<Field<'_>> = Vec::new();
    fields.push(Field { path: "/osName", value: FieldValue::Text(&info.os_name) });
    fields.push(Field { path: "/osVersion", value: FieldValue::Text(&info.os_version) });
    assert(fields@.map_values(|f: Field<'_>| field_view(f)) =~= info.fields());
    compare(reported, fields)
}

/// Holds the hardware that Astarte knows against what the device reports, and
/// gives the first path on which they differ.
pub fn hardware_info_test(info: &HardwareInfo, reported: &StringMap<AstarteType>) -> (difference:
    Option<&'static str>)
    ensures
        match difference {
            Some(path) => first_difference(reported@, info.fields()) == Some(path@),
            None => first_difference(reported@, info.fields()) is None,
        },
{
    let mut fields: Vec<Field<'_>> = Vec::new();
    fields.push(
        Field { path: "/cpu/architecture", value: FieldValue::Text(&info.cpu.architecture) },
    );
    fields.push(Field { path: "/cpu/model", value: FieldValue::Text(&info.cpu.model) });
    fields.push(Field { path: "/cpu/modelName", value: FieldValue::Text(&info.cpu.model_name) });
    fields.push(Field { path: "/cpu/vendor", value: FieldValue::Text(&info.cpu.vendor) });
    fields.push(Field { path: "/mem/totalBytes", value: FieldValue::Long(info.mem.total_bytes) });
    assert(fields@.map_values(|f: Field<'_>| field_view(f)) =~= info.fields());
    compare(reported, fields)
}

/// Holds the runtime that Astarte knows against what the device reports, and
/// gives the first path on which they differ.
pub fn runtime_info_test(info: &RuntimeInfo, reported: &StringMap<AstarteType>) -> (difference:
    Option<&'static str>)
    ensures
        match difference {
            Some(path) => first_difference(reported@, info.fields()) == Some(path@),
            None => first_difference(reported@, info.fields()) is None,
        },
{
    let mut fields: Vec<Field<'_>> = Vec::new();
    fields.push(Field { path: "/environment", value: FieldValue::Text(&info.environment) });
    fields.push(Field { path: "/name", value: FieldValue::Text(&info.name) });
    fields.push(Field { path: "/url", value: FieldValue::Text(&info.url) });
    fields.push(Field { path: "/version", value: FieldValue::Text(&info.version) });
    assert(fields@.map_values(|f: Field<'_>| field_view(f)) =~= info.fields());
    compare(reported, fields)
}

/// The test passes exactly when the device reports every one of the values that
/// Astarte knows.
pub proof fn law_test_passes(
    reported: Map<Seq<char>, AstarteType>,
    fields: Seq<(Seq<char>, AstarteTypeView)>,
)
    ensures
        first_difference(reported, fields) is None <==> forall|i: int|
            0 <= i < fields.len() ==> reports(
                reported,
                (#[trigger] fields[i]).0,
                fields[i].1,
            ),
    decreases fields.len(),
{
    if fields.len() > 0 {
        let rest = fields.drop_last();
        law_test_passes(reported, rest);
        assert forall|i: int| 0 <= i < rest.len() implies #[trigger] fields[i] == rest[i] by {}
        if first_difference(reported, fields) is None {
            assert forall|i: int| 0 <= i < fields.len() implies reports(
                reported,
                (#[trigger] fields[i]).0,
                fields[i].1,
            ) by {
                if i < rest.len() {
                    assert(reports(reported, rest[i].0, rest[i].1));
                }
            }
        }
        if forall|i: int|
            0 <= i < fields.len() ==> reports(reported, (#[trigger] fields[i]).0, fields[i].1) {
            assert forall|i: int| 0 <= i < rest.len() implies reports(
                reported,
                (#[trigger] rest[i]).0,
                rest[i].1,
            ) by {
                assert(reports(reported, fields[i].0, fields[i].1));
            }
            let last = fields.len() - 1;
            assert(reports(reported, fields[last].0, fields[last].1));
        }
    }
}

/// The path that a test gives is the first on which the device and Astarte
/// differ: on every path before it they agree.
pub proof fn law_first_difference_comes_first(
    reported: Map<Seq<char>, AstarteType>,
    fields: Seq<(Seq<char>, AstarteTypeView)>,
    path: Seq<char>,
)
    requires
        first_difference(reported, fields) == Some(path),
    ensures
        exists|i: int|
            0 <= i < fields.len() && (#[trigger] fields[i]).0 == path && !reports(
                reported,
                fields[i].0,
                fields[i].1,
            ) && (forall|j: int|
                0 <= j < i ==> reports(reported, (#[trigger] fields[j]).0, fields[j].1)),
    decreases fields.len(),
{
    if fields.len() > 0 {
        let rest = fields.drop_last();
        law_test_passes(reported, rest);
        if first_difference(reported, rest) is Some {
            law_first_difference_comes_first(reported, rest, path);
            let i = choose|i: int|
                0 <= i < rest.len() && (#[trigger] rest[i]).0 == path && !reports(
                    reported,
                    rest[i].0,
                    rest[i].1,
                ) && (forall|j: int|
                    0 <= j < i ==> reports(reported, (#[trigger] rest[j]).0, rest[j].1));
            assert(fields[i] == rest[i]);
            assert forall|j: int| 0 <= j < i implies reports(
                reported,
                (#[trigger] fields[j]).0,
                fields[j].1,
            ) by {
                assert(rest[j] == fields[j]);
            }
        } else {
            let last = fields.len() - 1;
            assert(fields[last].0 == path);
            assert forall|j: int| 0 <= j < last implies reports(
                reported,
                (#[trigger] fields[j]).0,
                fields[j].1,
            ) by {
                assert(rest[j] == fields[j]);
            }
        }
    }
}

/// Whether the device reports a text on a path.
pub open spec fn reports_text(
    reported: Map<Seq<char>, AstarteType>,
    path: Seq<char>,
    text: Seq<char>,
) -> bool {
    crate::data::text_at(reported, path) == Some(text)
}

/// The test of the operating system passes exactly when the device reports its
/// name and its version as Astarte knows them.
pub proof fn law_os_info_is_compared(info: OsInfo, reported: Map<Seq<char>, AstarteType>)
    ensures
        first_difference(reported, info.fields()) is None <==> {
            &&& reports_text(reported, "/osName"@, info.os_name@)
            &&& reports_text(reported, "/osVersion"@, info.os_version@)
        },
{
    let fields = info.fields();
    law_test_passes(reported, fields);
    assert(fields.len() == 2);
    if first_difference(reported, fields) is None {
        assert(reports(reported, fields[0].0, fields[0].1));
        assert(reports(reported, fields[1].0, fields[1].1));
    }
}

/// The test of the hardware passes exactly when the device reports the
/// processor and the memory as Astarte knows them.
pub proof fn law_hardware_info_is_compared(
    info: HardwareInfo,
    reported: Map<Seq<char>, AstarteType>,
)
    ensures
        first_difference(reported, info.fields()) is None <==> {
            &&& reports_text(reported, "/cpu/architecture"@, info.cpu.architecture@)
            &&& reports_text(reported, "/cpu/model"@, info.cpu.model@)
            &&& reports_text(reported, "/cpu/modelName"@, info.cpu.model_name@)
            &&& reports_text(reported, "/cpu/vendor"@, info.cpu.vendor@)
            &&& reported.contains_key("/mem/totalBytes"@)
            &&& reported["/mem/totalBytes"@] == AstarteType::LongInteger(info.mem.total_bytes)
        },
{
    let fields = info.fields();
    law_test_passes(reported, fields);
    assert(fields.len() == 5);
    if first_difference(reported, fields) is None {
        assert(reports(reported, fields[0].0, fields[0].1));
        assert(reports(reported, fields[1].0, fields[1].1));
        assert(reports(reported, fields[2].0, fields[2].1));
        assert(reports(reported, fields[3].0, fields[3].1));
        assert(reports(reported, fields[4].0, fields[4].1));
    }
}

/// The test of the runtime passes exactly when the device reports its
/// environment, name, address and version as Astarte knows them.
pub proof fn law_runtime_info_is_compared(info: RuntimeInfo, reported: Map<Seq<char>, AstarteType>)
    ensures
        first_difference(reported, info.fields()) is None <==> {
            &&& reports_text(reported, "/environment"@, info.environment@)
            &&& reports_text(reported, "/name"@, info.name@)
            &&& reports_text(reported, "/url"@, info.url@)
            &&& reports_text(reported, "/version"@, info.version@)
        },
{
    let fields = info.fields();
    law_test_passes(reported, fields);
    assert(fields.len() == 4);
    if first_difference(reported, fields) is None {
        assert(reports(reported, fields[0].0, fields[0].1));
        assert(reports(reported, fields[1].0, fields[1].1));
        assert(reports(reported, fields[2].0, fields[2].1));
        assert(reports(reported, fields[3].0, fields[3].1));
    }
}

} // verus!
