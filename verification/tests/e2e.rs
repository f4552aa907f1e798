use edgehog_device_runtime::data::AstarteType;
use edgehog_device_runtime::e2e::{
    env_as_bool, hardware_info_test, os_info_test, pairing_url, runtime_info_test, Cpu,
    HardwareInfo, Mem, OsInfo, RuntimeInfo, Test,
};
use edgehog_device_runtime::string_map::StringMap;

fn reported(pairs: &[(&str, &str)]) -> StringMap<AstarteType> {
    let mut map = StringMap::new();
    for (path, value) in pairs {
        map.insert(path.to_string(), AstarteType::String(value.to_string()));
    }
    map
}

#[test]
fn addresses_are_those_of_the_device() {
    let test = Test {
        api_url: "https://api.host".to_string(),
        realm: "test".to_string(),
        device_id: "dev".to_string(),
        e2e_token: "token".to_string(),
    };
    assert_eq!(
        test.interface_url("OSInfo"),
        "https://api.host/appengine/v1/test/devices/dev/interfaces/io.edgehog.devicemanager.OSInfo"
    );
    assert_eq!(test.authorization(), "Bearer token");
    assert_eq!(pairing_url("https://api.host"), "https://api.host/pairing");
}

#[test]
fn environment_switches() {
    for (value, on) in [
        (Some("1"), true),
        (Some("true"), true),
        (Some("0"), false),
        (Some("TRUE"), false),
        (Some(""), false),
        (None, false),
    ] {
        assert_eq!(env_as_bool(value.map(str::to_string)), on);
    }
}

#[test]
fn operating_systems_are_compared() {
    let info = OsInfo {
        os_name: "linux".to_string(),
        os_version: "6".to_string(),
    };
    assert_eq!(
        os_info_test(&info, &reported(&[("/osName", "linux"), ("/osVersion", "6")])),
        None
    );
    assert_eq!(
        os_info_test(&info, &reported(&[("/osName", "linux"), ("/osVersion", "5")])),
        Some("/osVersion")
    );
    assert_eq!(os_info_test(&info, &reported(&[])), Some("/osName"));
}

#[test]
fn hardware_is_compared() {
    let info = HardwareInfo {
        cpu: Cpu {
            architecture: "x86_64".to_string(),
            model: "1".to_string(),
            model_name: "cpu".to_string(),
            vendor: "v".to_string(),
        },
        mem: Mem { total_bytes: 1024 },
    };
    let mut all = reported(&[
        ("/cpu/architecture", "x86_64"),
        ("/cpu/model", "1"),
        ("/cpu/modelName", "cpu"),
        ("/cpu/vendor", "v"),
    ]);
    assert_eq!(hardware_info_test(&info, &all), Some("/mem/totalBytes"));
    all.insert("/mem/totalBytes".to_string(), AstarteType::Integer(1024));
    assert_eq!(hardware_info_test(&info, &all), Some("/mem/totalBytes"));
    all.insert("/mem/totalBytes".to_string(), AstarteType::LongInteger(1024));
    assert_eq!(hardware_info_test(&info, &all), None);
    all.insert(
        "/cpu/model".to_string(),
        AstarteType::String("2".to_string()),
    );
    assert_eq!(hardware_info_test(&info, &all), Some("/cpu/model"));
}

#[test]
fn runtimes_are_compared() {
    let info = RuntimeInfo {
        environment: "e".to_string(),
        name: "n".to_string(),
        url: "u".to_string(),
        version: "v".to_string(),
    };
    let all = reported(&[
        ("/environment", "e"),
        ("/name", "n"),
        ("/url", "u"),
        ("/version", "v"),
    ]);
    assert_eq!(runtime_info_test(&info, &all), None);
    let all = reported(&[
        ("/environment", "e"),
        ("/name", "n"),
        ("/url", "x"),
        ("/version", "y"),
    ]);
    assert_eq!(runtime_info_test(&info, &all), Some("/url"));
}
