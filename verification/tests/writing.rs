use installer_config::{Config, Json, Partition, SystemStorageInfo, P};

fn doc(text: &str) -> Json {
    Json::parse(text).expect("valid JSON")
}

fn keys(object: &Json) -> Vec<String> {
    match object.to_value() {
        serde_json::Value::Object(map) => map.keys().cloned().collect(),
        _ => panic!("not an object"),
    }
}

#[test]
fn default_layout_is_written_without_swap_size() {
    let p = Partition::default();
    assert_eq!(
        p.to_json_string(),
        "{\"device\":\"\",\"efi\":false,\"encrypt_check\":false,\"mode\":\"\",\
         \"partitions\":null,\"swap\":false}"
    );
    assert_eq!(p.to_json().get("swap_size"), None);
    assert!(!p.to_json_string().contains("swap_size"));
}

#[test]
fn a_set_swap_size_is_written() {
    let mut p = Partition::default();
    p.swap_size = String::from("4G");
    assert!(p.to_json_string().contains("\"swap_size\":\"4G\""));
    assert_eq!(p.to_json().get("swap_size"), Some(&Json::text("4G")));
    assert_eq!(
        keys(&p.to_json()),
        ["device", "efi", "encrypt_check", "mode", "partitions", "swap", "swap_size"]
    );
}

#[test]
fn scratch_fields_are_never_written() {
    let mut p = Partition::default();
    p.installAlongPartitions = vec![doc("{\"path\": \"/dev/sda2\"}")];
    p.system_storage_info = vec![SystemStorageInfo { partitions: vec![P::default()] }];
    p.system_storage_info_current = vec![SystemStorageInfo::default()];
    let out = p.to_json();
    assert_eq!(out.get("installAlongPartitions"), None);
    assert_eq!(out.get("system_storage_info"), None);
    assert_eq!(out.get("system_storage_info_current"), None);
    let text = p.to_json_string();
    assert!(!text.contains("installAlongPartitions"));
    assert!(!text.contains("system_storage_info"));
    assert_eq!(
        keys(&out),
        ["device", "efi", "encrypt_check", "mode", "partitions", "swap"]
    );
}

#[test]
fn layout_fields_are_written_with_their_values() {
    let p = Partition {
        device: String::from("/dev/sda"),
        mode: String::from("manual"),
        efi: true,
        swap: true,
        swap_size: String::from("8G"),
        partitions: doc("[{\"mount\": \"/\"}]"),
        installAlongPartitions: vec![],
        system_storage_info: vec![],
        system_storage_info_current: vec![],
        encrypt_check: true,
    };
    assert_eq!(
        p.to_json_string(),
        "{\"device\":\"/dev/sda\",\"efi\":true,\"encrypt_check\":true,\"mode\":\"manual\",\
         \"partitions\":[{\"mount\":\"/\"}],\"swap\":true,\"swap_size\":\"8G\"}"
    );
}

#[test]
fn default_config_is_written_with_every_key_but_the_internal_ones() {
    let c = Config::default();
    assert_eq!(
        keys(&c.to_json()),
        [
            "bootloader",
            "browser",
            "desktop",
            "displayManager",
            "extra_packages",
            "flatpak",
            "hardened",
            "kernel",
            "locale",
            "networking",
            "params",
            "partition",
            "rootpass",
            "snapper",
            "terminal",
            "theme",
            "users",
            "zramd",
        ]
    );
    assert_eq!(
        c.to_json_string(),
        "{\"bootloader\":null,\"browser\":null,\"desktop\":null,\"displayManager\":null,\
         \"extra_packages\":null,\"flatpak\":null,\"hardened\":null,\"kernel\":null,\
         \"locale\":null,\"networking\":null,\"params\":null,\
         \"partition\":{\"device\":\"\",\"efi\":false,\"encrypt_check\":false,\"mode\":\"\",\
         \"partitions\":null,\"swap\":false},\
         \"rootpass\":null,\"snapper\":null,\"terminal\":null,\"theme\":null,\"users\":null,\
         \"zramd\":null}"
    );
}

#[test]
fn package_cache_and_base_are_never_written() {
    let mut c = Config::default();
    c.packagesStore = doc("{\"cached\": [1, 2, 3]}");
    c.base = String::from("debian");
    let out = c.to_json();
    assert_eq!(out.get("packagesStore"), None);
    assert_eq!(out.get("base"), None);
    let text = c.to_json_string();
    assert!(!text.contains("packagesStore"));
    assert!(!text.contains("base"));
    assert!(!text.contains("debian"));
    assert!(!text.contains("cached"));
}

#[test]
fn what_was_read_is_written_and_read_again() {
    let text = "{\"partition\": {\"device\": \"/dev/sda\", \"mode\": \"replace\", \"efi\": true, \
                \"swap\": true, \"swap_size\": \"4G\", \"partitions\": [{\"n\": 1}], \
                \"encrypt_check\": true, \"installAlongPartitions\": [1], \
                \"system_storage_info\": [{\"partitions\": [{\"start\": 5}]}]}, \
                \"bootloader\": {\"type\": \"grub\", \"location\": \"/dev/sda\"}, \
                \"locale\": {\"locale\": [\"en_US.UTF-8\"], \"timezone\": \"UTC\"}, \
                \"users\": [{\"name\": \"a\", \"uid\": 1000}], \"theme\": 0.5, \
                \"packagesStore\": [\"pkg\"], \"base\": \"debian\", \"unknown\": true}";
    let read = Config::load(text).expect("loads");
    let written = read.to_json_string();
    let source = doc(text);
    let output = doc(&written);
    for key in ["bootloader", "locale", "users", "theme"] {
        assert_eq!(output.get(key), source.get(key), "{}", key);
    }
    let layout_in = source.get("partition").expect("has a layout");
    let layout_out = output.get("partition").expect("has a layout");
    for key in ["device", "mode", "efi", "swap", "swap_size", "partitions", "encrypt_check"] {
        assert_eq!(layout_out.get(key), layout_in.get(key), "{}", key);
    }
    for key in ["installAlongPartitions", "system_storage_info", "system_storage_info_current"] {
        assert_eq!(layout_out.get(key), None, "{}", key);
    }
    for key in ["packagesStore", "base", "unknown"] {
        assert_eq!(output.get(key), None, "{}", key);
    }
    let again = Config::load(&written).expect("loads");
    let mut expected = read.clone();
    expected.packagesStore = Json::Null;
    expected.base = String::from("arch");
    expected.partition.installAlongPartitions = vec![];
    expected.partition.system_storage_info = vec![];
    assert_eq!(again, expected);
    assert_eq!(again.to_json_string(), written);
}

#[test]
fn an_empty_swap_size_that_was_read_is_left_out() {
    let read = Config::load("{\"partition\": {\"swap_size\": \"\", \"swap\": true}}").expect("loads");
    let out = read.to_json();
    let layout = out.get("partition").expect("has a layout");
    assert_eq!(layout.get("swap_size"), None);
    assert_eq!(layout.get("swap"), Some(&Json::Bool(true)));
    assert_eq!(Config::load(&read.to_json_string()), Ok(read));
}

#[test]
fn default_config_survives_writing_and_reading() {
    let text = Config::default().to_json_string();
    assert_eq!(Config::load(&text), Ok(Config::default()));
    assert_eq!(Config::from_json_string(text), Config::default());
}
