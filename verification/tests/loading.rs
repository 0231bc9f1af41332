use installer_config::{Config, Json, LoadError, Partition, SystemStorageInfo, P};

fn doc(text: &str) -> Json {
    Json::parse(text).expect("valid JSON")
}

#[test]
fn partial_document_overlays_only_what_it_has() {
    let text = "{\"partition\": {\"device\": \"/dev/sda\", \"mode\": \"manual\", \"efi\": true, \
                \"swap\": false, \"partitions\": null, \"encrypt_check\": false}}";
    let c = Config::from_json_string(String::from(text));
    assert_eq!(c.partition.device, "/dev/sda");
    assert_eq!(c.partition.mode, "manual");
    assert!(c.partition.efi);
    assert!(!c.partition.swap);
    assert_eq!(c.partition.swap_size, "");
    assert_eq!(c.partition.partitions, Json::Null);
    assert!(!c.partition.encrypt_check);
    assert_eq!(c.bootloader, Json::Null);
    let mut expected = Config::default();
    expected.partition.device = String::from("/dev/sda");
    expected.partition.mode = String::from("manual");
    expected.partition.efi = true;
    assert_eq!(c, expected);
}

#[test]
fn malformed_field_gives_the_full_default() {
    let text = "{\"bootloader\": {\"type\": \"grub\"}, \"partition\": {\"device\": 123, \
                \"mode\": \"manual\", \"efi\": true}}";
    assert_eq!(Config::from_json_string(String::from(text)), Config::default());
    assert_eq!(Config::load(text), Err(LoadError::Mismatch));
}

#[test]
fn text_that_is_no_json_gives_the_default() {
    for text in ["", "{", "not json", "{\"partition\": }"] {
        assert_eq!(Config::from_json_string(String::from(text)), Config::default());
        assert_eq!(Config::load(text), Err(LoadError::Syntax));
    }
}

#[test]
fn a_document_that_is_no_object_is_a_mismatch() {
    for text in ["null", "[]", "3", "\"partition\"", "true"] {
        assert_eq!(Config::load(text), Err(LoadError::Mismatch));
        assert_eq!(Config::from_json_string(String::from(text)), Config::default());
    }
}

#[test]
fn an_empty_object_gives_the_default() {
    assert_eq!(Config::load("{}"), Ok(Config::default()));
}

#[test]
fn unknown_keys_are_passed_over() {
    let c = Config::load("{\"nonsense\": 1, \"partition\": {\"extra\": [], \"swap\": true}}")
        .expect("loads");
    let mut expected = Config::default();
    expected.partition.swap = true;
    assert_eq!(c, expected);
}

#[test]
fn open_values_are_taken_as_they_are() {
    let text = "{\"bootloader\": {\"type\": \"grub\", \"location\": \"/boot\"}, \
                \"locale\": [\"en_US\"], \"networking\": false, \"users\": 3, \
                \"rootpass\": \"secret\", \"desktop\": null, \"theme\": 1.5, \
                \"displayManager\": \"sddm\", \"browser\": [], \"packagesStore\": {\"a\": 1}, \
                \"extra_packages\": [\"vim\"], \"kernel\": \"linux\", \"snapper\": true, \
                \"zramd\": false, \"hardened\": {}, \"flatpak\": true, \
                \"params\": {\"cores\": 4, \"jobs\": 2, \"keep\": true}, \"terminal\": \"zsh\", \
                \"base\": \"debian\"}";
    let c = Config::load(text).expect("loads");
    assert_eq!(c.bootloader, doc("{\"location\": \"/boot\", \"type\": \"grub\"}"));
    assert_eq!(c.locale, doc("[\"en_US\"]"));
    assert_eq!(c.networking, Json::Bool(false));
    assert_eq!(c.users, doc("3"));
    assert_eq!(c.rootpass, Json::text("secret"));
    assert_eq!(c.desktop, Json::Null);
    assert_eq!(c.theme, doc("1.5"));
    assert_eq!(c.displayManager, Json::text("sddm"));
    assert_eq!(c.browser, doc("[]"));
    assert_eq!(c.packagesStore, doc("{\"a\": 1}"));
    assert_eq!(c.extra_packages, doc("[\"vim\"]"));
    assert_eq!(c.kernel, Json::text("linux"));
    assert_eq!(c.snapper, Json::Bool(true));
    assert_eq!(c.zramd, Json::Bool(false));
    assert_eq!(c.hardened, doc("{}"));
    assert_eq!(c.flatpak, Json::Bool(true));
    assert_eq!(c.params, doc("{\"cores\": 4, \"jobs\": 2, \"keep\": true}"));
    assert_eq!(c.terminal, Json::text("zsh"));
    assert_eq!(c.base, "debian");
    assert_eq!(c.partition, Partition::default());
}

#[test]
fn each_typed_field_refuses_another_type() {
    let bad = [
        "{\"partition\": null}",
        "{\"partition\": []}",
        "{\"partition\": \"sda\"}",
        "{\"partition\": {\"device\": null}}",
        "{\"partition\": {\"mode\": 1}}",
        "{\"partition\": {\"efi\": \"true\"}}",
        "{\"partition\": {\"swap\": 0}}",
        "{\"partition\": {\"swap_size\": 4}}",
        "{\"partition\": {\"encrypt_check\": null}}",
        "{\"partition\": {\"installAlongPartitions\": {}}}",
        "{\"partition\": {\"system_storage_info\": {}}}",
        "{\"partition\": {\"system_storage_info\": [1]}}",
        "{\"partition\": {\"system_storage_info\": [{\"partitions\": {}}]}}",
        "{\"partition\": {\"system_storage_info\": [{\"partitions\": [[]]}]}}",
        "{\"partition\": {\"system_storage_info\": [{\"partitions\": [{\"name\": 1}]}]}}",
        "{\"partition\": {\"system_storage_info\": [{\"partitions\": [{\"start\": \"0\"}]}]}}",
        "{\"partition\": {\"system_storage_info\": [{\"partitions\": [{\"size\": 1.5}]}]}}",
        "{\"partition\": {\"system_storage_info_current\": \"none\"}}",
        "{\"base\": 1}",
        "{\"base\": null}",
    ];
    for text in bad {
        assert_eq!(Config::load(text), Err(LoadError::Mismatch), "{}", text);
        assert_eq!(Config::from_json_string(String::from(text)), Config::default(), "{}", text);
    }
}

#[test]
fn a_late_mismatch_discards_what_was_read_before() {
    let text = "{\"bootloader\": \"grub\", \"kernel\": \"lts\", \
                \"partition\": {\"device\": \"/dev/sda\", \"encrypt_check\": \"yes\"}}";
    assert_eq!(Config::from_json_string(String::from(text)), Config::default());
}

#[test]
fn scratch_fields_are_read_from_a_document_that_has_them() {
    let text = "{\"partition\": {\"installAlongPartitions\": [{\"path\": \"/dev/sda2\"}, 7], \
                \"system_storage_info\": [{\"partitions\": [{\"name\": \"root\", \
                \"partitionName\": \"sda1\", \"start\": 2048, \"size\": 1000000, \
                \"action\": \"create\", \"end\": 1002047, \"fileSytem\": \"ext4\"}, \
                {\"name\": null, \"start\": -1}, {}]}, {}], \
                \"system_storage_info_current\": []}}";
    let c = Config::load(text).expect("loads");
    let p = &c.partition;
    assert_eq!(p.installAlongPartitions, vec![doc("{\"path\": \"/dev/sda2\"}"), doc("7")]);
    assert_eq!(
        p.system_storage_info,
        vec![
            SystemStorageInfo {
                partitions: vec![
                    P {
                        name: Some(String::from("root")),
                        partitionName: Some(String::from("sda1")),
                        start: Some(2048),
                        size: Some(1000000),
                        action: Some(String::from("create")),
                        end: Some(1002047),
                        fileSytem: Some(String::from("ext4")),
                    },
                    P {
                        name: None,
                        partitionName: None,
                        start: Some(-1),
                        size: None,
                        action: None,
                        end: None,
                        fileSytem: None,
                    },
                    P::default(),
                ],
            },
            SystemStorageInfo::default(),
        ]
    );
    assert!(p.system_storage_info_current.is_empty());
}

#[test]
fn overlay_keeps_the_fields_the_document_lacks() {
    let mut base = Config::default();
    base.kernel = Json::text("lts");
    base.partition.device = String::from("/dev/nvme0n1");
    base.partition.swap_size = String::from("2G");
    base.partition.system_storage_info = vec![SystemStorageInfo::default()];
    base.base = String::from("fedora");
    let over = base
        .clone()
        .overlay(&doc("{\"terminal\": \"fish\", \"partition\": {\"efi\": true}}"))
        .expect("fits");
    let mut expected = base;
    expected.terminal = Json::text("fish");
    expected.partition.efi = true;
    assert_eq!(over, expected);
}

#[test]
fn overlay_of_a_row_sets_and_unsets() {
    let row = P {
        name: Some(String::from("old")),
        partitionName: Some(String::from("sda3")),
        start: Some(1),
        size: Some(2),
        action: None,
        end: Some(3),
        fileSytem: None,
    };
    let over = row
        .overlay(&doc("{\"name\": null, \"size\": 20, \"action\": \"shrink\", \"end\": null}"))
        .expect("fits");
    assert_eq!(
        over,
        P {
            name: None,
            partitionName: Some(String::from("sda3")),
            start: Some(1),
            size: Some(20),
            action: Some(String::from("shrink")),
            end: None,
            fileSytem: None,
        }
    );
    assert_eq!(P::default().overlay(&doc("[]")), Err(LoadError::Mismatch));
    assert_eq!(P::default().overlay(&doc("{\"end\": true}")), Err(LoadError::Mismatch));
}

#[test]
fn overlay_of_a_snapshot_replaces_its_rows() {
    let base = SystemStorageInfo { partitions: vec![P::default(), P::default()] };
    assert_eq!(base.clone().overlay(&doc("{}")), Ok(base.clone()));
    assert_eq!(
        base.clone().overlay(&doc("{\"partitions\": []}")),
        Ok(SystemStorageInfo::default())
    );
    assert_eq!(base.overlay(&doc("null")), Err(LoadError::Mismatch));
}

#[test]
fn overlay_of_a_layout_refuses_what_is_no_object() {
    assert_eq!(Partition::default().overlay(&Json::Null), Err(LoadError::Mismatch));
    assert_eq!(Partition::default().overlay(&doc("[]")), Err(LoadError::Mismatch));
    assert_eq!(Partition::default().overlay(&doc("{}")), Ok(Partition::default()));
}
