//! What holds of reading and writing, for every configuration and every
//! document.
use crate::config::ConfigView;
use crate::json::JsonView;
use crate::members::{items_member, text_member};
use crate::partition::{snapshots_member, PartitionView};
use vstd::prelude::*;

verus! {

/// What tells the keys of one object apart: length and first letter.
pub open spec fn mark(key: Seq<char>) -> (nat, char) {
    (key.len(), key[0])
}

/// The marks of the keys of a layout's document. No two are the same.
pub proof fn lemma_partition_keys()
    ensures
        mark("device"@) == (6nat, 'd'),
        mark("mode"@) == (4nat, 'm'),
        mark("efi"@) == (3nat, 'e'),
        mark("swap"@) == (4nat, 's'),
        mark("swap_size"@) == (9nat, 's'),
        mark("partitions"@) == (10nat, 'p'),
        mark("installAlongPartitions"@) == (22nat, 'i'),
        mark("system_storage_info"@) == (19nat, 's'),
        mark("system_storage_info_current"@) == (27nat, 's'),
        mark("encrypt_check"@) == (13nat, 'e'),
{
    reveal_strlit("device");
    reveal_strlit("mode");
    reveal_strlit("efi");
    reveal_strlit("swap");
    reveal_strlit("swap_size");
    reveal_strlit("partitions");
    reveal_strlit("installAlongPartitions");
    reveal_strlit("system_storage_info");
    reveal_strlit("system_storage_info_current");
    reveal_strlit("encrypt_check");
}

/// Whether a key names a field of the layout that is written out.
pub open spec fn written_partition_key(key: Seq<char>) -> bool {
    key == "device"@ || key == "mode"@ || key == "efi"@ || key == "swap"@ || key == "swap_size"@
        || key == "partitions"@ || key == "encrypt_check"@
}

/// What the document of a layout holds: the six fields that are always
/// written, `swap_size` exactly where it is set, and nothing else. In
/// particular none of the three fields that are held for the process only,
/// whatever they hold.
pub proof fn law_partition_members(p: PartitionView)
    ensures
        p.encode().member("device"@) == Some(JsonView::String(p.device)),
        p.encode().member("mode"@) == Some(JsonView::String(p.mode)),
        p.encode().member("efi"@) == Some(JsonView::Bool(p.efi)),
        p.encode().member("swap"@) == Some(JsonView::Bool(p.swap)),
        p.encode().member("partitions"@) == Some(p.partitions),
        p.encode().member("encrypt_check"@) == Some(JsonView::Bool(p.encrypt_check)),
        p.swap_size.len() == 0 ==> p.encode().member("swap_size"@) is None,
        p.swap_size.len() > 0 ==> p.encode().member("swap_size"@) == Some(
            JsonView::String(p.swap_size),
        ),
        p.encode().member("installAlongPartitions"@) is None,
        p.encode().member("system_storage_info"@) is None,
        p.encode().member("system_storage_info_current"@) is None,
        forall|key: Seq<char>| p.encode().member(key) is Some ==> written_partition_key(key),
{
    lemma_partition_keys();
}

/// Writing a layout and reading the document back over the default gives
/// the layout again, but for the fields that are never written.
pub proof fn law_partition_round_trip(p: PartitionView)
    ensures
        PartitionView::defaults().overlay(p.encode()) == Some(p.durable()),
{
    law_partition_members(p);
    let doc = p.encode();
    let base = PartitionView::defaults();
    assert(text_member(doc, "swap_size"@, base.swap_size) == Some(p.swap_size)) by {
        if p.swap_size.len() == 0 {
            assert(p.swap_size =~= base.swap_size);
        }
    }
    assert(items_member(doc, "installAlongPartitions"@, base.installAlongPartitions) == Some(
        base.installAlongPartitions,
    ));
    assert(snapshots_member(doc, "system_storage_info"@, base.system_storage_info) == Some(
        base.system_storage_info,
    ));
    assert(snapshots_member(
        doc,
        "system_storage_info_current"@,
        base.system_storage_info_current,
    ) == Some(base.system_storage_info_current));
}

/// The marks of the keys of a configuration's document. No two are the
/// same.
pub proof fn lemma_config_keys()
    ensures
        mark("partition"@) == (9nat, 'p'),
        mark("bootloader"@) == (10nat, 'b'),
        mark("locale"@) == (6nat, 'l'),
        mark("networking"@) == (10nat, 'n'),
        mark("users"@) == (5nat, 'u'),
        mark("rootpass"@) == (8nat, 'r'),
        mark("desktop"@) == (7nat, 'd'),
        mark("theme"@) == (5nat, 't'),
        mark("displayManager"@) == (14nat, 'd'),
        mark("browser"@) == (7nat, 'b'),
        mark("packagesStore"@) == (13nat, 'p'),
        mark("extra_packages"@) == (14nat, 'e'),
        mark("kernel"@) == (6nat, 'k'),
        mark("snapper"@) == (7nat, 's'),
        mark("zramd"@) == (5nat, 'z'),
        mark("hardened"@) == (8nat, 'h'),
        mark("flatpak"@) == (7nat, 'f'),
        mark("params"@) == (6nat, 'p'),
        mark("terminal"@) == (8nat, 't'),
        mark("base"@) == (4nat, 'b'),
{
    reveal_strlit("partition");
    reveal_strlit("bootloader");
    reveal_strlit("locale");
    reveal_strlit("networking");
    reveal_strlit("users");
    reveal_strlit("rootpass");
    reveal_strlit("desktop");
    reveal_strlit("theme");
    reveal_strlit("displayManager");
    reveal_strlit("browser");
    reveal_strlit("packagesStore");
    reveal_strlit("extra_packages");
    reveal_strlit("kernel");
    reveal_strlit("snapper");
    reveal_strlit("zramd");
    reveal_strlit("hardened");
    reveal_strlit("flatpak");
    reveal_strlit("params");
    reveal_strlit("terminal");
    reveal_strlit("base");
}

/// Whether a key names an open field of the configuration that is written
/// out.
pub open spec fn written_open_key(key: Seq<char>) -> bool {
    key == "bootloader"@ || key == "locale"@ || key == "networking"@ || key == "users"@ || key
        == "rootpass"@ || key == "desktop"@ || key == "theme"@ || key == "displayManager"@ || key
        == "browser"@ || key == "extra_packages"@ || key == "kernel"@ || key == "snapper"@ || key
        == "zramd"@ || key == "hardened"@ || key == "flatpak"@ || key == "params"@ || key
        == "terminal"@
}

/// What the document of a configuration holds: the layout's document and
/// the seventeen open values, each under its key and always there, also
/// where it is null; and nothing else. In particular neither the package
/// cache nor the distribution family, whatever they hold.
pub proof fn law_config_members(c: ConfigView)
    ensures
        c.encode().member("partition"@) == Some(c.partition.encode()),
        c.encode().member("bootloader"@) == Some(c.bootloader),
        c.encode().member("locale"@) == Some(c.locale),
        c.encode().member("networking"@) == Some(c.networking),
        c.encode().member("users"@) == Some(c.users),
        c.encode().member("rootpass"@) == Some(c.rootpass),
        c.encode().member("desktop"@) == Some(c.desktop),
        c.encode().member("theme"@) == Some(c.theme),
        c.encode().member("displayManager"@) == Some(c.displayManager),
        c.encode().member("browser"@) == Some(c.browser),
        c.encode().member("extra_packages"@) == Some(c.extra_packages),
        c.encode().member("kernel"@) == Some(c.kernel),
        c.encode().member("snapper"@) == Some(c.snapper),
        c.encode().member("zramd"@) == Some(c.zramd),
        c.encode().member("hardened"@) == Some(c.hardened),
        c.encode().member("flatpak"@) == Some(c.flatpak),
        c.encode().member("params"@) == Some(c.params),
        c.encode().member("terminal"@) == Some(c.terminal),
        c.encode().member("packagesStore"@) is None,
        c.encode().member("base"@) is None,
        forall|key: Seq<char>|
            c.encode().member(key) is Some ==> key == "partition"@ || written_open_key(key),
{
    lemma_config_keys();
}

/// Writing a configuration and reading the document back over the default
/// gives the configuration again, but for the fields that are never
/// written.
pub proof fn law_config_round_trip(c: ConfigView)
    ensures
        ConfigView::defaults().overlay(c.encode()) == Some(c.durable()),
{
    law_config_members(c);
    law_partition_round_trip(c.partition);
    lemma_config_keys();
}

/// What a document brought in is written out again. Let a document be laid
/// over the default and the outcome be written: every open value that the
/// document has under a written key stands in the output unchanged, and so
/// does every member of the document's layout under a written key, but for
/// an empty `swap_size`, which is left out.
pub proof fn law_written_as_read(doc: JsonView)
    requires
        ConfigView::defaults().overlay(doc) is Some,
    ensures
        forall|key: Seq<char>|
            written_open_key(key) && doc.member(key) is Some ==> ConfigView::loaded(
                Some(doc),
            ).encode().member(key) == doc.member(key),
        forall|key: Seq<char>|
            doc.member("partition"@) is Some && written_partition_key(key) && (#[trigger] doc.member(
                "partition"@,
            )->0.member(key)) is Some && !(key == "swap_size"@ && ConfigView::loaded(
                Some(doc),
            ).partition.swap_size.len() == 0) ==> ConfigView::loaded(
                Some(doc),
            ).partition.encode().member(key) == doc.member("partition"@)->0.member(key),
{
    let c = ConfigView::loaded(Some(doc));
    law_config_members(c);
    law_partition_members(c.partition);
    lemma_config_keys();
    lemma_partition_keys();
}

} // verus!
