//! The disk layout part of the configuration.
//!
//! `Partition` is the one strongly typed section. Seven of its fields are
//! configuration and are written out; three are a scratch channel between
//! the interface and the partitioning engine: they are read from a document
//! that carries them, and never written.
use crate::json::{views, Json, JsonView};
use crate::members::{
    flag_member, items_member, open_member, optional_integer_member, optional_text_member,
    read_flag, read_open, read_optional_integer, read_optional_text, read_text, text_member,
    text_view, LoadError,
};
use vstd::prelude::*;

verus! {

/// The operation planned for an existing partition.
#[allow(unused)]
#[derive(Debug, PartialEq, Eq, Clone, Copy)]
pub enum PartitionAction {
    Delete,
    Shrink,
    Create,
    /// Leave the partition as it is.
    NoAction,
}

/// One row of a disk layout plan. A field that no stage has filled yet is
/// `None`.
#[allow(non_snake_case)]
#[derive(Debug, PartialEq, Clone)]
pub struct P {
    pub name: Option<String>,
    pub partitionName: Option<String>,
    pub start: Option<i128>,
    pub size: Option<i128>,
    pub action: Option<String>,
    pub end: Option<i128>,
    pub fileSytem: Option<String>,
}

/// The mathematical value of a `P`.
#[allow(non_snake_case)]
pub struct PView {
    pub name: Option<Seq<char>>,
    pub partitionName: Option<Seq<char>>,
    pub start: Option<i128>,
    pub size: Option<i128>,
    pub action: Option<Seq<char>>,
    pub end: Option<i128>,
    pub fileSytem: Option<Seq<char>>,
}

impl View for P {
    type V = PView;

    open spec fn view(&self) -> PView {
        PView {
            name: text_view(self.name),
            partitionName: text_view(self.partitionName),
            start: self.start,
            size: self.size,
            action: text_view(self.action),
            end: self.end,
            fileSytem: text_view(self.fileSytem),
        }
    }
}

impl PView {
    /// The row of which nothing is determined yet.
    pub open spec fn defaults() -> PView {
        PView {
            name: None,
            partitionName: None,
            start: None,
            size: None,
            action: None,
            end: None,
            fileSytem: None,
        }
    }

    /// This row with the members of `doc` laid over it. `None` where `doc`
    /// is no object or one of its members has the wrong type.
    pub open spec fn overlay(self, doc: JsonView) -> Option<PView> {
        let name = optional_text_member(doc, "name"@, self.name);
        let partition_name = optional_text_member(doc, "partitionName"@, self.partitionName);
        let start = optional_integer_member(doc, "start"@, self.start);
        let size = optional_integer_member(doc, "size"@, self.size);
        let action = optional_text_member(doc, "action"@, self.action);
        let end = optional_integer_member(doc, "end"@, self.end);
        let file_system = optional_text_member(doc, "fileSytem"@, self.fileSytem);
        if doc is Object && name is Some && partition_name is Some && start is Some && size is Some
            && action is Some && end is Some && file_system is Some {
            Some(
                PView {
                    name: name->0,
                    partitionName: partition_name->0,
                    start: start->0,
                    size: size->0,
                    action: action->0,
                    end: end->0,
                    fileSytem: file_system->0,
                },
            )
        } else {
            None
        }
    }
}

impl Default for P {
    fn default() -> (r: P)
        ensures
            r@ == PView::defaults(),
    {
        P {
            name: None,
            partitionName: None,
            start: None,
            size: None,
            action: None,
            end: None,
            fileSytem: None,
        }
    }
}

impl P {
    /// Lays the members of `doc` over this row.
    pub fn overlay(self, doc: &Json) -> (r: Result<P, LoadError>)
        ensures
            match self@.overlay(doc@) {
                Some(row) => r matches Ok(p) && p@ == row,
                None => r matches Err(LoadError::Mismatch),
            },
    {
        if !doc.is_object() {
            return Err(LoadError::Mismatch);
        }
        let name = match read_optional_text(doc, "name", self.name) {
            Ok(x) => x,
            Err(_) => { return Err(LoadError::Mismatch); },
        };
        let partition_name = match read_optional_text(doc, "partitionName", self.partitionName) {
            Ok(x) => x,
            Err(_) => { return Err(LoadError::Mismatch); },
        };
        let start = match read_optional_integer(doc, "start", self.start) {
            Ok(x) => x,
            Err(_) => { return Err(LoadError::Mismatch); },
        };
        let size = match read_optional_integer(doc, "size", self.size) {
            Ok(x) => x,
            Err(_) => { return Err(LoadError::Mismatch); },
        };
        let action = match read_optional_text(doc, "action", self.action) {
            Ok(x) => x,
            Err(_) => { return Err(LoadError::Mismatch); },
        };
        let end = match read_optional_integer(doc, "end", self.end) {
            Ok(x) => x,
            Err(_) => { return Err(LoadError::Mismatch); },
        };
        let file_system = match read_optional_text(doc, "fileSytem", self.fileSytem) {
            Ok(x) => x,
            Err(_) => { return Err(LoadError::Mismatch); },
        };
        Ok(
            P {
                name,
                partitionName: partition_name,
                start,
                size,
                action,
                end,
                fileSytem: file_system,
            },
        )
    }
}

/// The views of a list of rows, in order.
pub open spec fn row_views(rows: Seq<P>) -> Seq<PView> {
    Seq::new(rows.len(), |i: int| rows[i]@)
}

/// The rows that a list of documents describes, each laid over the row of
/// which nothing is determined. `None` where one of them describes none.
pub open spec fn rows_of(items: Seq<JsonView>) -> Option<Seq<PView>> {
    if forall|i: int| 0 <= i < items.len() ==> (#[trigger] PView::defaults().overlay(items[i])) is Some {
        Some(Seq::new(items.len(), |i: int| PView::defaults().overlay(items[i])->0))
    } else {
        None
    }
}

/// A snapshot of the storage that was observed: the rows of the partition
/// table, in order.
#[derive(Debug, PartialEq, Clone)]
pub struct SystemStorageInfo {
    pub partitions: Vec<P>,
}

/// The mathematical value of a `SystemStorageInfo`.
pub struct SystemStorageInfoView {
    pub partitions: Seq<PView>,
}

impl View for SystemStorageInfo {
    type V = SystemStorageInfoView;

    open spec fn view(&self) -> SystemStorageInfoView {
        SystemStorageInfoView { partitions: row_views(self.partitions@) }
    }
}

impl SystemStorageInfoView {
    /// The snapshot without rows.
    pub open spec fn defaults() -> SystemStorageInfoView {
        SystemStorageInfoView { partitions: Seq::empty() }
    }

    /// This snapshot with the members of `doc` laid over it. `None` where
    /// `doc` is no object, its `partitions` is no array, or one of the
    /// array's items describes no row.
    pub open spec fn overlay(self, doc: JsonView) -> Option<SystemStorageInfoView> {
        if !(doc is Object) {
            None
        } else {
            match doc.member("partitions"@) {
                Some(found) => match found.as_items() {
                    Some(items) => match rows_of(items) {
                        Some(rows) => Some(SystemStorageInfoView { partitions: rows }),
                        None => None,
                    },
                    None => None,
                },
                None => Some(self),
            }
        }
    }
}

impl Default for SystemStorageInfo {
    fn default() -> (r: SystemStorageInfo)
        ensures
            r@ == SystemStorageInfoView::defaults(),
    {
        let r = SystemStorageInfo { partitions: Vec::new() };
        assert(r@.partitions =~= Seq::empty());
        r
    }
}

/// Reads a list of rows from the items of an array.
fn read_rows(items: &Vec<Json>) -> (r: Result<Vec<P>, LoadError>)
    ensures
        match rows_of(views(items@)) {
            Some(rows) => r matches Ok(v) && row_views(v@) == rows,
            None => r matches Err(LoadError::Mismatch),
        },
{
    let ghost docs = views(items@);
    let mut out: Vec<P> = Vec::new();
    let mut i: usize = 0;
    while i < items.len()
        invariant
            i <= items.len(),
            out@.len() == i,
            docs == views(items@),
            forall|j: int|
                0 <= j < i ==> (#[trigger] PView::defaults().overlay(docs[j])) == Some(out@[j]@),
        decreases items.len() - i,
    {
        match P::default().overlay(&items[i]) {
            Ok(row) => {
                out.push(row);
            },
            Err(_) => {
                assert(PView::defaults().overlay(docs[i as int]) is None);
                return Err(LoadError::Mismatch);
            },
        }
        i += 1;
    }
    assert(row_views(out@) =~= rows_of(docs)->0);
    Ok(out)
}

impl SystemStorageInfo {
    /// Lays the members of `doc` over this snapshot.
    pub fn overlay(self, doc: &Json) -> (r: Result<SystemStorageInfo, LoadError>)
        ensures
            match self@.overlay(doc@) {
                Some(info) => r matches Ok(s) && s@ == info,
                None => r matches Err(LoadError::Mismatch),
            },
    {
        if !doc.is_object() {
            return Err(LoadError::Mismatch);
        }
        match doc.get("partitions") {
            Some(found) => match found.as_items() {
                Some(items) => match read_rows(items) {
                    Ok(rows) => Ok(SystemStorageInfo { partitions: rows }),
                    Err(_) => Err(LoadError::Mismatch),
                },
                None => Err(LoadError::Mismatch),
            },
            None => Ok(self),
        }
    }
}

/// The views of a list of snapshots, in order.
pub open spec fn snapshot_views(snapshots: Seq<SystemStorageInfo>) -> Seq<SystemStorageInfoView> {
    Seq::new(snapshots.len(), |i: int| snapshots[i]@)
}

/// The snapshots that a list of documents describes, each laid over the
/// snapshot without rows. `None` where one of them describes none.
pub open spec fn snapshots_of(items: Seq<JsonView>) -> Option<Seq<SystemStorageInfoView>> {
    if forall|i: int|
        0 <= i < items.len() ==> (#[trigger] SystemStorageInfoView::defaults().overlay(items[i]))
            is Some {
        Some(
            Seq::new(items.len(), |i: int| SystemStorageInfoView::defaults().overlay(items[i])->0),
        )
    } else {
        None
    }
}

/// A list of snapshots: those that the array under `key` describes, `kept`
/// where there is no member, `None` where the member is no array or one of
/// its items describes no snapshot.
pub open spec fn snapshots_member(
    doc: JsonView,
    key: Seq<char>,
    kept: Seq<SystemStorageInfoView>,
) -> Option<Seq<SystemStorageInfoView>> {
    match doc.member(key) {
        Some(found) => match found.as_items() {
            Some(items) => snapshots_of(items),
            None => None,
        },
        None => Some(kept),
    }
}

/// Reads a list of snapshots from the items of an array.
fn read_snapshot_items(items: &Vec<Json>) -> (r: Result<Vec<SystemStorageInfo>, LoadError>)
    ensures
        match snapshots_of(views(items@)) {
            Some(snapshots) => r matches Ok(v) && snapshot_views(v@) == snapshots,
            None => r matches Err(LoadError::Mismatch),
        },
{
    let ghost docs = views(items@);
    let mut out: Vec<SystemStorageInfo> = Vec::new();
    let mut i: usize = 0;
    while i < items.len()
        invariant
            i <= items.len(),
            out@.len() == i,
            docs == views(items@),
            forall|j: int|
                0 <= j < i ==> (#[trigger] SystemStorageInfoView::defaults().overlay(docs[j]))
                    == Some(out@[j]@),
        decreases items.len() - i,
    {
        match SystemStorageInfo::default().overlay(&items[i]) {
            Ok(snapshot) => {
                out.push(snapshot);
            },
            Err(_) => {
                assert(SystemStorageInfoView::defaults().overlay(docs[i as int]) is None);
                return Err(LoadError::Mismatch);
            },
        }
        i += 1;
    }
    assert(snapshot_views(out@) =~= snapshots_of(docs)->0);
    Ok(out)
}

/// Reads a field that holds a list of snapshots.
fn read_snapshots(doc: &Json, key: &str, kept: Vec<SystemStorageInfo>) -> (r: Result<
    Vec<SystemStorageInfo>,
    LoadError,
>)
    ensures
        match snapshots_member(doc@, key@, snapshot_views(kept@)) {
            Some(snapshots) => r matches Ok(v) && snapshot_views(v@) == snapshots,
            None => r matches Err(LoadError::Mismatch),
        },
{
    match doc.get(key) {
        Some(found) => match found.as_items() {
            Some(items) => read_snapshot_items(items),
            None => Err(LoadError::Mismatch),
        },
        None => Ok(kept),
    }
}

/// Reads a field that holds a list of open values.
fn read_items(doc: &Json, key: &str, kept: Vec<Json>) -> (r: Result<Vec<Json>, LoadError>)
    ensures
        match items_member(doc@, key@, views(kept@)) {
            Some(items) => r matches Ok(v) && views(v@) == items,
            None => r matches Err(LoadError::Mismatch),
        },
{
    match doc.get(key) {
        Some(found) => match found.as_items() {
            Some(items) => {
                let mut out: Vec<Json> = Vec::new();
                let mut i: usize = 0;
                while i < items.len()
                    invariant
                        i <= items.len(),
                        out@.len() == i,
                        forall|j: int| 0 <= j < i ==> out@[j]@ == items@[j]@,
                    decreases items.len() - i,
                {
                    out.push(items[i].clone());
                    i += 1;
                }
                assert(views(out@) =~= views(items@));
                Ok(out)
            },
            None => Err(LoadError::Mismatch),
        },
        None => Ok(kept),
    }
}

/// Whether a string field holds its default, the empty string.
pub fn is_default(s: &String) -> (r: bool)
    ensures
        r == (s@.len() == 0),
{
    s.as_str().is_empty()
}

/// How the disk is to be laid out.
#[allow(non_snake_case)]
#[derive(Debug, PartialEq, Clone)]
pub struct Partition {
    /// The path of the target device.
    pub device: String,
    /// The partitioning mode: automatic, manual, replace.
    pub mode: String,
    /// Whether an EFI partition is required.
    pub efi: bool,
    /// Whether swap is enabled.
    pub swap: bool,
    /// The size of the swap; empty means unset.
    pub swap_size: String,
    /// The partition table or list of operations; its shape depends on the
    /// mode.
    pub partitions: Json,
    /// Partitions beside which an installation fits. Never written out.
    pub installAlongPartitions: Vec<Json>,
    /// The storage as observed before the selection. Never written out.
    pub system_storage_info: Vec<SystemStorageInfo>,
    /// The storage as it is after the selection. Never written out.
    pub system_storage_info_current: Vec<SystemStorageInfo>,
    /// Whether encryption was requested.
    pub encrypt_check: bool,
}

/// The mathematical value of a `Partition`.
#[allow(non_snake_case)]
pub struct PartitionView {
    pub device: Seq<char>,
    pub mode: Seq<char>,
    pub efi: bool,
    pub swap: bool,
    pub swap_size: Seq<char>,
    pub partitions: JsonView,
    pub installAlongPartitions: Seq<JsonView>,
    pub system_storage_info: Seq<SystemStorageInfoView>,
    pub system_storage_info_current: Seq<SystemStorageInfoView>,
    pub encrypt_check: bool,
}

impl View for Partition {
    type V = PartitionView;

    open spec fn view(&self) -> PartitionView {
        PartitionView {
            device: self.device@,
            mode: self.mode@,
            efi: self.efi,
            swap: self.swap,
            swap_size: self.swap_size@,
            partitions: self.partitions@,
            installAlongPartitions: views(self.installAlongPartitions@),
            system_storage_info: snapshot_views(self.system_storage_info@),
            system_storage_info_current: snapshot_views(self.system_storage_info_current@),
            encrypt_check: self.encrypt_check,
        }
    }
}

impl PartitionView {
    /// The default: every string empty, every flag false, the partition
    /// table null, every list empty.
    pub open spec fn defaults() -> PartitionView {
        PartitionView {
            device: Seq::empty(),
            mode: Seq::empty(),
            efi: false,
            swap: false,
            swap_size: Seq::empty(),
            partitions: JsonView::Null,
            installAlongPartitions: Seq::empty(),
            system_storage_info: Seq::empty(),
            system_storage_info_current: Seq::empty(),
            encrypt_check: false,
        }
    }

    /// This layout with the members of `doc` laid over it: each field whose
    /// key `doc` has takes the member's value, every other field stays.
    /// `None` where `doc` is no object or one of its members has the wrong
    /// type.
    pub open spec fn overlay(self, doc: JsonView) -> Option<PartitionView> {
        let device = text_member(doc, "device"@, self.device);
        let mode = text_member(doc, "mode"@, self.mode);
        let efi = flag_member(doc, "efi"@, self.efi);
        let swap = flag_member(doc, "swap"@, self.swap);
        let swap_size = text_member(doc, "swap_size"@, self.swap_size);
        let along = items_member(doc, "installAlongPartitions"@, self.installAlongPartitions);
        let before = snapshots_member(doc, "system_storage_info"@, self.system_storage_info);
        let current = snapshots_member(
            doc,
            "system_storage_info_current"@,
            self.system_storage_info_current,
        );
        let encrypt_check = flag_member(doc, "encrypt_check"@, self.encrypt_check);
        if doc is Object && device is Some && mode is Some && efi is Some && swap is Some
            && swap_size is Some && along is Some && before is Some && current is Some
            && encrypt_check is Some {
            Some(
                PartitionView {
                    device: device->0,
                    mode: mode->0,
                    efi: efi->0,
                    swap: swap->0,
                    swap_size: swap_size->0,
                    partitions: open_member(doc, "partitions"@, self.partitions),
                    installAlongPartitions: along->0,
                    system_storage_info: before->0,
                    system_storage_info_current: current->0,
                    encrypt_check: encrypt_check->0,
                },
            )
        } else {
            None
        }
    }

    /// The document written for this layout: one member for each field that
    /// is configuration, `swap_size` only where it is set.
    pub open spec fn encode(self) -> JsonView {
        let head = Map::<Seq<char>, JsonView>::empty().insert(
            "device"@,
            JsonView::String(self.device),
        ).insert("mode"@, JsonView::String(self.mode)).insert("efi"@, JsonView::Bool(self.efi)).insert(
            "swap"@,
            JsonView::Bool(self.swap),
        );
        let sized = if self.swap_size.len() == 0 {
            head
        } else {
            head.insert("swap_size"@, JsonView::String(self.swap_size))
        };
        JsonView::Object(
            sized.insert("partitions"@, self.partitions).insert(
                "encrypt_check"@,
                JsonView::Bool(self.encrypt_check),
            ),
        )
    }

    /// This layout as it is after being written out and read back: the
    /// fields that are never written are at their defaults.
    pub open spec fn durable(self) -> PartitionView {
        PartitionView {
            installAlongPartitions: Seq::empty(),
            system_storage_info: Seq::empty(),
            system_storage_info_current: Seq::empty(),
            ..self
        }
    }
}

impl Default for Partition {
    fn default() -> (r: Partition)
        ensures
            r@ == PartitionView::defaults(),
    {
        let r = Partition {
            device: String::new(),
            mode: String::new(),
            efi: false,
            swap: false,
            swap_size: String::new(),
            partitions: Json::Null,
            installAlongPartitions: Vec::new(),
            system_storage_info: Vec::new(),
            system_storage_info_current: Vec::new(),
            encrypt_check: false,
        };
        assert(r@.installAlongPartitions =~= Seq::empty());
        assert(r@.system_storage_info =~= Seq::empty());
        assert(r@.system_storage_info_current =~= Seq::empty());
        r
    }
}

impl Partition {
    /// Lays the members of `doc` over this layout.
    pub fn overlay(self, doc: &Json) -> (r: Result<Partition, LoadError>)
        ensures
            match self@.overlay(doc@) {
                Some(layout) => r matches Ok(p) && p@ == layout,
                None => r matches Err(LoadError::Mismatch),
            },
    {
        if !doc.is_object() {
            return Err(LoadError::Mismatch);
        }
        let device = match read_text(doc, "device", self.device) {
            Ok(x) => x,
            Err(_) => { return Err(LoadError::Mismatch); },
        };
        let mode = match read_text(doc, "mode", self.mode) {
            Ok(x) => x,
            Err(_) => { return Err(LoadError::Mismatch); },
        };
        let efi = match read_flag(doc, "efi", self.efi) {
            Ok(x) => x,
            Err(_) => { return Err(LoadError::Mismatch); },
        };
        let swap = match read_flag(doc, "swap", self.swap) {
            Ok(x) => x,
            Err(_) => { return Err(LoadError::Mismatch); },
        };
        let swap_size = match read_text(doc, "swap_size", self.swap_size) {
            Ok(x) => x,
            Err(_) => { return Err(LoadError::Mismatch); },
        };
        let along = match read_items(doc, "installAlongPartitions", self.installAlongPartitions) {
            Ok(x) => x,
            Err(_) => { return Err(LoadError::Mismatch); },
        };
        let before = match read_snapshots(doc, "system_storage_info", self.system_storage_info) {
            Ok(x) => x,
            Err(_) => { return Err(LoadError::Mismatch); },
        };
        let current = match read_snapshots(
            doc,
            "system_storage_info_current",
            self.system_storage_info_current,
        ) {
            Ok(x) => x,
            Err(_) => { return Err(LoadError::Mismatch); },
        };
        let encrypt_check = match read_flag(doc, "encrypt_check", self.encrypt_check) {
            Ok(x) => x,
            Err(_) => { return Err(LoadError::Mismatch); },
        };
        let partitions = read_open(doc, "partitions", self.partitions);
        Ok(
            Partition {
                device,
                mode,
                efi,
                swap,
                swap_size,
                partitions,
                installAlongPartitions: along,
                system_storage_info: before,
                system_storage_info_current: current,
                encrypt_check,
            },
        )
    }

    /// The document written for this layout.
    pub fn to_json(&self) -> (r: Json)
        ensures
            r@ == self@.encode(),
    {
        let head = Json::object().with("device", Json::String(self.device.clone())).with(
            "mode",
            Json::String(self.mode.clone()),
        ).with("efi", Json::Bool(self.efi)).with("swap", Json::Bool(self.swap));
        let sized = if is_default(&self.swap_size) {
            head
        } else {
            head.with("swap_size", Json::String(self.swap_size.clone()))
        };
        sized.with("partitions", self.partitions.clone()).with(
            "encrypt_check",
            Json::Bool(self.encrypt_check),
        )
    }

    /// The JSON text written for this layout.
    pub fn to_json_string(&self) -> (r: String)
        ensures
            r@ == crate::serde_specs::printed(self@.encode()),
    {
        self.to_json().to_text()
    }
}

} // verus!
