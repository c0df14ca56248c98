//! The listing of a storage node's block devices, as rows of a table.

use vstd::prelude::*;
use vstd::string::StringExecFns;
use crate::models;
use crate::models::{BlockDevicePartitionView, BlockDeviceView};
use crate::text::{decimal, decimal_string, join_quoted, join_quoted_string, signed_decimal, signed_decimal_string, texts};

verus! {

/// Identifier of a storage node.
pub type NodeId = String;

/// A row of a table: one text for each column.
pub type Row = Vec<String>;

/// Blockdevice resource.
#[derive(Debug)]
pub struct BlockDevice {}

/// A block device in the listing of all devices of a node.
#[derive(Clone, Debug)]
pub struct BlockDeviceAll(pub models::BlockDevice);

/// A block device in the listing of the usable devices of a node.
#[derive(Clone, Debug)]
pub struct BlockDeviceUsable(pub models::BlockDevice);

/// BlockDevice args
#[derive(Debug, Clone)]
pub struct BlockDeviceArgs {
    /// Id of the node
    node_id: NodeId,
    /// Shows all devices if invoked
    all: bool,
}

/// A table: the titles of its columns, and its rows.
#[derive(Debug)]
pub struct Table {
    /// The titles of the columns.
    pub header: Row,
    /// The rows, each with a text for every column.
    pub rows: Vec<Row>,
}

/// The texts of the rows of a table.
pub open spec fn rows_text(rows: Seq<Row>) -> Seq<Seq<Seq<char>>> {
    rows.map_values(|row: Row| texts(row@))
}

/// What the listing shows for the availability of a device.
pub open spec fn availability(available: bool) -> Seq<char> {
    if available {
        "yes"@
    } else {
        "no"@
    }
}

/// The partition type as the listing shows it: scheme and type identifier
/// with a colon between them, or nothing where either is missing.
pub open spec fn partition_type(partition: BlockDevicePartitionView) -> Seq<char> {
    if partition.scheme.len() > 0 && partition.typeid.len() > 0 {
        partition.scheme + ":"@ + partition.typeid
    } else {
        Seq::empty()
    }
}

/// The row of a device in the listing of all devices.
pub open spec fn all_cells(device: BlockDeviceView) -> Seq<Seq<char>> {
    seq![
        device.devname,
        device.devtype,
        decimal(device.size as nat),
        availability(device.available),
        device.model,
        device.devpath,
        signed_decimal(device.devmajor as int),
        signed_decimal(device.devminor as int),
        device.filesystem.fstype,
        device.filesystem.uuid,
        device.filesystem.mountpoint,
        partition_type(device.partition),
        join_quoted(device.devlinks),
    ]
}

/// The row of a device in the listing of usable devices.
pub open spec fn usable_cells(device: BlockDeviceView) -> Seq<Seq<char>> {
    seq![
        device.devname,
        device.devtype,
        decimal(device.size as nat),
        availability(device.available),
        device.model,
        device.devpath,
        signed_decimal(device.devmajor as int),
        signed_decimal(device.devminor as int),
        join_quoted(device.devlinks),
    ]
}

/// The column titles of the listing of all devices.
pub open spec fn all_titles() -> Seq<Seq<char>> {
    seq![
        "DEVNAME"@,
        "DEVTYPE"@,
        "SIZE"@,
        "AVAILABLE"@,
        "MODEL"@,
        "DEVPATH"@,
        "MAJOR"@,
        "MINOR"@,
        "FSTYPE"@,
        "FSUUID"@,
        "MOUNTPOINT"@,
        "PARTTYPE"@,
        "DEVLINKS"@,
    ]
}

/// The column titles of the listing of usable devices.
pub open spec fn usable_titles() -> Seq<Seq<char>> {
    seq![
        "DEVNAME"@,
        "DEVTYPE"@,
        "SIZE"@,
        "AVAILABLE"@,
        "MODEL"@,
        "DEVPATH"@,
        "MAJOR"@,
        "MINOR"@,
        "DEVLINKS"@,
    ]
}

/// What can be shown as rows of a table.
pub trait CreateRows {
    /// The texts of the rows.
    spec fn rows(&self) -> Seq<Seq<Seq<char>>>;

    /// The rows that show the value.
    fn create_rows(&self) -> (rows: Vec<Row>)
        ensures
            rows_text(rows@) == self.rows(),
    ;
}

/// What knows the column titles of the table that shows it.
pub trait GetHeaderRow {
    /// The texts of the column titles.
    spec fn header(&self) -> Seq<Seq<char>>;

    /// The column titles.
    fn get_header_row(&self) -> (row: Row)
        ensures
            texts(row@) == self.header(),
    ;
}

impl BlockDeviceArgs {
    /// Arguments that ask for the devices of a node: all of them, or only the
    /// usable ones.
    pub fn new(node_id: NodeId, all: bool) -> (args: Self)
        ensures
            args.spec_node_id() == node_id,
            args.spec_all() == all,
    {
        BlockDeviceArgs { node_id, all }
    }

    /// The node whose devices are asked for.
    pub closed spec fn spec_node_id(&self) -> NodeId {
        self.node_id
    }

    /// Whether all devices are asked for, not only the usable ones.
    pub closed spec fn spec_all(&self) -> bool {
        self.all
    }

    /// get the node id
    pub fn node_id(&self) -> (id: NodeId)
        ensures
            id == self.spec_node_id(),
    {
        self.node_id.clone()
    }

    /// get the all value
    #[verifier::when_used_as_spec(spec_all)]
    pub fn all(&self) -> (all: bool)
        ensures
            all == self.spec_all(),
    {
        self.all
    }
}

fn availability_string(available: bool) -> (text: String)
    ensures
        text@ == availability(available),
{
    if available {
        String::from_str("yes")
    } else {
        String::from_str("no")
    }
}

/// The partition type of a device as the listing shows it.
pub fn get_partition_type(partition: &models::BlockDevicePartition) -> (text: String)
    ensures
        text@ == partition_type(partition@),
{
    if !partition.scheme.as_str().is_empty() && !partition.typeid.as_str().is_empty() {
        return partition.scheme.clone().concat(":").concat(partition.typeid.as_str());
    }
    String::new()
}

fn all_row(device: &models::BlockDevice) -> (row: Row)
    ensures
        texts(row@) == all_cells(device@),
{
    let mut row: Row = Vec::new();
    row.push(device.devname.clone());
    row.push(device.devtype.clone());
    row.push(decimal_string(device.size));
    row.push(availability_string(device.available));
    row.push(device.model.clone());
    row.push(device.devpath.clone());
    row.push(signed_decimal_string(device.devmajor));
    row.push(signed_decimal_string(device.devminor));
    row.push(device.filesystem.fstype.clone());
    row.push(device.filesystem.uuid.clone());
    row.push(device.filesystem.mountpoint.clone());
    row.push(get_partition_type(&device.partition));
    row.push(join_quoted_string(&device.devlinks));
    row
}

fn usable_row(device: &models::BlockDevice) -> (row: Row)
    ensures
        texts(row@) == usable_cells(device@),
{
    let mut row: Row = Vec::new();
    row.push(device.devname.clone());
    row.push(device.devtype.clone());
    row.push(decimal_string(device.size));
    row.push(availability_string(device.available));
    row.push(device.model.clone());
    row.push(device.devpath.clone());
    row.push(signed_decimal_string(device.devmajor));
    row.push(signed_decimal_string(device.devminor));
    row.push(join_quoted_string(&device.devlinks));
    row
}

fn titles(all: bool) -> (row: Row)
    ensures
        texts(row@) == if all {
            all_titles()
        } else {
            usable_titles()
        },
{
    let mut row: Row = Vec::new();
    row.push(String::from_str("DEVNAME"));
    row.push(String::from_str("DEVTYPE"));
    row.push(String::from_str("SIZE"));
    row.push(String::from_str("AVAILABLE"));
    row.push(String::from_str("MODEL"));
    row.push(String::from_str("DEVPATH"));
    row.push(String::from_str("MAJOR"));
    row.push(String::from_str("MINOR"));
    if all {
        row.push(String::from_str("FSTYPE"));
        row.push(String::from_str("FSUUID"));
        row.push(String::from_str("MOUNTPOINT"));
        row.push(String::from_str("PARTTYPE"));
    }
    row.push(String::from_str("DEVLINKS"));
    row
}

impl CreateRows for BlockDeviceAll {
    open spec fn rows(&self) -> Seq<Seq<Seq<char>>> {
        seq![all_cells(self.0@)]
    }

    fn create_rows(&self) -> (rows: Vec<Row>) {
        let mut rows: Vec<Row> = Vec::new();
        rows.push(all_row(&self.0));
        rows
    }
}

impl CreateRows for BlockDeviceUsable {
    open spec fn rows(&self) -> Seq<Seq<Seq<char>>> {
        seq![usable_cells(self.0@)]
    }

    fn create_rows(&self) -> (rows: Vec<Row>) {
        let mut rows: Vec<Row> = Vec::new();
        rows.push(usable_row(&self.0));
        rows
    }
}

impl GetHeaderRow for BlockDeviceAll {
    open spec fn header(&self) -> Seq<Seq<char>> {
        all_titles()
    }

    fn get_header_row(&self) -> (row: Row) {
        titles(true)
    }
}

impl GetHeaderRow for BlockDeviceUsable {
    open spec fn header(&self) -> Seq<Seq<char>> {
        usable_titles()
    }

    fn get_header_row(&self) -> (row: Row) {
        titles(false)
    }
}

/// The rows of the listing of some devices: one row for each device, in the
/// order of the devices.
pub open spec fn listing(devices: Seq<BlockDeviceView>, all: bool) -> Seq<Seq<Seq<char>>> {
    Seq::new(
        devices.len(),
        |i: int|
            if all {
                all_cells(devices[i])
            } else {
                usable_cells(devices[i])
            },
    )
}

/// The views of the devices of a list.
pub open spec fn device_views(devices: Seq<models::BlockDevice>) -> Seq<BlockDeviceView> {
    devices.map_values(|device: models::BlockDevice| device@)
}

impl BlockDevice {
    /// The table that lists the block devices of a node: with every column
    /// where `all` is set, with the columns of a usable device where it is
    /// not.
    pub fn get_blockdevices(blockdevices: &Vec<models::BlockDevice>, all: bool) -> (table: Table)
        ensures
            texts(table.header@) == if all {
                all_titles()
            } else {
                usable_titles()
            },
            rows_text(table.rows@) == listing(device_views(blockdevices@), all),
    {
        let mut rows: Vec<Row> = Vec::new();
        let mut index: usize = 0;
        while index < blockdevices.len()
            invariant
                index <= blockdevices.len(),
                rows.len() == index,
                forall|k: int|
                    0 <= k < index ==> texts(#[trigger] rows@[k]@) == if all {
                        all_cells(blockdevices@[k]@)
                    } else {
                        usable_cells(blockdevices@[k]@)
                    },
            decreases blockdevices.len() - index,
        {
            let row = if all {
                all_row(&blockdevices[index])
            } else {
                usable_row(&blockdevices[index])
            };
            rows.push(row);
            index += 1;
        }
        Table { header: titles(all), rows }
    }
}

/// Every row of a listing has a text for each title of its table.
pub proof fn lemma_listing_fits_titles(devices: Seq<BlockDeviceView>, all: bool, row: int)
    requires
        0 <= row < devices.len(),
    ensures
        listing(devices, all)[row].len() == if all {
            all_titles().len()
        } else {
            usable_titles().len()
        },
{
}

} // verus!
