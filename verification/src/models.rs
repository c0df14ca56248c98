//! Block devices as the REST interface of the control plane describes them.

use vstd::prelude::*;
use crate::text::texts;

verus! {

/// The filesystem found on a block device. A text is empty where the device
/// holds none.
#[derive(Debug, Clone, PartialEq, Eq)]
pub struct BlockDeviceFilesystem {
    /// Kind of filesystem.
    pub fstype: String,
    /// Volume label.
    pub label: String,
    /// Where the filesystem is mounted.
    pub mountpoint: String,
    /// UUID of the filesystem.
    pub uuid: String,
}

/// The partition that a block device is. A text is empty where the device is
/// no partition.
#[derive(Debug, Clone, PartialEq, Eq)]
pub struct BlockDevicePartition {
    /// Partition name.
    pub name: String,
    /// Partition number.
    pub number: i32,
    /// Name of the device that holds the partition.
    pub parent: String,
    /// Partition scheme, such as `gpt`.
    pub scheme: String,
    /// Identifier of the partition type.
    pub typeid: String,
    /// UUID of the partition.
    pub uuid: String,
}

/// A block device of a storage node.
#[derive(Debug, Clone, PartialEq, Eq)]
pub struct BlockDevice {
    /// Whether the device can be used for a pool.
    pub available: bool,
    /// The symlinks that lead to the device.
    pub devlinks: Vec<String>,
    /// Major device number.
    pub devmajor: i32,
    /// Minor device number.
    pub devminor: i32,
    /// Name of the device node.
    pub devname: String,
    /// Path of the device in the device tree.
    pub devpath: String,
    /// Kind of device: `disk`, `partition`, and so on.
    pub devtype: String,
    /// The filesystem on the device.
    pub filesystem: BlockDeviceFilesystem,
    /// Model of the device.
    pub model: String,
    /// The partition that the device is.
    pub partition: BlockDevicePartition,
    /// Size of the device in blocks.
    pub size: u64,
}

/// The filesystem of a block device, as texts.
#[verifier::ext_equal]
pub struct BlockDeviceFilesystemView {
    pub fstype: Seq<char>,
    pub label: Seq<char>,
    pub mountpoint: Seq<char>,
    pub uuid: Seq<char>,
}

/// The partition of a block device, as texts and plain values.
#[verifier::ext_equal]
pub struct BlockDevicePartitionView {
    pub name: Seq<char>,
    pub number: i32,
    pub parent: Seq<char>,
    pub scheme: Seq<char>,
    pub typeid: Seq<char>,
    pub uuid: Seq<char>,
}

/// A block device, as texts and plain values.
#[verifier::ext_equal]
pub struct BlockDeviceView {
    pub available: bool,
    pub devlinks: Seq<Seq<char>>,
    pub devmajor: i32,
    pub devminor: i32,
    pub devname: Seq<char>,
    pub devpath: Seq<char>,
    pub devtype: Seq<char>,
    pub filesystem: BlockDeviceFilesystemView,
    pub model: Seq<char>,
    pub partition: BlockDevicePartitionView,
    pub size: u64,
}

impl View for BlockDeviceFilesystem {
    type V = BlockDeviceFilesystemView;

    open spec fn view(&self) -> BlockDeviceFilesystemView {
        BlockDeviceFilesystemView {
            fstype: self.fstype@,
            label: self.label@,
            mountpoint: self.mountpoint@,
            uuid: self.uuid@,
        }
    }
}

impl View for BlockDevicePartition {
    type V = BlockDevicePartitionView;

    open spec fn view(&self) -> BlockDevicePartitionView {
        BlockDevicePartitionView {
            name: self.name@,
            number: self.number,
            parent: self.parent@,
            scheme: self.scheme@,
            typeid: self.typeid@,
            uuid: self.uuid@,
        }
    }
}

impl View for BlockDevice {
    type V = BlockDeviceView;

    open spec fn view(&self) -> BlockDeviceView {
        BlockDeviceView {
            available: self.available,
            devlinks: texts(self.devlinks@),
            devmajor: self.devmajor,
            devminor: self.devminor,
            devname: self.devname@,
            devpath: self.devpath@,
            devtype: self.devtype@,
            filesystem: self.filesystem@,
            model: self.model@,
            partition: self.partition@,
            size: self.size,
        }
    }
}

} // verus!
