//! Drive configuration.

use vstd::prelude::*;

use crate::config::Builder;

verus! {

/// The mathematical content of a [`Drive`].
pub struct DriveView {
    /// The drive ID.
    pub drive_id: Seq<char>,
    /// Whether the drive is read-only.
    pub is_read_only: bool,
    /// Whether the drive is the root device.
    pub is_root_device: bool,
    /// The id of the boot partition, if one was set.
    pub part_uuid: Option<Seq<char>>,
    /// The host-side path of the drive image.
    pub src_path: Seq<char>,
}

/// Drive configuration.
#[derive(Debug)]
pub struct Drive {
    drive_id: String,
    is_read_only: bool,
    is_root_device: bool,
    part_uuid: Option<String>,
    src_path: String,
}

impl View for Drive {
    type V = DriveView;

    closed spec fn view(&self) -> DriveView {
        DriveView {
            drive_id: self.drive_id@,
            is_read_only: self.is_read_only,
            is_root_device: self.is_root_device,
            part_uuid: match self.part_uuid {
                Some(s) => Some(s@),
                None => None,
            },
            src_path: self.src_path@,
        }
    }
}

impl Drive {
    /// The drive ID.
    pub fn drive_id(&self) -> (r: &str)
        ensures
            r@ == self@.drive_id,
    {
        self.drive_id.as_str()
    }

    /// If the drive is read-only.
    pub fn is_read_only(&self) -> (r: bool)
        ensures
            r == self@.is_read_only,
    {
        self.is_read_only
    }

    /// If the drive is the root device.
    pub fn is_root_device(&self) -> (r: bool)
        ensures
            r == self@.is_root_device,
    {
        self.is_root_device
    }

    /// The unique id of the boot partition of this device.
    pub fn part_uuid(&self) -> (r: Option<&str>)
        ensures
            (r is Some) == (self@.part_uuid is Some),
            r matches Some(s) ==> Some(s@) == self@.part_uuid,
    {
        match &self.part_uuid {
            Some(s) => Some(s.as_str()),
            None => None,
        }
    }

    /// The source path for the guest drive.
    ///
    /// This is the path given by the application. The drive image is copied
    /// into the chroot workspace when the machine is created.
    pub fn src_path(&self) -> (r: &str)
        ensures
            r@ == self@.src_path,
    {
        self.src_path.as_str()
    }
}

/// Builder for `Drive`.
#[derive(Debug)]
pub struct DriveBuilder {
    config_builder: Builder,
    drive: Drive,
}

/// The mathematical content of a [`DriveBuilder`].
pub struct DriveBuilderView {
    /// The drive under construction.
    pub drive: DriveView,
    /// The parent configuration builder.
    pub parent: <Builder as View>::V,
}

impl View for DriveBuilder {
    type V = DriveBuilderView;

    closed spec fn view(&self) -> DriveBuilderView {
        DriveBuilderView { drive: self.drive@, parent: self.config_builder@ }
    }
}

impl DriveBuilder {
    pub(crate) fn new(config_builder: Builder, drive_id: &str, src_path: &str) -> (r: Self)
        ensures
            r@.parent == config_builder@,
            r@.drive == (DriveView {
                drive_id: drive_id@,
                is_read_only: false,
                is_root_device: false,
                part_uuid: None,
                src_path: src_path@,
            }),
    {
        Self {
            config_builder,
            drive: Drive {
                drive_id: drive_id.to_owned(),
                is_read_only: false,
                is_root_device: false,
                part_uuid: None,
                src_path: src_path.to_owned(),
            },
        }
    }

    /// If the to-be-created `Drive` will be read-only.
    pub fn is_read_only(self, is_read_only: bool) -> (r: Self)
        ensures
            r@.parent == self@.parent,
            r@.drive == (DriveView { is_read_only, ..self@.drive }),
    {
        let mut this = self;
        this.drive.is_read_only = is_read_only;
        this
    }

    /// If the to-be-created `Drive` will be the root device.
    pub fn is_root_device(self, is_root_device: bool) -> (r: Self)
        ensures
            r@.parent == self@.parent,
            r@.drive == (DriveView { is_root_device, ..self@.drive }),
    {
        let mut this = self;
        this.drive.is_root_device = is_root_device;
        this
    }

    /// Set the unique id of the boot partition of this device.
    ///
    /// It is optional and taken into account only on the root device.
    pub fn part_uuid(self, part_uuid: Option<&str>) -> (r: Self)
        ensures
            r@.parent == self@.parent,
            r@.drive.part_uuid == (match part_uuid {
                Some(s) => Some(s@),
                None => None::<Seq<char>>,
            }),
            r@.drive == (DriveView { part_uuid: r@.drive.part_uuid, ..self@.drive }),
    {
        let mut this = self;
        this.drive.part_uuid = match part_uuid {
            Some(s) => Some(s.to_owned()),
            None => None,
        };
        this
    }

    /// Build the `Drive`.
    ///
    /// Returns the main configuration builder with the new drive added.
    pub fn build(self) -> (r: Builder)
        ensures
            r@ == self@.parent.with_drives(self@.parent.drives.push(self@.drive)),
    {
        let mut this = self;
        this.config_builder.push_drive(this.drive);
        this.config_builder
    }
}

} // verus!
