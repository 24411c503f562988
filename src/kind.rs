use crate::style::{Hue, Style};
use vstd::prelude::*;

verus! {

/// The kind of a filesystem entry, as the listing names it.
#[derive(Clone, Copy, Debug, PartialEq, Eq, Structural)]
pub enum FileKind {
    Directory,
    Symlink,
    Socket,
    BlockDevice,
    File,
    Unknown,
}

/// The kind given by the type tests, taken in the fixed order directory,
/// symlink, socket, block device, regular file.
pub open spec fn kind_of(
    is_dir: bool,
    is_symlink: bool,
    is_socket: bool,
    is_block_device: bool,
    is_file: bool,
) -> FileKind {
    if is_dir {
        FileKind::Directory
    } else if is_symlink {
        FileKind::Symlink
    } else if is_socket {
        FileKind::Socket
    } else if is_block_device {
        FileKind::BlockDevice
    } else if is_file {
        FileKind::File
    } else {
        FileKind::Unknown
    }
}

pub open spec fn kind_label(k: FileKind) -> Seq<char> {
    match k {
        FileKind::Directory => "directory"@,
        FileKind::Symlink => "symlink"@,
        FileKind::Socket => "socket"@,
        FileKind::BlockDevice => "disk"@,
        FileKind::File => "file"@,
        FileKind::Unknown => "unknown"@,
    }
}

pub open spec fn kind_style(k: FileKind) -> Style {
    match k {
        FileKind::Directory => Style { fg: Some(Hue::Blue), bg: None, bold: false },
        FileKind::Symlink => Style { fg: Some(Hue::Cyan), bg: None, bold: false },
        FileKind::Socket => Style { fg: Some(Hue::White), bg: None, bold: false },
        FileKind::BlockDevice => Style { fg: None, bg: None, bold: false },
        FileKind::File => Style { fg: Some(Hue::Yellow), bg: None, bold: false },
        FileKind::Unknown => Style { fg: None, bg: Some(Hue::Black), bold: false },
    }
}

impl FileKind {
    /// Classifies an entry from the answers of the platform's type tests.
    /// The first test that holds, in the order of the parameters, decides.
    pub fn classify(
        is_dir: bool,
        is_symlink: bool,
        is_socket: bool,
        is_block_device: bool,
        is_file: bool,
    ) -> (r: FileKind)
        ensures
            r == kind_of(is_dir, is_symlink, is_socket, is_block_device, is_file),
    {
        if is_dir {
            FileKind::Directory
        } else if is_symlink {
            FileKind::Symlink
        } else if is_socket {
            FileKind::Socket
        } else if is_block_device {
            FileKind::BlockDevice
        } else if is_file {
            FileKind::File
        } else {
            FileKind::Unknown
        }
    }

    /// The word that the listing shows for this kind.
    pub fn label(&self) -> (r: &'static str)
        ensures
            r@ == kind_label(*self),
    {
        match self {
            FileKind::Directory => "directory",
            FileKind::Symlink => "symlink",
            FileKind::Socket => "socket",
            FileKind::BlockDevice => "disk",
            FileKind::File => "file",
            FileKind::Unknown => "unknown",
        }
    }

    /// The style in which the label is shown on a terminal.
    pub fn style(&self) -> (r: Style)
        ensures
            r == kind_style(*self),
    {
        match self {
            FileKind::Directory => Style { fg: Some(Hue::Blue), bg: None, bold: false },
            FileKind::Symlink => Style { fg: Some(Hue::Cyan), bg: None, bold: false },
            FileKind::Socket => Style { fg: Some(Hue::White), bg: None, bold: false },
            FileKind::BlockDevice => Style { fg: None, bg: None, bold: false },
            FileKind::File => Style { fg: Some(Hue::Yellow), bg: None, bold: false },
            FileKind::Unknown => Style { fg: None, bg: Some(Hue::Black), bold: false },
        }
    }
}

} // verus!
