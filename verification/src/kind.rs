//! The kinds of file-system entry that a type code can select.

use vstd::prelude::*;

verus! {

/// What an entry was found to be when the walk visited it.
///
/// The seven named kinds exclude each other. `Unknown` stands for anything
/// else a host may report; no type code selects it.
#[derive(Clone, Copy, Debug, PartialEq, Eq, Hash, Structural)]
pub enum FileKind {
    RegularFile,
    Directory,
    Symlink,
    BlockDevice,
    CharDevice,
    Fifo,
    Socket,
    Unknown,
}

/// The host's answers to the seven questions that tell the kinds apart, as
/// read from an entry's metadata. A host without device, FIFO and socket
/// nodes answers `false` to the last four.
#[derive(Clone, Copy, Debug, PartialEq, Eq, Structural)]
pub struct TypeAnswers {
    pub is_file: bool,
    pub is_dir: bool,
    pub is_symlink: bool,
    pub is_block_device: bool,
    pub is_char_device: bool,
    pub is_fifo: bool,
    pub is_socket: bool,
}

impl TypeAnswers {
    /// How many of the seven questions were answered with yes.
    pub open spec fn count(self) -> nat {
        let one = |b: bool| if b { 1nat } else { 0nat };
        one(self.is_file) + one(self.is_dir) + one(self.is_symlink) + one(self.is_block_device)
            + one(self.is_char_device) + one(self.is_fifo) + one(self.is_socket)
    }

    /// The answer that these answers give about `kind`; about `Unknown`,
    /// that every answer is no.
    pub open spec fn about(self, kind: FileKind) -> bool {
        match kind {
            FileKind::RegularFile => self.is_file,
            FileKind::Directory => self.is_dir,
            FileKind::Symlink => self.is_symlink,
            FileKind::BlockDevice => self.is_block_device,
            FileKind::CharDevice => self.is_char_device,
            FileKind::Fifo => self.is_fifo,
            FileKind::Socket => self.is_socket,
            FileKind::Unknown => self.count() == 0,
        }
    }

    /// The kind that these answers describe: the first question, in the
    /// order of the fields, that was answered with yes, and `Unknown` when
    /// none was.
    pub open spec fn kind(self) -> FileKind {
        if self.is_file {
            FileKind::RegularFile
        } else if self.is_dir {
            FileKind::Directory
        } else if self.is_symlink {
            FileKind::Symlink
        } else if self.is_block_device {
            FileKind::BlockDevice
        } else if self.is_char_device {
            FileKind::CharDevice
        } else if self.is_fifo {
            FileKind::Fifo
        } else if self.is_socket {
            FileKind::Socket
        } else {
            FileKind::Unknown
        }
    }
}

impl FileKind {
    /// Turns a host's answers into a kind.
    ///
    /// Hosts answer yes to one question at most, and then the kind is the
    /// one asked about. Should several answers be yes, the earliest in the
    /// order of the fields decides.
    pub fn from_answers(answers: TypeAnswers) -> (kind: FileKind)
        ensures
            kind == answers.kind(),
            answers.about(kind),
            answers.count() <= 1 ==> forall|other: FileKind|
                answers.about(other) <==> other == kind,
    {
        if answers.is_file {
            FileKind::RegularFile
        } else if answers.is_dir {
            FileKind::Directory
        } else if answers.is_symlink {
            FileKind::Symlink
        } else if answers.is_block_device {
            FileKind::BlockDevice
        } else if answers.is_char_device {
            FileKind::CharDevice
        } else if answers.is_fifo {
            FileKind::Fifo
        } else if answers.is_socket {
            FileKind::Socket
        } else {
            FileKind::Unknown
        }
    }

    /// Whether this is a regular file.
    pub fn is_file(&self) -> (b: bool)
        ensures
            b == (*self is RegularFile),
    {
        matches!(self, FileKind::RegularFile)
    }

    /// Whether this is a directory.
    pub fn is_dir(&self) -> (b: bool)
        ensures
            b == (*self is Directory),
    {
        matches!(self, FileKind::Directory)
    }

    /// Whether this is a symbolic link.
    pub fn is_symlink(&self) -> (b: bool)
        ensures
            b == (*self is Symlink),
    {
        matches!(self, FileKind::Symlink)
    }

    /// Whether this is a block device.
    pub fn is_block_device(&self) -> (b: bool)
        ensures
            b == (*self is BlockDevice),
    {
        matches!(self, FileKind::BlockDevice)
    }

    /// Whether this is a character device.
    pub fn is_char_device(&self) -> (b: bool)
        ensures
            b == (*self is CharDevice),
    {
        matches!(self, FileKind::CharDevice)
    }

    /// Whether this is a named pipe.
    pub fn is_fifo(&self) -> (b: bool)
        ensures
            b == (*self is Fifo),
    {
        matches!(self, FileKind::Fifo)
    }

    /// Whether this is a socket.
    pub fn is_socket(&self) -> (b: bool)
        ensures
            b == (*self is Socket),
    {
        matches!(self, FileKind::Socket)
    }
}

} // verus!
