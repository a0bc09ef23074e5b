//! Type codes: the one-letter tokens that name a kind of entry, and how a
//! platform reads them.

use vstd::prelude::*;
use crate::kind::FileKind;

verus! {

/// The family of host that a matcher is built for. It decides which type
/// codes are accepted and is chosen where the program is built, not probed
/// while it runs.
#[derive(Clone, Copy, Debug, PartialEq, Eq, Structural)]
pub enum Platform {
    /// A host whose file system has block and character devices, named
    /// pipes and sockets.
    Unix,
    /// A host that knows regular files, directories and symbolic links
    /// only.
    Other,
}

impl Platform {
    /// Whether entries on this platform can be device nodes, named pipes or
    /// sockets.
    pub open spec fn has_special_files(self) -> bool {
        self is Unix
    }
}

/// The closed set of tests that a type code can select.
#[derive(Clone, Copy, Debug, PartialEq, Eq, Structural)]
pub enum TypeTest {
    IsFile,
    IsDir,
    IsSymlink,
    IsBlockDevice,
    IsCharDevice,
    IsFifo,
    IsSocket,
}

impl TypeTest {
    /// The one kind of entry that passes this test.
    pub open spec fn kind(self) -> FileKind {
        match self {
            TypeTest::IsFile => FileKind::RegularFile,
            TypeTest::IsDir => FileKind::Directory,
            TypeTest::IsSymlink => FileKind::Symlink,
            TypeTest::IsBlockDevice => FileKind::BlockDevice,
            TypeTest::IsCharDevice => FileKind::CharDevice,
            TypeTest::IsFifo => FileKind::Fifo,
            TypeTest::IsSocket => FileKind::Socket,
        }
    }

    /// Whether an entry of kind `kind` passes this test.
    pub open spec fn holds(self, kind: FileKind) -> bool {
        kind == self.kind()
    }

    /// The letter that selects this test.
    pub open spec fn letter(self) -> char {
        match self {
            TypeTest::IsFile => 'f',
            TypeTest::IsDir => 'd',
            TypeTest::IsSymlink => 'l',
            TypeTest::IsBlockDevice => 'b',
            TypeTest::IsCharDevice => 'c',
            TypeTest::IsFifo => 'p',
            TypeTest::IsSocket => 's',
        }
    }

    /// The type code that selects this test: its letter, alone.
    pub open spec fn code(self) -> Seq<char> {
        seq![self.letter()]
    }

    /// Whether entries on `platform` can pass this test at all.
    pub open spec fn available_on(self, platform: Platform) -> bool {
        match self {
            TypeTest::IsFile | TypeTest::IsDir | TypeTest::IsSymlink => true,
            _ => platform.has_special_files(),
        }
    }
}

/// What a token means to a platform.
pub enum CodeMeaning {
    /// The token is a type code of the platform and selects this test.
    Selects(TypeTest),
    /// The token names a kind of entry that is known but not implemented.
    Unsupported,
    /// The token is no type code of the platform.
    Unrecognized,
}

/// The letter that names a door, a kind of entry that only Solaris has.
pub open spec fn door_letter() -> char {
    'D'
}

/// Whether `a` and `b` are one ASCII letter in its two cases.
pub open spec fn other_case(a: char, b: char) -> bool {
    ||| 'a' <= a <= 'z' && a as u32 == b as u32 + 32
    ||| 'a' <= b <= 'z' && b as u32 == a as u32 + 32
}

/// The test that `letter` selects where every test is available, if it
/// selects one.
pub open spec fn test_of_letter(letter: char) -> Option<TypeTest> {
    if letter == 'f' {
        Some(TypeTest::IsFile)
    } else if letter == 'd' {
        Some(TypeTest::IsDir)
    } else if letter == 'l' {
        Some(TypeTest::IsSymlink)
    } else if letter == 'b' {
        Some(TypeTest::IsBlockDevice)
    } else if letter == 'c' {
        Some(TypeTest::IsCharDevice)
    } else if letter == 'p' {
        Some(TypeTest::IsFifo)
    } else if letter == 's' {
        Some(TypeTest::IsSocket)
    } else {
        None
    }
}

/// How `platform` reads a token that is the single character `letter`.
///
/// The letter of a test selects it where the platform has entries that can
/// pass it. The door's letter is known, and refused as unsupported, where
/// the platform has special files. Anything else is unrecognised.
pub open spec fn letter_meaning(platform: Platform, letter: char) -> CodeMeaning {
    match test_of_letter(letter) {
        Some(test) => if test.available_on(platform) {
            CodeMeaning::Selects(test)
        } else {
            CodeMeaning::Unrecognized
        },
        None => if letter == door_letter() && platform.has_special_files() {
            CodeMeaning::Unsupported
        } else {
            CodeMeaning::Unrecognized
        },
    }
}

/// How `platform` reads the token `code`.
///
/// A token is read as a whole and exactly as given: only a token of one
/// character can mean anything, and that character is looked up as it
/// stands, so neither a longer token that begins with a code nor a code in
/// the other case is one.
pub open spec fn code_meaning(platform: Platform, code: Seq<char>) -> CodeMeaning {
    if code.len() == 1 {
        letter_meaning(platform, code[0])
    } else {
        CodeMeaning::Unrecognized
    }
}

} // verus!
