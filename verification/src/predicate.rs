//! The matcher that selects entries by their kind.

use vstd::prelude::*;
use vstd::string::*;
use crate::code::{code_meaning, CodeMeaning, Platform, TypeTest};
use crate::entry::Entry;
use crate::error::ConstructionError;
use crate::kind::FileKind;
use crate::matcher::Matcher;

verus! {

impl TypeTest {
    /// Puts the test to the kind of an entry.
    pub fn apply(&self, file_type: &FileKind) -> (passed: bool)
        ensures
            passed == self.holds(*file_type),
    {
        match self {
            TypeTest::IsFile => file_type.is_file(),
            TypeTest::IsDir => file_type.is_dir(),
            TypeTest::IsSymlink => TypeMatcher::is_symlink(file_type),
            TypeTest::IsBlockDevice => file_type.is_block_device(),
            TypeTest::IsCharDevice => file_type.is_char_device(),
            TypeTest::IsFifo => file_type.is_fifo(),
            TypeTest::IsSocket => file_type.is_socket(),
        }
    }
}

/// This matcher checks the type of the file.
///
/// It holds the one test that its type code selected, and nothing can change
/// that test once the matcher is built.
#[derive(Debug)]
pub struct TypeMatcher {
    file_type_fn: TypeTest,
}

impl View for TypeMatcher {
    type V = TypeTest;

    closed spec fn view(&self) -> TypeTest {
        self.file_type_fn
    }
}

impl TypeMatcher {
    /// What building a matcher from the token `code` on `platform` gives:
    /// the matcher with the selected test, or the error for the token, which
    /// carries the token as it was given.
    pub open spec fn built_from(
        platform: Platform,
        code: Seq<char>,
        built: Result<TypeMatcher, ConstructionError>,
    ) -> bool {
        match code_meaning(platform, code) {
            CodeMeaning::Selects(test) => built is Ok && built->Ok_0@ == test,
            CodeMeaning::Unsupported => built matches Err(ConstructionError::UnsupportedType(token))
                && token@ == code,
            CodeMeaning::Unrecognized => built matches Err(
                ConstructionError::UnrecognizedType(token),
            ) && token@ == code,
        }
    }

    /// What building a boxed matcher from the token `code` on `platform`
    /// gives: a matcher that answers as the selected test does and hands
    /// every context back as it found it, or the error for the token.
    pub open spec fn boxed_from<C>(
        platform: Platform,
        code: Seq<char>,
        built: Result<Box<dyn Matcher<C>>, ConstructionError>,
    ) -> bool {
        match code_meaning(platform, code) {
            CodeMeaning::Selects(test) => {
                &&& built is Ok
                &&& forall|entry: &Entry, context: &C| #[trigger]
                    built->Ok_0.accepts(entry, context) == test.holds(entry@.kind)
                &&& forall|entry: &Entry, context: &C| #[trigger]
                    built->Ok_0.leaves(entry, context) == *context
            },
            CodeMeaning::Unsupported => built matches Err(ConstructionError::UnsupportedType(token))
                && token@ == code,
            CodeMeaning::Unrecognized => built matches Err(
                ConstructionError::UnrecognizedType(token),
            ) && token@ == code,
        }
    }

    /// Builds the matcher for a type code as a Unix host reads it.
    ///
    /// The codes are `f`, `d`, `l`, `b`, `c`, `p` and `s`. The door `D` is
    /// refused as not supported yet, every other token as unrecognised. No
    /// file system is touched.
    pub fn new(type_string: &str) -> (built: Result<TypeMatcher, ConstructionError>)
        ensures
            TypeMatcher::built_from(Platform::Unix, type_string@, built),
    {
        if type_string.unicode_len() != 1 {
            return Err(ConstructionError::UnrecognizedType(type_string.to_owned()));
        }
        let function = match type_string.get_char(0) {
            'f' => TypeTest::IsFile,
            'd' => TypeTest::IsDir,
            'l' => TypeTest::IsSymlink,
            'b' => TypeTest::IsBlockDevice,
            'c' => TypeTest::IsCharDevice,
            // named pipe (FIFO)
            'p' => TypeTest::IsFifo,
            's' => TypeTest::IsSocket,
            // door (Solaris)
            'D' => {
                return Err(ConstructionError::UnsupportedType(type_string.to_owned()));
            },
            _ => {
                return Err(ConstructionError::UnrecognizedType(type_string.to_owned()));
            },
        };
        Ok(TypeMatcher { file_type_fn: function })
    }

    /// Builds the matcher for a type code as `platform` reads it.
    ///
    /// A platform without special files accepts `f`, `d` and `l`. It refuses
    /// every other token as unrecognised, the codes of special files and the
    /// door's letter among them.
    pub fn new_on(platform: Platform, type_string: &str) -> (built: Result<
        TypeMatcher,
        ConstructionError,
    >)
        ensures
            TypeMatcher::built_from(platform, type_string@, built),
    {
        match platform {
            Platform::Unix => TypeMatcher::new(type_string),
            Platform::Other => {
                if type_string.unicode_len() != 1 {
                    return Err(ConstructionError::UnrecognizedType(type_string.to_owned()));
                }
                let function = match type_string.get_char(0) {
                    'f' => TypeTest::IsFile,
                    'd' => TypeTest::IsDir,
                    'l' => TypeTest::IsSymlink,
                    _ => {
                        return Err(ConstructionError::UnrecognizedType(type_string.to_owned()));
                    },
                };
                Ok(TypeMatcher { file_type_fn: function })
            },
        }
    }

    /// Whether an entry of this kind is itself a symbolic link.
    ///
    /// Links are never followed here. Whether the walk resolves them is the
    /// walk's decision, taken before the kind was recorded.
    pub fn is_symlink(file_type: &FileKind) -> (b: bool)
        ensures
            b == (*file_type is Symlink),
    {
        file_type.is_symlink()
    }

    /// Builds the matcher as `new` does and boxes it, for an evaluator that
    /// keeps matchers of many types side by side.
    pub fn new_box<C>(type_string: &str) -> (built: Result<Box<dyn Matcher<C>>, ConstructionError>)
        ensures
            TypeMatcher::boxed_from(Platform::Unix, type_string@, built),
    {
        TypeMatcher::new_box_on(Platform::Unix, type_string)
    }

    /// Builds the matcher as `new_on` does and boxes it.
    pub fn new_box_on<C>(platform: Platform, type_string: &str) -> (built: Result<
        Box<dyn Matcher<C>>,
        ConstructionError,
    >)
        ensures
            TypeMatcher::boxed_from(platform, type_string@, built),
    {
        match TypeMatcher::new_on(platform, type_string) {
            Ok(matcher) => {
                let boxed: Box<dyn Matcher<C>> = Box::new(matcher);
                let built = Ok(boxed);
                built
            },
            Err(error) => Err(error),
        }
    }
}

impl<C> Matcher<C> for TypeMatcher {
    open spec fn accepts(&self, entry: &Entry, context: &C) -> bool {
        self@.holds(entry@.kind)
    }

    open spec fn leaves(&self, entry: &Entry, context: &C) -> C {
        *context
    }

    /// Whether the entry is of the selected kind.
    ///
    /// The answer is read off the kind that the walk recorded. The context
    /// is neither read nor written.
    fn matches(&self, file_info: &Entry, context: &mut C) -> (matched: bool)
        ensures
            matched == self@.holds(file_info@.kind),
            *final(context) == *old(context),
    {
        self.file_type_fn.apply(&file_info.file_type())
    }
}

} // verus!
