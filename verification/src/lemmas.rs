//! What holds of type codes and of the matchers built from them, for every
//! token, platform and entry.

use vstd::prelude::*;
use crate::code::{code_meaning, door_letter, other_case, CodeMeaning, Platform, TypeTest};
use crate::entry::Entry;
use crate::error::ConstructionError;
use crate::kind::{FileKind, TypeAnswers};
use crate::matcher::Matcher;
use crate::predicate::TypeMatcher;

verus! {

/// A token selects a test exactly when it is, character for character, the
/// code of that test and the platform has entries that can pass it.
pub proof fn lemma_token_selects_by_exact_code(platform: Platform, code: Seq<char>, test: TypeTest)
    ensures
        code_meaning(platform, code) == CodeMeaning::Selects(test) <==> test.available_on(platform)
            && code =~= test.code(),
{
}

/// Building from the code of a test that the platform has succeeds, and the
/// matcher accepts the entries of that test's kind and no others.
pub proof fn lemma_supported_code_builds_exact_matcher(
    platform: Platform,
    test: TypeTest,
    built: Result<TypeMatcher, ConstructionError>,
    kind: FileKind,
)
    requires
        test.available_on(platform),
        TypeMatcher::built_from(platform, test.code(), built),
    ensures
        built is Ok,
        built->Ok_0@ == test,
        built->Ok_0@.holds(kind) <==> kind == test.kind(),
{
}

/// An entry is accepted under one code only: two matchers that accept
/// entries of the same kind were built from the same token, and no matcher
/// accepts an entry of unknown kind.
pub proof fn lemma_kind_matches_under_one_code(
    platform: Platform,
    first_code: Seq<char>,
    first: Result<TypeMatcher, ConstructionError>,
    second_code: Seq<char>,
    second: Result<TypeMatcher, ConstructionError>,
    kind: FileKind,
)
    requires
        TypeMatcher::built_from(platform, first_code, first),
        TypeMatcher::built_from(platform, second_code, second),
        first is Ok,
        second is Ok,
        first->Ok_0@.holds(kind),
        second->Ok_0@.holds(kind),
    ensures
        first_code =~= second_code,
        first->Ok_0@ == second->Ok_0@,
        kind != FileKind::Unknown,
{
}

/// A token is refused as unsupported exactly when it is the door's letter
/// and the platform has special files; every other refusal is of an
/// unrecognised token.
pub proof fn lemma_only_the_door_is_unsupported(platform: Platform, code: Seq<char>)
    ensures
        code_meaning(platform, code) is Unsupported <==> platform.has_special_files() && code
            =~= seq![door_letter()],
{
}

/// The empty token and every token of more than one character are
/// unrecognised on every platform.
pub proof fn lemma_only_single_letters_are_codes(platform: Platform, code: Seq<char>)
    requires
        code.len() != 1,
    ensures
        code_meaning(platform, code) is Unrecognized,
{
}

/// A code written in the other case is unrecognised. The one such token
/// that is read otherwise is the door's letter where the platform has
/// special files: it is the capital of the code for directories, and is
/// refused as unsupported.
pub proof fn lemma_other_case_is_unrecognised(platform: Platform, test: TypeTest, code: Seq<char>)
    requires
        test.available_on(platform),
        code.len() == 1,
        other_case(code[0], test.letter()),
        !(platform.has_special_files() && code[0] == door_letter()),
    ensures
        code_meaning(platform, code) is Unrecognized,
{
}

/// On a platform without special files the codes are `f`, `d` and `l`.
/// Every other token is unrecognised there: the codes of special files and
/// the door's letter are refused like any unknown token.
pub proof fn lemma_plain_platform_knows_three_codes(code: Seq<char>)
    ensures
        match code_meaning(Platform::Other, code) {
            CodeMeaning::Selects(test) => {
                &&& test is IsFile || test is IsDir || test is IsSymlink
                &&& code =~= test.code()
            },
            CodeMeaning::Unsupported => false,
            CodeMeaning::Unrecognized => !(code =~= seq!['f']) && !(code =~= seq!['d']) && !(code
                =~= seq!['l']),
        },
        forall|test: TypeTest|
            !test.available_on(Platform::Other) ==> code_meaning(
                Platform::Other,
                #[trigger] test.code(),
            ) is Unrecognized,
        code_meaning(Platform::Other, seq![door_letter()]) is Unrecognized,
{
}

/// A token that a platform without special files accepts means the same
/// where special files exist.
pub proof fn lemma_platforms_agree_on_plain_codes(code: Seq<char>)
    requires
        code_meaning(Platform::Other, code) is Selects,
    ensures
        code_meaning(Platform::Unix, code) == code_meaning(Platform::Other, code),
{
}

/// Boxing changes nothing: the boxed constructor succeeds on the tokens on
/// which the plain one does, the boxed matcher answers as the plain one and
/// leaves the context as the plain one does, and a refusal is the same error
/// about the same token.
pub proof fn lemma_boxed_matcher_is_the_plain_one<C>(
    platform: Platform,
    code: Seq<char>,
    plain: Result<TypeMatcher, ConstructionError>,
    boxed: Result<Box<dyn Matcher<C>>, ConstructionError>,
    entry: Entry,
    context: C,
)
    requires
        TypeMatcher::built_from(platform, code, plain),
        TypeMatcher::boxed_from(platform, code, boxed),
    ensures
        plain is Ok <==> boxed is Ok,
        plain is Ok ==> {
            &&& boxed->Ok_0.accepts(&entry, &context) == plain->Ok_0.accepts(&entry, &context)
            &&& boxed->Ok_0.leaves(&entry, &context) == plain->Ok_0.leaves(&entry, &context)
        },
        plain is Err ==> {
            &&& plain->Err_0 is UnsupportedType <==> boxed->Err_0 is UnsupportedType
            &&& plain->Err_0.spec_token() == boxed->Err_0.spec_token()
        },
{
}

/// Offering the same entry to the same matcher again gives the same answer:
/// the first offer hands the context back as it found it, and the second
/// answers as the first did.
pub proof fn lemma_matching_again_agrees<C>(matcher: TypeMatcher, entry: Entry, context: C)
    ensures
        matcher.leaves(&entry, &context) == context,
        matcher.accepts(&entry, &matcher.leaves(&entry, &context)) == matcher.accepts(
            &entry,
            &context,
        ),
{
}

/// The answer depends on the matcher and on the kind of the entry alone:
/// neither the entry's path nor anything in the context bears on it.
pub proof fn lemma_answer_depends_on_kind_alone<C>(
    matcher: TypeMatcher,
    entry: Entry,
    context: C,
    other_entry: Entry,
    other_context: C,
)
    requires
        other_entry@.kind == entry@.kind,
    ensures
        matcher.accepts(&other_entry, &other_context) == matcher.accepts(&entry, &context),
{
}

/// A matcher answers as the host does. Where the host said yes to one
/// question at most about an entry, the matcher built for a test accepts the
/// entry exactly when the host said yes to the question about the test's
/// kind.
pub proof fn lemma_matcher_answers_as_the_host(
    platform: Platform,
    test: TypeTest,
    built: Result<TypeMatcher, ConstructionError>,
    answers: TypeAnswers,
)
    requires
        test.available_on(platform),
        TypeMatcher::built_from(platform, test.code(), built),
        answers.count() <= 1,
    ensures
        built is Ok,
        built->Ok_0@.holds(answers.kind()) <==> answers.about(test.kind()),
{
}

} // verus!
