//! Regular expressions through the `regex` crate, and what the rest of the
//! library knows of their results.
use vstd::prelude::*;

verus! {

/// `regex::Regex`, a compiled regular expression, carried as an opaque value.
#[verifier::external_type_specification]
#[verifier::external_body]
pub struct ExRegex(regex::Regex);

/// `regex::Error`, why a pattern did not compile, carried as an opaque value.
#[verifier::external_type_specification]
#[verifier::external_body]
pub struct ExRegexError(regex::Error);

/// Whether `source` is accepted by `regex::Regex::new`.
pub uninterp spec fn regex_compiles(source: Seq<char>) -> bool;

/// What `regex::Regex::replace_all` makes of `haystack` for the compiled
/// `source`, with `replacement` expanded at each match.
pub uninterp spec fn regex_replaced(
    source: Seq<char>,
    haystack: Seq<char>,
    replacement: Seq<char>,
) -> Seq<char>;

/// The characters that have a meaning of their own in a regular expression.
pub open spec fn is_meta_character(c: char) -> bool {
    c == '\\' || c == '.' || c == '+' || c == '*' || c == '?' || c == '(' || c == ')' || c
        == '|' || c == '[' || c == ']' || c == '{' || c == '}' || c == '^' || c == '$' || c
        == '#' || c == '&' || c == '-' || c == '~'
}

/// `s` with a backslash before each meta character: a regular expression
/// that stands for `s` itself.
pub open spec fn escaped(s: Seq<char>) -> Seq<char>
    decreases s.len(),
{
    if s.len() == 0 {
        Seq::empty()
    } else if is_meta_character(s[0]) {
        seq!['\\', s[0]] + escaped(s.drop_first())
    } else {
        seq![s[0]] + escaped(s.drop_first())
    }
}

/// Whether `pattern` occurs in `haystack` as a run of consecutive characters.
pub open spec fn occurs_in(haystack: Seq<char>, pattern: Seq<char>) -> bool {
    exists|i: int|
        0 <= i && i + pattern.len() <= haystack.len() && #[trigger] haystack.subrange(
            i,
            i + pattern.len(),
        ) == pattern
}

/// `haystack` with each occurrence of `pattern`, taken from the left and
/// without overlap, replaced by `replacement`. An empty pattern occurs before
/// each character and at the end.
pub open spec fn literal_replaced(
    haystack: Seq<char>,
    pattern: Seq<char>,
    replacement: Seq<char>,
) -> Seq<char>
    decreases haystack.len(),
{
    if pattern.len() == 0 {
        if haystack.len() == 0 {
            replacement
        } else {
            replacement + seq![haystack[0]] + literal_replaced(
                haystack.drop_first(),
                pattern,
                replacement,
            )
        }
    } else if haystack.len() < pattern.len() {
        haystack
    } else if haystack.subrange(0, pattern.len() as int) == pattern {
        replacement + literal_replaced(
            haystack.subrange(pattern.len() as int, haystack.len() as int),
            pattern,
            replacement,
        )
    } else {
        seq![haystack[0]] + literal_replaced(haystack.drop_first(), pattern, replacement)
    }
}

/// Where a pattern does not occur, replacing it leaves the text as it is.
pub proof fn lemma_absent_pattern_keeps_text(
    haystack: Seq<char>,
    pattern: Seq<char>,
    replacement: Seq<char>,
)
    requires
        !occurs_in(haystack, pattern),
    ensures
        literal_replaced(haystack, pattern, replacement) == haystack,
    decreases haystack.len(),
{
    if pattern.len() == 0 {
        assert(haystack.subrange(0, 0) == pattern);
    } else if haystack.len() < pattern.len() {
    } else {
        let n = pattern.len() as int;
        if haystack.subrange(0, n) == pattern {
            assert(haystack.subrange(0, 0 + n) == pattern);
        }
        let rest = haystack.drop_first();
        assert forall|i: int| 0 <= i && i + n <= rest.len() implies #[trigger] rest.subrange(
            i,
            i + n,
        ) != pattern by {
            assert(rest.subrange(i, i + n) =~= haystack.subrange(i + 1, i + 1 + n));
        }
        lemma_absent_pattern_keeps_text(rest, pattern, replacement);
        assert(seq![haystack[0]] + rest =~= haystack);
    }
}

/// A compiled regular expression, with the text it was compiled from.
pub struct CompiledRegex {
    re: regex::Regex,
    source: Ghost<Seq<char>>,
}

impl View for CompiledRegex {
    type V = Seq<char>;

    closed spec fn view(&self) -> Seq<char> {
        self.source@
    }
}

/// Relies on `regex::Regex::new`: it succeeds or fails on the pattern alone.
#[verifier::external_body]
pub(crate) fn compile(source: &str) -> (r: Result<CompiledRegex, regex::Error>)
    ensures
        r is Ok <==> regex_compiles(source@),
        r matches Ok(c) ==> c@ == source@,
{
    match regex::Regex::new(source) {
        Ok(re) => Ok(CompiledRegex { re, source: Ghost(source@) }),
        Err(e) => Err(e),
    }
}

/// Relies on `regex::escape`: a backslash goes before each meta character.
#[verifier::external_body]
pub(crate) fn escape(s: &str) -> (r: String)
    ensures
        r@ == escaped(s@),
{
    regex::escape(s)
}

/// Relies on `regex::Regex::replace_all` with a `&str` replacement, in which
/// `$name` and `${name}` stand for capture groups of the match.
#[verifier::external_body]
pub(crate) fn replace_expanding(re: &CompiledRegex, haystack: &str, replacement: &str) -> (r:
    String)
    ensures
        r@ == regex_replaced(re@, haystack@, replacement@),
{
    re.re.replace_all(haystack, replacement).into_owned()
}

/// Relies on `regex::Regex::replace_all` with `regex::NoExpand`, on a pattern
/// made by `regex::escape`: it matches its text literally, leftmost first and
/// without overlap, and each match gives way to the replacement as it stands.
#[verifier::external_body]
pub(crate) fn replace_literally(re: &CompiledRegex, haystack: &str, replacement: &str) -> (r:
    String)
    ensures
        forall|p: Seq<char>|
            re@ == #[trigger] escaped(p) ==> r@ == literal_replaced(haystack@, p, replacement@),
{
    re.re.replace_all(haystack, regex::NoExpand(replacement)).into_owned()
}

} // verus!
