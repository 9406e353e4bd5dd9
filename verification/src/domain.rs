use vstd::prelude::*;

verus! {

broadcast use vstd::string::group_string_axioms;

/// Names longer than this many extended grapheme clusters are refused.
pub const MAX_NAME_GRAPHEMES: usize = 256;

/// The characters with the Unicode `White_Space` property (PropList.txt):
/// the ones `char::is_whitespace` and `str::trim` treat as whitespace.
pub open spec fn is_whitespace(c: char) -> bool {
    let u = c as u32;
    ||| 0x09 <= u <= 0x0D
    ||| u == 0x20
    ||| u == 0x85
    ||| u == 0xA0
    ||| u == 0x1680
    ||| 0x2000 <= u <= 0x200A
    ||| u == 0x2028
    ||| u == 0x2029
    ||| u == 0x202F
    ||| u == 0x205F
    ||| u == 0x3000
}

/// Characters that may not appear in a subscriber's name.
pub open spec fn is_forbidden_name_char(c: char) -> bool {
    c == '/' || c == '(' || c == ')' || c == '"' || c == '<' || c == '>' || c == '\\' || c == '{'
        || c == '}'
}

/// Empty, or nothing but whitespace: what `trim()` turns into "".
pub open spec fn is_empty_or_whitespace(s: Seq<char>) -> bool {
    forall|i: int| 0 <= i < s.len() ==> is_whitespace(#[trigger] s[i])
}

/// Some character of `s` is one a name may not hold.
pub open spec fn contains_forbidden_characters(s: Seq<char>) -> bool {
    exists|i: int| 0 <= i < s.len() && is_forbidden_name_char(#[trigger] s[i])
}

/// The number of extended grapheme clusters of `s`, as
/// `unicode_segmentation::UnicodeSegmentation::graphemes(s, true).count()`
/// gives it.
pub uninterp spec fn extended_grapheme_count(s: Seq<char>) -> nat;

/// Whether `validator::validate_email` accepts `s`.
pub uninterp spec fn accepted_email(s: Seq<char>) -> bool;

/// The rules a subscriber's name must follow.
pub open spec fn is_valid_subscriber_name(s: Seq<char>) -> bool {
    &&& !is_empty_or_whitespace(s)
    &&& extended_grapheme_count(s) <= MAX_NAME_GRAPHEMES
    &&& !contains_forbidden_characters(s)
}

/// A name valid by a check that needs no grapheme count: it is not blank,
/// holds no forbidden character, and has no more characters than the
/// grapheme limit (clusters are never more than characters).
pub open spec fn is_short_valid_name(s: Seq<char>) -> bool {
    &&& s.len() <= MAX_NAME_GRAPHEMES
    &&& !is_empty_or_whitespace(s)
    &&& !contains_forbidden_characters(s)
}

/// The message a refused name is answered with.
pub open spec fn name_error_message(s: Seq<char>) -> Seq<char> {
    s + " is not a valid subscriber name."@
}

/// The message a refused email address is answered with.
pub open spec fn email_error_message(s: Seq<char>) -> Seq<char> {
    s + " is not a valid subscriber email."@
}

/// `unicode_segmentation::UnicodeSegmentation::graphemes(s, true).count()`:
/// the number of extended grapheme clusters of `s`, named and not stated.
/// The clusters cut `s` into non-empty runs of characters, so there are no
/// more of them than characters, and at least one in a non-empty string.
#[verifier::external_body]
fn count_graphemes(s: &str) -> (n: usize)
    ensures
        n == extended_grapheme_count(s@),
        n <= s@.len(),
        s@.len() > 0 ==> n >= 1,
{
    unicode_segmentation::UnicodeSegmentation::graphemes(s, true).count()
}

/// `validator::validate_email` (0.16): whether `s` has the shape of an email
/// address. What it accepts is named, not stated; its source returns `false`
/// at once on an input without `@`, so an accepted input holds one.
#[verifier::external_body]
fn validate_email(s: &str) -> (ok: bool)
    ensures
        ok == accepted_email(s@),
        ok ==> s@.contains('@'),
{
    validator::validate_email(s)
}

/// `char::is_whitespace`, checked against the `White_Space` list.
fn is_whitespace_char(c: char) -> (r: bool)
    ensures
        r == is_whitespace(c),
{
    ('\u{09}' <= c && c <= '\u{0D}') || c == ' ' || c == '\u{85}' || c == '\u{A0}' || c
        == '\u{1680}' || ('\u{2000}' <= c && c <= '\u{200A}') || c == '\u{2028}' || c
        == '\u{2029}' || c == '\u{202F}' || c == '\u{205F}' || c == '\u{3000}'
}

fn is_forbidden_char(c: char) -> (r: bool)
    ensures
        r == is_forbidden_name_char(c),
{
    c == '/' || c == '(' || c == ')' || c == '"' || c == '<' || c == '>' || c == '\\' || c == '{'
        || c == '}'
}

/// Whether `s.trim()` would be empty.
fn empty_or_whitespace(s: &str) -> (r: bool)
    ensures
        r == is_empty_or_whitespace(s@),
{
    let mut all_blank = true;
    for c in it: s.chars()
        invariant
            it.seq() == s@,
            all_blank == (forall|j: int| 0 <= j < it.index() ==> is_whitespace(#[trigger] s@[j])),
    {
        if !is_whitespace_char(c) {
            all_blank = false;
        }
    }
    all_blank
}

/// Whether any character of `s` is one a name may not hold.
fn has_forbidden_characters(s: &str) -> (r: bool)
    ensures
        r == contains_forbidden_characters(s@),
{
    let mut found = false;
    for c in it: s.chars()
        invariant
            it.seq() == s@,
            found == (exists|j: int| 0 <= j < it.index() && is_forbidden_name_char(#[trigger] s@[j])),
    {
        if is_forbidden_char(c) {
            found = true;
        }
    }
    found
}

/// A subscriber's name that follows the rules of `is_valid_subscriber_name`.
pub struct SubscriberName(String);

impl View for SubscriberName {
    type V = Seq<char>;

    closed spec fn view(&self) -> Seq<char> {
        self.0@
    }
}

impl SubscriberName {
    /// Returns an instance of `SubscriberName` if the input satisfies all
    /// our validation constraints on subscriber names, an error message
    /// otherwise.
    pub fn parse(s: String) -> (res: Result<SubscriberName, String>)
        ensures
            res is Ok <==> is_valid_subscriber_name(s@),
            is_short_valid_name(s@) ==> res is Ok,
            res matches Ok(name) ==> name@ == s@,
            res matches Err(e) ==> e@ == name_error_message(s@),
    {
        let is_empty_or_whitespace = empty_or_whitespace(s.as_str());
        let is_too_long = count_graphemes(s.as_str()) > MAX_NAME_GRAPHEMES;
        let contains_forbidden = has_forbidden_characters(s.as_str());
        if is_empty_or_whitespace || is_too_long || contains_forbidden {
            let e = s.concat(" is not a valid subscriber name.");
            proof {
                reveal_strlit(" is not a valid subscriber name.");
            }
            Err(e)
        } else {
            Ok(SubscriberName(s))
        }
    }

    pub fn as_ref(&self) -> (r: &str)
        ensures
            r@ == self@,
    {
        self.0.as_str()
    }
}

/// A subscriber's email address, as `validator::validate_email` accepts it.
pub struct SubscriberEmail(String);

impl View for SubscriberEmail {
    type V = Seq<char>;

    closed spec fn view(&self) -> Seq<char> {
        self.0@
    }
}

impl SubscriberEmail {
    /// Returns an instance of `SubscriberEmail` if the input is an email
    /// address, an error message otherwise.
    pub fn parse(s: String) -> (res: Result<SubscriberEmail, String>)
        ensures
            res is Ok <==> accepted_email(s@),
            res matches Ok(email) ==> email@ == s@ && s@.contains('@'),
            res matches Err(e) ==> e@ == email_error_message(s@),
    {
        if validate_email(s.as_str()) {
            Ok(SubscriberEmail(s))
        } else {
            let e = s.concat(" is not a valid subscriber email.");
            proof {
                reveal_strlit(" is not a valid subscriber email.");
            }
            Err(e)
        }
    }

    pub fn as_ref(&self) -> (r: &str)
        ensures
            r@ == self@,
    {
        self.0.as_str()
    }
}

/// A subscriber whose name and email address passed validation.
pub struct NewSubscriber {
    pub email: SubscriberEmail,
    pub name: SubscriberName,
}

/// A name is refused for its characters exactly when it holds one of
/// `/ ( ) " < > \ { }`, and for no other character.
pub proof fn lemma_forbidden_are_exactly_the_nine(s: Seq<char>)
    ensures
        contains_forbidden_characters(s) <==> exists|i: int|
            0 <= i < s.len() && (s[i] == '/' || s[i] == '(' || s[i] == ')' || s[i] == '"' || s[i]
                == '<' || s[i] == '>' || s[i] == '\\' || s[i] == '{' || s[i] == '}'),
{
}

/// A name holding one of `/ ( ) " < > \ { }` is refused.
pub proof fn lemma_names_with_a_listed_character_are_refused(s: Seq<char>, i: int)
    requires
        0 <= i < s.len(),
        s[i] == '/' || s[i] == '(' || s[i] == ')' || s[i] == '"' || s[i] == '<' || s[i] == '>'
            || s[i] == '\\' || s[i] == '{' || s[i] == '}',
    ensures
        !is_valid_subscriber_name(s),
        !is_short_valid_name(s),
{
    assert(is_forbidden_name_char(s[i]));
}

/// A name of at most 256 characters that holds an ASCII letter or digit and
/// none of `/ ( ) " < > \ { }` passes the checks (so `SubscriberName::parse`
/// accepts it), whatever else it holds: hyphens, apostrophes, dots, accented
/// letters and spaces included.
pub proof fn lemma_names_without_listed_characters_are_accepted(s: Seq<char>, k: int)
    requires
        s.len() <= 256,
        0 <= k < s.len(),
        ('a' <= s[k] <= 'z') || ('A' <= s[k] <= 'Z') || ('0' <= s[k] <= '9'),
        forall|i: int|
            0 <= i < s.len() ==> !(#[trigger] s[i] == '/' || s[i] == '(' || s[i] == ')' || s[i]
                == '"' || s[i] == '<' || s[i] == '>' || s[i] == '\\' || s[i] == '{' || s[i] == '}'),
    ensures
        is_short_valid_name(s),
{
    assert(!is_whitespace(s[k]));
    assert forall|i: int| 0 <= i < s.len() implies !is_forbidden_name_char(#[trigger] s[i]) by {
        assert(!(s[i] == '/' || s[i] == '(' || s[i] == ')' || s[i] == '"' || s[i] == '<' || s[i]
            == '>' || s[i] == '\\' || s[i] == '{' || s[i] == '}'));
    }
}

} // verus!
