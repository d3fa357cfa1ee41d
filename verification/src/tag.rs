use vstd::prelude::*;
use vstd::string::*;

verus! {

/// The four kinds of specification a project can hold, one spec per kind.
#[derive(Debug, Clone, Copy, PartialEq, Eq, Structural)]
pub enum SpecTag {
    Architecture,
    Business,
    Qa,
    Security,
}

/// The canonical (lower-case) name of a tag.
pub open spec fn tag_name(tag: SpecTag) -> Seq<char> {
    match tag {
        SpecTag::Architecture => seq!['a', 'r', 'c', 'h', 'i', 't', 'e', 'c', 't', 'u', 'r', 'e'],
        SpecTag::Business => seq!['b', 'u', 's', 'i', 'n', 'e', 's', 's'],
        SpecTag::Qa => seq!['q', 'a'],
        SpecTag::Security => seq!['s', 'e', 'c', 'u', 'r', 'i', 't', 'y'],
    }
}

/// ASCII lower-casing of one code point: `A`..=`Z` move to `a`..=`z`, all else stays.
pub open spec fn ascii_lower_code(code: u32) -> u32 {
    if 65 <= code && code <= 90 {
        (code + 32) as u32
    } else {
        code
    }
}

/// `text`, lower-cased in ASCII, is exactly `lower`.
pub open spec fn ascii_lower_matches(text: Seq<char>, lower: Seq<char>) -> bool {
    &&& text.len() == lower.len()
    &&& forall|i: int| 0 <= i < text.len() ==> ascii_lower_code(#[trigger] text[i] as u32) == lower[i] as u32
}

/// The tag whose name `text` spells, ignoring ASCII case.
pub open spec fn parse_tag(text: Seq<char>) -> Option<SpecTag> {
    if ascii_lower_matches(text, tag_name(SpecTag::Architecture)) {
        Some(SpecTag::Architecture)
    } else if ascii_lower_matches(text, tag_name(SpecTag::Business)) {
        Some(SpecTag::Business)
    } else if ascii_lower_matches(text, tag_name(SpecTag::Qa)) {
        Some(SpecTag::Qa)
    } else if ascii_lower_matches(text, tag_name(SpecTag::Security)) {
        Some(SpecTag::Security)
    } else {
        None
    }
}

/// The message that rejects an unknown tag.
pub open spec fn invalid_tag_message(text: Seq<char>) -> Seq<char> {
    "invalid spec tag: "@ + text
}

/// Compares `text` with the lower-case `lower`, ignoring ASCII case in `text`.
fn eq_ignore_ascii_case(text: &str, lower: &str) -> (r: bool)
    ensures
        r == ascii_lower_matches(text@, lower@),
{
    let n = text.unicode_len();
    if n != lower.unicode_len() {
        return false;
    }
    let mut i: usize = 0;
    while i < n
        invariant
            n == text@.len(),
            n == lower@.len(),
            i <= n,
            forall|j: int| 0 <= j < i ==> ascii_lower_code(#[trigger] text@[j] as u32) == lower@[j] as u32,
        decreases n - i,
    {
        let c = text.get_char(i) as u32;
        let l = lower.get_char(i) as u32;
        let folded: u32 = if 65 <= c && c <= 90 { c + 32 } else { c };
        if folded != l {
            return false;
        }
        i = i + 1;
    }
    true
}

impl SpecTag {
    /// The canonical name of the tag, as stored and as shown to clients.
    pub fn as_str(&self) -> (r: &'static str)
        ensures
            r@ == tag_name(*self),
    {
        match self {
            SpecTag::Architecture => {
                proof { reveal_strlit("architecture"); }
                "architecture"
            },
            SpecTag::Business => {
                proof { reveal_strlit("business"); }
                "business"
            },
            SpecTag::Qa => {
                proof { reveal_strlit("qa"); }
                "qa"
            },
            SpecTag::Security => {
                proof { reveal_strlit("security"); }
                "security"
            },
        }
    }

    /// Reads a tag name, ignoring ASCII case; any other text is refused with a message
    /// that quotes it.
    pub fn from_str(value: &str) -> (r: Result<SpecTag, String>)
        ensures
            match parse_tag(value@) {
                Some(tag) => r == Ok::<SpecTag, String>(tag),
                None => r matches Err(msg) && msg@ == invalid_tag_message(value@),
            },
    {
        if eq_ignore_ascii_case(value, SpecTag::Architecture.as_str()) {
            Ok(SpecTag::Architecture)
        } else if eq_ignore_ascii_case(value, SpecTag::Business.as_str()) {
            Ok(SpecTag::Business)
        } else if eq_ignore_ascii_case(value, SpecTag::Qa.as_str()) {
            Ok(SpecTag::Qa)
        } else if eq_ignore_ascii_case(value, SpecTag::Security.as_str()) {
            Ok(SpecTag::Security)
        } else {
            let mut msg = String::from_str("invalid spec tag: ");
            msg.append(value);
            Err(msg)
        }
    }
}

impl std::str::FromStr for SpecTag {
    type Err = String;

    fn from_str(value: &str) -> (r: Result<SpecTag, String>)
        ensures
            match parse_tag(value@) {
                Some(tag) => r == Ok::<SpecTag, String>(tag),
                None => r matches Err(msg) && msg@ == invalid_tag_message(value@),
            },
    {
        SpecTag::from_str(value)
    }
}

/// Every tag's name reads back as that tag.
pub proof fn lemma_tag_name_round_trip(tag: SpecTag)
    ensures
        parse_tag(tag_name(tag)) == Some(tag),
{
    let a = tag_name(SpecTag::Architecture);
    let b = tag_name(SpecTag::Business);
    let q = tag_name(SpecTag::Qa);
    let s = tag_name(SpecTag::Security);
    let t = tag_name(tag);
    assert forall|i: int| 0 <= i < t.len() implies ascii_lower_code(#[trigger] t[i] as u32) == t[i] as u32 by {
    }
    assert(ascii_lower_matches(t, t));
    match tag {
        SpecTag::Architecture => {},
        SpecTag::Business => {
            assert(!ascii_lower_matches(t, a));
        },
        SpecTag::Qa => {
            assert(!ascii_lower_matches(t, a));
            assert(!ascii_lower_matches(t, b));
        },
        SpecTag::Security => {
            assert(!ascii_lower_matches(t, a));
            assert(!ascii_lower_matches(t, b));
            assert(!ascii_lower_matches(t, q));
        },
    }
}

/// Distinct tags have distinct names.
pub proof fn lemma_tag_names_distinct(a: SpecTag, b: SpecTag)
    ensures
        tag_name(a) == tag_name(b) ==> a == b,
{
    if tag_name(a) == tag_name(b) && a != b {
        lemma_tag_name_round_trip(a);
        lemma_tag_name_round_trip(b);
    }
}

/// Reading a tag ignores ASCII case: two texts that agree once lower-cased read as the
/// same tag, or are both refused.
pub proof fn lemma_parse_tag_ignores_ascii_case(s1: Seq<char>, s2: Seq<char>)
    requires
        s1.len() == s2.len(),
        forall|i: int| 0 <= i < s1.len() ==> ascii_lower_code(#[trigger] s1[i] as u32) == ascii_lower_code(s2[i] as u32),
    ensures
        parse_tag(s1) == parse_tag(s2),
{
    assert forall|lower: Seq<char>| ascii_lower_matches(s1, lower) <==> ascii_lower_matches(s2, lower) by {
        if ascii_lower_matches(s1, lower) {
            assert forall|i: int| 0 <= i < s2.len() implies ascii_lower_code(#[trigger] s2[i] as u32) == lower[i] as u32 by {
                assert(ascii_lower_code(s1[i] as u32) == lower[i] as u32);
            }
        }
        if ascii_lower_matches(s2, lower) {
            assert forall|i: int| 0 <= i < s1.len() implies ascii_lower_code(#[trigger] s1[i] as u32) == lower[i] as u32 by {
                assert(ascii_lower_code(s2[i] as u32) == lower[i] as u32);
            }
        }
    }
}

/// A text is read as a tag exactly when, lower-cased in ASCII, it is that tag's name.
pub proof fn lemma_parse_tag_exact(text: Seq<char>, tag: SpecTag)
    ensures
        parse_tag(text) == Some(tag) <==> ascii_lower_matches(text, tag_name(tag)),
{
    let a = tag_name(SpecTag::Architecture);
    let b = tag_name(SpecTag::Business);
    let q = tag_name(SpecTag::Qa);
    let s = tag_name(SpecTag::Security);
    // a text matches at most one name, since the names differ in length or first letter
    if ascii_lower_matches(text, tag_name(tag)) {
        if ascii_lower_matches(text, a) && tag != SpecTag::Architecture {
            assert(ascii_lower_code(text[0] as u32) == a[0] as u32);
            assert(ascii_lower_code(text[0] as u32) == tag_name(tag)[0] as u32);
        }
        if ascii_lower_matches(text, b) && tag != SpecTag::Business {
            assert(ascii_lower_code(text[0] as u32) == b[0] as u32);
            assert(ascii_lower_code(text[0] as u32) == tag_name(tag)[0] as u32);
        }
        if ascii_lower_matches(text, q) && tag != SpecTag::Qa {
            assert(ascii_lower_code(text[0] as u32) == q[0] as u32);
            assert(ascii_lower_code(text[0] as u32) == tag_name(tag)[0] as u32);
        }
    }
}

} // verus!
