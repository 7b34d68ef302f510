//! Validation of the subdomain given on the command line.
use vstd::prelude::*;
use vstd::utf8::encode_utf8;
use crate::text::{split_chars, split_on, string_views};

verus! {

/// What `regex::Regex::new(pattern)` and then `is_match(text)` give: `None`
/// where the pattern does not compile, else whether `text` matches.
pub uninterp spec fn regex_match(pattern: Seq<char>, text: Seq<char>) -> Option<bool>;

/// The pattern that a single DNS label must match: one to 63 characters,
/// each an ASCII letter, an ASCII digit or a hyphen.
pub open spec fn label_pattern() -> Seq<char> {
    "^[a-zA-Z0-9-]{1,63}$"@
}

/// An ASCII letter, an ASCII digit or a hyphen.
pub open spec fn is_label_char(c: char) -> bool {
    ('a' <= c <= 'z') || ('A' <= c <= 'Z') || ('0' <= c <= '9') || c == '-'
}

/// One to 63 characters, all of them label characters.
pub open spec fn is_ascii_label(s: Seq<char>) -> bool {
    &&& 1 <= s.len() <= 63
    &&& forall|i: int| 0 <= i < s.len() ==> is_label_char(#[trigger] s[i])
}

/// Compiles `pattern` with `regex::Regex::new` and tests `text` against it
/// with `Regex::is_match`. Claimed: the result is the name `regex_match` of
/// the two arguments; the label pattern compiles, and matches exactly the
/// texts of one to 63 characters that are all ASCII letters, ASCII digits
/// or hyphens (the class holds only those, `^` and `$` anchor both ends and
/// `{1,63}` counts characters).
#[verifier::external_body]
fn regex_full_match(pattern: &str, text: &str) -> (r: Option<bool>)
    ensures
        r == regex_match(pattern@, text@),
        pattern@ == label_pattern() ==> r == Some(is_ascii_label(text@)),
{
    match regex::Regex::new(pattern) {
        Ok(re) => Some(re.is_match(text)),
        Err(_) => None,
    }
}

/// A label passes when it is empty (as between two dots, or after a final
/// dot) or is one to 63 letters, digits or hyphens.
pub open spec fn label_accepted(label: Seq<char>) -> bool {
    label.len() == 0 || is_ascii_label(label)
}

/// A hostname is valid when it is not empty, its UTF-8 encoding has at most
/// 255 bytes and every dot-separated label passes.
pub open spec fn valid_hostname(s: Seq<char>) -> bool {
    &&& s.len() > 0
    &&& encode_utf8(s).len() <= 255
    &&& forall|i: int|
        0 <= i < split_chars(s, '.').len() ==> label_accepted(#[trigger] split_chars(s, '.')[i])
}

/// A name is valid exactly when it is not empty, takes at most 255 bytes
/// in UTF-8, and each of its dot-separated labels is empty or one to 63
/// characters, every one an ASCII letter, an ASCII digit or a hyphen; a
/// label may start with any of them.
pub proof fn law_valid_hostname_characterised(s: Seq<char>)
    ensures
        valid_hostname(s) <==> {
            &&& s.len() > 0
            &&& encode_utf8(s).len() <= 255
            &&& forall|i: int| 0 <= i < split_chars(s, '.').len() ==> {
                let l = #[trigger] split_chars(s, '.')[i];
                l.len() == 0 || (l.len() <= 63 && forall|j: int| 0 <= j < l.len() ==> {
                    ||| 'a' <= l[j] <= 'z'
                    ||| 'A' <= l[j] <= 'Z'
                    ||| '0' <= l[j] <= '9'
                    ||| l[j] == '-'
                })
            }
        },
{
}

/// Each character takes one to four bytes in UTF-8.
pub proof fn lemma_encoded_len_bounds(s: Seq<char>)
    ensures
        s.len() <= encode_utf8(s).len() <= 4 * s.len(),
    decreases s.len(),
{
    if s.len() > 0 {
        lemma_encoded_len_bounds(s.drop_first());
    }
}

/// Every label is empty or matched the label pattern, given what the
/// pattern made of each label.
pub fn labels_accepted(labels: &Vec<String>, matches: &Vec<Option<bool>>) -> (r: bool)
    requires
        labels.len() == matches.len(),
    ensures
        r == forall|k: int|
            0 <= k < labels.len() ==> (#[trigger] labels@[k])@.len() == 0 || matches@[k] == Some(true),
{
    let mut i: usize = 0;
    while i < labels.len()
        invariant
            labels.len() == matches.len(),
            i <= labels.len(),
            forall|k: int|
                0 <= k < i ==> (#[trigger] labels@[k])@.len() == 0 || matches@[k] == Some(true),
        decreases labels.len() - i,
    {
        let ok = match matches[i] {
            Some(m) => m,
            None => false,
        };
        if !ok && !labels[i].as_str().is_empty() {
            assert(!((labels@[i as int])@.len() == 0 || matches@[i as int] == Some(true)));
            return false;
        }
        i = i + 1;
    }
    true
}

/// Checks whether `subdomain_name` is a valid subdomain name.
pub fn is_valid_hostname(subdomain_name: &str) -> (r: bool)
    ensures
        r == valid_hostname(subdomain_name@),
{
    proof {
        lemma_encoded_len_bounds(subdomain_name@);
    }
    if subdomain_name.is_empty() {
        return false;
    }
    if subdomain_name.unicode_len() > 255 {
        return false;
    }
    if subdomain_name.len() > 255 {
        return false;
    }
    let labels = split_on(subdomain_name, '.');
    let ghost parts = split_chars(subdomain_name@, '.');
    assert(string_views(labels@).len() == labels@.len());
    let mut matches: Vec<Option<bool>> = Vec::new();
    let mut i: usize = 0;
    while i < labels.len()
        invariant
            string_views(labels@) == parts,
            parts == split_chars(subdomain_name@, '.'),
            i <= labels.len(),
            matches.len() == i,
            forall|k: int|
                0 <= k < i ==> #[trigger] matches@[k] == Some(is_ascii_label(parts[k])),
        decreases labels.len() - i,
    {
        let label = labels[i].as_str();
        assert(parts[i as int] == labels@[i as int]@);
        let matched = regex_full_match("^[a-zA-Z0-9-]{1,63}$", label);
        matches.push(matched);
        i = i + 1;
    }
    assert(parts.len() == labels@.len());
    let r = labels_accepted(&labels, &matches);
    proof {
        assert forall|k: int| 0 <= k < parts.len() implies (#[trigger] parts[k]) == labels@[k]@ by {}
    }
    r
}

} // verus!
