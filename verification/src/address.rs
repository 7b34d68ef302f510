//! Choosing the web services that report the external address, and
//! reading their replies.
use vstd::prelude::*;
use crate::text::{is_whitespace, string_views, trim, trim_end_spec, trim_spec, trim_start_spec};
use rand::seq::SliceRandom;

verus! {

/// Whether `text` parses as an IPv4 or IPv6 address with
/// `str::parse::<IpAddr>`.
pub uninterp spec fn is_ip_address(text: Seq<char>) -> bool;

/// Parses `text` with the standard library's `IpAddr` parser
/// (`<IpAddr as FromStr>::from_str`). Claimed: the result is the name
/// `is_ip_address` of the text, and the empty text is no address (both the
/// IPv4 and the IPv6 grammar need at least one character).
#[verifier::external_body]
pub(crate) fn parses_as_ip(text: &str) -> (r: bool)
    ensures
        r == is_ip_address(text@),
        text@.len() == 0 ==> !r,
{
    text.parse::<core::net::IpAddr>().is_ok()
}

/// The services asked when the user gives none of their own.
pub open spec fn default_services() -> Seq<Seq<char>> {
    seq![
        "ident.me"@,
        "ifconfig.me/ip"@,
        "icanhazip.com"@,
        "myexternalip.com/raw"@,
        "ipecho.net/plain"@,
        "checkip.amazonaws.com"@,
        "myip.dnsomatic.com"@,
    ]
}

/// The built-in list of address services.
pub fn default_ip_services() -> (r: Vec<String>)
    ensures
        string_views(r@) == default_services(),
{
    let mut r: Vec<String> = Vec::new();
    r.push("ident.me".to_owned());
    r.push("ifconfig.me/ip".to_owned());
    r.push("icanhazip.com".to_owned());
    r.push("myexternalip.com/raw".to_owned());
    r.push("ipecho.net/plain".to_owned());
    r.push("checkip.amazonaws.com".to_owned());
    r.push("myip.dnsomatic.com".to_owned());
    assert(string_views(r@) == default_services());
    r
}

/// The services to draw from: the user's list when it names any,
/// otherwise the built-in list.
pub open spec fn service_candidates(user: Option<Seq<Seq<char>>>) -> Seq<Seq<char>> {
    match user {
        Some(list) => if list.len() > 0 {
            list
        } else {
            default_services()
        },
        None => default_services(),
    }
}

/// Without a list of its own, or with an empty one, a run draws from the
/// seven built-in services, all different.
pub proof fn law_built_in_services_otherwise(user: Option<Seq<Seq<char>>>)
    requires
        user matches Some(list) ==> list.len() == 0,
    ensures
        service_candidates(user).len() == 7,
        service_candidates(user)[0] == "ident.me"@,
        service_candidates(user) == default_services(),
{
}

/// The character views of an optional list of strings.
pub open spec fn opt_string_views(v: Option<Vec<String>>) -> Option<Seq<Seq<char>>> {
    match v {
        Some(list) => Some(string_views(list@)),
        None => None,
    }
}

/// A copy of a list of strings.
pub fn copy_strings(v: &Vec<String>) -> (r: Vec<String>)
    ensures
        string_views(r@) == string_views(v@),
{
    let mut r: Vec<String> = Vec::new();
    let mut i: usize = 0;
    while i < v.len()
        invariant
            i <= v.len(),
            r@.len() == i,
            forall|k: int| 0 <= k < i ==> (#[trigger] r@[k])@ == v@[k]@,
        decreases v.len() - i,
    {
        let item = v[i].clone();
        r.push(item);
        i = i + 1;
    }
    assert(string_views(r@) =~= string_views(v@));
    r
}

/// Picks the list of services to draw from.
pub fn ip_service_candidates(ipaddresses: &Option<Vec<String>>) -> (r: Vec<String>)
    ensures
        string_views(r@) == service_candidates(opt_string_views(*ipaddresses)),
{
    match ipaddresses {
        Some(list) => {
            if list.len() > 0 {
                copy_strings(list)
            } else {
                default_ip_services()
            }
        },
        None => default_ip_services(),
    }
}

/// `chosen` holds the items of `items` at the distinct positions `idx`.
pub open spec fn drawn_from(items: Seq<Seq<char>>, chosen: Seq<Seq<char>>, idx: Seq<int>) -> bool {
    &&& idx.len() == chosen.len()
    &&& idx.no_duplicates()
    &&& forall|i: int|
        0 <= i < idx.len() ==> 0 <= #[trigger] idx[i] < items.len() && chosen[i] == items[idx[i]]
}

/// The smaller of two numbers.
pub open spec fn min_nat(a: nat, b: nat) -> nat {
    if a <= b {
        a
    } else {
        b
    }
}

/// Draws `amount` items at random, without repetition, in random order
/// (rand's `SliceRandom::choose_multiple` with `rand::thread_rng()`).
/// Claimed, of every outcome: there are as many items as asked for, or all
/// of them when there are fewer, each taken from a different position.
#[verifier::external_body]
fn choose_multiple_strings(items: &Vec<String>, amount: usize) -> (r: Vec<String>)
    ensures
        r@.len() == min_nat(amount as nat, items@.len()),
        exists|idx: Seq<int>| drawn_from(string_views(items@), string_views(r@), idx),
{
    items.choose_multiple(&mut rand::thread_rng(), amount).cloned().collect()
}

/// Draws the (at most) two services that one check asks for its external
/// address.
pub fn choose_ip_services(ipaddresses: &Option<Vec<String>>) -> (r: Vec<String>)
    ensures
        r@.len() == min_nat(2, service_candidates(opt_string_views(*ipaddresses)).len()),
        exists|idx: Seq<int>|
            drawn_from(service_candidates(opt_string_views(*ipaddresses)), string_views(r@), idx),
        service_candidates(opt_string_views(*ipaddresses)).len() == 1 ==> string_views(r@)
            == service_candidates(opt_string_views(*ipaddresses)),
{
    let candidates = ip_service_candidates(ipaddresses);
    let r = choose_multiple_strings(&candidates, 2);
    proof {
        let c = string_views(candidates@);
        if c.len() == 1 {
            let idx = choose|idx: Seq<int>| drawn_from(c, string_views(r@), idx);
            assert(idx[0] == 0);
            assert(string_views(r@) =~= c);
        }
    }
    r
}

/// A non-empty `-i` list replaces the built-in services.
pub proof fn law_user_services_replace_defaults(user: Seq<Seq<char>>)
    requires
        user.len() > 0,
    ensures
        service_candidates(Some(user)) == user,
{
}

/// What a service's reply says the external address is: the reply without
/// surrounding whitespace, when that is an IP address.
pub open spec fn reply_address(body: Seq<char>) -> Option<Seq<char>> {
    if is_ip_address(trim_spec(body)) {
        Some(trim_spec(body))
    } else {
        None
    }
}

/// Trimming leaves no whitespace at the front.
proof fn lemma_trim_start_front(s: Seq<char>)
    ensures
        trim_start_spec(s).len() > 0 ==> !is_whitespace(trim_start_spec(s)[0]),
    decreases s.len(),
{
    if s.len() > 0 && is_whitespace(s[0]) {
        lemma_trim_start_front(s.drop_first());
    }
}

/// Trimming the end keeps a prefix and leaves no whitespace at the back.
proof fn lemma_trim_end(s: Seq<char>)
    ensures
        trim_end_spec(s).len() <= s.len(),
        trim_end_spec(s) == s.take(trim_end_spec(s).len() as int),
        trim_end_spec(s).len() > 0 ==> !is_whitespace(trim_end_spec(s).last()),
    decreases s.len(),
{
    if s.len() > 0 && is_whitespace(s.last()) {
        lemma_trim_end(s.drop_last());
        assert(s.drop_last().take(trim_end_spec(s).len() as int) == s.take(trim_end_spec(s).len() as int));
    } else {
        assert(s.take(s.len() as int) == s);
    }
}

/// The address read from a reply is an IP address with no whitespace
/// around it.
pub proof fn law_reply_address_is_trimmed_ip(body: Seq<char>)
    ensures
        reply_address(body) matches Some(a) ==> {
            &&& is_ip_address(a)
            &&& a.len() > 0 ==> !is_whitespace(a[0]) && !is_whitespace(a.last())
        },
{
    let t = trim_start_spec(body);
    lemma_trim_start_front(body);
    lemma_trim_end(t);
    let a = trim_end_spec(t);
    if a.len() > 0 {
        assert(a[0] == t[0]);
    }
}

/// The external address from the services' answers in the order they
/// arrived: the first answer that held an address, else the empty string.
pub open spec fn first_address(answers: Seq<Option<Seq<char>>>) -> Seq<char>
    decreases answers.len(),
{
    if answers.len() == 0 {
        Seq::empty()
    } else {
        match answers[0] {
            Some(a) => a,
            None => first_address(answers.drop_first()),
        }
    }
}

/// The first answer that holds an address decides the external address,
/// whatever comes after it; with no such answer there is none (empty).
pub proof fn law_first_answer_wins(answers: Seq<Option<Seq<char>>>, i: int)
    requires
        0 <= i <= answers.len(),
        forall|j: int| 0 <= j < i ==> (#[trigger] answers[j]) is None,
    ensures
        i < answers.len() && answers[i] is Some ==> first_address(answers) == answers[i]->0,
        i == answers.len() ==> first_address(answers) == Seq::<char>::empty(),
    decreases i,
{
    if i > 0 {
        let rest = answers.drop_first();
        assert forall|j: int| 0 <= j < i - 1 implies (#[trigger] rest[j]) is None by {
            assert(rest[j] == answers[j + 1]);
        }
        law_first_answer_wins(rest, i - 1);
        assert(answers[0] is None);
    }
}

/// The character views of a sequence of optional strings.
pub open spec fn opt_views(v: Seq<Option<String>>) -> Seq<Option<Seq<char>>> {
    v.map_values(|o: Option<String>| crate::text::opt_string_view(o))
}

/// Decides the external address from the answers received so far, in the
/// order they arrived.
pub fn external_address(answers: &Vec<Option<String>>) -> (r: String)
    ensures
        r@ == first_address(opt_views(answers@)),
        forall|i: int|
            0 <= i < answers@.len() && (#[trigger] answers@[i]) is Some && (forall|j: int|
                0 <= j < i ==> answers@[j] is None) ==> r@ == answers@[i]->0@,
        (forall|i: int| 0 <= i < answers@.len() ==> (#[trigger] answers@[i]) is None) ==> r@.len() == 0,
{
    let r = external_address_first(answers);
    proof {
        let all = opt_views(answers@);
        assert forall|i: int|
            0 <= i < answers@.len() && (#[trigger] answers@[i]) is Some && (forall|j: int|
                0 <= j < i ==> answers@[j] is None) implies r@ == answers@[i]->0@ by {
            assert forall|j: int| 0 <= j < i implies (#[trigger] all[j]) is None by {
                assert(answers@[j] is None);
            }
            law_first_answer_wins(all, i);
        }
        if forall|i: int| 0 <= i < answers@.len() ==> (#[trigger] answers@[i]) is None {
            assert forall|j: int| 0 <= j < all.len() implies (#[trigger] all[j]) is None by {
                assert(answers@[j] is None);
            }
            law_first_answer_wins(all, all.len() as int);
        }
    }
    r
}

/// Scans the answers for the first address.
fn external_address_first(answers: &Vec<Option<String>>) -> (r: String)
    ensures
        r@ == first_address(opt_views(answers@)),
{
    let ghost all = opt_views(answers@);
    let mut i: usize = 0;
    assert(all.skip(0) == all);
    while i < answers.len()
        invariant
            i <= answers.len(),
            all == opt_views(answers@),
            first_address(all.skip(i as int)) == first_address(all),
        decreases answers.len() - i,
    {
        let ghost rest = all.skip(i as int);
        assert(rest[0] == crate::text::opt_string_view(answers@[i as int]));
        assert(rest.drop_first() == all.skip(i as int + 1));
        match &answers[i] {
            Some(a) => {
                return a.clone();
            },
            None => {},
        }
        i = i + 1;
    }
    String::new()
}

/// The address of a service's web page.
pub open spec fn service_url_spec(service: Seq<char>) -> Seq<char> {
    "https://"@ + service
}

/// Builds the address of a service's web page.
pub fn service_url(service: &str) -> (r: String)
    ensures
        r@ == service_url_spec(service@),
{
    let mut r = "https://".to_owned();
    r.append(service);
    r
}

/// Reads a service's reply.
pub fn address_from_reply(body: &str) -> (r: Option<String>)
    ensures
        r matches Some(a) ==> reply_address(body@) == Some(a@),
        r matches Some(a) ==> a@.len() > 0,
        r is None ==> reply_address(body@) is None,
{
    let trimmed = trim(body);
    if parses_as_ip(trimmed.as_str()) {
        Some(trimmed)
    } else {
        None
    }
}

} // verus!
