//! The Route 53 side: record names, the queries and changes sent, and the
//! reading of what comes back.
use vstd::prelude::*;
use crate::address::{is_ip_address, parses_as_ip};
use crate::text::opt_string_view;

verus! {

/// The fully qualified name of `subdomain_name` in `zone_name`; both carry
/// their trailing dot, so the name is their concatenation.
pub open spec fn dns_name_spec(subdomain_name: Seq<char>, zone_name: Seq<char>) -> Seq<char> {
    subdomain_name + zone_name
}

/// Builds the fully qualified record name.
pub fn dns_name(subdomain_name: &str, zone_name: &str) -> (r: String)
    ensures
        r@ == dns_name_spec(subdomain_name@, zone_name@),
{
    let mut r = subdomain_name.to_owned();
    r.append(zone_name);
    r
}

/// The label that Route 53 writes for `*.`, an octal escape of `*`.
pub open spec fn wildcard_prefix() -> Seq<char> {
    "\\052."@
}

/// The subdomain of the wildcard record `*.<subdomain>` that points every
/// host under the subdomain at it.
pub open spec fn nat_subdomain_spec(subdomain_name: Seq<char>) -> Seq<char> {
    wildcard_prefix() + subdomain_name
}

/// Builds the subdomain of the wildcard record.
pub fn nat_subdomain_name(subdomain_name: &str) -> (r: String)
    ensures
        r@ == nat_subdomain_spec(subdomain_name@),
{
    let mut r = "\\052.".to_owned();
    r.append(subdomain_name);
    r
}

/// A request to list the record sets of a hosted zone from a given name on.
pub struct RecordQuery {
    pub hosted_zone_id: String,
    pub start_record_name: String,
    pub record_type: String,
}

/// The mathematical content of a `RecordQuery`.
pub struct RecordQueryView {
    pub hosted_zone_id: Seq<char>,
    pub start_record_name: Seq<char>,
    pub record_type: Seq<char>,
}

impl View for RecordQuery {
    type V = RecordQueryView;

    open spec fn view(&self) -> RecordQueryView {
        RecordQueryView {
            hosted_zone_id: self.hosted_zone_id@,
            start_record_name: self.start_record_name@,
            record_type: self.record_type@,
        }
    }
}

/// The lookup of the `record_type` record of `subdomain_name` in a zone:
/// the listing starts at the record's own name.
pub open spec fn record_query_spec(
    zone_id: Seq<char>,
    zone_name: Seq<char>,
    subdomain_name: Seq<char>,
    record_type: Seq<char>,
) -> RecordQueryView {
    RecordQueryView {
        hosted_zone_id: zone_id,
        start_record_name: dns_name_spec(subdomain_name, zone_name),
        record_type: record_type,
    }
}

/// Builds the listing request that looks up a record.
pub fn record_query(zone_id: &str, zone_name: &str, subdomain_name: &str, record_type: &str) -> (q:
    RecordQuery)
    ensures
        q@ == record_query_spec(zone_id@, zone_name@, subdomain_name@, record_type@),
{
    RecordQuery {
        hosted_zone_id: zone_id.to_owned(),
        start_record_name: dns_name(subdomain_name, zone_name),
        record_type: record_type.to_owned(),
    }
}

/// A listed resource record set: its name, its type and its values.
pub struct RecordSet {
    pub name: String,
    pub record_type: String,
    pub values: Option<Vec<String>>,
}

/// Whether the first value of a set is an IP address.
pub open spec fn first_value_is_ip(set: RecordSet) -> bool {
    set.values matches Some(vals) && vals@.len() > 0 && is_ip_address(vals@[0]@)
}

/// What one listed set gives a lookup of `dns_name` and `record_type`, where
/// `first_is_ip` tells whether its first value is an IP address: the first
/// value of a set of that name and type, which for an `A` record must also
/// be an IP address.
pub open spec fn set_value_given(
    set: RecordSet,
    dns_name: Seq<char>,
    record_type: Seq<char>,
    first_is_ip: bool,
) -> Option<Seq<char>> {
    if set.name@ == dns_name && set.record_type@ == record_type {
        match set.values {
            Some(vals) => if vals@.len() > 0 {
                if record_type == "A"@ && !first_is_ip {
                    None
                } else {
                    Some(vals@[0]@)
                }
            } else {
                None
            },
            None => None,
        }
    } else {
        None
    }
}

/// What one listed set gives a lookup of `dns_name` and `record_type`.
pub open spec fn set_value(set: RecordSet, dns_name: Seq<char>, record_type: Seq<char>) -> Option<
    Seq<char>,
> {
    set_value_given(set, dns_name, record_type, first_value_is_ip(set))
}

/// The value that the first set offering one gives, where `first_is_ip`
/// tells for each set whether its first value is an IP address.
pub open spec fn lookup_value_given(
    sets: Seq<RecordSet>,
    dns_name: Seq<char>,
    record_type: Seq<char>,
    first_is_ip: Seq<bool>,
) -> Option<Seq<char>>
    decreases sets.len(),
{
    if sets.len() == 0 {
        None
    } else if set_value_given(sets[0], dns_name, record_type, first_is_ip[0]) is Some {
        set_value_given(sets[0], dns_name, record_type, first_is_ip[0])
    } else {
        lookup_value_given(sets.drop_first(), dns_name, record_type, first_is_ip.drop_first())
    }
}

/// The value that the first set offering one gives.
pub open spec fn lookup_value(sets: Seq<RecordSet>, dns_name: Seq<char>, record_type: Seq<char>) -> Option<
    Seq<char>,
>
    decreases sets.len(),
{
    if sets.len() == 0 {
        None
    } else if set_value(sets[0], dns_name, record_type) is Some {
        set_value(sets[0], dns_name, record_type)
    } else {
        lookup_value(sets.drop_first(), dns_name, record_type)
    }
}

/// With the true address tests, the two lookups agree.
pub proof fn lemma_lookup_value_given(
    sets: Seq<RecordSet>,
    dns_name: Seq<char>,
    record_type: Seq<char>,
    first_is_ip: Seq<bool>,
)
    requires
        first_is_ip.len() == sets.len(),
        forall|k: int| 0 <= k < sets.len() ==> #[trigger] first_is_ip[k] == first_value_is_ip(sets[k]),
    ensures
        lookup_value_given(sets, dns_name, record_type, first_is_ip) == lookup_value(
            sets,
            dns_name,
            record_type,
        ),
    decreases sets.len(),
{
    if sets.len() > 0 {
        assert(first_is_ip[0] == first_value_is_ip(sets[0]));
        let rest = sets.drop_first();
        let rest_ip = first_is_ip.drop_first();
        assert forall|k: int| 0 <= k < rest.len() implies #[trigger] rest_ip[k] == first_value_is_ip(
            rest[k],
        ) by {
            assert(rest_ip[k] == first_is_ip[k + 1]);
            assert(rest[k] == sets[k + 1]);
        }
        lemma_lookup_value_given(rest, dns_name, record_type, rest_ip);
    }
}

/// Whatever a lookup of an `A` record reads from a listing is an IP
/// address, so a check never compares the external address with anything
/// else.
pub proof fn law_listed_address_is_ip(sets: Seq<RecordSet>, dns_name: Seq<char>)
    ensures
        lookup_value(sets, dns_name, "A"@) matches Some(v) ==> is_ip_address(v),
    decreases sets.len(),
{
    if sets.len() > 0 {
        law_listed_address_is_ip(sets.drop_first(), dns_name);
    }
}

/// The listing holds, at position `k`, the set that `change` wrote, and no
/// set before it has the same name and type (Route 53 keeps one set per
/// name and type).
pub open spec fn holds_written_set(sets: Seq<RecordSet>, change: RecordChangeView, k: int) -> bool {
    &&& 0 <= k < sets.len()
    &&& sets[k].name@ == change.record_name
    &&& sets[k].record_type@ == change.record_type
    &&& sets[k].values matches Some(vals) && vals@.len() == 1 && vals@[0]@ == change.value
    &&& forall|j: int|
        0 <= j < k ==> !((#[trigger] sets[j]).name@ == change.record_name && sets[j].record_type@
            == change.record_type)
}

/// What a lookup reads back from a listing that holds a written set.
proof fn lemma_read_back(sets: Seq<RecordSet>, change: RecordChangeView, k: int)
    requires
        holds_written_set(sets, change, k),
        change.record_type == "A"@ ==> is_ip_address(change.value),
    ensures
        lookup_value(sets, change.record_name, change.record_type) == Some(change.value),
    decreases k,
{
    if k > 0 {
        let rest = sets.drop_first();
        assert forall|j: int| 0 <= j < k - 1 implies !((#[trigger] rest[j]).name@ == change.record_name
            && rest[j].record_type@ == change.record_type) by {
            assert(rest[j] == sets[j + 1]);
        }
        assert(rest[k - 1] == sets[k]);
        lemma_read_back(rest, change, k - 1);
        assert(!(sets[0].name@ == change.record_name && sets[0].record_type@ == change.record_type));
    }
}

/// Reading a record back gives what was just written: a lookup of the
/// record that an upsert wrote, in a listing that holds the written set,
/// finds the written value (for an `A` record, provided it is an address).
pub proof fn law_read_back_written_value(
    zone_id: Seq<char>,
    zone_name: Seq<char>,
    subdomain_name: Seq<char>,
    record_type: Seq<char>,
    value: Seq<char>,
    sets: Seq<RecordSet>,
    k: int,
)
    requires
        holds_written_set(sets, upsert_spec(zone_id, zone_name, subdomain_name, record_type, value), k),
        record_type == "A"@ ==> is_ip_address(value),
    ensures
        ({
            let q = record_query_spec(zone_id, zone_name, subdomain_name, record_type);
            lookup_value(sets, q.start_record_name, q.record_type) == Some(value)
        }),
{
    lemma_read_back(sets, upsert_spec(zone_id, zone_name, subdomain_name, record_type, value), k);
}

/// The set `set` answers a lookup of `dns_name` and `record_type`: it has
/// that name and type and a first value, which for an `A` record is an IP
/// address.
pub open spec fn answers_lookup(set: RecordSet, dns_name: Seq<char>, record_type: Seq<char>) -> bool {
    &&& set.name@ == dns_name
    &&& set.record_type@ == record_type
    &&& set.values matches Some(vals) && vals@.len() > 0 && (record_type == "A"@ ==> is_ip_address(
        vals@[0]@,
    ))
}

/// A lookup reads the first value of the first set that answers it, and
/// nothing when no set does.
pub proof fn law_lookup_reads_first_answering_set(
    sets: Seq<RecordSet>,
    dns_name: Seq<char>,
    record_type: Seq<char>,
    k: int,
)
    requires
        0 <= k <= sets.len(),
        forall|j: int| 0 <= j < k ==> !answers_lookup(#[trigger] sets[j], dns_name, record_type),
    ensures
        k < sets.len() && answers_lookup(sets[k], dns_name, record_type) ==> lookup_value(
            sets,
            dns_name,
            record_type,
        ) == Some(sets[k].values->0@[0]@),
        k == sets.len() ==> lookup_value(sets, dns_name, record_type) is None,
    decreases k,
{
    if k > 0 {
        let rest = sets.drop_first();
        assert forall|j: int| 0 <= j < k - 1 implies !answers_lookup(
            #[trigger] rest[j],
            dns_name,
            record_type,
        ) by {
            assert(rest[j] == sets[j + 1]);
        }
        law_lookup_reads_first_answering_set(rest, dns_name, record_type, k - 1);
        assert(!answers_lookup(sets[0], dns_name, record_type));
        if k < sets.len() {
            assert(rest[k - 1] == sets[k]);
        }
    }
}

/// Picks the current value of the `record_type` record named `dns_name`
/// from the listed record sets, given for each set whether its first value
/// is an IP address.
pub fn pick_record_value(
    sets: &Vec<RecordSet>,
    dns_name: &str,
    record_type: &str,
    first_is_ip: &Vec<bool>,
) -> (r: Option<String>)
    requires
        first_is_ip.len() == sets.len(),
    ensures
        opt_string_view(r) == lookup_value_given(sets@, dns_name@, record_type@, first_is_ip@),
{
    let name = dns_name.to_owned();
    let rtype = record_type.to_owned();
    let a_type = "A".to_owned();
    let is_a = rtype == a_type;
    let ghost target = lookup_value_given(sets@, dns_name@, record_type@, first_is_ip@);
    let mut i: usize = 0;
    assert(sets@.skip(0) == sets@);
    assert(first_is_ip@.skip(0) == first_is_ip@);
    while i < sets.len()
        invariant
            i <= sets.len(),
            first_is_ip.len() == sets.len(),
            name@ == dns_name@,
            rtype@ == record_type@,
            is_a == (record_type@ == "A"@),
            lookup_value_given(
                sets@.skip(i as int),
                dns_name@,
                record_type@,
                first_is_ip@.skip(i as int),
            ) == target,
            target == lookup_value_given(sets@, dns_name@, record_type@, first_is_ip@),
        decreases sets.len() - i,
    {
        let set = &sets[i];
        let ghost rest = sets@.skip(i as int);
        let ghost rest_ip = first_is_ip@.skip(i as int);
        assert(rest[0] == sets@[i as int]);
        assert(rest_ip[0] == first_is_ip@[i as int]);
        assert(rest.drop_first() == sets@.skip(i as int + 1));
        assert(rest_ip.drop_first() == first_is_ip@.skip(i as int + 1));
        if set.name == name && set.record_type == rtype {
            match &set.values {
                Some(vals) => {
                    if vals.len() > 0 {
                        if !(is_a && !first_is_ip[i]) {
                            let v = vals[0].clone();
                            assert(set_value_given(
                                sets@[i as int],
                                dns_name@,
                                record_type@,
                                first_is_ip@[i as int],
                            ) == Some(v@));
                            assert(rest.len() > 0);
                            return Some(v);
                        }
                    }
                },
                None => {},
            }
        }
        i = i + 1;
    }
    None
}

/// The current value of a record, from a listing (`None` where the listing
/// failed).
pub open spec fn listed_value(
    record_sets: Option<Vec<RecordSet>>,
    dns_name: Seq<char>,
    record_type: Seq<char>,
) -> Option<Seq<char>> {
    match record_sets {
        Some(sets) => lookup_value(sets@, dns_name, record_type),
        None => None,
    }
}

/// Reads the current value of the `record_type` record named `dns_name`
/// from the listed record sets.
pub fn select_record_value(
    record_sets: &Option<Vec<RecordSet>>,
    dns_name: &str,
    record_type: &str,
) -> (r: Option<String>)
    ensures
        opt_string_view(r) == listed_value(*record_sets, dns_name@, record_type@),
{
    let sets = match record_sets {
        Some(sets) => sets,
        None => {
            return None;
        },
    };
    let mut first_is_ip: Vec<bool> = Vec::new();
    let mut i: usize = 0;
    while i < sets.len()
        invariant
            i <= sets.len(),
            first_is_ip.len() == i,
            forall|k: int| 0 <= k < i ==> #[trigger] first_is_ip@[k] == first_value_is_ip(sets@[k]),
        decreases sets.len() - i,
    {
        let is_ip = match &sets[i].values {
            Some(vals) => vals.len() > 0 && parses_as_ip(vals[0].as_str()),
            None => false,
        };
        first_is_ip.push(is_ip);
        i = i + 1;
    }
    proof {
        lemma_lookup_value_given(sets@, dns_name@, record_type@, first_is_ip@);
    }
    pick_record_value(sets, dns_name, record_type, &first_is_ip)
}

/// A change to a record set: create it or replace its value.
pub struct RecordChange {
    pub hosted_zone_id: String,
    pub action: String,
    pub record_name: String,
    pub record_type: String,
    pub value: String,
    pub ttl: i64,
    pub comment: String,
}

/// The mathematical content of a `RecordChange`.
pub struct RecordChangeView {
    pub hosted_zone_id: Seq<char>,
    pub action: Seq<char>,
    pub record_name: Seq<char>,
    pub record_type: Seq<char>,
    pub value: Seq<char>,
    pub ttl: i64,
    pub comment: Seq<char>,
}

impl View for RecordChange {
    type V = RecordChangeView;

    open spec fn view(&self) -> RecordChangeView {
        RecordChangeView {
            hosted_zone_id: self.hosted_zone_id@,
            action: self.action@,
            record_name: self.record_name@,
            record_type: self.record_type@,
            value: self.value@,
            ttl: self.ttl,
            comment: self.comment@,
        }
    }
}

/// An upsert of the `record_type` record of `subdomain_name` in the zone
/// to `value`, with a time to live of 300 seconds.
pub open spec fn upsert_spec(
    zone_id: Seq<char>,
    zone_name: Seq<char>,
    subdomain_name: Seq<char>,
    record_type: Seq<char>,
    value: Seq<char>,
) -> RecordChangeView {
    RecordChangeView {
        hosted_zone_id: zone_id,
        action: "UPSERT"@,
        record_name: dns_name_spec(subdomain_name, zone_name),
        record_type: record_type,
        value: value,
        ttl: 300,
        comment: "Updated by r53-ddns"@,
    }
}

/// A change names the record `<subdomain><zone>` of the given type in the
/// given zone, replaces (or creates) it with the value, for 300 seconds;
/// the lookup of a record lists the zone from that same name on.
pub proof fn law_change_and_query_fields(
    zone_id: Seq<char>,
    zone_name: Seq<char>,
    subdomain_name: Seq<char>,
    record_type: Seq<char>,
    value: Seq<char>,
)
    ensures
        upsert_spec(zone_id, zone_name, subdomain_name, record_type, value) == (RecordChangeView {
            hosted_zone_id: zone_id,
            action: "UPSERT"@,
            record_name: subdomain_name + zone_name,
            record_type: record_type,
            value: value,
            ttl: 300,
            comment: "Updated by r53-ddns"@,
        }),
        record_query_spec(zone_id, zone_name, subdomain_name, record_type) == (RecordQueryView {
            hosted_zone_id: zone_id,
            start_record_name: subdomain_name + zone_name,
            record_type: record_type,
        }),
        nat_subdomain_spec(subdomain_name) == "\\052."@ + subdomain_name,
{
}

/// Builds the change that sets a record.
pub fn upsert_change(
    zone_id: &str,
    zone_name: &str,
    subdomain_name: &str,
    record_type: &str,
    value: &str,
) -> (c: RecordChange)
    ensures
        c@ == upsert_spec(zone_id@, zone_name@, subdomain_name@, record_type@, value@),
{
    RecordChange {
        hosted_zone_id: zone_id.to_owned(),
        action: "UPSERT".to_owned(),
        record_name: dns_name(subdomain_name, zone_name),
        record_type: record_type.to_owned(),
        value: value.to_owned(),
        ttl: 300,
        comment: "Updated by r53-ddns".to_owned(),
    }
}

/// A hosted zone as a listing names it: its domain name and its id path
/// (such as `/hostedzone/Z1234`).
pub struct HostedZone {
    pub name: String,
    pub id: String,
}

/// One page of the hosted zone listing.
pub struct ZonePage {
    pub zones: Vec<HostedZone>,
    pub is_truncated: bool,
    pub next_marker: Option<String>,
}

/// What to do after one page of the zone listing.
pub enum ZoneLookup {
    /// The zone was found; this is its id.
    Found(String),
    /// Not on this page; ask for the page at this marker.
    Next(Option<String>),
    /// The zone is not there, or the listing failed.
    NotFound,
}

/// The mathematical content of a `ZoneLookup`.
pub enum ZoneLookupView {
    Found(Seq<char>),
    Next(Option<Seq<char>>),
    NotFound,
}

impl View for ZoneLookup {
    type V = ZoneLookupView;

    open spec fn view(&self) -> ZoneLookupView {
        match self {
            ZoneLookup::Found(id) => ZoneLookupView::Found(id@),
            ZoneLookup::Next(marker) => ZoneLookupView::Next(opt_string_view(*marker)),
            ZoneLookup::NotFound => ZoneLookupView::NotFound,
        }
    }
}

/// The position of the last `c` in `s`, or -1.
pub open spec fn last_index_of(s: Seq<char>, c: char) -> int
    decreases s.len(),
{
    if s.len() == 0 {
        -1
    } else if s.last() == c {
        s.len() - 1
    } else {
        last_index_of(s.drop_last(), c)
    }
}

/// The last position of `c`, when there is one, holds `c`, and none after it does.
pub proof fn lemma_last_index_of(s: Seq<char>, c: char)
    ensures
        -1 <= last_index_of(s, c) < s.len(),
        last_index_of(s, c) >= 0 ==> s[last_index_of(s, c)] == c,
        forall|j: int| last_index_of(s, c) < j < s.len() ==> s[j] != c,
        s.contains(c) ==> last_index_of(s, c) >= 0,
    decreases s.len(),
{
    if s.len() > 0 {
        lemma_last_index_of(s.drop_last(), c);
        assert forall|j: int| last_index_of(s, c) < j < s.len() implies s[j] != c by {
            if j < s.len() - 1 {
                assert(s.drop_last()[j] == s[j]);
            }
        }
        if s.contains(c) && s.last() != c {
            let k = choose|k: int| 0 <= k < s.len() && s[k] == c;
            assert(s.drop_last()[k] == c);
        }
    }
}

/// What follows the last `/` of a zone's id path: the bare zone id.
pub open spec fn after_last_slash(s: Seq<char>) -> Seq<char> {
    s.subrange(last_index_of(s, '/') + 1, s.len() as int)
}

/// The zone id within an id path (`str::rsplit_once('/')`, second half).
pub fn zone_id_from_path(path: &str) -> (r: String)
    requires
        path@.contains('/'),
    ensures
        r@ == after_last_slash(path@),
{
    proof {
        lemma_last_index_of(path@, '/');
    }
    let n = path.unicode_len();
    let mut j: usize = n;
    while j > 0 && path.get_char(j - 1) != '/'
        invariant
            n == path@.len(),
            j <= n,
            forall|k: int| j <= k < n ==> path@[k] != '/',
            last_index_of(path@, '/') < j,
            last_index_of(path@, '/') >= 0,
            path@[last_index_of(path@, '/')] == '/',
        decreases j,
    {
        j = j - 1;
    }
    proof {
        if j == 0 {
            assert(path@[last_index_of(path@, '/')] == '/');
        }
        assert(last_index_of(path@, '/') == j - 1);
    }
    path.substring_char(j, n).to_owned()
}

/// The position of the first zone named `name`, or -1.
pub open spec fn first_zone_named(zones: Seq<HostedZone>, name: Seq<char>) -> int
    decreases zones.len(),
{
    if zones.len() == 0 {
        -1
    } else if zones[0].name@ == name {
        0
    } else {
        let k = first_zone_named(zones.drop_first(), name);
        if k < 0 {
            -1
        } else {
            k + 1
        }
    }
}

/// The first zone named `name` is found where no earlier one is named so.
pub proof fn lemma_first_zone_named(zones: Seq<HostedZone>, name: Seq<char>, i: int)
    requires
        0 <= i <= zones.len(),
        forall|j: int| 0 <= j < i ==> (#[trigger] zones[j]).name@ != name,
    ensures
        i < zones.len() && zones[i].name@ == name ==> first_zone_named(zones, name) == i,
        i == zones.len() ==> first_zone_named(zones, name) == -1,
    decreases i,
{
    if i > 0 {
        let rest = zones.drop_first();
        assert forall|j: int| 0 <= j < i - 1 implies (#[trigger] rest[j]).name@ != name by {
            assert(rest[j] == zones[j + 1]);
        }
        lemma_first_zone_named(rest, name, i - 1);
        assert(zones[0].name@ != name);
    }
}

/// The next step of the search for the zone named `zone_name`, from one
/// page of the listing (`None` where the listing failed).
pub open spec fn zone_lookup_spec(page: Option<ZonePage>, zone_name: Seq<char>) -> ZoneLookupView {
    match page {
        None => ZoneLookupView::NotFound,
        Some(p) => {
            let k = first_zone_named(p.zones@, zone_name);
            if k >= 0 {
                ZoneLookupView::Found(after_last_slash(p.zones@[k].id@))
            } else if p.is_truncated {
                ZoneLookupView::Next(opt_string_view(p.next_marker))
            } else {
                ZoneLookupView::NotFound
            }
        },
    }
}

/// The first zone named `zone_name` on the page, if any, has an id path
/// with a `/` in it.
pub open spec fn zone_id_has_slash(page: Option<ZonePage>, zone_name: Seq<char>) -> bool {
    page matches Some(p) ==> (first_zone_named(p.zones@, zone_name) >= 0 ==> p.zones@[first_zone_named(
        p.zones@,
        zone_name,
    )].id@.contains('/'))
}

/// The zone id taken from an id path is everything after its last `/`: the
/// path ends with `/` and then the id, and the id holds no `/`.
pub proof fn law_zone_id_after_last_slash(path: Seq<char>)
    requires
        path.contains('/'),
    ensures
        ({
            let id = after_last_slash(path);
            &&& id.len() < path.len()
            &&& path[path.len() - id.len() - 1] == '/'
            &&& path.subrange(path.len() - id.len(), path.len() as int) == id
            &&& forall|j: int| 0 <= j < id.len() ==> id[j] != '/'
        }),
{
    lemma_last_index_of(path, '/');
    let id = after_last_slash(path);
    assert forall|j: int| 0 <= j < id.len() implies id[j] != '/' by {
        assert(id[j] == path[last_index_of(path, '/') + 1 + j]);
    }
}

/// A page that names the zone gives its id, from the first zone on the page
/// with that name, wherever it stands on the page.
pub proof fn law_zone_found_on_page(page: ZonePage, zone_name: Seq<char>, k: int)
    requires
        0 <= k < page.zones@.len(),
        page.zones@[k].name@ == zone_name,
        forall|j: int| 0 <= j < k ==> (#[trigger] page.zones@[j]).name@ != zone_name,
    ensures
        zone_lookup_spec(Some(page), zone_name) == ZoneLookupView::Found(
            after_last_slash(page.zones@[k].id@),
        ),
{
    lemma_first_zone_named(page.zones@, zone_name, k);
}

/// A page without the zone leads to the next page when the listing goes
/// on, and to nothing otherwise; a failed listing finds nothing.
pub proof fn law_zone_missing_from_page(page: ZonePage, zone_name: Seq<char>)
    requires
        forall|j: int| 0 <= j < page.zones@.len() ==> (#[trigger] page.zones@[j]).name@ != zone_name,
    ensures
        zone_lookup_spec(Some(page), zone_name) == if page.is_truncated {
            ZoneLookupView::Next(
                match page.next_marker {
                    Some(m) => Some(m@),
                    None => None,
                },
            )
        } else {
            ZoneLookupView::NotFound
        },
        zone_lookup_spec(None, zone_name) == ZoneLookupView::NotFound,
{
    lemma_first_zone_named(page.zones@, zone_name, page.zones@.len() as int);
}

/// Looks for the zone named `zone_name` on one page of the listing.
pub fn zone_lookup_step(page: &Option<ZonePage>, zone_name: &str) -> (r: ZoneLookup)
    requires
        zone_id_has_slash(*page, zone_name@),
    ensures
        r@ == zone_lookup_spec(*page, zone_name@),
{
    let p = match page {
        Some(p) => p,
        None => {
            return ZoneLookup::NotFound;
        },
    };
    let name = zone_name.to_owned();
    let ghost target = zone_lookup_spec(*page, zone_name@);
    let mut i: usize = 0;
    while i < p.zones.len()
        invariant
            i <= p.zones.len(),
            name@ == zone_name@,
            *page == Some(*p),
            target == zone_lookup_spec(*page, zone_name@),
            zone_id_has_slash(*page, zone_name@),
            forall|j: int| 0 <= j < i ==> (#[trigger] p.zones@[j]).name@ != zone_name@,
        decreases p.zones.len() - i,
    {
        if p.zones[i].name == name {
            proof {
                lemma_first_zone_named(p.zones@, zone_name@, i as int);
            }
            return ZoneLookup::Found(zone_id_from_path(p.zones[i].id.as_str()));
        }
        i = i + 1;
    }
    proof {
        lemma_first_zone_named(p.zones@, zone_name@, i as int);
    }
    if p.is_truncated {
        match &p.next_marker {
            Some(m) => ZoneLookup::Next(Some(m.clone())),
            None => ZoneLookup::Next(None),
        }
    } else {
        ZoneLookup::NotFound
    }
}

} // verus!
