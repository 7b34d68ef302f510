//! One DNS check as a state machine: the program performs each action it
//! returns and hands back what came of it as the next event.
use vstd::prelude::*;
use crate::route53::{
    dns_name, dns_name_spec, nat_subdomain_name, nat_subdomain_spec, record_query, record_query_spec,
    upsert_change, upsert_spec, RecordChange, RecordChangeView, RecordQuery, RecordQueryView,
    RecordSet, holds_written_set, law_read_back_written_value, lookup_value,
};
use crate::address::is_ip_address;
use crate::alert::{
    address_alert, address_alert_spec, error_alert, error_alert_spec, ip_change_alert_spec,
    ip_new_alert_spec,
};
use crate::text::opt_string_view;

verus! {

/// What one check works on: the zone, the subdomain (both fully qualified)
/// and whether the wildcard record is kept too.
pub struct CheckConfig {
    pub zone_id: String,
    pub zone_name: String,
    pub subdomain_name: String,
    pub nat: bool,
}

/// Where a check stands.
#[derive(Clone, Copy, Debug, PartialEq, Eq, Structural)]
pub enum CheckStage {
    Start,
    AwaitLookups,
    AwaitAddressWrite,
    AwaitNatLookup,
    AwaitNatWrite,
    Finished,
}

/// What came of the last action. A Route 53 call that failed is reported
/// as `Err` with a message describing the failure.
pub enum CheckEvent {
    /// The check is to begin.
    Begin,
    /// The external address (empty when no service answered) and the
    /// current `A` record value, if there is one.
    LookupsDone { external_ip: String, dns_ip: Result<Option<String>, String> },
    /// The `A` record change was sent.
    AddressWritten { result: Result<(), String> },
    /// The current wildcard `CNAME` value, if there is one.
    NatLookupDone { cname: Result<Option<String>, String> },
    /// The wildcard record change was sent.
    NatWritten { result: Result<(), String> },
}

/// The Route 53 or address service request of an action.
pub enum CheckRequest {
    /// Ask the address services for the external address and, at the same
    /// time, Route 53 for the record of this query.
    LookUpAddresses(RecordQuery),
    /// Ask Route 53 for the record of this query.
    LookUpRecord(RecordQuery),
    /// Send this change to Route 53.
    Upsert(RecordChange),
    /// The check is over.
    Finish,
}

/// What the program is to do next: hand each alert document, in order, to
/// the alert script, then make the request.
pub struct CheckAction {
    pub alerts: Vec<String>,
    pub request: CheckRequest,
}

/// The mathematical content of a `CheckRequest`.
pub enum CheckRequestView {
    LookUpAddresses(RecordQueryView),
    LookUpRecord(RecordQueryView),
    Upsert(RecordChangeView),
    Finish,
}

/// The mathematical content of a `CheckAction`.
pub struct CheckActionView {
    pub alerts: Seq<Seq<char>>,
    pub request: CheckRequestView,
}

impl View for CheckRequest {
    type V = CheckRequestView;

    open spec fn view(&self) -> CheckRequestView {
        match self {
            CheckRequest::LookUpAddresses(q) => CheckRequestView::LookUpAddresses(q@),
            CheckRequest::LookUpRecord(q) => CheckRequestView::LookUpRecord(q@),
            CheckRequest::Upsert(c) => CheckRequestView::Upsert(c@),
            CheckRequest::Finish => CheckRequestView::Finish,
        }
    }
}

impl View for CheckAction {
    type V = CheckActionView;

    open spec fn view(&self) -> CheckActionView {
        CheckActionView {
            alerts: self.alerts@.map_values(|a: String| a@),
            request: self.request@,
        }
    }
}

/// The value to write to the `A` record, if any: the external address when
/// there is one and the record is missing, or holds another non-empty value.
pub open spec fn address_update(external_ip: Seq<char>, dns_ip: Option<Seq<char>>) -> Option<Seq<char>> {
    match dns_ip {
        Some(current) => if current != external_ip && current.len() > 0 && external_ip.len() > 0 {
            Some(external_ip)
        } else {
            None
        },
        None => if external_ip.len() > 0 {
            Some(external_ip)
        } else {
            None
        },
    }
}

/// The wildcard record needs writing when it is missing or points elsewhere.
pub open spec fn nat_update_needed(cname: Option<Seq<char>>, target: Seq<char>) -> bool {
    match cname {
        Some(current) => current != target,
        None => true,
    }
}

/// The record value a lookup found; a failed listing counts as no record.
pub open spec fn found_value(lookup: Result<Option<String>, String>) -> Option<Seq<char>> {
    match lookup {
        Ok(value) => opt_string_view(value),
        Err(_) => None,
    }
}

/// The error documents for the outcome of a Route 53 call: one when it
/// failed, none when it succeeded.
pub open spec fn error_alerts<T>(outcome: Result<T, String>) -> Seq<Seq<char>> {
    match outcome {
        Ok(_) => Seq::empty(),
        Err(message) => seq![error_alert_spec(message@)],
    }
}

/// The name that the `A` record of the configuration carries.
pub open spec fn config_dns_name(cfg: CheckConfig) -> Seq<char> {
    dns_name_spec(cfg.subdomain_name@, cfg.zone_name@)
}

/// After the `A` record: look up the wildcard record, or finish without NAT.
pub open spec fn nat_phase(cfg: CheckConfig) -> (CheckStage, CheckRequestView) {
    if cfg.nat {
        (
            CheckStage::AwaitNatLookup,
            CheckRequestView::LookUpRecord(
                record_query_spec(
                    cfg.zone_id@,
                    cfg.zone_name@,
                    nat_subdomain_spec(cfg.subdomain_name@),
                    "CNAME"@,
                ),
            ),
        )
    } else {
        (CheckStage::Finished, CheckRequestView::Finish)
    }
}

/// `phase` with the given alerts sent first.
pub open spec fn with_alerts(phase: (CheckStage, CheckRequestView), alerts: Seq<Seq<char>>) -> (
    CheckStage,
    CheckActionView,
) {
    (phase.0, CheckActionView { alerts, request: phase.1 })
}

/// One step of a check. A failed Route 53 call is reported to the alert
/// script; a failed listing counts as no record, and a failed write does not
/// stop the check. An event that does not answer the last action ends the
/// check.
pub open spec fn check_step(cfg: CheckConfig, stage: CheckStage, event: CheckEvent) -> (
    CheckStage,
    CheckActionView,
) {
    match (stage, event) {
        (CheckStage::Start, CheckEvent::Begin) => with_alerts(
            (
                CheckStage::AwaitLookups,
                CheckRequestView::LookUpAddresses(
                    record_query_spec(cfg.zone_id@, cfg.zone_name@, cfg.subdomain_name@, "A"@),
                ),
            ),
            Seq::empty(),
        ),
        (CheckStage::AwaitLookups, CheckEvent::LookupsDone { external_ip, dns_ip }) => {
            match address_update(external_ip@, found_value(dns_ip)) {
                Some(v) => with_alerts(
                    (
                        CheckStage::AwaitAddressWrite,
                        CheckRequestView::Upsert(
                            upsert_spec(cfg.zone_id@, cfg.zone_name@, cfg.subdomain_name@, "A"@, v),
                        ),
                    ),
                    error_alerts(dns_ip).push(
                        address_alert_spec(config_dns_name(cfg), found_value(dns_ip), v),
                    ),
                ),
                None => with_alerts(nat_phase(cfg), error_alerts(dns_ip)),
            }
        },
        (CheckStage::AwaitAddressWrite, CheckEvent::AddressWritten { result }) => with_alerts(
            nat_phase(cfg),
            error_alerts(result),
        ),
        (CheckStage::AwaitNatLookup, CheckEvent::NatLookupDone { cname }) => {
            if nat_update_needed(found_value(cname), config_dns_name(cfg)) {
                with_alerts(
                    (
                        CheckStage::AwaitNatWrite,
                        CheckRequestView::Upsert(
                            upsert_spec(
                                cfg.zone_id@,
                                cfg.zone_name@,
                                nat_subdomain_spec(cfg.subdomain_name@),
                                "CNAME"@,
                                config_dns_name(cfg),
                            ),
                        ),
                    ),
                    error_alerts(cname),
                )
            } else {
                with_alerts((CheckStage::Finished, CheckRequestView::Finish), error_alerts(cname))
            }
        },
        (CheckStage::AwaitNatWrite, CheckEvent::NatWritten { result }) => with_alerts(
            (CheckStage::Finished, CheckRequestView::Finish),
            error_alerts(result),
        ),
        _ => with_alerts((CheckStage::Finished, CheckRequestView::Finish), Seq::empty()),
    }
}

/// How far along a check a stage is.
pub open spec fn stage_rank(stage: CheckStage) -> int {
    match stage {
        CheckStage::Start => 0,
        CheckStage::AwaitLookups => 1,
        CheckStage::AwaitAddressWrite => 2,
        CheckStage::AwaitNatLookup => 3,
        CheckStage::AwaitNatWrite => 4,
        CheckStage::Finished => 5,
    }
}

/// A check compares the external address with the one in Route 53 and
/// writes the `A` record exactly when they differ (or the record is
/// missing) and an external address was found; what it writes is the `A`
/// record of the subdomain, holding the external address, and the alert
/// script hears of it.
pub proof fn law_address_written_iff_changed(
    cfg: CheckConfig,
    external_ip: String,
    dns_ip: Result<Option<String>, String>,
)
    ensures
        ({
            let (next, action) = check_step(
                cfg,
                CheckStage::AwaitLookups,
                CheckEvent::LookupsDone { external_ip, dns_ip },
            );
            let changed = external_ip@.len() > 0 && match found_value(dns_ip) {
                Some(current) => current.len() > 0 && current != external_ip@,
                None => true,
            };
            &&& (action.request is Upsert) == changed
            &&& changed ==> next == CheckStage::AwaitAddressWrite && action == CheckActionView {
                alerts: error_alerts(dns_ip).push(
                    address_alert_spec(config_dns_name(cfg), found_value(dns_ip), external_ip@),
                ),
                request: CheckRequestView::Upsert(
                    upsert_spec(cfg.zone_id@, cfg.zone_name@, cfg.subdomain_name@, "A"@, external_ip@),
                ),
            }
        }),
{
}

/// Once Route 53 holds the external address, a check leaves the `A` record
/// alone: writing is idempotent across checks.
pub proof fn law_current_address_not_rewritten(cfg: CheckConfig, external_ip: String, dns_ip: String)
    requires
        dns_ip@ == external_ip@,
    ensures
        !(check_step(
            cfg,
            CheckStage::AwaitLookups,
            CheckEvent::LookupsDone { external_ip, dns_ip: Ok(Some(dns_ip)) },
        ).1.request is Upsert),
{
}

/// A run with an unchanged address leaves Route 53 untouched: once the
/// listings hold what a check wrote (the `A` record holding the external
/// address, and with NAT the wildcard record pointing at the subdomain), a
/// second check that reads the same external address from the services and
/// its records from those listings sends no change and no alert. It looks
/// up the `A` record, then (with NAT) the wildcard record, and finishes.
pub proof fn law_second_check_writes_nothing(
    cfg: CheckConfig,
    external_ip: String,
    address_sets: Seq<RecordSet>,
    k: int,
    dns_ip: Option<String>,
    wildcard_sets: Seq<RecordSet>,
    m: int,
    cname: Option<String>,
)
    requires
        is_ip_address(external_ip@),
        holds_written_set(
            address_sets,
            upsert_spec(cfg.zone_id@, cfg.zone_name@, cfg.subdomain_name@, "A"@, external_ip@),
            k,
        ),
        opt_string_view(dns_ip) == lookup_value(address_sets, config_dns_name(cfg), "A"@),
        cfg.nat ==> holds_written_set(
            wildcard_sets,
            upsert_spec(
                cfg.zone_id@,
                cfg.zone_name@,
                nat_subdomain_spec(cfg.subdomain_name@),
                "CNAME"@,
                config_dns_name(cfg),
            ),
            m,
        ),
        cfg.nat ==> opt_string_view(cname) == lookup_value(
            wildcard_sets,
            dns_name_spec(nat_subdomain_spec(cfg.subdomain_name@), cfg.zone_name@),
            "CNAME"@,
        ),
    ensures
        check_step(cfg, CheckStage::Start, CheckEvent::Begin) == with_alerts(
            (
                CheckStage::AwaitLookups,
                CheckRequestView::LookUpAddresses(
                    record_query_spec(cfg.zone_id@, cfg.zone_name@, cfg.subdomain_name@, "A"@),
                ),
            ),
            Seq::empty(),
        ),
        check_step(
            cfg,
            CheckStage::AwaitLookups,
            CheckEvent::LookupsDone { external_ip, dns_ip: Ok(dns_ip) },
        ) == with_alerts(nat_phase(cfg), Seq::empty()),
        cfg.nat ==> check_step(
            cfg,
            CheckStage::AwaitNatLookup,
            CheckEvent::NatLookupDone { cname: Ok(cname) },
        ) == with_alerts((CheckStage::Finished, CheckRequestView::Finish), Seq::empty()),
{
    law_read_back_written_value(
        cfg.zone_id@,
        cfg.zone_name@,
        cfg.subdomain_name@,
        "A"@,
        external_ip@,
        address_sets,
        k,
    );
    assert(opt_string_view(dns_ip) == Some(external_ip@));
    if cfg.nat {
        reveal_strlit("CNAME");
        reveal_strlit("A");
        assert("CNAME"@.len() != "A"@.len());
        law_read_back_written_value(
            cfg.zone_id@,
            cfg.zone_name@,
            nat_subdomain_spec(cfg.subdomain_name@),
            "CNAME"@,
            config_dns_name(cfg),
            wildcard_sets,
            m,
        );
    }
}

/// Once the wildcard record points at the subdomain, a check leaves it alone.
pub proof fn law_current_wildcard_not_rewritten(cfg: CheckConfig, cname: String)
    requires
        cname@ == config_dns_name(cfg),
    ensures
        check_step(
            cfg,
            CheckStage::AwaitNatLookup,
            CheckEvent::NatLookupDone { cname: Ok(Some(cname)) },
        ) == (
            CheckStage::Finished,
            CheckActionView { alerts: Seq::empty(), request: CheckRequestView::Finish },
        ),
{
}

/// With NAT on, a missing or different wildcard record is written as a
/// `CNAME` from `*.<subdomain>.<domain>` to `<subdomain>.<domain>`.
pub proof fn law_wildcard_points_at_subdomain(cfg: CheckConfig, cname: Result<Option<String>, String>)
    ensures
        ({
            let (next, action) = check_step(
                cfg,
                CheckStage::AwaitNatLookup,
                CheckEvent::NatLookupDone { cname },
            );
            &&& (action.request is Upsert) == nat_update_needed(found_value(cname), config_dns_name(cfg))
            &&& action.request is Upsert ==> action.request == CheckRequestView::Upsert(
                upsert_spec(
                    cfg.zone_id@,
                    cfg.zone_name@,
                    nat_subdomain_spec(cfg.subdomain_name@),
                    "CNAME"@,
                    dns_name_spec(cfg.subdomain_name@, cfg.zone_name@),
                ),
            )
        }),
{
}

/// The wildcard record is rewritten whenever its lookup finds it missing
/// or holding any value other than `<subdomain>.<domain>`: the write points
/// `*.<subdomain>.<domain>` at the subdomain, and only the error of a failed
/// lookup is reported.
pub proof fn law_wildcard_rewritten_unless_current(
    cfg: CheckConfig,
    cname: Result<Option<String>, String>,
)
    ensures
        ({
            let stale = match cname {
                Ok(Some(v)) => v@ != cfg.subdomain_name@ + cfg.zone_name@,
                _ => true,
            };
            let (next, action) = check_step(
                cfg,
                CheckStage::AwaitNatLookup,
                CheckEvent::NatLookupDone { cname },
            );
            &&& stale ==> next == CheckStage::AwaitNatWrite && action.request == CheckRequestView::Upsert(
                RecordChangeView {
                    hosted_zone_id: cfg.zone_id@,
                    action: "UPSERT"@,
                    record_name: "\\052."@ + cfg.subdomain_name@ + cfg.zone_name@,
                    record_type: "CNAME"@,
                    value: cfg.subdomain_name@ + cfg.zone_name@,
                    ttl: 300,
                    comment: "Updated by r53-ddns"@,
                },
            )
            &&& !stale ==> next == CheckStage::Finished && action.request == CheckRequestView::Finish
            &&& action.alerts == match cname {
                Err(m) => seq![error_alert_spec(m@)],
                Ok(_) => Seq::<Seq<char>>::empty(),
            }
        }),
{
    assert("\\052."@ + cfg.subdomain_name@ + cfg.zone_name@ =~= "\\052."@ + (cfg.subdomain_name@
        + cfg.zone_name@));
}

/// The address record is written with the external address exactly when an
/// external address was found and the record is missing (or its listing
/// failed) or holds another non-empty value; the alert tells the old value
/// when there was one. Stated case by case on what the lookup returned.
pub proof fn law_address_write_cases(cfg: CheckConfig, external_ip: String, dns_ip: Result<
    Option<String>,
    String,
>)
    ensures
        ({
            let (next, action) = check_step(
                cfg,
                CheckStage::AwaitLookups,
                CheckEvent::LookupsDone { external_ip, dns_ip },
            );
            let name = cfg.subdomain_name@ + cfg.zone_name@;
            let write = RecordChangeView {
                hosted_zone_id: cfg.zone_id@,
                action: "UPSERT"@,
                record_name: name,
                record_type: "A"@,
                value: external_ip@,
                ttl: 300,
                comment: "Updated by r53-ddns"@,
            };
            &&& external_ip@.len() == 0 ==> !(action.request is Upsert)
            &&& dns_ip matches Ok(Some(d)) ==> (d@ == external_ip@ || d@.len() == 0 ==> !(
            action.request is Upsert))
            &&& dns_ip matches Ok(Some(d)) ==> (d@ != external_ip@ && d@.len() > 0 && external_ip@.len()
                > 0 ==> next == CheckStage::AwaitAddressWrite && action.request
                == CheckRequestView::Upsert(write) && action.alerts == seq![
                ip_change_alert_spec(name, d@, external_ip@),
            ])
            &&& dns_ip matches Ok(None) ==> (external_ip@.len() > 0 ==> next
                == CheckStage::AwaitAddressWrite && action.request == CheckRequestView::Upsert(write)
                && action.alerts == seq![ip_new_alert_spec(name, external_ip@)])
            &&& dns_ip matches Err(m) ==> (external_ip@.len() > 0 ==> next
                == CheckStage::AwaitAddressWrite && action.request == CheckRequestView::Upsert(write)
                && action.alerts == seq![
                error_alert_spec(m@),
                ip_new_alert_spec(name, external_ip@),
            ])
            &&& !(action.request is Upsert) ==> action.request == (if cfg.nat {
                CheckRequestView::LookUpRecord(
                    RecordQueryView {
                        hosted_zone_id: cfg.zone_id@,
                        start_record_name: "\\052."@ + name,
                        record_type: "CNAME"@,
                    },
                )
            } else {
                CheckRequestView::Finish
            })
        }),
{
    assert("\\052."@ + cfg.subdomain_name@ + cfg.zone_name@ =~= "\\052."@ + (cfg.subdomain_name@
        + cfg.zone_name@));
}

/// Without NAT a check never enters the wildcard stages (an invariant of
/// every run from `Start`), and never looks up or writes anything but the
/// `A` record.
pub proof fn law_no_wildcard_without_nat(cfg: CheckConfig, stage: CheckStage, event: CheckEvent)
    requires
        !cfg.nat,
        stage != CheckStage::AwaitNatLookup,
        stage != CheckStage::AwaitNatWrite,
    ensures
        check_step(cfg, stage, event).0 != CheckStage::AwaitNatLookup,
        check_step(cfg, stage, event).0 != CheckStage::AwaitNatWrite,
        ({
            let request = check_step(cfg, stage, event).1.request;
            &&& !(request is LookUpRecord)
            &&& request matches CheckRequestView::Upsert(c) ==> c.record_type == "A"@
            &&& request matches CheckRequestView::LookUpAddresses(q) ==> q.record_type == "A"@
        }),
{
}

/// The failure message a Route 53 outcome carried by an event that answers
/// the last action of `stage`, if the call failed.
pub open spec fn answered_failure(stage: CheckStage, event: CheckEvent) -> Option<Seq<char>> {
    match (stage, event) {
        (CheckStage::AwaitLookups, CheckEvent::LookupsDone { dns_ip: Err(m), .. }) => Some(m@),
        (CheckStage::AwaitAddressWrite, CheckEvent::AddressWritten { result: Err(m) }) => Some(m@),
        (CheckStage::AwaitNatLookup, CheckEvent::NatLookupDone { cname: Err(m) }) => Some(m@),
        (CheckStage::AwaitNatWrite, CheckEvent::NatWritten { result: Err(m) }) => Some(m@),
        _ => None,
    }
}

/// Every failed Route 53 call of a check sends the error document to the
/// alert script first; a failed write is answered without another write;
/// without a failure the only document sent is the one for an address
/// record write.
pub proof fn law_failed_calls_alerted(cfg: CheckConfig, stage: CheckStage, event: CheckEvent)
    ensures
        ({
            let action = check_step(cfg, stage, event).1;
            &&& answered_failure(stage, event) matches Some(m) ==> action.alerts.len() >= 1
                && action.alerts[0] == error_alert_spec(m)
            &&& answered_failure(stage, event) is None ==> action.alerts.len() == if stage
                == CheckStage::AwaitLookups && action.request is Upsert {
                1int
            } else {
                0int
            }
        }),
        (stage == CheckStage::AwaitAddressWrite || stage == CheckStage::AwaitNatWrite) ==> !(check_step(
            cfg,
            stage,
            event,
        ).1.request is Upsert),
{
}

/// Every step of an unfinished check moves it strictly forward, and a
/// finished check stays finished with nothing to do; so a check ends after
/// at most five actions, two of them writes.
pub proof fn law_check_progresses(cfg: CheckConfig, stage: CheckStage, event: CheckEvent)
    ensures
        stage != CheckStage::Finished ==> stage_rank(check_step(cfg, stage, event).0) > stage_rank(
            stage,
        ),
        stage == CheckStage::Finished ==> check_step(cfg, stage, event) == (
            CheckStage::Finished,
            CheckActionView { alerts: Seq::empty(), request: CheckRequestView::Finish },
        ),
        check_step(cfg, stage, event).0 == CheckStage::Finished <==> check_step(cfg, stage, event).1.request
            is Finish,
{
}

/// Decides whether the `A` record is to be written, and with what.
pub fn address_update_value(external_ip: &String, dns_ip: &Option<String>) -> (r: Option<String>)
    ensures
        opt_string_view(r) == address_update(external_ip@, opt_string_view(*dns_ip)),
{
    let external_empty = external_ip.as_str().is_empty();
    match dns_ip {
        Some(current) => {
            if !(*current == *external_ip) && !current.as_str().is_empty() && !external_empty {
                Some(external_ip.clone())
            } else {
                None
            }
        },
        None => {
            if !external_empty {
                Some(external_ip.clone())
            } else {
                None
            }
        },
    }
}

/// Decides whether the wildcard record is to be written.
pub fn nat_update_required(cname: &Option<String>, target: &String) -> (r: bool)
    ensures
        r == nat_update_needed(opt_string_view(*cname), target@),
{
    match cname {
        Some(current) => !(*current == *target),
        None => true,
    }
}

/// Splits a lookup outcome into the value found and the error documents.
fn lookup_outcome(lookup: Result<Option<String>, String>) -> (r: (Option<String>, Vec<String>))
    ensures
        opt_string_view(r.0) == found_value(lookup),
        r.1@.map_values(|a: String| a@) == error_alerts(lookup),
{
    let mut alerts: Vec<String> = Vec::new();
    match lookup {
        Ok(value) => {
            assert(alerts@.map_values(|a: String| a@) =~= Seq::<Seq<char>>::empty());
            (value, alerts)
        },
        Err(message) => {
            alerts.push(error_alert(message.as_str()));
            assert(alerts@.map_values(|a: String| a@) =~= seq![error_alert_spec(message@)]);
            (None, alerts)
        },
    }
}

/// The error documents for the outcome of a write.
fn write_outcome(result: Result<(), String>) -> (r: Vec<String>)
    ensures
        r@.map_values(|a: String| a@) == error_alerts(result),
{
    let mut alerts: Vec<String> = Vec::new();
    match result {
        Ok(()) => {
            assert(alerts@.map_values(|a: String| a@) =~= Seq::<Seq<char>>::empty());
        },
        Err(message) => {
            alerts.push(error_alert(message.as_str()));
            assert(alerts@.map_values(|a: String| a@) =~= seq![error_alert_spec(message@)]);
        },
    }
    alerts
}

/// An action that sends no alert.
fn quiet(request: CheckRequest) -> (r: CheckAction)
    ensures
        r@ == (CheckActionView { alerts: Seq::empty(), request: request@ }),
{
    let alerts: Vec<String> = Vec::new();
    let r = CheckAction { alerts, request };
    assert(r@.alerts =~= Seq::<Seq<char>>::empty());
    r
}

/// The step after the `A` record.
fn after_address(cfg: &CheckConfig, alerts: Vec<String>) -> (r: (CheckStage, CheckAction))
    ensures
        (r.0, r.1@) == with_alerts(nat_phase(*cfg), alerts@.map_values(|a: String| a@)),
{
    if cfg.nat {
        let nat_sub = nat_subdomain_name(cfg.subdomain_name.as_str());
        (
            CheckStage::AwaitNatLookup,
            CheckAction {
                alerts,
                request: CheckRequest::LookUpRecord(
                    record_query(
                        cfg.zone_id.as_str(),
                        cfg.zone_name.as_str(),
                        nat_sub.as_str(),
                        "CNAME",
                    ),
                ),
            },
        )
    } else {
        (CheckStage::Finished, CheckAction { alerts, request: CheckRequest::Finish })
    }
}

/// Takes one step of a check.
pub fn check_next(cfg: &CheckConfig, stage: CheckStage, event: CheckEvent) -> (r: (
    CheckStage,
    CheckAction,
))
    ensures
        (r.0, r.1@) == check_step(*cfg, stage, event),
{
    match (stage, event) {
        (CheckStage::Start, CheckEvent::Begin) => (
            CheckStage::AwaitLookups,
            quiet(
                CheckRequest::LookUpAddresses(
                    record_query(
                        cfg.zone_id.as_str(),
                        cfg.zone_name.as_str(),
                        cfg.subdomain_name.as_str(),
                        "A",
                    ),
                ),
            ),
        ),
        (CheckStage::AwaitLookups, CheckEvent::LookupsDone { external_ip, dns_ip }) => {
            let ghost lookup = dns_ip;
            let (current, mut alerts) = lookup_outcome(dns_ip);
            match address_update_value(&external_ip, &current) {
                Some(v) => {
                    let name = dns_name(cfg.subdomain_name.as_str(), cfg.zone_name.as_str());
                    let alert = address_alert(name.as_str(), &current, v.as_str());
                    let ghost before = alerts@;
                    alerts.push(alert);
                    assert(alerts@.map_values(|a: String| a@) =~= before.map_values(|a: String| a@).push(
                        alert@,
                    ));
                    (
                        CheckStage::AwaitAddressWrite,
                        CheckAction {
                            alerts,
                            request: CheckRequest::Upsert(
                                upsert_change(
                                    cfg.zone_id.as_str(),
                                    cfg.zone_name.as_str(),
                                    cfg.subdomain_name.as_str(),
                                    "A",
                                    v.as_str(),
                                ),
                            ),
                        },
                    )
                },
                None => after_address(cfg, alerts),
            }
        },
        (CheckStage::AwaitAddressWrite, CheckEvent::AddressWritten { result }) => after_address(
            cfg,
            write_outcome(result),
        ),
        (CheckStage::AwaitNatLookup, CheckEvent::NatLookupDone { cname }) => {
            let (current, alerts) = lookup_outcome(cname);
            let target = dns_name(cfg.subdomain_name.as_str(), cfg.zone_name.as_str());
            if nat_update_required(&current, &target) {
                let nat_sub = nat_subdomain_name(cfg.subdomain_name.as_str());
                (
                    CheckStage::AwaitNatWrite,
                    CheckAction {
                        alerts,
                        request: CheckRequest::Upsert(
                            upsert_change(
                                cfg.zone_id.as_str(),
                                cfg.zone_name.as_str(),
                                nat_sub.as_str(),
                                "CNAME",
                                target.as_str(),
                            ),
                        ),
                    },
                )
            } else {
                (CheckStage::Finished, CheckAction { alerts, request: CheckRequest::Finish })
            }
        },
        (CheckStage::AwaitNatWrite, CheckEvent::NatWritten { result }) => (
            CheckStage::Finished,
            CheckAction { alerts: write_outcome(result), request: CheckRequest::Finish },
        ),
        _ => (CheckStage::Finished, quiet(CheckRequest::Finish)),
    }
}

} // verus!
