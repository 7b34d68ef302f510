//! The command line and what a run makes of it.
use vstd::prelude::*;
use crate::address::opt_string_views;
use crate::hostname::{is_valid_hostname, valid_hostname};
use crate::text::{
    join_path, join_path_spec, opt_string_view, split_chars, split_on, string_views, with_trailing_dot,
    with_trailing_dot_spec,
};

verus! {

/// The command line arguments.
pub struct Options {
    /// The subdomain to save (required).
    pub subdomain: Option<String>,
    /// The domain to save the record in (required).
    pub domain: Option<String>,
    /// The AWS region, `us-east-1` when not given or not known.
    pub region: Option<String>,
    /// A comma separated list of address services.
    pub ipaddress_svc: Option<String>,
    /// Also keep a wildcard `CNAME` record under the subdomain.
    pub nat: bool,
    /// The directory of the log file, `/var/tmp` when not given.
    pub logdir: Option<String>,
    /// A script called with a JSON document on address changes and errors.
    pub alert_script: Option<String>,
    /// Verbose logging.
    pub verbose: bool,
    /// Debug logging.
    pub debug: bool,
    /// Seconds between consecutive checks; 0 checks once.
    pub check: u64,
    /// Print version information.
    pub version: bool,
}

/// How much is logged to the console.
#[derive(Clone, Copy, Debug, PartialEq, Eq, Structural)]
pub enum LogLevel {
    Debug,
    Info,
    Warn,
}

/// Debug logging wins over verbose logging; otherwise only warnings.
pub open spec fn console_level_spec(debug: bool, verbose: bool) -> LogLevel {
    if debug {
        LogLevel::Debug
    } else if verbose {
        LogLevel::Info
    } else {
        LogLevel::Warn
    }
}

/// The console log level the options ask for.
pub fn console_level(options: &Options) -> (r: LogLevel)
    ensures
        r == console_level_spec(options.debug, options.verbose),
{
    if options.debug {
        LogLevel::Debug
    } else if options.verbose {
        LogLevel::Info
    } else {
        LogLevel::Warn
    }
}

/// The canonical name of the region that `rusoto_core::Region::from_str`
/// makes of `name`, or `None` where it refuses the name.
pub uninterp spec fn region_for_name(name: Seq<char>) -> Option<Seq<char>>;

/// Parses a region name with `rusoto_core::Region::from_str` and gives back
/// the parsed region's `name()`. Claimed: the result is the name
/// `region_for_name` of the argument.
#[verifier::external_body]
fn parse_region(name: &str) -> (r: Option<String>)
    ensures
        opt_string_view(r) == region_for_name(name@),
{
    match <rusoto_core::Region as core::str::FromStr>::from_str(name) {
        Ok(region) => Some(region.name().to_owned()),
        Err(_) => None,
    }
}

/// The name of `rusoto_core::Region::UsEast1`. Claimed, as its source
/// shows: `us-east-1`.
#[verifier::external_body]
fn default_region_name() -> (r: String)
    ensures
        r@ == "us-east-1"@,
{
    rusoto_core::Region::UsEast1.name().to_owned()
}

/// The region used: the parsed one, else `us-east-1`.
pub open spec fn region_or_default_spec(parsed: Option<Seq<char>>) -> Seq<char> {
    match parsed {
        Some(name) => name,
        None => "us-east-1"@,
    }
}

/// Falls back to `us-east-1` when no region was parsed.
pub fn region_or_default(parsed: Option<String>) -> (r: String)
    ensures
        r@ == region_or_default_spec(opt_string_view(parsed)),
{
    match parsed {
        Some(name) => name,
        None => default_region_name(),
    }
}

/// The region a run uses for the region option.
pub open spec fn resolved_region(region: Option<Seq<char>>) -> Seq<char> {
    match region {
        Some(name) => region_or_default_spec(region_for_name(name)),
        None => "us-east-1"@,
    }
}

/// Resolves the region option.
pub fn resolve_region(region: &Option<String>) -> (r: String)
    ensures
        r@ == resolved_region(opt_string_view(*region)),
{
    match region {
        Some(name) => region_or_default(parse_region(name.as_str())),
        None => default_region_name(),
    }
}

/// The address services named by the `-i` option.
pub fn split_services(addrs: &str) -> (r: Vec<String>)
    ensures
        string_views(r@) == split_chars(addrs@, ','),
{
    split_on(addrs, ',')
}

/// What a run checks, and how often.
pub struct RunConfig {
    /// The subdomain, with its trailing dot.
    pub subdomain_name: String,
    /// The domain, with its trailing dot.
    pub zone_name: String,
    /// The canonical AWS region name.
    pub region_name: String,
    /// Keep the wildcard record too.
    pub nat: bool,
    /// The user's address services, if given.
    pub ip_services: Option<Vec<String>>,
    /// Seconds between checks; 0 checks once.
    pub check_interval: u64,
}

/// What the program does with its options.
pub enum Startup {
    /// Check the record.
    Run(RunConfig),
    /// The subdomain is not a valid hostname; warn and do nothing.
    InvalidSubdomain(String),
    /// Only one of subdomain and domain was given: print the version line
    /// and an error, and stop.
    Unpaired,
    /// Neither was given.
    Idle,
}

/// `startup` is what `options` call for.
pub open spec fn startup_spec(options: Options, startup: Startup) -> bool {
    match (options.subdomain, options.domain) {
        (Some(sub), Some(domain)) => if valid_hostname(sub@) {
            startup matches Startup::Run(cfg) && {
                &&& cfg.subdomain_name@ == with_trailing_dot_spec(sub@)
                &&& cfg.zone_name@ == with_trailing_dot_spec(domain@)
                &&& cfg.region_name@ == resolved_region(opt_string_view(options.region))
                &&& cfg.nat == options.nat
                &&& opt_string_views(cfg.ip_services) == match options.ipaddress_svc {
                    Some(addrs) => Some(split_chars(addrs@, ',')),
                    None => None,
                }
                &&& cfg.check_interval == options.check
            }
        } else {
            startup matches Startup::InvalidSubdomain(s) && s@ == sub@
        },
        (Some(_), None) => startup is Unpaired,
        (None, Some(_)) => startup is Unpaired,
        (None, None) => startup is Idle,
    }
}

/// What a run takes from the options: it runs only when both subdomain
/// and domain are given and the subdomain is valid; its names are the given
/// ones with a dot appended unless they already end with one; `-n`, the
/// check gap and the presence of a service list carry over unchanged; the
/// region is `us-east-1` unless one is given. Subdomain without domain, or
/// domain without subdomain, stops the program; neither does nothing.
pub proof fn law_run_follows_options(options: Options, startup: Startup)
    requires
        startup_spec(options, startup),
    ensures
        startup matches Startup::Run(cfg) ==> {
            &&& options.subdomain matches Some(sub) && valid_hostname(sub@) && (cfg.subdomain_name@ == sub@
                || cfg.subdomain_name@ == sub@.push('.'))
            &&& options.domain matches Some(dom) && (cfg.zone_name@ == dom@ || cfg.zone_name@ == dom@.push(
                '.',
            ))
            &&& cfg.subdomain_name@.len() > 0 && cfg.subdomain_name@.last() == '.'
            &&& cfg.zone_name@.len() > 0 && cfg.zone_name@.last() == '.'
            &&& cfg.nat == options.nat
            &&& cfg.check_interval == options.check
            &&& (cfg.ip_services is Some) == (options.ipaddress_svc is Some)
            &&& options.region is None ==> cfg.region_name@ == "us-east-1"@
        },
        (options.subdomain is Some && options.domain is Some && !valid_hostname(
            options.subdomain->0@,
        )) ==> (startup matches Startup::InvalidSubdomain(s) && s@ == options.subdomain->0@),
        (options.subdomain is Some) != (options.domain is Some) ==> startup is Unpaired,
        (options.subdomain is None && options.domain is None) ==> startup is Idle,
{
}

/// Decides what to do with the options.
pub fn plan_startup(options: Options) -> (r: Startup)
    ensures
        startup_spec(options, r),
{
    let ghost opts = options;
    match (options.subdomain, options.domain) {
        (Some(sub), Some(domain)) => {
            if is_valid_hostname(sub.as_str()) {
                let subdomain_name = with_trailing_dot(sub);
                let zone_name = with_trailing_dot(domain);
                let region_name = resolve_region(&options.region);
                let ip_services = match &options.ipaddress_svc {
                    Some(addrs) => Some(split_services(addrs.as_str())),
                    None => None,
                };
                Startup::Run(
                    RunConfig {
                        subdomain_name,
                        zone_name,
                        region_name,
                        nat: options.nat,
                        ip_services,
                        check_interval: options.check,
                    },
                )
            } else {
                Startup::InvalidSubdomain(sub)
            }
        },
        (Some(_), None) => Startup::Unpaired,
        (None, Some(_)) => Startup::Unpaired,
        (None, None) => Startup::Idle,
    }
}

/// The version line is printed at the end when asked for, unless the run
/// already stopped on an unpaired subdomain or domain.
pub fn prints_version_at_end(version: bool, startup: &Startup) -> (r: bool)
    ensures
        r == (version && !(startup is Unpaired)),
{
    match startup {
        Startup::Unpaired => false,
        _ => version,
    }
}

/// The directory that holds the log files.
pub open spec fn log_dir_spec(logdir: Option<Seq<char>>) -> Seq<char> {
    match logdir {
        Some(dir) => dir,
        None => "/var/tmp"@,
    }
}

/// The log file and the pattern of its rolled-over copies (`{}` stands for
/// the copy's number), in the log directory.
pub fn log_file_paths(logdir: &Option<String>) -> (r: (String, String))
    ensures
        r.0@ == join_path_spec(log_dir_spec(opt_string_view(*logdir)), "r53-ddns.log"@),
        r.1@ == join_path_spec(log_dir_spec(opt_string_view(*logdir)), "r53-ddns.{}.log"@),
{
    let dir = match logdir {
        Some(d) => d.clone(),
        None => "/var/tmp".to_owned(),
    };
    (join_path(dir.clone(), "r53-ddns.log"), join_path(dir, "r53-ddns.{}.log"))
}

/// Without `-l` the log is `/var/tmp/r53-ddns.log`, rolled over to
/// `/var/tmp/r53-ddns.<n>.log`; with `-l <dir>` (no trailing `/`) it is
/// `<dir>/r53-ddns.log`.
pub proof fn law_log_files(dir: Seq<char>)
    requires
        dir.len() > 0,
        dir.last() != '/',
    ensures
        join_path_spec(log_dir_spec(None), "r53-ddns.log"@) == "/var/tmp/r53-ddns.log"@,
        join_path_spec(log_dir_spec(None), "r53-ddns.{}.log"@) == "/var/tmp/r53-ddns.{}.log"@,
        join_path_spec(log_dir_spec(Some(dir)), "r53-ddns.log"@) == dir + "/r53-ddns.log"@,
{
    reveal_strlit("/var/tmp");
    reveal_strlit("r53-ddns.log");
    reveal_strlit("r53-ddns.{}.log");
    reveal_strlit("/var/tmp/r53-ddns.log");
    reveal_strlit("/var/tmp/r53-ddns.{}.log");
    reveal_strlit("/r53-ddns.log");
    assert(join_path_spec(log_dir_spec(None), "r53-ddns.log"@) =~= "/var/tmp/r53-ddns.log"@);
    assert(join_path_spec(log_dir_spec(None), "r53-ddns.{}.log"@) =~= "/var/tmp/r53-ddns.{}.log"@);
    assert(join_path_spec(log_dir_spec(Some(dir)), "r53-ddns.log"@) =~= dir + "/r53-ddns.log"@);
}

/// Debug logging shows everything from debug messages on, verbose logging
/// from informational ones on, and otherwise only warnings; debug wins.
pub proof fn law_console_levels(debug: bool, verbose: bool)
    ensures
        debug ==> console_level_spec(debug, verbose) == LogLevel::Debug,
        !debug && verbose ==> console_level_spec(debug, verbose) == LogLevel::Info,
        !debug && !verbose ==> console_level_spec(debug, verbose) == LogLevel::Warn,
{
}

/// The pause between checks in milliseconds.
pub fn check_gap_millis(seconds: u64) -> (r: u64)
    requires
        seconds * 1000 <= u64::MAX,
    ensures
        r == seconds * 1000,
{
    seconds * 1000
}

} // verus!
