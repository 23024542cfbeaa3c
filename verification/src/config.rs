use vstd::prelude::*;

use crate::errors::ConfigError;
use crate::kvmap::KvMap;
use crate::strutil::{spec_split, split_on_char, str_eq};

verus! {

/// The auxiliary reports a caller may ask for: each kind either downloaded
/// to the report directory or emitted as an event.
#[derive(Clone, Copy, Debug, PartialEq, Eq, Structural, Hash)]
pub enum ReportType {
    LicenseDL,
    DepsDL,
    AuditDL,
    InfoJsonDL,
    LicenseEvent,
    DepsEvent,
    AuditEvent,
    InfoJsonEvent,
}

impl ReportType {
    /// The report kind's name as it appears in configuration.
    pub fn as_str(&self) -> (r: &'static str)
        ensures
            r@ == self.spec_name(),
    {
        proof {
            reveal_strlit("license");
            reveal_strlit("deps");
            reveal_strlit("audit");
            reveal_strlit("info_json");
            reveal_strlit("license_event");
            reveal_strlit("deps_event");
            reveal_strlit("audit_event");
            reveal_strlit("info_json_event");
        }
        match self {
            ReportType::LicenseDL => "license",
            ReportType::DepsDL => "deps",
            ReportType::AuditDL => "audit",
            ReportType::InfoJsonDL => "info_json",
            ReportType::LicenseEvent => "license_event",
            ReportType::DepsEvent => "deps_event",
            ReportType::AuditEvent => "audit_event",
            ReportType::InfoJsonEvent => "info_json_event",
        }
    }

    pub open spec fn spec_name(&self) -> Seq<char> {
        match self {
            ReportType::LicenseDL => "license"@,
            ReportType::DepsDL => "deps"@,
            ReportType::AuditDL => "audit"@,
            ReportType::InfoJsonDL => "info_json"@,
            ReportType::LicenseEvent => "license_event"@,
            ReportType::DepsEvent => "deps_event"@,
            ReportType::AuditEvent => "audit_event"@,
            ReportType::InfoJsonEvent => "info_json_event"@,
        }
    }

    /// Parses a report kind's name; any other name is rejected.
    pub fn try_from(value: &str) -> (r: Result<ReportType, ()>)
        ensures
            r == ReportType::spec_try_from(value@),
    {
        if str_eq(value, "license") {
            Ok(ReportType::LicenseDL)
        } else if str_eq(value, "deps") {
            Ok(ReportType::DepsDL)
        } else if str_eq(value, "audit") {
            Ok(ReportType::AuditDL)
        } else if str_eq(value, "info_json") {
            Ok(ReportType::InfoJsonDL)
        } else if str_eq(value, "license_event") {
            Ok(ReportType::LicenseEvent)
        } else if str_eq(value, "deps_event") {
            Ok(ReportType::DepsEvent)
        } else if str_eq(value, "audit_event") {
            Ok(ReportType::AuditEvent)
        } else if str_eq(value, "info_json_event") {
            Ok(ReportType::InfoJsonEvent)
        } else {
            Err(())
        }
    }

    pub open spec fn spec_try_from(value: Seq<char>) -> Result<ReportType, ()> {
        if value == "license"@ {
            Ok(ReportType::LicenseDL)
        } else if value == "deps"@ {
            Ok(ReportType::DepsDL)
        } else if value == "audit"@ {
            Ok(ReportType::AuditDL)
        } else if value == "info_json"@ {
            Ok(ReportType::InfoJsonDL)
        } else if value == "license_event"@ {
            Ok(ReportType::LicenseEvent)
        } else if value == "deps_event"@ {
            Ok(ReportType::DepsEvent)
        } else if value == "audit_event"@ {
            Ok(ReportType::AuditEvent)
        } else if value == "info_json_event"@ {
            Ok(ReportType::InfoJsonEvent)
        } else {
            Err(())
        }
    }
}

/// A parsed configuration file: a policy section with defaults for the
/// flags, and a table of index credentials addressable by a symbolic key.
#[derive(Debug)]
pub struct ConfigFile {
    pub prebuilt: Option<ConfigFilePrebuilt>,
    pub index: Option<KvMap<ConfigFileIndexes>>,
}

/// The policy section of the configuration file; every field is optional
/// and only fills in what the command line and environment left unset.
#[derive(Debug)]
pub struct ConfigFilePrebuilt {
    pub target: Option<String>,
    pub safe: Option<bool>,
    pub index_key: Option<String>,
    pub no_sig: Option<bool>,
    pub no_hash: Option<bool>,
    pub hash_bins: Option<bool>,
    pub path: Option<String>,
    pub report_path: Option<String>,
    pub no_create_path: Option<bool>,
    pub reports: Option<Vec<ReportType>>,
    pub out: Option<bool>,
    pub color: Option<bool>,
    pub no_color: Option<bool>,
}

/// One entry of the configuration file's index table: an index locator with
/// the trust keys and the auth token to use with it.
#[derive(Debug)]
pub struct ConfigFileIndexes {
    pub index: String,
    pub pub_key: Option<Vec<String>>,
    pub auth: Option<String>,
}

/// One configuration source's values: every flag optional, `None` meaning
/// the source does not set it. The command line and the environment each
/// fill one of these.
#[derive(Debug)]
pub struct Arguments {
    pub target: Option<String>,
    pub safe: Option<bool>,
    pub update: Option<bool>,
    pub index: Option<String>,
    pub pub_key: Vec<String>,
    pub auth: Option<String>,
    pub index_key: Option<String>,
    pub ci: Option<bool>,
    pub no_sig: Option<bool>,
    pub no_hash: Option<bool>,
    pub hash_bins: Option<bool>,
    pub path: Option<String>,
    pub report_path: Option<String>,
    pub no_create_path: Option<bool>,
    pub reports: Option<Vec<ReportType>>,
    pub config: Option<String>,
    pub require_config: Option<bool>,
    pub out: Option<bool>,
    pub get_latest: Option<bool>,
    pub color: Option<bool>,
    pub no_color: Option<bool>,
    pub packages: Vec<String>,
}

impl Arguments {
    /// A source that sets nothing.
    pub fn new() -> (r: Arguments)
        ensures
            r.target is None,
            r.safe is None,
            r.update is None,
            r.index is None,
            r.pub_key@.len() == 0,
            r.auth is None,
            r.index_key is None,
            r.ci is None,
            r.no_sig is None,
            r.no_hash is None,
            r.hash_bins is None,
            r.path is None,
            r.report_path is None,
            r.no_create_path is None,
            r.reports is None,
            r.config is None,
            r.require_config is None,
            r.out is None,
            r.get_latest is None,
            r.color is None,
            r.no_color is None,
            r.packages@.len() == 0,
    {
        let r = Arguments {
            target: None,
            safe: None,
            update: None,
            index: None,
            pub_key: Vec::new(),
            auth: None,
            index_key: None,
            ci: None,
            no_sig: None,
            no_hash: None,
            hash_bins: None,
            path: None,
            report_path: None,
            no_create_path: None,
            reports: None,
            config: None,
            require_config: None,
            out: None,
            get_latest: None,
            color: None,
            no_color: None,
            packages: Vec::new(),
        };
        r
    }
}

/// The built-in last-resort values, supplied by the surrounding program:
/// the compiled-in target, the default index with its baked-in trust keys
/// (comma separated), and the directories to install to.
#[derive(Debug)]
pub struct Defaults {
    pub target: String,
    pub index: String,
    pub index_keys: String,
    pub path: String,
    pub report_path: String,
}

/// The one immutable result of configuration resolution.
#[derive(Clone, Debug)]
pub struct Config {
    pub target: String,
    pub safe: bool,
    pub update: bool,
    pub index: String,
    pub pub_keys: Vec<String>,
    pub auth: Option<String>,
    pub ci: bool,
    pub no_sig: bool,
    pub no_hash: bool,
    pub hash_bins: bool,
    pub path: String,
    pub report_path: String,
    pub no_create_path: bool,
    pub reports: Vec<ReportType>,
    pub out: bool,
    pub get_latest: bool,
    pub packages: Vec<String>,
}

/// The process-wide coloring preference the resolved flags ask for.
#[derive(Clone, Copy, Debug, PartialEq, Eq, Structural)]
pub enum ColorChoice {
    ForceOn,
    ForceOff,
    Auto,
}

/// One requested package with the configuration it is processed under.
#[derive(Debug)]
pub struct Meta {
    pub id: String,
    pub version: String,
    pub config: Config,
}

impl Meta {
    pub fn new(id: &str, version: &str, config: Config) -> (r: Meta)
        ensures
            r.id@ == id@,
            r.version@ == version@,
            r.config == config,
    {
        Meta { id: id.to_owned(), version: version.to_owned(), config }
    }
}

/// The higher-precedence value when it is set, the lower one otherwise.
pub open spec fn pick2<T>(a: Option<T>, b: Option<T>) -> Option<T> {
    if a is Some {
        a
    } else {
        b
    }
}

fn or_opt<T>(a: Option<T>, b: Option<T>) -> (r: Option<T>)
    ensures
        r == pick2(a, b),
{
    match a {
        Some(x) => Some(x),
        None => b,
    }
}

/// Merges two configuration sources field by field, the first winning
/// wherever it sets a value; used to put the command line over the
/// environment.
pub fn layer(cli: Arguments, env: Arguments) -> (r: Arguments)
    ensures
        r == spec_layer(cli, env),
{
    let r = Arguments {
        target: or_opt(cli.target, env.target),
        safe: or_opt(cli.safe, env.safe),
        update: or_opt(cli.update, env.update),
        index: or_opt(cli.index, env.index),
        pub_key: if cli.pub_key.len() > 0 {
            cli.pub_key
        } else {
            env.pub_key
        },
        auth: or_opt(cli.auth, env.auth),
        index_key: or_opt(cli.index_key, env.index_key),
        ci: or_opt(cli.ci, env.ci),
        no_sig: or_opt(cli.no_sig, env.no_sig),
        no_hash: or_opt(cli.no_hash, env.no_hash),
        hash_bins: or_opt(cli.hash_bins, env.hash_bins),
        path: or_opt(cli.path, env.path),
        report_path: or_opt(cli.report_path, env.report_path),
        no_create_path: or_opt(cli.no_create_path, env.no_create_path),
        reports: or_opt(cli.reports, env.reports),
        config: or_opt(cli.config, env.config),
        require_config: or_opt(cli.require_config, env.require_config),
        out: or_opt(cli.out, env.out),
        get_latest: or_opt(cli.get_latest, env.get_latest),
        color: or_opt(cli.color, env.color),
        no_color: or_opt(cli.no_color, env.no_color),
        packages: if cli.packages.len() > 0 {
            cli.packages
        } else {
            env.packages
        },
    };
    r
}

/// The field-wise merge `layer` performs.
pub open spec fn spec_layer(cli: Arguments, env: Arguments) -> Arguments {
    Arguments {
        target: pick2(cli.target, env.target),
        safe: pick2(cli.safe, env.safe),
        update: pick2(cli.update, env.update),
        index: pick2(cli.index, env.index),
        pub_key: if cli.pub_key@.len() > 0 {
            cli.pub_key
        } else {
            env.pub_key
        },
        auth: pick2(cli.auth, env.auth),
        index_key: pick2(cli.index_key, env.index_key),
        ci: pick2(cli.ci, env.ci),
        no_sig: pick2(cli.no_sig, env.no_sig),
        no_hash: pick2(cli.no_hash, env.no_hash),
        hash_bins: pick2(cli.hash_bins, env.hash_bins),
        path: pick2(cli.path, env.path),
        report_path: pick2(cli.report_path, env.report_path),
        no_create_path: pick2(cli.no_create_path, env.no_create_path),
        reports: pick2(cli.reports, env.reports),
        config: pick2(cli.config, env.config),
        require_config: pick2(cli.require_config, env.require_config),
        out: pick2(cli.out, env.out),
        get_latest: pick2(cli.get_latest, env.get_latest),
        color: pick2(cli.color, env.color),
        no_color: pick2(cli.no_color, env.no_color),
        packages: if cli.packages@.len() > 0 {
            cli.packages
        } else {
            env.packages
        },
    }
}

/// Splits a comma-separated list of trust keys; no list means no keys.
pub fn parse_pub_keys(s: Option<String>) -> (r: Vec<String>)
    ensures
        match s {
            Some(x) => r.deep_view() == spec_split(x@, ','),
            None => r@.len() == 0,
        },
{
    match s {
        Some(x) => split_on_char(x.as_str(), ','),
        None => Vec::new(),
    }
}

/// Parsing of a comma-separated report list: kinds in first-seen order,
/// duplicates dropped, or the first segment that is no report kind.
pub open spec fn spec_collect_reports(segs: Seq<Seq<char>>, acc: Seq<ReportType>) -> Result<
    Seq<ReportType>,
    Seq<char>,
>
    decreases segs.len(),
{
    if segs.len() == 0 {
        Ok(acc)
    } else {
        match ReportType::spec_try_from(segs[0]) {
            Ok(t) => spec_collect_reports(
                segs.drop_first(),
                if acc.contains(t) {
                    acc
                } else {
                    acc.push(t)
                },
            ),
            Err(_) => Err(segs[0]),
        }
    }
}

fn vec_contains_report(v: &Vec<ReportType>, t: ReportType) -> (r: bool)
    ensures
        r == v@.contains(t),
{
    let n = v.len();
    let mut i: usize = 0;
    while i < n
        invariant
            n == v@.len(),
            0 <= i <= n,
            forall|k: int| 0 <= k < i ==> v@[k] != t,
        decreases n - i,
    {
        if v[i] == t {
            return true;
        }
        i = i + 1;
    }
    false
}

/// Parses a comma-separated report list; an unknown kind is returned as the
/// error, for the caller's message.
pub fn parse_reports(s: Option<String>) -> (r: Result<Option<Vec<ReportType>>, String>)
    ensures
        s is None ==> r == Ok::<Option<Vec<ReportType>>, String>(None),
        s is Some ==> {
            let parsed = spec_collect_reports(
                spec_split(s->0@, ','),
                Seq::<ReportType>::empty(),
            );
            &&& parsed is Ok ==> (r matches Ok(Some(v)) && v@ == parsed->Ok_0)
            &&& parsed is Err ==> (r matches Err(e) && e@ == parsed->Err_0)
        },
{
    match &s {
        Some(x) => match collect_reports(x.as_str()) {
            Ok(v) => Ok(Some(v)),
            Err(e) => Err(e),
        },
        None => Ok(None),
    }
}

fn collect_reports(x: &str) -> (r: Result<Vec<ReportType>, String>)
    ensures
        ({
            let parsed = spec_collect_reports(spec_split(x@, ','), Seq::<ReportType>::empty());
            &&& parsed is Ok ==> (r matches Ok(v) && v@ == parsed->Ok_0)
            &&& parsed is Err ==> (r matches Err(e) && e@ == parsed->Err_0)
        }),
{
    let segs = split_on_char(x, ',');
    let n = segs.len();
    let mut acc: Vec<ReportType> = Vec::new();
    let mut i: usize = 0;
    proof {
        assert(segs.deep_view().skip(0) == segs.deep_view());
        assert(acc@ =~= Seq::<ReportType>::empty());
    }
    while i < n
        invariant
            n == segs@.len(),
            segs.deep_view() == spec_split(x@, ','),
            0 <= i <= n,
            spec_collect_reports(segs.deep_view(), Seq::empty()) == spec_collect_reports(
                segs.deep_view().skip(i as int),
                acc@,
            ),
        decreases n - i,
    {
        proof {
            assert(segs.deep_view().skip(i as int)[0] == segs@[i as int]@);
            assert(segs.deep_view().skip(i as int).drop_first() =~= segs.deep_view().skip(i + 1));
        }
        match ReportType::try_from(segs[i].as_str()) {
            Ok(t) => {
                if !vec_contains_report(&acc, t) {
                    acc.push(t);
                }
            },
            Err(_) => {
                proof {
                    assert(spec_collect_reports(segs.deep_view().skip(i as int), acc@)
                        == Err::<Seq<ReportType>, Seq<char>>(segs@[i as int]@));
                    assert(spec_collect_reports(spec_split(x@, ','), Seq::<ReportType>::empty())
                        == Err::<Seq<ReportType>, Seq<char>>(segs@[i as int]@));
                }
                let e = segs[i].clone();
                proof {
                    assert(e@ == segs@[i as int]@);
                }
                return Err(e);
            },
        }
        i = i + 1;
    }
    proof {
        assert(segs.deep_view().skip(n as int) =~= Seq::<Seq<char>>::empty());
    }
    Ok(acc)
}

/// Deduplicated splitting of a comma-separated list, first occurrence kept.
pub open spec fn spec_collect_unique(segs: Seq<Seq<char>>, acc: Seq<Seq<char>>) -> Seq<Seq<char>>
    decreases segs.len(),
{
    if segs.len() == 0 {
        acc
    } else {
        spec_collect_unique(
            segs.drop_first(),
            if acc.contains(segs[0]) {
                acc
            } else {
                acc.push(segs[0])
            },
        )
    }
}

fn vec_contains_string(v: &Vec<String>, t: &str) -> (r: bool)
    ensures
        r == v.deep_view().contains(t@),
{
    let n = v.len();
    let mut i: usize = 0;
    while i < n
        invariant
            n == v@.len(),
            0 <= i <= n,
            forall|k: int| 0 <= k < i ==> v.deep_view()[k] != t@,
        decreases n - i,
    {
        if str_eq(v[i].as_str(), t) {
            proof {
                assert(v.deep_view()[i as int] == t@);
            }
            return true;
        }
        i = i + 1;
    }
    false
}

/// Parses the comma-separated package list, dropping duplicate entries.
pub fn parse_packages(s: String) -> (r: Vec<String>)
    ensures
        r.deep_view() == spec_collect_unique(spec_split(s@, ','), Seq::empty()),
{
    let segs = split_on_char(s.as_str(), ',');
    let n = segs.len();
    let mut acc: Vec<String> = Vec::new();
    let mut i: usize = 0;
    proof {
        assert(segs.deep_view().skip(0) == segs.deep_view());
        assert(acc.deep_view() =~= Seq::<Seq<char>>::empty());
    }
    while i < n
        invariant
            n == segs@.len(),
            segs.deep_view() == spec_split(s@, ','),
            0 <= i <= n,
            spec_collect_unique(spec_split(s@, ','), Seq::empty()) == spec_collect_unique(
                segs.deep_view().skip(i as int),
                acc.deep_view(),
            ),
        decreases n - i,
    {
        proof {
            assert(segs.deep_view().skip(i as int)[0] == segs@[i as int]@);
            assert(segs.deep_view().skip(i as int).drop_first() =~= segs.deep_view().skip(i + 1));
        }
        if !vec_contains_string(&acc, segs[i].as_str()) {
            let ghost pre = acc.deep_view();
            acc.push(segs[i].clone());
            proof {
                assert(acc.deep_view() =~= pre.push(segs@[i as int]@));
            }
        }
        i = i + 1;
    }
    proof {
        assert(segs.deep_view().skip(n as int) =~= Seq::<Seq<char>>::empty());
    }
    acc
}

fn clone_opt_string(o: &Option<String>) -> (r: Option<String>)
    ensures
        r == *o,
{
    match o {
        Some(s) => Some(s.clone()),
        None => None,
    }
}

/// The reports list at the view level, for contracts.
pub open spec fn reports_view(o: Option<Vec<ReportType>>) -> Option<Seq<ReportType>> {
    match o {
        Some(v) => Some(v@),
        None => None,
    }
}

fn clone_opt_reports(o: &Option<Vec<ReportType>>) -> (r: Option<Vec<ReportType>>)
    ensures
        reports_view(r) == reports_view(*o),
{
    match o {
        Some(v) => {
            let n = v.len();
            let mut out: Vec<ReportType> = Vec::new();
            let mut i: usize = 0;
            while i < n
                invariant
                    n == v@.len(),
                    0 <= i <= n,
                    out@ =~= v@.take(i as int),
                decreases n - i,
            {
                out.push(v[i]);
                i = i + 1;
            }
            proof {
                assert(out@ =~= v@);
            }
            Some(out)
        },
        None => None,
    }
}

/// Appends every key of `src` to `dst`, in order.
fn append_keys(dst: &mut Vec<String>, src: &Vec<String>)
    ensures
        final(dst).deep_view() == old(dst).deep_view() + src.deep_view(),
{
    let n = src.len();
    let mut j: usize = 0;
    while j < n
        invariant
            n == src@.len(),
            0 <= j <= n,
            dst.deep_view() =~~= old(dst).deep_view() + src.deep_view().take(j as int),
        decreases n - j,
    {
        let ghost pre = dst.deep_view();
        dst.push(src[j].clone());
        proof {
            assert(dst.deep_view() =~= pre.push(src@[j as int]@));
            assert(dst.deep_view() =~~= old(dst).deep_view() + src.deep_view().take(j + 1));
        }
        j = j + 1;
    }
    proof {
        assert(src.deep_view().take(n as int) == src.deep_view());
        assert(dst.deep_view() =~~= old(dst).deep_view() + src.deep_view());
    }
}

/// Fills unset fields of `args` from the file's policy section: the listed
/// value fields and switch flags only; the file never overrides a value the
/// command line or the environment set.
#[verifier::rlimit(60)]
pub fn fill_from_file(args: &mut Arguments, file: &ConfigFile)
    ensures
        file.prebuilt is None ==> *final(args) == *old(args),
        file.prebuilt matches Some(q) ==> {
            &&& final(args).target == pick2(old(args).target, q.target)
            &&& final(args).index_key == pick2(old(args).index_key, q.index_key)
            &&& final(args).path == pick2(old(args).path, q.path)
            &&& final(args).report_path == pick2(old(args).report_path, q.report_path)
            &&& reports_view(final(args).reports) == reports_view(
                pick2(old(args).reports, q.reports),
            )
            &&& final(args).safe == pick2(old(args).safe, q.safe)
            &&& final(args).no_sig == pick2(old(args).no_sig, q.no_sig)
            &&& final(args).no_hash == pick2(old(args).no_hash, q.no_hash)
            &&& final(args).hash_bins == pick2(old(args).hash_bins, q.hash_bins)
            &&& final(args).no_create_path == pick2(old(args).no_create_path, q.no_create_path)
            &&& final(args).out == pick2(old(args).out, q.out)
            &&& final(args).color == pick2(old(args).color, q.color)
            &&& final(args).no_color == pick2(old(args).no_color, q.no_color)
            &&& final(args).update == old(args).update
            &&& final(args).index == old(args).index
            &&& final(args).pub_key == old(args).pub_key
            &&& final(args).auth == old(args).auth
            &&& final(args).ci == old(args).ci
            &&& final(args).config == old(args).config
            &&& final(args).require_config == old(args).require_config
            &&& final(args).get_latest == old(args).get_latest
            &&& final(args).packages == old(args).packages
        },
{
    if let Some(q) = &file.prebuilt {
        if args.target.is_none() {
            args.target = clone_opt_string(&q.target);
        }
        if args.index_key.is_none() {
            args.index_key = clone_opt_string(&q.index_key);
        }
        if args.path.is_none() {
            args.path = clone_opt_string(&q.path);
        }
        if args.report_path.is_none() {
            args.report_path = clone_opt_string(&q.report_path);
        }
        if args.reports.is_none() {
            args.reports = clone_opt_reports(&q.reports);
        }
        if args.safe.is_none() {
            args.safe = q.safe;
        }
        if args.no_sig.is_none() {
            args.no_sig = q.no_sig;
        }
        if args.no_hash.is_none() {
            args.no_hash = q.no_hash;
        }
        if args.hash_bins.is_none() {
            args.hash_bins = q.hash_bins;
        }
        if args.no_create_path.is_none() {
            args.no_create_path = q.no_create_path;
        }
        if args.out.is_none() {
            args.out = q.out;
        }
        if args.color.is_none() {
            args.color = q.color;
        }
        if args.no_color.is_none() {
            args.no_color = q.no_color;
        }
    }
}

/// The trust keys a table entry carries, at the view level.
pub open spec fn deep_keys(o: Option<Vec<String>>) -> Seq<Seq<char>> {
    match o {
        Some(v) => v.deep_view(),
        None => Seq::empty(),
    }
}

/// Walking the index table for entries whose locator equals `idx`: every
/// matching entry's keys are imported in order, and the first auth token
/// seen sticks.
pub open spec fn fold_by_value(
    t: Seq<(Seq<char>, ConfigFileIndexes)>,
    idx: Seq<char>,
    keys: Seq<Seq<char>>,
    auth: Option<String>,
) -> (Seq<Seq<char>>, Option<String>)
    decreases t.len(),
{
    if t.len() == 0 {
        (keys, auth)
    } else {
        let e = t[0].1;
        if e.index@ == idx {
            fold_by_value(
                t.drop_first(),
                idx,
                keys + deep_keys(e.pub_key),
                if auth is Some {
                    auth
                } else {
                    e.auth
                },
            )
        } else {
            fold_by_value(t.drop_first(), idx, keys, auth)
        }
    }
}

/// Walking the index table for entries stored under the symbolic key: keys
/// and auth are imported as for a locator match, and the entry's locator
/// becomes the index to use.
pub open spec fn fold_by_key(
    t: Seq<(Seq<char>, ConfigFileIndexes)>,
    key: Seq<char>,
    keys: Seq<Seq<char>>,
    auth: Option<String>,
    index: Option<String>,
) -> (Seq<Seq<char>>, Option<String>, Option<String>)
    decreases t.len(),
{
    if t.len() == 0 {
        (keys, auth, index)
    } else if t[0].0 == key {
        let e = t[0].1;
        fold_by_key(
            t.drop_first(),
            key,
            keys + deep_keys(e.pub_key),
            if auth is Some {
                auth
            } else {
                e.auth
            },
            Some(e.index),
        )
    } else {
        fold_by_key(t.drop_first(), key, keys, auth, index)
    }
}

/// The file's index table, or nothing.
pub open spec fn spec_table(file: &ConfigFile) -> Seq<(Seq<char>, ConfigFileIndexes)> {
    match file.index {
        Some(m) => m@,
        None => Seq::empty(),
    }
}

/// Everything `resolve_index_tables` leaves alone.
pub open spec fn same_but_trust(a: Arguments, b: Arguments) -> bool {
    &&& a.target == b.target
    &&& a.safe == b.safe
    &&& a.update == b.update
    &&& a.index_key == b.index_key
    &&& a.ci == b.ci
    &&& a.no_sig == b.no_sig
    &&& a.no_hash == b.no_hash
    &&& a.hash_bins == b.hash_bins
    &&& a.path == b.path
    &&& a.report_path == b.report_path
    &&& a.no_create_path == b.no_create_path
    &&& a.reports == b.reports
    &&& a.config == b.config
    &&& a.require_config == b.require_config
    &&& a.out == b.out
    &&& a.get_latest == b.get_latest
    &&& a.color == b.color
    &&& a.no_color == b.no_color
    &&& a.packages == b.packages
}

/// Resolves index-key indirection against the file's index table, importing
/// trust keys and auth tokens: a side effect of resolution, not of later
/// stages. With an explicit locator, matching entries contribute keys; with
/// a symbolic key, the named entry also supplies the locator itself.
pub fn resolve_index_tables(args: &mut Arguments, file: &ConfigFile)
    ensures
        same_but_trust(*final(args), *old(args)),
        old(args).index is Some && old(args).index_key is None ==> {
            let f = fold_by_value(
                spec_table(file),
                old(args).index->0@,
                old(args).pub_key.deep_view(),
                old(args).auth,
            );
            &&& final(args).pub_key.deep_view() == f.0
            &&& final(args).auth == f.1
            &&& final(args).index == old(args).index
        },
        old(args).index is None && old(args).index_key is Some ==> {
            let f = fold_by_key(
                spec_table(file),
                old(args).index_key->0@,
                old(args).pub_key.deep_view(),
                old(args).auth,
                None,
            );
            &&& final(args).pub_key.deep_view() == f.0
            &&& final(args).auth == f.1
            &&& final(args).index == f.2
        },
        (old(args).index is Some) == (old(args).index_key is Some) ==> *final(args) == *old(args),
{
    let idx_clone = clone_opt_string(&args.index);
    let key_clone = clone_opt_string(&args.index_key);
    match (idx_clone, key_clone) {
        (Some(idx), None) => {
            if let Some(m) = &file.index {
                let n = m.len();
                let mut i: usize = 0;
                proof {
                    assert(m@.skip(0) == m@);
                }
                while i < n
                    invariant
                        n == m@.len(),
                        0 <= i <= n,
                        idx@ == old(args).index->0@,
                        same_but_trust(*args, *old(args)),
                        args.index == old(args).index,
                        fold_by_value(
                            m@,
                            idx@,
                            old(args).pub_key.deep_view(),
                            old(args).auth,
                        ) == fold_by_value(
                            m@.skip(i as int),
                            idx@,
                            args.pub_key.deep_view(),
                            args.auth,
                        ),
                    decreases n - i,
                {
                    proof {
                        assert(m@.skip(i as int)[0] == m@[i as int]);
                        assert(m@.skip(i as int).drop_first() =~= m@.skip(i + 1));
                    }
                    let e = m.entry(i).1;
                    if str_eq(e.index.as_str(), idx.as_str()) {
                        match &e.pub_key {
                            Some(ks) => append_keys(&mut args.pub_key, ks),
                            None => {
                                proof {
                                    assert(args.pub_key.deep_view() =~~= args.pub_key.deep_view()
                                        + deep_keys(m@[i as int].1.pub_key));
                                }
                            },
                        }
                        if args.auth.is_none() {
                            args.auth = clone_opt_string(&e.auth);
                        }
                    }
                    i = i + 1;
                }
                proof {
                    assert(m@.skip(n as int) =~= Seq::<(Seq<char>, ConfigFileIndexes)>::empty());
                }
            }
        },
        (None, Some(key)) => {
            if let Some(m) = &file.index {
                let n = m.len();
                let mut i: usize = 0;
                proof {
                    assert(m@.skip(0) == m@);
                }
                while i < n
                    invariant
                        n == m@.len(),
                        0 <= i <= n,
                        key@ == old(args).index_key->0@,
                        same_but_trust(*args, *old(args)),
                        fold_by_key(
                            m@,
                            key@,
                            old(args).pub_key.deep_view(),
                            old(args).auth,
                            None,
                        ) == fold_by_key(
                            m@.skip(i as int),
                            key@,
                            args.pub_key.deep_view(),
                            args.auth,
                            args.index,
                        ),
                    decreases n - i,
                {
                    proof {
                        assert(m@.skip(i as int)[0] == m@[i as int]);
                        assert(m@.skip(i as int).drop_first() =~= m@.skip(i + 1));
                    }
                    let ke = m.entry(i);
                    if str_eq(ke.0.as_str(), key.as_str()) {
                        let e = ke.1;
                        args.index = Some(e.index.clone());
                        match &e.pub_key {
                            Some(ks) => append_keys(&mut args.pub_key, ks),
                            None => {
                                proof {
                                    assert(args.pub_key.deep_view() =~~= args.pub_key.deep_view()
                                        + deep_keys(m@[i as int].1.pub_key));
                                }
                            },
                        }
                        if args.auth.is_none() {
                            args.auth = clone_opt_string(&e.auth);
                        }
                    }
                    i = i + 1;
                }
                proof {
                    assert(m@.skip(n as int) =~= Seq::<(Seq<char>, ConfigFileIndexes)>::empty());
                }
            }
        },
        _ => {},
    }
}

/// The set value, or the default where none is set.
pub open spec fn spec_or_default(o: Option<String>, d: String) -> String {
    match o {
        Some(s) => s,
        None => d,
    }
}

/// A switch flag: on exactly when some source set it on.
pub open spec fn spec_switch(o: Option<bool>) -> bool {
    match o {
        Some(b) => b,
        None => false,
    }
}

/// The coloring the resolved flags ask for: forced on, forced off, or left
/// to the terminal.
pub open spec fn spec_color_choice(color: Option<bool>, no_color: Option<bool>) -> ColorChoice {
    if spec_switch(color) && !spec_switch(no_color) {
        ColorChoice::ForceOn
    } else if spec_switch(no_color) {
        ColorChoice::ForceOff
    } else {
        ColorChoice::Auto
    }
}

fn or_default(o: Option<String>, d: &String) -> (r: String)
    ensures
        r == spec_or_default(o, *d),
{
    match o {
        Some(s) => s,
        None => d.clone(),
    }
}

fn switch_val(o: Option<bool>) -> (r: bool)
    ensures
        r == spec_switch(o),
{
    match o {
        Some(b) => b,
        None => false,
    }
}

/// Turns fully merged arguments into the immutable configuration, filling
/// the built-in defaults into whatever no source set.
pub fn convert(args: Arguments, defaults: &Defaults) -> (r: (Config, ColorChoice))
    ensures
        r.0.target == spec_or_default(args.target, defaults.target),
        r.0.safe == spec_switch(args.safe),
        r.0.update == spec_switch(args.update),
        r.0.index == spec_or_default(args.index, defaults.index),
        r.0.pub_keys == args.pub_key,
        r.0.auth == args.auth,
        r.0.ci == spec_switch(args.ci),
        r.0.no_sig == spec_switch(args.no_sig),
        r.0.no_hash == spec_switch(args.no_hash),
        r.0.hash_bins == spec_switch(args.hash_bins),
        r.0.path == spec_or_default(args.path, defaults.path),
        r.0.report_path == spec_or_default(args.report_path, defaults.report_path),
        r.0.no_create_path == spec_switch(args.no_create_path),
        args.reports matches Some(v) ==> r.0.reports == v,
        args.reports is None ==> r.0.reports@ =~= seq![ReportType::LicenseDL],
        r.0.out == spec_switch(args.out),
        r.0.get_latest == spec_switch(args.get_latest),
        r.0.packages == args.packages,
        r.1 == spec_color_choice(args.color, args.no_color),
{
    let reports = match args.reports {
        Some(v) => v,
        None => vec![ReportType::LicenseDL],
    };
    let color_choice = if switch_val(args.color) && !switch_val(args.no_color) {
        ColorChoice::ForceOn
    } else if switch_val(args.no_color) {
        ColorChoice::ForceOff
    } else {
        ColorChoice::Auto
    };
    let cfg = Config {
        target: or_default(args.target, &defaults.target),
        safe: switch_val(args.safe),
        update: switch_val(args.update),
        index: or_default(args.index, &defaults.index),
        pub_keys: args.pub_key,
        auth: args.auth,
        ci: switch_val(args.ci),
        no_sig: switch_val(args.no_sig),
        no_hash: switch_val(args.no_hash),
        hash_bins: switch_val(args.hash_bins),
        path: or_default(args.path, &defaults.path),
        report_path: or_default(args.report_path, &defaults.report_path),
        no_create_path: switch_val(args.no_create_path),
        reports,
        out: switch_val(args.out),
        get_latest: switch_val(args.get_latest),
        packages: args.packages,
    };
    (cfg, color_choice)
}

/// What became of looking for a configuration file.
#[derive(Debug)]
pub enum FileOutcome {
    /// No file was found.
    Missing,
    /// A file was found but could not be parsed.
    Unparsable,
    /// The parsed file.
    Parsed(ConfigFile),
}

/// The policy section that resolution merges in, if any.
pub open spec fn spec_file_prebuilt(file: &FileOutcome, use_file: bool) -> Option<
    ConfigFilePrebuilt,
> {
    if use_file {
        match file {
            FileOutcome::Parsed(f) => f.prebuilt,
            _ => None,
        }
    } else {
        None
    }
}

/// The index table that resolution consults, if any.
pub open spec fn spec_file_table(file: &FileOutcome, use_file: bool) -> Seq<
    (Seq<char>, ConfigFileIndexes),
> {
    if use_file {
        match file {
            FileOutcome::Parsed(f) => spec_table(f),
            _ => Seq::empty(),
        }
    } else {
        Seq::empty()
    }
}

pub open spec fn from_pre(p: Option<ConfigFilePrebuilt>, o: Option<String>) -> Option<String> {
    match p {
        Some(q) => o,
        None => None,
    }
}

/// Merges command line, environment, persisted file and built-in defaults
/// into one configuration: the command line wins over the environment,
/// which wins over the file, which wins over the defaults. Fails, before
/// any network activity, on an index locator conflicting with an index key,
/// a file that cannot be parsed, a demanded file that is missing, and a
/// key-less index when signatures are demanded.
pub fn resolve(cli: Arguments, env: Arguments, file: FileOutcome, defaults: &Defaults) -> (r:
    Result<(Config, ColorChoice), ConfigError>)
    ensures
        ({
            let a = spec_layer(cli, env);
            let use_file = !spec_switch(a.ci);
            let p = spec_file_prebuilt(&file, use_file);
            let tbl = spec_file_table(&file, use_file);
            let m_index_key = pick2(
                a.index_key,
                match p {
                    Some(q) => q.index_key,
                    None => None,
                },
            );
            let m_no_sig = pick2(
                a.no_sig,
                match p {
                    Some(q) => q.no_sig,
                    None => None,
                },
            );
            let by_value = a.index is Some && m_index_key is None;
            let by_key = a.index is None && m_index_key is Some;
            let fv = fold_by_value(
                tbl,
                a.index->0@,
                a.pub_key.deep_view(),
                a.auth,
            );
            let fk = fold_by_key(
                tbl,
                m_index_key->0@,
                a.pub_key.deep_view(),
                a.auth,
                None,
            );
            let keys1 = if by_value {
                fv.0
            } else if by_key {
                fk.0
            } else {
                a.pub_key.deep_view()
            };
            let auth1 = if by_value {
                fv.1
            } else if by_key {
                fk.1
            } else {
                a.auth
            };
            let index1 = if by_key {
                fk.2
            } else {
                a.index
            };
            let inject = index1 is None || index1->0@ == defaults.index@;
            let keys2 = if inject {
                keys1 + spec_split(defaults.index_keys@, ',')
            } else {
                keys1
            };
            let e_conflict = a.index is Some && a.index_key is Some;
            let e_parse = !e_conflict && use_file && file is Unparsable;
            let e_required = !e_conflict && use_file && file is Missing && (a.config is Some
                || spec_switch(a.require_config));
            let e_keyless = !e_conflict && !e_parse && !e_required && !spec_switch(m_no_sig)
                && keys2.len() == 0;
            &&& e_conflict ==> r == Err::<(Config, ColorChoice), ConfigError>(
                ConfigError::ConflictingIndex,
            )
            &&& e_parse ==> r == Err::<(Config, ColorChoice), ConfigError>(ConfigError::FileParse)
            &&& e_required ==> r == Err::<(Config, ColorChoice), ConfigError>(
                ConfigError::FileRequired,
            )
            &&& e_keyless ==> r == Err::<(Config, ColorChoice), ConfigError>(
                ConfigError::MissingTrustKey,
            )
            &&& !e_conflict && !e_parse && !e_required && !e_keyless ==> (r matches Ok(rc) && {
                let c = rc.0;
                &&& c.target == spec_or_default(
                    pick2(
                        a.target,
                        match p {
                            Some(q) => q.target,
                            None => None,
                        },
                    ),
                    defaults.target,
                )
                &&& c.safe == spec_switch(
                    pick2(
                        a.safe,
                        match p {
                            Some(q) => q.safe,
                            None => None,
                        },
                    ),
                )
                &&& c.update == spec_switch(a.update)
                &&& c.index == spec_or_default(index1, defaults.index)
                &&& c.pub_keys.deep_view() == keys2
                &&& c.auth == auth1
                &&& c.ci == spec_switch(a.ci)
                &&& c.no_sig == spec_switch(m_no_sig)
                &&& c.no_hash == spec_switch(
                    pick2(
                        a.no_hash,
                        match p {
                            Some(q) => q.no_hash,
                            None => None,
                        },
                    ),
                )
                &&& c.hash_bins == spec_switch(
                    pick2(
                        a.hash_bins,
                        match p {
                            Some(q) => q.hash_bins,
                            None => None,
                        },
                    ),
                )
                &&& c.path == spec_or_default(
                    pick2(
                        a.path,
                        match p {
                            Some(q) => q.path,
                            None => None,
                        },
                    ),
                    defaults.path,
                )
                &&& c.report_path == spec_or_default(
                    pick2(
                        a.report_path,
                        match p {
                            Some(q) => q.report_path,
                            None => None,
                        },
                    ),
                    defaults.report_path,
                )
                &&& c.no_create_path == spec_switch(
                    pick2(
                        a.no_create_path,
                        match p {
                            Some(q) => q.no_create_path,
                            None => None,
                        },
                    ),
                )
                &&& ({
                    let m_reports = reports_view(
                        pick2(
                            a.reports,
                            match p {
                                Some(q) => q.reports,
                                None => None,
                            },
                        ),
                    );
                    match m_reports {
                        Some(v) => c.reports@ == v,
                        None => c.reports@ =~= seq![ReportType::LicenseDL],
                    }
                })
                &&& c.out == spec_switch(
                    pick2(
                        a.out,
                        match p {
                            Some(q) => q.out,
                            None => None,
                        },
                    ),
                )
                &&& c.get_latest == spec_switch(a.get_latest)
                &&& c.packages == a.packages
                &&& rc.1 == spec_color_choice(
                    pick2(
                        a.color,
                        match p {
                            Some(q) => q.color,
                            None => None,
                        },
                    ),
                    pick2(
                        a.no_color,
                        match p {
                            Some(q) => q.no_color,
                            None => None,
                        },
                    ),
                )
                &&& c.no_sig || c.pub_keys@.len() > 0
            })
        }),
{
    let mut args = layer(cli, env);
    if args.index.is_some() && args.index_key.is_some() {
        return Err(ConfigError::ConflictingIndex);
    }
    if !switch_val(args.ci) {
        match &file {
            FileOutcome::Parsed(f) => {
                fill_from_file(&mut args, f);
                resolve_index_tables(&mut args, f);
            },
            FileOutcome::Missing => {
                if args.config.is_some() {
                    return Err(ConfigError::FileRequired);
                }
                if switch_val(args.require_config) {
                    return Err(ConfigError::FileRequired);
                }
            },
            FileOutcome::Unparsable => {
                return Err(ConfigError::FileParse);
            },
        }
    }
    let inject = match &args.index {
        None => true,
        Some(i) => str_eq(i.as_str(), defaults.index.as_str()),
    };
    if inject {
        let ks = split_on_char(defaults.index_keys.as_str(), ',');
        append_keys(&mut args.pub_key, &ks);
    }
    let (cfg, color_choice) = convert(args, defaults);
    if !cfg.no_sig && cfg.pub_keys.len() == 0 {
        return Err(ConfigError::MissingTrustKey);
    }
    Ok((cfg, color_choice))
}

/// Law: for a value-carrying setting, a command-line value always wins over
/// an environment value, which wins over a config-file value, which wins
/// over the built-in default.
pub proof fn lemma_source_precedence(
    cli: Option<String>,
    env: Option<String>,
    file: Option<String>,
    d: String,
)
    ensures
        cli is Some ==> spec_or_default(pick2(pick2(cli, env), file), d) == cli->0,
        cli is None && env is Some ==> spec_or_default(pick2(pick2(cli, env), file), d) == env->0,
        cli is None && env is None && file is Some ==> spec_or_default(
            pick2(pick2(cli, env), file),
            d,
        ) == file->0,
        cli is None && env is None && file is None ==> spec_or_default(
            pick2(pick2(cli, env), file),
            d,
        ) == d,
{
}

/// Law: for a switch flag, the same precedence holds, and a flag no source
/// sets is off.
pub proof fn lemma_switch_precedence(cli: Option<bool>, env: Option<bool>, file: Option<bool>)
    ensures
        cli is Some ==> spec_switch(pick2(pick2(cli, env), file)) == cli->0,
        cli is None && env is Some ==> spec_switch(pick2(pick2(cli, env), file)) == env->0,
        cli is None && env is None && file is Some ==> spec_switch(pick2(pick2(cli, env), file))
            == file->0,
        cli is None && env is None && file is None ==> !spec_switch(pick2(pick2(cli, env), file)),
{
}

} // verus!
