//! Configuration, and the intervals derived from it and from measured cost.

use crate::clock::{Duration, NANOS_PER_SEC};
use crate::paths::{child, child_path};
use vstd::prelude::*;

verus! {

/// Layered configuration: these defaults, then the TOML file, then `FFF_SERVER_*` environment
/// variables, then CLI flags.
#[derive(Debug, Clone)]
pub struct Config {
    pub server: Server,
    pub workspaces: Workspaces,
    pub defaults: Defaults,
    pub logging: Logging,
}

#[derive(Debug, Clone)]
pub struct Server {
    /// The default binds every interface.
    pub bind: String,
    /// Bearer token. `None` disables authentication entirely.
    pub token: Option<String>,
}

#[derive(Debug, Clone)]
pub struct Workspaces {
    /// How long creation may block before returning 202 and letting the client poll.
    pub create_block_ms: u64,
    /// Parent directory for per-workspace databases, each in a subdirectory of its own. `None`,
    /// the default, is the machine's own directory for it: see `Config::db_root`.
    pub db_root: Option<String>,
    /// Empty means any readable path may be indexed.
    pub allowed_roots: Vec<String>,
    /// Rescan interval = clamp(time_to_ready * duty_factor, min, max).
    pub rescan_duty_factor: u32,
    pub rescan_min_secs: u64,
    pub rescan_max_secs: u64,
    /// Idle eviction = clamp(time_to_ready * idle_factor, min, max).
    pub idle_factor: u32,
    pub idle_min_secs: u64,
    pub idle_max_secs: u64,
}

#[derive(Debug, Clone)]
pub struct Defaults {
    pub ai_mode: bool,
    pub content_indexing: bool,
    pub watch: bool,
    pub follow_symlinks: bool,
    pub page_size: usize,
    pub grep_page_size: usize,
    /// 0 disables the budget.
    pub grep_time_budget_ms: u64,
}

#[derive(Debug, Clone)]
pub struct Logging {
    pub level: String,
    pub json: bool,
}

impl Server {
    /// The values a server starts from.
    pub open spec fn is_default(self) -> bool {
        &&& self.bind@ == "0.0.0.0:8080"@
        &&& self.token is None
    }
}

impl Workspaces {
    /// The values the workspace settings start from.
    pub open spec fn is_default(self) -> bool {
        &&& self.create_block_ms == 10_000
        &&& self.db_root is None
        &&& self.allowed_roots@.len() == 0
        &&& self.rescan_duty_factor == 25
        &&& self.rescan_min_secs == 60
        &&& self.rescan_max_secs == 1_800
        &&& self.idle_factor == 120
        &&& self.idle_min_secs == 1_800
        &&& self.idle_max_secs == 86_400
    }
}

impl Logging {
    /// The values logging starts from.
    pub open spec fn is_default(self) -> bool {
        &&& self.level@ == "info"@
        &&& !self.json
    }
}

impl Defaults {
    /// The values requests start from.
    pub open spec fn is_default(self) -> bool {
        &&& self.ai_mode
        &&& self.content_indexing
        &&& self.watch
        &&& !self.follow_symlinks
        &&& self.page_size == 100
        &&& self.grep_page_size == 50
        &&& self.grep_time_budget_ms == 0
    }
}

impl Default for Server {
    fn default() -> (r: Self)
        ensures
            r.is_default(),
    {
        Server { bind: "0.0.0.0:8080".to_owned(), token: None }
    }
}

impl Default for Workspaces {
    fn default() -> (r: Self)
        ensures
            r.is_default(),
    {
        Workspaces {
            create_block_ms: 10_000,
            db_root: None,
            allowed_roots: Vec::new(),
            rescan_duty_factor: 25,
            rescan_min_secs: 60,
            rescan_max_secs: 1_800,
            idle_factor: 120,
            idle_min_secs: 1_800,
            idle_max_secs: 86_400,
        }
    }
}

impl Default for Defaults {
    fn default() -> (r: Self)
        ensures
            r.is_default(),
    {
        Defaults {
            ai_mode: true,
            content_indexing: true,
            watch: true,
            follow_symlinks: false,
            page_size: 100,
            grep_page_size: 50,
            grep_time_budget_ms: 0,
        }
    }
}

impl Default for Logging {
    fn default() -> (r: Self)
        ensures
            r.is_default(),
    {
        Logging { level: "info".to_owned(), json: false }
    }
}

impl Default for Config {
    fn default() -> (r: Self)
        ensures
            r.server.is_default(),
            r.workspaces.is_default(),
            r.defaults.is_default(),
            r.logging.is_default(),
    {
        Config {
            server: Server::default(),
            workspaces: Workspaces::default(),
            defaults: Defaults::default(),
            logging: Logging::default(),
        }
    }
}

/// What the configuration depends on of the machine it runs on.
#[derive(Debug, Clone)]
pub struct Machine {
    /// Its data directory for programs, where it names one.
    pub data_dir: Option<String>,
    /// Its directory for temporary files.
    pub temp_dir: String,
    /// Its path separator.
    pub separator: char,
}

/// Where databases go unless the configuration says otherwise: `fff-server/db` in the machine's
/// data directory, or in its directory for temporary files where it names none.
pub open spec fn machine_db_root(machine: Machine) -> Seq<char> {
    let base = match machine.data_dir {
        Some(dir) => dir@,
        None => machine.temp_dir@,
    };
    let own = child_path(base, "fff-server"@, machine.separator);
    child_path(own, "db"@, machine.separator)
}

/// Where databases go unless the configuration says otherwise.
pub fn default_db_root(machine: &Machine) -> (r: String)
    ensures
        r@ == machine_db_root(*machine),
{
    let base = match &machine.data_dir {
        Some(dir) => dir.as_str(),
        None => machine.temp_dir.as_str(),
    };
    let own = child(base, "fff-server", machine.separator);
    child(own.as_str(), "db", machine.separator)
}

impl Config {
    /// The database root on a machine.
    pub open spec fn db_root_on(self, machine: Machine) -> Seq<char> {
        match self.workspaces.db_root {
            Some(dir) => dir@,
            None => machine_db_root(machine),
        }
    }

    /// The database root: the configured one, or the machine's.
    pub fn db_root(&self, machine: &Machine) -> (r: String)
        ensures
            r@ == self.db_root_on(*machine),
    {
        match &self.workspaces.db_root {
            Some(dir) => dir.clone(),
            None => default_db_root(machine),
        }
    }
}

/// `n` held between `min` and `max`; where the bounds cross, the lower one wins.
pub open spec fn clamped(n: int, min: int, max: int) -> int {
    let top = if max < min {
        min
    } else {
        max
    };
    if n < min {
        min
    } else if n > top {
        top
    } else {
        n
    }
}

/// `factor` times a span of `nanos` nanoseconds, in seconds, rounded to the nearest. The product is
/// exact, as in the formula above, and half a second rounds up.
pub open spec fn scaled_secs(nanos: int, factor: int) -> int {
    (nanos * factor + 500_000_000) / 1_000_000_000
}

/// The interval in seconds for a cost of `nanos` nanoseconds.
pub open spec fn interval_secs(nanos: int, factor: int, min: int, max: int) -> int {
    clamped(scaled_secs(nanos, factor), min, max)
}

impl Config {
    /// Seconds between automatic rescans of a workspace that took `time_to_ready` nanoseconds.
    pub open spec fn rescan_secs(self, time_to_ready: nat) -> int {
        interval_secs(
            time_to_ready as int,
            self.workspaces.rescan_duty_factor as int,
            self.workspaces.rescan_min_secs as int,
            self.workspaces.rescan_max_secs as int,
        )
    }

    /// Seconds without use after which a workspace that took `time_to_ready` nanoseconds expires.
    pub open spec fn idle_secs(self, time_to_ready: nat) -> int {
        interval_secs(
            time_to_ready as int,
            self.workspaces.idle_factor as int,
            self.workspaces.idle_min_secs as int,
            self.workspaces.idle_max_secs as int,
        )
    }

    /// Derived rescan interval for a workspace that took `time_to_ready` to become usable. Keyed
    /// off time-to-ready rather than scan duration: a rescan pays for the content index too.
    pub fn rescan_interval(&self, time_to_ready: Duration) -> (r: Duration)
        ensures
            r@ == self.rescan_secs(time_to_ready@) * 1_000_000_000,
    {
        clamp_secs(
            time_to_ready,
            self.workspaces.rescan_duty_factor,
            self.workspaces.rescan_min_secs,
            self.workspaces.rescan_max_secs,
        )
    }

    /// Derived idle timeout. Expensive indexes earn a longer life, because dropping one charges
    /// the next caller for a full rebuild.
    pub fn idle_timeout(&self, time_to_ready: Duration) -> (r: Duration)
        ensures
            r@ == self.idle_secs(time_to_ready@) * 1_000_000_000,
    {
        clamp_secs(
            time_to_ready,
            self.workspaces.idle_factor,
            self.workspaces.idle_min_secs,
            self.workspaces.idle_max_secs,
        )
    }
}

/// Scales a span and clamps it to whole seconds between `min` and `max`.
fn clamp_secs(span: Duration, factor: u32, min: u64, max: u64) -> (r: Duration)
    ensures
        r@ == interval_secs(span@ as int, factor as int, min as int, max as int) * 1_000_000_000,
{
    let nanos: u128 = span.as_nanos();
    assert(nanos * factor <= 0x1_0000_0000_0000_0000 * 1_000_000_000 * 0x1_0000_0000)
        by (nonlinear_arith)
        requires
            0 <= nanos < 0x1_0000_0000_0000_0000 * 1_000_000_000,
            0 <= factor < 0x1_0000_0000,
    ;
    let scaled: u128 = (nanos * factor as u128 + 500_000_000) / NANOS_PER_SEC;
    let top: u64 = if max < min {
        min
    } else {
        max
    };
    let secs: u64 = if scaled < min as u128 {
        min
    } else if scaled > top as u128 {
        top
    } else {
        scaled as u64
    };
    Duration::from_secs(secs)
}

/// An interval never leaves its band, whatever the cost.
pub proof fn intervals_stay_in_their_band(nanos: int, factor: int, min: int, max: int)
    requires
        min <= max,
    ensures
        min <= interval_secs(nanos, factor, min, max) <= max,
{
}

/// A band of one value pins the interval, whatever the cost.
pub proof fn flat_band_pins_the_interval(nanos: int, factor: int, secs: int)
    ensures
        interval_secs(nanos, factor, secs, secs) == secs,
{
}

/// A workspace that took longer to become ready never gets a shorter interval.
pub proof fn intervals_grow_with_cost(a: int, b: int, factor: int, min: int, max: int)
    requires
        a <= b,
        0 <= factor,
    ensures
        interval_secs(a, factor, min, max) <= interval_secs(b, factor, min, max),
{
    assert(a * factor <= b * factor) by (nonlinear_arith)
        requires
            a <= b,
            0 <= factor,
    ;
}

/// Inside the band the interval is the scaled cost, to the nearest second.
pub proof fn intervals_follow_the_cost(nanos: int, factor: int, min: int, max: int)
    requires
        min <= scaled_secs(nanos, factor) <= max,
    ensures
        interval_secs(nanos, factor, min, max) * 1_000_000_000 - 500_000_000 <= nanos * factor,
        nanos * factor < interval_secs(nanos, factor, min, max) * 1_000_000_000 + 500_000_000,
{
}

/// Where the bounds of a band cross, the interval is the lower bound, whatever the cost.
pub proof fn the_lower_bound_wins(nanos: int, factor: int, min: int, max: int)
    requires
        max <= min,
    ensures
        interval_secs(nanos, factor, min, max) == min,
{
}

/// A scaled cost below the band gives its lower end and one above it the upper end; the cost is
/// scaled by the factor and taken to the nearest second.
pub proof fn costs_outside_the_band_give_its_ends(nanos: int, factor: int, min: int, max: int)
    requires
        min <= max,
    ensures
        nanos * factor < min * 1_000_000_000 - 500_000_000 ==> interval_secs(
            nanos,
            factor,
            min,
            max,
        ) == min,
        nanos * factor >= max * 1_000_000_000 + 500_000_000 ==> interval_secs(
            nanos,
            factor,
            min,
            max,
        ) == max,
        min * 1_000_000_000 <= nanos * factor <= max * 1_000_000_000 ==> {
            let secs = interval_secs(nanos, factor, min, max);
            &&& secs * 1_000_000_000 - 500_000_000 <= nanos * factor
            &&& nanos * factor < secs * 1_000_000_000 + 500_000_000
        },
{
}

/// The rescan interval is made of the rescan settings and the idle timeout of the idle ones: each
/// keeps to its own band, follows the cost by its own factor inside it, and does not depend on
/// the settings of the other.
pub proof fn each_interval_has_its_own_settings(a: Config, b: Config, cost: nat)
    ensures
        ({
            let w = a.workspaces;
            let secs = a.rescan_secs(cost);
            &&& w.rescan_min_secs <= w.rescan_max_secs ==> w.rescan_min_secs <= secs
                <= w.rescan_max_secs
            &&& w.rescan_min_secs * 1_000_000_000 <= cost * w.rescan_duty_factor
                <= w.rescan_max_secs * 1_000_000_000 ==> secs * 1_000_000_000 - 500_000_000 <= cost
                * w.rescan_duty_factor < secs * 1_000_000_000 + 500_000_000
        }),
        ({
            let w = a.workspaces;
            let secs = a.idle_secs(cost);
            &&& w.idle_min_secs <= w.idle_max_secs ==> w.idle_min_secs <= secs <= w.idle_max_secs
            &&& w.idle_min_secs * 1_000_000_000 <= cost * w.idle_factor <= w.idle_max_secs
                * 1_000_000_000 ==> secs * 1_000_000_000 - 500_000_000 <= cost * w.idle_factor
                < secs * 1_000_000_000 + 500_000_000
        }),
        a.workspaces.rescan_duty_factor == b.workspaces.rescan_duty_factor
            && a.workspaces.rescan_min_secs == b.workspaces.rescan_min_secs
            && a.workspaces.rescan_max_secs == b.workspaces.rescan_max_secs ==> a.rescan_secs(cost)
            == b.rescan_secs(cost),
        a.workspaces.idle_factor == b.workspaces.idle_factor && a.workspaces.idle_min_secs
            == b.workspaces.idle_min_secs && a.workspaces.idle_max_secs
            == b.workspaces.idle_max_secs ==> a.idle_secs(cost) == b.idle_secs(cost),
{
}

/// What the settings start from: every interface, no token, no restriction on roots, ten seconds
/// for a creation, a rescan after 25 times the cost but between a minute and half an hour, an
/// eviction after 120 times the cost but between half an hour and a day, pages of 100 files and of
/// 50 matches, and no time budget.
pub proof fn what_the_settings_start_from(c: Config)
    requires
        c.server.is_default(),
        c.workspaces.is_default(),
        c.defaults.is_default(),
        c.logging.is_default(),
    ensures
        c.server.bind@ == "0.0.0.0:8080"@,
        c.server.token is None,
        c.workspaces.create_block_ms == 10 * 1_000,
        c.workspaces.db_root is None,
        c.workspaces.allowed_roots@.len() == 0,
        c.workspaces.rescan_duty_factor == 25,
        c.workspaces.rescan_min_secs == 60,
        c.workspaces.rescan_max_secs == 30 * 60,
        c.workspaces.idle_factor == 120,
        c.workspaces.idle_min_secs == 30 * 60,
        c.workspaces.idle_max_secs == 24 * 60 * 60,
        c.defaults.ai_mode,
        c.defaults.content_indexing,
        c.defaults.watch,
        !c.defaults.follow_symlinks,
        c.defaults.page_size == 100,
        c.defaults.grep_page_size == 50,
        c.defaults.grep_time_budget_ms == 0,
        c.logging.level@ == "info"@,
        !c.logging.json,
{
}

/// A configured database root is used as it is. Without one it is `fff-server/db` in the data
/// directory of the machine, or in its temporary directory where it names no data directory. (A
/// separator `r`, which no machine has, would be taken for the one at the end of `fff-server`.)
pub proof fn databases_go_where_they_are_told_to(c: Config, machine: Machine)
    ensures
        c.workspaces.db_root matches Some(dir) ==> c.db_root_on(machine) == dir@,
        c.workspaces.db_root is None ==> (machine.data_dir matches Some(dir) ==> dir@.len() > 0
            && dir@.last() != machine.separator && machine.separator != 'r' ==> c.db_root_on(
            machine,
        ) == dir@ + seq![machine.separator] + "fff-server"@ + seq![machine.separator] + "db"@),
        c.workspaces.db_root is None && machine.data_dir is None && machine.temp_dir@.len() > 0
            && machine.temp_dir@.last() != machine.separator && machine.separator != 'r'
            ==> c.db_root_on(machine) == machine.temp_dir@ + seq![machine.separator]
            + "fff-server"@ + seq![machine.separator] + "db"@,
        c.workspaces.db_root is None ==> (machine.data_dir matches Some(dir) ==> dir@.len() > 0
            && dir@.last() == machine.separator && machine.separator != 'r' ==> c.db_root_on(
            machine,
        ) == dir@ + "fff-server"@ + seq![machine.separator] + "db"@),
        c.workspaces.db_root is None && machine.data_dir is None && machine.temp_dir@.len() > 0
            && machine.temp_dir@.last() == machine.separator && machine.separator != 'r'
            ==> c.db_root_on(machine) == machine.temp_dir@ + "fff-server"@ + seq![machine.separator]
            + "db"@,
{
    reveal_strlit("fff-server");
    reveal_strlit("db");
    let sep = machine.separator;
    if c.workspaces.db_root is None {
        let base = match machine.data_dir {
            Some(dir) => dir@,
            None => machine.temp_dir@,
        };
        if base.len() > 0 && base.last() != sep && sep != 'r' {
            let own = child_path(base, "fff-server"@, sep);
            assert(own =~= base + seq![sep] + "fff-server"@);
            assert(own.last() == 'r');
            assert(c.db_root_on(machine) =~= own + seq![sep] + "db"@);
        }
        if base.len() > 0 && base.last() == sep && sep != 'r' {
            let own = child_path(base, "fff-server"@, sep);
            assert(own == base + "fff-server"@);
            assert(own.last() == 'r');
            assert(c.db_root_on(machine) =~= own + seq![sep] + "db"@);
        }
    }
}

/// A configuration that nobody has touched is the one that the settings start from.
pub proof fn an_untouched_configuration_is_the_default(c: Config)
    requires
        call_ensures(Config::default, (), c),
    ensures
        c.server.token is None,
        c.workspaces.create_block_ms == 10_000,
        c.workspaces.db_root is None,
        c.workspaces.allowed_roots@.len() == 0,
        c.workspaces.rescan_duty_factor == 25,
        c.workspaces.idle_factor == 120,
        c.defaults.page_size == 100,
        c.defaults.grep_page_size == 50,
        c.defaults.grep_time_budget_ms == 0,
        c.defaults.ai_mode && c.defaults.content_indexing && c.defaults.watch,
        !c.defaults.follow_symlinks,
{
}

} // verus!
