use fff_server::clock::Duration;
use fff_server::config::{default_db_root, Config, Machine};
use fff_server::guard;

#[test]
fn intervals_clamp_at_both_ends() {
    let c = Config::default();

    // A trivial local tree lands on the floor rather than rescanning every second.
    assert_eq!(
        c.rescan_interval(Duration::from_millis(29)),
        Duration::from_secs(60)
    );
    // A measured 159-file slice of a share: 7.76s to ready -> 194s, inside the band.
    assert_eq!(
        c.rescan_interval(Duration::from_millis(7_760)),
        Duration::from_secs(194)
    );
    // Mid-band, to pin down the arithmetic: 60s * 25 = 1500s, still under the ceiling.
    assert_eq!(
        c.rescan_interval(Duration::from_secs(60)),
        Duration::from_secs(1_500)
    );
    // Beyond that the ceiling applies.
    assert_eq!(
        c.rescan_interval(Duration::from_secs(120)),
        Duration::from_secs(1_800)
    );
}

#[test]
fn idle_scales_with_cost() {
    let c = Config::default();
    assert_eq!(
        c.idle_timeout(Duration::from_millis(29)),
        Duration::from_secs(1_800)
    );
    // 7.76s * 120 = 931s, still under the 30min floor.
    assert_eq!(
        c.idle_timeout(Duration::from_millis(7_760)),
        Duration::from_secs(1_800)
    );
    // A minute to ready buys two hours of idle life.
    assert_eq!(
        c.idle_timeout(Duration::from_secs(60)),
        Duration::from_secs(7_200)
    );
}

#[test]
fn flattening_the_band_pins_the_interval() {
    let mut c = Config::default();
    c.workspaces.rescan_min_secs = 300;
    c.workspaces.rescan_max_secs = 300;
    assert_eq!(
        c.rescan_interval(Duration::from_secs(1)),
        Duration::from_secs(300)
    );
    assert_eq!(
        c.rescan_interval(Duration::from_secs(600)),
        Duration::from_secs(300)
    );
}

#[test]
fn crossed_bounds_settle_on_the_lower_one() {
    let mut c = Config::default();
    c.workspaces.rescan_min_secs = 300;
    c.workspaces.rescan_max_secs = 100;
    assert_eq!(
        c.rescan_interval(Duration::from_secs(1)),
        Duration::from_secs(300)
    );
    assert_eq!(
        c.rescan_interval(Duration::from_secs(6_000)),
        Duration::from_secs(300)
    );
}

#[test]
fn intervals_round_to_the_nearest_second() {
    let mut c = Config::default();
    c.workspaces.rescan_min_secs = 0;
    c.workspaces.rescan_duty_factor = 1;
    let of = |ms: u64| c.rescan_interval(Duration::from_millis(ms)).as_secs();
    assert_eq!(of(0), 0);
    assert_eq!(of(1_499), 1);
    assert_eq!(of(1_500), 2);
    assert_eq!(of(2_500), 3);
}

#[test]
fn extreme_costs_do_not_overflow() {
    let mut c = Config::default();
    c.workspaces.rescan_duty_factor = u32::MAX;
    c.workspaces.rescan_max_secs = u64::MAX;
    assert_eq!(
        c.rescan_interval(Duration::from_secs(u64::MAX)),
        Duration::from_secs(u64::MAX)
    );
}

#[test]
fn defaults_are_the_documented_ones() {
    let c = Config::default();
    assert_eq!(c.server.bind, "0.0.0.0:8080");
    assert!(c.server.token.is_none());
    assert_eq!(c.workspaces.create_block_ms, 10_000);
    assert!(c.workspaces.allowed_roots.is_empty());
    assert_eq!(c.workspaces.rescan_duty_factor, 25);
    assert_eq!(c.workspaces.idle_factor, 120);
    assert_eq!(c.workspaces.idle_max_secs, 86_400);
    assert!(c.defaults.ai_mode && c.defaults.content_indexing && c.defaults.watch);
    assert!(!c.defaults.follow_symlinks);
    assert_eq!(c.defaults.page_size, 100);
    assert_eq!(c.defaults.grep_page_size, 50);
    assert_eq!(c.defaults.grep_time_budget_ms, 0);
    assert_eq!(c.logging.level, "info");
    assert!(!c.logging.json);
}

#[test]
fn spans_convert_between_units() {
    let d = Duration::new(3, 250_000_000);
    assert_eq!(d.as_secs(), 3);
    assert_eq!(d.as_millis(), 3_250);
    assert_eq!(d.as_nanos(), 3_250_000_000);
    assert_eq!(d.half().as_millis(), 1_625);
    assert_eq!(
        d.saturating_sub(Duration::from_secs(1)).as_millis(),
        2_250
    );
    assert_eq!(
        Duration::from_secs(1).saturating_sub(d),
        Duration::from_secs(0)
    );
    assert!(d.at_least(Duration::from_millis(3_250)));
    assert!(!d.at_least(Duration::from_millis(3_251)));
}

#[test]
fn the_guard_says_why_it_refuses() {
    assert_eq!(guard::LOCK_FILE, "fff-server.lock");
    assert_eq!(
        guard::cannot_create("/db", "permission denied"),
        "cannot create /db: permission denied"
    );
    let refused = guard::already_running("/db", "sharing violation");
    assert!(refused.contains("already using /db (sharing violation)."));
    assert!(refused.ends_with("point this one at a different workspaces.db_root."));
    assert_eq!(guard::breadcrumb(4021), "pid 4021\n");
}

#[test]
fn databases_go_to_the_data_directory() {
    let machine = |data: Option<&str>, temp: &str, separator| Machine {
        data_dir: data.map(str::to_string),
        temp_dir: temp.to_string(),
        separator,
    };
    let windows = machine(Some(r"C:\ProgramData"), r"C:\Temp", '\\');
    assert_eq!(default_db_root(&windows), r"C:\ProgramData\fff-server\db");
    let unix = machine(None, "/tmp", '/');
    assert_eq!(default_db_root(&unix), "/tmp/fff-server/db");
    assert_eq!(
        default_db_root(&machine(None, "/tmp/", '/')),
        "/tmp/fff-server/db"
    );
    let mut c = Config::default();
    assert_eq!(c.db_root(&windows), r"C:\ProgramData\fff-server\db");
    c.workspaces.db_root = Some("/var/db".to_string());
    assert_eq!(c.db_root(&unix), "/var/db");
}
