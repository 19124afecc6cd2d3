use tor_v3_vanity::keys::Algo;
use tor_v3_vanity::report::{
    count_lines, fmt_clock, frame, is_last_frame, plain_action, plain_report, rates_due,
    render_status, report_due, summary, trunc, Figures, Odds, PlainAction, Tick,
};
use tor_v3_vanity::session::Shared;

fn strings(v: &[&str]) -> Vec<String> {
    v.iter().map(|s| s.to_string()).collect()
}

fn example() -> (Shared, Figures) {
    let mut s = Shared::new(
        strings(&["shaonsenllc", "paarthshah", "averyverylongprefix2"]),
        2,
        1,
        2,
    );
    s.found = vec![0, 1, 0];
    s.devices[0].calibrating = false;
    s.devices[0].iters = 8192;
    let odds = |c: &str, e: &str| Odds { chance: c.to_string(), eta: e.to_string() };
    let f = Figures {
        total: "1.35 T".to_string(),
        rate: "19.21 G/s".to_string(),
        average: "19.04 G/s".to_string(),
        odds: vec![odds("0.004%", "21.9d"), odds("0.120%", "16.4h"), odds("0%", "—")],
        device_rates: strings(&["2.36 G/s", "0/s"]),
    };
    (s, f)
}

#[test]
fn clock() {
    assert_eq!(fmt_clock(0), "00:00:00");
    assert_eq!(fmt_clock(71), "00:01:11");
    assert_eq!(fmt_clock(3599), "00:59:59");
    assert_eq!(fmt_clock(360_000), "100:00:00");
    for t in [1u64, 59, 60, 61, 86_399, 86_400, u64::MAX] {
        assert_eq!(fmt_clock(t), format!("{:02}:{:02}:{:02}", t / 3600, (t % 3600) / 60, t % 60));
    }
}

#[test]
fn cutting_text() {
    assert_eq!(trunc("abc", 3), "abc");
    assert_eq!(trunc("abcd", 3), "ab…");
    assert_eq!(trunc("", 0), "");
    assert_eq!(trunc("abcd", 1), "…");
    // widths count bytes
    assert_eq!(trunc("éé", 4), "éé");
    assert_eq!(trunc("éé", 3), "é…");
}

#[test]
fn dashboard() {
    let (s, f) = example();
    let expected = format!(
        "\x1b[1mtor-v3-vanity\x1b[0m · 2×GPU · 00:01:11\n\
         1.35 T keys · 19.21 G/s (avg 19.04 G/s)\n\n\
         \x1b[1m{:<22}{:>7}{:>13}{:>10}\x1b[0m\n\
         {:<22}{:>7}{:>13}{:>10}\n\
         {:<22}{:>7}{:>13}{:>10}\n\
         {:<22}{:>7}{:>13}{:>10}\n\n\
         \x1b[1m{:>3}{:>10}{:>13}\x1b[0m\n\
         {:>3}{:>10}{:>13}\n\
         {:>3}{:>10}{:>13}",
        "PREFIX", "FOUND", "CHANCE", "E[NEXT]",
        "shaonsenllc", "0/1", "0.004%", "21.9d",
        "paarthshah", "1/1", "✔", "done",
        "averyverylongprefix2 …", "0/1", "0%", "—",
        "GPU", "ITERS", "RATE",
        0, 8192, "2.36 G/s",
        1, "—", "tuning…"
    );
    assert_eq!(render_status(&s, &f, 71), expected);
}

#[test]
fn dashboard_without_devices() {
    let s = Shared::new(strings(&["abc"]), 1, 5, 0);
    let f = Figures {
        total: "0".to_string(),
        rate: "0/s".to_string(),
        average: "0/s".to_string(),
        odds: vec![Odds { chance: "0%".to_string(), eta: "—".to_string() }],
        device_rates: Vec::new(),
    };
    let status = render_status(&s, &f, 0);
    assert!(status.ends_with("RATE\x1b[0m"));
    assert!(status.contains(&format!("{:<22}{:>7}{:>13}{:>10}\n", "abc", "0/5", "0%", "—")));
}

#[test]
fn frames_erase_the_last_one() {
    let (s, f) = example();
    let status = render_status(&s, &f, 5);
    let (first, lines) = frame(0, &Vec::new(), &status);
    assert_eq!(first, status);
    assert_eq!(lines, status.matches('\n').count());
    let (second, again) = frame(lines, &strings(&["✔ found", "★ done"]), &status);
    assert_eq!(second, format!("\x1b[{}A\r\x1b[J✔ found\n★ done\n{}", lines, status));
    assert_eq!(again, lines);
    assert_eq!(count_lines("a\nb\n\n"), 3);
    assert_eq!(count_lines(""), 0);
}

#[test]
fn plain_lines() {
    let (s, f) = example();
    let lines = plain_report(&s, &f, 71);
    assert_eq!(
        lines,
        vec![
            "[00:01:11] 1.35 T keys · 19.21 G/s (avg 19.04 G/s)".to_string(),
            format!("    {:<18} found {:>4}  {:>10}  E[next] {}", "shaonsenllc", 0, "0.004%", "21.9d"),
            format!("    {:<18} found {:>4}  {:>10}  E[next] {}", "paarthshah", 1, "✔", "done"),
            format!("    {:<18} found {:>4}  {:>10}  E[next] {}", "averyverylongprefix2", 0, "0%", "—"),
        ]
    );
}

#[test]
fn summary_of_a_run() {
    let (mut s, _) = example();
    let lines = summary(&s, 3700, "1.35 T", "/tmp/keys", Algo::Seed);
    assert_eq!(
        lines,
        vec![
            "Done — all required prefixes found in 01:01:40 (1.35 T keys tried).".to_string(),
            format!("  {} {:<18} {:>8}  found {}/{}", "·", "shaonsenllc", "required", 0, 1),
            format!("  {} {:<18} {:>8}  found {}/{}", "✔", "paarthshah", "required", 1, 1),
            format!("  {} {:<18} {:>8}  found {}/{}", "·", "averyverylongprefix2", "bonus", 0, 1),
            "Keys written to /tmp/keys".to_string(),
        ]
    );
    s.dropped_correlated = 4;
    let lines = summary(&s, 3700, "1.35 T", "/tmp/keys", Algo::Incremental);
    assert_eq!(lines.len(), 7);
    assert_eq!(
        lines[4],
        "  (4 further match(es) discarded: keys from one launch share a base scalar, \
         so only one per launch is kept)"
    );
    assert_eq!(
        lines[6],
        "\nNote: these keys store an un-clamped scalar, which is what Tor uses. Tools that\n\
         re-derive the address by clamping (ed25519-dalek's ExpandedSecretKey among them)\n\
         will compute a different address from the same file — that is the tool being\n\
         wrong, not the key. Check any key with:\n\
         \x20   cargo run --release --example validate_key -- <keyfile>"
    );
}

#[test]
fn reporters_end_with_the_run() {
    for tick in [Tick::Message, Tick::Timeout, Tick::Disconnected] {
        for done in [false, true] {
            let over = done || tick == Tick::Disconnected;
            assert_eq!(is_last_frame(tick, done), over);
            for (secs, due) in [(0, false), (29, false), (30, true), (u64::MAX, true)] {
                assert_eq!(report_due(secs), due);
                let expected = if over {
                    PlainAction::Stop
                } else if due {
                    PlainAction::Report
                } else {
                    PlainAction::Wait
                };
                assert!(plain_action(tick, done, secs) == expected);
            }
        }
    }
}

#[test]
fn rates_are_taken_over_three_seconds() {
    assert!(!rates_due(0));
    assert!(!rates_due(2));
    assert!(rates_due(3));
    assert!(rates_due(60));
}

#[test]
fn missing_rates_are_zero() {
    let (mut s, mut f) = example();
    s.devices[1].calibrating = false;
    s.devices[1].iters = 16;
    f.device_rates.truncate(1);
    let status = render_status(&s, &f, 0);
    assert!(status.ends_with(&format!(
        "{:>3}{:>10}{:>13}\n{:>3}{:>10}{:>13}",
        0, 8192, "2.36 G/s", 1, 16, "0/s"
    )));
    f.device_rates = strings(&["1/s", "2/s", "3/s"]);
    let status = render_status(&s, &f, 0);
    assert!(status.ends_with(&format!("{:>3}{:>10}{:>13}", 1, 16, "2/s")));
}

#[test]
fn names_of_any_alphabet_are_cut_by_bytes() {
    let mut s = Shared::new(strings(&["ééééééééééé", "xéééééééééééé"]), 2, 1, 0);
    let (_, mut f) = example();
    f.odds.truncate(2);
    let status = render_status(&s, &f, 0);
    assert!(status.contains(&format!("{:<22}{:>7}", "ééééééééééé", "0/1")));
    assert!(status.contains(&format!("{:<22}{:>7}", "xéééééééééé…", "0/1")));
    s.required[0] = false;
    s.prefixes[0] = "ab".to_string();
    assert!(render_status(&s, &f, 0).contains(&format!("{:<22}{:>7}", "ab (bonus)", "0/1")));
}
