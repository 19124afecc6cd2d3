//! The screen: the texts that a run shows, piece by piece.
use vstd::prelude::*;
use vstd::utf8::*;

use crate::keys::Algo;
use crate::report;
use crate::report::Figures;
use crate::session::Shared;
use crate::text;

verus! {

/// One more sequence behind others.
pub proof fn lemma_flatten_push<A>(s: Seq<Seq<A>>, x: Seq<A>)
    ensures
        s.push(x).flatten() == s.flatten() + x,
{
    let t = s.push(x);
    t.lemma_flatten_and_flatten_alt_are_equivalent();
    s.lemma_flatten_and_flatten_alt_are_equivalent();
    assert(t.drop_last() =~= s);
}

/// A clock shows hours, minutes and seconds, each in two digits or more.
pub proof fn lemma_clock(h: nat, m: nat, s: nat)
    requires
        m < 60,
        s < 60,
    ensures
        ({
            let two = |n: nat|
                if n < 10 {
                    seq!['0'] + text::decimal(n)
                } else {
                    text::decimal(n)
                };
            report::clock_text(3600 * h + 60 * m + s) == two(h) + seq![':'] + two(m) + seq![':']
                + two(s)
        }),
{
    let t: nat = 3600 * h + 60 * m + s;
    assert(t / 3600 == h);
    assert((t % 3600) / 60 == m);
    assert(t % 60 == s);
}

/// Text is cut by bytes: what fits is kept, and of what does not the bytes before the last one that
/// fits are kept and an ellipsis put behind.
pub proof fn lemma_cut(s: Seq<char>, n: int)
    ensures
        encode_utf8(s).len() <= n ==> report::cut(s, n) == s,
        encode_utf8(s).len() > n ==> report::cut(s, n) == decode_utf8(
            encode_utf8(s).subrange(0, n - 1),
        ).push('…'),
        report::cuttable(s, n) <==> (encode_utf8(s).len() > n ==> n > 0 && is_char_boundary(
            encode_utf8(s),
            n - 1,
        )),
{
}

/// The dashboard: the title with the number of devices and the clock, the keys and rates, a line for
/// each prefix and one for each device.
pub proof fn lemma_dashboard(shared: Shared, f: Figures, clock: nat)
    ensures
        ({
            let row = |i: int|
                {
                    let name = if shared.required@[i] {
                        shared.prefixes@[i]@
                    } else {
                        shared.prefixes@[i]@ + " (bonus)"@
                    };
                    let enough = shared.found@[i] >= shared.target;
                    text::left_aligned(report::cut(name, 22), 22) + text::right_aligned(
                        text::decimal(shared.found@[i] as nat) + "/"@ + text::decimal(
                            shared.target as nat,
                        ),
                        7,
                    ) + text::right_aligned(
                        if enough {
                            "✔"@
                        } else {
                            f.odds@[i].chance@
                        },
                        13,
                    ) + text::right_aligned(
                        if enough {
                            "done"@
                        } else {
                            f.odds@[i].eta@
                        },
                        10,
                    ) + "\n"@
                };
            let device = |i: int|
                {
                    let tuning = shared.devices@[i].calibrating;
                    text::right_aligned(text::decimal(i as nat), 3) + text::right_aligned(
                        if tuning {
                            "—"@
                        } else {
                            text::decimal(shared.devices@[i].iters as nat)
                        },
                        10,
                    ) + text::right_aligned(
                        if tuning {
                            "tuning…"@
                        } else if i < f.device_rates@.len() {
                            f.device_rates@[i]@
                        } else {
                            "0/s"@
                        },
                        13,
                    ) + "\n"@
                };
            report::status_text(shared, f, clock) == ("\x1b[1mtor-v3-vanity\x1b[0m · "@
                + text::decimal(shared.devices@.len()) + "×GPU · "@ + report::clock_text(clock)
                + "\n"@) + (f.total@ + " keys · "@ + f.rate@ + " (avg "@ + f.average@ + ")\n"@)
                + "\n"@ + ("\x1b[1m"@ + text::left_aligned("PREFIX"@, 22) + text::right_aligned(
                "FOUND"@,
                7,
            ) + text::right_aligned("CHANCE"@, 13) + text::right_aligned("E[NEXT]"@, 10)
                + "\x1b[0m\n"@) + Seq::new(shared.prefixes@.len(), row).flatten() + "\n"@ + (
            "\x1b[1m"@ + text::right_aligned("GPU"@, 3) + text::right_aligned("ITERS"@, 10)
                + text::right_aligned("RATE"@, 13) + "\x1b[0m\n"@) + Seq::new(
                shared.devices@.len(),
                device,
            ).flatten()
        }),
{
    let n: int = shared.prefixes@.len() as int;
    let m: int = shared.devices@.len() as int;
    lemma_rows(shared, f, n);
    lemma_devices(shared, f, m);
    let row = |i: int|
        {
            let name = if shared.required@[i] {
                shared.prefixes@[i]@
            } else {
                shared.prefixes@[i]@ + " (bonus)"@
            };
            let enough = shared.found@[i] >= shared.target;
            text::left_aligned(report::cut(name, 22), 22) + text::right_aligned(
                text::decimal(shared.found@[i] as nat) + "/"@ + text::decimal(
                    shared.target as nat,
                ),
                7,
            ) + text::right_aligned(
                if enough {
                    "✔"@
                } else {
                    f.odds@[i].chance@
                },
                13,
            ) + text::right_aligned(
                if enough {
                    "done"@
                } else {
                    f.odds@[i].eta@
                },
                10,
            ) + "\n"@
        };
    let device = |i: int|
        {
            let tuning = shared.devices@[i].calibrating;
            text::right_aligned(text::decimal(i as nat), 3) + text::right_aligned(
                if tuning {
                    "—"@
                } else {
                    text::decimal(shared.devices@[i].iters as nat)
                },
                10,
            ) + text::right_aligned(
                if tuning {
                    "tuning…"@
                } else if i < f.device_rates@.len() {
                    f.device_rates@[i]@
                } else {
                    "0/s"@
                },
                13,
            ) + "\n"@
        };
    assert(Seq::new(shared.prefixes@.len(), row) =~= Seq::new(
        shared.prefixes@.len(),
        |i: int| report::prefix_line(shared, f, i),
    ));
    assert(Seq::new(shared.devices@.len(), device) =~= Seq::new(
        shared.devices@.len(),
        |i: int| report::device_line(shared, f, i),
    ));
}

proof fn lemma_rows(shared: Shared, f: Figures, n: int)
    requires
        0 <= n,
    ensures
        report::prefix_lines(shared, f, n) == Seq::new(
            n as nat,
            |i: int| report::prefix_line(shared, f, i),
        ).flatten(),
    decreases n,
{
    let all = Seq::new(n as nat, |i: int| report::prefix_line(shared, f, i));
    if n > 0 {
        lemma_rows(shared, f, n - 1);
        let rest = Seq::new((n - 1) as nat, |i: int| report::prefix_line(shared, f, i));
        assert(all =~= rest.push(report::prefix_line(shared, f, n - 1)));
        lemma_flatten_push(rest, report::prefix_line(shared, f, n - 1));
    }
}

proof fn lemma_devices(shared: Shared, f: Figures, n: int)
    requires
        0 <= n,
    ensures
        report::device_lines(shared, f, n) == Seq::new(
            n as nat,
            |i: int| report::device_line(shared, f, i),
        ).flatten(),
    decreases n,
{
    let all = Seq::new(n as nat, |i: int| report::device_line(shared, f, i));
    if n > 0 {
        lemma_devices(shared, f, n - 1);
        let rest = Seq::new((n - 1) as nat, |i: int| report::device_line(shared, f, i));
        assert(all =~= rest.push(report::device_line(shared, f, n - 1)));
        lemma_flatten_push(rest, report::device_line(shared, f, n - 1));
    }
}

/// How many lines text ends is how often the line end occurs in it.
pub proof fn lemma_line_ends(s: Seq<char>)
    ensures
        report::line_ends(s) == s.filter(|c: char| c as int == 10).len(),
    decreases s.len(),
{
    reveal(Seq::filter);
    if s.len() > 0 {
        lemma_line_ends(s.drop_last());
    }
}

/// A frame goes up as many lines as the last dashboard had, if any, and clears the screen from there;
/// then comes every message on a line of its own.
pub proof fn lemma_frame(lines: nat, logs: Seq<String>)
    ensures
        report::erase_text(lines) == (if lines > 0 {
            "\x1b["@ + text::decimal(lines) + "A\r\x1b[J"@
        } else {
            Seq::empty()
        }),
        report::message_lines(logs, logs.len() as int) == Seq::new(
            logs.len(),
            |i: int| logs[i]@ + "\n"@,
        ).flatten(),
{
    lemma_messages(logs, logs.len() as int);
}

proof fn lemma_messages(logs: Seq<String>, n: int)
    requires
        0 <= n <= logs.len(),
    ensures
        report::message_lines(logs, n) == Seq::new(
            n as nat,
            |i: int| logs[i]@ + "\n"@,
        ).flatten(),
    decreases n,
{
    let all = Seq::new(n as nat, |i: int| logs[i]@ + "\n"@);
    if n > 0 {
        lemma_messages(logs, n - 1);
        let rest = Seq::new((n - 1) as nat, |i: int| logs[i]@ + "\n"@);
        assert(all =~= rest.push(logs[n - 1]@ + "\n"@));
        lemma_flatten_push(rest, logs[n - 1]@ + "\n"@);
        assert(report::message_lines(logs, n) =~= rest.flatten() + (logs[n - 1]@ + "\n"@));
    }
}

/// The plain lines of a run and of a prefix.
pub proof fn lemma_plain(shared: Shared, f: Figures, clock: nat, i: int)
    ensures
        report::plain_head(f, clock) == "["@ + report::clock_text(clock) + "] "@ + f.total@
            + " keys · "@ + f.rate@ + " (avg "@ + f.average@ + ")"@,
        ({
            let enough = shared.found@[i] >= shared.target;
            report::plain_line(shared, f, i) == "    "@ + text::left_aligned(
                shared.prefixes@[i]@,
                18,
            ) + " found "@ + text::right_aligned(text::decimal(shared.found@[i] as nat), 4) + "  "@
                + text::right_aligned(
                if enough {
                    "✔"@
                } else {
                    f.odds@[i].chance@
                },
                10,
            ) + "  E[next] "@ + (if enough {
                "done"@
            } else {
                f.odds@[i].eta@
            })
        }),
{
}

/// The summary: a line for the run, one for each prefix, one for the matches that were dropped if there
/// are any, the folder, and for the incremental algorithm a note.
pub proof fn lemma_summary(shared: Shared, clock: nat, keys: Seq<char>, dst: Seq<char>, algo: Algo)
    ensures
        ({
            let outcome = |i: int|
                "  "@ + (if shared.found@[i] > 0 {
                    "✔"@
                } else {
                    "·"@
                }) + " "@ + text::left_aligned(shared.prefixes@[i]@, 18) + " "@
                    + text::right_aligned(
                    if shared.required@[i] {
                        "required"@
                    } else {
                        "bonus"@
                    },
                    8,
                ) + "  found "@ + (text::decimal(shared.found@[i] as nat) + "/"@ + text::decimal(
                    shared.target as nat,
                ));
            let s = report::summary_text(shared, clock, keys, dst, algo);
            let n = shared.prefixes@.len() as int;
            let d = if shared.dropped_correlated > 0 {
                1int
            } else {
                0
            };
            &&& s.len() == n + 2 + d + (if algo == Algo::Incremental {
                1int
            } else {
                0
            })
            &&& s[0] == "Done — all required prefixes found in "@ + report::clock_text(clock)
                + " ("@ + keys + " keys tried)."@
            &&& forall|i: int| 0 <= i < n ==> #[trigger] s[i + 1] == outcome(i)
            &&& shared.dropped_correlated > 0 ==> s[n + 1] == "  ("@ + text::decimal(
                shared.dropped_correlated as nat,
            )
                + " further match(es) discarded: keys from one launch share a base scalar, so only one per launch is kept)"@
            &&& s[n + 1 + d] == "Keys written to "@ + dst
            &&& algo == Algo::Incremental ==> s[n + 2 + d]
                == "\nNote: these keys store an un-clamped scalar, which is what Tor uses. Tools that\nre-derive the address by clamping (ed25519-dalek's ExpandedSecretKey among them)\nwill compute a different address from the same file — that is the tool being\nwrong, not the key. Check any key with:\n    cargo run --release --example validate_key -- <keyfile>"@
        }),
{
}

} // verus!
