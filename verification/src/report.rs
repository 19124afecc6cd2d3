//! What is shown of a run: the dashboard, the plain lines and the summary.
//!
//! Rates, chances and expected times come in as text.
use vstd::prelude::*;
use vstd::utf8::*;

use crate::keys::Algo;
use crate::onion;
use crate::session;
use crate::session::Shared;
use crate::text;
use crate::text::{
    chars_of, decimal_chars, push_decimal, push_left, push_right, push_str, string_of,
};

verus! {

/// A number in at least two digits.
pub open spec fn two_digits(n: nat) -> Seq<char> {
    if n < 10 {
        seq!['0'] + text::decimal(n)
    } else {
        text::decimal(n)
    }
}

/// Seconds as hours, minutes and seconds.
pub open spec fn clock_text(t: nat) -> Seq<char> {
    two_digits(t / 3600) + seq![':'] + two_digits((t % 3600) / 60) + seq![':'] + two_digits(t % 60)
}

/// Appends a number in at least two digits.
fn push_two_digits(v: &mut Vec<char>, n: u64)
    ensures
        final(v)@ == old(v)@ + two_digits(n as nat),
{
    let ghost v0 = v@;
    if n < 10 {
        v.push('0');
    }
    push_decimal(v, n);
    assert(v@ =~= v0 + two_digits(n as nat));
}

/// Seconds as hours, minutes and seconds.
pub fn fmt_clock(t: u64) -> (r: String)
    ensures
        r@ == clock_text(t as nat),
{
    let mut v: Vec<char> = Vec::new();
    push_two_digits(&mut v, t / 3600);
    v.push(':');
    push_two_digits(&mut v, (t % 3600) / 60);
    v.push(':');
    push_two_digits(&mut v, t % 60);
    assert(v@ =~= clock_text(t as nat));
    string_of(v)
}

/// Text cut down to a width, the last character of which is then an ellipsis.
pub open spec fn truncated(s: Seq<char>, n: int) -> Seq<char> {
    if s.len() <= n {
        s
    } else {
        s.take(n - 1).push('…')
    }
}

/// Text can be cut down to `n` bytes: it is no longer than that, or a character starts where it is
/// cut.
pub open spec fn cuttable(s: Seq<char>, n: int) -> bool {
    encode_utf8(s).len() > n ==> n > 0 && is_char_boundary(encode_utf8(s), n - 1)
}

/// Text cut down to `n` bytes: what is longer keeps `n - 1` bytes and gets an ellipsis.
pub open spec fn cut(s: Seq<char>, n: int) -> Seq<char> {
    if encode_utf8(s).len() <= n {
        s
    } else {
        decode_utf8(encode_utf8(s).subrange(0, n - 1)).push('…')
    }
}

/// Cuts text down to `n` bytes: what is longer keeps `n - 1` bytes and gets an ellipsis.
pub fn trunc(s: &str, n: usize) -> (r: String)
    requires
        cuttable(s@, n as int),
    ensures
        r@ == cut(s@, n as int),
        is_ascii_chars(s@) ==> r@ == truncated(s@, n as int),
{
    proof {
        if is_ascii_chars(s@) {
            is_ascii_chars_encode_utf8(s@);
        }
    }
    let bytes: &[u8] = s.as_bytes();
    if bytes.len() <= n {
        return string_of(chars_of(s));
    }
    let (head, _tail) = s.split_at(n - 1);
    let mut v = chars_of(head);
    proof {
        encode_utf8_decode_utf8(head@);
        if is_ascii_chars(s@) {
            lemma_ascii_cut(s@, n as int);
        }
    }
    v.push('…');
    string_of(v)
}

/// The chance that a prefix was found by now and the time until it is found next, as text.
pub struct Odds {
    /// The chance.
    pub chance: String,
    /// The expected time.
    pub eta: String,
}

/// The texts of a run that numbers with fractions stand behind.
pub struct Figures {
    /// The keys tried.
    pub total: String,
    /// The present rate.
    pub rate: String,
    /// The average rate.
    pub average: String,
    /// For each prefix.
    pub odds: Vec<Odds>,
    /// The rates of the devices, as far as there are any.
    pub device_rates: Vec<String>,
}

/// A run and its texts go together.
pub open spec fn consistent(shared: Shared, f: Figures) -> bool {
    &&& shared.wf()
    &&& f.odds@.len() == shared.prefixes@.len()
}

/// The columns of the dashboard can hold the names of the prefixes.
pub open spec fn names_fit(shared: Shared) -> bool {
    forall|i: int| 0 <= i < shared.prefixes@.len() ==> cuttable(#[trigger] full_name(shared, i), 22)
}

/// The chance and the time of a prefix, or that it is done.
pub open spec fn progress(shared: Shared, f: Figures, i: int) -> (Seq<char>, Seq<char>) {
    if shared.enough(i) {
        ("✔"@, "done"@)
    } else {
        (f.odds@[i].chance@, f.odds@[i].eta@)
    }
}

/// The first line of the dashboard.
pub open spec fn title_line(devices: nat, clock: nat) -> Seq<char> {
    "\x1b[1mtor-v3-vanity\x1b[0m · "@ + text::decimal(devices) + "×GPU · "@ + clock_text(clock)
        + "\n"@
}

/// The keys and the rates.
pub open spec fn rate_line(f: Figures) -> Seq<char> {
    f.total@ + " keys · "@ + f.rate@ + " (avg "@ + f.average@ + ")\n"@
}

/// The head of the table of prefixes.
pub open spec fn prefix_head() -> Seq<char> {
    "\x1b[1m"@ + text::left_aligned("PREFIX"@, 22) + text::right_aligned("FOUND"@, 7)
        + text::right_aligned("CHANCE"@, 13) + text::right_aligned("E[NEXT]"@, 10) + "\x1b[0m\n"@
}

/// The name of a prefix, with the mark of a bonus prefix.
pub open spec fn full_name(shared: Shared, i: int) -> Seq<char> {
    if shared.required@[i] {
        shared.prefixes@[i]@
    } else {
        shared.prefixes@[i]@ + " (bonus)"@
    }
}

/// The name of a prefix in the table.
pub open spec fn prefix_name(shared: Shared, i: int) -> Seq<char> {
    cut(full_name(shared, i), 22)
}

/// What was found of a prefix, out of what is asked for.
pub open spec fn found_text(shared: Shared, i: int) -> Seq<char> {
    text::decimal(shared.found@[i] as nat) + "/"@ + text::decimal(shared.target as nat)
}

/// The line of a prefix.
pub open spec fn prefix_line(shared: Shared, f: Figures, i: int) -> Seq<char> {
    let (chance, eta) = progress(shared, f, i);
    text::left_aligned(prefix_name(shared, i), 22) + text::right_aligned(found_text(shared, i), 7)
        + text::right_aligned(chance, 13) + text::right_aligned(eta, 10) + "\n"@
}

/// The lines of the first `n` prefixes.
pub open spec fn prefix_lines(shared: Shared, f: Figures, n: int) -> Seq<char>
    decreases n,
{
    if n <= 0 {
        Seq::empty()
    } else {
        prefix_lines(shared, f, n - 1) + prefix_line(shared, f, n - 1)
    }
}

/// The head of the table of devices.
pub open spec fn device_head() -> Seq<char> {
    "\x1b[1m"@ + text::right_aligned("GPU"@, 3) + text::right_aligned("ITERS"@, 10)
        + text::right_aligned("RATE"@, 13) + "\x1b[0m\n"@
}

/// The rate of a device, which is zero as long as there is none.
pub open spec fn device_rate(f: Figures, i: int) -> Seq<char> {
    if i < f.device_rates@.len() {
        f.device_rates@[i]@
    } else {
        "0/s"@
    }
}

/// The line of a device.
pub open spec fn device_line(shared: Shared, f: Figures, i: int) -> Seq<char> {
    let d = shared.devices@[i];
    let (iters, rate) = if d.calibrating {
        ("—"@, "tuning…"@)
    } else {
        (text::decimal(d.iters as nat), device_rate(f, i))
    };
    text::right_aligned(text::decimal(i as nat), 3) + text::right_aligned(iters, 10)
        + text::right_aligned(rate, 13) + "\n"@
}

/// The lines of the first `n` devices.
pub open spec fn device_lines(shared: Shared, f: Figures, n: int) -> Seq<char>
    decreases n,
{
    if n <= 0 {
        Seq::empty()
    } else {
        device_lines(shared, f, n - 1) + device_line(shared, f, n - 1)
    }
}

/// The dashboard with the end of its last line.
pub open spec fn status_text(shared: Shared, f: Figures, clock: nat) -> Seq<char> {
    title_line(shared.devices@.len(), clock) + rate_line(f) + "\n"@ + prefix_head() + prefix_lines(
        shared,
        f,
        shared.prefixes@.len() as int,
    ) + "\n"@ + device_head() + device_lines(shared, f, shared.devices@.len() as int)
}

/// Characters of a prefix, or of a prefix and a word, are ASCII.
proof fn lemma_prefix_ascii(p: Seq<char>)
    requires
        onion::valid_prefix(p),
    ensures
        is_ascii_chars(p),
        is_ascii_chars(p + " (bonus)"@),
{
    reveal_strlit(" (bonus)");
    assert forall|i: int| 0 <= i < p.len() implies 0 <= (#[trigger] p[i]) as u32 && (p[i] as u32)
        < 0x80 by {
        assert(onion::onion_char(p[i]));
    }
    let q = p + " (bonus)"@;
    assert forall|i: int| 0 <= i < q.len() implies 0 <= (#[trigger] q[i]) as u32 && (q[i] as u32)
        < 0x80 by {
        if i < p.len() {
            assert(q[i] == p[i]);
        } else {
            assert(q[i] == " (bonus)"@[i - p.len()]);
        }
    }
}

/// Every byte of ASCII text starts a character.
proof fn lemma_ascii_boundary(s: Seq<char>, n: int)
    requires
        is_ascii_chars(s),
        0 <= n < s.len(),
    ensures
        is_char_boundary(encode_utf8(s), n),
{
    is_ascii_chars_encode_utf8(s);
    encode_utf8_valid_utf8(s);
    is_char_boundary_iff_not_is_continuation_byte(encode_utf8(s), n);
    let b: u8 = encode_utf8(s)[n];
    assert(b < 0x80);
    assert(!is_continuation_byte(b)) by (bit_vector)
        requires
            b < 0x80,
    ;
}

/// The names of accepted prefixes fit, and show as many characters as the column is wide.
pub proof fn lemma_accepted_names_fit(shared: Shared, i: int)
    requires
        onion::valid_prefix(shared.prefixes@[i]@),
    ensures
        cuttable(full_name(shared, i), 22),
        prefix_name(shared, i) == truncated(full_name(shared, i), 22),
{
    let name = full_name(shared, i);
    lemma_prefix_ascii(shared.prefixes@[i]@);
    is_ascii_chars_encode_utf8(name);
    if name.len() > 22 {
        lemma_ascii_boundary(name, 21);
        lemma_ascii_cut(name, 22);
    }
}

/// ASCII text is cut by characters.
proof fn lemma_ascii_cut(s: Seq<char>, n: int)
    requires
        is_ascii_chars(s),
        0 < n < s.len(),
    ensures
        cut(s, n) == truncated(s, n),
{
    let t = s.take(n - 1);
    is_ascii_chars_encode_utf8(s);
    assert forall|i: int| 0 <= i < t.len() implies 0 <= (#[trigger] t[i]) as u32 && (t[i] as u32)
        < 0x80 by {
        assert(t[i] == s[i]);
    }
    is_ascii_chars_encode_utf8(t);
    assert(encode_utf8(t) =~= encode_utf8(s).subrange(0, n - 1));
    encode_utf8_decode_utf8(t);
}

/// The name of a prefix in the table.
fn name_column(shared: &Shared, i: usize) -> (r: String)
    requires
        shared.wf(),
        i < shared.prefixes@.len(),
        cuttable(full_name(*shared, i as int), 22),
    ensures
        r@ == prefix_name(*shared, i as int),
{
    if shared.required[i] {
        trunc(shared.prefixes[i].as_str(), 22)
    } else {
        let mut v = chars_of(shared.prefixes[i].as_str());
        push_str(&mut v, " (bonus)");
        trunc(string_of(v).as_str(), 22)
    }
}

/// Appends the chance and the time of a prefix, or that it is done.
fn push_progress(v: &mut Vec<char>, shared: &Shared, f: &Figures, i: usize)
    requires
        consistent(*shared, *f),
        i < shared.prefixes@.len(),
    ensures
        ({
            let (chance, eta) = progress(*shared, *f, i as int);
            final(v)@ == old(v)@ + text::right_aligned(chance, 13) + text::right_aligned(eta, 10)
        }),
{
    if shared.satisfied(i) {
        push_right(v, &chars_of("✔"), 13);
        push_right(v, &chars_of("done"), 10);
    } else {
        push_right(v, &chars_of(f.odds[i].chance.as_str()), 13);
        push_right(v, &chars_of(f.odds[i].eta.as_str()), 10);
    }
}

/// What was found of a prefix, out of what is asked for.
fn found_column(shared: &Shared, i: usize) -> (r: Vec<char>)
    requires
        shared.wf(),
        i < shared.prefixes@.len(),
    ensures
        r@ == found_text(*shared, i as int),
{
    let mut v = decimal_chars(shared.found[i]);
    push_str(&mut v, "/");
    push_decimal(&mut v, shared.target);
    v
}

/// The dashboard. It does not end its last line, so that it has as many line ends as the cursor
/// has to go up to its start.
pub fn render_status(shared: &Shared, f: &Figures, clock: u64) -> (r: String)
    requires
        consistent(*shared, *f),
        names_fit(*shared),
    ensures
        r@ == status_text(*shared, *f, clock as nat).drop_last(),
        status_text(*shared, *f, clock as nat).last() == '\n',
{
    let mut v: Vec<char> = Vec::new();
    push_str(&mut v, "\x1b[1mtor-v3-vanity\x1b[0m · ");
    push_decimal(&mut v, shared.devices.len() as u64);
    push_str(&mut v, "×GPU · ");
    push_str(&mut v, fmt_clock(clock).as_str());
    push_str(&mut v, "\n");
    assert(v@ =~= title_line(shared.devices@.len(), clock as nat));
    let ghost v0 = v@;
    push_str(&mut v, f.total.as_str());
    push_str(&mut v, " keys · ");
    push_str(&mut v, f.rate.as_str());
    push_str(&mut v, " (avg ");
    push_str(&mut v, f.average.as_str());
    push_str(&mut v, ")\n");
    assert(v@ =~= v0 + rate_line(*f));
    push_str(&mut v, "\n");
    let ghost v1 = v@;
    push_str(&mut v, "\x1b[1m");
    push_left(&mut v, &chars_of("PREFIX"), 22);
    push_right(&mut v, &chars_of("FOUND"), 7);
    push_right(&mut v, &chars_of("CHANCE"), 13);
    push_right(&mut v, &chars_of("E[NEXT]"), 10);
    push_str(&mut v, "\x1b[0m\n");
    assert(v@ =~= v1 + prefix_head());
    push_prefixes(&mut v, shared, f);
    push_str(&mut v, "\n");
    let ghost v2 = v@;
    push_str(&mut v, "\x1b[1m");
    push_right(&mut v, &chars_of("GPU"), 3);
    push_right(&mut v, &chars_of("ITERS"), 10);
    push_right(&mut v, &chars_of("RATE"), 13);
    push_str(&mut v, "\x1b[0m\n");
    assert(v@ =~= v2 + device_head());
    push_devices(&mut v, shared, f);
    proof {
        lemma_status_end(*shared, *f, clock as nat);
    }
    v.pop();
    string_of(v)
}

/// The dashboard ends a line.
proof fn lemma_status_end(shared: Shared, f: Figures, clock: nat)
    ensures
        status_text(shared, f, clock).len() > 0,
        status_text(shared, f, clock).last() == '\n',
{
    reveal_strlit("\n");
    reveal_strlit("\x1b[0m\n");
    let n: int = shared.devices@.len() as int;
    if n > 0 {
        assert(device_lines(shared, f, n) == device_lines(shared, f, n - 1) + device_line(
            shared,
            f,
            n - 1,
        ));
        assert(device_line(shared, f, n - 1).last() == '\n');
        assert(device_lines(shared, f, n).last() == '\n');
    } else {
        assert(device_lines(shared, f, n) =~= Seq::empty());
        assert(device_head().last() == '\n');
    }
}

/// Appends the lines of the prefixes.
fn push_prefixes(v: &mut Vec<char>, shared: &Shared, f: &Figures)
    requires
        consistent(*shared, *f),
        names_fit(*shared),
    ensures
        final(v)@ == old(v)@ + prefix_lines(*shared, *f, shared.prefixes@.len() as int),
{
    let ghost v0 = v@;
    let mut i: usize = 0;
    assert(v@ =~= v0 + prefix_lines(*shared, *f, 0));
    while i < shared.prefixes.len()
        invariant
            i <= shared.prefixes@.len(),
            consistent(*shared, *f),
            names_fit(*shared),
            v@ == v0 + prefix_lines(*shared, *f, i as int),
        decreases shared.prefixes@.len() - i,
    {
        let ghost before = v@;
        assert(cuttable(full_name(*shared, i as int), 22));
        push_left(v, &chars_of(name_column(shared, i).as_str()), 22);
        push_right(v, &found_column(shared, i), 7);
        push_progress(v, shared, f, i);
        push_str(v, "\n");
        assert(v@ =~= before + prefix_line(*shared, *f, i as int));
        i += 1;
        assert(v@ =~= v0 + prefix_lines(*shared, *f, i as int));
    }
}

/// Appends the lines of the devices.
fn push_devices(v: &mut Vec<char>, shared: &Shared, f: &Figures)
    ensures
        final(v)@ == old(v)@ + device_lines(*shared, *f, shared.devices@.len() as int),
{
    let ghost v0 = v@;
    let mut i: usize = 0;
    assert(v@ =~= v0 + device_lines(*shared, *f, 0));
    while i < shared.devices.len()
        invariant
            i <= shared.devices@.len(),
            v@ == v0 + device_lines(*shared, *f, i as int),
        decreases shared.devices@.len() - i,
    {
        let ghost before = v@;
        push_right(v, &decimal_chars(i as u64), 3);
        if shared.devices[i].calibrating {
            push_right(v, &chars_of("—"), 10);
            push_right(v, &chars_of("tuning…"), 13);
        } else {
            push_right(v, &decimal_chars(shared.devices[i].iters), 10);
            if i < f.device_rates.len() {
                push_right(v, &chars_of(f.device_rates[i].as_str()), 13);
            } else {
                push_right(v, &chars_of("0/s"), 13);
            }
        }
        push_str(v, "\n");
        assert(v@ =~= before + device_line(*shared, *f, i as int));
        i += 1;
        assert(v@ =~= v0 + device_lines(*shared, *f, i as int));
    }
}

/// How many lines text ends.
pub open spec fn line_ends(s: Seq<char>) -> nat
    decreases s.len(),
{
    if s.len() == 0 {
        0
    } else {
        line_ends(s.drop_last()) + if s.last() == '\n' {
            1nat
        } else {
            0
        }
    }
}

/// Counts the lines that text ends.
pub fn count_lines(s: &str) -> (r: usize)
    ensures
        r == line_ends(s@),
{
    let v = chars_of(s);
    let mut n: usize = 0;
    let mut i: usize = 0;
    assert(v@.take(0) =~= Seq::empty());
    while i < v.len()
        invariant
            i <= v@.len(),
            n <= i,
            n == line_ends(v@.take(i as int)),
        decreases v@.len() - i,
    {
        proof {
            assert(v@.take(i + 1).drop_last() =~= v@.take(i as int));
        }
        if v[i] == '\n' {
            n += 1;
        }
        i += 1;
    }
    assert(v@.take(v@.len() as int) =~= v@);
    n
}

/// Moves the cursor to the start of the last dashboard and clears the rest of the screen.
pub open spec fn erase_text(lines: nat) -> Seq<char> {
    if lines > 0 {
        "\x1b["@ + text::decimal(lines) + "A\r\x1b[J"@
    } else {
        Seq::empty()
    }
}

/// The first `n` messages, each on a line.
pub open spec fn message_lines(logs: Seq<String>, n: int) -> Seq<char>
    decreases n,
{
    if n <= 0 {
        Seq::empty()
    } else {
        message_lines(logs, n - 1) + logs[n - 1]@ + "\n"@
    }
}

/// One frame of the dashboard: it erases the one before, which had `prev_lines` line ends, and
/// puts the new messages above the new one. Returns the line ends of the new dashboard too.
pub fn frame(prev_lines: usize, logs: &Vec<String>, status: &str) -> (r: (String, usize))
    ensures
        r.0@ == erase_text(prev_lines as nat) + message_lines(logs@, logs@.len() as int) + status@,
        r.1 == line_ends(status@),
{
    let mut v: Vec<char> = Vec::new();
    if prev_lines > 0 {
        push_str(&mut v, "\x1b[");
        push_decimal(&mut v, prev_lines as u64);
        push_str(&mut v, "A\r\x1b[J");
    }
    assert(v@ =~= erase_text(prev_lines as nat));
    let ghost v0 = v@;
    let mut i: usize = 0;
    assert(v@ =~= v0 + message_lines(logs@, 0));
    while i < logs.len()
        invariant
            i <= logs@.len(),
            v@ == v0 + message_lines(logs@, i as int),
        decreases logs@.len() - i,
    {
        push_str(&mut v, logs[i].as_str());
        push_str(&mut v, "\n");
        i += 1;
        assert(v@ =~= v0 + message_lines(logs@, i as int));
    }
    push_str(&mut v, status);
    (string_of(v), count_lines(status))
}

/// The first of the plain lines.
pub open spec fn plain_head(f: Figures, clock: nat) -> Seq<char> {
    "["@ + clock_text(clock) + "] "@ + f.total@ + " keys · "@ + f.rate@ + " (avg "@ + f.average@
        + ")"@
}

/// The plain line of a prefix.
pub open spec fn plain_line(shared: Shared, f: Figures, i: int) -> Seq<char> {
    let (chance, eta) = progress(shared, f, i);
    "    "@ + text::left_aligned(shared.prefixes@[i]@, 18) + " found "@ + text::right_aligned(
        text::decimal(shared.found@[i] as nat),
        4,
    ) + "  "@ + text::right_aligned(chance, 10) + "  E[next] "@ + eta
}

/// The plain lines: one for the run and one for each prefix.
pub fn plain_report(shared: &Shared, f: &Figures, clock: u64) -> (r: Vec<String>)
    requires
        consistent(*shared, *f),
    ensures
        r@.len() == shared.prefixes@.len() + 1,
        r@[0]@ == plain_head(*f, clock as nat),
        forall|i: int|
            0 <= i < shared.prefixes@.len() ==> (#[trigger] r@[i + 1])@ == plain_line(*shared,
                *f, i),
{
    let mut r: Vec<String> = Vec::new();
    let mut v: Vec<char> = Vec::new();
    push_str(&mut v, "[");
    push_str(&mut v, fmt_clock(clock).as_str());
    push_str(&mut v, "] ");
    push_str(&mut v, f.total.as_str());
    push_str(&mut v, " keys · ");
    push_str(&mut v, f.rate.as_str());
    push_str(&mut v, " (avg ");
    push_str(&mut v, f.average.as_str());
    push_str(&mut v, ")");
    assert(v@ =~= plain_head(*f, clock as nat));
    r.push(string_of(v));
    let mut i: usize = 0;
    while i < shared.prefixes.len()
        invariant
            i <= shared.prefixes@.len(),
            consistent(*shared, *f),
            r@.len() == i + 1,
            r@[0]@ == plain_head(*f, clock as nat),
            forall|k: int| 0 <= k < i ==> (#[trigger] r@[k + 1])@ == plain_line(*shared, *f, k),
        decreases shared.prefixes@.len() - i,
    {
        let mut v: Vec<char> = Vec::new();
        push_str(&mut v, "    ");
        push_left(&mut v, &chars_of(shared.prefixes[i].as_str()), 18);
        push_str(&mut v, " found ");
        push_right(&mut v, &decimal_chars(shared.found[i]), 4);
        push_str(&mut v, "  ");
        if shared.satisfied(i) {
            push_right(&mut v, &chars_of("✔"), 10);
            push_str(&mut v, "  E[next] ");
            push_str(&mut v, "done");
        } else {
            push_right(&mut v, &chars_of(f.odds[i].chance.as_str()), 10);
            push_str(&mut v, "  E[next] ");
            push_str(&mut v, f.odds[i].eta.as_str());
        }
        assert(v@ =~= plain_line(*shared, *f, i as int));
        r.push(string_of(v));
        i += 1;
    }
    r
}

/// What came of waiting for a message.
#[derive(Clone, Copy, PartialEq, Eq, Structural)]
pub enum Tick {
    /// A message came.
    Message,
    /// None came in time.
    Timeout,
    /// None will come any more.
    Disconnected,
}

/// Whether the frame that is drawn now is the last one: the run is over, or no message will come
/// any more. What is left of the messages of a run that is over belongs into this frame.
pub fn is_last_frame(tick: Tick, done: bool) -> (r: bool)
    ensures
        r == (tick == Tick::Disconnected || done),
{
    tick == Tick::Disconnected || done
}

/// The seconds over which the rates of the dashboard are taken.
pub const RATE_SECS: u64 = 3;

/// Whether the rates are taken anew, from the whole seconds since that was done last.
pub fn rates_due(secs: u64) -> (r: bool)
    ensures
        r == (secs >= RATE_SECS),
        r == (secs >= 3),
{
    secs >= RATE_SECS
}

/// The seconds between two plain reports.
pub const REPORT_SECS: u64 = 30;

/// Whether a plain report is due, from the whole seconds since the last one.
pub fn report_due(secs: u64) -> (r: bool)
    ensures
        r == (secs >= REPORT_SECS),
        r == (secs >= 30),
{
    secs >= REPORT_SECS
}

/// What the plain reporter does next.
#[derive(Clone, Copy, PartialEq, Eq, Structural)]
pub enum PlainAction {
    /// It ends.
    Stop,
    /// It writes its lines.
    Report,
    /// It waits for the next message.
    Wait,
}

/// What the plain reporter does after it waited and printed what came: it ends with the run or when
/// no message will come any more, and otherwise writes its lines if they are due `secs` whole
/// seconds after the last ones.
pub fn plain_action(tick: Tick, done: bool, secs: u64) -> (r: PlainAction)
    ensures
        r == (if tick == Tick::Disconnected || done {
            PlainAction::Stop
        } else if secs >= REPORT_SECS {
            PlainAction::Report
        } else {
            PlainAction::Wait
        }),
{
    if tick == Tick::Disconnected || done {
        PlainAction::Stop
    } else if report_due(secs) {
        PlainAction::Report
    } else {
        PlainAction::Wait
    }
}

/// The first line of the summary.
pub open spec fn done_text(clock: nat, keys: Seq<char>) -> Seq<char> {
    "Done — all required prefixes found in "@ + clock_text(clock) + " ("@ + keys + " keys tried)."@
}

/// The line of a prefix in the summary.
pub open spec fn outcome_text(shared: Shared, i: int) -> Seq<char> {
    "  "@ + (if shared.found@[i] > 0 {
        "✔"@
    } else {
        "·"@
    }) + " "@ + text::left_aligned(shared.prefixes@[i]@, 18) + " "@ + text::right_aligned(
        if shared.required@[i] {
            "required"@
        } else {
            "bonus"@
        },
        8,
    ) + "  found "@ + found_text(shared, i)
}

/// What is said of the matches that were dropped.
pub open spec fn dropped_text(n: nat) -> Seq<char> {
    "  ("@ + text::decimal(n)
        + " further match(es) discarded: keys from one launch share a base scalar, so only one per launch is kept)"@
}

/// What is said of keys with un-clamped scalars.
pub open spec fn unclamped_text() -> Seq<char> {
    "\nNote: these keys store an un-clamped scalar, which is what Tor uses. Tools that\nre-derive the address by clamping (ed25519-dalek's ExpandedSecretKey among them)\nwill compute a different address from the same file — that is the tool being\nwrong, not the key. Check any key with:\n    cargo run --release --example validate_key -- <keyfile>"@
}

/// The lines of the summary.
pub open spec fn summary_text(
    shared: Shared,
    clock: nat,
    keys: Seq<char>,
    dst: Seq<char>,
    algo: Algo,
) -> Seq<Seq<char>> {
    seq![done_text(clock, keys)] + Seq::new(
        shared.prefixes@.len(),
        |i: int| outcome_text(shared, i),
    ) + (if shared.dropped_correlated > 0 {
        seq![dropped_text(shared.dropped_correlated as nat)]
    } else {
        Seq::empty()
    }) + seq!["Keys written to "@ + dst] + (if algo == Algo::Incremental {
        seq![unclamped_text()]
    } else {
        Seq::empty()
    })
}

/// The line of a prefix in the summary.
fn outcome_line(shared: &Shared, i: usize) -> (r: String)
    requires
        shared.wf(),
        i < shared.prefixes@.len(),
    ensures
        r@ == outcome_text(*shared, i as int),
{
    let mut v: Vec<char> = Vec::new();
    push_str(&mut v, "  ");
    if shared.found[i] > 0 {
        push_str(&mut v, "✔");
    } else {
        push_str(&mut v, "·");
    }
    push_str(&mut v, " ");
    push_left(&mut v, &chars_of(shared.prefixes[i].as_str()), 18);
    push_str(&mut v, " ");
    if shared.required[i] {
        push_right(&mut v, &chars_of("required"), 8);
    } else {
        push_right(&mut v, &chars_of("bonus"), 8);
    }
    push_str(&mut v, "  found ");
    let mut c = found_column(shared, i);
    v.append(&mut c);
    assert(v@ =~= outcome_text(*shared, i as int));
    string_of(v)
}

/// The lines of the summary.
pub fn summary(shared: &Shared, clock: u64, keys: &str, dst: &str, algo: Algo) -> (r: Vec<String>)
    requires
        shared.wf(),
    ensures
        session::texts(r@) == summary_text(*shared, clock as nat, keys@, dst@, algo),
{
    let mut r: Vec<String> = Vec::new();
    let mut v: Vec<char> = Vec::new();
    push_str(&mut v, "Done — all required prefixes found in ");
    push_str(&mut v, fmt_clock(clock).as_str());
    push_str(&mut v, " (");
    push_str(&mut v, keys);
    push_str(&mut v, " keys tried).");
    assert(v@ =~= done_text(clock as nat, keys@));
    r.push(string_of(v));
    let ghost head = seq![done_text(clock as nat, keys@)];
    let mut i: usize = 0;
    assert(session::texts(r@) =~= head + Seq::new(0, |k: int| outcome_text(*shared, k)));
    while i < shared.prefixes.len()
        invariant
            i <= shared.prefixes@.len(),
            shared.wf(),
            session::texts(r@) == head + Seq::new(i as nat, |k: int| outcome_text(*shared, k)),
        decreases shared.prefixes@.len() - i,
    {
        let ghost before = session::texts(r@);
        let line = outcome_line(shared, i);
        r.push(line);
        assert(session::texts(r@) =~= before.push(line@));
        i += 1;
        assert(session::texts(r@) =~= head + Seq::new(
            i as nat,
            |k: int| outcome_text(*shared, k),
        ));
    }
    let ghost t1 = session::texts(r@);
    if shared.dropped_correlated > 0 {
        let mut v: Vec<char> = Vec::new();
        push_str(&mut v, "  (");
        push_decimal(&mut v, shared.dropped_correlated);
        push_str(
            &mut v,
            " further match(es) discarded: keys from one launch share a base scalar, so only one per launch is kept)",
        );
        assert(v@ =~= dropped_text(shared.dropped_correlated as nat));
        r.push(string_of(v));
    }
    let ghost t2 = t1 + if shared.dropped_correlated > 0 {
        seq![dropped_text(shared.dropped_correlated as nat)]
    } else {
        Seq::empty()
    };
    assert(session::texts(r@) =~= t2);
    let mut v: Vec<char> = Vec::new();
    push_str(&mut v, "Keys written to ");
    push_str(&mut v, dst);
    assert(v@ =~= "Keys written to "@ + dst@);
    r.push(string_of(v));
    let ghost t3 = t2 + seq!["Keys written to "@ + dst@];
    assert(session::texts(r@) =~= t3);
    if algo == Algo::Incremental {
        let mut v: Vec<char> = Vec::new();
        push_str(
            &mut v,
            "\nNote: these keys store an un-clamped scalar, which is what Tor uses. Tools that\nre-derive the address by clamping (ed25519-dalek's ExpandedSecretKey among them)\nwill compute a different address from the same file — that is the tool being\nwrong, not the key. Check any key with:\n    cargo run --release --example validate_key -- <keyfile>",
        );
        assert(v@ =~= unclamped_text());
        r.push(string_of(v));
    }
    assert(session::texts(r@) =~= summary_text(*shared, clock as nat, keys@, dst@, algo));
    r
}

} // verus!
