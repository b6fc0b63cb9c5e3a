//! Building what the exporter sends: line-protocol bodies, request headers,
//! and the target host.
pub mod arguments;
pub mod query;

use vstd::prelude::*;
use crate::configs::configs::{AgentConfigFile, HeaderConfig, ParamField};
use crate::platforms::other::methods::arguments::ToLineProtocolOptions;
use crate::text::{chars_of, str_to_string};

verus! {

// ---------------------------------------------------------------- decimals

/// ASCII digits of `n` in base ten, without leading zeros (`0` is `"0"`).
pub open spec fn decimal_digits(n: nat) -> Seq<u8>
    decreases n,
{
    if n < 10 {
        seq![(48 + n) as u8]
    } else {
        decimal_digits(n / 10).push((48 + n % 10) as u8)
    }
}

/// ASCII decimal text of `v`, with a leading `-` when it is negative.
pub open spec fn decimal_text(v: int) -> Seq<u8> {
    if v < 0 {
        seq![45u8] + decimal_digits((-v) as nat)
    } else {
        decimal_digits(v as nat)
    }
}

fn push_digits(out: &mut Vec<u8>, n: u64)
    ensures
        final(out)@ == old(out)@ + decimal_digits(n as nat),
    decreases n,
{
    if n >= 10 {
        push_digits(out, n / 10);
    }
    let d: u8 = (n % 10) as u8;
    out.push(48 + d);
    proof {
        if n >= 10 {
            assert(old(out)@ + decimal_digits(n as nat) =~= (old(out)@ + decimal_digits((n / 10) as nat)).push((48 + n % 10) as u8));
        } else {
            assert(old(out)@ + decimal_digits(n as nat) =~= old(out)@.push((48 + n) as u8));
        }
    }
}

/// Appends the decimal text of `v` to `out`.
pub fn push_decimal(out: &mut Vec<u8>, v: i64)
    ensures
        final(out)@ == old(out)@ + decimal_text(v as int),
{
    if v < 0 {
        out.push(45);
        let magnitude: u64 = ((-(v + 1)) as u64) + 1;
        push_digits(out, magnitude);
        assert(final(out)@ =~= old(out)@ + decimal_text(v as int));
    } else {
        push_digits(out, v as u64);
    }
}

}
verus! {

// ---------------------------------------------------------------- line protocol

/// The bytes of an ASCII text.
pub open spec fn ascii_bytes(t: Seq<char>) -> Seq<u8> {
    t.map_values(|c: char| c as u8)
}

/// The measurement name of `section` as bytes.
pub open spec fn measurement_bytes(section: LineSection) -> Seq<u8> {
    ascii_bytes(measurement_text(section))
}

/// A finished line: the measurement name of `section`, the record (its tags
/// and fields), a space, the timestamp, and a line feed.
pub open spec fn timestamped_line(section: LineSection, body: Seq<u8>, time: i64) -> Seq<u8> {
    measurement_bytes(section) + body + seq![32u8] + decimal_text(time as int) + seq![10u8]
}

/// The finished lines of `bodies`, all under `section`, in order.
pub open spec fn timestamped_lines(section: LineSection, bodies: Seq<Seq<u8>>, time: i64) -> Seq<u8>
    decreases bodies.len(),
{
    if bodies.len() == 0 {
        Seq::empty()
    } else {
        timestamped_lines(section, bodies.drop_last(), time)
            + timestamped_line(section, bodies.last(), time)
    }
}

/// The lines of the optional exporter-process record.
pub open spec fn optional_lines(body: Option<Vec<u8>>) -> Seq<Seq<u8>> {
    match body {
        Some(b) => seq![b@],
        None => Seq::empty(),
    }
}

/// The whole batch: system, memory, disk, CPU and network lines, then the
/// process list, the sensors, and last the exporter's own process (listed as a
/// process), every line under its measurement name and stamped with the
/// round's time.
pub open spec fn line_protocol_batch(m: ToLineProtocolOptions) -> Seq<u8> {
    timestamped_line(LineSection::System, m.system@, m.time)
        + timestamped_line(LineSection::Memory, m.memory@, m.time)
        + timestamped_line(LineSection::Disk, m.disk@, m.time)
        + timestamped_line(LineSection::Cpu, m.cpu@, m.time)
        + timestamped_line(LineSection::Network, m.network@, m.time)
        + timestamped_lines(LineSection::Processes, m.processes.deep_view(), m.time)
        + timestamped_lines(LineSection::Components, m.components.deep_view(), m.time)
        + timestamped_lines(LineSection::Processes, optional_lines(m.exporter_process), m.time)
}

fn push_measurement(out: &mut Vec<u8>, section: LineSection)
    ensures
        final(out)@ == old(out)@ + measurement_bytes(section),
{
    let name = chars_of(measurement_name(section));
    let mut i: usize = 0;
    while i < name.len()
        invariant
            i <= name@.len(),
            name@ == measurement_text(section),
            out@ == old(out)@ + ascii_bytes(name@.take(i as int)),
        decreases name.len() - i,
    {
        let c = name[i];
        out.push(c as u8);
        i = i + 1;
        assert(ascii_bytes(name@.take(i as int)) =~= ascii_bytes(name@.take(i - 1)).push(c as u8));
    }
    assert(name@.take(i as int) =~= name@);
}

fn push_bytes(out: &mut Vec<u8>, bytes: &Vec<u8>)
    ensures
        final(out)@ == old(out)@ + bytes@,
{
    let mut i: usize = 0;
    while i < bytes.len()
        invariant
            i <= bytes@.len(),
            out@ == old(out)@ + bytes@.take(i as int),
        decreases bytes.len() - i,
    {
        out.push(bytes[i]);
        i = i + 1;
        assert(out@ =~= old(out)@ + bytes@.take(i as int));
    }
    assert(bytes@.take(i as int) =~= bytes@);
}

fn push_line(out: &mut Vec<u8>, section: LineSection, body: &Vec<u8>, time: i64)
    ensures
        final(out)@ == old(out)@ + timestamped_line(section, body@, time),
{
    push_measurement(out, section);
    push_bytes(out, body);
    out.push(32);
    push_decimal(out, time);
    out.push(10);
    assert(final(out)@ =~= old(out)@ + timestamped_line(section, body@, time));
}

fn push_lines(out: &mut Vec<u8>, section: LineSection, bodies: &Vec<Vec<u8>>, time: i64)
    ensures
        final(out)@ == old(out)@ + timestamped_lines(section, bodies.deep_view(), time),
{
    let mut i: usize = 0;
    while i < bodies.len()
        invariant
            i <= bodies@.len(),
            out@ == old(out)@ + timestamped_lines(section, bodies.deep_view().take(i as int), time),
        decreases bodies.len() - i,
    {
        push_line(out, section, &bodies[i], time);
        proof {
            let bv = bodies.deep_view();
            assert(bv.take(i + 1).drop_last() =~= bv.take(i as int));
            assert(bv.take(i + 1).last() == bodies@[i as int]@);
            assert(out@ =~= old(out)@ + timestamped_lines(section, bv.take(i + 1), time));
        }
        i = i + 1;
    }
    assert(bodies.deep_view().take(i as int) =~= bodies.deep_view());
}

/// The line-protocol batch of one collection round.
pub fn collect_metrics_as_line_protocol(metrics: ToLineProtocolOptions) -> (r: Vec<u8>)
    ensures
        r@ == line_protocol_batch(metrics),
{
    let mut out: Vec<u8> = Vec::new();
    push_line(&mut out, LineSection::System, &metrics.system, metrics.time);
    push_line(&mut out, LineSection::Memory, &metrics.memory, metrics.time);
    push_line(&mut out, LineSection::Disk, &metrics.disk, metrics.time);
    push_line(&mut out, LineSection::Cpu, &metrics.cpu, metrics.time);
    push_line(&mut out, LineSection::Network, &metrics.network, metrics.time);
    push_lines(&mut out, LineSection::Processes, &metrics.processes, metrics.time);
    push_lines(&mut out, LineSection::Components, &metrics.components, metrics.time);
    let ghost own = metrics.exporter_process;
    let mut exporter: Vec<Vec<u8>> = Vec::new();
    match metrics.exporter_process {
        Some(b) => {
            let ghost bv = b@;
            exporter.push(b);
            assert(own == Some(b));
            assert(exporter.deep_view().len() == 1);
            assert(exporter.deep_view()[0] == bv);
            assert(exporter.deep_view() =~= optional_lines(own));
        },
        None => {
            assert(exporter.deep_view() =~= optional_lines(own));
        },
    }
    push_lines(&mut out, LineSection::Processes, &exporter, metrics.time);
    assert(out@ =~= line_protocol_batch(metrics));
    out
}

}
verus! {

broadcast use vstd::string::group_string_axioms;

/// The metric groups of a line-protocol batch.
#[derive(Debug, Clone, Copy, PartialEq, Eq, Structural)]
pub enum LineSection {
    System,
    Memory,
    Disk,
    Cpu,
    Network,
    Components,
    Processes,
}

/// The measurement name of each group; the exporter's own process is listed
/// under the process-list measurement too.
pub open spec fn measurement_text(section: LineSection) -> Seq<char> {
    match section {
        LineSection::System => "metrics_system"@,
        LineSection::Memory => "metrics_memory"@,
        LineSection::Disk => "metrics_disk"@,
        LineSection::Cpu => "metrics_cpu"@,
        LineSection::Network => "metrics_network"@,
        LineSection::Components => "metrics_component_list"@,
        LineSection::Processes => "metrics_process_list"@,
    }
}

/// The measurement name under which the records of `section` are written.
pub fn measurement_name(section: LineSection) -> (name: &'static str)
    ensures
        name@ == measurement_text(section),
{
    match section {
        LineSection::System => "metrics_system",
        LineSection::Memory => "metrics_memory",
        LineSection::Disk => "metrics_disk",
        LineSection::Cpu => "metrics_cpu",
        LineSection::Network => "metrics_network",
        LineSection::Components => "metrics_component_list",
        LineSection::Processes => "metrics_process_list",
    }
}

}
verus! {

// ---------------------------------------------------------------- requests

/// The name of the `Host` header as the `http` crate spells it:
/// `http::header::HOST.as_str()`. Claimed: it is `host` (the crate's standard
/// header table lists it as the bytes `b"host"`).
#[verifier::external_body]
fn host_header_name() -> (name: String)
    ensures
        name@ == "host"@,
{
    http::header::HOST.as_str().to_string()
}

/// The name of the `Connection` header as the `http` crate spells it:
/// `http::header::CONNECTION.as_str()`. Claimed: it is `connection` (the
/// crate's standard header table lists it as the bytes `b"connection"`).
#[verifier::external_body]
fn connection_header_name() -> (name: String)
    ensures
        name@ == "connection"@,
{
    http::header::CONNECTION.as_str().to_string()
}

/// The pair `h` reads `(name, value)`.
pub open spec fn header_is(h: (String, String), name: Seq<char>, value: Seq<char>) -> bool {
    h.0@ == name && h.1@ == value
}

/// Headers of a push request, in the order they are set: `host` with the
/// target's host, `connection: close`, then the configured extra headers.
pub fn build_request_headers(host: &str, extra: &Vec<HeaderConfig>) -> (r: Vec<(String, String)>)
    ensures
        r@.len() == extra@.len() + 2,
        header_is(r@[0], "host"@, host@),
        header_is(r@[1], "connection"@, "close"@),
        forall|i: int| 0 <= i < extra@.len()
            ==> header_is(#[trigger] r@[i + 2], extra@[i].header@, extra@[i].value@),
{
    let mut r: Vec<(String, String)> = Vec::new();
    r.push((host_header_name(), str_to_string(host)));
    r.push((connection_header_name(), str_to_string("close")));
    let mut i: usize = 0;
    while i < extra.len()
        invariant
            i <= extra@.len(),
            r@.len() == i + 2,
            header_is(r@[0], "host"@, host@),
            header_is(r@[1], "connection"@, "close"@),
            forall|k: int| 0 <= k < i
                ==> header_is(#[trigger] r@[k + 2], extra@[k].header@, extra@[k].value@),
        decreases extra.len() - i,
    {
        let h = &extra[i];
        r.push((h.header.clone(), h.value.clone()));
        i = i + 1;
    }
    r
}

/// Query parameters of a push request: the configured extra parameters, as
/// `(name, value)` pairs in the configured order.
pub fn build_query_pairs(params: &Vec<ParamField>) -> (r: Vec<(String, String)>)
    ensures
        r@.len() == params@.len(),
        forall|i: int| 0 <= i < params@.len()
            ==> header_is(#[trigger] r@[i], params@[i].variable@, params@[i].value@),
{
    let mut r: Vec<(String, String)> = Vec::new();
    let mut i: usize = 0;
    while i < params.len()
        invariant
            i <= params@.len(),
            r@.len() == i,
            forall|k: int| 0 <= k < i
                ==> header_is(#[trigger] r@[k], params@[k].variable@, params@[k].value@),
        decreases params.len() - i,
    {
        let p = &params[i];
        r.push((p.variable.clone(), p.value.clone()));
        i = i + 1;
    }
    r
}

/// What `url::Url::parse` and `Url::host_str` make of a text: `None` when it
/// does not parse as a URL, `Some(None)` when the URL has no host, else the
/// host as written in the parsed URL.
pub uninterp spec fn url_host(url: Seq<char>) -> Option<Option<Seq<char>>>;

/// Parses `url` with `url::Url::parse` and reads its `host_str`. Claimed: the
/// outcome is `url_host` of the text, a function of the text alone.
#[verifier::external_body]
fn parse_url_host(url: &str) -> (r: Option<Option<String>>)
    ensures
        r.deep_view() == url_host(url@),
{
    match url::Url::parse(url) {
        Ok(parsed) => match parsed.host_str() {
            Some(h) => Some(Some(h.to_string())),
            None => Some(None),
        },
        Err(_) => None,
    }
}

/// The host reported for a parse outcome: the host itself, `localhost` for a
/// URL without one, `incorrect_url` for a text that is not a URL.
pub open spec fn host_text(parsed: Option<Option<Seq<char>>>) -> Seq<char> {
    match parsed {
        Some(Some(h)) => h,
        Some(None) => "localhost"@,
        None => "incorrect_url"@,
    }
}

/// The host reported for a URL parse outcome (see `host_text`).
pub fn host_from_parsed(parsed: Option<Option<String>>) -> (r: String)
    ensures
        r@ == host_text(parsed.deep_view()),
{
    match parsed {
        Some(Some(h)) => h,
        Some(None) => str_to_string("localhost"),
        None => str_to_string("incorrect_url"),
    }
}

/// The host of the target URL, sent as the `host` header: the parsed host,
/// `localhost` when the URL has none, `incorrect_url` when it does not parse.
pub fn get_host(url: &str) -> (r: String)
    ensures
        r@ == host_text(url_host(url@)),
{
    host_from_parsed(parse_url_host(url))
}

// ---------------------------------------------------------------- start-up

/// The configuration the exporter runs with: the one that loaded. A failed
/// load stops the exporter before this point, so a loaded one is required.
pub fn load_config(loaded: Result<AgentConfigFile, String>) -> (cfg: AgentConfigFile)
    requires
        loaded is Ok,
    ensures
        loaded == Ok::<AgentConfigFile, String>(cfg),
{
    loaded.unwrap()
}

/// The log filter of the tracing subscriber: `debug` in debug mode, else `info`.
pub fn tracing_filter(debug: bool) -> (filter: &'static str)
    ensures
        filter@ == if debug { "debug"@ } else { "info"@ },
{
    if debug {
        "debug"
    } else {
        "info"
    }
}

}
verus! {

/// What closes every line of a batch stamped at `time`.
pub open spec fn line_end(time: i64) -> Seq<u8> {
    seq![32u8] + decimal_text(time as int) + seq![10u8]
}

/// `s` ends with `suffix`.
pub open spec fn ends_with(s: Seq<u8>, suffix: Seq<u8>) -> bool {
    suffix.len() <= s.len() && s.subrange(s.len() - suffix.len(), s.len() as int) == suffix
}

proof fn lemma_append_keeps_end(a: Seq<u8>, b: Seq<u8>, suffix: Seq<u8>)
    requires
        ends_with(b, suffix) || (b.len() == 0 && ends_with(a, suffix)),
    ensures
        ends_with(a + b, suffix),
{
    if b.len() == 0 {
        assert(a + b =~= a);
        if suffix.len() == 0 {
            assert(a.subrange(a.len() as int, a.len() as int) =~= suffix);
        }
    } else {
        assert((a + b).subrange((a + b).len() - suffix.len(), (a + b).len() as int)
            =~= b.subrange(b.len() - suffix.len(), b.len() as int));
    }
}

proof fn lemma_lines_end(section: LineSection, bodies: Seq<Seq<u8>>, time: i64)
    ensures
        bodies.len() == 0 ==> timestamped_lines(section, bodies, time).len() == 0,
        bodies.len() > 0 ==> ends_with(timestamped_lines(section, bodies, time), line_end(time)),
{
    if bodies.len() > 0 {
        let last = timestamped_line(section, bodies.last(), time);
        let head = measurement_bytes(section) + bodies.last();
        assert(last =~= head + line_end(time));
        assert(ends_with(line_end(time), line_end(time))) by {
            assert(line_end(time).subrange(0, line_end(time).len() as int) =~= line_end(time));
        }
        lemma_append_keeps_end(head, line_end(time), line_end(time));
        lemma_append_keeps_end(timestamped_lines(section, bodies.drop_last(), time), last, line_end(time));
    }
}

/// Every batch is closed: it ends with the round's timestamp and a line feed,
/// whatever the process list, sensors and exporter process hold.
pub proof fn batch_ends_with_timestamp(m: ToLineProtocolOptions)
    ensures
        ends_with(line_protocol_batch(m), line_end(m.time)),
{
    let t = m.time;
    let e = line_end(t);
    assert(ends_with(e, e)) by {
        assert(e.subrange(0, e.len() as int) =~= e);
    }
    let five = timestamped_line(LineSection::System, m.system@, t)
        + timestamped_line(LineSection::Memory, m.memory@, t)
        + timestamped_line(LineSection::Disk, m.disk@, t)
        + timestamped_line(LineSection::Cpu, m.cpu@, t);
    let net_head = measurement_bytes(LineSection::Network) + m.network@;
    let net = timestamped_line(LineSection::Network, m.network@, t);
    assert(net =~= net_head + e);
    lemma_append_keeps_end(net_head, e, e);
    lemma_append_keeps_end(five, net, e);
    let a = five + net;
    let p = timestamped_lines(LineSection::Processes, m.processes.deep_view(), t);
    let c = timestamped_lines(LineSection::Components, m.components.deep_view(), t);
    let x = timestamped_lines(LineSection::Processes, optional_lines(m.exporter_process), t);
    lemma_lines_end(LineSection::Processes, m.processes.deep_view(), t);
    lemma_lines_end(LineSection::Components, m.components.deep_view(), t);
    lemma_lines_end(LineSection::Processes, optional_lines(m.exporter_process), t);
    lemma_append_keeps_end(a, p, e);
    lemma_append_keeps_end(a + p, c, e);
    lemma_append_keeps_end(a + p + c, x, e);
    assert(line_protocol_batch(m) =~= a + p + c + x);
}

/// The length of the line of one record: measurement name, record, a space,
/// the decimal timestamp and a line feed.
pub open spec fn line_length(section: LineSection, body: Seq<u8>, time: i64) -> nat {
    measurement_text(section).len() + body.len() + decimal_text(time as int).len() + 2
}

/// The total length of the lines of `bodies`.
pub open spec fn lines_length(section: LineSection, bodies: Seq<Seq<u8>>, time: i64) -> nat
    decreases bodies.len(),
{
    if bodies.len() == 0 {
        0
    } else {
        lines_length(section, bodies.drop_last(), time) + line_length(section, bodies.last(), time)
    }
}

/// The total length of the five summary lines of `m`.
pub open spec fn summary_length(m: ToLineProtocolOptions) -> nat {
    line_length(LineSection::System, m.system@, m.time)
        + line_length(LineSection::Memory, m.memory@, m.time)
        + line_length(LineSection::Disk, m.disk@, m.time)
        + line_length(LineSection::Cpu, m.cpu@, m.time)
        + line_length(LineSection::Network, m.network@, m.time)
}

/// The length of the exporter-process line, when there is one.
pub open spec fn exporter_length(m: ToLineProtocolOptions) -> nat {
    match m.exporter_process {
        Some(b) => line_length(LineSection::Processes, b@, m.time),
        None => 0,
    }
}

proof fn lemma_line_length(section: LineSection, body: Seq<u8>, time: i64)
    ensures
        timestamped_line(section, body, time).len() == line_length(section, body, time),
{
}

proof fn lemma_lines_length(section: LineSection, bodies: Seq<Seq<u8>>, time: i64)
    ensures
        timestamped_lines(section, bodies, time).len() == lines_length(section, bodies, time),
    decreases bodies.len(),
{
    if bodies.len() > 0 {
        lemma_lines_length(section, bodies.drop_last(), time);
        lemma_line_length(section, bodies.last(), time);
    }
}

proof fn lemma_line_in_lines(section: LineSection, bodies: Seq<Seq<u8>>, time: i64, i: int)
    requires
        0 <= i < bodies.len(),
    ensures
        lines_length(section, bodies.take(i), time) + line_length(section, bodies[i], time)
            <= lines_length(section, bodies, time),
        timestamped_lines(section, bodies, time).subrange(
            lines_length(section, bodies.take(i), time) as int,
            (lines_length(section, bodies.take(i), time) + line_length(section, bodies[i], time)) as int,
        ) == timestamped_line(section, bodies[i], time),
    decreases bodies.len(),
{
    let init = bodies.drop_last();
    let a = lines_length(section, bodies.take(i), time);
    let n = line_length(section, bodies[i], time);
    let last = timestamped_line(section, bodies.last(), time);
    lemma_lines_length(section, init, time);
    lemma_line_length(section, bodies.last(), time);
    if i == bodies.len() - 1 {
        assert(bodies.take(i) =~= init);
        assert((timestamped_lines(section, init, time) + last).subrange(a as int, (a + n) as int) =~= last);
    } else {
        assert(init.take(i) =~= bodies.take(i));
        assert(init[i] == bodies[i]);
        lemma_line_in_lines(section, init, time, i);
        let front = timestamped_lines(section, init, time);
        assert((front + last).subrange(a as int, (a + n) as int) =~= front.subrange(a as int, (a + n) as int));
    }
}

/// A batch holds every record once: its length is that of the five summary
/// lines, one line per listed process, one per sensor, and the exporter's own
/// process line when there is one.
pub proof fn batch_length_counts_every_record(m: ToLineProtocolOptions)
    ensures
        line_protocol_batch(m).len() == summary_length(m)
            + lines_length(LineSection::Processes, m.processes.deep_view(), m.time)
            + lines_length(LineSection::Components, m.components.deep_view(), m.time)
            + exporter_length(m),
{
    let t = m.time;
    lemma_line_length(LineSection::System, m.system@, t);
    lemma_line_length(LineSection::Memory, m.memory@, t);
    lemma_line_length(LineSection::Disk, m.disk@, t);
    lemma_line_length(LineSection::Cpu, m.cpu@, t);
    lemma_line_length(LineSection::Network, m.network@, t);
    lemma_lines_length(LineSection::Processes, m.processes.deep_view(), t);
    lemma_lines_length(LineSection::Components, m.components.deep_view(), t);
    lemma_lines_length(LineSection::Processes, optional_lines(m.exporter_process), t);
    match m.exporter_process {
        Some(b) => {
            let one = optional_lines(m.exporter_process);
            assert(one.drop_last() =~= Seq::<Seq<u8>>::empty());
            assert(one.last() == b@);
            assert(lines_length(LineSection::Processes, one.drop_last(), t) == 0);
        },
        None => {},
    }
    lemma_summary_then_lists(m);
}

proof fn lemma_summary_then_lists(m: ToLineProtocolOptions)
    ensures
        ({
            let t = m.time;
            let pre = timestamped_line(LineSection::System, m.system@, t)
                + timestamped_line(LineSection::Memory, m.memory@, t)
                + timestamped_line(LineSection::Disk, m.disk@, t)
                + timestamped_line(LineSection::Cpu, m.cpu@, t)
                + timestamped_line(LineSection::Network, m.network@, t);
            &&& pre.len() == summary_length(m)
            &&& line_protocol_batch(m) == pre
                + timestamped_lines(LineSection::Processes, m.processes.deep_view(), t)
                + timestamped_lines(LineSection::Components, m.components.deep_view(), t)
                + timestamped_lines(LineSection::Processes, optional_lines(m.exporter_process), t)
        }),
{
    let t = m.time;
    lemma_line_length(LineSection::System, m.system@, t);
    lemma_line_length(LineSection::Memory, m.memory@, t);
    lemma_line_length(LineSection::Disk, m.disk@, t);
    lemma_line_length(LineSection::Cpu, m.cpu@, t);
    lemma_line_length(LineSection::Network, m.network@, t);
}

/// Every listed process has its own line, in list order: the `i`-th process
/// line follows the summary lines and the lines of the processes before it,
/// and is the process-list measurement name, the record, a space, the
/// round's timestamp and a line feed.
pub proof fn each_process_has_its_own_line(m: ToLineProtocolOptions, i: int)
    requires
        0 <= i < m.processes@.len(),
    ensures
        ({
            let start = summary_length(m)
                + lines_length(LineSection::Processes, m.processes.deep_view().take(i), m.time);
            line_protocol_batch(m).subrange(
                start as int,
                (start + line_length(LineSection::Processes, m.processes@[i]@, m.time)) as int,
            ) == measurement_bytes(LineSection::Processes) + m.processes@[i]@ + seq![32u8]
                + decimal_text(m.time as int) + seq![10u8]
        }),
{
    let t = m.time;
    let ps = m.processes.deep_view();
    lemma_summary_then_lists(m);
    let pre = timestamped_line(LineSection::System, m.system@, t)
        + timestamped_line(LineSection::Memory, m.memory@, t)
        + timestamped_line(LineSection::Disk, m.disk@, t)
        + timestamped_line(LineSection::Cpu, m.cpu@, t)
        + timestamped_line(LineSection::Network, m.network@, t);
    let p = timestamped_lines(LineSection::Processes, ps, t);
    let rest = timestamped_lines(LineSection::Components, m.components.deep_view(), t)
        + timestamped_lines(LineSection::Processes, optional_lines(m.exporter_process), t);
    assert(ps[i] == m.processes@[i]@);
    lemma_line_in_lines(LineSection::Processes, ps, t, i);
    lemma_lines_length(LineSection::Processes, ps, t);
    let a = lines_length(LineSection::Processes, ps.take(i), t);
    let n = line_length(LineSection::Processes, ps[i], t);
    assert(line_protocol_batch(m) =~= pre + p + rest);
    assert((pre + p + rest).subrange((pre.len() + a) as int, (pre.len() + a + n) as int) =~= p.subrange(a as int, (a + n) as int));
}

/// Every sensor has its own line, in sensor order: the `i`-th sensor line
/// follows the summary lines, all process lines and the lines of the sensors
/// before it, and is the sensor measurement name, the record, a space, the
/// round's timestamp and a line feed.
pub proof fn each_sensor_has_its_own_line(m: ToLineProtocolOptions, i: int)
    requires
        0 <= i < m.components@.len(),
    ensures
        ({
            let start = summary_length(m)
                + lines_length(LineSection::Processes, m.processes.deep_view(), m.time)
                + lines_length(LineSection::Components, m.components.deep_view().take(i), m.time);
            line_protocol_batch(m).subrange(
                start as int,
                (start + line_length(LineSection::Components, m.components@[i]@, m.time)) as int,
            ) == measurement_bytes(LineSection::Components) + m.components@[i]@ + seq![32u8]
                + decimal_text(m.time as int) + seq![10u8]
        }),
{
    let t = m.time;
    let cs = m.components.deep_view();
    lemma_summary_then_lists(m);
    let pre = timestamped_line(LineSection::System, m.system@, t)
        + timestamped_line(LineSection::Memory, m.memory@, t)
        + timestamped_line(LineSection::Disk, m.disk@, t)
        + timestamped_line(LineSection::Cpu, m.cpu@, t)
        + timestamped_line(LineSection::Network, m.network@, t)
        + timestamped_lines(LineSection::Processes, m.processes.deep_view(), t);
    let c = timestamped_lines(LineSection::Components, cs, t);
    let x = timestamped_lines(LineSection::Processes, optional_lines(m.exporter_process), t);
    lemma_lines_length(LineSection::Processes, m.processes.deep_view(), t);
    assert(cs[i] == m.components@[i]@);
    lemma_line_in_lines(LineSection::Components, cs, t, i);
    lemma_lines_length(LineSection::Components, cs, t);
    let a = lines_length(LineSection::Components, cs.take(i), t);
    let n = line_length(LineSection::Components, cs[i], t);
    assert(line_protocol_batch(m) =~= pre + c + x);
    assert((pre + c + x).subrange((pre.len() + a) as int, (pre.len() + a + n) as int) =~= c.subrange(a as int, (a + n) as int));
}

}
