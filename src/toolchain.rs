//! The active rustup channel, read from the report of `rustup show`.
use vstd::prelude::*;
use vstd::string::*;
use crate::error::BridgeError;
use crate::text::{occurs_at, opt_view, strip_both, strip_leading, strip_trailing, trim_char};

verus! {

/// The line of the report that names the host platform.
pub const HOST_PATTERN: &'static str = "Default host: (.*)";

/// The section of the report that names the active toolchain.
pub const ACTIVE_PATTERN: &'static str = "\nactive toolchain\n-+\n\n([a-zA-Z0-9\\-_]*)\\s";

/// The text of the first capture group of the leftmost match of the regular
/// expression `pattern` in `text`, as the regex crate finds it.
pub uninterp spec fn first_capture(pattern: Seq<char>, text: Seq<char>) -> Option<Seq<char>>;

/// Relies on `regex::Regex::new`, `Regex::captures`, `Captures::get` and
/// `Match::as_str`: the first group of the leftmost match, or `None` where the
/// pattern does not compile, does not match, or its group took no part.
#[verifier::external_body]
fn capture_group(pattern: &str, text: &str) -> (r: Option<String>)
    ensures
        r is None ==> first_capture(pattern@, text@) is None,
        r matches Some(g) ==> first_capture(pattern@, text@) == Some(g@),
{
    let re = match regex::Regex::new(pattern) {
        Ok(re) => re,
        Err(_) => return None,
    };
    let caps = re.captures(text)?;
    let m = caps.get(1)?;
    Some(m.as_str().to_string())
}

/// Whether `active` ends with the non-empty platform name `host`.
pub open spec fn has_host_suffix(host: Seq<char>, active: Seq<char>) -> bool {
    &&& 0 < host.len() <= active.len()
    &&& active.subrange(active.len() - host.len(), active.len() as int) == host
}

/// `active` without the host platform at its end, where it ends with it.
pub open spec fn without_host(host: Seq<char>, active: Seq<char>) -> Seq<char> {
    if has_host_suffix(host, active) {
        active.subrange(0, active.len() - host.len())
    } else {
        active
    }
}

/// The channel name: the toolchain name without the host platform at its
/// end, and without the dashes left at either end.
pub open spec fn channel_of(host: Seq<char>, active: Seq<char>) -> Seq<char> {
    strip_both(without_host(host, active), '-')
}

/// The channel from the two captures, or `None` where one is missing.
pub open spec fn channel_from(host: Option<Seq<char>>, active: Option<Seq<char>>) -> Option<
    Seq<char>,
> {
    match (host, active) {
        (Some(h), Some(a)) => Some(channel_of(h, a)),
        _ => None,
    }
}

/// The channel that a `rustup show` report names, or `None` where it lacks
/// one of the two expected parts.
pub open spec fn report_channel(report: Seq<char>) -> Option<Seq<char>> {
    channel_from(first_capture(HOST_PATTERN@, report), first_capture(ACTIVE_PATTERN@, report))
}

/// Removes the host platform from a toolchain name:
/// `nightly-x86_64-unknown-linux-gnu` on host `x86_64-unknown-linux-gnu` gives `nightly`.
pub fn strip_host_suffix(active: &str, host: &str) -> (r: String)
    ensures
        r@ == channel_of(host@, active@),
{
    let n: usize = active.unicode_len();
    let m: usize = host.unicode_len();
    let head = if 0 < m && m <= n && occurs_at(active, n - m, host) {
        active.substring_char(0, n - m)
    } else {
        active
    };
    trim_char(head, '-')
}

/// The channel from what the two patterns captured; a missing capture means
/// the report did not have the expected shape.
pub fn toolchain_from_captures(host: Option<String>, active: Option<String>) -> (r: Result<
    String,
    BridgeError,
>)
    ensures
        r is Err <==> channel_from(opt_view(host), opt_view(active)) is None,
        r matches Ok(t) ==> channel_from(opt_view(host), opt_view(active)) == Some(t@),
        r matches Err(e) ==> e == BridgeError::ToolchainParseFailed,
{
    match (host, active) {
        (Some(h), Some(a)) => Ok(strip_host_suffix(a.as_str(), h.as_str())),
        _ => Err(BridgeError::ToolchainParseFailed),
    }
}

/// The channel named by the text of a `rustup show` report.
pub fn parse_toolchain_report(report: &str) -> (r: Result<String, BridgeError>)
    ensures
        r is Err <==> report_channel(report@) is None,
        r matches Ok(t) ==> report_channel(report@) == Some(t@),
        r matches Err(e) ==> e == BridgeError::ToolchainParseFailed,
{
    let host = capture_group(HOST_PATTERN, report);
    let active = capture_group(ACTIVE_PATTERN, report);
    toolchain_from_captures(host, active)
}

/// The channel to forward, from the report of `rustup show`; `None` as the
/// report means rustup could not be run, and detection is skipped.
pub fn detect_toolchain(report: Option<&str>) -> (r: Result<Option<String>, BridgeError>)
    ensures
        report is None ==> r == Ok::<Option<String>, BridgeError>(None),
        report matches Some(t) ==> {
            &&& (r is Err <==> report_channel(t@) is None)
            &&& r matches Ok(c) ==> c matches Some(c) && report_channel(t@) == Some(c@)
            &&& r matches Err(e) ==> e == BridgeError::ToolchainParseFailed
        },
{
    match report {
        None => Ok(None),
        Some(t) => match parse_toolchain_report(t) {
            Ok(c) => Ok(Some(c)),
            Err(e) => Err(e),
        },
    }
}

/// A report without the `Default host:` line names no channel: detection
/// fails rather than guess.
pub proof fn lemma_no_host_line_no_channel(report: Seq<char>)
    requires
        first_capture(HOST_PATTERN@, report) is None,
    ensures
        report_channel(report) is None,
{
}

/// A toolchain named `<channel>-<host>` gives back the channel, whatever
/// the channel and the host share.
pub proof fn lemma_channel_recovered(channel: Seq<char>, host: Seq<char>)
    requires
        host.len() > 0,
        channel.len() == 0 || (channel[0] != '-' && channel.last() != '-'),
    ensures
        channel_of(host, channel + seq!['-'] + host) == channel,
{
    let active = channel + seq!['-'] + host;
    assert(active.subrange(active.len() - host.len(), active.len() as int) =~= host);
    assert(active.subrange(0, active.len() - host.len()) =~= channel.push('-'));
    assert(channel.push('-').drop_last() =~= channel);
    assert(strip_trailing(channel.push('-'), '-') == strip_trailing(channel, '-'));
    assert(strip_trailing(channel, '-') == channel);
    assert(strip_leading(channel, '-') == channel);
}

/// A detected channel neither starts nor ends with a dash.
pub proof fn lemma_channel_has_no_outer_dash(host: Seq<char>, active: Seq<char>)
    ensures
        channel_of(host, active).len() == 0 || (channel_of(host, active)[0] != '-'
            && channel_of(host, active).last() != '-'),
{
    let s = without_host(host, active);
    lemma_no_trailing(s, '-');
    lemma_strip_leading_keeps_end(strip_trailing(s, '-'), '-');
}

proof fn lemma_no_trailing(s: Seq<char>, c: char)
    ensures
        strip_trailing(s, c).len() == 0 || strip_trailing(s, c).last() != c,
    decreases s.len(),
{
    if s.len() > 0 && s.last() == c {
        lemma_no_trailing(s.drop_last(), c);
    }
}

/// Stripping at the start keeps a suffix, and leaves no `c` in front.
proof fn lemma_strip_leading_keeps_end(s: Seq<char>, c: char)
    ensures
        strip_leading(s, c).len() <= s.len(),
        strip_leading(s, c) == s.subrange(s.len() - strip_leading(s, c).len(), s.len() as int),
        strip_leading(s, c).len() == 0 || strip_leading(s, c)[0] != c,
    decreases s.len(),
{
    if s.len() > 0 && s[0] == c {
        lemma_strip_leading_keeps_end(s.drop_first(), c);
        let r = strip_leading(s.drop_first(), c);
        assert(s.drop_first().subrange(s.len() - 1 - r.len(), s.len() - 1) =~= s.subrange(
            s.len() - r.len(),
            s.len() as int,
        ));
    } else {
        assert(s.subrange(0, s.len() as int) =~= s);
    }
}

} // verus!
