//! Energy source reader: selects the top-level socket accounting nodes out
//! of the energy-accounting directory listing, parses their counter file
//! contents, and assembles the `RaplSample`. The directory listing and the
//! counter file contents come from the power-capping filesystem hierarchy,
//! read by the caller.

use vstd::prelude::*;
use crate::model::{AccessError, Data, RaplReading, RaplSample, Sample, SamplingError};
use crate::text::{
    all_digits, contains_seq, contains_str, count_and_find, count_char, dec_val, first_index,
    is_space, lemma_first_index, lemma_trimmed_subrange, parse_u64_in, trimmed,
};
use vstd::string::StrSliceExecFns;

verus! {

/// The socket index a directory entry stands for, if the entry is a
/// top-level socket accounting node: its name mentions the power-capping
/// control type, holds exactly one colon (a sub-domain node holds two), and
/// the segment after the colon is a decimal socket index.
pub open spec fn spec_rapl_socket(name: Seq<char>) -> Option<u32> {
    if contains_seq(name, "intel-rapl"@) && count_char(name, ':') == 1 {
        let suffix = name.subrange(first_index(name, ':') + 1, name.len() as int);
        if suffix.len() > 0 && all_digits(suffix) && dec_val(suffix) <= u32::MAX {
            Some((dec_val(suffix) as u32))
        } else {
            None
        }
    } else {
        None
    }
}

/// Decides whether one directory entry names a top-level socket accounting
/// node, and if so which socket.
pub fn rapl_socket_of_entry(name: &str) -> (r: Option<u32>)
    ensures
        r == spec_rapl_socket(name@),
{
    if !contains_str(name, "intel-rapl") {
        return None;
    }
    let (cnt, first): (usize, usize) = count_and_find(name, ':');
    if cnt != 1 {
        return None;
    }
    proof {
        lemma_first_index(name@, ':');
    }
    let n: usize = name.unicode_len();
    match parse_u64_in(name, first + 1, n) {
        Some(v) => {
            if v <= 0xFFFF_FFFF {
                Some(v as u32)
            } else {
                None
            }
        },
        None => None,
    }
}

/// The sockets selected from a directory listing, in listing order.
pub open spec fn spec_selected_sockets(entries: Seq<Seq<char>>) -> Seq<u32>
    decreases entries.len(),
{
    if entries.len() == 0 {
        Seq::empty()
    } else {
        let rest = spec_selected_sockets(entries.drop_last());
        match spec_rapl_socket(entries.last()) {
            Some(s) => rest.push(s),
            None => rest,
        }
    }
}

/// Selects, in order, the socket index of every entry of the listing that
/// names a top-level socket accounting node.
pub fn select_rapl_sockets(entries: &Vec<String>) -> (r: Vec<u32>)
    ensures
        r@ == spec_selected_sockets(entries@.map_values(|e: String| e@)),
{
    let ghost views = entries@.map_values(|e: String| e@);
    let mut r: Vec<u32> = Vec::new();
    let mut i: usize = 0;
    assert(views.subrange(0, 0) =~= Seq::<Seq<char>>::empty());
    while i < entries.len()
        invariant
            i <= entries@.len(),
            views == entries@.map_values(|e: String| e@),
            r@ == spec_selected_sockets(views.subrange(0, i as int)),
        decreases entries@.len() - i,
    {
        proof {
            assert(views.subrange(0, i + 1 as int).drop_last() =~= views.subrange(0, i as int));
            assert(views.subrange(0, i + 1 as int).last() == entries@[i as int]@);
        }
        match rapl_socket_of_entry(entries[i].as_str()) {
            Some(s) => r.push(s),
            None => (),
        }
        i = i + 1;
    }
    assert(views.subrange(0, views.len() as int) =~= views);
    r
}

/// Selects the sockets to read, or classifies why the energy-accounting
/// directory could not be listed: a permission or not-found failure on the
/// root hierarchy means the platform has no readable energy counters for
/// this run (not retryable); anything else is presumed transient.
pub fn read_rapl(listing: Result<Vec<String>, AccessError>) -> (r: Result<Vec<u32>, SamplingError>)
    ensures
        match listing {
            Ok(entries) => r matches Ok(socks) && socks@ == spec_selected_sockets(
                entries@.map_values(|e: String| e@),
            ),
            Err(AccessError::PermissionDenied) | Err(AccessError::NotFound) => r matches Err(e)
                && e matches SamplingError::NotRetryable(m) && m@
                == "/sys/class/powercap could not be read"@,
            Err(AccessError::Other) => r matches Err(e) && e matches SamplingError::Retryable(m)
                && m@ == "unable to read rapl"@,
        },
{
    match listing {
        Ok(entries) => Ok(select_rapl_sockets(&entries)),
        Err(AccessError::PermissionDenied) | Err(AccessError::NotFound) => Err(
            SamplingError::NotRetryable("/sys/class/powercap could not be read".to_owned()),
        ),
        Err(AccessError::Other) => Err(SamplingError::Retryable("unable to read rapl".to_owned())),
    }
}

/// A counter file's content read as a microjoule value: the content, with
/// surrounding whitespace trimmed, must be a decimal numeral that fits.
pub open spec fn spec_parse_energy(s: Seq<char>) -> Option<u64> {
    let t = trimmed(s);
    if t.len() > 0 && all_digits(t) && dec_val(t) <= u64::MAX {
        Some((dec_val(t) as u64))
    } else {
        None
    }
}

/// Parses the content of one energy counter file. The original counter
/// source appends a newline, so surrounding ASCII whitespace is trimmed
/// before parsing.
pub fn parse_rapl_energy(text: &str) -> (r: Option<u64>)
    ensures
        r == spec_parse_energy(text@),
{
    let n: usize = text.unicode_len();
    let mut lo: usize = 0;
    while lo < n && is_space_exec(text.get_char(lo))
        invariant
            n == text@.len(),
            lo <= n,
            forall|i: int| 0 <= i < lo ==> is_space(text@[i]),
        decreases n - lo,
    {
        lo = lo + 1;
    }
    let mut hi: usize = n;
    while hi > lo && is_space_exec(text.get_char(hi - 1))
        invariant
            n == text@.len(),
            lo <= hi <= n,
            forall|i: int| 0 <= i < lo ==> is_space(text@[i]),
            forall|i: int| hi <= i < n ==> is_space(text@[i]),
            lo < n ==> !is_space(text@[lo as int]),
        decreases hi,
    {
        hi = hi - 1;
    }
    proof {
        lemma_trimmed_subrange(text@, lo as int, hi as int);
    }
    parse_u64_in(text, lo, hi)
}

/// Whether `c` is ASCII whitespace.
fn is_space_exec(c: char) -> (r: bool)
    ensures
        r == is_space(c),
{
    c == ' ' || c == '\t' || c == '\n' || c == '\r'
}

/// The view of an optional counter file's content.
pub open spec fn view_opt(text: Option<&str>) -> Option<Seq<char>> {
    match text {
        Some(t) => Some(t@),
        None => None,
    }
}

/// What one counter file contributes to a reading's field: an absent file
/// means the sub-domain does not exist, so the field is absent — never
/// zero; a present file must parse, and the outer `None` marks the content
/// that does not: a hard failure, not a skip.
pub open spec fn spec_counter_field(text: Option<Seq<char>>) -> Option<Option<u64>> {
    match text {
        Some(t) => match spec_parse_energy(t) {
            Some(v) => Some(Some(v)),
            None => None,
        },
        None => Some(None),
    }
}

/// Resolves one socket's accounting node into a reading from the contents
/// of its package and DRAM counter files (`None` where the file does not
/// exist). A missing sub-domain — no DRAM rail, say — leaves that field
/// absent and keeps the reading. A counter file that is present but does
/// not parse is a hard failure for the whole reader invocation, propagated
/// rather than skipped; it is classified retryable, since the accounting
/// hierarchy itself is still readable and the content may be torn only
/// transiently.
pub fn read_socket(socket: u32, package: Option<&str>, dram: Option<&str>) -> (r: Result<
    RaplReading,
    SamplingError,
>)
    ensures
        match (spec_counter_field(view_opt(package)), spec_counter_field(view_opt(dram))) {
            (Some(pv), Some(dv)) => r == Ok::<RaplReading, SamplingError>(
                RaplReading { socket, package: pv, dram: dv },
            ),
            _ => r matches Err(e) && (e matches SamplingError::Retryable(m) && m@
                == "energy counter could not be parsed"@),
        },
{
    let pv: Option<u64> = match package {
        Some(t) => match parse_rapl_energy(t) {
            Some(v) => Some(v),
            None => {
                return Err(
                    SamplingError::Retryable("energy counter could not be parsed".to_owned()),
                );
            },
        },
        None => None,
    };
    let dv: Option<u64> = match dram {
        Some(t) => match parse_rapl_energy(t) {
            Some(v) => Some(v),
            None => {
                return Err(
                    SamplingError::Retryable("energy counter could not be parsed".to_owned()),
                );
            },
        },
        None => None,
    };
    Ok(RaplReading { socket, package: pv, dram: dv })
}

/// Assembles the energy snapshot from the readings that resolved, or passes
/// the classification of a listing failure through untouched.
pub fn sample_rapl(timestamp: u64, readings: Result<Vec<RaplReading>, SamplingError>) -> (r: Result<
    Sample,
    SamplingError,
>)
    ensures
        match readings {
            Ok(rs) => r matches Ok(s) && s.data matches Some(d) && d matches Data::Rapl(es)
                && es.timestamp == timestamp && es.reading == rs,
            Err(e) => r == Err::<Sample, SamplingError>(e),
        },
{
    match readings {
        Ok(rs) => Ok(Sample { data: Some(Data::Rapl(RaplSample { timestamp, reading: rs })) }),
        Err(e) => Err(e),
    }
}

} // verus!
