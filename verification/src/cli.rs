use vstd::prelude::*;
use vstd::string::StringExecFns;
use vstd::string::StringSliceAdditionalSpecFns;
use crate::dma::process::{available_connectors, scan_inventory};
use crate::structs::connector::Connector;
use crate::structs::loglevel::Loglevel;

verus! {

/// The command line of the radar.
pub struct Cli {
    /// The connector type for DMA.
    pub connector: Connector,
    /// The name of the PCILeech device.
    pub pcileech_device: String,
    /// The port the web server runs on.
    pub port: u16,
    /// The directory the web server serves.
    pub web_path: String,
    /// How many times a second the DMA thread polls.
    pub poll_rate: u16,
    /// How much is logged to the console.
    pub loglevel: Loglevel,
}

/// The lowest port the web server may run on.
pub const PORT_MIN: usize = 8000;

/// The highest port the web server may run on.
pub const PORT_MAX: usize = 65535;

/// The lowest poll rate.
pub const POLL_MIN: usize = 1;

/// The highest poll rate.
pub const POLL_MAX: usize = 1000;

/// `b` is an ASCII decimal digit.
pub open spec fn is_digit(b: u8) -> bool {
    48 <= b <= 57
}

/// The number that the decimal digits `d` write.
pub open spec fn digits_value(d: Seq<u8>) -> nat
    decreases d.len(),
{
    if d.len() == 0 {
        0
    } else {
        digits_value(d.drop_last()) * 10 + (d.last() - 48) as nat
    }
}

/// The text of a number without its optional leading `+`.
pub open spec fn unsigned_digits(s: Seq<u8>) -> Seq<u8> {
    if s.len() > 0 && s[0] == 43 {
        s.drop_first()
    } else {
        s
    }
}

/// The `usize` that the text `s` reads as, as `str::parse::<usize>` reads it: an optional
/// `+`, then one or more decimal digits, of a value that fits; `None` for anything else.
pub open spec fn parsed_usize(s: Seq<u8>) -> Option<nat> {
    let d = unsigned_digits(s);
    if d.len() > 0 && (forall|i: int| 0 <= i < d.len() ==> is_digit(#[trigger] d[i])) && digits_value(d) <= usize::MAX {
        Some(digits_value(d))
    } else {
        None
    }
}

/// More digits never make a smaller number.
proof fn lemma_digits_prefix(d: Seq<u8>, i: int)
    requires
        0 <= i <= d.len(),
        forall|j: int| 0 <= j < d.len() ==> is_digit(#[trigger] d[j]),
    ensures
        digits_value(d.subrange(0, i)) <= digits_value(d),
    decreases d.len() - i,
{
    if i < d.len() {
        lemma_digits_prefix(d, i + 1);
        let p = d.subrange(0, i + 1);
        assert(p.drop_last() =~= d.subrange(0, i));
    } else {
        assert(d.subrange(0, i) =~= d);
    }
}

/// Reads `s` as a decimal `usize`, as `str::parse::<usize>` does.
pub fn parse_usize(s: &str) -> (r: Option<usize>)
    ensures
        match r {
            Some(v) => parsed_usize(s.spec_bytes()) == Some(v as nat),
            None => parsed_usize(s.spec_bytes()) is None,
        },
{
    let bytes = s.as_bytes();
    let ghost b = s.spec_bytes();
    let ghost d = unsigned_digits(b);
    let mut i: usize = 0;
    if bytes.len() > 0 && bytes[0] == 43u8 {
        i = 1;
    }
    proof {
        assert(d =~= b.subrange(i as int, b.len() as int));
    }
    let start = i;
    if start == bytes.len() {
        return None;
    }
    let mut value: usize = 0;
    while i < bytes.len()
        invariant
            start <= i <= bytes@.len(),
            bytes@ == b,
            b == s.spec_bytes(),
            d == unsigned_digits(b),
            d == b.subrange(start as int, b.len() as int),
            forall|j: int| start <= j < i ==> is_digit(#[trigger] b[j]),
            value as nat == digits_value(b.subrange(start as int, i as int)),
        decreases bytes@.len() - i,
    {
        let c = bytes[i];
        if c < 48u8 || c > 57u8 {
            proof {
                assert(d[i - start] == b[i as int]);
                assert(!is_digit(d[i - start]));
                assert(!(forall|j: int| 0 <= j < d.len() ==> is_digit(#[trigger] d[j])));
                assert(parsed_usize(b) is None);
            }
            return None;
        }
        proof {
            let p = b.subrange(start as int, i + 1);
            assert(p.drop_last() =~= b.subrange(start as int, i as int));
        }
        let digit = (c - 48u8) as usize;
        let next = match value.checked_mul(10) {
            Some(m) => m.checked_add(digit),
            None => None,
        };
        match next {
            Some(n) => {
                value = n;
            },
            None => {
                proof {
                    if forall|j: int| 0 <= j < d.len() ==> is_digit(#[trigger] d[j]) {
                        lemma_digits_prefix(d, i + 1 - start);
                        assert(d.subrange(0, i + 1 - start) =~= b.subrange(start as int, i + 1));
                        assert(value * 10 + digit > usize::MAX);
                        assert(digits_value(b.subrange(start as int, i + 1)) == value * 10 + digit);
                    }
                    assert(parsed_usize(b) is None);
                }
                return None;
            },
        }
        i += 1;
    }
    proof {
        assert(b.subrange(start as int, i as int) =~= d);
        assert forall|j: int| 0 <= j < d.len() implies is_digit(#[trigger] d[j]) by {
            assert(d[j] == b[start + j]);
        }
    }
    Some(value)
}

/// The message for text that is no port number: `` `s` isn't a port number``.
pub open spec fn not_a_port_message(s: Seq<char>) -> Seq<char> {
    "`"@ + s + "` isn't a port number"@
}

/// The message for a number out of the port range.
pub open spec fn port_range_message() -> Seq<char> {
    "port not in range 8000-65535"@
}

/// The message for text that is no poll rate: `` `s` isn't a valid number``.
pub open spec fn not_a_number_message(s: Seq<char>) -> Seq<char> {
    "`"@ + s + "` isn't a valid number"@
}

/// The message for a number out of the poll range.
pub open spec fn poll_range_message() -> Seq<char> {
    "not in range 1-1000"@
}

/// `` `s` `` followed by `tail`.
fn quoted_then(s: &str, tail: &str) -> (r: String)
    ensures
        r@ == "`"@ + s@ + tail@,
{
    let mut m = String::from_str("`");
    m.append(s);
    m.append(tail);
    m
}

/// Reads a port for the web server: a decimal number from 8000 to 65535.
pub fn port_in_range(s: &str) -> (r: Result<u16, String>)
    ensures
        match parsed_usize(s.spec_bytes()) {
            None => r is Err && r->Err_0@ == not_a_port_message(s@),
            Some(n) => if PORT_MIN <= n <= PORT_MAX {
                r == Ok::<u16, String>(n as u16)
            } else {
                r is Err && r->Err_0@ == port_range_message()
            },
        },
{
    let port = match parse_usize(s) {
        Some(p) => p,
        None => {
            let tail = "` isn't a port number";
            let m = quoted_then(s, tail);
            return Err(m);
        },
    };
    if PORT_MIN <= port && port <= PORT_MAX {
        Ok(port as u16)
    } else {
        Err("port not in range 8000-65535".to_owned())
    }
}

/// Reads a poll rate: a decimal number from 1 to 1000.
pub fn poll_in_range(s: &str) -> (r: Result<u16, String>)
    ensures
        match parsed_usize(s.spec_bytes()) {
            None => r is Err && r->Err_0@ == not_a_number_message(s@),
            Some(n) => if POLL_MIN <= n <= POLL_MAX {
                r == Ok::<u16, String>(n as u16)
            } else {
                r is Err && r->Err_0@ == poll_range_message()
            },
        },
{
    let rate = match parse_usize(s) {
        Some(p) => p,
        None => {
            let tail = "` isn't a valid number";
            let m = quoted_then(s, tail);
            return Err(m);
        },
    };
    if POLL_MIN <= rate && rate <= POLL_MAX {
        Ok(rate as u16)
    } else {
        Err("not in range 1-1000".to_owned())
    }
}

/// Accepts `s` as the directory to serve, given whether the path exists and whether it is
/// a directory: a path that does not exist, or is no directory, is refused with its reason.
pub fn valid_path(s: &str, exists: bool, is_dir: bool) -> (r: Result<String, String>)
    ensures
        !exists ==> r is Err && r->Err_0@ == "Path does not exist"@,
        exists && !is_dir ==> r is Err && r->Err_0@ == "Path is not a directory"@,
        exists && is_dir ==> r is Ok && r->Ok_0@ == s@,
{
    if !exists {
        return Err("Path does not exist".to_owned());
    }
    if !is_dir {
        return Err("Path is not a directory".to_owned());
    }
    Ok(s.to_owned())
}


/// A leading `+` changes nothing: the text reads as the same number with it as without it
/// (where the rest does not start with another `+`).
pub proof fn plus_sign_is_ignored(d: Seq<u8>)
    requires
        d.len() == 0 || d[0] != 43,
    ensures
        parsed_usize(seq![43u8] + d) == parsed_usize(d),
{
    assert((seq![43u8] + d).drop_first() =~= d);
}


/// The parts joined in order, with `sep` between each two.
pub open spec fn joined(parts: Seq<Seq<char>>, sep: Seq<char>) -> Seq<char>
    decreases parts.len(),
{
    if parts.len() == 0 {
        Seq::empty()
    } else if parts.len() == 1 {
        parts[0]
    } else {
        joined(parts.drop_last(), sep) + sep + parts.last()
    }
}

/// The text an optional value stands for: itself, or `unknown`.
pub open spec fn or_unknown(v: Option<Seq<char>>) -> Seq<char> {
    match v {
        Some(s) => s,
        None => "unknown"@,
    }
}

/// The version text: `` {pkg_ver} (rev {git_hash})``, then `Commit Date: {date}` and
/// `Available Connectors: {names}` on lines of their own, unknown parts as `unknown` and the
/// connectors' names joined by `, `.
pub open spec fn version_spec(pkg_ver: Seq<char>, git_hash: Option<Seq<char>>, commit_date: Option<Seq<char>>, connectors: Seq<Seq<char>>) -> Seq<char> {
    " "@ + pkg_ver + " (rev "@ + or_unknown(git_hash) + ")\nCommit Date: "@ + or_unknown(commit_date) + "\nAvailable Connectors: "@
        + joined(connectors, ", "@)
}

/// The views of a list of strings.
pub open spec fn string_views(v: Seq<String>) -> Seq<Seq<char>> {
    Seq::new(v.len(), |i: int| v[i]@)
}

/// The view of an optional string slice.
pub open spec fn opt_view(v: Option<&str>) -> Option<Seq<char>> {
    match v {
        Some(s) => Some(s@),
        None => None,
    }
}

/// The names joined in order by `, `.
fn join_names(names: &Vec<String>) -> (r: String)
    ensures
        r@ == joined(string_views(names@), ", "@),
{
    let mut out = String::new();
    let mut i: usize = 0;
    while i < names.len()
        invariant
            i <= names@.len(),
            out@ == joined(string_views(names@.subrange(0, i as int)), ", "@),
        decreases names@.len() - i,
    {
        proof {
            let next = string_views(names@.subrange(0, i + 1));
            assert(next.drop_last() =~= string_views(names@.subrange(0, i as int)));
            assert(next.last() == names@[i as int]@);
        }
        if i > 0 {
            out.append(", ");
        }
        out.append(names[i].as_str());
        i += 1;
    }
    proof {
        assert(names@.subrange(0, i as int) =~= names@);
    }
    out
}

/// The version text for the given package version, revision, commit date and connector
/// names (see [`version_spec`]).
pub fn version_text(pkg_ver: &str, git_hash: Option<&str>, commit_date: Option<&str>, connectors: &Vec<String>) -> (r: String)
    ensures
        r@ == version_spec(pkg_ver@, opt_view(git_hash), opt_view(commit_date), string_views(connectors@)),
{
    let hash = match git_hash {
        Some(h) => h,
        None => "unknown",
    };
    let date = match commit_date {
        Some(d) => d,
        None => "unknown",
    };
    let names = join_names(connectors);
    let mut out = String::from_str(" ");
    out.append(pkg_ver);
    out.append(" (rev ");
    out.append(hash);
    out.append(")\nCommit Date: ");
    out.append(date);
    out.append("\nAvailable Connectors: ");
    out.append(names.as_str());
    out
}

/// The version shown on the command line: the given package version, revision and commit
/// date, and the connectors that memflow's plugin inventory finds on this machine.
pub fn version(pkg_ver: &str, git_hash: Option<&str>, commit_date: Option<&str>) -> (r: String)
    ensures
        exists|names: Seq<Seq<char>>| r@ == version_spec(pkg_ver@, opt_view(git_hash), opt_view(commit_date), names),
{
    let inventory = scan_inventory();
    let connectors = available_connectors(&inventory);
    version_text(pkg_ver, git_hash, commit_date, &connectors)
}

} // verus!
