//! Platform names, free-space parsing, and the prerequisite checks' rules.

use vstd::prelude::*;
use vstd::string::StringExecFns;

use crate::text::{chars_of, parse_u64, parse_u64_spec, str_eq, trim, trim_chars};
use crate::version::{split_chars, split_on, split_words, words};

verus! {

/// Free space below which the disk check fails: 500 MiB.
pub const MIN_DISK_BYTES: u64 = 524_288_000;

/// Detected system information.
pub struct PlatformInfo {
    pub os: String,
    pub arch: String,
    pub os_version: String,
}

/// The outcome of one prerequisite check.
pub struct PrereqCheck {
    pub name: String,
    pub passed: bool,
    pub detail: String,
}

/// The operating system's name as reported; the names this library knows
/// (`macos`, `windows`, `linux`) are already in their reported form.
pub fn normalize_os(value: &str) -> (r: String)
    ensures
        r@ == value@,
{
    String::from_str(value)
}

pub open spec fn arch_name(a: Seq<char>) -> Seq<char> {
    if a == "x86_64"@ {
        "x64"@
    } else if a == "aarch64"@ {
        "arm64"@
    } else {
        a
    }
}

/// The architecture's name as the install targets use it: `x86_64` is
/// `x64`, `aarch64` is `arm64`, anything else is kept.
pub fn normalize_arch(value: &str) -> (r: String)
    ensures
        r@ == arch_name(value@),
{
    if str_eq(value, "x86_64") {
        String::from_str("x64")
    } else if str_eq(value, "aarch64") {
        String::from_str("arm64")
    } else {
        String::from_str(value)
    }
}

/// Whether `free` bytes are enough to install.
pub fn has_enough_disk(free: u64) -> (r: bool)
    ensures
        r == (free >= MIN_DISK_BYTES),
{
    free >= MIN_DISK_BYTES
}

/// The lines of `s` as `str::lines` yields them: split at `\n`, a final
/// empty piece dropped, a trailing `\r` removed from each.
pub open spec fn line_at(s: Seq<char>, k: int) -> Option<Seq<char>> {
    let p = split_on(s, '\n');
    let n = if p.len() > 0 && p.last().len() == 0 {
        p.len() - 1
    } else {
        p.len() as int
    };
    if 0 <= k < n {
        let l = p[k];
        Some(
            if l.len() > 0 && l.last() == '\r' {
                l.drop_last()
            } else {
                l
            },
        )
    } else {
        None
    }
}

/// Kilobytes available, read from `df -k` output: the fourth column of the
/// second line.
pub open spec fn df_available_kb(stdout: Seq<char>) -> Option<Option<u64>> {
    match line_at(stdout, 1) {
        Some(l) => if words(l).len() >= 4 {
            Some(parse_u64_spec(words(l)[3]))
        } else {
            None
        },
        None => None,
    }
}

/// Free bytes reported by `df -k`: the available kilobytes times 1024.
pub fn available_bytes_from_df(stdout: &str) -> (r: Result<u64, String>)
    ensures
        r matches Ok(b) ==> df_available_kb(stdout@) matches Some(Some(kb)) && b == kb * 1024,
        r is Err ==> !(df_available_kb(stdout@) matches Some(Some(kb)) && kb * 1024 <= u64::MAX),
{
    let chars = chars_of(stdout);
    let lines = split_chars(&chars, '\n');
    proof {
        crate::version::lemma_split_nonempty(chars@, '\n');
    }
    let n = if lines[lines.len() - 1].len() == 0 {
        lines.len() - 1
    } else {
        lines.len()
    };
    if n < 2 {
        return Err(String::from_str("df output did not contain data row"));
    }
    let raw = &lines[1];
    let mut line: Vec<char> = Vec::new();
    let end = if raw.len() > 0 && raw[raw.len() - 1] == '\r' {
        raw.len() - 1
    } else {
        raw.len()
    };
    let mut i: usize = 0;
    while i < end
        invariant
            end <= raw.len(),
            i <= end,
            line@ == raw@.subrange(0, i as int),
        decreases end - i,
    {
        line.push(raw[i]);
        i = i + 1;
        assert(line@ =~= raw@.subrange(0, i as int));
    }
    assert(raw@.len() > 0 && raw@.last() == '\r' ==> line@ =~= raw@.drop_last());
    assert(!(raw@.len() > 0 && raw@.last() == '\r') ==> line@ =~= raw@);
    let cols = split_words(&line);
    if cols.len() < 4 {
        return Err(String::from_str("df output row had unexpected format"));
    }
    match parse_u64(cols[3].as_slice()) {
        Some(kb) => {
            if kb > 18014398509481983 {
                return Err(String::from_str("available space does not fit in 64 bits"));
            }
            Ok(kb * 1024)
        },
        None => Err(String::from_str("failed to parse available kb")),
    }
}

/// Whether an HTTP status line reports success (a 2xx status).
pub fn status_line_is_healthy(status_line: &str) -> (r: bool)
    ensures
        r == (status_line@.len() >= 10 && (status_line@.subrange(0, 10) == "HTTP/1.1 2"@
            || status_line@.subrange(0, 10) == "HTTP/1.0 2"@)),
{
    proof {
        reveal_strlit("HTTP/1.1 2");
        reveal_strlit("HTTP/1.0 2");
    }
    crate::text::starts_with(status_line, "HTTP/1.1 2") || crate::text::starts_with(
        status_line,
        "HTTP/1.0 2",
    )
}

/// The verdict of an HTTP client that printed the response code: healthy
/// for a code in 200..300; `None` where the output is no `u16` code.
pub fn http_code_verdict(stdout: &str) -> (r: Option<bool>)
    ensures
        r matches Some(ok) ==> parse_u64_spec(trim(stdout@)) matches Some(c) && c <= 65535 && ok
            == (200 <= c && c < 300),
        r is None ==> !(parse_u64_spec(trim(stdout@)) matches Some(c) && c <= 65535),
{
    let t = trim_chars(&chars_of(stdout));
    match parse_u64(t.as_slice()) {
        Some(c) => {
            if c > 65535 {
                None
            } else {
                Some(200 <= c && c < 300)
            }
        },
        None => None,
    }
}

} // verus!
