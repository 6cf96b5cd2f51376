//! Version strings: dotted tuples, their order, stability, and version tokens
//! found in a program's output.

use vstd::prelude::*;

use crate::text::{
    chars_of, contains_char, is_digit, is_whitespace, is_ws, normalize_version, normalized_version,
    parse_u64, parse_u64_spec, string_of, strip_leading, strip_leading_chars, trim, trim_by, trim_chars, trim_chars_by, CharClass,
};

verus! {

/// Lowest major version of the runtime that is accepted.
pub const MIN_NODE_MAJOR: u64 = 22;

/// The pieces of `s` between occurrences of `sep`, as `str::split` yields them.
pub open spec fn split_on(s: Seq<char>, sep: char) -> Seq<Seq<char>>
    decreases s.len(),
{
    if s.len() == 0 {
        seq![Seq::<char>::empty()]
    } else {
        let r = split_on(s.drop_last(), sep);
        if s.last() == sep {
            r.push(Seq::<char>::empty())
        } else {
            r.update(r.len() - 1, r.last().push(s.last()))
        }
    }
}

pub proof fn lemma_split_nonempty(s: Seq<char>, sep: char)
    ensures
        split_on(s, sep).len() >= 1,
    decreases s.len(),
{
    if s.len() > 0 {
        lemma_split_nonempty(s.drop_last(), sep);
    }
}

/// Splits `s` at every `sep`.
pub fn split_chars(s: &Vec<char>, sep: char) -> (r: Vec<Vec<char>>)
    ensures
        r.len() == split_on(s@, sep).len(),
        forall|j: int| 0 <= j < r.len() ==> #[trigger] r[j]@ == split_on(s@, sep)[j],
{
    let mut pieces: Vec<Vec<char>> = Vec::new();
    let mut cur: Vec<char> = Vec::new();
    let mut i: usize = 0;
    while i < s.len()
        invariant
            i <= s.len(),
            pieces.len() + 1 == split_on(s@.subrange(0, i as int), sep).len(),
            forall|j: int|
                0 <= j < pieces.len() ==> #[trigger] pieces[j]@ == split_on(
                    s@.subrange(0, i as int),
                    sep,
                )[j],
            cur@ == split_on(s@.subrange(0, i as int), sep).last(),
        decreases s.len() - i,
    {
        let ghost pre = s@.subrange(0, i as int);
        let ghost next = s@.subrange(0, i + 1);
        assert(next.drop_last() =~= pre);
        proof {
            lemma_split_nonempty(pre, sep);
        }
        if s[i] == sep {
            pieces.push(cur);
            cur = Vec::new();
        } else {
            cur.push(s[i]);
        }
        i = i + 1;
        assert(cur@ == split_on(next, sep).last());
    }
    assert(s@.subrange(0, s.len() as int) =~= s@);
    pieces.push(cur);
    pieces
}

/// The `k`-th dot-separated piece of `s` read as a `u64`, if there is one.
pub open spec fn piece_value(s: Seq<char>, k: int) -> Option<u64> {
    let p = split_on(s, '.');
    if 0 <= k < p.len() {
        parse_u64_spec(p[k])
    } else {
        None
    }
}

/// Whether a runtime reporting `version` is recent enough: its major
/// component, after normalisation, is at least `MIN_NODE_MAJOR`.
pub open spec fn runtime_acceptable(version: Seq<char>) -> bool {
    match piece_value(normalized_version(version), 0) {
        Some(major) => major >= MIN_NODE_MAJOR,
        None => false,
    }
}

/// A stable release: no pre-release suffix, a major component of at least
/// `MIN_NODE_MAJOR`, and numeric minor and patch components.
pub open spec fn stable_version(v: Seq<char>) -> bool {
    &&& !v.contains('-')
    &&& piece_value(v, 0) is Some
    &&& piece_value(v, 0)->0 >= MIN_NODE_MAJOR
    &&& piece_value(v, 1) is Some
    &&& piece_value(v, 2) is Some
}

pub fn is_node_runtime_acceptable(version: &str) -> (r: bool)
    ensures
        r == runtime_acceptable(version@),
{
    let normalized = normalize_version(version);
    let chars = chars_of(normalized.as_str());
    let pieces = split_chars(&chars, '.');
    proof {
        lemma_split_nonempty(chars@, '.');
    }
    match parse_u64(pieces[0].as_slice()) {
        Some(major) => major >= MIN_NODE_MAJOR,
        None => false,
    }
}

pub fn is_stable_node_version(version: &str) -> (r: bool)
    ensures
        r == stable_version(version@),
{
    let chars = chars_of(version);
    if contains_char(&chars, '-') {
        return false;
    }
    let pieces = split_chars(&chars, '.');
    proof {
        lemma_split_nonempty(chars@, '.');
    }
    let major = parse_u64(pieces[0].as_slice());
    let minor = if pieces.len() > 1 {
        parse_u64(pieces[1].as_slice())
    } else {
        None
    };
    let patch = if pieces.len() > 2 {
        parse_u64(pieces[2].as_slice())
    } else {
        None
    };
    let major_ok = match major {
        Some(m) => m >= MIN_NODE_MAJOR,
        None => false,
    };
    major_ok && minor.is_some() && patch.is_some()
}

/// Length of the run of ASCII digits that starts `s`.
pub open spec fn digit_run(s: Seq<char>) -> nat
    decreases s.len(),
{
    if s.len() > 0 && is_digit(s[0]) {
        1 + digit_run(s.drop_first())
    } else {
        0
    }
}

/// The number that a dot-separated segment contributes to a version tuple:
/// its leading digits, if there are any and they fit in a `u64`.
pub open spec fn segment_value(seg: Seq<char>) -> Option<u64> {
    let n = digit_run(seg);
    if n == 0 || n > seg.len() {
        None
    } else {
        parse_u64_spec(seg.subrange(0, n as int))
    }
}

pub open spec fn values_of(pieces: Seq<Seq<char>>) -> Seq<u64>
    decreases pieces.len(),
{
    if pieces.len() == 0 {
        Seq::<u64>::empty()
    } else {
        let r = values_of(pieces.drop_last());
        match segment_value(pieces.last()) {
            Some(v) => r.push(v),
            None => r,
        }
    }
}

/// The version tuple of `s`: trimmed, split at dots, each segment read by
/// its leading digits, segments without a number left out.
pub open spec fn version_parts(s: Seq<char>) -> Seq<u64> {
    values_of(split_on(trim(s), '.'))
}

fn leading_digit_count(s: &Vec<char>) -> (n: usize)
    ensures
        n == digit_run(s@),
        n <= s.len(),
{
    let mut i: usize = 0;
    assert(s@.subrange(0, s.len() as int) =~= s@);
    while i < s.len() && '0' <= s[i] && s[i] <= '9'
        invariant
            i <= s.len(),
            digit_run(s@) == i + digit_run(s@.subrange(i as int, s.len() as int)),
        decreases s.len() - i,
    {
        let ghost cur = s@.subrange(i as int, s.len() as int);
        assert(cur.drop_first() =~= s@.subrange(i + 1, s.len() as int));
        i = i + 1;
    }
    i
}

fn segment_number(seg: &Vec<char>) -> (r: Option<u64>)
    ensures
        r == segment_value(seg@),
{
    let n = leading_digit_count(seg);
    if n == 0 {
        None
    } else {
        let (head, _) = seg.as_slice().split_at(n);
        assert(head@ =~= seg@.subrange(0, n as int));
        parse_u64(head)
    }
}

/// The version tuple of `value` (`"1.2.3"` gives `[1, 2, 3]`).
pub fn parse_version_parts(value: &str) -> (r: Vec<u64>)
    ensures
        r@ == version_parts(value@),
{
    let chars = chars_of(value);
    let t = trim_chars(&chars);
    let pieces = split_chars(&t, '.');
    let ghost ps = split_on(t@, '.');
    let mut out: Vec<u64> = Vec::new();
    let mut i: usize = 0;
    while i < pieces.len()
        invariant
            i <= pieces.len(),
            pieces.len() == ps.len(),
            forall|j: int| 0 <= j < pieces.len() ==> #[trigger] pieces[j]@ == ps[j],
            out@ == values_of(ps.subrange(0, i as int)),
        decreases pieces.len() - i,
    {
        let ghost next = ps.subrange(0, i + 1);
        assert(next.drop_last() =~= ps.subrange(0, i as int));
        assert(next.last() == pieces[i as int]@);
        match segment_number(&pieces[i]) {
            Some(v) => out.push(v),
            None => {},
        }
        i = i + 1;
    }
    assert(ps.subrange(0, ps.len() as int) =~= ps);
    out
}

/// Component `i` of a tuple, a missing trailing component counting as 0.
pub open spec fn part_at(p: Seq<u64>, i: int) -> u64 {
    if 0 <= i < p.len() {
        p[i]
    } else {
        0
    }
}

pub open spec fn longest(a: Seq<u64>, b: Seq<u64>) -> int {
    if a.len() > b.len() {
        a.len() as int
    } else {
        b.len() as int
    }
}

/// Whether `b` is ahead of `a`, deciding at the first component from `i` on
/// where they differ.
pub open spec fn ahead_from(a: Seq<u64>, b: Seq<u64>, i: int) -> bool
    decreases longest(a, b) - i,
{
    if i < 0 || i >= longest(a, b) {
        false
    } else if part_at(b, i) > part_at(a, i) {
        true
    } else if part_at(b, i) < part_at(a, i) {
        false
    } else {
        ahead_from(a, b, i + 1)
    }
}

/// Whether version `latest` is newer than version `installed`.
pub open spec fn version_newer(installed: Seq<char>, latest: Seq<char>) -> bool {
    ahead_from(version_parts(installed), version_parts(latest), 0)
}

/// Lexicographic order on tuples padded with zeros: some component of `b`
/// exceeds that of `a`, and all before it are equal.
pub open spec fn lex_before(a: Seq<u64>, b: Seq<u64>) -> bool {
    exists|k: int|
        0 <= k < longest(a, b) && part_at(b, k) > part_at(a, k) && (forall|j: int|
            0 <= j < k ==> #[trigger] part_at(a, j) == part_at(b, j))
}

/// Whether `latest` is a newer version than `installed`, comparing their
/// tuples component by component, missing components counting as 0.
pub fn version_is_newer(installed: &str, latest: &str) -> (r: bool)
    ensures
        r == version_newer(installed@, latest@),
{
    let a = parse_version_parts(installed);
    let b = parse_version_parts(latest);
    let n = if a.len() > b.len() {
        a.len()
    } else {
        b.len()
    };
    let mut idx: usize = 0;
    while idx < n
        invariant
            n == longest(a@, b@),
            a@ == version_parts(installed@),
            b@ == version_parts(latest@),
            idx <= n,
            ahead_from(a@, b@, 0) == ahead_from(a@, b@, idx as int),
        decreases n - idx,
    {
        let current = if idx < a.len() {
            a[idx]
        } else {
            0
        };
        let incoming = if idx < b.len() {
            b[idx]
        } else {
            0
        };
        assert(current == part_at(a@, idx as int));
        assert(incoming == part_at(b@, idx as int));
        if incoming > current {
            assert(ahead_from(a@, b@, idx as int));
            return true;
        }
        if incoming < current {
            assert(!ahead_from(a@, b@, idx as int));
            return false;
        }
        idx = idx + 1;
    }
    false
}

proof fn lemma_ahead_from_lex(a: Seq<u64>, b: Seq<u64>, i: int)
    requires
        0 <= i,
    ensures
        ahead_from(a, b, i) <==> exists|k: int|
            i <= k < longest(a, b) && part_at(b, k) > part_at(a, k) && (forall|j: int|
                i <= j < k ==> #[trigger] part_at(a, j) == part_at(b, j)),
    decreases longest(a, b) - i,
{
    if i >= longest(a, b) {
    } else if part_at(b, i) > part_at(a, i) {
        assert(forall|j: int| i <= j < i ==> #[trigger] part_at(a, j) == part_at(b, j));
    } else if part_at(b, i) < part_at(a, i) {
        assert forall|k: int|
            i <= k < longest(a, b) && part_at(b, k) > part_at(a, k) implies !(forall|j: int|
                i <= j < k ==> #[trigger] part_at(a, j) == part_at(b, j)) by {
            if k > i {
                assert(part_at(a, i) != part_at(b, i));
            }
        }
    } else {
        lemma_ahead_from_lex(a, b, i + 1);
        if ahead_from(a, b, i + 1) {
            let k = choose|k: int|
                i + 1 <= k < longest(a, b) && part_at(b, k) > part_at(a, k) && (forall|j: int|
                    i + 1 <= j < k ==> #[trigger] part_at(a, j) == part_at(b, j));
            assert(forall|j: int| i <= j < k ==> #[trigger] part_at(a, j) == part_at(b, j));
        } else {
            assert forall|k: int|
                i <= k < longest(a, b) && part_at(b, k) > part_at(a, k) implies !(forall|j: int|
                    i <= j < k ==> #[trigger] part_at(a, j) == part_at(b, j)) by {
                if k > i && (forall|j: int| i <= j < k ==> #[trigger] part_at(a, j) == part_at(b, j)) {
                    assert(forall|j: int| i + 1 <= j < k ==> #[trigger] part_at(a, j) == part_at(b, j));
                }
            }
        }
    }
}

/// Version comparison is the lexicographic order of the zero-padded
/// version tuples: `latest` is newer exactly when, at the first component
/// where the two differ, `latest` has the larger one.
pub proof fn lemma_newer_is_lexicographic(installed: Seq<char>, latest: Seq<char>)
    ensures
        version_newer(installed, latest) <==> lex_before(
            version_parts(installed),
            version_parts(latest),
        ),
{
    lemma_ahead_from_lex(version_parts(installed), version_parts(latest), 0);
}

proof fn lemma_ahead_from_irreflexive(a: Seq<u64>, i: int)
    ensures
        !ahead_from(a, a, i),
    decreases longest(a, a) - i,
{
    if 0 <= i < longest(a, a) {
        lemma_ahead_from_irreflexive(a, i + 1);
    }
}

/// No version is newer than itself.
pub proof fn lemma_newer_irreflexive(v: Seq<char>)
    ensures
        !version_newer(v, v),
{
    lemma_ahead_from_irreflexive(version_parts(v), 0);
}

/// What remains of `s` once ANSI escape sequences are removed, starting in
/// the given scanner state: after ESC, a `[` opens a control sequence that
/// runs to the first character in `'@'..='~'`; any other character after ESC
/// ends the escape and is dropped with it.
pub open spec fn strip_ansi_from(s: Seq<char>, escape: bool, csi: bool) -> Seq<char>
    decreases s.len(),
{
    if s.len() == 0 {
        Seq::<char>::empty()
    } else {
        let c = s[0];
        let rest = s.drop_first();
        if escape {
            if !csi {
                if c == '[' {
                    strip_ansi_from(rest, true, true)
                } else {
                    strip_ansi_from(rest, false, false)
                }
            } else if '@' <= c && c <= '~' {
                strip_ansi_from(rest, false, false)
            } else {
                strip_ansi_from(rest, true, true)
            }
        } else if c == '\u{1b}' {
            strip_ansi_from(rest, true, false)
        } else {
            seq![c] + strip_ansi_from(rest, false, false)
        }
    }
}

pub open spec fn strip_ansi(s: Seq<char>) -> Seq<char> {
    strip_ansi_from(s, false, false)
}

/// `input` with its ANSI escape sequences removed.
pub fn strip_ansi_sequences(input: &str) -> (r: Vec<char>)
    ensures
        r@ == strip_ansi(input@),
{
    let s = chars_of(input);
    let mut out: Vec<char> = Vec::new();
    let mut escape = false;
    let mut csi = false;
    let mut i: usize = 0;
    assert(s@.subrange(0, s.len() as int) =~= s@);
    while i < s.len()
        invariant
            s@ == input@,
            i <= s.len(),
            out@ + strip_ansi_from(s@.subrange(i as int, s.len() as int), escape, csi)
                == strip_ansi(input@),
        decreases s.len() - i,
    {
        let ch = s[i];
        let ghost cur = s@.subrange(i as int, s.len() as int);
        assert(cur.drop_first() =~= s@.subrange(i + 1, s.len() as int));
        let ghost out0 = out@;
        if escape {
            if !csi {
                if ch == '[' {
                    csi = true;
                } else {
                    escape = false;
                }
            } else if '@' <= ch && ch <= '~' {
                escape = false;
                csi = false;
            }
        } else if ch == '\u{1b}' {
            escape = true;
            csi = false;
        } else {
            out.push(ch);
            assert(out@ =~= out0 + seq![ch]);
            assert(out0 + (seq![ch] + strip_ansi_from(s@.subrange(i + 1, s.len() as int), false, false))
                =~= out@ + strip_ansi_from(s@.subrange(i + 1, s.len() as int), false, false));
        }
        i = i + 1;
    }
    assert(out@ + Seq::<char>::empty() =~= out@);
    out
}

/// The whitespace-separated words of `s`, as `str::split_whitespace` yields them.
pub open spec fn words(s: Seq<char>) -> Seq<Seq<char>>
    decreases s.len(),
{
    if s.len() == 0 {
        Seq::<Seq<char>>::empty()
    } else {
        let r = words(s.drop_last());
        let c = s.last();
        if is_ws(c) {
            r
        } else if s.len() >= 2 && !is_ws(s[s.len() - 2]) {
            r.update(r.len() - 1, r.last().push(c))
        } else {
            r.push(seq![c])
        }
    }
}

proof fn lemma_words_open(s: Seq<char>)
    requires
        s.len() > 0,
        !is_ws(s.last()),
    ensures
        words(s).len() >= 1,
    decreases s.len(),
{
    if s.len() >= 2 && !is_ws(s[s.len() - 2]) {
        assert(s.drop_last().last() == s[s.len() - 2]);
        lemma_words_open(s.drop_last());
    }
}

/// Splits `s` into its whitespace-separated words.
pub fn split_words(s: &Vec<char>) -> (r: Vec<Vec<char>>)
    ensures
        r.len() == words(s@).len(),
        forall|j: int| 0 <= j < r.len() ==> #[trigger] r[j]@ == words(s@)[j],
{
    let mut done: Vec<Vec<char>> = Vec::new();
    let mut cur: Vec<char> = Vec::new();
    let mut in_word = false;
    let mut i: usize = 0;
    while i < s.len()
        invariant
            i <= s.len(),
            in_word == (i > 0 && !is_ws(s@[i - 1])),
            in_word ==> done.len() + 1 == words(s@.subrange(0, i as int)).len() && cur@ == words(
                s@.subrange(0, i as int),
            ).last(),
            !in_word ==> done.len() == words(s@.subrange(0, i as int)).len(),
            forall|j: int|
                0 <= j < done.len() ==> #[trigger] done[j]@ == words(s@.subrange(0, i as int))[j],
        decreases s.len() - i,
    {
        let ghost pre = s@.subrange(0, i as int);
        let ghost next = s@.subrange(0, i + 1);
        assert(next.drop_last() =~= pre);
        assert(next.last() == s@[i as int]);
        if i > 0 {
            assert(next[next.len() - 2] == s@[i - 1]);
        }
        if in_word {
            proof {
                assert(pre.last() == s@[i - 1]);
                lemma_words_open(pre);
            }
        }
        let c = s[i];
        if is_whitespace(c) {
            if in_word {
                done.push(cur);
                cur = Vec::new();
            }
            in_word = false;
        } else {
            if !in_word {
                cur = Vec::new();
            }
            cur.push(c);
            in_word = true;
        }
        i = i + 1;
    }
    assert(s@.subrange(0, s.len() as int) =~= s@);
    if in_word {
        done.push(cur);
    }
    done
}

pub open spec fn version_like(n: Seq<char>) -> bool {
    &&& forall|i: int| 0 <= i < n.len() ==> is_digit(#[trigger] n[i]) || n[i] == '.'
    &&& n.contains('.')
}

/// A version read from one word: trimmed, stripped at both ends of all but
/// ASCII letters, digits and dots, then of leading `v`s; kept if it is made
/// of digits and dots only and holds at least one dot.
pub open spec fn version_token(t: Seq<char>) -> Option<Seq<char>> {
    let n = strip_leading(trim_by(trim(t), CharClass::NotVersionChar), 'v');
    if version_like(n) {
        Some(n)
    } else {
        None
    }
}

fn token_version(token: &Vec<char>) -> (r: Option<Vec<char>>)
    ensures
        r matches Some(v) ==> version_token(token@) == Some(v@),
        r is None ==> version_token(token@) is None,
{
    let t = trim_chars(token);
    let u = trim_chars_by(&t, CharClass::NotVersionChar);
    let n = strip_leading_chars(&u, 'v');
    let mut i: usize = 0;
    while i < n.len()
        invariant
            i <= n.len(),
            n@ == strip_leading(trim_by(trim(token@), CharClass::NotVersionChar), 'v'),
            forall|j: int| 0 <= j < i ==> is_digit(#[trigger] n@[j]) || n@[j] == '.',
        decreases n.len() - i,
    {
        if !(('0' <= n[i] && n[i] <= '9') || n[i] == '.') {
            assert(!(is_digit(n@[i as int]) || n@[i as int] == '.'));
            assert(!version_like(n@));
            return None;
        }
        i = i + 1;
    }
    if contains_char(&n, '.') {
        Some(n)
    } else {
        None
    }
}

/// The version that `token` denotes, if it is one (`"v2026.2.1"` gives `"2026.2.1"`).
pub fn parse_version_token(token: &str) -> (r: Option<String>)
    ensures
        r matches Some(v) ==> version_token(token@) == Some(v@),
        r is None ==> version_token(token@) is None,
{
    let chars = chars_of(token);
    match token_version(&chars) {
        Some(v) => Some(string_of(v.as_slice())),
        None => None,
    }
}

/// The first version among `ws`, reading each word as `version_token` does.
pub open spec fn first_version(ws: Seq<Seq<char>>) -> Option<Seq<char>>
    decreases ws.len(),
{
    if ws.len() == 0 {
        None
    } else {
        match version_token(ws[0]) {
            Some(v) => Some(v),
            None => first_version(ws.drop_first()),
        }
    }
}

/// The version that a program printed: the first word of its output, once
/// ANSI escapes are removed, that reads as a version.
pub open spec fn version_in_output(output: Seq<char>) -> Option<Seq<char>> {
    first_version(words(strip_ansi(output)))
}

/// Finds the version in a program's `--version` output, ignoring colour codes
/// and surrounding words (`"OpenClaw 2026.2.1 (build)"` gives `"2026.2.1"`).
pub fn parse_version_from_output(output: &str) -> (r: Option<String>)
    ensures
        r matches Some(v) ==> version_in_output(output@) == Some(v@),
        r is None ==> version_in_output(output@) is None,
{
    let sanitized = strip_ansi_sequences(output);
    let ws = split_words(&sanitized);
    let ghost all = words(sanitized@);
    let mut i: usize = 0;
    assert(all.subrange(0, all.len() as int) =~= all);
    while i < ws.len()
        invariant
            i <= ws.len(),
            ws.len() == all.len(),
            all == words(strip_ansi(output@)),
            forall|j: int| 0 <= j < ws.len() ==> #[trigger] ws[j]@ == all[j],
            first_version(all) == first_version(all.subrange(i as int, all.len() as int)),
        decreases ws.len() - i,
    {
        let ghost cur = all.subrange(i as int, all.len() as int);
        assert(cur.drop_first() =~= all.subrange(i + 1, all.len() as int));
        assert(cur[0] == ws[i as int]@);
        match token_version(&ws[i]) {
            Some(v) => {
                return Some(string_of(v.as_slice()));
            },
            None => {},
        }
        i = i + 1;
    }
    None
}

} // verus!
