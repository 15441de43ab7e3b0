//! The configuration file: where it lives and the comments written above
//! its keys.  Reading and writing the file, and its TOML encoding, are the
//! caller's.

use vstd::prelude::*;

verus! {

/// `base` joined with the relative path `part`, with one `/` between them
/// unless `base` is empty or already ends in one.
pub open spec fn path_join(base: Seq<char>, part: Seq<char>) -> Seq<char> {
    if base.len() == 0 || base.last() == '/' {
        base + part
    } else {
        base + seq!['/'] + part
    }
}

/// The configuration directory under a home directory.
pub open spec fn config_dir_of(home: Seq<char>) -> Seq<char> {
    path_join(path_join(home, ".config"@), "termwave"@)
}

/// The home directory used when none is known.
pub open spec fn home_or_current(home: Option<Seq<char>>) -> Seq<char> {
    match home {
        Some(h) => h,
        None => "."@,
    }
}

pub open spec fn opt_view(home: Option<&str>) -> Option<Seq<char>> {
    match home {
        Some(h) => Some(h@),
        None => None,
    }
}

fn join_into(path: &mut String, part: &str)
    ensures
        final(path)@ == path_join(old(path)@, part@),
{
    let s: &str = path.as_str();
    let n = s.unicode_len();
    if n == 0 || s.get_char(n - 1) == '/' {
        path.append(part);
    } else {
        path.append("/");
        proof {
            reveal_strlit("/");
            assert("/"@ =~= seq!['/']);
        }
        path.append(part);
    }
    proof {
        if old(path)@.len() > 0 {
            assert(old(path)@.last() == old(path)@[old(path)@.len() - 1]);
        }
    }
}

/// The configuration directory, `$HOME/.config/termwave` (the current
/// directory stands in for an unknown home).
pub fn config_dir(home: Option<&str>) -> (dir: String)
    ensures
        dir@ == config_dir_of(home_or_current(opt_view(home))),
{
    let mut path = match home {
        Some(h) => h.to_owned(),
        None => ".".to_owned(),
    };
    join_into(&mut path, ".config");
    join_into(&mut path, "termwave");
    path
}

/// Get the config file path (`$HOME/.config/termwave/config.toml`).
pub fn config_path(home: Option<&str>) -> (path: String)
    ensures
        path@ == path_join(config_dir_of(home_or_current(opt_view(home))), "config.toml"@),
{
    let mut path = config_dir(home);
    join_into(&mut path, "config.toml");
    path
}

/// The configuration file is `config.toml` in `.config/termwave` under the
/// home directory, with exactly one `/` between the parts whether or not the
/// home directory ends in one; without a home it is under the current
/// directory.
pub proof fn lemma_config_path_under_home(home: Seq<char>)
    requires
        home.len() > 0,
    ensures
        home.last() != '/' ==> path_join(config_dir_of(home), "config.toml"@) == home
            + "/.config/termwave/config.toml"@,
        home.last() == '/' ==> path_join(config_dir_of(home), "config.toml"@) == home
            + ".config/termwave/config.toml"@,
        path_join(config_dir_of(home_or_current(None)), "config.toml"@)
            == "./.config/termwave/config.toml"@,
{
    reveal_strlit(".config");
    reveal_strlit("termwave");
    reveal_strlit("config.toml");
    reveal_strlit("/.config/termwave/config.toml");
    reveal_strlit(".config/termwave/config.toml");
    reveal_strlit("./.config/termwave/config.toml");
    reveal_strlit(".");
    let dot_config = ".config"@;
    let termwave = "termwave"@;
    let file = "config.toml"@;
    if home.last() != '/' {
        let a = home + seq!['/'] + dot_config;
        assert(path_join(home, dot_config) == a);
        assert(a.last() == 'g');
        let b = a + seq!['/'] + termwave;
        assert(b.last() == 'e');
        assert(path_join(b, file) =~= home + "/.config/termwave/config.toml"@);
    } else {
        let a = home + dot_config;
        assert(path_join(home, dot_config) == a);
        assert(a.last() == 'g');
        let b = a + seq!['/'] + termwave;
        assert(b.last() == 'e');
        assert(path_join(b, file) =~= home + ".config/termwave/config.toml"@);
    }
    let d = "."@;
    assert(d.last() == '.');
    let a = d + seq!['/'] + dot_config;
    assert(a.last() == 'g');
    let b = a + seq!['/'] + termwave;
    assert(b.last() == 'e');
    assert(path_join(b, file) =~= "./.config/termwave/config.toml"@);
}

// ---------------------------------------------------------------------------
// Comments above the keys of a saved configuration
// ---------------------------------------------------------------------------

/// Unicode `White_Space`, the characters `str::trim` removes.
pub open spec fn is_whitespace(c: char) -> bool {
    let u = c as u32;
    (9 <= u <= 13) || u == 32 || u == 0x85 || u == 0xa0 || u == 0x1680 || (0x2000 <= u <= 0x200a)
        || u == 0x2028 || u == 0x2029 || u == 0x202f || u == 0x205f || u == 0x3000
}

fn char_is_whitespace(c: char) -> (b: bool)
    ensures
        b == is_whitespace(c),
{
    let u = c as u32;
    (9 <= u && u <= 13) || u == 32 || u == 0x85 || u == 0xa0 || u == 0x1680 || (0x2000 <= u && u
        <= 0x200a) || u == 0x2028 || u == 0x2029 || u == 0x202f || u == 0x205f || u == 0x3000
}

pub open spec fn is_whitespace_fn() -> spec_fn(char) -> bool {
    |c: char| is_whitespace(c)
}

pub open spec fn not_newline_fn() -> spec_fn(char) -> bool {
    |c: char| c != '\n'
}

/// How many characters at the start of `t` satisfy `p`.
pub open spec fn leading_run(t: Seq<char>, p: spec_fn(char) -> bool) -> nat
    decreases t.len(),
{
    if t.len() > 0 && p(t[0]) {
        1 + leading_run(t.drop_first(), p)
    } else {
        0
    }
}

/// How many characters at the end of `t` satisfy `p`.
pub open spec fn trailing_run(t: Seq<char>, p: spec_fn(char) -> bool) -> nat
    decreases t.len(),
{
    if t.len() > 0 && p(t.last()) {
        1 + trailing_run(t.drop_last(), p)
    } else {
        0
    }
}

/// `t` without leading and trailing whitespace.
pub open spec fn trim(t: Seq<char>) -> Seq<char> {
    let u = t.skip(leading_run(t, is_whitespace_fn()) as int);
    u.take(u.len() - trailing_run(u, is_whitespace_fn()))
}

pub open spec fn starts_with(t: Seq<char>, key: Seq<char>) -> bool {
    key.len() <= t.len() && t.take(key.len() as int) == key
}

/// The keys of the configuration file and the comment written above each.
pub open spec fn comment_table() -> Seq<(Seq<char>, Seq<char>)> {
    seq![
        ("mode ="@, "# Visualization mode: spectrum, wave, scope, stereo"@),
        ("theme ="@, "# Color theme name"@),
        ("fps ="@, "# Target frames per second"@),
        ("bars ="@, "# Number of bars (0 = auto-fill terminal width)"@),
        ("low_freq ="@, "# Low frequency cutoff in Hz"@),
        ("high_freq ="@, "# High frequency cutoff in Hz"@),
        ("smoothing ="@, "# Temporal smoothing factor (0.0 = none, 0.99 = heavy)"@),
        ("monstercat ="@, "# Monstercat-style smoothing (connects bar tops in a smooth curve)"@),
        ("noise_floor ="@, "# Noise gate threshold (bars below this are zeroed)"@),
        ("gradient_by_position ="@, "# Color by position (true) or amplitude (false)"@),
        ("bar_width ="@, "# Width of each bar in terminal columns (1-8)"@),
        ("bar_spacing ="@, "# Gap between bars in terminal columns (0-4)"@),
        ("sensitivity ="@, "# Sensitivity in percent (100 = normal, higher = louder)"@),
    ]
}

/// The comment of the first table entry, from `i` on, whose key starts the
/// trimmed line `t`.
pub open spec fn comment_from(t: Seq<char>, i: int) -> Option<Seq<char>>
    decreases comment_table().len() - i,
{
    if i < 0 || i >= comment_table().len() {
        None
    } else if starts_with(t, comment_table()[i].0) {
        Some(comment_table()[i].1)
    } else {
        comment_from(t, i + 1)
    }
}

/// A line of the output: the matching comment on a line of its own, then
/// the line, each ended by a newline.
pub open spec fn annotated(line: Seq<char>) -> Seq<char> {
    match comment_from(trim(line), 0) {
        Some(c) => c + seq!['\n'] + line + seq!['\n'],
        None => line + seq!['\n'],
    }
}

/// A line ending in a carriage return loses it (the `\r` of `\r\n`).
pub open spec fn strip_cr(line: Seq<char>) -> Seq<char> {
    if line.len() > 0 && line.last() == '\r' {
        line.drop_last()
    } else {
        line
    }
}

/// The text with each of its lines (split as `str::lines` does: at `\n` or
/// `\r\n`, with no empty line after a final newline) annotated.
pub open spec fn commented(s: Seq<char>) -> Seq<char>
    decreases s.len(),
{
    if s.len() == 0 {
        Seq::empty()
    } else {
        let k = leading_run(s, not_newline_fn());
        if k < s.len() {
            annotated(strip_cr(s.take(k as int))) + commented(s.skip(k + 1int))
        } else {
            annotated(s)
        }
    }
}

proof fn lemma_leading_run(t: Seq<char>, p: spec_fn(char) -> bool, m: int)
    requires
        0 <= m <= t.len(),
        forall|j: int| 0 <= j < m ==> p(t[j]),
        m == t.len() || !p(t[m]),
    ensures
        leading_run(t, p) == m,
    decreases m,
{
    if m > 0 {
        lemma_leading_run(t.drop_first(), p, m - 1);
    }
}

proof fn lemma_trailing_run(t: Seq<char>, p: spec_fn(char) -> bool, m: int)
    requires
        0 <= m <= t.len(),
        forall|j: int| t.len() - m <= j < t.len() ==> p(t[j]),
        m == t.len() || !p(t[t.len() - m - 1]),
    ensures
        trailing_run(t, p) == m,
    decreases m,
{
    if m > 0 {
        assert(p(t.last()));
        lemma_trailing_run(t.drop_last(), p, m - 1);
    }
}

/// The bounds of `chars[a..b]` without its leading and trailing whitespace.
fn trim_bounds(chars: &Vec<char>, a: usize, b: usize) -> (r: (usize, usize))
    requires
        a <= b <= chars@.len(),
    ensures
        a <= r.0 <= r.1 <= b,
        chars@.subrange(r.0 as int, r.1 as int) == trim(chars@.subrange(a as int, b as int)),
{
    let ghost t = chars@.subrange(a as int, b as int);
    let mut s = a;
    while s < b && char_is_whitespace(chars[s])
        invariant
            a <= s <= b <= chars@.len(),
            forall|j: int| a <= j < s ==> is_whitespace(chars@[j]),
        decreases b - s,
    {
        s += 1;
    }
    proof {
        lemma_leading_run(t, is_whitespace_fn(), s - a);
    }
    let mut e = b;
    while e > s && char_is_whitespace(chars[e - 1])
        invariant
            a <= s <= e <= b <= chars@.len(),
            forall|j: int| e <= j < b ==> is_whitespace(chars@[j]),
        decreases e - s,
    {
        e -= 1;
    }
    proof {
        let u = t.skip(s - a);
        assert(u =~= chars@.subrange(s as int, b as int));
        lemma_trailing_run(u, is_whitespace_fn(), b - e);
        assert(u.take(u.len() - (b - e)) =~= chars@.subrange(s as int, e as int));
    }
    (s, e)
}

/// The key/comment table as executable strings.
fn comment_entries() -> (t: Vec<(&'static str, &'static str)>)
    ensures
        t@.len() == comment_table().len(),
        forall|i: int|
            0 <= i < t@.len() ==> #[trigger] t@[i].0@ == comment_table()[i].0 && t@[i].1@
                == comment_table()[i].1,
{
    vec![
        ("mode =", "# Visualization mode: spectrum, wave, scope, stereo"),
        ("theme =", "# Color theme name"),
        ("fps =", "# Target frames per second"),
        ("bars =", "# Number of bars (0 = auto-fill terminal width)"),
        ("low_freq =", "# Low frequency cutoff in Hz"),
        ("high_freq =", "# High frequency cutoff in Hz"),
        ("smoothing =", "# Temporal smoothing factor (0.0 = none, 0.99 = heavy)"),
        ("monstercat =", "# Monstercat-style smoothing (connects bar tops in a smooth curve)"),
        ("noise_floor =", "# Noise gate threshold (bars below this are zeroed)"),
        ("gradient_by_position =", "# Color by position (true) or amplitude (false)"),
        ("bar_width =", "# Width of each bar in terminal columns (1-8)"),
        ("bar_spacing =", "# Gap between bars in terminal columns (0-4)"),
        ("sensitivity =", "# Sensitivity in percent (100 = normal, higher = louder)"),
    ]
}

/// The characters of `s`, in order.
fn chars_of(s: &str) -> (v: Vec<char>)
    ensures
        v@ == s@,
{
    let mut v: Vec<char> = Vec::new();
    for c in it: s.chars()
        invariant
            it.seq() == s@,
            v@ == it.seq().take(it.index() as int),
    {
        v.push(c);
    }
    assert(v@ =~= s@);
    v
}

/// Whether `chars[s..e]` starts with `key`.
fn starts_with_key(chars: &Vec<char>, s: usize, e: usize, key: &str) -> (b: bool)
    requires
        s <= e <= chars@.len(),
    ensures
        b == starts_with(chars@.subrange(s as int, e as int), key@),
{
    let ghost t = chars@.subrange(s as int, e as int);
    let klen = key.unicode_len();
    if klen > e - s {
        return false;
    }
    let mut j: usize = 0;
    while j < klen
        invariant
            s <= e <= chars@.len(),
            klen == key@.len(),
            klen <= e - s,
            j <= klen,
            t == chars@.subrange(s as int, e as int),
            forall|k: int| 0 <= k < j ==> t[k] == key@[k],
        decreases klen - j,
    {
        if chars[s + j] != key.get_char(j) {
            proof {
                assert(t.take(klen as int)[j as int] != key@[j as int]);
            }
            return false;
        }
        j += 1;
    }
    assert(t.take(klen as int) =~= key@);
    true
}

/// The comment for the trimmed line `chars[s..e]`, if one of the keys
/// starts it.
fn comment_for(chars: &Vec<char>, s: usize, e: usize, table: &Vec<(&'static str, &'static str)>) -> (c:
    Option<&'static str>)
    requires
        s <= e <= chars@.len(),
        table@.len() == comment_table().len(),
        forall|i: int|
            0 <= i < table@.len() ==> #[trigger] table@[i].0@ == comment_table()[i].0 && table@[i].1@
                == comment_table()[i].1,
    ensures
        match c {
            Some(x) => comment_from(chars@.subrange(s as int, e as int), 0) == Some(x@),
            None => comment_from(chars@.subrange(s as int, e as int), 0) == None::<Seq<char>>,
        },
{
    let ghost t = chars@.subrange(s as int, e as int);
    let mut i: usize = 0;
    while i < table.len()
        invariant
            s <= e <= chars@.len(),
            t == chars@.subrange(s as int, e as int),
            i <= table@.len(),
            table@.len() == comment_table().len(),
            forall|k: int|
                0 <= k < table@.len() ==> #[trigger] table@[k].0@ == comment_table()[k].0
                    && table@[k].1@ == comment_table()[k].1,
            comment_from(t, 0) == comment_from(t, i as int),
        decreases table@.len() - i,
    {
        let (key, comment) = table[i];
        if starts_with_key(chars, s, e, key) {
            return Some(comment);
        }
        i += 1;
    }
    None
}

proof fn lemma_newline_literal()
    ensures
        "\n"@ == seq!['\n'],
{
    reveal_strlit("\n");
    assert("\n"@ =~= seq!['\n']);
}

/// Append the annotated line `chars[a..b]` (taken from `text`) to `out`.
fn push_annotated(
    text: &str,
    chars: &Vec<char>,
    a: usize,
    b: usize,
    table: &Vec<(&'static str, &'static str)>,
    out: &mut String,
)
    requires
        chars@ == text@,
        a <= b <= chars@.len(),
        table@.len() == comment_table().len(),
        forall|i: int|
            0 <= i < table@.len() ==> #[trigger] table@[i].0@ == comment_table()[i].0 && table@[i].1@
                == comment_table()[i].1,
    ensures
        final(out)@ == old(out)@ + annotated(chars@.subrange(a as int, b as int)),
{
    proof {
        lemma_newline_literal();
    }
    let (ts, te) = trim_bounds(chars, a, b);
    match comment_for(chars, ts, te, table) {
        Some(c) => {
            out.append(c);
            out.append("\n");
        },
        None => {},
    }
    out.append(text.substring_char(a, b));
    out.append("\n");
    assert(final(out)@ =~= old(out)@ + annotated(chars@.subrange(a as int, b as int)));
}

proof fn lemma_commented_line(s: Seq<char>, start: int, i: int)
    requires
        0 <= start <= i < s.len(),
        forall|j: int| start <= j < i ==> s[j] != '\n',
        s[i] == '\n',
    ensures
        commented(s.skip(start)) == annotated(strip_cr(s.subrange(start, i))) + commented(
            s.skip(i + 1),
        ),
{
    let t = s.skip(start);
    lemma_leading_run(t, not_newline_fn(), i - start);
    assert(t.take(i - start) =~= s.subrange(start, i));
    assert(t.skip(i - start + 1) =~= s.skip(i + 1));
}

proof fn lemma_commented_last(s: Seq<char>, start: int)
    requires
        0 <= start < s.len(),
        forall|j: int| start <= j < s.len() ==> s[j] != '\n',
    ensures
        commented(s.skip(start)) == annotated(s.skip(start)),
{
    let t = s.skip(start);
    lemma_leading_run(t, not_newline_fn(), s.len() - start);
}

/// Insert descriptive comments above known config keys: every line whose
/// trimmed text starts with a key of the table gets that key's comment on
/// the line before it; every line ends in a newline.
pub fn add_comments(toml: &str) -> (result: String)
    ensures
        result@ == commented(toml@),
{
    let chars = chars_of(toml);
    let n = chars.len();
    let table = comment_entries();
    let mut out = String::new();
    let mut start: usize = 0;
    let mut i: usize = 0;
    proof {
        assert(toml@.skip(0) =~= toml@);
    }
    while i < n
        invariant
            chars@ == toml@,
            n == chars@.len(),
            start <= i <= n,
            forall|j: int| start <= j < i ==> chars@[j] != '\n',
            commented(toml@) == out@ + commented(toml@.skip(start as int)),
            table@.len() == comment_table().len(),
            forall|k: int|
                0 <= k < table@.len() ==> #[trigger] table@[k].0@ == comment_table()[k].0
                    && table@[k].1@ == comment_table()[k].1,
        decreases n - i,
    {
        if chars[i] == '\n' {
            let mut end = i;
            if end > start && chars[end - 1] == '\r' {
                end = end - 1;
            }
            let ghost before = out@;
            push_annotated(toml, &chars, start, end, &table, &mut out);
            proof {
                lemma_commented_line(toml@, start as int, i as int);
                let line = toml@.subrange(start as int, i as int);
                if i > start && chars@[i - 1] == '\r' {
                    assert(strip_cr(line) =~= toml@.subrange(start as int, end as int));
                } else {
                    assert(strip_cr(line) =~= toml@.subrange(start as int, end as int));
                }
                assert(commented(toml@) == out@ + commented(toml@.skip(i + 1)));
            }
            start = i + 1;
        }
        i += 1;
    }
    if start < n {
        push_annotated(toml, &chars, start, n, &table, &mut out);
        proof {
            lemma_commented_last(toml@, start as int);
            assert(toml@.subrange(start as int, n as int) =~= toml@.skip(start as int));
        }
    } else {
        proof {
            assert(toml@.skip(start as int) =~= Seq::<char>::empty());
            assert(out@ + Seq::<char>::empty() =~= out@);
        }
    }
    out
}

proof fn lemma_first_chars(t: Seq<char>, key: Seq<char>)
    requires
        starts_with(t, key),
        key.len() >= 5,
    ensures
        t[0] == key[0] && t[1] == key[1] && t[2] == key[2] && t[3] == key[3] && t[4] == key[4],
{
    assert(t.take(key.len() as int)[0] == t[0]);
    assert(t.take(key.len() as int)[1] == t[1]);
    assert(t.take(key.len() as int)[2] == t[2]);
    assert(t.take(key.len() as int)[3] == t[3]);
    assert(t.take(key.len() as int)[4] == t[4]);
}

/// A trimmed line that starts with the `j`-th key gets the `j`-th comment:
/// no earlier key starts it too (the keys differ within their first five
/// characters).
proof fn lemma_comment_of_key(t: Seq<char>, j: int)
    requires
        0 <= j < comment_table().len(),
        starts_with(t, comment_table()[j].0),
    ensures
        comment_from(t, 0) == Some(comment_table()[j].1),
{
    reveal_strlit("mode =");
    reveal_strlit("theme =");
    reveal_strlit("fps =");
    reveal_strlit("bars =");
    reveal_strlit("low_freq =");
    reveal_strlit("high_freq =");
    reveal_strlit("smoothing =");
    reveal_strlit("monstercat =");
    reveal_strlit("noise_floor =");
    reveal_strlit("gradient_by_position =");
    reveal_strlit("bar_width =");
    reveal_strlit("bar_spacing =");
    reveal_strlit("sensitivity =");
    reveal_with_fuel(comment_from, 14);
    if starts_with(t, comment_table()[0].0) {
        lemma_first_chars(t, comment_table()[0].0);
    }
    if starts_with(t, comment_table()[1].0) {
        lemma_first_chars(t, comment_table()[1].0);
    }
    if starts_with(t, comment_table()[2].0) {
        lemma_first_chars(t, comment_table()[2].0);
    }
    if starts_with(t, comment_table()[3].0) {
        lemma_first_chars(t, comment_table()[3].0);
    }
    if starts_with(t, comment_table()[4].0) {
        lemma_first_chars(t, comment_table()[4].0);
    }
    if starts_with(t, comment_table()[5].0) {
        lemma_first_chars(t, comment_table()[5].0);
    }
    if starts_with(t, comment_table()[6].0) {
        lemma_first_chars(t, comment_table()[6].0);
    }
    if starts_with(t, comment_table()[7].0) {
        lemma_first_chars(t, comment_table()[7].0);
    }
    if starts_with(t, comment_table()[8].0) {
        lemma_first_chars(t, comment_table()[8].0);
    }
    if starts_with(t, comment_table()[9].0) {
        lemma_first_chars(t, comment_table()[9].0);
    }
    if starts_with(t, comment_table()[10].0) {
        lemma_first_chars(t, comment_table()[10].0);
    }
    if starts_with(t, comment_table()[11].0) {
        lemma_first_chars(t, comment_table()[11].0);
    }
    if starts_with(t, comment_table()[12].0) {
        lemma_first_chars(t, comment_table()[12].0);
    }
}

/// The file is annotated line by line: the first line (without its line
/// break and a trailing carriage return) is annotated on its own and the
/// rest of the file follows unchanged in structure; a last line without a
/// line break is annotated and ended with one.
pub proof fn lemma_comments_line_by_line(line: Seq<char>, rest: Seq<char>)
    requires
        forall|j: int| 0 <= j < line.len() ==> line[j] != '\n',
    ensures
        commented(line + seq!['\n'] + rest) == annotated(strip_cr(line)) + commented(rest),
        line.len() > 0 ==> commented(line) == annotated(line),
{
    let s = line + seq!['\n'] + rest;
    assert(s.skip(0) =~= s);
    assert(s.subrange(0, line.len() as int) =~= line);
    assert(s.skip(line.len() + 1int) =~= rest);
    lemma_commented_line(s, 0, line.len() as int);
    if line.len() > 0 {
        assert(line.skip(0) =~= line);
        lemma_commented_last(line, 0);
    }
}

/// Every known key gets its own comment: a line whose trimmed text starts
/// with a key is written below that key's comment.
pub proof fn lemma_keys_get_their_comments(line: Seq<char>)
    ensures
        starts_with(trim(line), "mode ="@) ==> annotated(line) == "# Visualization mode: spectrum, wave, scope, stereo"@ + seq!['\n'] + line + seq![
            '\n',
        ],
        starts_with(trim(line), "theme ="@) ==> annotated(line) == "# Color theme name"@ + seq!['\n'] + line + seq![
            '\n',
        ],
        starts_with(trim(line), "fps ="@) ==> annotated(line) == "# Target frames per second"@ + seq!['\n'] + line + seq![
            '\n',
        ],
        starts_with(trim(line), "bars ="@) ==> annotated(line) == "# Number of bars (0 = auto-fill terminal width)"@ + seq!['\n'] + line + seq![
            '\n',
        ],
        starts_with(trim(line), "low_freq ="@) ==> annotated(line) == "# Low frequency cutoff in Hz"@ + seq!['\n'] + line + seq![
            '\n',
        ],
        starts_with(trim(line), "high_freq ="@) ==> annotated(line) == "# High frequency cutoff in Hz"@ + seq!['\n'] + line + seq![
            '\n',
        ],
        starts_with(trim(line), "smoothing ="@) ==> annotated(line) == "# Temporal smoothing factor (0.0 = none, 0.99 = heavy)"@ + seq!['\n'] + line + seq![
            '\n',
        ],
        starts_with(trim(line), "monstercat ="@) ==> annotated(line) == "# Monstercat-style smoothing (connects bar tops in a smooth curve)"@ + seq!['\n'] + line + seq![
            '\n',
        ],
        starts_with(trim(line), "noise_floor ="@) ==> annotated(line) == "# Noise gate threshold (bars below this are zeroed)"@ + seq!['\n'] + line + seq![
            '\n',
        ],
        starts_with(trim(line), "gradient_by_position ="@) ==> annotated(line) == "# Color by position (true) or amplitude (false)"@ + seq!['\n'] + line + seq![
            '\n',
        ],
        starts_with(trim(line), "bar_width ="@) ==> annotated(line) == "# Width of each bar in terminal columns (1-8)"@ + seq!['\n'] + line + seq![
            '\n',
        ],
        starts_with(trim(line), "bar_spacing ="@) ==> annotated(line) == "# Gap between bars in terminal columns (0-4)"@ + seq!['\n'] + line + seq![
            '\n',
        ],
        starts_with(trim(line), "sensitivity ="@) ==> annotated(line) == "# Sensitivity in percent (100 = normal, higher = louder)"@ + seq!['\n'] + line + seq![
            '\n',
        ],
{
    if starts_with(trim(line), "mode ="@) {
        lemma_comment_of_key(trim(line), 0);
    }
    if starts_with(trim(line), "theme ="@) {
        lemma_comment_of_key(trim(line), 1);
    }
    if starts_with(trim(line), "fps ="@) {
        lemma_comment_of_key(trim(line), 2);
    }
    if starts_with(trim(line), "bars ="@) {
        lemma_comment_of_key(trim(line), 3);
    }
    if starts_with(trim(line), "low_freq ="@) {
        lemma_comment_of_key(trim(line), 4);
    }
    if starts_with(trim(line), "high_freq ="@) {
        lemma_comment_of_key(trim(line), 5);
    }
    if starts_with(trim(line), "smoothing ="@) {
        lemma_comment_of_key(trim(line), 6);
    }
    if starts_with(trim(line), "monstercat ="@) {
        lemma_comment_of_key(trim(line), 7);
    }
    if starts_with(trim(line), "noise_floor ="@) {
        lemma_comment_of_key(trim(line), 8);
    }
    if starts_with(trim(line), "gradient_by_position ="@) {
        lemma_comment_of_key(trim(line), 9);
    }
    if starts_with(trim(line), "bar_width ="@) {
        lemma_comment_of_key(trim(line), 10);
    }
    if starts_with(trim(line), "bar_spacing ="@) {
        lemma_comment_of_key(trim(line), 11);
    }
    if starts_with(trim(line), "sensitivity ="@) {
        lemma_comment_of_key(trim(line), 12);
    }
}

} // verus!
