use vstd::prelude::*;

use crate::emulation::text;

verus! {

/// What `str::trim` makes of a text: leading and trailing whitespace removed.
pub uninterp spec fn trimmed(s: Seq<char>) -> Seq<char>;

/// Relies on `str::trim`.
#[verifier::external_body]
fn trim_text(s: &str) -> (r: String)
    ensures
        r@ == trimmed(s@),
{
    s.trim().to_string()
}

/// Length of the text before its first line feed.
pub open spec fn line_end(s: Seq<char>) -> nat
    decreases s.len(),
{
    if s.len() == 0 {
        0
    } else if s[0] == '\n' {
        0
    } else {
        1 + line_end(s.subrange(1, s.len() as int))
    }
}

/// A line ended by `\r\n` loses its `\r`.
pub open spec fn without_cr(line: Seq<char>) -> Seq<char> {
    if line.len() > 0 && line.last() == '\r' {
        line.drop_last()
    } else {
        line
    }
}

/// The lines of a text: split at each `\n`, a `\r` right before a `\n`
/// dropped, and no empty line after a final `\n`.
pub open spec fn lines_of(s: Seq<char>) -> Seq<Seq<char>>
    decreases s.len(),
{
    if s.len() == 0 {
        Seq::empty()
    } else {
        let e = line_end(s);
        if e >= s.len() {
            seq![s]
        } else {
            seq![without_cr(s.subrange(0, e as int))] + lines_of(s.subrange(e + 1int, s.len() as int))
        }
    }
}

proof fn lemma_line_end_bounds(s: Seq<char>)
    ensures
        line_end(s) <= s.len(),
        forall|k: int| 0 <= k < line_end(s) ==> #[trigger] s[k] != '\n',
        line_end(s) < s.len() ==> s[line_end(s) as int] == '\n',
    decreases s.len(),
{
    if s.len() > 0 && s[0] != '\n' {
        let tail = s.subrange(1, s.len() as int);
        lemma_line_end_bounds(tail);
        assert forall|k: int| 0 <= k < line_end(s) implies #[trigger] s[k] != '\n' by {
            if k > 0 {
                assert(s[k] == tail[k - 1]);
            }
        }
        if line_end(s) < s.len() {
            assert(s[line_end(s) as int] == tail[line_end(tail) as int]);
        }
    }
}

proof fn lemma_line_end_at(s: Seq<char>, i: int)
    requires
        0 <= i <= s.len(),
        forall|k: int| 0 <= k < i ==> #[trigger] s[k] != '\n',
        i == s.len() || s[i] == '\n',
    ensures
        line_end(s) == i,
{
    lemma_line_end_bounds(s);
    if line_end(s) < i {
        assert(s[line_end(s) as int] == '\n');
    }
    if i < line_end(s) {
        assert(s[i] != '\n');
    }
}

/// The lines of `text`, without their line endings.
pub fn split_lines(text: &str) -> (r: Vec<String>)
    ensures
        r@.map_values(|l: String| l@) == lines_of(text@),
{
    let n = text.unicode_len();
    let mut lines: Vec<String> = Vec::new();
    let mut start: usize = 0;
    assert(text@.subrange(0, n as int) =~= text@);
    while start < n
        invariant
            n == text@.len(),
            start <= n,
            lines_of(text@) == lines@.map_values(|l: String| l@) + lines_of(text@.subrange(start as int, n as int)),
        decreases n - start,
    {
        let ghost rest = text@.subrange(start as int, n as int);
        let ghost before = lines@.map_values(|l: String| l@);
        let ghost s0 = start as int;
        let mut end: usize = start;
        while end < n
            invariant
                n == text@.len(),
                start <= end <= n,
                forall|k: int| start <= k < end ==> #[trigger] text@[k] != '\n',
            ensures
                start <= end <= n,
                forall|k: int| start <= k < end ==> #[trigger] text@[k] != '\n',
                end == n || text@[end as int] == '\n',
            decreases n - end,
        {
            if text.get_char(end) == '\n' {
                break;
            }
            end = end + 1;
        }
        proof {
            assert forall|k: int| 0 <= k < end - start implies #[trigger] rest[k] != '\n' by {
                assert(rest[k] == text@[start + k]);
            }
            lemma_line_end_at(rest, end - start);
        }
        let mut stop: usize = end;
        if end < n && end > start {
            if text.get_char(end - 1) == '\r' {
                stop = end - 1;
            }
        }
        let line = String::from_str(text.substring_char(start, stop));
        proof {
            if end < n {
                assert(rest.subrange(0, end - start) =~= text@.subrange(start as int, end as int));
                assert(line@ =~= without_cr(rest.subrange(0, end - start)));
                assert(rest.subrange(end - start + 1, rest.len() as int) =~= text@.subrange(end + 1, n as int));
            } else {
                assert(line@ =~= rest);
            }
        }
        lines.push(line);
        if end < n {
            start = end + 1;
            assert(lines@.map_values(|l: String| l@) =~= before.push(without_cr(rest.subrange(0, end - s0))));
        } else {
            start = n;
            assert(lines@.map_values(|l: String| l@) =~= before.push(rest));
            assert(lines_of(text@.subrange(start as int, n as int)) =~= Seq::<Seq<char>>::empty());
        }
        assert(lines_of(text@) =~= lines@.map_values(|l: String| l@) + lines_of(text@.subrange(start as int, n as int)));
    }
    assert(lines_of(text@.subrange(start as int, n as int)) =~= Seq::<Seq<char>>::empty());
    assert(lines@.map_values(|l: String| l@) + Seq::<Seq<char>>::empty() =~= lines@.map_values(|l: String| l@));
    lines
}

/// A character that starts a version specifier (`==`, `>=`, `<`, `~=`).
pub open spec fn is_version_operator(c: char) -> bool {
    c == '=' || c == '>' || c == '<' || c == '~'
}

/// Length of the part of `line` before its first version operator.
pub open spec fn name_end(line: Seq<char>) -> nat
    decreases line.len(),
{
    if line.len() == 0 {
        0
    } else if is_version_operator(line[0]) {
        0
    } else {
        1 + name_end(line.subrange(1, line.len() as int))
    }
}

/// The package named by one requirements line, if it names one.
pub open spec fn requirement_of(line: Seq<char>) -> Option<Seq<char>> {
    let name = trimmed(line.subrange(0, name_end(line) as int));
    if trimmed(line).len() == 0 || name.len() == 0 {
        None
    } else {
        Some(name)
    }
}

/// The packages named by a sequence of requirements lines, in order.
pub open spec fn requirements_of(lines: Seq<Seq<char>>) -> Seq<Seq<char>>
    decreases lines.len(),
{
    if lines.len() == 0 {
        Seq::empty()
    } else {
        let rest = requirements_of(lines.drop_last());
        match requirement_of(lines.last()) {
            Some(name) => rest.push(name),
            None => rest,
        }
    }
}

proof fn lemma_name_end_bounds(line: Seq<char>)
    ensures
        name_end(line) <= line.len(),
        forall|k: int| 0 <= k < name_end(line) ==> !is_version_operator(#[trigger] line[k]),
        name_end(line) < line.len() ==> is_version_operator(line[name_end(line) as int]),
    decreases line.len(),
{
    if line.len() > 0 && !is_version_operator(line[0]) {
        let tail = line.subrange(1, line.len() as int);
        lemma_name_end_bounds(tail);
        assert forall|k: int| 0 <= k < name_end(line) implies !is_version_operator(#[trigger] line[k]) by {
            if k > 0 {
                assert(line[k] == tail[k - 1]);
            }
        }
        if name_end(line) < line.len() {
            assert(line[name_end(line) as int] == tail[name_end(tail) as int]);
        }
    }
}

proof fn lemma_name_end_at(line: Seq<char>, i: int)
    requires
        0 <= i <= line.len(),
        forall|k: int| 0 <= k < i ==> !is_version_operator(#[trigger] line[k]),
        i == line.len() || is_version_operator(line[i]),
    ensures
        name_end(line) == i,
{
    lemma_name_end_bounds(line);
    if name_end(line) < i {
        assert(is_version_operator(line[name_end(line) as int]));
    }
    if i < name_end(line) {
        assert(!is_version_operator(line[i]));
    }
}

/// The package named by a requirements line: the text before the first
/// version operator, trimmed. `None` for a blank line or an empty name.
pub fn requirement_name(line: &str) -> (r: Option<String>)
    ensures
        match r {
            Some(name) => requirement_of(line@) == Some(name@),
            None => requirement_of(line@) is None,
        },
{
    let whole = trim_text(line);
    if whole.as_str().unicode_len() == 0 {
        return None;
    }
    let n = line.unicode_len();
    let mut i: usize = 0;
    while i < n
        invariant
            n == line@.len(),
            i <= n,
            forall|k: int| 0 <= k < i ==> !is_version_operator(#[trigger] line@[k]),
        ensures
            i <= n,
            forall|k: int| 0 <= k < i ==> !is_version_operator(#[trigger] line@[k]),
            i == n || is_version_operator(line@[i as int]),
        decreases n - i,
    {
        let c = line.get_char(i);
        if c == '=' || c == '>' || c == '<' || c == '~' {
            break;
        }
        i = i + 1;
    }
    proof {
        lemma_name_end_at(line@, i as int);
    }
    let name = trim_text(line.substring_char(0, i));
    if name.as_str().unicode_len() == 0 {
        None
    } else {
        Some(name)
    }
}

/// The package names listed in a requirements file, one per non-blank
/// line, without version specifiers.
pub fn parse_requirements_text(contents: &str) -> (r: Vec<String>)
    ensures
        r@.map_values(|s: String| s@) == requirements_of(lines_of(contents@)),
{
    let lines = split_lines(contents);
    let ghost line_views = lines@.map_values(|l: String| l@);
    let mut names: Vec<String> = Vec::new();
    let mut i: usize = 0;
    while i < lines.len()
        invariant
            i <= lines@.len(),
            line_views == lines@.map_values(|l: String| l@),
            names@.map_values(|s: String| s@) == requirements_of(line_views.subrange(0, i as int)),
        decreases lines@.len() - i,
    {
        let found = requirement_name(lines[i].as_str());
        proof {
            let prefix = line_views.subrange(0, i as int + 1);
            assert(prefix.drop_last() =~= line_views.subrange(0, i as int));
            assert(prefix.last() == lines@[i as int]@);
        }
        match found {
            Some(name) => {
                names.push(name);
                assert(names@.map_values(|s: String| s@) =~= requirements_of(line_views.subrange(0, i as int)).push(
                    requirement_of(lines@[i as int]@)->Some_0,
                ));
            },
            None => {},
        }
        i = i + 1;
    }
    assert(line_views.subrange(0, lines@.len() as int) =~= line_views);
    names
}

/// What `str::split_whitespace` makes of a text: its words.
pub uninterp spec fn words_of(s: Seq<char>) -> Seq<Seq<char>>;

/// Relies on `str::split_whitespace`.
#[verifier::external_body]
fn split_words(s: &str) -> (r: Vec<String>)
    ensures
        r@.map_values(|w: String| w@) == words_of(s@),
{
    s.split_whitespace().map(|w| w.to_string()).collect()
}

/// Length of the major and minor part of a version: the text before its
/// second dot, where `seen` dots have been passed already.
pub open spec fn major_minor_end(version: Seq<char>, seen: nat) -> nat
    decreases version.len(),
{
    if version.len() == 0 {
        0
    } else if version[0] == '.' && seen >= 1 {
        0
    } else {
        1 + major_minor_end(
            version.subrange(1, version.len() as int),
            if version[0] == '.' { seen + 1 } else { seen },
        )
    }
}

/// The `major.minor` version in the output of `python --version`: the
/// second word, up to its second dot.
pub open spec fn python_version_of(output: Seq<char>) -> Option<Seq<char>> {
    let words = words_of(output);
    if words.len() < 2 {
        None
    } else {
        Some(words[1].subrange(0, major_minor_end(words[1], 0) as int))
    }
}

proof fn lemma_major_minor_end_bound(version: Seq<char>, seen: nat)
    ensures
        major_minor_end(version, seen) <= version.len(),
    decreases version.len(),
{
    if version.len() > 0 {
        lemma_major_minor_end_bound(version.subrange(1, version.len() as int), if version[0] == '.' { seen + 1 } else { seen });
    }
}

/// Takes the `major.minor` part of the output of `python --version`
/// (`"Python 3.13.0"` gives `"3.13"`); `None` when there is no version word.
pub fn python_version(output: &str) -> (r: Option<String>)
    ensures
        match r {
            Some(v) => python_version_of(output@) == Some(v@),
            None => python_version_of(output@) is None,
        },
{
    let words = split_words(output);
    proof {
        assert(words@.len() == words_of(output@).len());
    }
    if words.len() < 2 {
        return None;
    }
    let version = words[1].as_str();
    proof {
        assert(version@ == words_of(output@)[1]);
    }
    let n = version.unicode_len();
    let mut i: usize = 0;
    let mut seen: usize = 0;
    let mut stop = false;
    assert(version@.subrange(0, n as int) =~= version@);
    while i < n && !stop
        invariant
            n == version@.len(),
            i <= n,
            seen <= i,
            stop ==> i < n && version@[i as int] == '.' && seen >= 1,
            major_minor_end(version@, 0) == i + major_minor_end(version@.subrange(i as int, n as int), seen as nat),
        decreases n - i + if stop { 0int } else { 1int },
    {
        let c = version.get_char(i);
        let ghost rest = version@.subrange(i as int, n as int);
        proof {
            assert(rest[0] == c);
            assert(rest.subrange(1, rest.len() as int) =~= version@.subrange(i as int + 1, n as int));
        }
        if c == '.' && seen >= 1 {
            stop = true;
        } else {
            if c == '.' {
                seen = seen + 1;
            }
            i = i + 1;
        }
    }
    proof {
        let rest = version@.subrange(i as int, n as int);
        if !stop {
            assert(rest.len() == 0);
        } else {
            assert(rest[0] == '.');
        }
        lemma_major_minor_end_bound(version@, 0);
    }
    Some(String::from_str(version.substring_char(0, i)))
}

/// Whether the setting that asks for logs to be deleted at start is on: it
/// is when its value is exactly `true`, and off when it is unset or holds
/// anything else.
pub fn log_deletion_enabled(value: Option<&str>) -> (r: bool)
    ensures
        r == (value matches Some(v) && v@ == "true"@),
{
    match value {
        Some(v) => text(v) == text("true"),
        None => false,
    }
}

} // verus!
