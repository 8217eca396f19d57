use vstd::prelude::*;
use crate::matchers::{occurs_at, starts_with};
use crate::status::Status;
use crate::text::{chars_of, string_of};

verus! {

/// Whether a character has Unicode's White_Space property.
pub open spec fn white_space(c: char) -> bool {
    ('\u{9}' <= c && c <= '\u{d}') || c == ' ' || c == '\u{85}' || c == '\u{a0}' || c == '\u{1680}'
        || ('\u{2000}' <= c && c <= '\u{200a}') || c == '\u{2028}' || c == '\u{2029}' || c == '\u{202f}'
        || c == '\u{205f}' || c == '\u{3000}'
}

/// Relies on `char::is_whitespace`: true exactly for the characters with the
/// White_Space property.
#[verifier::external_body]
fn is_whitespace(c: char) -> (r: bool)
    ensures
        r == white_space(c),
{
    c.is_whitespace()
}

/// `s` without its leading white space.
pub open spec fn trim_start(s: Seq<char>) -> Seq<char>
    decreases s.len(),
{
    if s.len() > 0 && white_space(s[0]) {
        trim_start(s.skip(1))
    } else {
        s
    }
}

/// `s` without its trailing white space.
pub open spec fn trim_end(s: Seq<char>) -> Seq<char>
    decreases s.len(),
{
    if s.len() > 0 && white_space(s.last()) {
        trim_end(s.drop_last())
    } else {
        s
    }
}

/// `s` without leading and trailing white space.
pub open spec fn trim(s: Seq<char>) -> Seq<char> {
    trim_end(trim_start(s))
}

/// Lines that open the stream: the version header and the bare `[`.
pub open spec fn is_header_line(line: Seq<char>) -> bool {
    starts_with(line, "{\"version\":"@) || trim(line) == "["@
}

/// Whether a trimmed line carries the comma that separates stream elements.
pub open spec fn has_comma(t: Seq<char>) -> bool {
    t.len() > 0 && t[0] == ','
}

/// A trimmed line without its separating comma.
pub open spec fn without_comma(t: Seq<char>) -> Seq<char> {
    if has_comma(t) {
        t.skip(1)
    } else {
        t
    }
}

/// `s` without its first character.
pub open spec fn drop_first(s: Seq<char>) -> Seq<char> {
    if s.len() > 0 {
        s.skip(1)
    } else {
        s
    }
}

/// The JSON objects of the blocks, joined by commas.
pub open spec fn join_json(sts: Seq<Status>) -> Seq<char>
    decreases sts.len(),
{
    if sts.len() == 0 {
        Seq::empty()
    } else if sts.len() == 1 {
        sts[0].json()
    } else {
        join_json(sts.drop_last()) + ","@ + sts.last().json()
    }
}

/// Whether what follows an array's `[` closes it at once: the array is empty.
pub open spec fn closes_at_once(rest: Seq<char>) -> bool {
    let t = trim_start(rest);
    t.len() > 0 && t[0] == ']'
}

/// A status array with the blocks put in before its own elements; without
/// blocks, the array as it is. The comma between the blocks and the array's
/// own elements is left out where the array has none, so that `[]` becomes
/// an array of the blocks alone.
pub open spec fn spliced(content: Seq<char>, sts: Seq<Status>) -> Seq<char> {
    if sts.len() > 0 {
        let rest = drop_first(content);
        if closes_at_once(rest) {
            "["@ + join_json(sts) + rest
        } else {
            "["@ + join_json(sts) + ","@ + rest
        }
    } else {
        content
    }
}

/// The blocks that providers produced, in provider order, without the
/// providers that had nothing to show.
pub open spec fn present(sts: Seq<Option<Status>>) -> Seq<Status>
    decreases sts.len(),
{
    if sts.len() == 0 {
        Seq::empty()
    } else {
        match sts.last() {
            Some(st) => present(sts.drop_last()).push(st),
            None => present(sts.drop_last()),
        }
    }
}

/// Keeps the blocks that providers produced, in the order given.
pub fn collect_statuses(results: Vec<Option<Status>>) -> (r: Vec<Status>)
    ensures
        r@ == present(results@),
{
    let mut out: Vec<Status> = Vec::new();
    let mut rest = results;
    let ghost all = rest@;
    let ghost mut k: int = 0;
    while rest.len() > 0
        invariant
            0 <= k <= all.len(),
            rest@ == all.skip(k),
            out@ == present(all.subrange(0, k)),
        decreases rest@.len(),
    {
        let item = rest.remove(0);
        proof {
            assert(all.subrange(0, k + 1).drop_last() =~= all.subrange(0, k));
            assert(all.subrange(0, k + 1).last() == all[k]);
            assert(rest@ =~= all.skip(k + 1));
            k = k + 1;
        }
        if let Some(st) = item {
            out.push(st);
        }
    }
    assert(all.subrange(0, k) =~= all);
    out
}

/// A data line as it leaves: the comma put back where there was one.
pub open spec fn emitted(content: Seq<char>, had_prefix: bool, sts: Seq<Status>) -> Seq<char> {
    if had_prefix {
        ","@ + spliced(content, sts)
    } else {
        spliced(content, sts)
    }
}

/// What goes out for a line of the stream: a header unchanged; a data line
/// trimmed, spliced and ended by a line feed.
pub open spec fn line_output(line: Seq<char>, sts: Seq<Status>) -> Seq<char> {
    if is_header_line(line) {
        line
    } else {
        let t = trim(line);
        emitted(without_comma(t), has_comma(t), sts) + "\n"@
    }
}

/// The characters of `s` without leading and trailing white space.
pub fn trim_chars(s: &Vec<char>) -> (r: Vec<char>)
    ensures
        r@ == trim(s@),
{
    let n = s.len();
    let mut i: usize = 0;
    assert(s@.skip(0) =~= s@);
    while i < n && is_whitespace(s[i])
        invariant
            n == s@.len(),
            i <= n,
            trim_start(s@) == trim_start(s@.skip(i as int)),
        decreases n - i,
    {
        assert(s@.skip(i as int).skip(1) =~= s@.skip(i + 1));
        i = i + 1;
    }
    assert(trim_start(s@) == s@.skip(i as int));
    let mut j: usize = n;
    assert(s@.subrange(i as int, n as int) =~= s@.skip(i as int));
    while j > i && is_whitespace(s[j - 1])
        invariant
            n == s@.len(),
            i <= j <= n,
            trim(s@) == trim_end(s@.subrange(i as int, j as int)),
        decreases j,
    {
        assert(s@.subrange(i as int, j as int).drop_last() =~= s@.subrange(i as int, j - 1));
        j = j - 1;
    }
    let mut r: Vec<char> = Vec::new();
    let mut k: usize = i;
    while k < j
        invariant
            n == s@.len(),
            i <= k <= j <= n,
            r@ == s@.subrange(i as int, k as int),
        decreases j - k,
    {
        r.push(s[k]);
        k = k + 1;
    }
    r
}

/// Whether a line opens the stream and so passes through unchanged.
pub fn is_header(line: &str) -> (r: bool)
    ensures
        r == is_header_line(line@),
{
    let cs = chars_of(line);
    let head = chars_of("{\"version\":");
    assert(cs@.skip(0) =~= cs@);
    if occurs_at(&cs, &head, 0) {
        return true;
    }
    let t = trim_chars(&cs);
    proof {
        reveal_strlit("[");
    }
    let r = t.len() == 1 && t[0] == '[';
    if r {
        assert(t@ =~= "["@);
    }
    r
}

/// The JSON objects of the blocks, joined by commas.
fn join_statuses(sts: &Vec<Status>) -> (r: String)
    ensures
        r@ == join_json(sts@),
{
    let mut out = String::new();
    let mut i: usize = 0;
    while i < sts.len()
        invariant
            i <= sts@.len(),
            out@ == join_json(sts@.subrange(0, i as int)),
        decreases sts@.len() - i,
    {
        let ghost part = sts@.subrange(0, i as int + 1);
        assert(part.drop_last() =~= sts@.subrange(0, i as int));
        assert(part.last() == sts@[i as int]);
        if i > 0 {
            out.append(",");
        } else {
            assert(out@ =~= Seq::<char>::empty());
        }
        let j = sts[i].to_json();
        out.append(j.as_str());
        i = i + 1;
        assert(out@ =~= join_json(sts@.subrange(0, i as int)));
    }
    assert(sts@.subrange(0, sts@.len() as int) =~= sts@);
    out
}

/// Whether the characters close an array at once, white space aside.
fn starts_closing(s: &Vec<char>) -> (r: bool)
    ensures
        r == closes_at_once(s@),
{
    let n = s.len();
    let mut i: usize = 0;
    assert(s@.skip(0) =~= s@);
    while i < n && is_whitespace(s[i])
        invariant
            n == s@.len(),
            i <= n,
            trim_start(s@) == trim_start(s@.skip(i as int)),
        decreases n - i,
    {
        assert(s@.skip(i as int).skip(1) =~= s@.skip(i + 1));
        i = i + 1;
    }
    assert(trim_start(s@) == s@.skip(i as int));
    i < n && s[i] == ']'
}

/// Puts the blocks into a data line, before the line's own elements, and
/// puts the separating comma back where the line had one.
pub fn process_i3status(buffer: &str, had_prefix: bool, statuses: &Vec<Status>) -> (r: String)
    ensures
        r@ == emitted(buffer@, had_prefix, statuses@),
{
    let mut out = String::new();
    if had_prefix {
        out.append(",");
    }
    if statuses.len() > 0 {
        out.append("[");
        let joined = join_statuses(statuses);
        out.append(joined.as_str());
        let n = buffer.unicode_len();
        let rest = if n > 0 {
            assert(buffer@.subrange(1, n as int) =~= buffer@.skip(1));
            buffer.substring_char(1, n)
        } else {
            buffer
        };
        let rest_chars = chars_of(rest);
        if !starts_closing(&rest_chars) {
            out.append(",");
        }
        out.append(rest);
    } else {
        out.append(buffer);
    }
    assert(out@ =~= emitted(buffer@, had_prefix, statuses@));
    out
}

/// A data line trimmed and without its separating comma, and whether it
/// had one.
pub fn split_prefix(line: &str) -> (r: (String, bool))
    ensures
        r.0@ == without_comma(trim(line@)),
        r.1 == has_comma(trim(line@)),
{
    let cs = chars_of(line);
    let t = trim_chars(&cs);
    let had = t.len() > 0 && t[0] == ',';
    let mut rest: Vec<char> = Vec::new();
    let mut k: usize = if had { 1 } else { 0 };
    let start = k;
    while k < t.len()
        invariant
            start <= k <= t@.len(),
            start == (if had { 1usize } else { 0usize }),
            rest@ == t@.subrange(start as int, k as int),
        decreases t@.len() - k,
    {
        rest.push(t[k]);
        k = k + 1;
    }
    assert(rest@ =~= without_comma(t@));
    (string_of(&rest), had)
}

/// What goes out for one line of the stream, given the blocks that the
/// providers produced for it.
pub fn process_line(line: &str, statuses: &Vec<Status>) -> (r: String)
    ensures
        r@ == line_output(line@, statuses@),
{
    if is_header(line) {
        return String::from_str(line);
    }
    let (content, had_prefix) = split_prefix(line);
    let mut out = process_i3status(content.as_str(), had_prefix, statuses);
    out.append("\n");
    out
}

/// Without blocks, a data line without surrounding white space comes out as
/// it went in, separating comma and line feed included.
pub proof fn lemma_passthrough(x: Seq<char>)
    requires
        x.len() > 0 ==> !white_space(x[0]) && !white_space(x.last()),
        !is_header_line(x + "\n"@),
    ensures
        line_output(x + "\n"@, Seq::<Status>::empty()) == x + "\n"@,
{
    reveal_strlit("\n");
    let line = x + "\n"@;
    assert(line.last() == '\n');
    assert(line.drop_last() =~= x);
    if x.len() == 0 {
        assert(line.skip(1) =~= Seq::<char>::empty());
        assert(trim_start(Seq::<char>::empty()) =~= Seq::<char>::empty());
        assert(trim_start(line) =~= Seq::<char>::empty()) by {
            assert(white_space(line[0]));
        }
        assert(trim(line) =~= Seq::<char>::empty());
    } else {
        assert(trim_start(line) == line);
        assert(trim_end(line) == trim_end(x));
        assert(trim(line) == x);
        if has_comma(x) {
            assert(","@ + x.skip(1) =~= x) by {
                reveal_strlit(",");
            }
        }
    }
}

/// With blocks, the line comes out as an array that opens with the blocks'
/// objects, joined by commas in the order given, followed by the line's own
/// elements.
pub proof fn lemma_blocks_first(line: Seq<char>, sts: Seq<Status>, extra: Status)
    requires
        !is_header_line(line),
        sts.len() > 0,
    ensures
        ({
            let t = trim(line);
            let rest = drop_first(without_comma(t));
            let body = if closes_at_once(rest) {
                "["@ + join_json(sts) + rest
            } else {
                "["@ + join_json(sts) + ","@ + rest
            };
            line_output(line, sts) == if has_comma(t) {
                ","@ + body + "\n"@
            } else {
                body + "\n"@
            }
        }),
        join_json(sts.push(extra)) == join_json(sts) + ","@ + extra.json(),
        join_json(seq![extra]) == extra.json(),
{
    assert(sts.push(extra).drop_last() =~= sts);
}

/// Header lines pass through unchanged, whatever the providers produce, so
/// feeding one twice echoes it twice.
pub proof fn lemma_header_echo(line: Seq<char>, first: Seq<Status>, second: Seq<Status>)
    requires
        is_header_line(line),
    ensures
        line_output(line, first) == line,
        line_output(line, first) + line_output(line, second) == line + line,
{
}

/// The bare `[` that opens the array stream is a header, with or without
/// its line feed, so it is echoed unchanged each time it comes.
pub proof fn lemma_bracket_echo(first: Seq<Status>, second: Seq<Status>)
    ensures
        is_header_line("["@),
        is_header_line("[\n"@),
        line_output("[\n"@, first) + line_output("[\n"@, second) == "[\n"@ + "[\n"@,
        line_output("["@, first) + line_output("["@, second) == "["@ + "["@,
{
    reveal_strlit("[");
    reveal_strlit("[\n");
    let b = "["@;
    let l = "[\n"@;
    assert(!white_space('['));
    assert(white_space('\n'));
    assert(b.skip(1) =~= Seq::<char>::empty());
    assert(trim_start(b) == b);
    assert(b.drop_last() =~= Seq::<char>::empty());
    assert(trim_end(Seq::<char>::empty()) =~= Seq::<char>::empty());
    assert(trim_end(b) == b);
    assert(trim_start(l) == l);
    assert(l.drop_last() =~= b);
    assert(trim_end(l) == trim_end(b));
    lemma_header_echo(b, first, second);
    lemma_header_echo(l, first, second);
}

} // verus!
