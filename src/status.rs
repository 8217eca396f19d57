use vstd::prelude::*;
use crate::text::{chars_of, push_char};

verus! {

/// How a status bar renders the text of a block.
#[derive(Clone, Copy, Debug, PartialEq, Eq, Structural)]
pub enum Markup {
    Plain,
    Pango,
}

/// The wire name of a markup kind.
pub open spec fn markup_name(m: Markup) -> Seq<char> {
    match m {
        Markup::Plain => seq!['n', 'o', 'n', 'e'],
        Markup::Pango => seq!['p', 'a', 'n', 'g', 'o'],
    }
}

impl Markup {
    /// The name under which this markup kind travels on the wire.
    pub fn name(&self) -> (r: String)
        ensures
            r@ == markup_name(*self),
    {
        let mut s = String::new();
        match self {
            Markup::Plain => {
                push_char(&mut s, 'n');
                push_char(&mut s, 'o');
                push_char(&mut s, 'n');
                push_char(&mut s, 'e');
            },
            Markup::Pango => {
                push_char(&mut s, 'p');
                push_char(&mut s, 'a');
                push_char(&mut s, 'n');
                push_char(&mut s, 'g');
                push_char(&mut s, 'o');
            },
        }
        assert(s@ =~= markup_name(*self));
        s
    }
}

/// One block that a provider contributes to a status line.
pub struct Status {
    pub name: String,
    pub full_text: String,
    pub short_text: String,
    pub markup: Markup,
}

/// A character as it appears inside a JSON string literal: backslash and
/// double quote get a leading backslash, everything else stands as it is.
pub open spec fn escape_char(c: char) -> Seq<char> {
    if c == '\\' || c == '"' {
        seq!['\\', c]
    } else {
        seq![c]
    }
}

/// The text `s` with every backslash and double quote escaped.
pub open spec fn escape(s: Seq<char>) -> Seq<char>
    decreases s.len(),
{
    if s.len() == 0 {
        Seq::empty()
    } else {
        escape_char(s[0]) + escape(s.skip(1))
    }
}

/// Reads back an escaped text: a backslash stands for the character after it.
pub open spec fn unescape(s: Seq<char>) -> Seq<char>
    decreases s.len(),
{
    if s.len() == 0 {
        Seq::empty()
    } else if s[0] == '\\' && s.len() >= 2 {
        seq![s[1]] + unescape(s.skip(2))
    } else {
        seq![s[0]] + unescape(s.skip(1))
    }
}

/// A JSON string literal holding `s`.
pub open spec fn quoted(s: Seq<char>) -> Seq<char> {
    seq!['"'] + escape(s) + seq!['"']
}

/// The JSON object that stands for a status block on the wire.
pub open spec fn status_json(name: Seq<char>, full: Seq<char>, short: Seq<char>, m: Markup) -> Seq<char> {
    "{\"name\": "@ + quoted(name) + ",\"full_text\": "@ + quoted(full) + ",\"short_text\":"@
        + quoted(short) + ",\"markup\": "@ + quoted(markup_name(m)) + "}"@
}

impl Status {
    pub open spec fn json(&self) -> Seq<char> {
        status_json(self.name@, self.full_text@, self.short_text@, self.markup)
    }

    /// This block as a JSON object, every text field escaped.
    pub fn to_json(&self) -> (r: String)
        ensures
            r@ == self.json(),
    {
        let mut out = String::from_str("{\"name\": ");
        push_quoted(&mut out, self.name.as_str());
        out.append(",\"full_text\": ");
        push_quoted(&mut out, self.full_text.as_str());
        out.append(",\"short_text\":");
        push_quoted(&mut out, self.short_text.as_str());
        out.append(",\"markup\": ");
        let m = self.markup.name();
        push_quoted(&mut out, m.as_str());
        out.append("}");
        out
    }
}

/// Appends `s` to `out` as a JSON string literal.
fn push_quoted(out: &mut String, s: &str)
    ensures
        final(out)@ == old(out)@ + quoted(s@),
{
    let cs = chars_of(s);
    push_char(out, '"');
    let ghost start = out@;
    let mut i: usize = 0;
    while i < cs.len()
        invariant
            i <= cs@.len(),
            out@ == start + escape(cs@.subrange(0, i as int)),
        decreases cs@.len() - i,
    {
        let c = cs[i];
        if c == '\\' || c == '"' {
            push_char(out, '\\');
        }
        push_char(out, c);
        proof {
            assert(cs@.subrange(0, i as int + 1) =~= cs@.subrange(0, i as int).push(c));
            lemma_escape_push(cs@.subrange(0, i as int), c);
        }
        i = i + 1;
        assert(out@ =~= start + escape(cs@.subrange(0, i as int)));
    }
    assert(cs@.subrange(0, cs@.len() as int) =~= cs@);
    push_char(out, '"');
    assert(out@ =~= old(out)@ + quoted(s@));
}

/// Escaping one more character appends its escaped form.
proof fn lemma_escape_push(s: Seq<char>, c: char)
    ensures
        escape(s.push(c)) == escape(s) + escape_char(c),
    decreases s.len(),
{
    if s.len() == 0 {
        assert(s.push(c).skip(1) =~= Seq::<char>::empty());
        assert(escape(Seq::<char>::empty()) =~= Seq::<char>::empty());
        assert(s.push(c)[0] == c);
        assert(escape(s.push(c)) =~= escape_char(c));
    } else {
        assert(s.push(c).skip(1) =~= s.skip(1).push(c));
        lemma_escape_push(s.skip(1), c);
        assert(escape(s.push(c)) =~= escape(s) + escape_char(c));
    }
}

/// Escaping backslashes and double quotes can be undone: reading the
/// escaped text back gives the original text.
pub proof fn lemma_escape_round_trip(s: Seq<char>)
    ensures
        unescape(escape(s)) == s,
    decreases s.len(),
{
    if s.len() > 0 {
        let e = escape(s);
        let rest = escape(s.skip(1));
        lemma_escape_round_trip(s.skip(1));
        if s[0] == '\\' || s[0] == '"' {
            assert(e.skip(2) =~= rest);
        } else {
            assert(e.skip(1) =~= rest);
        }
        assert(unescape(e) =~= s);
    }
}

} // verus!
