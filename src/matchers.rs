use vstd::prelude::*;
use crate::text::{chars_of, string_of};

verus! {

/// Whether `s` ends with `suffix`.
pub open spec fn ends_with(s: Seq<char>, suffix: Seq<char>) -> bool {
    suffix.len() <= s.len() && s.subrange(s.len() - suffix.len(), s.len() as int) == suffix
}

/// Whether `s` starts with `prefix`.
pub open spec fn starts_with(s: Seq<char>, prefix: Seq<char>) -> bool {
    prefix.len() <= s.len() && s.subrange(0, prefix.len() as int) == prefix
}

/// `s` with every occurrence of `pat` taken out, scanning from the left.
pub open spec fn remove_all(s: Seq<char>, pat: Seq<char>) -> Seq<char>
    decreases s.len(),
{
    if s.len() == 0 {
        Seq::empty()
    } else if pat.len() > 0 && starts_with(s, pat) {
        remove_all(s.skip(pat.len() as int), pat)
    } else {
        seq![s[0]] + remove_all(s.skip(1), pat)
    }
}

/// The code point of a character with ASCII upper-case letters taken to
/// lower case.
pub open spec fn ascii_lower(c: char) -> u32 {
    if 'A' <= c && c <= 'Z' {
        (c as u32 + 32) as u32
    } else {
        c as u32
    }
}

/// Whether `a` and `b` are equal when case is ignored.
pub open spec fn eq_ignore_case(a: Seq<char>, b: Seq<char>) -> bool {
    a.len() == b.len() && forall|i: int| 0 <= i < a.len() ==> ascii_lower(#[trigger] a[i]) == ascii_lower(b[i])
}

/// The decoration that one player appends to its window titles.
pub open spec fn supersonic_suffix() -> Seq<char> {
    " · Supersonic"@
}

/// Window class prefix of the other player.
pub open spec fn spotify_class() -> Seq<char> {
    "spotify"@
}

/// Titles that the player shows while nothing plays.
pub open spec fn is_idle_title(t: Seq<char>) -> bool {
    eq_ignore_case(t, "spotify"@) || eq_ignore_case(t, "spotify premium"@)
}

pub open spec fn supersonic_matches(title: Seq<char>) -> bool {
    ends_with(title, supersonic_suffix())
}

pub open spec fn spotify_matches(title: Seq<char>, class: Seq<char>) -> bool {
    title.len() > 0 && !is_idle_title(title) && starts_with(class, spotify_class())
}

/// The title that the matcher chain extracts from a window, if any: the first
/// matcher that fires decides, and its cleaner shapes the result.
pub open spec fn matched_title(title: Seq<char>, class: Seq<char>) -> Option<Seq<char>> {
    if supersonic_matches(title) {
        Some(remove_all(title, supersonic_suffix()))
    } else if spotify_matches(title, class) {
        Some(title)
    } else {
        None
    }
}

fn seq_ends_with(s: &Vec<char>, suffix: &Vec<char>) -> (r: bool)
    ensures
        r == ends_with(s@, suffix@),
{
    if suffix.len() > s.len() {
        return false;
    }
    let off = s.len() - suffix.len();
    let mut i: usize = 0;
    while i < suffix.len()
        invariant
            off + suffix@.len() == s@.len(),
            s@.len() == s.len(),
            i <= suffix@.len(),
            forall|j: int| 0 <= j < i ==> s@[off + j] == suffix@[j],
        decreases suffix@.len() - i,
    {
        if s[off + i] != suffix[i] {
            assert(s@.subrange(off as int, s@.len() as int)[i as int] != suffix@[i as int]);
            return false;
        }
        i = i + 1;
    }
    assert(s@.subrange(off as int, s@.len() as int) =~= suffix@);
    true
}

/// Whether `pat` occurs in `s` at position `at`.
pub(crate) fn occurs_at(s: &Vec<char>, pat: &Vec<char>, at: usize) -> (r: bool)
    requires
        at <= s@.len(),
    ensures
        r == starts_with(s@.skip(at as int), pat@),
{
    if pat.len() > s.len() - at {
        return false;
    }
    let mut i: usize = 0;
    while i < pat.len()
        invariant
            at + pat@.len() <= s@.len(),
            s@.len() == s.len(),
            i <= pat@.len(),
            forall|j: int| 0 <= j < i ==> s@[at + j] == pat@[j],
        decreases pat@.len() - i,
    {
        if s[at + i] != pat[i] {
            assert(s@.skip(at as int).subrange(0, pat@.len() as int)[i as int] != pat@[i as int]);
            return false;
        }
        i = i + 1;
    }
    assert(s@.skip(at as int).subrange(0, pat@.len() as int) =~= pat@);
    true
}

fn ascii_lower_char(c: char) -> (r: u32)
    ensures
        r == ascii_lower(c),
{
    if 'A' <= c && c <= 'Z' {
        c as u32 + 32
    } else {
        c as u32
    }
}

fn seq_eq_ignore_case(a: &Vec<char>, b: &Vec<char>) -> (r: bool)
    ensures
        r == eq_ignore_case(a@, b@),
{
    if a.len() != b.len() {
        return false;
    }
    let mut i: usize = 0;
    while i < a.len()
        invariant
            a@.len() == b@.len(),
            i <= a@.len(),
            forall|j: int| 0 <= j < i ==> ascii_lower(#[trigger] a@[j]) == ascii_lower(b@[j]),
        decreases a@.len() - i,
    {
        if ascii_lower_char(a[i]) != ascii_lower_char(b[i]) {
            return false;
        }
        i = i + 1;
    }
    true
}

/// Fires on titles that carry the Supersonic decoration.
pub fn supersonic_matcher(title: &str, _class: &str) -> (r: bool)
    ensures
        r == supersonic_matches(title@),
{
    let t = chars_of(title);
    let suffix = chars_of(" · Supersonic");
    seq_ends_with(&t, &suffix)
}

/// Takes the Supersonic decoration out of a title.
pub fn supersonic_cleaner(title: &str) -> (r: String)
    ensures
        r@ == remove_all(title@, supersonic_suffix()),
{
    let t = chars_of(title);
    let pat = chars_of(" · Supersonic");
    proof {
        reveal_strlit(" · Supersonic");
    }
    let mut out: Vec<char> = Vec::new();
    let mut i: usize = 0;
    assert(t@.skip(0) =~= t@);
    assert(out@ + t@ =~= t@);
    while i < t.len()
        invariant
            pat@ == supersonic_suffix(),
            pat@.len() > 0,
            i <= t@.len(),
            remove_all(t@, pat@) == out@ + remove_all(t@.skip(i as int), pat@),
        decreases t@.len() - i,
    {
        let ghost rest = t@.skip(i as int);
        if occurs_at(&t, &pat, i) {
            assert(rest.skip(pat@.len() as int) =~= t@.skip(i + pat@.len()));
            i = i + pat.len();
        } else {
            assert(rest.skip(1) =~= t@.skip(i + 1));
            assert(rest[0] == t@[i as int]);
            out.push(t[i]);
            i = i + 1;
            assert(remove_all(t@, pat@) =~= out@ + remove_all(t@.skip(i as int), pat@));
        }
    }
    assert(t@.skip(i as int) =~= Seq::<char>::empty());
    assert(out@ + Seq::<char>::empty() =~= out@);
    string_of(&out)
}

/// Fires on titles of a window whose class names the Spotify client, unless
/// the title is one that the client shows while idle.
pub fn spotify_matcher(title: &str, class: &str) -> (r: bool)
    ensures
        r == spotify_matches(title@, class@),
{
    let t = chars_of(title);
    if t.len() == 0 {
        return false;
    }
    let premium = chars_of("spotify premium");
    if seq_eq_ignore_case(&t, &premium) {
        return false;
    }
    let plain = chars_of("spotify");
    if seq_eq_ignore_case(&t, &plain) {
        return false;
    }
    let c = chars_of(class);
    assert(c@.skip(0) =~= c@);
    occurs_at(&c, &plain, 0)
}

/// A Spotify title needs no cleaning.
pub fn spotify_cleaner(title: &str) -> (r: String)
    ensures
        r@ == title@,
{
    String::from_str(title)
}

/// Runs the matcher chain on a window's title and class.
pub fn match_title(title: &str, class: &str) -> (r: Option<String>)
    ensures
        r matches Some(s) ==> matched_title(title@, class@) == Some(s@),
        r is None <==> matched_title(title@, class@) is None,
{
    if supersonic_matcher(title, class) {
        return Some(supersonic_cleaner(title));
    }
    if spotify_matcher(title, class) {
        return Some(spotify_cleaner(title));
    }
    None
}

/// Titles that Spotify shows while idle never yield a song title, whatever
/// the window class.
pub proof fn lemma_idle_titles_never_match(title: Seq<char>, class: Seq<char>)
    requires
        is_idle_title(title),
    ensures
        matched_title(title, class) is None,
{
    reveal_strlit(" · Supersonic");
    reveal_strlit("spotify");
    reveal_strlit("spotify premium");
    if supersonic_matches(title) {
        assert(title.len() == 15);
        assert(title.subrange(2, 15)[0] == ' ');
        assert(ascii_lower(title[2]) == ascii_lower("spotify premium"@[2]));
    }
}

} // verus!
