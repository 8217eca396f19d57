use vstd::prelude::*;
use crate::status::{Markup, Status};
use crate::text::{chars_of, push_char, string_of};

verus! {

/// Most windows whose properties one search fetches; a deeper or wider
/// tree is cut off there and yields no title.
pub const MAX_WINDOWS: u64 = 4096;

/// The spinner symbol shown at a given frame.
pub open spec fn frame_symbol(frame: nat) -> char {
    if frame == 0 {
        '|'
    } else if frame == 1 {
        '/'
    } else if frame == 2 {
        '-'
    } else {
        '\\'
    }
}

fn frame_char(frame: usize) -> (r: char)
    ensures
        r == frame_symbol(frame as nat),
{
    if frame == 0 {
        '|'
    } else if frame == 1 {
        '/'
    } else if frame == 2 {
        '-'
    } else {
        '\\'
    }
}

/// The index of the first " - " in `s` at or after `i`.
pub open spec fn find_dash(s: Seq<char>, i: int) -> Option<int>
    decreases s.len() - i,
{
    if i < 0 || i + 3 > s.len() {
        None
    } else if s[i] == ' ' && s[i + 1] == '-' && s[i + 2] == ' ' {
        Some(i)
    } else {
        find_dash(s, i + 1)
    }
}

/// A title cut at its first " - ", or the whole title where it has none.
pub open spec fn short_title(s: Seq<char>) -> Seq<char> {
    match find_dash(s, 0) {
        Some(k) => s.subrange(0, k),
        None => s,
    }
}

/// A title between two spinner symbols, the title itself in bold orange.
pub open spec fn wrapped(content: Seq<char>, symbol: char) -> Seq<char> {
    "🎵 ("@ + seq![symbol] + ") <span foreground=\"#FF9900\" font_weight=\"bold\">"@ + content
        + "</span> ("@ + seq![symbol] + ") 🎵"@
}

/// The part of a title before its first " - ".
pub fn title_head(title: &str) -> (r: String)
    ensures
        r@ == short_title(title@),
{
    let s = chars_of(title);
    let mut i: usize = 0;
    while i < s.len() && s.len() - i >= 3
        invariant
            s@ == title@,
            i <= s@.len(),
            s@.len() == s.len(),
            find_dash(s@, 0) == find_dash(s@, i as int),
        decreases s@.len() - i,
    {
        if s[i] == ' ' && s[i + 1] == '-' && s[i + 2] == ' ' {
            let mut head: Vec<char> = Vec::new();
            let mut j: usize = 0;
            while j < i
                invariant
                    j <= i < s@.len(),
                    head@ == s@.subrange(0, j as int),
                decreases i - j,
            {
                head.push(s[j]);
                j = j + 1;
            }
            assert(find_dash(s@, i as int) == Some(i as int));
            return string_of(&head);
        }
        i = i + 1;
    }
    assert(find_dash(s@, i as int) is None);
    String::from_str(title)
}

/// Decorates a title with the spinner symbol on both sides.
pub fn wrap_in_tags(content: String, symbol: char) -> (r: String)
    ensures
        r@ == wrapped(content@, symbol),
{
    let mut out = String::from_str("🎵 (");
    push_char(&mut out, symbol);
    out.append(") <span foreground=\"#FF9900\" font_weight=\"bold\">");
    out.append(content.as_str());
    out.append("</span> (");
    push_char(&mut out, symbol);
    out.append(") 🎵");
    out
}

/// The provider that shows the song a media player's window names.
pub struct SongTitlePlugin {
    spinner_frame: usize,
}

impl SongTitlePlugin {
    #[verifier::type_invariant]
    spec fn frame_in_range(&self) -> bool {
        self.spinner_frame < 4
    }

    /// The spinner frame shown now, one of four.
    pub closed spec fn frame(&self) -> nat {
        self.spinner_frame as nat
    }

    pub open spec fn name() -> Seq<char> {
        "song_name"@
    }

    /// A provider whose spinner stands at its first frame.
    pub fn new() -> (r: Self)
        ensures
            r.frame() == 0,
    {
        SongTitlePlugin { spinner_frame: 0 }
    }

    /// The spinner frame shown now.
    pub fn spinner_frame(&self) -> (r: usize)
        ensures
            r == self.frame(),
            r < 4,
    {
        proof {
            use_type_invariant(self);
        }
        self.spinner_frame
    }

    /// Turns the spinner one frame on, wrapping after the fourth.
    pub fn update(&mut self)
        ensures
            final(self).frame() == (old(self).frame() + 1) % 4,
    {
        proof {
            use_type_invariant(&*self);
        }
        if self.spinner_frame + 1 >= 4 {
            self.spinner_frame = 0;
        } else {
            self.spinner_frame = self.spinner_frame + 1;
        }
    }

    /// The block for the title that a window search found, if it found one.
    pub fn get_status(&self, found: Option<String>) -> (r: Option<Status>)
        ensures
            r is None <==> found is None,
            r matches Some(st) ==> {
                let t = found->Some_0@;
                &&& st.name@ == Self::name()
                &&& st.markup == Markup::Pango
                &&& st.full_text@ == wrapped(t, frame_symbol(self.frame()))
                &&& st.short_text@ == wrapped(short_title(t), frame_symbol(self.frame()))
            },
    {
        match found {
            None => None,
            Some(title) => {
                let symbol = frame_char(self.spinner_frame);
                let short = title_head(title.as_str());
                Some(
                    Status {
                        name: String::from_str("song_name"),
                        markup: Markup::Pango,
                        full_text: wrap_in_tags(title, symbol),
                        short_text: wrap_in_tags(short, symbol),
                    },
                )
            },
        }
    }
}

impl Default for SongTitlePlugin {
    fn default() -> (r: Self)
        ensures
            r.frame() == 0,
    {
        SongTitlePlugin::new()
    }
}

} // verus!
