//! Runs of characters in a text.

use vstd::prelude::*;

verus! {

/// A letter `A` to `Z` in lower case, and any other character as it is.
pub open spec fn lower_char(c: char) -> char {
    if 'A' <= c <= 'Z' {
        (c as u32 + 32) as char
    } else {
        c
    }
}

/// A text with its letters `A` to `Z` in lower case.
pub open spec fn lower(text: Seq<char>) -> Seq<char> {
    text.map_values(|c: char| lower_char(c))
}

/// Puts a letter `A` to `Z` into lower case.
pub(crate) fn in_lower_case(c: char) -> (res: char)
    ensures
        res == lower_char(c),
{
    if 'A' <= c && c <= 'Z' {
        (c as u8 + 32) as char
    } else {
        c
    }
}

/// A class of characters.
#[derive(Clone, Copy)]
pub enum CharClass {
    /// A space or a control character before it.
    Blank,
    /// Anything but a colon.
    NotColon,
    /// A slash or a backslash.
    Slash,
    /// Anything that does not end the authority of a URL.
    Authority,
    /// A space.
    Space,
    /// A double quote.
    Quote,
    /// Anything but a double quote.
    NotQuote,
    /// A letter or digit that the name of a media type may start with.
    NameStart,
    /// A character that the name of a media type may go on with.
    Name,
}

/// Whether a character is a letter `A` to `Z`, in either case, or a digit.
pub open spec fn is_name_start(c: char) -> bool {
    'a' <= c <= 'z' || 'A' <= c <= 'Z' || '0' <= c <= '9'
}

impl CharClass {
    /// Whether a character is of this class.
    pub open spec fn has(self, c: char) -> bool {
        match self {
            CharClass::Blank => c <= ' ',
            CharClass::NotColon => c != ':',
            CharClass::Slash => c == '/' || c == '\\',
            CharClass::Authority => c != '/' && c != '\\' && c != '?' && c != '#',
            CharClass::Space => c == ' ',
            CharClass::Quote => c == '"',
            CharClass::NotQuote => c != '"',
            CharClass::NameStart => is_name_start(c),
            CharClass::Name => is_name_start(c) || c == '!' || c == '#' || c == '$' || c == '&' || c
                == '-' || c == '^' || c == '.' || c == '+' || c == '_',
        }
    }

    /// Tells whether a character is of this class.
    pub(crate) fn holds(self, c: char) -> (res: bool)
        ensures
            res == self.has(c),
    {
        let start = ('a' <= c && c <= 'z') || ('A' <= c && c <= 'Z') || ('0' <= c && c <= '9');
        match self {
            CharClass::Blank => c <= ' ',
            CharClass::NotColon => c != ':',
            CharClass::Slash => c == '/' || c == '\\',
            CharClass::Authority => c != '/' && c != '\\' && c != '?' && c != '#',
            CharClass::Space => c == ' ',
            CharClass::Quote => c == '"',
            CharClass::NotQuote => c != '"',
            CharClass::NameStart => start,
            CharClass::Name => start || c == '!' || c == '#' || c == '$' || c == '&' || c == '-'
                || c == '^' || c == '.' || c == '+' || c == '_',
        }
    }
}

/// Where the run of characters of a class that starts at `from` ends.
pub open spec fn run(text: Seq<char>, from: int, class: CharClass) -> int
    decreases text.len() - from,
{
    if 0 <= from < text.len() && class.has(text[from]) {
        run(text, from + 1, class)
    } else {
        from
    }
}

/// A run does not end before it starts, nor after the end of the text.
pub proof fn lemma_run_bounds(text: Seq<char>, from: int, class: CharClass)
    ensures
        from <= run(text, from, class),
        from <= text.len() ==> run(text, from, class) <= text.len(),
    decreases text.len() - from,
{
    if 0 <= from < text.len() && class.has(text[from]) {
        lemma_run_bounds(text, from + 1, class);
    }
}

/// Finds where the run of characters of a class that starts at `from` ends.
pub(crate) fn run_end(text: &Vec<char>, from: usize, class: CharClass) -> (res: usize)
    requires
        from <= text.len(),
    ensures
        res == run(text@, from as int, class),
        from <= res <= text.len(),
{
    let mut at: usize = from;
    while at < text.len() && class.holds(text[at])
        invariant
            from <= at <= text.len(),
            run(text@, at as int, class) == run(text@, from as int, class),
        decreases text.len() - at,
    {
        at = at + 1;
    }
    at
}

/// The characters of a text, one by one.
pub(crate) fn chars_of(text: &str) -> (res: Vec<char>)
    ensures
        res@ == text@,
{
    let mut chars: Vec<char> = Vec::new();
    for c in iter: text.chars()
        invariant
            iter.seq() == text@,
            chars@ == text@.take(iter.index()),
    {
        chars.push(c);
    }
    chars
}

} // verus!
