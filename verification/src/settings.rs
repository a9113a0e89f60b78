//! Reads the root project name back out of a settings script.

use vstd::prelude::*;
use crate::script::{escape, escape_char, quoted, settings_prefix, settings_text};
use crate::text::{chars_of, slice_occurs_at, starts_with};

verus! {

/// The character an escape sequence stands for, given the character after
/// the backslash.
pub open spec fn unescape_char(c: char) -> Option<char> {
    if c == '\\' || c == '"' || c == '$' {
        Some(c)
    } else if c == 'n' {
        Some('\n')
    } else if c == 'r' {
        Some('\r')
    } else if c == 't' {
        Some('\t')
    } else {
        None
    }
}

/// Puts `front` before the value of a reading.
pub open spec fn prepend(front: Seq<char>, reading: Option<(Seq<char>, Seq<char>)>) -> Option<
    (Seq<char>, Seq<char>),
> {
    match reading {
        Some((value, rest)) => Some((front + value, rest)),
        None => None,
    }
}

/// Reads a string literal from just after its opening quote: the text it
/// stands for and what follows its closing quote. `None` where the literal
/// is not closed or holds an unknown escape sequence.
pub open spec fn literal_body(s: Seq<char>) -> Option<(Seq<char>, Seq<char>)>
    decreases s.len(),
{
    if s.len() == 0 {
        None
    } else if s[0] == '"' {
        Some((Seq::empty(), s.subrange(1, s.len() as int)))
    } else if s[0] == '\\' {
        if s.len() < 2 {
            None
        } else {
            match unescape_char(s[1]) {
                Some(c) => prepend(seq![c], literal_body(s.subrange(2, s.len() as int))),
                None => None,
            }
        }
    } else {
        prepend(seq![s[0]], literal_body(s.subrange(1, s.len() as int)))
    }
}

/// The root project name a settings script declares: the script must be the
/// fixed prefix followed by one string literal and nothing else.
pub open spec fn root_project_name(settings: Seq<char>) -> Option<Seq<char>> {
    let opening = settings_prefix() + seq!['"'];
    if starts_with(settings, opening) {
        match literal_body(settings.subrange(opening.len() as int, settings.len() as int)) {
            Some((value, rest)) => if rest.len() == 0 {
                Some(value)
            } else {
                None
            },
            None => None,
        }
    } else {
        None
    }
}

/// Reading an escaped text that is followed by a closing quote gives the
/// text back, together with what follows the quote.
pub proof fn lemma_literal_body_of_escape(s: Seq<char>, rest: Seq<char>)
    ensures
        literal_body(escape(s) + seq!['"'] + rest) == Some((s, rest)),
    decreases s.len(),
{
    let whole = escape(s) + seq!['"'] + rest;
    if s.len() == 0 {
        assert(whole.subrange(1, whole.len() as int) == rest);
    } else {
        let tail = s.subrange(1, s.len() as int);
        let after = escape(tail) + seq!['"'] + rest;
        lemma_literal_body_of_escape(tail, rest);
        let head = escape_char(s[0]);
        assert(whole == head + after);
        assert(whole.subrange(head.len() as int, whole.len() as int) == after);
        assert(seq![s[0]] + tail == s);
    }
}

/// Reading the settings script of a name gives the name back.
pub proof fn lemma_root_project_name_round_trip(name: Seq<char>)
    ensures
        root_project_name(settings_text(name)) == Some(name),
{
    let opening = settings_prefix() + seq!['"'];
    let text = settings_text(name);
    let body = escape(name) + seq!['"'] + Seq::<char>::empty();
    assert(text == opening + body);
    assert(text.subrange(0, opening.len() as int) == opening);
    assert(text.subrange(opening.len() as int, text.len() as int) == body);
    lemma_literal_body_of_escape(name, Seq::empty());
}

/// Decodes the character after a backslash.
pub fn decode_escape(c: char) -> (r: Option<char>)
    ensures
        r == unescape_char(c),
{
    if c == '\\' || c == '"' || c == '$' {
        Some(c)
    } else if c == 'n' {
        Some('\n')
    } else if c == 'r' {
        Some('\r')
    } else if c == 't' {
        Some('\t')
    } else {
        None
    }
}

/// Reads the root project name out of a settings script, or `None` where the
/// text is not a settings script.
pub fn read_root_project_name(settings: &str) -> (r: Option<String>)
    ensures
        match r {
            Some(name) => root_project_name(settings@) == Some(name@),
            None => root_project_name(settings@) is None,
        },
{
    let chars = chars_of(settings);
    let mut opening = chars_of("rootProject.name = ");
    opening.push('"');
    assert(opening@ == settings_prefix() + seq!['"']);
    if !slice_occurs_at(&chars, &opening, 0) {
        return None;
    }
    let ghost body = chars@.subrange(opening@.len() as int, chars@.len() as int);
    let mut name = String::new();
    let mut i: usize = opening.len();
    assert(prepend(name@, literal_body(body)) == literal_body(body)) by {
        match literal_body(body) {
            Some((value, rest)) => {
                assert(Seq::<char>::empty() + value == value);
            },
            None => {},
        }
    }
    while i < chars.len()
        invariant
            chars@ == settings@,
            opening@ == settings_prefix() + seq!['"'],
            starts_with(chars@, opening@),
            body == chars@.subrange(opening@.len() as int, chars@.len() as int),
            opening.len() <= i <= chars.len(),
            prepend(name@, literal_body(chars@.subrange(i as int, chars@.len() as int)))
                == literal_body(body),
        decreases chars.len() - i,
    {
        let ghost here = chars@.subrange(i as int, chars@.len() as int);
        let ghost before = name@;
        let c = chars[i];
        assert(here[0] == c);
        if c == '"' {
            assert(here.subrange(1, here.len() as int).len() == chars.len() - i - 1);
            assert(before + Seq::<char>::empty() == before);
            if i + 1 == chars.len() {
                return Some(name);
            } else {
                return None;
            }
        }
        if c == '\\' {
            if i + 1 >= chars.len() {
                return None;
            }
            assert(here[1] == chars@[i + 1]);
            match decode_escape(chars[i + 1]) {
                Some(d) => {
                    name.push(d);
                    proof {
                        let next = chars@.subrange(i + 2, chars@.len() as int);
                        assert(here.subrange(2, here.len() as int) == next);
                        match literal_body(next) {
                            Some((value, rest)) => {
                                assert(before + (seq![d] + value) == before.push(d) + value);
                            },
                            None => {},
                        }
                    }
                    i += 2;
                },
                None => {
                    return None;
                },
            }
        } else {
            name.push(c);
            proof {
                let next = chars@.subrange(i + 1, chars@.len() as int);
                assert(here.subrange(1, here.len() as int) == next);
                match literal_body(next) {
                    Some((value, rest)) => {
                        assert(before + (seq![c] + value) == before.push(c) + value);
                    },
                    None => {},
                }
            }
            i += 1;
        }
    }
    assert(chars@.subrange(i as int, chars@.len() as int).len() == 0);
    None
}

} // verus!
