//! Which lines hold a media type that can be read, told character by character.

use crate::headers::{at_boundary, parameters_cut, parameters_start, HeaderMap};
use crate::text::{lemma_run_bounds, lower, run, CharClass};
use vstd::prelude::*;

verus! {

/// Whether a character is a letter or a digit.
pub open spec fn is_alphanumeric(c: char) -> bool {
    ||| 'a' <= c <= 'z'
    ||| 'A' <= c <= 'Z'
    ||| '0' <= c <= '9'
}

/// Whether a character may stand in a name behind its first.
pub open spec fn is_restricted(c: char) -> bool {
    is_alphanumeric(c) || seq!['!', '#', '$', '&', '-', '^', '.', '+', '_'].contains(c)
}

/// Reads the top-level name of a media type from `i` on: where the subtype starts.
pub open spec fn top_read(text: Seq<char>, i: int) -> Option<int>
    decreases text.len() - i,
{
    if i < 0 || i >= text.len() {
        None
    } else if i == 0 && is_alphanumeric(text[i]) || i > 0 && is_restricted(text[i]) {
        top_read(text, i + 1)
    } else if i > 0 && text[i] == '/' {
        Some(i + 1)
    } else {
        None
    }
}

/// Reads the subtype that starts at `start` from `i` on: where the parameters start.
pub open spec fn subtype_read(text: Seq<char>, i: int, start: int, starred: bool) -> Option<int>
    decreases text.len() - i,
{
    if i < 0 || i >= text.len() {
        None
    } else if i == start && text[i] == '*' {
        subtype_read(text, i + 1, start, true)
    } else if i == start && is_alphanumeric(text[i]) || i > start && !starred && is_restricted(text[i]) {
        subtype_read(text, i + 1, start, starred)
    } else if i > start && text[i] == ';' {
        Some(i + 1)
    } else {
        None
    }
}

/// Reads the attribute that starts at `start` from `i` on: whether all that is cut out of
/// the line is cut between characters.
pub open spec fn attribute_read(text: Seq<char>, line: Seq<u8>, i: int, start: int) -> bool
    decreases text.len() - i,
{
    if i < 0 || i >= text.len() {
        true
    } else if i == start && text[i] == ' ' {
        attribute_read(text, line, i + 1, i + 1)
    } else if i == start && is_alphanumeric(text[i]) || i > start && is_restricted(text[i]) {
        attribute_read(text, line, i + 1, start)
    } else if i > start && text[i] == '=' {
        at_boundary(line, start) && at_boundary(line, i) && value_read(text, line, i + 1, i + 1, false)
    } else {
        true
    }
}

/// Reads the value that starts at `start` from `i` on: whether all that is cut out of the
/// line is cut between characters.
pub open spec fn value_read(text: Seq<char>, line: Seq<u8>, i: int, start: int, quoted: bool) -> bool
    decreases text.len() - i,
{
    if i < 0 || i >= text.len() {
        at_boundary(line, start)
    } else if i == start && text[i] == '"' {
        value_read(text, line, i + 1, i + 1, true)
    } else if i == start && is_alphanumeric(text[i]) {
        value_read(text, line, i + 1, start, quoted)
    } else if i > start && quoted && text[i] == '"' {
        at_boundary(line, start) && at_boundary(line, i) && attribute_read(text, line, i + 1, i + 1)
    } else if i > start && quoted || is_restricted(text[i]) {
        value_read(text, line, i + 1, start, quoted)
    } else if i > start && text[i] == ';' {
        at_boundary(line, start) && at_boundary(line, i) && attribute_read(text, line, i + 1, i + 1)
    } else {
        true
    }
}

/// The characters of names are those of the class.
proof fn lemma_names(c: char)
    ensures
        is_alphanumeric(c) <==> CharClass::NameStart.has(c),
        is_restricted(c) <==> CharClass::Name.has(c),
        is_restricted(c) ==> c != ' ' && c != '=' && c != '"' && c != ';' && c != '/' && c != '*',
{
    let others = seq!['!', '#', '$', '&', '-', '^', '.', '+', '_'];
    assert(others[0] == '!' && others[1] == '#' && others[2] == '$' && others[3] == '&' && others[4]
        == '-' && others[5] == '^' && others[6] == '.' && others[7] == '+' && others[8] == '_');
    if CharClass::Name.has(c) && !is_alphanumeric(c) {
        assert(others.contains(c));
    }
}

proof fn lemma_top_name(text: Seq<char>, i: int)
    requires
        0 < i,
    ensures
        top_read(text, i) == top_read(text, run(text, i, CharClass::Name)),
    decreases text.len() - i,
{
    if i < text.len() {
        lemma_names(text[i]);
        if CharClass::Name.has(text[i]) {
            lemma_top_name(text, i + 1);
        }
    }
}

proof fn lemma_subtype_name(text: Seq<char>, i: int, start: int)
    requires
        0 <= start < i,
    ensures
        subtype_read(text, i, start, false) == subtype_read(
            text,
            run(text, i, CharClass::Name),
            start,
            false,
        ),
    decreases text.len() - i,
{
    if i < text.len() {
        lemma_names(text[i]);
        if CharClass::Name.has(text[i]) {
            lemma_subtype_name(text, i + 1, start);
        }
    }
}

proof fn lemma_spaces(text: Seq<char>, line: Seq<u8>, i: int)
    requires
        0 <= i,
    ensures
        ({
            let end = run(text, i, CharClass::Space);
            attribute_read(text, line, i, i) == attribute_read(text, line, end, end)
        }),
    decreases text.len() - i,
{
    if i < text.len() && text[i] == ' ' {
        lemma_spaces(text, line, i + 1);
    }
}

proof fn lemma_attribute_name(text: Seq<char>, line: Seq<u8>, i: int, start: int)
    requires
        0 <= start < i,
    ensures
        attribute_read(text, line, i, start) == attribute_read(
            text,
            line,
            run(text, i, CharClass::Name),
            start,
        ),
    decreases text.len() - i,
{
    if i < text.len() {
        lemma_names(text[i]);
        if CharClass::Name.has(text[i]) {
            lemma_attribute_name(text, line, i + 1, start);
        }
    }
}

proof fn lemma_quotes(text: Seq<char>, line: Seq<u8>, i: int, quoted: bool)
    requires
        0 <= i,
    ensures
        ({
            let end = run(text, i, CharClass::Quote);
            value_read(text, line, i, i, quoted) == value_read(text, line, end, end, quoted || end > i)
        }),
    decreases text.len() - i,
{
    if i < text.len() && text[i] == '"' {
        lemma_quotes(text, line, i + 1, true);
        lemma_run_bounds(text, i + 1, CharClass::Quote);
    }
}

proof fn lemma_value_rest(text: Seq<char>, line: Seq<u8>, i: int, start: int, quoted: bool)
    requires
        0 <= start < i,
    ensures
        ({
            let class = if quoted {
                CharClass::NotQuote
            } else {
                CharClass::Name
            };
            value_read(text, line, i, start, quoted) == value_read(
                text,
                line,
                run(text, i, class),
                start,
                quoted,
            )
        }),
    decreases text.len() - i,
{
    if i < text.len() {
        lemma_names(text[i]);
        lemma_value_rest(text, line, i + 1, start, quoted);
    }
}

proof fn lemma_parameters(text: Seq<char>, line: Seq<u8>, from: int)
    requires
        0 <= from,
    ensures
        parameters_cut(text, line, from) == attribute_read(text, line, from, from),
    decreases text.len() - from,
{
    let attribute = run(text, from, CharClass::Space);
    let equals = run(text, attribute + 1, CharClass::Name);
    let value = run(text, equals + 1, CharClass::Quote);
    let quoted = value > equals + 1;
    let class = if quoted {
        CharClass::NotQuote
    } else {
        CharClass::Name
    };
    let end = run(text, value + 1, class);
    lemma_run_bounds(text, from, CharClass::Space);
    lemma_run_bounds(text, attribute + 1, CharClass::Name);
    lemma_run_bounds(text, equals + 1, CharClass::Quote);
    lemma_run_bounds(text, value + 1, class);
    lemma_run_stops(text, from, CharClass::Space);
    lemma_run_stops(text, attribute + 1, CharClass::Name);
    lemma_run_stops(text, equals + 1, CharClass::Quote);
    lemma_run_stops(text, value + 1, class);
    lemma_spaces(text, line, from);
    if attribute < text.len() {
        lemma_names(text[attribute]);
        if is_alphanumeric(text[attribute]) {
            assert(attribute_read(text, line, attribute, attribute) == attribute_read(
                text,
                line,
                attribute + 1,
                attribute,
            ));
            lemma_attribute_name(text, line, attribute + 1, attribute);
            if equals < text.len() {
                lemma_names(text[equals]);
                if text[equals] == '=' {
                    lemma_quotes(text, line, equals + 1, false);
                    if value < text.len() {
                        lemma_names(text[value]);
                        if is_restricted(text[value]) {
                            assert(value_read(text, line, value, value, quoted) == value_read(
                                text,
                                line,
                                value + 1,
                                value,
                                quoted,
                            ));
                            lemma_value_rest(text, line, value + 1, value, quoted);
                            if end < text.len() {
                                lemma_names(text[end]);
                                lemma_parameters(text, line, end + 1);
                            }
                        }
                    }
                }
            }
        }
    }
}

/// A run stops at a character that is not of its class.
proof fn lemma_run_stops(text: Seq<char>, from: int, class: CharClass)
    requires
        0 <= from,
    ensures
        ({
            let end = run(text, from, class);
            end < text.len() ==> !class.has(text[end])
        }),
    decreases text.len() - from,
{
    if from < text.len() && class.has(text[from]) {
        lemma_run_stops(text, from + 1, class);
    }
}

proof fn lemma_start(text: Seq<char>)
    ensures
        parameters_start(text) == match top_read(text, 0) {
            Some(start) => subtype_read(text, start, start, false),
            None => None,
        },
{
    let slash = run(text, 1, CharClass::Name);
    lemma_run_bounds(text, 1, CharClass::Name);
    lemma_run_stops(text, 1, CharClass::Name);
    lemma_top_name(text, 1);
    if text.len() > 0 {
        lemma_names(text[0]);
        if is_alphanumeric(text[0]) {
            assert(top_read(text, 0) == top_read(text, 1));
            if slash < text.len() {
                lemma_names(text[slash]);
                if text[slash] == '/' {
                    let start = slash + 1;
                    assert(top_read(text, 0) == Some(start));
                    if start < text.len() {
                        lemma_names(text[start]);
                        let end = run(text, start + 1, CharClass::Name);
                        lemma_run_bounds(text, start + 1, CharClass::Name);
                        lemma_run_stops(text, start + 1, CharClass::Name);
                        lemma_subtype_name(text, start + 1, start);
                        if end < text.len() {
                            lemma_names(text[end]);
                        }
                        if text[start] == '*' {
                            assert(subtype_read(text, start, start, false) == subtype_read(
                                text,
                                start + 1,
                                start,
                                true,
                            ));
                            if start + 1 < text.len() {
                                lemma_names(text[start + 1]);
                            }
                        } else if is_alphanumeric(text[start]) {
                            assert(subtype_read(text, start, start, false) == subtype_read(
                                text,
                                start + 1,
                                start,
                                false,
                            ));
                        }
                    }
                }
            }
        }
    }
}

/// A position is between characters exactly if it is one of the line's character
/// boundaries.
pub proof fn law_boundaries_are_those_of_characters(line: Seq<u8>, position: int)
    requires
        vstd::utf8::valid_utf8(line),
        0 <= position <= line.len(),
    ensures
        at_boundary(line, position) <==> vstd::utf8::is_char_boundary(line, position),
{
    if position < line.len() {
        vstd::utf8::is_char_boundary_iff_not_is_continuation_byte(line, position);
    }
    vstd::utf8::is_char_boundary_start_end_of_seq(line);
}

/// A single line can be read exactly if it is not UTF-8, or has no parameters, or reading
/// these character by character cuts the line between characters only.
pub proof fn law_lines_are_read_by_characters(headers: HeaderMap, readable: bool)
    requires
        headers@.contains_key("content-type"@),
        headers@["content-type"@].len() == 1,
        call_ensures(HeaderMap::has_readable_content_type, (&headers,), readable),
    ensures
        ({
            let line = headers@["content-type"@][0];
            let text = vstd::utf8::decode_utf8(line);
            let subtype = top_read(text, 0);
            let parameters = subtype_read(text, subtype->0, subtype->0, false);
            readable <==> !vstd::utf8::valid_utf8(line) || subtype is None || parameters is None
                || attribute_read(text, line, parameters->0, parameters->0)
        }),
{
    let line = headers@["content-type"@][0];
    let text = vstd::utf8::decode_utf8(line);
    reveal_strlit("Content-Type");
    reveal_strlit("content-type");
    assert(lower("Content-Type"@) =~= "content-type"@);
    lemma_start(text);
    if parameters_start(text) is Some {
        lemma_run_bounds(text, 1, CharClass::Name);
        lemma_run_bounds(text, run(text, 1, CharClass::Name) + 2, CharClass::Name);
        lemma_parameters(text, line, parameters_start(text)->0);
    }
}

} // verus!
