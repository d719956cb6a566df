//! Header fields of requests and responses, kept in the header map of the `hyper` crate.

use hyper::header::{ContentType, Headers};
use crate::text::{chars_of, lemma_run_bounds, lower, run, run_end, CharClass};
use vstd::prelude::*;

verus! {

/// A top-level name or a subtype name of a media type.
pub enum MediaName {
    /// One of the names that the `mime` crate has a variant for.
    Registered(String),
    /// Any other name.
    Extension(String),
}

/// A media type without its parameters.
pub struct MediaType {
    pub top: MediaName,
    pub sub: MediaName,
}

/// What a [`MediaName`] stands for.
pub ghost enum MediaNameView {
    Registered(Seq<char>),
    Extension(Seq<char>),
}

/// What a [`MediaType`] stands for.
pub ghost struct MediaTypeView {
    pub top: MediaNameView,
    pub sub: MediaNameView,
}

impl View for MediaName {
    type V = MediaNameView;

    open spec fn view(&self) -> MediaNameView {
        match self {
            MediaName::Registered(name) => MediaNameView::Registered(name@),
            MediaName::Extension(name) => MediaNameView::Extension(name@),
        }
    }
}

impl View for MediaType {
    type V = MediaTypeView;

    open spec fn view(&self) -> MediaTypeView {
        MediaTypeView { top: self.top@, sub: self.sub@ }
    }
}

/// The view of a media type that may be missing.
pub open spec fn media_type_view(media_type: Option<MediaType>) -> Option<MediaTypeView> {
    match media_type {
        Some(found) => Some(found@),
        None => None,
    }
}

/// The lines of a header.
pub open spec fn lines_view(lines: Seq<Vec<u8>>) -> Seq<Seq<u8>> {
    lines.map_values(|line: Vec<u8>| line@)
}

/// The lines of a header that may be missing.
pub open spec fn found_lines_view(lines: Option<Vec<Vec<u8>>>) -> Option<Seq<Seq<u8>>> {
    match lines {
        Some(found) => Some(lines_view(found@)),
        None => None,
    }
}

/// What a map without headers holds.
pub open spec fn no_headers() -> Map<Seq<char>, Seq<Seq<u8>>> {
    Map::empty()
}

/// The lines stored under a header name.
pub open spec fn lines_of(headers: Map<Seq<char>, Seq<Seq<u8>>>, name: Seq<char>) -> Option<
    Seq<Seq<u8>>,
> {
    if headers.contains_key(lower(name)) {
        Some(headers[lower(name)])
    } else {
        None
    }
}

/// The header map of the `hyper` crate.
#[verifier::external_type_specification]
#[verifier::external_body]
pub struct ExHeaders(Headers);

/// What a header map holds: under each name, in lower case, the lines of that header.
pub uninterp spec fn header_lines(headers: Headers) -> Map<Seq<char>, Seq<Seq<u8>>>;

/// Whether every header in the map was set from raw lines, none as a typed value.
pub uninterp spec fn set_from_lines(headers: Headers) -> bool;

/// The media type, without its parameters, that `hyper::header::ContentType` reads from
/// the lines of a header.
pub uninterp spec fn parsed_media_type(lines: Seq<Seq<u8>>) -> Option<MediaTypeView>;

/// Whether no character of a line goes on at a position, counted in bytes.
pub open spec fn at_boundary(line: Seq<u8>, position: int) -> bool {
    position >= line.len() || !(0x80 <= line[position] < 0xc0)
}

/// Whether the parameters of a media type that start at `from` can be cut out of the line.
/// The parser of the `mime` crate counts in characters where the attributes and values
/// start and end, but cuts the line in bytes: each of these positions has to be one where
/// a character starts. What ends the reading of the parameters is not cut out.
pub open spec fn parameters_cut(text: Seq<char>, line: Seq<u8>, from: int) -> bool
    decreases text.len() - from,
{
    let attribute = run(text, from, CharClass::Space);
    let equals = run(text, attribute + 1, CharClass::Name);
    let value = run(text, equals + 1, CharClass::Quote);
    let quoted = value > equals + 1;
    let end = run(
        text,
        value + 1,
        if quoted {
            CharClass::NotQuote
        } else {
            CharClass::Name
        },
    );
    proof {
        lemma_run_bounds(text, from, CharClass::Space);
        lemma_run_bounds(text, attribute + 1, CharClass::Name);
        lemma_run_bounds(text, equals + 1, CharClass::Quote);
        lemma_run_bounds(text, value + 1, CharClass::NotQuote);
        lemma_run_bounds(text, value + 1, CharClass::Name);
    }
    if attribute >= text.len() || !CharClass::NameStart.has(text[attribute]) {
        true
    } else if equals >= text.len() || text[equals] != '=' {
        true
    } else if !at_boundary(line, attribute) || !at_boundary(line, equals) {
        false
    } else if value < text.len() && !CharClass::Name.has(text[value]) {
        true
    } else if value >= text.len() || end >= text.len() {
        at_boundary(line, value)
    } else if quoted || text[end] == ';' {
        at_boundary(line, value) && at_boundary(line, end) && parameters_cut(text, line, end + 1)
    } else {
        true
    }
}

/// Where the parameters of a media type start, if it has any.
pub open spec fn parameters_start(text: Seq<char>) -> Option<int> {
    let slash = run(text, 1, CharClass::Name);
    let semicolon = if slash + 1 < text.len() && text[slash + 1] == '*' {
        slash + 2
    } else {
        run(text, slash + 2, CharClass::Name)
    };
    if slash < text.len() && CharClass::NameStart.has(text[0]) && text[slash] == '/' && semicolon
        < text.len() && (text[slash + 1] == '*' || CharClass::NameStart.has(text[slash + 1]))
        && text[semicolon] == ';' {
        Some(semicolon + 1)
    } else {
        None
    }
}

/// Whether the media type on a line can be read: the line is not UTF-8, and refused for
/// it, or the parameters, if there are any, can be cut out of it.
pub open spec fn line_readable(line: Seq<u8>) -> bool {
    let text = vstd::utf8::decode_utf8(line);
    vstd::utf8::valid_utf8(line) ==> match parameters_start(text) {
        Some(from) => parameters_cut(text, line, from),
        None => true,
    }
}

/// Calls `std::str::from_utf8`.
///
/// Trusted: a text comes back exactly if the bytes are UTF-8, and then it is the one that
/// they encode.
#[verifier::external_body]
fn text_of(line: &Vec<u8>) -> (res: Option<&str>)
    ensures
        res is Some <==> vstd::utf8::valid_utf8(line@),
        res is Some ==> res->0@ == vstd::utf8::decode_utf8(line@),
{
    std::str::from_utf8(line).ok()
}

/// Calls `hyper::header::Headers::new`.
///
/// Trusted: the map is empty.
#[verifier::external_body]
fn new_headers() -> (res: Headers)
    ensures
        header_lines(res) == no_headers(),
        set_from_lines(res),
{
    Headers::new()
}

/// Calls `hyper::header::Headers::set_raw`.
///
/// Trusted: the lines replace what was stored under the name, in whatever case it was
/// written; no other header changes.
#[verifier::external_body]
fn set_raw_lines(headers: &mut Headers, name: String, lines: Vec<Vec<u8>>)
    ensures
        header_lines(*final(headers)) == header_lines(*old(headers)).insert(lower(name@), lines_view(lines@)),
        set_from_lines(*old(headers)) ==> set_from_lines(*final(headers)),
{
    headers.set_raw(name, lines)
}

/// Calls `hyper::header::Headers::get_raw`.
///
/// Trusted: the lines that are stored under the name, in whatever case it is written.
#[verifier::external_body]
fn get_raw_lines(headers: &Headers, name: &str) -> (res: Option<Vec<Vec<u8>>>)
    requires
        set_from_lines(*headers),
    ensures
        found_lines_view(res) == lines_of(header_lines(*headers), name@),
{
    headers.get_raw(name).map(|lines| lines.to_vec())
}

/// Calls `hyper::header::Headers::get` for `hyper::header::ContentType`.
///
/// Trusted: nothing comes back if there is no header `Content-Type`; otherwise the outcome
/// depends on the lines of that header alone and is called `parsed_media_type`. A single
/// line is left out if the parser of the `mime` crate would cut it inside a character, and
/// panic; several lines are refused before any is parsed.
#[verifier::external_body]
fn get_content_type(headers: &Headers) -> (res: Option<MediaType>)
    requires
        set_from_lines(*headers),
        lines_of(header_lines(*headers), "Content-Type"@) matches Some(lines) ==> (lines.len() == 1
            ==> line_readable(lines[0])),
    ensures
        lines_of(header_lines(*headers), "Content-Type"@) is None ==> res is None,
        lines_of(header_lines(*headers), "Content-Type"@) is Some ==> media_type_view(res)
            == parsed_media_type(lines_of(header_lines(*headers), "Content-Type"@)->0),
{
    headers.get::<ContentType>().map(|content_type| MediaType {
        top: match &(content_type.0).0 {
            mime::TopLevel::Ext(name) => MediaName::Extension(name.clone()),
            registered => MediaName::Registered(registered.as_str().to_owned()),
        },
        sub: match &(content_type.0).1 {
            mime::SubLevel::Ext(name) => MediaName::Extension(name.clone()),
            registered => MediaName::Registered(registered.as_str().to_owned()),
        },
    })
}

/// The media type that a header map declares, if it declares one.
pub open spec fn content_type_of(headers: Map<Seq<char>, Seq<Seq<u8>>>) -> Option<MediaTypeView> {
    match lines_of(headers, "Content-Type"@) {
        Some(lines) => parsed_media_type(lines),
        None => None,
    }
}

/// Whether the media type that the headers declare can be read.
pub open spec fn content_type_readable(headers: Map<Seq<char>, Seq<Seq<u8>>>) -> bool {
    match lines_of(headers, "Content-Type"@) {
        Some(lines) => lines.len() == 1 ==> line_readable(lines[0]),
        None => true,
    }
}

/// A header map all of whose headers were set from raw lines.
pub struct HeaderMap {
    headers: Headers,
}

impl View for HeaderMap {
    type V = Map<Seq<char>, Seq<Seq<u8>>>;

    closed spec fn view(&self) -> Map<Seq<char>, Seq<Seq<u8>>> {
        header_lines(self.headers)
    }
}

impl HeaderMap {
    #[verifier::type_invariant]
    closed spec fn holds_lines(&self) -> bool {
        set_from_lines(self.headers)
    }

    /// A map without headers.
    pub fn new() -> (res: HeaderMap)
        ensures
            res@ == no_headers(),
    {
        HeaderMap { headers: new_headers() }
    }

    /// Stores the lines of a header in place of any that it had.
    pub fn set_raw(&mut self, name: &str, lines: Vec<Vec<u8>>)
        ensures
            final(self)@ == old(self)@.insert(lower(name@), lines_view(lines@)),
    {
        proof {
            use_type_invariant(&*self);
        }
        let mut headers = new_headers();
        std::mem::swap(&mut headers, &mut self.headers);
        set_raw_lines(&mut headers, name.to_owned(), lines);
        self.headers = headers;
    }

    /// The lines of a header, if it is there.
    pub fn get_raw(&self, name: &str) -> (res: Option<Vec<Vec<u8>>>)
        ensures
            found_lines_view(res) == lines_of(self@, name@),
    {
        proof {
            use_type_invariant(self);
        }
        get_raw_lines(&self.headers, name)
    }

    /// The media type that the header `Content-Type` declares, if there is one.
    pub fn content_type(&self) -> (res: Option<MediaType>)
        requires
            content_type_readable(self@),
        ensures
            media_type_view(res) == content_type_of(self@),
    {
        proof {
            use_type_invariant(self);
        }
        get_content_type(&self.headers)
    }

    /// Whether the media type that the headers declare can be read.
    pub fn has_readable_content_type(&self) -> (res: bool)
        ensures
            res == content_type_readable(self@),
    {
        match self.get_raw("Content-Type") {
            Some(lines) => lines.len() != 1 || is_line_readable(&lines[0]),
            None => true,
        }
    }
}

/// Tells whether no character of a line goes on at a position, counted in bytes.
fn is_at_boundary(line: &Vec<u8>, position: usize) -> (res: bool)
    ensures
        res == at_boundary(line@, position as int),
{
    position >= line.len() || line[position] < 0x80 || line[position] >= 0xc0
}

/// Finds where the parameters of a media type start, if it has any.
fn find_parameters(text: &Vec<char>) -> (res: Option<usize>)
    ensures
        res is Some <==> parameters_start(text@) is Some,
        res is Some ==> res->0 == parameters_start(text@)->0 && res->0 <= text.len(),
{
    if text.len() == 0 {
        return None;
    }
    let slash = run_end(text, 1, CharClass::Name);
    if !CharClass::NameStart.holds(text[0]) || slash >= text.len() - 1 || text[slash] != '/' {
        return None;
    }
    let starred = text[slash + 1] == '*';
    if !starred && !CharClass::NameStart.holds(text[slash + 1]) {
        return None;
    }
    let semicolon = if starred {
        slash + 2
    } else {
        run_end(text, slash + 2, CharClass::Name)
    };
    if semicolon < text.len() && text[semicolon] == ';' {
        Some(semicolon + 1)
    } else {
        None
    }
}

/// Tells whether the parameters of a media type that start at `from` can be cut out of the
/// line.
fn can_cut_parameters(text: &Vec<char>, line: &Vec<u8>, from: usize) -> (res: bool)
    requires
        from <= text.len(),
    ensures
        res == parameters_cut(text@, line@, from as int),
{
    let mut at: usize = from;
    loop
        invariant
            at <= text.len(),
            parameters_cut(text@, line@, at as int) == parameters_cut(text@, line@, from as int),
        decreases text.len() - at,
    {
        let attribute = run_end(text, at, CharClass::Space);
        if attribute >= text.len() || !CharClass::NameStart.holds(text[attribute]) {
            return true;
        }
        let equals = run_end(text, attribute + 1, CharClass::Name);
        if equals >= text.len() || text[equals] != '=' {
            return true;
        }
        if !is_at_boundary(line, attribute) || !is_at_boundary(line, equals) {
            return false;
        }
        let value = run_end(text, equals + 1, CharClass::Quote);
        if value >= text.len() {
            return is_at_boundary(line, value);
        }
        if !CharClass::Name.holds(text[value]) {
            return true;
        }
        let quoted = value > equals + 1;
        let end = if quoted {
            run_end(text, value + 1, CharClass::NotQuote)
        } else {
            run_end(text, value + 1, CharClass::Name)
        };
        if end >= text.len() {
            return is_at_boundary(line, value);
        }
        if !quoted && text[end] != ';' {
            return true;
        }
        if !is_at_boundary(line, value) || !is_at_boundary(line, end) {
            return false;
        }
        at = end + 1;
    }
}

/// Tells whether the media type on a line can be read.
fn is_line_readable(line: &Vec<u8>) -> (res: bool)
    ensures
        res == line_readable(line@),
{
    match text_of(line) {
        Some(text) => {
            let chars = chars_of(text);
            match find_parameters(&chars) {
                Some(from) => can_cut_parameters(&chars, line, from),
                None => true,
            }
        },
        None => true,
    }
}

} // verus!
