//! URLs, as far as the job queue looks into them.

use crate::text::{chars_of, in_lower_case, lemma_run_bounds, lower, lower_char, run, run_end, CharClass};
use vstd::prelude::*;

verus! {

/// The host of a tuple origin.
pub enum Host {
    /// A domain name.
    Domain(String),
    /// An IPv4 address, most significant byte first.
    Ipv4(u32),
    /// An IPv6 address, most significant byte first.
    Ipv6(u128),
}

/// The origin of a URL that has one of its own. A URL whose origin is opaque has none:
/// an opaque origin equals no other origin, not even one made from the same URL.
pub struct TupleOrigin {
    pub scheme: String,
    pub host: Host,
    pub port: u16,
}

/// What a [`Host`] stands for.
pub ghost enum HostView {
    Domain(Seq<char>),
    Ipv4(u32),
    Ipv6(u128),
}

/// What a [`TupleOrigin`] stands for.
pub ghost struct OriginView {
    pub scheme: Seq<char>,
    pub host: HostView,
    pub port: u16,
}

/// What a [`ServoUrl`] stands for.
pub ghost struct UrlView {
    /// The whole URL in its serialized form. It alone decides whether two URLs are equal.
    pub serialization: Seq<char>,
    /// The path component.
    pub path: Seq<char>,
    /// The origin, or `None` if it is opaque.
    pub origin: Option<OriginView>,
}

impl View for Host {
    type V = HostView;

    open spec fn view(&self) -> HostView {
        match self {
            Host::Domain(domain) => HostView::Domain(domain@),
            Host::Ipv4(address) => HostView::Ipv4(*address),
            Host::Ipv6(address) => HostView::Ipv6(*address),
        }
    }
}

impl View for TupleOrigin {
    type V = OriginView;

    open spec fn view(&self) -> OriginView {
        OriginView { scheme: self.scheme@, host: self.host@, port: self.port }
    }
}

/// The view of an origin that may be opaque.
pub open spec fn origin_view(origin: Option<TupleOrigin>) -> Option<OriginView> {
    match origin {
        Some(tuple) => Some(tuple@),
        None => None,
    }
}

/// Why a string is not a URL, as the `url` crate reports it.
#[verifier::external_type_specification]
#[verifier::external_body]
pub struct ExParseError(url::ParseError);

/// What `url::Url::parse` makes of a string: `None` if it is refused, and otherwise
/// what `as_str`, `path` and `origin` tell of the URL.
pub uninterp spec fn parsed_url(input: Seq<char>) -> Option<UrlView>;

/// The URL whose path a registration's scope has to have for its script to be accepted.
pub const MAX_SCOPE_URL: &'static str = "https://github.com/creativcoder/rust.json";

/// How long a host may be if it may have to be put into Punycode. A character of it becomes
/// at most eighteen, and eighteen times this many characters can be encoded without going
/// beyond 32 bits.
pub const MAX_ENCODED_HOST: usize = 214;

/// How long a text may be. The characters of the user information are counted in 31 bits.
pub const MAX_TEXT: usize = 0x7fff_ffff;

/// How long what follows `blob:` may be. It is parsed as a text of its own after its
/// characters have been put as codes, each becoming at most twelve; twelve times this many
/// are no more than a text may have.
pub const MAX_BLOB_TEXT: usize = 0x0aaa_aaaa;

/// How deep `blob:` URLs may be nested. The origin of one is that of the URL inside it,
/// which takes stack at every level.
pub const MAX_BLOB_DEPTH: usize = 64;

/// Whether a character is skipped wherever it stands in a URL.
pub open spec fn is_skipped(c: char) -> bool {
    c == '\t' || c == '\n' || c == '\r'
}

/// A text without the characters that are skipped in a URL.
pub open spec fn without_skipped(text: Seq<char>) -> Seq<char> {
    text.filter(|c: char| !is_skipped(c))
}

/// Whether URLs with this scheme, which is not `file`, have a host that is a domain or an
/// address.
pub open spec fn has_domain(scheme: Seq<char>) -> bool {
    scheme == "http"@ || scheme == "https"@ || scheme == "ws"@ || scheme == "wss"@ || scheme
        == "ftp"@ || scheme == "gopher"@
}

/// Whether a host with these characters is ASCII throughout: all of them are, and none
/// stands for another by its code.
pub open spec fn is_plain(host: Seq<char>) -> bool {
    forall|i: int| 0 <= i < host.len() ==> (#[trigger] host[i]) < '\u{80}' && host[i] != '%'
}

/// Where the user information at the start of an authority ends: behind its last `@`.
pub open spec fn after_user(text: Seq<char>, from: int, to: int) -> int
    decreases to - from,
{
    if to <= from {
        from
    } else if text[to - 1] == '@' {
        to
    } else {
        after_user(text, from, to - 1)
    }
}

/// Where the host that starts an authority ends: at its first colon outside brackets.
pub open spec fn before_port(text: Seq<char>, from: int, to: int, bracketed: bool) -> int
    decreases to - from,
{
    if from >= to || text[from] == ':' && !bracketed {
        from
    } else {
        before_port(
            text,
            from + 1,
            to,
            text[from] == '[' || bracketed && text[from] != ']',
        )
    }
}

/// Whether the host that stands between two positions is plain or short.
pub open spec fn host_within_limits(text: Seq<char>, from: int, to: int) -> bool {
    to - from <= MAX_ENCODED_HOST || is_plain(text.subrange(from, to))
}

/// Whether the URL that starts at `from` stays within the limits: its host is plain or
/// short, and a `blob:` URL is not too long, and the same holds of the URL inside it,
/// `depth` times. All of the authority of a `file:` URL is its host.
pub open spec fn within_limits(text: Seq<char>, from: int, depth: nat) -> bool
    decreases depth,
{
    let start = run(text, from, CharClass::Blank);
    let colon = run(text, start, CharClass::NotColon);
    let scheme = lower(text.subrange(start, colon));
    let authority = run(text, colon + 1, CharClass::Slash);
    let end = run(text, authority, CharClass::Authority);
    let host = after_user(text, authority, end);
    if colon >= text.len() {
        true
    } else if scheme == "blob"@ {
        &&& depth > 0
        &&& text.len() - (colon + 1) <= MAX_BLOB_TEXT
        &&& within_limits(text, colon + 1, (depth - 1) as nat)
    } else if scheme == "file"@ {
        authority == colon + 3 ==> host_within_limits(text, authority, end)
    } else {
        has_domain(scheme) ==> host_within_limits(text, host, before_port(text, host, end, false))
    }
}

/// Whether a text can be parsed as a URL, be it accepted or refused.
pub open spec fn parsable(input: Seq<char>) -> bool {
    input.len() <= MAX_TEXT && within_limits(without_skipped(input), 0, MAX_BLOB_DEPTH as nat)
}

/// The user information ends within the authority.
proof fn lemma_after_user_bounds(text: Seq<char>, from: int, to: int)
    requires
        from <= to,
    ensures
        from <= after_user(text, from, to) <= to,
    decreases to - from,
{
    if from < to && text[to - 1] != '@' {
        lemma_after_user_bounds(text, from, to - 1);
    }
}

/// The host ends within the authority.
proof fn lemma_before_port_bounds(text: Seq<char>, from: int, to: int, bracketed: bool)
    requires
        from <= to,
    ensures
        from <= before_port(text, from, to, bracketed) <= to,
    decreases to - from,
{
    if from < to && (text[from] != ':' || bracketed) {
        lemma_before_port_bounds(
            text,
            from + 1,
            to,
            text[from] == '[' || bracketed && text[from] != ']',
        );
    }
}

/// Each `blob:` takes five characters, so that a short rest cannot nest too deep.
proof fn lemma_short_rest(text: Seq<char>, from: int, depth: nat)
    requires
        0 <= from <= text.len(),
        text.len() - from <= MAX_ENCODED_HOST,
        text.len() - from < 5 * (depth + 1),
    ensures
        within_limits(text, from, depth),
    decreases depth,
{
    let start = run(text, from, CharClass::Blank);
    let colon = run(text, start, CharClass::NotColon);
    let authority = run(text, colon + 1, CharClass::Slash);
    let end = run(text, authority, CharClass::Authority);
    let host = after_user(text, authority, end);
    lemma_run_bounds(text, from, CharClass::Blank);
    lemma_run_bounds(text, start, CharClass::NotColon);
    if colon < text.len() {
        lemma_run_bounds(text, colon + 1, CharClass::Slash);
        lemma_run_bounds(text, authority, CharClass::Authority);
        lemma_after_user_bounds(text, authority, end);
        lemma_before_port_bounds(text, host, end, false);
        if lower(text.subrange(start, colon)) == "blob"@ {
            reveal_strlit("blob");
            assert(lower(text.subrange(start, colon)).len() == colon - start);
            lemma_short_rest(text, colon + 1, (depth - 1) as nat);
        }
    }
}

/// A text that is no longer than a host may be can always be parsed.
pub proof fn law_short_texts_can_be_parsed(input: Seq<char>)
    requires
        input.len() <= MAX_ENCODED_HOST,
    ensures
        parsable(input),
{
    input.lemma_filter_len(|c: char| !is_skipped(c));
    lemma_short_rest(without_skipped(input), 0, MAX_BLOB_DEPTH as nat);
}

/// The serialization, the path and the origin of a URL.
struct UrlParts {
    serialization: String,
    path: String,
    origin: Option<TupleOrigin>,
}

impl View for UrlParts {
    type V = UrlView;

    closed spec fn view(&self) -> UrlView {
        UrlView {
            serialization: self.serialization@,
            path: self.path@,
            origin: origin_view(self.origin),
        }
    }
}

/// The view of the outcome of parsing a URL.
spec fn outcome_view(outcome: Result<UrlParts, url::ParseError>) -> Option<UrlView> {
    match outcome {
        Ok(parts) => Some(parts@),
        Err(_) => None,
    }
}

/// Calls `url::Url::parse`, and `as_str`, `path` and `origin` on the URL that comes out.
///
/// Trusted: the outcome depends on the string alone and is called `parsed_url`, an
/// opaque origin being told as `None`; and [`MAX_SCOPE_URL`], which is in serialized form
/// already, is accepted, its path being what follows the host. Left out are a long host
/// that has to be put into Punycode, where the `idna` crate may overflow, and `blob:` URLs
/// nested so deep that finding the origin may run out of stack; also texts too long to have
/// their characters counted, as they are or inside `blob:`, where they are parsed again
/// with those outside printable ASCII put as codes. A long host in ASCII does not overflow: only its labels in
/// Punycode are encoded, and these were decoded before, without overflow, from the same
/// numbers.
#[verifier::external_body]
fn parse_url(input: &str) -> (res: Result<UrlParts, url::ParseError>)
    requires
        parsable(input@),
    ensures
        outcome_view(res) == parsed_url(input@),
        input@ == MAX_SCOPE_URL@ ==> res is Ok && res->Ok_0@.path == "/creativcoder/rust.json"@,
{
    let url = url::Url::parse(input)?;
    let origin = match url.origin() {
        url::Origin::Opaque(_) => None,
        url::Origin::Tuple(scheme, url::Host::Domain(domain), port) =>
            Some(TupleOrigin { scheme, host: Host::Domain(domain), port }),
        url::Origin::Tuple(scheme, url::Host::Ipv4(address), port) =>
            Some(TupleOrigin { scheme, host: Host::Ipv4(u32::from(address)), port }),
        url::Origin::Tuple(scheme, url::Host::Ipv6(address), port) =>
            Some(TupleOrigin { scheme, host: Host::Ipv6(u128::from(address)), port }),
    };
    Ok(UrlParts { serialization: url.as_str().to_owned(), path: url.path().to_owned(), origin })
}

/// The characters that are not skipped in a URL.
fn skim(text: Vec<char>) -> (res: Vec<char>)
    ensures
        res@ == without_skipped(text@),
{
    let mut kept: Vec<char> = Vec::new();
    let mut at: usize = 0;
    proof {
        reveal(Seq::filter);
    }
    while at < text.len()
        invariant
            at <= text.len(),
            kept@ == without_skipped(text@.take(at as int)),
        decreases text.len() - at,
    {
        let c = text[at];
        proof {
            reveal(Seq::filter);
            assert(text@.take(at + 1).drop_last() =~= text@.take(at as int));
        }
        if c != '\t' && c != '\n' && c != '\r' {
            kept.push(c);
        }
        at = at + 1;
    }
    assert(text@.take(at as int) =~= text@);
    kept
}

/// Whether a part of a text, in lower case, is a word.
fn spells(text: &Vec<char>, from: usize, to: usize, word: &str) -> (res: bool)
    requires
        from <= to <= text.len(),
    ensures
        res == (lower(text@.subrange(from as int, to as int)) == word@),
{
    let letters = chars_of(word);
    if to - from != letters.len() {
        assert(lower(text@.subrange(from as int, to as int)).len() == to - from);
        return false;
    }
    let ghost found = lower(text@.subrange(from as int, to as int));
    let mut at: usize = 0;
    while at < letters.len()
        invariant
            at <= letters.len(),
            from + letters.len() == to,
            to <= text.len(),
            letters@ == word@,
            found == lower(text@.subrange(from as int, to as int)),
            found.len() == letters.len(),
            forall|i: int| 0 <= i < at ==> found[i] == word@[i],
        decreases letters.len() - at,
    {
        let c = text[from + at];
        assert(found[at as int] == lower_char(c));
        if in_lower_case(c) != letters[at] {
            return false;
        }
        at = at + 1;
    }
    assert(found =~= word@);
    true
}

/// Finds where the user information at the start of an authority ends.
fn find_after_user(text: &Vec<char>, from: usize, to: usize) -> (res: usize)
    requires
        from <= to <= text.len(),
    ensures
        res == after_user(text@, from as int, to as int),
        from <= res <= to,
{
    let mut at: usize = to;
    while at > from && text[at - 1] != '@'
        invariant
            from <= at <= to <= text.len(),
            after_user(text@, from as int, at as int) == after_user(text@, from as int, to as int),
        decreases at,
    {
        at = at - 1;
    }
    at
}

/// Finds where the host that starts an authority ends.
fn find_before_port(text: &Vec<char>, from: usize, to: usize) -> (res: usize)
    requires
        from <= to <= text.len(),
    ensures
        res == before_port(text@, from as int, to as int, false),
        from <= res <= to,
{
    let mut at: usize = from;
    let mut bracketed: bool = false;
    while at < to && (text[at] != ':' || bracketed)
        invariant
            from <= at <= to <= text.len(),
            before_port(text@, at as int, to as int, bracketed) == before_port(
                text@,
                from as int,
                to as int,
                false,
            ),
        decreases to - at,
    {
        bracketed = text[at] == '[' || bracketed && text[at] != ']';
        at = at + 1;
    }
    at
}

/// Whether the host that stands between two positions is plain or short.
fn is_host_within_limits(text: &Vec<char>, from: usize, to: usize) -> (res: bool)
    requires
        from <= to <= text.len(),
    ensures
        res == host_within_limits(text@, from as int, to as int),
{
    to - from <= MAX_ENCODED_HOST || all_plain(text, from, to)
}

/// Whether a part of a text is plain.
fn all_plain(text: &Vec<char>, from: usize, to: usize) -> (res: bool)
    requires
        from <= to <= text.len(),
    ensures
        res == is_plain(text@.subrange(from as int, to as int)),
{
    let ghost part = text@.subrange(from as int, to as int);
    let mut at: usize = from;
    while at < to
        invariant
            from <= at <= to <= text.len(),
            part == text@.subrange(from as int, to as int),
            forall|i: int| 0 <= i < at - from ==> (#[trigger] part[i]) < '\u{80}' && part[i] != '%',
        decreases to - at,
    {
        let c = text[at];
        assert(part[at - from] == c);
        if c >= '\u{80}' || c == '%' {
            return false;
        }
        at = at + 1;
    }
    true
}

impl Clone for Host {
    fn clone(&self) -> (res: Self)
        ensures
            res == *self,
    {
        match self {
            Host::Domain(domain) => Host::Domain(domain.clone()),
            Host::Ipv4(address) => Host::Ipv4(*address),
            Host::Ipv6(address) => Host::Ipv6(*address),
        }
    }
}

impl Host {
    /// Whether two hosts are the same.
    pub fn same(&self, other: &Host) -> (res: bool)
        ensures
            res == (self@ == other@),
    {
        match (self, other) {
            (Host::Domain(a), Host::Domain(b)) => *a == *b,
            (Host::Ipv4(a), Host::Ipv4(b)) => *a == *b,
            (Host::Ipv6(a), Host::Ipv6(b)) => *a == *b,
            _ => false,
        }
    }
}

impl Clone for TupleOrigin {
    fn clone(&self) -> (res: Self)
        ensures
            res == *self,
    {
        TupleOrigin { scheme: self.scheme.clone(), host: self.host.clone(), port: self.port }
    }
}

/// A URL that has been parsed.
pub struct ServoUrl {
    parts: UrlParts,
}

impl View for ServoUrl {
    type V = UrlView;

    closed spec fn view(&self) -> UrlView {
        self.parts@
    }
}

/// A URL is told by its parts.
proof fn lemma_urls_are_told_by_their_parts(url: ServoUrl)
    ensures
        url@.serialization == url.parts.serialization@,
        url@.path == url.parts.path@,
        url@.origin is Some <==> url.parts.origin is Some,
        url@.origin is Some ==> url@.origin->0.scheme == url.parts.origin->0.scheme@
            && url@.origin->0.port == url.parts.origin->0.port,
{
}

/// Whether two URLs have the same origin: neither origin is opaque, and they agree in
/// scheme, host and port.
pub open spec fn same_origin(a: UrlView, b: UrlView) -> bool {
    a.origin is Some && a.origin == b.origin
}

impl ServoUrl {
    /// Every URL is what parsing some string gave.
    #[verifier::type_invariant]
    closed spec fn comes_from_parsing(&self) -> bool {
        exists|input: Seq<char>| #[trigger] parsed_url(input) == Some(self@)
    }

    /// Whether a string can be parsed, be it a URL or not. Only strings beyond the limits
    /// of the parser cannot.
    pub fn can_parse(input: &str) -> (res: bool)
        ensures
            res == parsable(input@),
    {
        let chars = chars_of(input);
        if chars.len() > MAX_TEXT {
            return false;
        }
        let text = skim(chars);
        let mut from: usize = 0;
        let mut depth: usize = MAX_BLOB_DEPTH;
        loop
            invariant
                from <= text.len(),
                within_limits(text@, from as int, depth as nat) == parsable(input@),
            decreases depth,
        {
            let start = run_end(&text, from, CharClass::Blank);
            let colon = run_end(&text, start, CharClass::NotColon);
            if colon == text.len() {
                return true;
            }
            if spells(&text, start, colon, "blob") {
                if depth == 0 || text.len() - (colon + 1) > MAX_BLOB_TEXT {
                    return false;
                }
                from = colon + 1;
                depth = depth - 1;
            } else {
                let authority = run_end(&text, colon + 1, CharClass::Slash);
                let end = run_end(&text, authority, CharClass::Authority);
                if spells(&text, start, colon, "file") {
                    return authority - colon != 3 || is_host_within_limits(&text, authority, end);
                }
                let domain = spells(&text, start, colon, "http") || spells(
                    &text,
                    start,
                    colon,
                    "https",
                ) || spells(&text, start, colon, "ws") || spells(&text, start, colon, "wss")
                    || spells(&text, start, colon, "ftp") || spells(&text, start, colon, "gopher");
                let host = find_after_user(&text, authority, end);
                let port = find_before_port(&text, host, end);
                return !domain || is_host_within_limits(&text, host, port);
            }
        }
    }

    /// Parses a string that is within the limits of the parser, see
    /// [`ServoUrl::can_parse`]. `None` if it is not a URL.
    pub fn parse(input: &str) -> (res: Option<ServoUrl>)
        requires
            parsable(input@),
        ensures
            match parsed_url(input@) {
                Some(view) => res matches Some(url) && url@ == view,
                None => res is None,
            },
            input@ == MAX_SCOPE_URL@ ==> res is Some && res->0@.path == "/creativcoder/rust.json"@,
    {
        match parse_url(input) {
            Ok(parts) => {
                assert(parsed_url(input@) == Some(parts@));
                Some(ServoUrl { parts })
            },
            Err(_) => None,
        }
    }

    /// The serialized form.
    pub fn as_str(&self) -> (res: &str)
        ensures
            res@ == self@.serialization,
    {
        self.parts.serialization.as_str()
    }

    /// The path component.
    pub fn path(&self) -> (res: &String)
        ensures
            res@ == self@.path,
    {
        &self.parts.path
    }

    /// The origin, or `None` if it is opaque.
    pub fn origin(&self) -> (res: &Option<TupleOrigin>)
        ensures
            origin_view(*res) == self@.origin,
    {
        &self.parts.origin
    }

    /// Whether this URL's origin equals the other's.
    pub fn has_origin_of(&self, other: &ServoUrl) -> (res: bool)
        ensures
            res == same_origin(self@, other@),
    {
        match (self.origin(), other.origin()) {
            (Some(a), Some(b)) => a.scheme == b.scheme && a.host.same(&b.host) && a.port == b.port,
            _ => false,
        }
    }
}

impl Clone for ServoUrl {
    fn clone(&self) -> (res: Self)
        ensures
            res == *self,
    {
        proof {
            use_type_invariant(self);
        }
        let origin = match &self.parts.origin {
            Some(tuple) => Some(tuple.clone()),
            None => None,
        };
        ServoUrl {
            parts: UrlParts {
                serialization: self.parts.serialization.clone(),
                path: self.parts.path.clone(),
                origin,
            },
        }
    }
}

impl PartialEq for ServoUrl {
    fn eq(&self, other: &Self) -> (res: bool) {
        self.parts.serialization == other.parts.serialization
    }
}

impl vstd::std_specs::cmp::PartialEqSpecImpl for ServoUrl {
    open spec fn obeys_eq_spec() -> bool {
        true
    }

    open spec fn eq_spec(&self, other: &Self) -> bool {
        self@.serialization == other@.serialization
    }
}

} // verus!
