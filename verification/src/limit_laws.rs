//! Which texts can be parsed, told by where the parts of a URL stand in them.

use crate::servo_url::{
    after_user, before_port, is_plain, is_skipped, within_limits, without_skipped, ServoUrl, MAX_BLOB_DEPTH,
};
use crate::text::{lower, run, CharClass};
use vstd::prelude::*;

verus! {

/// Whether no character of a text is skipped in a URL, and it is not too long.
pub open spec fn stands_as_it_is(input: Seq<char>) -> bool {
    &&& input.len() <= 0x7fff_ffff
    &&& forall|i: int|
        0 <= i < input.len() ==> #[trigger] input[i] != '\t' && input[i] != '\n' && input[i] != '\r'
}

/// Whether a text starts with a scheme that ends at a colon.
pub open spec fn has_scheme(input: Seq<char>, colon: int) -> bool {
    &&& 0 < colon < input.len()
    &&& input[0] > ' '
    &&& input[colon] == ':'
    &&& forall|i: int| 0 <= i < colon ==> #[trigger] input[i] != ':'
}

/// Whether an authority stands between two positions, behind slashes that follow the colon.
pub open spec fn has_authority(input: Seq<char>, colon: int, from: int, to: int) -> bool {
    &&& colon < from <= to <= input.len()
    &&& forall|i: int| colon < i < from ==> #[trigger] input[i] == '/' || input[i] == '\\'
    &&& forall|i: int|
        from <= i < to ==> #[trigger] input[i] != '/' && input[i] != '\\' && input[i] != '?' && input[i]
            != '#'
    &&& from == to && to < input.len() ==> input[to] == '?' || input[to] == '#'
    &&& from < to < input.len() ==> input[to] == '/' || input[to] == '\\' || input[to] == '?' || input[to]
        == '#'
}

/// Whether the host of an authority stands between two positions: behind the last `@`, and
/// before a colon or the end. It is not an address in brackets.
pub open spec fn has_host(input: Seq<char>, from: int, to: int, host: int, port: int) -> bool {
    &&& from <= host <= port <= to
    &&& host == from || input[host - 1] == '@'
    &&& forall|i: int| host <= i < to ==> #[trigger] input[i] != '@'
    &&& forall|i: int|
        host <= i < port ==> #[trigger] input[i] != ':' && input[i] != '[' && input[i] != ']'
    &&& port == to || input[port] == ':'
}

/// Whether what stands between two positions is short, or ASCII without codes.
pub open spec fn short_or_plain(input: Seq<char>, from: int, to: int) -> bool {
    ||| to - from <= 214
    ||| forall|i: int| from <= i < to ==> #[trigger] input[i] < '\u{80}' && input[i] != '%'
}

proof fn lemma_nothing_skipped(input: Seq<char>)
    requires
        stands_as_it_is(input),
    ensures
        without_skipped(input) == input,
    decreases input.len(),
{
    reveal(Seq::filter);
    if input.len() > 0 {
        let rest = input.drop_last();
        assert forall|i: int| 0 <= i < rest.len() implies #[trigger] rest[i] != '\t' && rest[i] != '\n'
            && rest[i] != '\r' by {
            assert(rest[i] == input[i]);
        }
        lemma_nothing_skipped(rest);
        assert(input[input.len() - 1] == input.last());
        assert(!is_skipped(input.last()));
        assert(rest.push(input.last()) =~= input);
    }
}

proof fn lemma_run_to(text: Seq<char>, from: int, to: int, class: CharClass)
    requires
        0 <= from <= to <= text.len(),
        forall|i: int| from <= i < to ==> class.has(#[trigger] text[i]),
        to < text.len() ==> !class.has(text[to]),
    ensures
        run(text, from, class) == to,
    decreases to - from,
{
    if from < to {
        assert(class.has(text[from]));
        lemma_run_to(text, from + 1, to, class);
    }
}

proof fn lemma_host(text: Seq<char>, from: int, to: int, host: int, port: int)
    requires
        0 <= from <= to <= text.len(),
        has_host(text, from, to, host, port),
    ensures
        after_user(text, from, to) == host,
        before_port(text, host, to, false) == port,
{
    lemma_after_user(text, from, to, host);
    lemma_before_port(text, host, to, port);
}

proof fn lemma_after_user(text: Seq<char>, from: int, to: int, host: int)
    requires
        0 <= from <= host <= to <= text.len(),
        host == from || text[host - 1] == '@',
        forall|i: int| host <= i < to ==> #[trigger] text[i] != '@',
    ensures
        after_user(text, from, to) == host,
    decreases to - host,
{
    if host < to {
        assert(text[to - 1] != '@');
        lemma_after_user(text, from, to - 1, host);
    }
}

proof fn lemma_before_port(text: Seq<char>, from: int, to: int, port: int)
    requires
        0 <= from <= port <= to <= text.len(),
        forall|i: int|
            from <= i < port ==> #[trigger] text[i] != ':' && text[i] != '[' && text[i] != ']',
        port == to || text[port] == ':',
    ensures
        before_port(text, from, to, false) == port,
    decreases port - from,
{
    if from < port {
        assert(text[from] != ':');
        lemma_before_port(text, from + 1, to, port);
    }
}

proof fn lemma_scheme(input: Seq<char>, colon: int)
    requires
        has_scheme(input, colon),
    ensures
        run(input, 0, CharClass::Blank) == 0,
        run(input, 0, CharClass::NotColon) == colon,
{
    lemma_run_to(input, 0, 0, CharClass::Blank);
    lemma_run_to(input, 0, colon, CharClass::NotColon);
}

proof fn lemma_plain(input: Seq<char>, from: int, to: int)
    requires
        0 <= from <= to <= input.len(),
    ensures
        short_or_plain(input, from, to) <==> to - from <= 214 || is_plain(input.subrange(from, to)),
{
    let part = input.subrange(from, to);
    if is_plain(part) {
        assert forall|i: int| from <= i < to implies #[trigger] input[i] < '\u{80}' && input[i] != '%' by {
            assert(part[i - from] == input[i]);
        }
    }
}

/// A URL with one of the schemes that have a domain can be parsed exactly if its host is
/// short, or ASCII without codes; user information and port do not matter.
pub proof fn law_domains_are_limited(
    input: &str,
    colon: int,
    from: int,
    to: int,
    host: int,
    port: int,
    can: bool,
)
    requires
        stands_as_it_is(input@),
        has_scheme(input@, colon),
        has_authority(input@, colon, from, to),
        has_host(input@, from, to, host, port),
        ({
            let scheme = lower(input@.subrange(0, colon));
            scheme == "http"@ || scheme == "https"@ || scheme == "ws"@ || scheme == "wss"@ || scheme
                == "ftp"@ || scheme == "gopher"@
        }),
        call_ensures(ServoUrl::can_parse, (input,), can),
    ensures
        can <==> short_or_plain(input@, host, port),
{
    reveal_strlit("blob");
    reveal_strlit("file");
    reveal_strlit("http");
    reveal_strlit("https");
    reveal_strlit("ws");
    reveal_strlit("wss");
    reveal_strlit("ftp");
    reveal_strlit("gopher");
    let scheme = lower(input@.subrange(0, colon));
    assert(scheme[0] != 'b' && (scheme[0] == 'f' ==> scheme.len() == 3));
    lemma_nothing_skipped(input@);
    lemma_scheme(input@, colon);
    lemma_run_to(input@, colon + 1, from, CharClass::Slash);
    lemma_run_to(input@, from, to, CharClass::Authority);
    lemma_host(input@, from, to, host, port);
    lemma_plain(input@, host, port);
}

/// A `file:` URL with exactly two slashes can be parsed exactly if its authority is short,
/// or ASCII without codes; with any other number of slashes it can always be parsed.
pub proof fn law_file_hosts_are_limited(input: &str, colon: int, from: int, to: int, can: bool)
    requires
        stands_as_it_is(input@),
        has_scheme(input@, colon),
        has_authority(input@, colon, from, to),
        lower(input@.subrange(0, colon)) == "file"@,
        call_ensures(ServoUrl::can_parse, (input,), can),
    ensures
        can <==> from != colon + 3 || short_or_plain(input@, from, to),
{
    reveal_strlit("blob");
    reveal_strlit("file");
    assert("file"@[0] != "blob"@[0]);
    lemma_nothing_skipped(input@);
    lemma_scheme(input@, colon);
    lemma_run_to(input@, colon + 1, from, CharClass::Slash);
    lemma_run_to(input@, from, to, CharClass::Authority);
    lemma_plain(input@, from, to);
}

/// A text that is not too long and has no scheme, or another one than those with a host and
/// `blob`, can always be parsed.
pub proof fn law_other_texts_can_be_parsed(input: &str, colon: int, can: bool)
    requires
        stands_as_it_is(input@),
        has_scheme(input@, colon) || colon == input@.len() && forall|i: int|
            0 <= i < colon ==> #[trigger] input@[i] != ':',
        ({
            let scheme = lower(input@.subrange(0, colon));
            scheme != "http"@ && scheme != "https"@ && scheme != "ws"@ && scheme != "wss"@ && scheme
                != "ftp"@ && scheme != "gopher"@ && scheme != "file"@ && scheme != "blob"@
        }),
        call_ensures(ServoUrl::can_parse, (input,), can),
    ensures
        can,
{
    lemma_nothing_skipped(input@);
    if has_scheme(input@, colon) {
        lemma_scheme(input@, colon);
    } else {
        let start = run(input@, 0, CharClass::Blank);
        crate::text::lemma_run_bounds(input@, 0, CharClass::Blank);
        lemma_run_to(input@, start, colon, CharClass::NotColon);
    }
}

/// Of a text that can be parsed, what follows a leading `blob:` is no longer than a text may
/// be once each of its characters has become twelve. If it has no scheme, that is enough.
pub proof fn law_blobs_are_limited(input: &str, colon: int, can: bool)
    requires
        stands_as_it_is(input@),
        has_scheme(input@, colon),
        lower(input@.subrange(0, colon)) == "blob"@,
        call_ensures(ServoUrl::can_parse, (input,), can),
    ensures
        can ==> 12 * (input@.len() - colon - 1) <= 0x7fff_ffff,
        12 * (input@.len() - colon - 1) <= 0x7fff_ffff && (forall|i: int|
            colon < i < input@.len() ==> #[trigger] input@[i] != ':') ==> can,
{
    let text = input@;
    lemma_nothing_skipped(text);
    lemma_scheme(text, colon);
    if forall|i: int| colon < i < text.len() ==> #[trigger] text[i] != ':' {
        let start = run(text, colon + 1, CharClass::Blank);
        crate::text::lemma_run_bounds(text, colon + 1, CharClass::Blank);
        lemma_run_to(text, start, text.len() as int, CharClass::NotColon);
        assert(within_limits(text, colon + 1, (MAX_BLOB_DEPTH - 1) as nat));
    }
}

/// Texts that are too long cannot be parsed.
pub proof fn law_long_texts_cannot_be_parsed(input: &str, can: bool)
    requires
        input@.len() > 0x7fff_ffff,
        call_ensures(ServoUrl::can_parse, (input,), can),
    ensures
        !can,
{
}

} // verus!
