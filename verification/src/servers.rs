//! The address of the local Ollama server.
use crate::errors;
use crate::errors::ResearchError;
use crate::records::AppSettings;
use crate::text;
use vstd::prelude::*;

verus! {

/// Where a local Ollama server answers unless configured otherwise.
pub const DEFAULT_LOCAL_BASE: &'static str = "http://127.0.0.1:11434";

/// An address with a scheme: its own, or else `http`.
pub open spec fn with_scheme(address: Seq<char>) -> Seq<char> {
    if "http://"@.is_prefix_of(address) || "https://"@.is_prefix_of(address) {
        address
    } else {
        "http://"@ + address
    }
}

/// The base URL that an address as entered stands for: the default where it is
/// blank; else the address with a scheme and without slashes at its end.
pub open spec fn base_url(entered: Seq<char>) -> Seq<char> {
    let address = text::trimmed(entered);
    if address.len() == 0 {
        DEFAULT_LOCAL_BASE@
    } else {
        text::without_trailing(with_scheme(address), '/')
    }
}

/// An address with a scheme: its own, or else `http`.
fn add_scheme(address: &str) -> (r: String)
    ensures
        r@ == with_scheme(address@),
{
    let chars = text::chars_of(address);
    if text::starts_with(&chars, &text::chars_of("http://")) || text::starts_with(
        &chars,
        &text::chars_of("https://"),
    ) {
        address.to_owned()
    } else {
        text::join("http://", address)
    }
}

/// Base URL of the local Ollama server, defaulting to localhost.
pub fn local_base_url(settings: &AppSettings) -> (r: String)
    ensures
        r@ == base_url(settings.local_base_url@),
{
    let address = text::trim(&settings.local_base_url);
    if address.as_str().is_empty() {
        return DEFAULT_LOCAL_BASE.to_owned();
    }
    text::trim_trailing(&add_scheme(&address), '/')
}

/// The base URL of the local server is never empty and never ends in a slash,
/// so that a path can follow it.
pub proof fn base_url_takes_a_path(entered: Seq<char>)
    ensures
        base_url(entered).len() > 0,
        base_url(entered).last() != '/',
        "http"@.is_prefix_of(base_url(entered)),
{
    reveal_strlit("http://127.0.0.1:11434");
    reveal_strlit("http://");
    reveal_strlit("https://");
    reveal_strlit("http");
    let address = text::trimmed(entered);
    if address.len() == 0 {
        assert("http"@ =~= DEFAULT_LOCAL_BASE@.subrange(0, 4));
    } else {
        let full = with_scheme(address);
        if "http://"@.is_prefix_of(address) {
            assert(forall|i: int| 0 <= i < 4 ==> #[trigger] address[i] == address.subrange(0, 7)[i]);
        } else if "https://"@.is_prefix_of(address) {
            assert(forall|i: int| 0 <= i < 4 ==> #[trigger] address[i] == address.subrange(0, 8)[i]);
        }
        assert("http"@ =~= full.subrange(0, 4));
        assert(full[3] == 'p');
        lemma_without_trailing(full, '/', 3);
    }
}

/// `without_trailing` stops at a character that differs, keeps what comes
/// before it, and leaves none of the copies at the end.
proof fn lemma_without_trailing(s: Seq<char>, c: char, i: int)
    requires
        0 <= i < s.len(),
        s[i] != c,
    ensures
        i < text::without_trailing(s, c).len(),
        text::without_trailing(s, c).is_prefix_of(s),
        text::without_trailing(s, c).take(i + 1) == s.take(i + 1),
        text::without_trailing(s, c).last() != c,
    decreases s.len(),
{
    if s.last() == c {
        lemma_without_trailing(s.drop_last(), c, i);
        assert(s.drop_last().take(i + 1) == s.take(i + 1));
    }
}

/// The serialization of the URL that `url::Url::parse` reads in a text, or
/// `None` where it finds none.
pub uninterp spec fn url_serialization(text: Seq<char>) -> Option<Seq<char>>;

/// Calls `url::Url::parse` and hands out the parsed URL as text. The claim is
/// that the outcome depends on the text alone.
#[verifier::external_body]
fn parse_url(text: &str) -> (r: Option<String>)
    ensures
        r.deep_view() == url_serialization(text@),
{
    url::Url::parse(text).ok().map(|parsed| parsed.to_string())
}

/// What an address as entered is normalized to, where parsing it with its
/// scheme gave `parsed`.
pub open spec fn normalized(entered: Seq<char>, parsed: Option<Seq<char>>) -> Result<
    Seq<char>,
    errors::ResearchErrorView,
> {
    if text::trimmed(entered).len() == 0 {
        Ok(DEFAULT_LOCAL_BASE@)
    } else {
        match parsed {
            Some(serialization) => Ok(text::without_trailing(serialization, '/')),
            None => Err(
                errors::ResearchErrorView::InvalidConfig(
                    "invalid Ollama server address: "@ + entered,
                ),
            ),
        }
    }
}

/// What an address as entered is normalized to, where parsing it with its
/// scheme gave `parsed`.
pub fn normalize_parsed(base: &str, parsed: Option<String>) -> (r: Result<String, ResearchError>)
    ensures
        errors::outcome(r) == normalized(base@, parsed.deep_view()),
{
    if text::is_blank(base) {
        return Ok(DEFAULT_LOCAL_BASE.to_owned());
    }
    match parsed {
        Some(serialization) => Ok(text::trim_trailing(&serialization, '/')),
        None => Err(
            ResearchError::InvalidConfig(text::join("invalid Ollama server address: ", base)),
        ),
    }
}

/// A normalized address does not end in a slash, whatever the parser gave.
pub proof fn normalized_address_ends_in_no_slash(entered: Seq<char>, parsed: Option<Seq<char>>)
    ensures
        normalized(entered, parsed) matches Ok(base) ==> base.len() == 0 || base.last() != '/',
{
    reveal_strlit("http://127.0.0.1:11434");
    if let Some(serialization) = parsed {
        lemma_no_trailing(serialization, '/');
    }
}

/// `without_trailing` leaves none of the copies at the end.
proof fn lemma_no_trailing(s: Seq<char>, c: char)
    ensures
        text::without_trailing(s, c).len() == 0 || text::without_trailing(s, c).last() != c,
    decreases s.len(),
{
    if s.len() > 0 && s.last() == c {
        lemma_no_trailing(s.drop_last(), c);
    }
}

/// Normalize a local server base URL: add a scheme and strip trailing slashes.
pub fn normalize_base(base: &str) -> (r: Result<String, ResearchError>)
    ensures
        errors::outcome(r) == normalized(
            base@,
            url_serialization(with_scheme(text::trimmed(base@))),
        ),
{
    let address = text::trim(base);
    if address.as_str().is_empty() {
        return Ok(DEFAULT_LOCAL_BASE.to_owned());
    }
    normalize_parsed(base, parse_url(&add_scheme(&address)))
}

/// The default server is used exactly where the address is blank; else the
/// address keeps its scheme or gets `http`, and loses the slashes at its end.
pub proof fn an_address_gets_a_scheme_and_loses_slashes(entered: Seq<char>)
    ensures
        ({
            let address = text::trimmed(entered);
            &&& address.len() == 0 ==> base_url(entered) == "http://127.0.0.1:11434"@
            &&& address.len() > 0 && ("http://"@.is_prefix_of(address) || "https://"@.is_prefix_of(
                address,
            )) ==> base_url(entered) == text::without_trailing(address, '/')
            &&& address.len() > 0 && !"http://"@.is_prefix_of(address) && !"https://"@.is_prefix_of(
                address,
            ) ==> base_url(entered) == text::without_trailing("http://"@ + address, '/')
        }),
{
}

/// Normalizing yields what the parser made of the address, without the slashes
/// at its end; an address that it does not read is quoted in the error. A blank
/// one stands for the default server.
pub proof fn an_address_is_normalized_by_the_parser(
    entered: Seq<char>,
    parsed: Option<Seq<char>>,
)
    ensures
        text::trimmed(entered).len() == 0 ==> normalized(entered, parsed) == Ok::<
            _,
            errors::ResearchErrorView,
        >("http://127.0.0.1:11434"@),
        text::trimmed(entered).len() > 0 && parsed is Some ==> normalized(entered, parsed) == Ok::<
            _,
            errors::ResearchErrorView,
        >(text::without_trailing(parsed->0, '/')),
        text::trimmed(entered).len() > 0 && parsed is None ==> normalized(entered, parsed) == Err::<
            Seq<char>,
            _,
        >(
            errors::ResearchErrorView::InvalidConfig(
                "invalid Ollama server address: "@ + entered,
            ),
        ),
{
}

/// The parser gets the address with its own scheme, or with `http`.
pub proof fn the_parser_gets_a_scheme(address: Seq<char>)
    ensures
        with_scheme("http://"@ + address) == "http://"@ + address,
        with_scheme("https://"@ + address) == "https://"@ + address,
        !"http://"@.is_prefix_of(address) && !"https://"@.is_prefix_of(address) ==> with_scheme(
            address,
        ) == "http://"@ + address,
{
    assert("http://"@ == ("http://"@ + address).subrange(0, "http://"@.len() as int));
    assert("https://"@ == ("https://"@ + address).subrange(0, "https://"@.len() as int));
}

/// Where a local server answers unless configured otherwise.
pub proof fn the_default_server_is_on_this_machine()
    ensures
        DEFAULT_LOCAL_BASE@ == "http://127.0.0.1:11434"@,
{
}

} // verus!
