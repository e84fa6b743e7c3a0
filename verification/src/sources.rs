//! Sources: what to search for, what was found, and how it is shown to the
//! model.
use crate::lists;
use crate::records;
use crate::records::SearchSource;
use crate::text;
use vstd::prelude::*;
use vstd::slice::slice_subrange;
use vstd::string::StringExecFns;

verus! {

/// A search result as it comes from the web search.
#[derive(Debug)]
pub struct WebSearchResult {
    pub title: Option<String>,
    pub url: Option<String>,
    pub content: Option<String>,
}

/// What a [`WebSearchResult`] holds.
#[verifier::ext_equal]
pub struct WebSearchResultView {
    pub title: Option<Seq<char>>,
    pub url: Option<Seq<char>>,
    pub content: Option<Seq<char>>,
}

impl DeepView for WebSearchResult {
    type V = WebSearchResultView;

    open spec fn deep_view(&self) -> WebSearchResultView {
        WebSearchResultView {
            title: self.title.deep_view(),
            url: self.url.deep_view(),
            content: self.content.deep_view(),
        }
    }
}

/// A text, or another one where there is none.
pub open spec fn text_or(text: Option<Seq<char>>, default: Seq<char>) -> Seq<char> {
    match text {
        Some(t) => t,
        None => default,
    }
}

/// A copy of a text, or of another one where there is none.
fn pick_text(text: &Option<String>, default: &str) -> (r: String)
    ensures
        r@ == text_or(text.deep_view(), default@),
{
    match text {
        Some(t) => t.clone(),
        None => default.to_owned(),
    }
}

/// The source that a search result stands for.
pub open spec fn as_source(result: WebSearchResultView) -> records::SearchSourceView {
    records::SearchSourceView {
        title: text_or(result.title, "Untitled source"@),
        url: text_or(result.url, Seq::empty()),
        content: text_or(result.content, Seq::empty()),
    }
}

/// The sources that the search results stand for, in order.
pub fn search_sources(results: &Vec<WebSearchResult>) -> (r: Vec<SearchSource>)
    ensures
        r.deep_view() == results.deep_view().map_values(
            |result: WebSearchResultView| as_source(result),
        ),
{
    proof {
        reveal_strlit("");
    }
    let mut r: Vec<SearchSource> = Vec::new();
    for i in 0..results.len()
        invariant
            ""@ == Seq::<char>::empty(),
            r@.len() == i,
            forall|j: int|
                0 <= j < i ==> (#[trigger] r@[j]).deep_view() == as_source(results@[j].deep_view()),
    {
        let result = &results[i];
        r.push(
            SearchSource {
                title: pick_text(&result.title, "Untitled source"),
                url: pick_text(&result.url, ""),
                content: pick_text(&result.content, ""),
            },
        );
    }
    r
}

/// The source that a fetched page stands for.
pub fn fetched_page(url: &str, title: &Option<String>, content: &Option<String>) -> (r: SearchSource)
    ensures
        r.deep_view() == (records::SearchSourceView {
            title: text_or(title.deep_view(), "Untitled page"@),
            url: url@,
            content: text_or(content.deep_view(), Seq::empty()),
        }),
{
    proof {
        reveal_strlit("");
        assert(""@ == Seq::<char>::empty());
    }
    SearchSource {
        title: pick_text(title, "Untitled page"),
        url: url.to_owned(),
        content: pick_text(content, ""),
    }
}

/// The phrase on a line: nothing where it is blank; else the line without white
/// space around it, up to 120 characters.
pub open spec fn phrase(line: Seq<char>) -> Seq<Seq<char>> {
    if text::trimmed(line).len() == 0 {
        seq![]
    } else {
        seq![text::clipped(text::trimmed(line), 120)]
    }
}

/// The phrases on the lines of a text, in order.
pub open spec fn phrases(s: Seq<char>) -> Seq<Seq<char>>
    decreases s.len(),
    via phrases_decreases
{
    match lists::position(s, '\n') {
        Some(i) => phrase(s.take(i)) + phrases(s.skip(i + 1)),
        None => phrase(s),
    }
}

#[via_fn]
proof fn phrases_decreases(s: Seq<char>) {
    lists::lemma_position_found(s, '\n');
}

/// What is searched for: the phrases that the model gave, or the question
/// itself where it gave none.
pub open spec fn search_terms(reply: Option<Seq<char>>, query: Seq<char>) -> Seq<Seq<char>> {
    match reply {
        Some(answer) => if phrases(answer).len() == 0 {
            seq![query]
        } else {
            phrases(answer)
        },
        None => seq![query],
    }
}

/// The index of the first line end at or after `from`, or the length where
/// there is none.
fn line_end(chars: &[char], from: usize) -> (r: usize)
    requires
        from <= chars@.len(),
    ensures
        from <= r <= chars@.len(),
        lists::position(chars@.skip(from as int), '\n') == if r < chars@.len() {
            Some(r - from)
        } else {
            None
        },
{
    let ghost rest = chars@.skip(from as int);
    for i in from..chars.len()
        invariant
            from <= chars@.len(),
            rest == chars@.skip(from as int),
            forall|j: int| 0 <= j < i - from ==> rest[j] != '\n',
    {
        if chars[i] == '\n' {
            proof {
                lists::lemma_position(rest, '\n', i - from);
            }
            return i;
        }
    }
    proof {
        lists::lemma_position(rest, '\n', rest.len() as int);
    }
    chars.len()
}

/// The phrases on the lines of a text, in order.
fn split_phrases(answer: &str) -> (r: Vec<String>)
    ensures
        r.deep_view() == phrases(answer@),
{
    let chars = text::chars_of(answer);
    let n: usize = chars.len();
    let mut r: Vec<String> = Vec::new();
    let mut start: usize = 0;
    let mut done: bool = false;
    assert(chars@.skip(0) == chars@);
    assert(r.deep_view() + phrases(chars@) == phrases(chars@));
    while !done
        invariant
            n == chars@.len(),
            start <= n,
            !done ==> phrases(answer@) == r.deep_view() + phrases(chars@.skip(start as int)),
            done ==> phrases(answer@) == r.deep_view(),
        decreases n - start + if done {
                0int
            } else {
                1int
            },
    {
        let end = line_end(&chars, start);
        let line = slice_subrange(&chars, start, end);
        let trimmed = text::trim_chars(line);
        let ghost rest = chars@.skip(start as int);
        let ghost before = r.deep_view();
        if trimmed.len() > 0 {
            let clipped = text::clip_chars(trimmed, 120);
            r.push(clipped);
            assert(r.deep_view() == before.push(clipped@));
        }
        assert(r.deep_view() == before + phrase(line@));
        if end < n {
            proof {
                assert(rest.take(end - start) == line@);
                assert(rest.skip(end - start + 1) == chars@.skip(end + 1));
                assert(phrases(answer@) == before + (phrase(line@) + phrases(chars@.skip(end + 1))));
            }
            start = end + 1;
        } else {
            assert(rest == line@);
            done = true;
        }
    }
    r
}

/// What is searched for: the phrases that the model gave, or the question
/// itself where it gave none.
pub fn choose_terms(reply: &Option<String>, query: &str) -> (r: Vec<String>)
    ensures
        r.deep_view() == search_terms(reply.deep_view(), query@),
{
    if let Some(answer) = reply {
        let found = split_phrases(answer);
        if found.len() > 0 {
            return found;
        }
    }
    let mut r: Vec<String> = Vec::new();
    r.push(query.to_owned());
    assert(r.deep_view() == seq![query@]);
    r
}

/// The search always has something to look for: a phrase of at most 120
/// characters that is not blank, or else the question.
pub proof fn search_terms_are_phrases_or_the_question(
    reply: Option<Seq<char>>,
    query: Seq<char>,
    i: int,
)
    requires
        0 <= i < search_terms(reply, query).len(),
    ensures
        search_terms(reply, query) == seq![query] || 0 < search_terms(reply, query)[i].len() <= 120,
{
    if let Some(answer) = reply {
        if phrases(answer).len() > 0 {
            lemma_phrases_are_short(answer);
        }
    }
}

/// There is always something to search for.
pub proof fn there_is_a_search_term(reply: Option<Seq<char>>, query: Seq<char>)
    ensures
        search_terms(reply, query).len() > 0,
{
}

/// A phrase is neither empty nor longer than 120 characters.
proof fn lemma_phrases_are_short(s: Seq<char>)
    ensures
        forall|i: int| 0 <= i < phrases(s).len() ==> 0 < (#[trigger] phrases(s)[i]).len() <= 120,
    decreases s.len(),
{
    lists::lemma_position_found(s, '\n');
    if let Some(k) = lists::position(s, '\n') {
        let rest = s.skip(k + 1);
        lemma_phrases_are_short(rest);
        assert forall|i: int| 0 <= i < phrases(s).len() implies 0 < (#[trigger] phrases(s)[i]).len()
            <= 120 by {
            let m = phrase(s.take(k)).len();
            if i >= m {
                assert(phrases(s)[i] == phrases(rest)[i - m]);
            }
        }
    }
}

/// The results of all searches that succeeded, in order.
pub open spec fn all_found(
    searches: Seq<Option<Seq<records::SearchSourceView>>>,
) -> Seq<records::SearchSourceView>
    decreases searches.len(),
{
    if searches.len() == 0 {
        seq![]
    } else {
        all_found(searches.drop_last()) + match searches.last() {
            Some(found) => found,
            None => seq![],
        }
    }
}

/// Whether one of the sources has the given URL.
pub open spec fn has_url(sources: Seq<records::SearchSourceView>, url: Seq<char>) -> bool {
    exists|i: int| 0 <= i < sources.len() && (#[trigger] sources[i]).url == url
}

/// The sources without those that repeat the URL of an earlier one.
pub open spec fn deduplicated(
    sources: Seq<records::SearchSourceView>,
) -> Seq<records::SearchSourceView>
    decreases sources.len(),
{
    if sources.len() == 0 {
        seq![]
    } else {
        let kept = deduplicated(sources.drop_last());
        if has_url(kept, sources.last().url) {
            kept
        } else {
            kept.push(sources.last())
        }
    }
}

/// The sources that a turn works with: what the searches found, each URL once,
/// twelve at most.
pub open spec fn gathered(
    searches: Seq<Option<Seq<records::SearchSourceView>>>,
) -> Seq<records::SearchSourceView> {
    let kept = deduplicated(all_found(searches));
    if kept.len() <= 12 {
        kept
    } else {
        kept.take(12)
    }
}

/// Appends a copy of a source unless it repeats the URL of one that is there.
fn push_new(kept: &mut Vec<SearchSource>, source: &SearchSource)
    ensures
        final(kept).deep_view() == if has_url(old(kept).deep_view(), source.url@) {
            old(kept).deep_view()
        } else {
            old(kept).deep_view().push(source.deep_view())
        },
{
    let ghost before = kept.deep_view();
    for i in 0..kept.len()
        invariant
            before == kept.deep_view(),
            kept.deep_view() == old(kept).deep_view(),
            forall|j: int| 0 <= j < i ==> (#[trigger] before[j]).url != source.url@,
    {
        if text::same_text(&kept[i].url, &source.url) {
            assert(before[i as int].url == source.url@);
            return;
        }
    }
    let copy = source.clone();
    kept.push(copy);
    assert(kept.deep_view() == before.push(copy.deep_view()));
}

/// The sources that a turn works with.
pub fn gather_sources(searches: &Vec<Option<Vec<SearchSource>>>) -> (r: Vec<SearchSource>)
    ensures
        r.deep_view() == gathered(searches.deep_view()),
{
    let mut kept: Vec<SearchSource> = Vec::new();
    let ghost all = searches.deep_view();
    assert(kept.deep_view() == deduplicated(all_found(all.take(0))));
    for i in 0..searches.len()
        invariant
            all == searches.deep_view(),
            kept.deep_view() == deduplicated(all_found(all.take(i as int))),
    {
        let ghost before = all_found(all.take(i as int));
        assert(all.take(i + 1).drop_last() == all.take(i as int));
        if let Some(found) = &searches[i] {
            let ghost new = found.deep_view();
            assert(all_found(all.take(i + 1)) == before + new);
            assert(before + new.take(0) == before);
            for j in 0..found.len()
                invariant
                    new == found.deep_view(),
                    kept.deep_view() == deduplicated(before + new.take(j as int)),
            {
                assert((before + new.take(j + 1)).drop_last() == before + new.take(j as int));
                assert((before + new.take(j + 1)).last() == found@[j as int].deep_view());
                push_new(&mut kept, &found[j]);
            }
            assert(new.take(new.len() as int) == new);
        } else {
            assert(all_found(all.take(i + 1)) == before);
        }
    }
    assert(all.take(all.len() as int) == all);
    let ghost full = kept.deep_view();
    if kept.len() > 12 {
        kept.truncate(12);
        assert(kept.deep_view() == full.take(12));
    }
    kept
}

/// A turn works with at most twelve sources, all of them found by a search, and
/// no two of them have the same URL. No URL that was found is left out as long
/// as there are no more than twelve.
pub proof fn gathered_sources_are_few_and_found(
    searches: Seq<Option<Seq<records::SearchSourceView>>>,
)
    ensures
        gathered(searches).len() <= 12,
        forall|i: int|
            0 <= i < gathered(searches).len() ==> all_found(searches).contains(
                #[trigger] gathered(searches)[i],
            ),
        forall|i: int, j: int|
            0 <= i < j < gathered(searches).len() ==> gathered(searches)[i].url != gathered(
                searches,
            )[j].url,
        deduplicated(all_found(searches)).len() <= 12 ==> forall|i: int|
            0 <= i < all_found(searches).len() ==> has_url(
                gathered(searches),
                (#[trigger] all_found(searches)[i]).url,
            ),
{
    lemma_deduplicated(all_found(searches));
}

/// What deduplication leaves was there before; it has each URL that was there,
/// and has it once.
proof fn lemma_deduplicated(sources: Seq<records::SearchSourceView>)
    ensures
        forall|i: int|
            0 <= i < deduplicated(sources).len() ==> sources.contains(
                #[trigger] deduplicated(sources)[i],
            ),
        forall|i: int, j: int|
            0 <= i < j < deduplicated(sources).len() ==> deduplicated(sources)[i].url
                != deduplicated(sources)[j].url,
        forall|i: int|
            0 <= i < sources.len() ==> has_url(
                deduplicated(sources),
                (#[trigger] sources[i]).url,
            ),
    decreases sources.len(),
{
    if sources.len() > 0 {
        let rest = sources.drop_last();
        let kept = deduplicated(rest);
        let all = deduplicated(sources);
        lemma_deduplicated(rest);
        assert forall|i: int| 0 <= i < all.len() implies sources.contains(#[trigger] all[i]) by {
            if i < kept.len() {
                let x = kept[i];
                assert(rest.contains(x));
                let j = choose|j: int| 0 <= j < rest.len() && rest[j] == x;
                assert(sources[j] == x);
            } else {
                assert(sources[sources.len() - 1] == sources.last());
            }
        }
        assert forall|i: int| 0 <= i < sources.len() implies has_url(
            all,
            (#[trigger] sources[i]).url,
        ) by {
            if i < rest.len() {
                assert(has_url(kept, rest[i].url));
                let k = choose|k: int|
                    0 <= k < kept.len() && (#[trigger] kept[k]).url == rest[i].url;
                assert(all[k].url == sources[i].url);
            } else if !has_url(kept, sources.last().url) {
                assert(all[all.len() - 1].url == sources[i].url);
            }
        }
    }
}

/// How many bytes of context a mode allows.
pub open spec fn context_limit(mode: Seq<char>) -> nat {
    if mode == "speed"@ {
        4_000
    } else if mode == "quality"@ {
        18_000
    } else {
        9_000
    }
}

/// The modes differ in how much context they allow: speed the least, quality
/// the most.
pub proof fn modes_differ_in_depth()
    ensures
        context_limit("speed"@) < context_limit("balanced"@) < context_limit("quality"@),
{
    reveal_strlit("speed");
    reveal_strlit("balanced");
    reveal_strlit("quality");
    assert("quality"@[0] != "speed"@[0]);
    assert("balanced"@[0] != "speed"@[0]);
    assert("balanced"@[0] != "quality"@[0]);
}

/// A source as the model sees it: its number, title and URL, and the first
/// `share` characters of its content.
pub open spec fn source_text(
    number: nat,
    source: records::SearchSourceView,
    share: nat,
) -> Seq<char> {
    "--- Source "@ + text::decimal(number) + " ---\nTitle: "@ + source.title + "\nURL: "@
        + source.url + "\nContent: "@ + text::clipped(source.content, share) + "\n\n"@
}

/// How much of each source's content is shown: the limit, shared evenly.
pub open spec fn content_share(count: nat, limit: nat) -> nat {
    if count == 0 {
        limit
    } else {
        limit / count
    }
}

/// The context after the first `n` sources, as long as each fits.
pub open spec fn grown_context(
    sources: Seq<records::SearchSourceView>,
    limit: nat,
    n: nat,
    context: Seq<char>,
) -> Seq<char>
    decreases sources.len() - n,
{
    if n >= sources.len() {
        context
    } else {
        let next = context + source_text(
            n + 1,
            sources[n as int],
            content_share(sources.len(), limit),
        );
        if text::utf8_len(next) > limit {
            context
        } else {
            grown_context(sources, limit, n + 1, next)
        }
    }
}

/// The context for a mode: the sources in order, up to the first that would
/// not fit the mode's limit.
pub open spec fn context_text(
    sources: Seq<records::SearchSourceView>,
    mode: Seq<char>,
) -> Seq<char> {
    grown_context(sources, context_limit(mode), 0, seq![])
}

/// A source as the model sees it.
fn write_source(number: usize, source: &SearchSource, share: usize) -> (r: String)
    ensures
        r@ == source_text(number as nat, source.deep_view(), share as nat),
{
    let mut r = text::join("--- Source ", &text::decimal_text(number));
    r.append(" ---\nTitle: ");
    r.append(&source.title);
    r.append("\nURL: ");
    r.append(&source.url);
    r.append("\nContent: ");
    r.append(&text::clip(&source.content, share));
    r.append("\n\n");
    r
}

/// The context for a mode.
pub fn build_context(sources: &[SearchSource], mode: &str) -> (r: String)
    ensures
        r@ == context_text(sources.deep_view(), mode@),
{
    let limit: usize = if text::same_text(mode, "speed") {
        4_000
    } else if text::same_text(mode, "quality") {
        18_000
    } else {
        9_000
    };
    let n: usize = sources.len();
    let share: usize = if n == 0 {
        limit
    } else {
        limit / n
    };
    let ghost all = sources.deep_view();
    let mut context = String::new();
    let mut size: usize = 0;
    for i in 0..n
        invariant
            n == sources@.len(),
            all == sources.deep_view(),
            limit == context_limit(mode@),
            share == content_share(n as nat, limit as nat),
            size == text::utf8_len(context@),
            size <= limit,
            context_text(all, mode@) == grown_context(all, limit as nat, i as nat, context@),
    {
        let chunk = write_source(i + 1, &sources[i], share);
        let chunk_size = text::byte_len(&chunk);
        proof {
            text::lemma_encode_concat(context@, chunk@);
        }
        if chunk_size > limit - size {
            return context;
        }
        context.append(&chunk);
        size = size + chunk_size;
    }
    context
}

/// The first `n` sources as the model sees them, one after the other.
pub open spec fn first_sources(
    sources: Seq<records::SearchSourceView>,
    share: nat,
    n: nat,
) -> Seq<char>
    decreases n,
{
    if n == 0 {
        seq![]
    } else {
        first_sources(sources, share, (n - 1) as nat) + source_text(
            n,
            sources[n - 1],
            share,
        )
    }
}

/// Whether the context is made of the first `n` sources and stops for want of
/// room, if it stops before the last.
pub open spec fn holds_first(
    sources: Seq<records::SearchSourceView>,
    mode: Seq<char>,
    n: nat,
) -> bool {
    let limit = context_limit(mode);
    let share = content_share(sources.len(), limit);
    &&& n <= sources.len()
    &&& context_text(sources, mode) == first_sources(sources, share, n)
    &&& n < sources.len() ==> text::utf8_len(first_sources(sources, share, n + 1)) > limit
}

/// The context never exceeds the mode's limit. It is made of whole sources, the
/// first ones, and leaves one out only where that would exceed the limit.
pub proof fn context_fits_and_holds_the_first_sources(
    sources: Seq<records::SearchSourceView>,
    mode: Seq<char>,
)
    ensures
        text::utf8_len(context_text(sources, mode)) <= context_limit(mode),
        exists|n: nat| holds_first(sources, mode, n),
{
    lemma_grown(sources, mode, 0);
}

proof fn lemma_grown(sources: Seq<records::SearchSourceView>, mode: Seq<char>, n: nat)
    requires
        n <= sources.len(),
        ({
            let limit = context_limit(mode);
            let context = first_sources(sources, content_share(sources.len(), limit), n);
            &&& text::utf8_len(context) <= limit
            &&& context_text(sources, mode) == grown_context(sources, limit, n, context)
        }),
    ensures
        text::utf8_len(context_text(sources, mode)) <= context_limit(mode),
        exists|k: nat| holds_first(sources, mode, k),
    decreases sources.len() - n,
{
    let limit = context_limit(mode);
    let share = content_share(sources.len(), limit);
    if n < sources.len() && text::utf8_len(first_sources(sources, share, n + 1)) <= limit {
        lemma_grown(sources, mode, n + 1);
    } else {
        assert(holds_first(sources, mode, n));
    }
}

/// Everything that a search found is gathered: where the searches found at most
/// twelve different URLs, each of these is the URL of a gathered source.
pub proof fn what_any_search_found_is_gathered(
    searches: Seq<Option<Seq<records::SearchSourceView>>>,
    urls: Set<Seq<char>>,
    i: int,
    j: int,
)
    requires
        urls.finite(),
        urls.len() <= 12,
        forall|k: int, l: int|
            0 <= k < searches.len() && searches[k] is Some && 0 <= l < searches[k]->0.len()
                ==> urls.contains((#[trigger] searches[k]->0[l]).url),
        0 <= i < searches.len(),
        searches[i] is Some,
        0 <= j < searches[i]->0.len(),
    ensures
        exists|k: int|
            0 <= k < gathered(searches).len() && (#[trigger] gathered(searches)[k]).url
                == searches[i]->0[j].url,
{
    let all = all_found(searches);
    let kept = deduplicated(all);
    lemma_all_found(searches);
    lemma_deduplicated(all);
    let names = kept.map_values(|s: records::SearchSourceView| s.url);
    assert(names.no_duplicates());
    names.unique_seq_to_set();
    assert forall|u: Seq<char>| names.to_set().contains(u) implies urls.contains(u) by {
        let k = choose|k: int| 0 <= k < names.len() && names[k] == u;
        assert(all.contains(kept[k]));
        let m = choose|m: int| 0 <= m < all.len() && all[m] == kept[k];
        let (a, b) = lemma_found_where(searches, m);
        assert(urls.contains(searches[a]->0[b].url));
    }
    vstd::set_lib::lemma_len_subset(names.to_set(), urls);
    assert(all.contains(searches[i]->0[j]));
    let m = choose|m: int| 0 <= m < all.len() && all[m] == searches[i]->0[j];
    assert(has_url(kept, all[m].url));
    let k = choose|k: int| 0 <= k < kept.len() && (#[trigger] kept[k]).url == all[m].url;
    assert(names.len() <= 12);
    assert(gathered(searches)[k] == kept[k]);
}

/// Whatever is gathered was found by one of the searches.
pub proof fn what_is_gathered_was_found_by_a_search(
    searches: Seq<Option<Seq<records::SearchSourceView>>>,
    k: int,
)
    requires
        0 <= k < gathered(searches).len(),
    ensures
        exists|i: int, j: int|
            0 <= i < searches.len() && searches[i] is Some && 0 <= j < searches[i]->0.len()
                && #[trigger] searches[i]->0[j] == gathered(searches)[k],
{
    let all = all_found(searches);
    lemma_deduplicated(all);
    assert(all.contains(deduplicated(all)[k]));
    let m = choose|m: int| 0 <= m < all.len() && all[m] == gathered(searches)[k];
    let (a, b) = lemma_found_where(searches, m);
    assert(searches[a]->0[b] == gathered(searches)[k]);
}

/// One more search adds what it found at the end; one that failed adds nothing.
pub proof fn one_more_search_adds_what_it_found(
    searches: Seq<Option<Seq<records::SearchSourceView>>>,
    found: Seq<records::SearchSourceView>,
)
    ensures
        all_found(searches.push(Some(found))) == all_found(searches) + found,
        all_found(searches.push(None)) == all_found(searches),
        all_found(seq![Some(found)]) == found,
        all_found(Seq::empty()) == Seq::<records::SearchSourceView>::empty(),
{
    assert(searches.push(Some(found)).drop_last() == searches);
    assert(searches.push(None::<Seq<records::SearchSourceView>>).drop_last() == searches);
    assert(all_found(searches.push(None)) == all_found(searches) + Seq::empty());
    assert(seq![Some(found)].drop_last() == Seq::<Option<Seq<records::SearchSourceView>>>::empty());
    assert(seq![Some(found)].last() == Some(found));
    assert(all_found(seq![Some(found)]) == all_found(
        Seq::<Option<Seq<records::SearchSourceView>>>::empty(),
    ) + found);
    assert(Seq::<records::SearchSourceView>::empty() + found == found);
}

/// One more source is kept, at the end, exactly where no source before it has
/// its URL.
pub proof fn one_more_source_is_kept_where_its_url_is_new(
    sources: Seq<records::SearchSourceView>,
    source: records::SearchSourceView,
)
    ensures
        deduplicated(Seq::empty()) == Seq::<records::SearchSourceView>::empty(),
        (exists|i: int| 0 <= i < sources.len() && (#[trigger] sources[i]).url == source.url)
            ==> deduplicated(sources.push(source)) == deduplicated(sources),
        (forall|i: int| 0 <= i < sources.len() ==> (#[trigger] sources[i]).url != source.url)
            ==> deduplicated(sources.push(source)) == deduplicated(sources).push(source),
{
    let all = sources.push(source);
    assert(all.drop_last() == sources);
    lemma_deduplicated(sources);
    if exists|i: int| 0 <= i < sources.len() && (#[trigger] sources[i]).url == source.url {
        let i = choose|i: int| 0 <= i < sources.len() && (#[trigger] sources[i]).url == source.url;
        assert(has_url(deduplicated(sources), sources[i].url));
    } else if has_url(deduplicated(sources), source.url) {
        let k = choose|k: int|
            0 <= k < deduplicated(sources).len() && (#[trigger] deduplicated(sources)[k]).url
                == source.url;
        assert(sources.contains(deduplicated(sources)[k]));
    }
}

/// A turn works with the first twelve of the sources with different URLs, or
/// with all of them where there are fewer.
pub proof fn the_first_twelve_are_gathered(searches: Seq<Option<Seq<records::SearchSourceView>>>)
    ensures
        gathered(searches).len() == if deduplicated(all_found(searches)).len() < 12 {
            deduplicated(all_found(searches)).len()
        } else {
            12
        },
        forall|i: int|
            0 <= i < gathered(searches).len() ==> #[trigger] gathered(searches)[i]
                == deduplicated(all_found(searches))[i],
{
}

/// All that the searches found is there.
proof fn lemma_all_found(searches: Seq<Option<Seq<records::SearchSourceView>>>)
    ensures
        forall|i: int, j: int|
            0 <= i < searches.len() && searches[i] is Some && 0 <= j < searches[i]->0.len()
                ==> all_found(searches).contains(#[trigger] searches[i]->0[j]),
    decreases searches.len(),
{
    if searches.len() > 0 {
        let rest = searches.drop_last();
        lemma_all_found(rest);
        let all = all_found(searches);
        let before = all_found(rest);
        assert forall|i: int, j: int|
            0 <= i < searches.len() && searches[i] is Some && 0 <= j
                < searches[i]->0.len() implies all.contains(#[trigger] searches[i]->0[j]) by {
            let x = searches[i]->0[j];
            if i < rest.len() {
                assert(rest[i] == searches[i]);
                assert(before.contains(rest[i]->0[j]));
                let m = choose|m: int| 0 <= m < before.len() && before[m] == x;
                assert(all[m] == x);
            } else {
                assert(all[before.len() + j] == x);
            }
        }
    }
}

/// Where something was found.
proof fn lemma_found_where(searches: Seq<Option<Seq<records::SearchSourceView>>>, m: int) -> (r: (
    int,
    int,
))
    requires
        0 <= m < all_found(searches).len(),
    ensures
        0 <= r.0 < searches.len(),
        searches[r.0] is Some,
        0 <= r.1 < searches[r.0]->0.len(),
        searches[r.0]->0[r.1] == all_found(searches)[m],
    decreases searches.len(),
{
    let rest = searches.drop_last();
    let before = all_found(rest);
    if m < before.len() {
        let r = lemma_found_where(rest, m);
        assert(rest[r.0] == searches[r.0]);
        r
    } else {
        (searches.len() - 1, m - before.len())
    }
}

/// Each line of a reply that is not blank gives a phrase, in order: the line
/// without white space around it, or its first 120 characters.
pub proof fn each_line_gives_its_phrase(line: Seq<char>, rest: Seq<char>)
    requires
        forall|i: int| 0 <= i < line.len() ==> #[trigger] line[i] != '\n',
    ensures
        text::trimmed(line).len() == 0 ==> {
            &&& phrases(line.push('\n') + rest) == phrases(rest)
            &&& phrases(line) == Seq::<Seq<char>>::empty()
        },
        0 < text::trimmed(line).len() <= 120 ==> {
            &&& phrases(line.push('\n') + rest) == seq![text::trimmed(line)] + phrases(rest)
            &&& phrases(line) == seq![text::trimmed(line)]
        },
        text::trimmed(line).len() > 120 ==> {
            &&& phrases(line.push('\n') + rest) == seq![text::trimmed(line).take(120)] + phrases(
                rest,
            )
            &&& phrases(line) == seq![text::trimmed(line).take(120)]
        },
{
    let s = line.push('\n') + rest;
    let n = line.len() as int;
    assert(forall|j: int| 0 <= j < n ==> s[j] == line[j]);
    assert(s[n] == '\n');
    lists::lemma_position(s, '\n', n);
    assert(s.take(n) == line);
    assert(s.skip(n + 1) == rest);
    lists::lemma_position(line, '\n', n);
    assert(Seq::<Seq<char>>::empty() + phrases(rest) == phrases(rest));
}

/// The phrases of the reply are searched for; the question itself is searched
/// for exactly where there is no reply or no phrase in it.
pub proof fn the_question_is_searched_for_without_phrases(answer: Seq<char>, query: Seq<char>)
    ensures
        phrases(answer).len() > 0 ==> search_terms(Some(answer), query) == phrases(answer),
        phrases(answer).len() == 0 ==> search_terms(Some(answer), query) == seq![query],
        search_terms(None, query) == seq![query],
{
}

/// A search result stands for a source with its title, URL and content; what is
/// missing is empty, but for the title.
pub proof fn a_result_stands_for_a_source(result: WebSearchResultView)
    ensures
        result.title matches Some(title) ==> as_source(result).title == title,
        result.title is None ==> as_source(result).title == "Untitled source"@,
        result.url matches Some(url) ==> as_source(result).url == url,
        result.url is None ==> as_source(result).url.len() == 0,
        result.content matches Some(content) ==> as_source(result).content == content,
        result.content is None ==> as_source(result).content.len() == 0,
{
}

/// The limits of the modes, in bytes of UTF-8.
pub proof fn the_limits_of_the_modes(mode: Seq<char>)
    ensures
        mode == "speed"@ ==> context_limit(mode) == 4_000,
        mode == "quality"@ ==> context_limit(mode) == 18_000,
        mode != "speed"@ && mode != "quality"@ ==> context_limit(mode) == 9_000,
{
    reveal_strlit("speed");
    reveal_strlit("quality");
    assert("quality"@[0] != "speed"@[0]);
}

/// The model sees of a source its number, its title, its URL, and the beginning
/// of its content.
pub proof fn the_model_sees_title_url_and_content(
    number: nat,
    source: records::SearchSourceView,
    share: nat,
)
    ensures
        exists|content: Seq<char>|
            {
                &&& content.is_prefix_of(source.content)
                &&& content.len() == share || content == source.content
                &&& content.len() <= share
                &&& source_text(number, source, share) == "--- Source "@ + text::decimal(number)
                    + " ---\nTitle: "@ + source.title + "\nURL: "@ + source.url + "\nContent: "@
                    + #[trigger] (content + "\n\n"@)
            },
{
    let content = text::clipped(source.content, share);
    text::a_clipped_text_is_a_beginning(source.content, share);
    assert(content.is_prefix_of(source.content)) by {
        assert(content == source.content.subrange(0, content.len() as int));
    }
    let head = "--- Source "@ + text::decimal(number) + " ---\nTitle: "@ + source.title
        + "\nURL: "@ + source.url + "\nContent: "@;
    assert(source_text(number, source, share) == head + content + "\n\n"@);
    assert(head + content + "\n\n"@ == head + (content + "\n\n"@));
}

/// The content of each source is cut to an even share of the limit.
pub proof fn the_limit_is_shared_evenly(count: nat, limit: nat)
    ensures
        count > 0 ==> content_share(count, limit) * count <= limit < (content_share(count, limit)
            + 1) * count,
{
    if count > 0 {
        let q = limit / count;
        assert(q * count <= limit < (q + 1) * count) by (nonlinear_arith)
            requires
                count > 0,
                q == limit / count,
        ;
    }
}

/// The context shows one more source exactly where that still fits: growing
/// stops at the first source that does not.
pub proof fn one_more_source_is_shown_where_it_fits(
    sources: Seq<records::SearchSourceView>,
    limit: nat,
    n: nat,
    context: Seq<char>,
)
    ensures
        n >= sources.len() ==> grown_context(sources, limit, n, context) == context,
        n < sources.len() ==> {
            let next = context + source_text(
                n + 1,
                sources[n as int],
                content_share(sources.len(), limit),
            );
            &&& text::utf8_len(next) <= limit ==> grown_context(sources, limit, n, context)
                == grown_context(sources, limit, n + 1, next)
            &&& text::utf8_len(next) > limit ==> grown_context(sources, limit, n, context)
                == context
        },
{
}

/// The context begins with nothing and the first source, and grows up to the
/// limit of its mode.
pub proof fn the_context_begins_with_the_first_source(
    sources: Seq<records::SearchSourceView>,
    mode: Seq<char>,
)
    ensures
        context_text(sources, mode) == grown_context(sources, context_limit(mode), 0, seq![]),
        sources.len() == 0 ==> context_text(sources, mode).len() == 0,
{
}

/// The views hold what the types here hold, field by field.
pub proof fn views_hold_what_is_there(
    web_search_result: WebSearchResult,
)
    ensures
        web_search_result.deep_view().title == web_search_result.title.deep_view(),
        web_search_result.deep_view().url == web_search_result.url.deep_view(),
        web_search_result.deep_view().content == web_search_result.content.deep_view(),
{
}

/// A text is taken as it is; only where there is none does the other one stand
/// in for it.
pub proof fn a_text_is_taken_as_it_is(text: Seq<char>, default: Seq<char>)
    ensures
        text_or(Some(text), default) == text,
        text_or(None, default) == default,
{
}

} // verus!
