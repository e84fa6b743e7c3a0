//! Images that come with a question.
use crate::lists;
use crate::text;
use vstd::prelude::*;
use vstd::slice::slice_subrange;

verus! {

/// What follows the first comma, where `data:` comes before it; else all of it.
pub open spec fn payload(image: Seq<char>) -> Seq<char> {
    match lists::position(image, ',') {
        Some(comma) => if "data:"@.is_prefix_of(image.take(comma)) {
            text::trimmed(image.skip(comma + 1))
        } else {
            image
        },
        None => image,
    }
}

/// The base64 payload of an image as it came: without a `data:` prefix and
/// without white space.
pub open spec fn cleaned(image: Seq<char>) -> Seq<char> {
    text::without_white_space(payload(text::trimmed(image)))
}

/// Whether a payload is long enough to be an image.
pub open spec fn is_image() -> spec_fn(Seq<char>) -> bool {
    |image: Seq<char>| text::utf8_len(image) > 64
}

/// The payloads that are long enough to be images, in order.
pub open spec fn sanitized(images: Seq<Seq<char>>) -> Seq<Seq<char>> {
    images.map_values(|image: Seq<char>| cleaned(image)).filter(is_image())
}

/// The index of the first comma, or the length where there is none.
fn find_comma(chars: &[char]) -> (r: usize)
    ensures
        r <= chars@.len(),
        lists::position(chars@, ',') == if r < chars@.len() {
            Some(r as int)
        } else {
            None
        },
{
    for i in 0..chars.len()
        invariant
            forall|j: int| 0 <= j < i ==> chars@[j] != ',',
    {
        if chars[i] == ',' {
            proof {
                lists::lemma_position(chars@, ',', i as int);
            }
            return i;
        }
    }
    proof {
        lists::lemma_position(chars@, ',', chars@.len() as int);
    }
    chars.len()
}

/// The base64 payload of an image as it came.
pub fn clean_image(image: &str) -> (r: String)
    ensures
        r@ == cleaned(image@),
{
    let chars = text::chars_of(image);
    let trimmed = text::trim_chars(&chars);
    let comma = find_comma(trimmed);
    if comma < trimmed.len() {
        let prefix = slice_subrange(trimmed, 0, comma);
        if text::starts_with(prefix, &text::chars_of("data:")) {
            let rest = slice_subrange(trimmed, comma + 1, trimmed.len());
            return text::drop_white_space(text::trim_chars(rest));
        }
    }
    text::drop_white_space(trimmed)
}

/// Strip an optional `data:image/...;base64,` prefix and whitespace from
/// base64 image payloads; reject obviously bad data.
pub fn sanitize_images(images: Vec<String>) -> (r: Vec<String>)
    ensures
        r.deep_view() == sanitized(images.deep_view()),
{
    let mut r: Vec<String> = Vec::new();
    let ghost all = images.deep_view();
    proof {
        reveal(Seq::filter);
        assert(r.deep_view() == sanitized(all.take(0)));
    }
    for i in 0..images.len()
        invariant
            all == images.deep_view(),
            r.deep_view() == sanitized(all.take(i as int)),
    {
        let image = clean_image(&images[i]);
        proof {
            reveal(Seq::filter);
            let f = |image: Seq<char>| cleaned(image);
            assert(all.take(i + 1).map_values(f).drop_last() == all.take(i as int).map_values(f));
            assert(all.take(i + 1).map_values(f).last() == image@);
        }
        if text::byte_len(&image) > 64 {
            let ghost shown = r.deep_view();
            r.push(image);
            assert(r.deep_view() == shown.push(image@));
        }
    }
    assert(all.take(all.len() as int) == all);
    r
}

/// What is kept of the images: payloads of more than 64 bytes, without white
/// space.
pub proof fn kept_images_are_clean(images: Seq<Seq<char>>, i: int)
    requires
        0 <= i < sanitized(images).len(),
    ensures
        text::utf8_len(sanitized(images)[i]) > 64,
        forall|k: int|
            0 <= k < sanitized(images)[i].len() ==> !text::white_space(
                #[trigger] sanitized(images)[i][k],
            ),
        sanitized(images).len() <= images.len(),
{
    let all = images.map_values(|image: Seq<char>| cleaned(image));
    all.lemma_filter_len(is_image());
    all.lemma_filter_pred(is_image(), i);
    let kept = sanitized(images)[i];
    assert(all.filter(is_image()).contains(kept));
    all.lemma_filter_contains_rev(is_image(), kept);
    let j = choose|j: int| 0 <= j < all.len() && all[j] == kept;
    lemma_cleaned_has_no_white_space(images[j]);
}

/// A cleaned payload holds no white space.
proof fn lemma_cleaned_has_no_white_space(image: Seq<char>)
    ensures
        forall|k: int|
            0 <= k < cleaned(image).len() ==> !text::white_space(#[trigger] cleaned(image)[k]),
{
    let body = payload(text::trimmed(image));
    let keep = |c: char| !text::white_space(c);
    assert forall|k: int| 0 <= k < cleaned(image).len() implies !text::white_space(
        #[trigger] cleaned(image)[k],
    ) by {
        body.lemma_filter_pred(keep, k);
    }
}

/// Cleaning a payload once more changes nothing, unless what was left begins
/// with `data:` again.
pub proof fn cleaning_twice_changes_nothing(image: Seq<char>)
    requires
        !"data:"@.is_prefix_of(cleaned(image)),
    ensures
        cleaned(cleaned(image)) == cleaned(image),
{
    let c = cleaned(image);
    lemma_cleaned_has_no_white_space(image);
    text::lemma_nothing_to_trim(c);
    lists::lemma_position_found(c, ',');
    if let Some(comma) = lists::position(c, ',') {
        if "data:"@.is_prefix_of(c.take(comma)) {
            assert(c.take(comma).subrange(0, "data:"@.len() as int) == c.subrange(
                0,
                "data:"@.len() as int,
            ));
        }
    }
    assert(payload(c) == c);
    text::lemma_nothing_to_drop(c);
}

/// Sanitizing the images once more changes nothing, unless what was left of
/// one begins with `data:` again.
pub proof fn sanitizing_twice_changes_nothing(images: Seq<Seq<char>>)
    requires
        forall|i: int|
            0 <= i < sanitized(images).len() ==> !"data:"@.is_prefix_of(
                #[trigger] sanitized(images)[i],
            ),
    ensures
        sanitized(sanitized(images)) == sanitized(images),
{
    let all = images.map_values(|image: Seq<char>| cleaned(image));
    let kept = sanitized(images);
    let again = kept.map_values(|image: Seq<char>| cleaned(image));
    assert forall|i: int| 0 <= i < kept.len() implies #[trigger] again[i] == kept[i] by {
        assert(all.filter(is_image()).contains(kept[i]));
        all.lemma_filter_contains_rev(is_image(), kept[i]);
        let j = choose|j: int| 0 <= j < all.len() && all[j] == kept[i];
        assert(kept[i] == cleaned(images[j]));
        cleaning_twice_changes_nothing(images[j]);
    }
    assert(again == kept);
    assert forall|i: int| 0 <= i < kept.len() implies is_image()(#[trigger] kept[i]) by {
        all.lemma_filter_pred(is_image(), i);
    }
    lists::lemma_filter_keeps_all(kept, is_image());
}

/// What comes before the first comma goes where it begins with `data:`, and so
/// does the white space around the rest.
pub proof fn a_data_prefix_goes_up_to_the_first_comma(kind: Seq<char>, rest: Seq<char>)
    requires
        forall|i: int| 0 <= i < kind.len() ==> #[trigger] kind[i] != ',',
    ensures
        payload("data:"@ + kind + ","@ + rest) == text::trimmed(rest),
        !"data:"@.is_prefix_of(kind) ==> payload(kind + ","@ + rest) == kind + ","@ + rest,
        payload(kind) == kind,
{
    reveal_strlit("data:");
    reveal_strlit(",");
    let image = "data:"@ + kind + ","@ + rest;
    let n = 5 + kind.len() as int;
    assert(forall|j: int| 0 <= j < 5 ==> image[j] == "data:"@[j]);
    assert(forall|j: int| 5 <= j < n ==> image[j] == kind[j - 5]);
    assert(forall|j: int| 0 <= j < n ==> image[j] != ',');
    assert(image[n] == ',');
    lists::lemma_position(image, ',', n);
    assert(image.take(n) == "data:"@ + kind);
    assert(image.take(n).subrange(0, 5) == "data:"@);
    assert(image.skip(n + 1) == rest);
    let plain = kind + ","@ + rest;
    let m = kind.len() as int;
    assert(forall|j: int| 0 <= j < m ==> plain[j] == kind[j]);
    assert(plain[m] == ',');
    lists::lemma_position(plain, ',', m);
    assert(plain.take(m) == kind);
    lists::lemma_position(kind, ',', m);
}

/// An image is cleaned of white space around and inside its payload.
pub proof fn an_image_is_cleaned_of_white_space(image: Seq<char>)
    ensures
        cleaned(image) == text::without_white_space(payload(text::trimmed(image))),
        forall|i: int|
            0 <= i < cleaned(image).len() ==> !text::white_space(#[trigger] cleaned(image)[i]),
{
    lemma_cleaned_has_no_white_space(image);
}

/// One more image is kept, at the end and cleaned, exactly where more than 64
/// bytes are left of it.
pub proof fn one_more_image_is_kept_where_enough_is_left(images: Seq<Seq<char>>, image: Seq<char>)
    ensures
        sanitized(Seq::empty()).len() == 0,
        vstd::utf8::encode_utf8(cleaned(image)).len() > 64 ==> sanitized(images.push(image))
            == sanitized(images).push(cleaned(image)),
        vstd::utf8::encode_utf8(cleaned(image)).len() <= 64 ==> sanitized(images.push(image))
            == sanitized(images),
{
    reveal(Seq::filter);
    let f = |image: Seq<char>| cleaned(image);
    assert(images.push(image).map_values(f).drop_last() == images.map_values(f));
    assert(images.push(image).map_values(f).last() == cleaned(image));
}

} // verus!
