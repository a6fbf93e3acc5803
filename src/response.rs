//! The JSON text of the host's replies. Strings are quoted by serde_json; the
//! fixed structure of each reply, and its integers, are written here.
use crate::types::SavedBookmark;
use vstd::prelude::*;
use vstd::string::StringSliceAdditionalSpecFns;

verus! {

/// The JSON text of a string: quoted, with what JSON requires escaped.
pub uninterp spec fn json_string(s: Seq<char>) -> Seq<u8>;

/// Relies on `serde_json::to_vec` applied to a `str`: the string's JSON text.
/// It cannot fail here: a `str` holds no map, and writing into a `Vec` never
/// fails.
#[verifier::external_body]
fn quote(s: &str) -> (r: Vec<u8>)
    ensures
        r@ == json_string(s@),
{
    serde_json::to_vec(s).unwrap_or_default()
}

/// The UTF-8 bytes of a text.
pub open spec fn text(s: &str) -> Seq<u8> {
    s.spec_bytes()
}

/// The decimal digits of `n`.
pub open spec fn decimal(n: nat) -> Seq<u8>
    decreases n,
{
    if n < 10 {
        seq![(n + 48) as u8]
    } else {
        decimal(n / 10) + seq![((n % 10) + 48) as u8]
    }
}

/// The decimal text of an integer, with a minus sign when it is negative.
pub open spec fn signed_decimal(i: int) -> Seq<u8> {
    if i < 0 {
        seq![45u8] + decimal((-i) as nat)
    } else {
        decimal(i as nat)
    }
}

/// `true` or `false`.
pub open spec fn bool_text(b: bool) -> Seq<u8> {
    if b {
        text("true")
    } else {
        text("false")
    }
}

/// The items, separated by commas.
pub open spec fn join(items: Seq<Seq<u8>>) -> Seq<u8>
    decreases items.len(),
{
    if items.len() == 0 {
        Seq::empty()
    } else if items.len() == 1 {
        items[0]
    } else {
        join(items.drop_last()) + seq![44u8] + items.last()
    }
}

/// The JSON text of a bookmark, its members in the order of their names.
pub open spec fn bookmark_text(bm: SavedBookmark) -> Seq<u8> {
    text("{\"desc\":") + json_string(bm.desc@) + text(",\"flags\":") + signed_decimal(
        bm.flags as int,
    ) + text(",\"id\":") + decimal(bm.id as nat) + text(",\"metadata\":") + json_string(
        bm.metadata@,
    ) + text(",\"tags\":") + json_string(bm.tags@) + text(",\"url\":") + json_string(bm.url@)
        + text("}")
}

/// The views of a list of encoded items.
pub open spec fn views(items: Seq<Vec<u8>>) -> Seq<Seq<u8>> {
    items.map_values(|v: Vec<u8>| v@)
}

/// The reply that lists a page of encoded bookmarks.
pub open spec fn page_text(items: Seq<Seq<u8>>, more: bool) -> Seq<u8> {
    text("{\"bookmarks\":[") + join(items) + text("],\"moreAvailable\":") + bool_text(more) + text(
        ",\"success\":true}",
    )
}

/// The decimal text of each identifier.
pub open spec fn id_texts(ids: Seq<usize>) -> Seq<Seq<u8>> {
    ids.map_values(|id: usize| decimal(id as nat))
}

/// The reply to a successful addition of bookmarks.
pub open spec fn ids_text(ids: Seq<usize>) -> Seq<u8> {
    text("{\"ids\":[") + join(id_texts(ids)) + text(
        "],\"success\":true}",
    )
}

/// The reply that reports only whether the request succeeded.
pub open spec fn status_text(ok: bool) -> Seq<u8> {
    text("{\"success\":") + bool_text(ok) + text("}")
}

/// Appends `b` to `out`.
pub fn push_bytes(out: &mut Vec<u8>, b: &[u8])
    ensures
        final(out)@ == old(out)@ + b@,
{
    let mut i: usize = 0;
    while i < b.len()
        invariant
            i <= b@.len(),
            out@ == old(out)@ + b@.subrange(0, i as int),
        decreases b.len() - i,
    {
        out.push(b[i]);
        i += 1;
        assert(b@.subrange(0, i as int) == b@.subrange(0, i - 1) + seq![b@[i - 1]]);
    }
    assert(b@.subrange(0, b@.len() as int) == b@);
}

/// Appends the bytes of `s` to `out`.
pub fn push_text(out: &mut Vec<u8>, s: &str)
    ensures
        final(out)@ == old(out)@ + text(s),
{
    push_bytes(out, s.as_bytes());
}

/// Appends the decimal digits of `n` to `out`.
pub fn push_decimal(out: &mut Vec<u8>, n: u64)
    ensures
        final(out)@ == old(out)@ + decimal(n as nat),
    decreases n,
{
    if n >= 10 {
        push_decimal(out, n / 10);
    }
    let digit: u8 = (n % 10) as u8 + 48;
    out.push(digit);
    if n >= 10 {
        assert(old(out)@ + decimal((n / 10) as nat) + seq![digit] == old(out)@ + decimal(n as nat));
    }
}

/// Appends the decimal text of `i` to `out`.
pub fn push_signed(out: &mut Vec<u8>, i: i32)
    ensures
        final(out)@ == old(out)@ + signed_decimal(i as int),
{
    if i < 0 {
        out.push(45u8);
        push_decimal(out, (-(i as i64)) as u64);
        assert(old(out)@ + seq![45u8] + decimal((-i) as nat) == old(out)@ + signed_decimal(
            i as int,
        ));
    } else {
        push_decimal(out, i as u64);
    }
}

/// Appends `true` or `false` to `out`.
pub fn push_bool(out: &mut Vec<u8>, b: bool)
    ensures
        final(out)@ == old(out)@ + bool_text(b),
{
    if b {
        push_text(out, "true");
    } else {
        push_text(out, "false");
    }
}

/// Appends the items to `out`, separated by commas.
pub fn push_joined(out: &mut Vec<u8>, items: &Vec<Vec<u8>>)
    ensures
        final(out)@ == old(out)@ + join(views(items@)),
{
    let mut i: usize = 0;
    while i < items.len()
        invariant
            i <= items@.len(),
            out@ == old(out)@ + join(views(items@).take(i as int)),
        decreases items.len() - i,
    {
        let ghost before = out@;
        if i > 0 {
            out.push(44u8);
        }
        push_bytes(out, items[i].as_slice());
        let ghost next = views(items@).take(i + 1);
        assert(next.drop_last() == views(items@).take(i as int));
        assert(next.last() == items@[i as int]@);
        if i == 0 {
            assert(join(views(items@).take(0)) == Seq::<u8>::empty());
            assert(out@ == old(out)@ + join(next));
        } else {
            assert(out@ == before + seq![44u8] + items@[i as int]@);
        }
        i += 1;
    }
    assert(views(items@).take(items@.len() as int) == views(items@));
}

/// Appends the JSON text of a string to `out`.
pub fn push_quoted(out: &mut Vec<u8>, s: &str)
    ensures
        final(out)@ == old(out)@ + json_string(s@),
{
    let q = quote(s);
    push_bytes(out, q.as_slice());
}

/// The JSON text of a bookmark.
pub fn bookmark_bytes(bm: &SavedBookmark) -> (r: Vec<u8>)
    ensures
        r@ == bookmark_text(*bm),
{
    let mut out: Vec<u8> = Vec::new();
    push_text(&mut out, "{\"desc\":");
    push_quoted(&mut out, bm.desc.as_str());
    push_text(&mut out, ",\"flags\":");
    push_signed(&mut out, bm.flags);
    push_text(&mut out, ",\"id\":");
    push_decimal(&mut out, bm.id as u64);
    push_text(&mut out, ",\"metadata\":");
    push_quoted(&mut out, bm.metadata.as_str());
    push_text(&mut out, ",\"tags\":");
    push_quoted(&mut out, bm.tags.as_str());
    push_text(&mut out, ",\"url\":");
    push_quoted(&mut out, bm.url.as_str());
    push_text(&mut out, "}");
    out
}

/// The reply that lists a page of encoded bookmarks.
pub fn page_bytes(items: &Vec<Vec<u8>>, more: bool) -> (r: Vec<u8>)
    ensures
        r@ == page_text(views(items@), more),
{
    let mut out: Vec<u8> = Vec::new();
    push_text(&mut out, "{\"bookmarks\":[");
    push_joined(&mut out, items);
    push_text(&mut out, "],\"moreAvailable\":");
    push_bool(&mut out, more);
    push_text(&mut out, ",\"success\":true}");
    out
}

/// The reply to a successful addition of bookmarks.
pub fn ids_bytes(ids: &Vec<usize>) -> (r: Vec<u8>)
    ensures
        r@ == ids_text(ids@),
{
    let mut encoded: Vec<Vec<u8>> = Vec::new();
    let mut i: usize = 0;
    while i < ids.len()
        invariant
            i <= ids@.len(),
            encoded@.len() == i,
            views(encoded@) =~= id_texts(ids@.take(i as int)),
        decreases ids.len() - i,
    {
        let mut digits: Vec<u8> = Vec::new();
        push_decimal(&mut digits, ids[i] as u64);
        assert(digits@ =~= decimal(ids@[i as int] as nat));
        let ghost prev = encoded@;
        let ghost d = digits@;
        encoded.push(digits);
        proof {
            let t = ids@.take(i + 1);
            assert(id_texts(t)[i as int] == decimal(ids@[i as int] as nat));
            assert(views(encoded@)[i as int] == d);
            assert(forall|j: int| 0 <= j < i ==> views(encoded@)[j] == views(prev)[j]);
            assert(forall|j: int| 0 <= j < i ==> id_texts(t)[j] == id_texts(ids@.take(i as int))[j]);
        }
        i += 1;
        assert(views(encoded@) =~= id_texts(ids@.take(i as int)));
    }
    assert(ids@.take(ids@.len() as int) == ids@);
    let mut out: Vec<u8> = Vec::new();
    push_text(&mut out, "{\"ids\":[");
    push_joined(&mut out, &encoded);
    push_text(&mut out, "],\"success\":true}");
    out
}

/// The reply that reports only whether the request succeeded.
pub fn status_bytes(ok: bool) -> (r: Vec<u8>)
    ensures
        r@ == status_text(ok),
{
    let mut out: Vec<u8> = Vec::new();
    push_text(&mut out, "{\"success\":");
    push_bool(&mut out, ok);
    push_text(&mut out, "}");
    out
}

} // verus!
