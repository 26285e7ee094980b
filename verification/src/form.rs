//! Name/value pairs in `application/x-www-form-urlencoded` syntax.

use vstd::prelude::*;
use vstd::utf8::encode_utf8;
use url::form_urlencoded::Serializer;

verus! {

/// The content type of a body that holds serialised pairs.
pub const FORM_CONTENT_TYPE: &'static str = "application/x-www-form-urlencoded";

/// The pairs as plain text, in the order given.
pub open spec fn pairs_text(params: Seq<(&str, &str)>) -> Seq<(Seq<char>, Seq<char>)> {
    Seq::new(params.len(), |i: int| (params[i].0@, params[i].1@))
}

/// The pairs as plain text, if there are any.
pub open spec fn opt_pairs_text(params: Option<&[(&str, &str)]>) -> Option<
    Seq<(Seq<char>, Seq<char>)>,
> {
    match params {
        Some(p) => Some(pairs_text(p@)),
        None => None,
    }
}

/// What `url::form_urlencoded::byte_serialize` yields for a run of bytes, as
/// one text: the percent-encoding of the form syntax.
pub uninterp spec fn byte_serialized(bytes: Seq<u8>) -> Seq<char>;

/// One pair in form syntax: name, `=`, value, each as its UTF-8 bytes
/// percent-encoded.
pub open spec fn form_pair(pair: (Seq<char>, Seq<char>)) -> Seq<char> {
    byte_serialized(encode_utf8(pair.0)) + seq!['='] + byte_serialized(encode_utf8(pair.1))
}

/// A sequence of pairs in form syntax: the pairs in the order given, `&`
/// between them. No pair is dropped or merged, whatever its name.
pub open spec fn form_urlencoded(pairs: Seq<(Seq<char>, Seq<char>)>) -> Seq<char>
    decreases pairs.len(),
{
    if pairs.len() == 0 {
        Seq::<char>::empty()
    } else if pairs.len() == 1 {
        form_pair(pairs[0])
    } else {
        form_urlencoded(pairs.drop_last()) + seq!['&'] + form_pair(pairs.last())
    }
}

/// Appends one pair to form text with `url::form_urlencoded::Serializer`:
/// `Serializer::new` on the text, then `append_pair`. Trusted: the serializer
/// leaves what is there, puts `&` first unless the text was empty, then the
/// name, `=` and the value, each as `byte_serialize` writes its UTF-8 bytes.
#[verifier::external_body]
fn append_pair(out: &mut String, name: &str, value: &str)
    ensures
        final(out)@ == old(out)@ + (if old(out)@.len() > 0 {
            seq!['&']
        } else {
            Seq::<char>::empty()
        }) + byte_serialized(encode_utf8(name@)) + seq!['='] + byte_serialized(
            encode_utf8(value@),
        ),
{
    Serializer::new(out).append_pair(name, value);
}

/// Serialising is appending: one more pair adds `&` and the pair, and the
/// first pair stands alone.
pub proof fn law_form_appends(pairs: Seq<(Seq<char>, Seq<char>)>, pair: (Seq<char>, Seq<char>))
    ensures
        form_urlencoded(pairs.push(pair)) == if pairs.len() == 0 {
            form_pair(pair)
        } else {
            form_urlencoded(pairs) + seq!['&'] + form_pair(pair)
        },
{
    let longer = pairs.push(pair);
    assert(longer.drop_last() =~= pairs);
    assert(longer.last() == pair);
    assert(longer.len() == 1 ==> longer[0] == pair);
}

/// Form text is empty only for no pairs at all: every pair leaves at least
/// its `=`.
pub proof fn law_form_empty_iff_no_pairs(pairs: Seq<(Seq<char>, Seq<char>)>)
    ensures
        form_urlencoded(pairs).len() == 0 <==> pairs.len() == 0,
    decreases pairs.len(),
{
    if pairs.len() > 1 {
        law_form_empty_iff_no_pairs(pairs.drop_last());
    }
}

/// Serialises the pairs in the order given.
pub fn serialize_pairs(params: &[(&str, &str)]) -> (out: String)
    ensures
        out@ == form_urlencoded(pairs_text(params@)),
{
    let ghost pairs = pairs_text(params@);
    let mut out = String::new();
    let mut i: usize = 0;
    while i < params.len()
        invariant
            i <= params.len(),
            pairs == pairs_text(params@),
            out@ == form_urlencoded(pairs.take(i as int)),
        decreases params.len() - i,
    {
        let (name, value) = params[i];
        proof {
            let done = pairs.take(i as int);
            assert(pairs.take(i + 1) =~= done.push(pairs[i as int]));
            assert(pairs[i as int] == (name@, value@));
            law_form_appends(done, pairs[i as int]);
            law_form_empty_iff_no_pairs(done);
        }
        append_pair(&mut out, name, value);
        i = i + 1;
    }
    assert(pairs.take(i as int) =~= pairs);
    out
}

} // verus!
