//! The framing of AES-256-GCM ciphertexts: the encrypted bytes followed by
//! the 16-byte authentication tag.
use vstd::prelude::*;
use vstd::string::*;
use crate::error::SignalError;

verus! {

/// Length in bytes of an AES-GCM authentication tag.
pub const AES_GCM_TAG_SIZE: usize = 16;

/// The framed ciphertext: the encrypted bytes, then the tag.
pub open spec fn framed(encrypted: Seq<u8>, tag: Seq<u8>) -> Seq<u8> {
    encrypted + tag
}

/// The parts of a framed ciphertext: everything but the last 16 bytes, and
/// the last 16 bytes; none when it is shorter than a tag.
pub open spec fn unframed(ciphertext: Seq<u8>) -> Option<(Seq<u8>, Seq<u8>)> {
    if ciphertext.len() < AES_GCM_TAG_SIZE {
        None
    } else {
        let cut = ciphertext.len() - AES_GCM_TAG_SIZE;
        Some((ciphertext.subrange(0, cut), ciphertext.subrange(cut, ciphertext.len() as int)))
    }
}

/// Appends the authentication tag to the encrypted bytes, which is the
/// ciphertext that encryption hands out.
pub fn append_tag(encrypted: Vec<u8>, tag: &[u8; 16]) -> (r: Vec<u8>)
    ensures
        r@ == framed(encrypted@, tag@),
        r@ == encrypted@ + tag@,
        r@.len() == encrypted@.len() + AES_GCM_TAG_SIZE,
        r@.subrange(0, encrypted@.len() as int) == encrypted@,
        r@.subrange(r@.len() - AES_GCM_TAG_SIZE, r@.len() as int) == tag@,
{
    let mut ciphertext = encrypted;
    let mut i: usize = 0;
    while i < AES_GCM_TAG_SIZE
        invariant
            i <= AES_GCM_TAG_SIZE,
            tag@.len() == AES_GCM_TAG_SIZE,
            ciphertext@ == encrypted@ + tag@.subrange(0, i as int),
        decreases AES_GCM_TAG_SIZE - i,
    {
        ciphertext.push(tag[i]);
        i = i + 1;
        assert(tag@.subrange(0, i as int) == tag@.subrange(0, (i - 1) as int).push(tag@[i - 1]));
    }
    assert(tag@.subrange(0, AES_GCM_TAG_SIZE as int) == tag@);
    assert(ciphertext@.subrange(0, encrypted@.len() as int) == encrypted@);
    assert(ciphertext@.subrange(ciphertext@.len() - AES_GCM_TAG_SIZE, ciphertext@.len() as int) == tag@);
    ciphertext
}

/// Splits a ciphertext into its encrypted bytes and its 16-byte tag.
/// A ciphertext shorter than a tag is refused with `InvalidArgument`
/// (`ciphertext too short`), before any key or nonce is looked at.
pub fn split_ciphertext_and_tag(ciphertext: &[u8]) -> (r: Result<(Vec<u8>, Vec<u8>), SignalError>)
    ensures
        r is Ok <==> ciphertext@.len() >= AES_GCM_TAG_SIZE,
        r matches Ok((encrypted, tag)) ==> unframed(ciphertext@) == Some((encrypted@, tag@)),
        r matches Ok((encrypted, tag)) ==> encrypted@ == ciphertext@.subrange(0, ciphertext@.len() - AES_GCM_TAG_SIZE),
        r matches Ok((encrypted, tag)) ==> tag@ == ciphertext@.subrange(
            ciphertext@.len() - AES_GCM_TAG_SIZE,
            ciphertext@.len() as int,
        ),
        r matches Ok((encrypted, tag)) ==> encrypted@ + tag@ == ciphertext@,
        r matches Err(e) ==> (e matches SignalError::InvalidArgument { reason }
            && reason@ == "ciphertext too short"@),
{
    if ciphertext.len() < AES_GCM_TAG_SIZE {
        return Err(SignalError::InvalidArgument { reason: String::from_str("ciphertext too short") });
    }
    let (encrypted, tag) = ciphertext.split_at(ciphertext.len() - AES_GCM_TAG_SIZE);
    assert(encrypted@ + tag@ == ciphertext@);
    Ok((vstd::slice::slice_to_vec(encrypted), vstd::slice::slice_to_vec(tag)))
}

/// Framing then unframing gives back the encrypted bytes and the tag.
pub proof fn lemma_unframe_framed(encrypted: Seq<u8>, tag: Seq<u8>)
    requires
        tag.len() == AES_GCM_TAG_SIZE,
    ensures
        unframed(framed(encrypted, tag)) == Some((encrypted, tag)),
{
    let c = framed(encrypted, tag);
    assert(c.subrange(0, encrypted.len() as int) == encrypted);
    assert(c.subrange(encrypted.len() as int, c.len() as int) == tag);
}

/// Unframing then framing gives back the ciphertext.
pub proof fn lemma_frame_unframed(ciphertext: Seq<u8>)
    requires
        ciphertext.len() >= AES_GCM_TAG_SIZE,
    ensures
        unframed(ciphertext) matches Some((encrypted, tag)) && framed(encrypted, tag) == ciphertext
            && tag.len() == AES_GCM_TAG_SIZE,
{
    let cut = ciphertext.len() - AES_GCM_TAG_SIZE;
    assert(ciphertext.subrange(0, cut) + ciphertext.subrange(cut, ciphertext.len() as int) == ciphertext);
}

/// The ciphertext that encryption hands out ends with the tag, byte for
/// byte in its given order, after the encrypted bytes as they were.
pub proof fn lemma_appended_tag_is_last(encrypted: Vec<u8>, tag: &[u8; 16], r: Vec<u8>)
    requires
        call_ensures(append_tag, (encrypted, tag), r),
    ensures
        r@.len() == encrypted@.len() + 16,
        forall|i: int| 0 <= i < encrypted@.len() ==> r@[i] == encrypted@[i],
        forall|i: int| 0 <= i < 16 ==> r@[encrypted@.len() + i] == tag@[i],
{
    assert forall|i: int| 0 <= i < 16 implies r@[encrypted@.len() + i] == tag@[i] by {
        assert(r@ == encrypted@ + tag@);
    }
}

/// Splitting a ciphertext gives its last 16 bytes as they stand as the tag,
/// and everything before them as the encrypted bytes.
pub proof fn lemma_split_takes_last_bytes(ciphertext: &[u8], r: Result<(Vec<u8>, Vec<u8>), SignalError>)
    requires
        call_ensures(split_ciphertext_and_tag, (ciphertext,), r),
        ciphertext@.len() >= 16,
    ensures
        r matches Ok((encrypted, tag)) && encrypted@.len() + 16 == ciphertext@.len() && tag@.len() == 16
            && (forall|i: int| 0 <= i < encrypted@.len() ==> encrypted@[i] == ciphertext@[i])
            && (forall|i: int| 0 <= i < 16 ==> tag@[i] == ciphertext@[encrypted@.len() + i]),
{
    let (encrypted, tag) = r->Ok_0;
    assert(encrypted@ + tag@ == ciphertext@);
    assert forall|i: int| 0 <= i < 16 implies tag@[i] == ciphertext@[encrypted@.len() + i] by {
        assert((encrypted@ + tag@)[encrypted@.len() + i] == tag@[i]);
    }
    assert forall|i: int| 0 <= i < encrypted@.len() implies encrypted@[i] == ciphertext@[i] by {
        assert((encrypted@ + tag@)[i] == encrypted@[i]);
    }
}

/// Splitting what encryption handed out gives back the encrypted bytes and
/// the tag that went in.
pub proof fn lemma_split_undoes_append(
    encrypted: Vec<u8>,
    tag: &[u8; 16],
    framed_ciphertext: Vec<u8>,
    ciphertext: &[u8],
    r: Result<(Vec<u8>, Vec<u8>), SignalError>,
)
    requires
        call_ensures(append_tag, (encrypted, tag), framed_ciphertext),
        ciphertext@ == framed_ciphertext@,
        call_ensures(split_ciphertext_and_tag, (ciphertext,), r),
    ensures
        r matches Ok((e, t)) && e@ == encrypted@ && t@ == tag@,
{
    let (e, t) = r->Ok_0;
    assert(e@ == framed_ciphertext@.subrange(0, encrypted@.len() as int));
}

} // verus!
