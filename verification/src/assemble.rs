//! Rebuilds the output side of the asset: every buffer and every transcoded
//! image becomes a descriptor whose payload is inlined as a base64 data URI,
//! with the image's name and extras carried forward unchanged.

use crate::codec::{b64_decode, b64_encode, base64_of, strip_prefix_of};
use crate::format::{ImagePayload, ImageRef};
use crate::transcode::{spec_transcode_result, transcode_image, TranscodeError};
use vstd::prelude::*;
use vstd::string::StringExecFns;

verus! {

/// The scheme and media-type header every inlined payload is wrapped in.
pub open spec fn spec_data_uri_prefix() -> Seq<char> {
    "data:application/octet-stream;base64,"@
}

/// The data URI that inlines a byte sequence: the fixed prefix followed by
/// the standard base64 text of the bytes.
pub open spec fn data_uri_of(b: Seq<u8>) -> Seq<char> {
    spec_data_uri_prefix() + base64_of(b)
}

/// One buffer entry of the output document: its byte count and the data URI
/// holding the bytes themselves.
pub struct BufferDescriptor {
    pub byte_length: usize,
    pub uri: String,
}

/// One image entry of the output document. The payload is always inlined
/// through `uri`; `buffer_view` is kept only to state that it is never used.
pub struct ImageDescriptor {
    pub uri: String,
    pub mime_type: String,
    pub buffer_view: Option<u32>,
    pub name: Option<String>,
    pub extras: Option<String>,
}

/// The reassembled output asset: the inlined buffers and the inlined,
/// transcoded images, in the input's order.
pub struct AssetOutput {
    pub buffers: Vec<BufferDescriptor>,
    pub images: Vec<ImageDescriptor>,
}

/// What the output image entry for input reference `r` and JPEG stream
/// `jpeg` must look like: payload inlined, MIME type fixed, never backed by
/// a buffer view, name and extras identical to the input's.
pub open spec fn image_descriptor_matches(d: ImageDescriptor, r: ImageRef, jpeg: Seq<u8>) -> bool {
    &&& d.uri@ == data_uri_of(jpeg)
    &&& d.mime_type@ == "image/jpeg"@
    &&& d.buffer_view is None
    &&& d.name == r.name
    &&& d.extras == r.extras
}

/// Builds the data URI inlining `bytes`.
pub fn data_uri_for(bytes: &Vec<u8>) -> (r: String)
    ensures
        r@ == data_uri_of(bytes@),
{
    let mut s = String::from_str("data:application/octet-stream;base64,");
    let b64 = b64_encode(bytes);
    s.append(b64.as_str());
    s
}

/// Recovers the bytes inlined in a data URI; `None` for text that no byte
/// sequence inlines to. Together with `data_uri_of` this states the
/// round-trip law: the URI built for any bytes decodes back to exactly
/// those bytes.
pub fn decode_data_uri(uri: &str) -> (r: Option<Vec<u8>>)
    ensures
        forall|b: Seq<u8>| uri@ == data_uri_of(b) ==> r is Some && r->0@ == b,
{
    match strip_prefix_of(uri, "data:application/octet-stream;base64,") {
        Some(rest) => {
            let d = b64_decode(rest);
            proof {
                assert forall|b: Seq<u8>| uri@ == data_uri_of(b) implies d is Some && d->0@
                    == b by {
                    assert(base64_of(b) =~= rest@) by {
                        assert(uri@ == spec_data_uri_prefix() + base64_of(b));
                        assert(uri@ == spec_data_uri_prefix() + rest@);
                        assert(base64_of(b).len() == rest@.len());
                        assert forall|i: int| 0 <= i < rest@.len() implies base64_of(b)[i]
                            == rest@[i] by {
                            let p = spec_data_uri_prefix().len() as int;
                            assert(base64_of(b)[i] == uri@[p + i]);
                            assert(rest@[i] == uri@[p + i]);
                        }
                    }
                }
            }
            d
        },
        None => {
            proof {
                assert forall|b: Seq<u8>| uri@ != data_uri_of(b) by {
                    if uri@ == data_uri_of(b) {
                        assert(spec_data_uri_prefix().is_prefix_of(uri@)) by {
                            assert(uri@.subrange(0, spec_data_uri_prefix().len() as int)
                                =~= spec_data_uri_prefix());
                        }
                    }
                }
            }
            None
        },
    }
}

/// Builds the output entry for one buffer: the declared length is the actual
/// byte count, and the bytes travel verbatim inside the data URI.
pub fn buffer_descriptor(bytes: &Vec<u8>) -> (r: BufferDescriptor)
    ensures
        r.byte_length == bytes@.len(),
        r.uri@ == data_uri_of(bytes@),
{
    BufferDescriptor { byte_length: bytes.len(), uri: data_uri_for(bytes) }
}

/// Round-trip law over buffers: decoding the data URI emitted for a buffer
/// yields bytes identical to the buffer's.
pub fn buffer_uri_roundtrip(bytes: &Vec<u8>) -> (r: Vec<u8>)
    ensures
        r@ == bytes@,
{
    let d = buffer_descriptor(bytes);
    let back = decode_data_uri(d.uri.as_str());
    back.unwrap()
}

/// Builds the output entries for all buffers, in order. Buffer bytes are
/// never recompressed, so this step is idempotent on them.
pub fn assemble_buffers(buffers: &Vec<Vec<u8>>) -> (r: Vec<BufferDescriptor>)
    ensures
        r@.len() == buffers@.len(),
        forall|i: int|
            0 <= i < buffers@.len() ==> (#[trigger] r@[i]).byte_length == buffers@[i]@.len()
                && r@[i].uri@ == data_uri_of(buffers@[i]@),
{
    let mut out: Vec<BufferDescriptor> = Vec::new();
    let mut i: usize = 0;
    while i < buffers.len()
        invariant
            i <= buffers@.len(),
            out@.len() == i,
            forall|j: int|
                0 <= j < i ==> (#[trigger] out@[j]).byte_length == buffers@[j]@.len()
                    && out@[j].uri@ == data_uri_of(buffers@[j]@),
        decreases buffers@.len() - i,
    {
        out.push(buffer_descriptor(&buffers[i]));
        i = i + 1;
    }
    out
}

/// Builds the output entry for one image from its input reference and its
/// transcoded JPEG stream: name and extras are carried forward unchanged,
/// only the payload and its MIME type are replaced, and the entry is never
/// backed by a buffer view.
pub fn assemble_image(r: ImageRef, jpeg: &Vec<u8>) -> (d: ImageDescriptor)
    ensures
        image_descriptor_matches(d, r, jpeg@),
{
    ImageDescriptor {
        uri: data_uri_for(jpeg),
        mime_type: String::from_str("image/jpeg"),
        buffer_view: None,
        name: r.name,
        extras: r.extras,
    }
}

/// Transcodes every image and pairs it positionally with its input
/// reference. The run is all-or-nothing: the first payload that cannot be
/// transcoded aborts it with that payload's error, and payloads past it are
/// not touched.
pub fn transcode_images(
    refs: Vec<ImageRef>,
    payloads: &Vec<ImagePayload>,
    max: u32,
    quality: u32,
) -> (r: Result<Vec<ImageDescriptor>, TranscodeError>)
    requires
        refs@.len() == payloads@.len(),
        1 <= max,
    ensures
        r is Ok <==> (forall|i: int|
            0 <= i < payloads@.len() ==> (#[trigger] spec_transcode_result(
                payloads@[i],
                max as int,
                quality as int,
            )) is Ok),
        r is Ok ==> r->Ok_0@.len() == refs@.len() && (forall|i: int|
            0 <= i < refs@.len() ==> image_descriptor_matches(
                #[trigger] r->Ok_0@[i],
                refs@[i],
                spec_transcode_result(payloads@[i], max as int, quality as int)->Ok_0,
            )),
        r is Err ==> exists|i: int|
            0 <= i < payloads@.len() && (#[trigger] spec_transcode_result(
                payloads@[i],
                max as int,
                quality as int,
            )) is Err && r->Err_0 == spec_transcode_result(
                payloads@[i],
                max as int,
                quality as int,
            )->Err_0 && (forall|j: int|
                0 <= j < i ==> spec_transcode_result(payloads@[j], max as int, quality as int) is Ok),
{
    let ghost refs0 = refs@;
    let mut rem = refs;
    let mut out: Vec<ImageDescriptor> = Vec::new();
    let mut i: usize = 0;
    let n = payloads.len();
    while i < n
        invariant
            n == payloads@.len() == refs0.len(),
            i <= n,
            rem@ == refs0.subrange(i as int, n as int),
            out@.len() == i,
            1 <= max,
            forall|j: int|
                0 <= j < i ==> (#[trigger] spec_transcode_result(
                    payloads@[j],
                    max as int,
                    quality as int,
                )) is Ok,
            forall|j: int|
                0 <= j < i ==> image_descriptor_matches(
                    #[trigger] out@[j],
                    refs0[j],
                    spec_transcode_result(payloads@[j], max as int, quality as int)->Ok_0,
                ),
        decreases n - i,
    {
        let jpeg = match transcode_image(&payloads[i], max, quality) {
            Ok(jpeg) => jpeg,
            Err(e) => {
                return Err(e);
            },
        };
        let r = rem.remove(0);
        assert(r == refs0[i as int]);
        out.push(assemble_image(r, &jpeg));
        i = i + 1;
    }
    Ok(out)
}

/// The whole reassembly: every buffer inlined verbatim, every image
/// transcoded and inlined, all in the input's order, or the first fatal
/// error with nothing produced. On success the output holds exactly one
/// buffer entry per input buffer and one image entry per input image, so
/// every index into either collection resolves on the output exactly where
/// it did on the input.
pub fn transcode_asset(
    buffers: &Vec<Vec<u8>>,
    refs: Vec<ImageRef>,
    payloads: &Vec<ImagePayload>,
    max: u32,
    quality: u32,
) -> (r: Result<AssetOutput, TranscodeError>)
    requires
        refs@.len() == payloads@.len(),
        1 <= max,
    ensures
        r is Ok <==> (forall|i: int|
            0 <= i < payloads@.len() ==> (#[trigger] spec_transcode_result(
                payloads@[i],
                max as int,
                quality as int,
            )) is Ok),
        r is Ok ==> {
            &&& r->Ok_0.buffers@.len() == buffers@.len()
            &&& forall|i: int|
                0 <= i < buffers@.len() ==> (#[trigger] r->Ok_0.buffers@[i]).byte_length
                    == buffers@[i]@.len() && r->Ok_0.buffers@[i].uri@ == data_uri_of(buffers@[i]@)
            &&& r->Ok_0.images@.len() == refs@.len()
            &&& forall|i: int|
                0 <= i < refs@.len() ==> image_descriptor_matches(
                    #[trigger] r->Ok_0.images@[i],
                    refs@[i],
                    spec_transcode_result(payloads@[i], max as int, quality as int)->Ok_0,
                )
        },
        r is Err ==> exists|i: int|
            0 <= i < payloads@.len() && (#[trigger] spec_transcode_result(
                payloads@[i],
                max as int,
                quality as int,
            )) is Err && r->Err_0 == spec_transcode_result(
                payloads@[i],
                max as int,
                quality as int,
            )->Err_0,
{
    let images = match transcode_images(refs, payloads, max, quality) {
        Ok(images) => images,
        Err(e) => {
            return Err(e);
        },
    };
    let out_buffers = assemble_buffers(buffers);
    Ok(AssetOutput { buffers: out_buffers, images })
}

} // verus!
