use vstd::prelude::*;
use crate::b64::base64_encode;
use crate::compose::{ends_with, spec_image_output_name, success_message, success_response};
use crate::errors::AppError;
use crate::image_processor::{
    convert_png_to_webp, is_valid_png, spec_is_valid_png, spec_png_to_webp, spec_png_to_webp_ok,
};
use crate::ingest::{
    extract_field, has_field, last_field_index, missing_field_message, MediaKind, UploadedAsset,
};
use crate::models::ConvertResponse;

verus! {

/// The part whose payload an image request is converted from: the last
/// part submitted under the expected field name.
pub open spec fn image_part(parts: Seq<UploadedAsset>) -> UploadedAsset {
    parts[last_field_index(parts, MediaKind::Image)]
}

/// The whole image conversion decision, from the buffered multipart
/// parts to the result record: pick the payload of the image field,
/// gate it on the PNG signature before any decode work, convert it to
/// WebP, and assemble the response. A missing field or a non-PNG
/// payload is a client fault; a payload that fails to decode or whose
/// dimensions the encoder refuses is a processing failure.
pub fn convert_image_upload(parts: Vec<UploadedAsset>) -> (r: Result<ConvertResponse, AppError>)
    ensures
        r is Ok <==> (has_field(parts@, MediaKind::Image) && spec_is_valid_png(
            image_part(parts@).bytes@,
        ) && spec_png_to_webp_ok(image_part(parts@).bytes@)),
        !has_field(parts@, MediaKind::Image) ==> (r matches Err(e)
            && e matches AppError::BadRequest(m)
            && m@ == missing_field_message(MediaKind::Image)
            && e.spec_status() == 400 && e.spec_code() == "BAD_REQUEST"@),
        has_field(parts@, MediaKind::Image) && !spec_is_valid_png(image_part(parts@).bytes@)
            ==> (r matches Err(e) && e matches AppError::BadRequest(m)
            && m@ == "File is not a valid PNG image"@ && e.spec_status() == 400),
        has_field(parts@, MediaKind::Image) && spec_is_valid_png(image_part(parts@).bytes@)
            && !spec_png_to_webp_ok(image_part(parts@).bytes@) ==> (r matches Err(e)
            && e is ProcessingError && e.spec_status() == 422
            && e.spec_code() == "PROCESSING_ERROR"@),
        r matches Ok(resp) ==> ({
            let p = image_part(parts@);
            &&& resp.success == true
            &&& resp.message@ == success_message(MediaKind::Image)
            &&& resp.filename@ == spec_image_output_name(p.filename)
            &&& ends_with(resp.filename@, ".webp"@)
            &&& resp.webp_data@ == base64_encode(spec_png_to_webp(p.bytes@))
            &&& resp.original_size == p.bytes@.len()
            &&& resp.converted_size == spec_png_to_webp(p.bytes@).len()
        }),
{
    let part = match extract_field(parts, MediaKind::Image) {
        Ok(p) => p,
        Err(e) => {
            return Err(e);
        }
    };
    if !is_valid_png(part.bytes.as_slice()) {
        return Err(AppError::BadRequest("File is not a valid PNG image".to_owned()));
    }
    let webp_data = match convert_png_to_webp(&part.bytes) {
        Ok(d) => d,
        Err(e) => {
            return Err(e);
        }
    };
    let original_size = part.bytes.len();
    Ok(success_response(MediaKind::Image, part.filename, original_size, &webp_data))
}

} // verus!
