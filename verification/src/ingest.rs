use vstd::prelude::*;
use crate::errors::AppError;

verus! {

/// One part of a multipart body, already buffered: its declared field
/// name, its optional client-supplied filename, and its full payload.
#[derive(Debug, Clone)]
pub struct UploadedAsset {
    pub field_name: String,
    pub filename: Option<String>,
    pub bytes: Vec<u8>,
}

/// Which conversion a request asks for; decides the multipart field
/// name that must carry the payload.
#[derive(Debug, Clone, Copy, PartialEq, Eq, Structural)]
pub enum MediaKind {
    Image,
    Video,
}

/// The multipart field name expected for the operation.
pub open spec fn expected_field(kind: MediaKind) -> Seq<char> {
    match kind {
        MediaKind::Image => "image"@,
        MediaKind::Video => "video"@,
    }
}

/// The message reported when the expected field is absent.
pub open spec fn missing_field_message(kind: MediaKind) -> Seq<char> {
    match kind {
        MediaKind::Image => "No image field found"@,
        MediaKind::Video => "No video field found"@,
    }
}

/// Whether a part carries the expected field name.
pub open spec fn part_matches(p: UploadedAsset, kind: MediaKind) -> bool {
    p.field_name@ == expected_field(kind)
}

/// Whether some part carries the expected field name.
pub open spec fn has_field(parts: Seq<UploadedAsset>, kind: MediaKind) -> bool {
    exists|i: int| 0 <= i < parts.len() && part_matches(parts[i], kind)
}

/// The index of the last part carrying the expected field name, or -1
/// when there is none. When a field repeats, the later payload wins.
pub open spec fn last_field_index(parts: Seq<UploadedAsset>, kind: MediaKind) -> int
    decreases parts.len(),
{
    if parts.len() == 0 {
        -1
    } else if part_matches(parts[parts.len() - 1], kind) {
        parts.len() - 1
    } else {
        last_field_index(parts.drop_last(), kind)
    }
}

/// `last_field_index` points at a matching part exactly when one
/// exists, and nothing after it matches.
pub proof fn lemma_last_field_index(parts: Seq<UploadedAsset>, kind: MediaKind)
    ensures
        has_field(parts, kind) <==> 0 <= last_field_index(parts, kind) < parts.len(),
        !has_field(parts, kind) ==> last_field_index(parts, kind) == -1,
        has_field(parts, kind) ==> part_matches(parts[last_field_index(parts, kind)], kind),
        forall|k: int| last_field_index(parts, kind) < k < parts.len() ==> !part_matches(parts[k], kind),
    decreases parts.len(),
{
    if parts.len() == 0 {
    } else if part_matches(parts[parts.len() - 1], kind) {
        assert(has_field(parts, kind));
    } else {
        let prefix = parts.drop_last();
        lemma_last_field_index(prefix, kind);
        assert(forall|i: int| 0 <= i < prefix.len() ==> prefix[i] == parts[i]);
        if has_field(parts, kind) {
            let i = choose|i: int| 0 <= i < parts.len() && part_matches(parts[i], kind);
            assert(i < parts.len() - 1);
            assert(part_matches(prefix[i], kind));
            assert(has_field(prefix, kind));
        }
        if has_field(prefix, kind) {
            let i = choose|i: int| 0 <= i < prefix.len() && part_matches(prefix[i], kind);
            assert(part_matches(parts[i], kind));
            assert(has_field(parts, kind));
        }
    }
}

/// Consume the buffered parts of a multipart body and hand back the
/// payload of the expected field; parts under other names are skipped.
/// When the field occurs more than once, the last occurrence wins, as
/// a sequential read of the body would leave it. A body without the
/// expected field is a client fault.
pub fn extract_field(parts: Vec<UploadedAsset>, kind: MediaKind) -> (r: Result<UploadedAsset, AppError>)
    ensures
        r is Ok <==> has_field(parts@, kind),
        r matches Ok(p) ==> has_field(parts@, kind) && p == parts@[last_field_index(parts@, kind)],
        r matches Err(e) ==> (e matches AppError::BadRequest(m) && m@ == missing_field_message(kind)),
{
    let expected: String = match kind {
        MediaKind::Image => "image".to_owned(),
        MediaKind::Video => "video".to_owned(),
    };
    let mut parts = parts;
    let n = parts.len();
    let mut i: usize = 0;
    let mut best: Option<usize> = None;
    while i < n
        invariant
            n == parts@.len(),
            i <= n,
            expected@ == expected_field(kind),
            best matches Some(j) ==> j < i && part_matches(parts@[j as int], kind)
                && (forall|k: int| j < k < i ==> !part_matches(parts@[k], kind)),
            best is None ==> (forall|k: int| 0 <= k < i ==> !part_matches(parts@[k], kind)),
        decreases n - i,
    {
        if parts[i].field_name == expected {
            best = Some(i);
        }
        i += 1;
    }
    proof {
        lemma_last_field_index(parts@, kind);
    }
    match best {
        Some(j) => {
            proof {
                assert(has_field(parts@, kind));
                let lfi = last_field_index(parts@, kind);
                assert(!(j < lfi) && !(lfi < j));
            }
            Ok(parts.remove(j))
        }
        None => {
            assert(!has_field(parts@, kind));
            Err(AppError::BadRequest(match kind {
                MediaKind::Image => "No image field found".to_owned(),
                MediaKind::Video => "No video field found".to_owned(),
            }))
        }
    }
}

} // verus!
