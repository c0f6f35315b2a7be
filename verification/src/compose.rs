use vstd::prelude::*;
use crate::b64::{base64_encode, base64_standard_encode};
use crate::ingest::MediaKind;
use crate::models::ConvertResponse;

verus! {

/// The target-format extension for the operation.
pub open spec fn target_extension(kind: MediaKind) -> Seq<char> {
    match kind {
        MediaKind::Image => ".webp"@,
        MediaKind::Video => ".webm"@,
    }
}

/// Whether `s` ends with `suffix`.
pub open spec fn ends_with(s: Seq<char>, suffix: Seq<char>) -> bool {
    s.len() >= suffix.len() && s.subrange(s.len() - suffix.len(), s.len() as int) == suffix
}

/// Whether a name ends in ".png", compared without regard to letter case.
pub open spec fn ends_with_png_nocase(name: Seq<char>) -> bool {
    name.len() >= 4
        && name[name.len() - 4] == '.'
        && (name[name.len() - 3] == 'p' || name[name.len() - 3] == 'P')
        && (name[name.len() - 2] == 'n' || name[name.len() - 2] == 'N')
        && (name[name.len() - 1] == 'g' || name[name.len() - 1] == 'G')
}

/// Output name for an image conversion: the input name with its ".png"
/// extension stripped case-insensitively, or the fixed placeholder stem
/// when the name is absent or has no such extension; then ".webp".
pub open spec fn spec_image_output_name(filename: Option<String>) -> Seq<char> {
    match filename {
        Some(f) => if ends_with_png_nocase(f@) {
            f@.subrange(0, f@.len() - 4) + ".webp"@
        } else {
            "converted"@ + ".webp"@
        },
        None => "converted"@ + ".webp"@,
    }
}

/// The index of the last '.' in a name, or -1 when there is none.
pub open spec fn last_dot_index(name: Seq<char>) -> int
    decreases name.len(),
{
    if name.len() == 0 {
        -1
    } else if name[name.len() - 1] == '.' {
        name.len() - 1
    } else {
        last_dot_index(name.drop_last())
    }
}

/// `last_dot_index` points at a '.' exactly when the name holds one,
/// and no later position holds one.
pub proof fn lemma_last_dot_index(name: Seq<char>)
    ensures
        (exists|i: int| 0 <= i < name.len() && name[i] == '.')
            <==> 0 <= last_dot_index(name) < name.len(),
        !(exists|i: int| 0 <= i < name.len() && name[i] == '.') ==> last_dot_index(name) == -1,
        0 <= last_dot_index(name) < name.len() ==> name[last_dot_index(name)] == '.',
        forall|k: int| last_dot_index(name) < k < name.len() ==> name[k] != '.',
    decreases name.len(),
{
    if name.len() == 0 {
    } else if name[name.len() - 1] == '.' {
    } else {
        let prefix = name.drop_last();
        lemma_last_dot_index(prefix);
        assert(forall|i: int| 0 <= i < prefix.len() ==> prefix[i] == name[i]);
        if exists|i: int| 0 <= i < name.len() && name[i] == '.' {
            let i = choose|i: int| 0 <= i < name.len() && name[i] == '.';
            assert(i < name.len() - 1);
            assert(prefix[i] == '.');
        }
        if exists|i: int| 0 <= i < prefix.len() && prefix[i] == '.' {
            let i = choose|i: int| 0 <= i < prefix.len() && prefix[i] == '.';
            assert(name[i] == '.');
        }
    }
}

/// Output name for a video conversion: the input name up to its last
/// '.', or the fixed placeholder when the name is absent or holds no
/// '.'; then ".webm".
pub open spec fn spec_video_output_name(filename: Option<String>) -> Seq<char> {
    match filename {
        Some(f) => if last_dot_index(f@) >= 0 {
            f@.subrange(0, last_dot_index(f@)) + ".webm"@
        } else {
            "converted"@ + ".webm"@
        },
        None => "converted"@ + ".webm"@,
    }
}

/// Output name for the operation.
pub open spec fn spec_output_name(kind: MediaKind, filename: Option<String>) -> Seq<char> {
    match kind {
        MediaKind::Image => spec_image_output_name(filename),
        MediaKind::Video => spec_video_output_name(filename),
    }
}

/// Derive the output filename for a conversion. Whatever the input
/// name's case, or with no input name at all, the result ends in the
/// target-format extension.
pub fn output_filename(kind: MediaKind, filename: Option<String>) -> (r: String)
    ensures
        r@ == spec_output_name(kind, filename),
        ends_with(r@, target_extension(kind)),
{
    let stem: String = match (kind, &filename) {
        (MediaKind::Image, Some(f)) => {
            let n = f.as_str().unicode_len();
            if n >= 4 {
                let c0 = f.as_str().get_char(n - 4);
                let c1 = f.as_str().get_char(n - 3);
                let c2 = f.as_str().get_char(n - 2);
                let c3 = f.as_str().get_char(n - 1);
                if c0 == '.' && (c1 == 'p' || c1 == 'P') && (c2 == 'n' || c2 == 'N')
                    && (c3 == 'g' || c3 == 'G') {
                    f.as_str().substring_char(0, n - 4).to_owned()
                } else {
                    "converted".to_owned()
                }
            } else {
                "converted".to_owned()
            }
        }
        (MediaKind::Video, Some(f)) => {
            let n = f.as_str().unicode_len();
            let mut i: usize = 0;
            let mut dot: Option<usize> = None;
            while i < n
                invariant
                    i <= n,
                    n == f@.len(),
                    dot matches Some(j) ==> j < i && f@[j as int] == '.'
                        && (forall|k: int| j < k < i ==> f@[k] != '.'),
                    dot is None ==> (forall|k: int| 0 <= k < i ==> f@[k] != '.'),
                decreases n - i,
            {
                if f.as_str().get_char(i) == '.' {
                    dot = Some(i);
                }
                i += 1;
            }
            proof {
                lemma_last_dot_index(f@);
            }
            match dot {
                Some(j) => {
                    proof {
                        let ldi = last_dot_index(f@);
                        assert(!(j < ldi) && !(ldi < j));
                    }
                    f.as_str().substring_char(0, j).to_owned()
                }
                None => "converted".to_owned(),
            }
        }
        (_, None) => "converted".to_owned(),
    };
    let r = match kind {
        MediaKind::Image => stem.concat(".webp"),
        MediaKind::Video => stem.concat(".webm"),
    };
    proof {
        reveal_strlit(".webp");
        reveal_strlit(".webm");
        match kind {
            MediaKind::Image => {
                assert(r@.subrange(r@.len() - 5, r@.len() as int) =~= ".webp"@);
            }
            MediaKind::Video => {
                assert(r@.subrange(r@.len() - 5, r@.len() as int) =~= ".webm"@);
            }
        }
    }
    r
}

/// The success message for the operation.
pub open spec fn success_message(kind: MediaKind) -> Seq<char> {
    match kind {
        MediaKind::Image => "Image converted successfully"@,
        MediaKind::Video => "Video converted successfully"@,
    }
}

/// Assemble the uniform result record for a finished conversion: the
/// derived output filename, the output bytes encoded as base64, and
/// the two byte counts from which the boundary derives the percentage
/// saved.
pub fn success_response(
    kind: MediaKind,
    filename: Option<String>,
    original_size: usize,
    output: &Vec<u8>,
) -> (r: ConvertResponse)
    ensures
        r.success == true,
        r.message@ == success_message(kind),
        r.filename@ == spec_output_name(kind, filename),
        ends_with(r.filename@, target_extension(kind)),
        r.webp_data@ == base64_encode(output@),
        r.original_size == original_size,
        r.converted_size == output@.len(),
{
    let message: String = match kind {
        MediaKind::Image => "Image converted successfully".to_owned(),
        MediaKind::Video => "Video converted successfully".to_owned(),
    };
    ConvertResponse {
        success: true,
        message,
        filename: output_filename(kind, filename),
        webp_data: base64_standard_encode(output),
        original_size,
        converted_size: output.len(),
    }
}

} // verus!
