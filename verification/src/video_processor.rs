use vstd::prelude::*;
use crate::errors::AppError;
use crate::models::{CompressionQuality, VideoCompressionSettings};

verus! {

/// The character of a single decimal digit.
pub open spec fn dec_digit_char(d: int) -> char {
    seq!['0', '1', '2', '3', '4', '5', '6', '7', '8', '9'][d]
}

/// The decimal digits of a non-negative number, most significant first.
pub open spec fn dec_digits(n: nat) -> Seq<char>
    decreases n,
{
    if n < 10 {
        seq![dec_digit_char(n as int)]
    } else {
        dec_digits(n / 10) + seq![dec_digit_char((n % 10) as int)]
    }
}

/// The decimal text of an integer, with a leading '-' when negative.
pub open spec fn spec_int_dec(n: int) -> Seq<char> {
    if n >= 0 {
        dec_digits(n as nat)
    } else {
        seq!['-'] + dec_digits((-n) as nat)
    }
}

fn dec_digit_str(d: u32) -> (r: &'static str)
    requires
        d < 10,
    ensures
        r@ == seq![dec_digit_char(d as int)],
{
    let r: &'static str = if d == 0 {
        "0"
    } else if d == 1 {
        "1"
    } else if d == 2 {
        "2"
    } else if d == 3 {
        "3"
    } else if d == 4 {
        "4"
    } else if d == 5 {
        "5"
    } else if d == 6 {
        "6"
    } else if d == 7 {
        "7"
    } else if d == 8 {
        "8"
    } else {
        "9"
    };
    proof {
        reveal_strlit("0");
        reveal_strlit("1");
        reveal_strlit("2");
        reveal_strlit("3");
        reveal_strlit("4");
        reveal_strlit("5");
        reveal_strlit("6");
        reveal_strlit("7");
        reveal_strlit("8");
        reveal_strlit("9");
        assert(r@ =~= seq![dec_digit_char(d as int)]);
    }
    r
}

fn push_dec_digits(s: &mut String, m: u32)
    ensures
        final(s)@ == old(s)@ + dec_digits(m as nat),
    decreases m,
{
    if m < 10 {
        s.append(dec_digit_str(m));
    } else {
        push_dec_digits(s, m / 10);
        s.append(dec_digit_str(m % 10));
    }
    assert(s@ =~= old(s)@ + dec_digits(m as nat));
}

/// Render an integer as decimal text.
pub fn int_to_dec_string(n: i32) -> (r: String)
    ensures
        r@ == spec_int_dec(n as int),
{
    let mut s = String::new();
    if n >= 0 {
        push_dec_digits(&mut s, n as u32);
    } else {
        s.append("-");
        let mag: u32 = (-(n as i64)) as u32;
        push_dec_digits(&mut s, mag);
        proof {
            reveal_strlit("-");
        }
    }
    proof {
        assert(s@ =~= spec_int_dec(n as int));
    }
    s
}

/// The audio bitrate handed to the external transcoder: the configured
/// one, or the fixed fallback when none is configured.
pub open spec fn spec_audio_bitrate(settings: VideoCompressionSettings) -> Seq<char> {
    match settings.audio_bitrate {
        Some(b) => b@,
        None => "96k"@,
    }
}

/// The settings the video conversion path runs with: the fastest
/// preset, with an explicit audio bitrate.
pub fn transcode_settings() -> (r: VideoCompressionSettings)
    ensures
        r.quality == CompressionQuality::Maximum,
        r.audio_bitrate matches Some(b) && b@ == "96k"@,
{
    VideoCompressionSettings {
        quality: CompressionQuality::Maximum,
        audio_bitrate: Some("96k".to_owned()),
    }
}

/// Build the fixed argument list for the external transcoder: VP9
/// video at the preset's constant rate factor, speed and deadline,
/// Opus audio at the configured bitrate, WebM container, overwrite
/// allowed. Every argument is pinned, so the invocation can be held
/// byte-for-byte against what the quality policy dictates.
pub fn ffmpeg_args(
    settings: &VideoCompressionSettings,
    input_path: &str,
    output_path: &str,
) -> (r: Vec<String>)
    ensures
        r@.len() == 20,
        r@[0]@ == "-i"@,
        r@[1]@ == input_path@,
        r@[2]@ == "-c:v"@,
        r@[3]@ == "libvpx-vp9"@,
        r@[4]@ == "-crf"@,
        r@[5]@ == settings.quality.spec_crf_text(),
        r@[6]@ == "-b:v"@,
        r@[7]@ == "0"@,
        r@[8]@ == "-deadline"@,
        r@[9]@ == settings.quality.spec_deadline(),
        r@[10]@ == "-cpu-used"@,
        r@[11]@ == settings.quality.spec_cpu_used_text(),
        r@[12]@ == "-c:a"@,
        r@[13]@ == "libopus"@,
        r@[14]@ == "-b:a"@,
        r@[15]@ == spec_audio_bitrate(*settings),
        r@[16]@ == "-f"@,
        r@[17]@ == "webm"@,
        r@[18]@ == "-y"@,
        r@[19]@ == output_path@,
{
    let mut args: Vec<String> = Vec::new();
    args.push("-i".to_owned());
    args.push(input_path.to_owned());
    args.push("-c:v".to_owned());
    args.push("libvpx-vp9".to_owned());
    args.push("-crf".to_owned());
    args.push(settings.quality.crf_text().to_owned());
    args.push("-b:v".to_owned());
    args.push("0".to_owned());
    args.push("-deadline".to_owned());
    args.push(settings.quality.deadline().to_owned());
    args.push("-cpu-used".to_owned());
    args.push(settings.quality.cpu_used_text().to_owned());
    args.push("-c:a".to_owned());
    args.push("libopus".to_owned());
    args.push("-b:a".to_owned());
    match &settings.audio_bitrate {
        Some(b) => args.push(b.clone()),
        None => args.push("96k".to_owned()),
    }
    args.push("-f".to_owned());
    args.push("webm".to_owned());
    args.push("-y".to_owned());
    args.push(output_path.to_owned());
    args
}

/// The message reported when the external transcoder fails.
pub open spec fn spec_exit_message(code: Option<i32>) -> Seq<char> {
    match code {
        Some(c) => "ffmpeg exited with status: "@ + spec_int_dec(c as int),
        None => "ffmpeg terminated by a signal"@,
    }
}

/// Decide the outcome of the external transcoder run: a successful
/// exit continues the pipeline; any other exit is a processing
/// failure carrying the exit status.
pub fn transcode_exit_outcome(success: bool, code: Option<i32>) -> (r: Result<(), AppError>)
    ensures
        r is Ok <==> success,
        r matches Err(e) ==> (e matches AppError::ProcessingError(m) && m@ == spec_exit_message(
            code,
        ) && e.spec_status() == 422 && e.spec_code() == "PROCESSING_ERROR"@),
{
    if success {
        Ok(())
    } else {
        match code {
            Some(c) => {
                let mut m: String = "ffmpeg exited with status: ".to_owned();
                let digits = int_to_dec_string(c);
                m.append(digits.as_str());
                Err(AppError::ProcessingError(m))
            }
            None => Err(AppError::ProcessingError("ffmpeg terminated by a signal".to_owned())),
        }
    }
}

} // verus!
