//! Container-format rules of the decoder front-end.
//!
//! Before a file is handed to the container decoder, its format is read from
//! the file extension and normalised to the name the decoder expects; a file
//! without an extension is rejected outright.  When the decoder then fails
//! to probe the container, the wording of its error decides whether the file
//! counts as corrupted audio or as an unsupported format.  Both rules are
//! purely textual and are verified here against exact models of the path and
//! the message.
use crate::error::FingerprintError;
use crate::text::chars_contain;
use crate::text::chars_eq_str;
use crate::text::chars_of;
use crate::text::last_index_of_char;
use crate::text::lower_chars;
use crate::text::spec_contains;
use crate::text::spec_last_index_of;
use crate::text::spec_lower;
use crate::text::string_from_chars;
use vstd::prelude::*;
use vstd::string::StringExecFns;

verus! {

/// The final component of a path: everything after the last `/`, or the
/// whole path when it has no `/`.
pub open spec fn spec_last_component(p: Seq<char>) -> Seq<char> {
    p.subrange(spec_last_index_of(p, '/') + 1, p.len() as int)
}

/// The extension of a path: the part of its final component after the last
/// `.`, provided that `.` is not the component's first character.  A
/// component without such a `.` has no extension.
pub open spec fn spec_extension(p: Seq<char>) -> Option<Seq<char>> {
    let comp = spec_last_component(p);
    let d = spec_last_index_of(comp, '.');
    if d <= 0 {
        None
    } else {
        Some(comp.subrange(d + 1, comp.len() as int))
    }
}

/// Normalises a lowercased extension to the container name the decoder
/// expects; an extension outside the table passes through unchanged.
pub open spec fn spec_normalize_ext(e: Seq<char>) -> Seq<char> {
    if e == "wav"@ || e == "wave"@ {
        "wav"@
    } else if e == "flac"@ {
        "flac"@
    } else if e == "mp3"@ || e == "mpeg"@ || e == "mpg"@ {
        "mp3"@
    } else if e == "m4a"@ || e == "m4b"@ || e == "m4v"@ || e == "mp4"@ {
        "m4a"@
    } else if e == "ogg"@ || e == "oga"@ || e == "ogx"@ {
        "ogg"@
    } else if e == "opus"@ {
        "ogg"@
    } else if e == "aac"@ || e == "adts"@ {
        "aac"@
    } else if e == "aiff"@ || e == "aif"@ || e == "aifc"@ || e == "aiffc"@ {
        "aiff"@
    } else if e == "wma"@ || e == "wmv"@ {
        "wma"@
    } else if e == "mkv"@ || e == "mka"@ || e == "mks"@ {
        "mkv"@
    } else if e == "webm"@ || e == "weba"@ {
        "webm"@
    } else if e == "dsd"@ || e == "dsf"@ || e == "dff"@ {
        "dsd"@
    } else if e == "mov"@ || e == "qt"@ {
        "mov"@
    } else if e == "au"@ || e == "snd"@ {
        "au"@
    } else if e == "alac"@ {
        "alac"@
    } else if e == "flv"@ {
        "flv"@
    } else if e == "mxf"@ {
        "mxf"@
    } else if e == "vorbis"@ {
        "ogg"@
    } else {
        e
    }
}

/// Maps a lowercased extension through the normalisation table.
fn normalize_ext(low: &Vec<char>) -> (r: String)
    ensures
        r@ == spec_normalize_ext(low@),
{
    if chars_eq_str(low, "wav") || chars_eq_str(low, "wave") {
        String::from_str("wav")
    } else if chars_eq_str(low, "flac") {
        String::from_str("flac")
    } else if chars_eq_str(low, "mp3") || chars_eq_str(low, "mpeg") || chars_eq_str(low, "mpg") {
        String::from_str("mp3")
    } else if chars_eq_str(low, "m4a") || chars_eq_str(low, "m4b") || chars_eq_str(low, "m4v")
        || chars_eq_str(low, "mp4") {
        String::from_str("m4a")
    } else if chars_eq_str(low, "ogg") || chars_eq_str(low, "oga") || chars_eq_str(low, "ogx") {
        String::from_str("ogg")
    } else if chars_eq_str(low, "opus") {
        String::from_str("ogg")
    } else if chars_eq_str(low, "aac") || chars_eq_str(low, "adts") {
        String::from_str("aac")
    } else if chars_eq_str(low, "aiff") || chars_eq_str(low, "aif") || chars_eq_str(low, "aifc")
        || chars_eq_str(low, "aiffc") {
        String::from_str("aiff")
    } else if chars_eq_str(low, "wma") || chars_eq_str(low, "wmv") {
        String::from_str("wma")
    } else if chars_eq_str(low, "mkv") || chars_eq_str(low, "mka") || chars_eq_str(low, "mks") {
        String::from_str("mkv")
    } else if chars_eq_str(low, "webm") || chars_eq_str(low, "weba") {
        String::from_str("webm")
    } else if chars_eq_str(low, "dsd") || chars_eq_str(low, "dsf") || chars_eq_str(low, "dff") {
        String::from_str("dsd")
    } else if chars_eq_str(low, "mov") || chars_eq_str(low, "qt") {
        String::from_str("mov")
    } else if chars_eq_str(low, "au") || chars_eq_str(low, "snd") {
        String::from_str("au")
    } else if chars_eq_str(low, "alac") {
        String::from_str("alac")
    } else if chars_eq_str(low, "flv") {
        String::from_str("flv")
    } else if chars_eq_str(low, "mxf") {
        String::from_str("mxf")
    } else if chars_eq_str(low, "vorbis") {
        String::from_str("ogg")
    } else {
        string_from_chars(low)
    }
}

/// Detects the container format of `filepath` from its extension.
///
/// The extension of the final path component is lowercased and normalised
/// through the table of known container names; a path whose final component
/// has no extension is rejected as invalid audio.
pub fn detect_format_from_extension(filepath: &str) -> (r: Result<
    String,
    FingerprintError,
>)
    ensures
        spec_extension(filepath@) matches Some(ext) ==> (r matches Ok(s) && s@
            == spec_normalize_ext(spec_lower(ext))),
        spec_extension(filepath@) is None ==> (r matches Err(e) && e matches
            FingerprintError::InvalidAudio(m) && m@ == "File has no extension: "@ + filepath@),
{
    let cs = chars_of(filepath);
    let n = cs.len();
    proof {
        crate::text::lemma_last_index_of(cs@, '/');
    }
    let comp_start: usize = match last_index_of_char(&cs, '/') {
        Some(i) => i + 1,
        None => 0,
    };
    let mut comp: Vec<char> = Vec::new();
    let mut i: usize = comp_start;
    while i < n
        invariant
            n == cs@.len(),
            comp_start <= i <= cs@.len(),
            comp@ == cs@.subrange(comp_start as int, i as int),
        decreases cs@.len() - i,
    {
        comp.push(cs[i]);
        proof {
            assert(comp@ =~= cs@.subrange(comp_start as int, i + 1));
        }
        i = i + 1;
    }
    proof {
        assert(comp@ == spec_last_component(filepath@));
        crate::text::lemma_last_index_of(comp@, '.');
    }
    let dot = last_index_of_char(&comp, '.');
    match dot {
        Some(d) if d > 0 => {
            let mut ext: Vec<char> = Vec::new();
            let mut j: usize = d + 1;
            while j < comp.len()
                invariant
                    d + 1 <= j <= comp@.len(),
                    ext@ == comp@.subrange(d + 1, j as int),
                decreases comp@.len() - j,
            {
                ext.push(comp[j]);
                proof {
                    assert(ext@ =~= comp@.subrange(d + 1, j + 1));
                }
                j = j + 1;
            }
            let low = lower_chars(&ext);
            Ok(normalize_ext(&low))
        },
        _ => {
            let mut msg = String::from_str("File has no extension: ");
            msg.append(filepath);
            Err(FingerprintError::InvalidAudio(msg))
        },
    }
}

/// Everything after the last `.` of a path, or the whole path when it has
/// no `.`.
pub open spec fn spec_tail_after_dot(p: Seq<char>) -> Seq<char> {
    p.subrange(spec_last_index_of(p, '.') + 1, p.len() as int)
}

/// Reports the format of a path for response metadata: the lowercased text
/// after the path's last `.`, or the whole lowercased path when it has none.
pub fn infer_format(filepath: &str) -> (r: String)
    ensures
        r@ == spec_lower(spec_tail_after_dot(filepath@)),
{
    let cs = chars_of(filepath);
    let n = cs.len();
    proof {
        crate::text::lemma_last_index_of(cs@, '.');
    }
    let start: usize = match last_index_of_char(&cs, '.') {
        Some(i) => i + 1,
        None => 0,
    };
    let mut tail: Vec<char> = Vec::new();
    let mut i: usize = start;
    while i < n
        invariant
            n == cs@.len(),
            start <= i <= cs@.len(),
            tail@ == cs@.subrange(start as int, i as int),
        decreases cs@.len() - i,
    {
        tail.push(cs[i]);
        proof {
            assert(tail@ =~= cs@.subrange(start as int, i + 1));
        }
        i = i + 1;
    }
    let low = lower_chars(&tail);
    string_from_chars(&low)
}

/// The probe error names a truncated or prematurely ended stream, so the
/// file counts as corrupted audio rather than an unsupported format.
pub open spec fn spec_probe_corruption(msg: Seq<char>) -> bool {
    spec_contains(msg, "end of stream"@) || spec_contains(msg, "truncated"@) || spec_contains(
        msg,
        "unexpected end"@,
    )
}

/// Classifies a failed container probe from the decoder's error message.
///
/// A message that names a truncated or ended stream marks the file as
/// corrupted (invalid audio); any other probe failure counts as an
/// unsupported format.
pub fn classify_probe_failure(detected_format: &str, error_msg: &str) -> (r: FingerprintError)
    ensures
        spec_probe_corruption(error_msg@) ==> (r matches FingerprintError::InvalidAudio(m) && m@
            == "File appears corrupted or truncated ("@ + detected_format@ + "): "@ + error_msg@),
        !spec_probe_corruption(error_msg@) ==> (r matches FingerprintError::UnsupportedFormat(m)
            && m@ == "Failed to probe format '"@ + detected_format@ + "': "@ + error_msg@),
{
    let mcs = chars_of(error_msg);
    if chars_contain(&mcs, "end of stream") || chars_contain(&mcs, "truncated") || chars_contain(
        &mcs,
        "unexpected end",
    ) {
        let mut msg = String::from_str("File appears corrupted or truncated (");
        msg.append(detected_format);
        msg.append("): ");
        msg.append(error_msg);
        FingerprintError::InvalidAudio(msg)
    } else {
        let mut msg = String::from_str("Failed to probe format '");
        msg.append(detected_format);
        msg.append("': ");
        msg.append(error_msg);
        FingerprintError::UnsupportedFormat(msg)
    }
}

} // verus!
