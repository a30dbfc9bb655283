//! Whisper models and transcripts: where a model is fetched from, which
//! language to pin, how the segments become the typed text, and when the
//! download reports progress.

use vstd::prelude::*;
use vstd::string::*;
use crate::text::{chars_equal_str, chars_of, string_from_chars, trim_chars, trim_spec};

verus! {

/// The file name a model is published and cached under: `ggml-<name>.bin`.
pub fn model_filename(model_name: &str) -> (f: String)
    ensures
        f@ == "ggml-"@ + model_name@ + ".bin"@,
{
    let mut f = String::from_str("ggml-");
    f.append(model_name);
    f.append(".bin");
    f
}

/// Where a model file is downloaded from.
pub fn model_url(filename: &str) -> (u: String)
    ensures
        u@ == "https://huggingface.co/ggerganov/whisper.cpp/resolve/main/"@ + filename@,
{
    let mut u = String::from_str("https://huggingface.co/ggerganov/whisper.cpp/resolve/main/");
    u.append(filename);
    u
}

/// Whether whisper is told the language: not when it is empty or "auto",
/// where whisper detects it itself.
pub fn pins_language(language: &str) -> (b: bool)
    ensures
        b == (language@.len() > 0 && language@ != "auto"@),
{
    let chars = chars_of(language);
    chars.len() > 0 && !chars_equal_str(&chars, "auto")
}

/// The segments' texts joined end to end.
pub open spec fn concat_all(segs: Seq<Seq<char>>) -> Seq<char>
    decreases segs.len(),
{
    if segs.len() == 0 {
        Seq::empty()
    } else {
        concat_all(segs.drop_last()) + segs.last()
    }
}

/// The transcript to type: the segments' texts joined, then trimmed.
pub fn assemble_text(segments: &Vec<String>) -> (t: String)
    ensures
        t@ == trim_spec(concat_all(segments@.map_values(|s: String| s@))),
{
    let ghost segs = segments@.map_values(|s: String| s@);
    let mut all: Vec<char> = Vec::new();
    let mut i: usize = 0;
    while i < segments.len()
        invariant
            i <= segments.len(),
            segs == segments@.map_values(|s: String| s@),
            all@ == concat_all(segs.take(i as int)),
        decreases segments.len() - i,
    {
        let piece = chars_of(segments[i].as_str());
        let mut j: usize = 0;
        let ghost before = all@;
        while j < piece.len()
            invariant
                j <= piece.len(),
                all@ == before + piece@.take(j as int),
            decreases piece.len() - j,
        {
            all.push(piece[j]);
            j = j + 1;
        }
        assert(segs.take(i + 1).drop_last() =~= segs.take(i as int));
        assert(piece@.take(j as int) =~= piece@);
        i = i + 1;
    }
    assert(segs.take(segments.len() as int) =~= segs);
    string_from_chars(&trim_chars(&all))
}

/// The percentage to report for a download, if any: progress is reported
/// in steps of at least five points, and not at all when the size is
/// unknown (zero).
pub fn download_progress(downloaded: u64, total: u64, last_pct: u64) -> (r: Option<u64>)
    requires
        total > 0 ==> downloaded * 100 <= u64::MAX && last_pct + 5 <= u64::MAX,
    ensures
        total == 0 ==> r is None,
        total > 0 ==> r == (if (downloaded * 100) / (total as int) >= last_pct + 5 {
            Some(((downloaded * 100) / (total as int)) as u64)
        } else {
            None
        }),
{
    if total == 0 {
        return None;
    }
    let pct = downloaded * 100 / total;
    if pct >= last_pct + 5 {
        Some(pct)
    } else {
        None
    }
}

} // verus!
