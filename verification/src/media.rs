//! Media-kind decisions: which file extensions name a video container, and
//! how the loop flag combines with the animated-gif default.
use vstd::prelude::*;
use vstd::string::StringSliceAdditionalSpecFns;

verus! {

/// Byte-for-byte equality of two slices.
fn eq_bytes(a: &[u8], b: &[u8]) -> (r: bool)
    ensures
        r == (a@ == b@),
{
    if a.len() != b.len() {
        return false;
    }
    let mut i: usize = 0;
    while i < a.len()
        invariant
            i <= a@.len(),
            a@.len() == b@.len(),
            forall|j: int| 0 <= j < i as int ==> a@[j] == b@[j],
        decreases a@.len() - i,
    {
        if a[i] != b[i] {
            return false;
        }
        i += 1;
    }
    proof {
        assert(a@ =~= b@);
    }
    true
}

/// Byte-for-byte equality of two strings.
fn eq_str(a: &str, b: &str) -> (r: bool)
    ensures
        r == (a.spec_bytes() == b.spec_bytes()),
{
    eq_bytes(a.as_bytes(), b.as_bytes())
}

/// The file extensions treated as video containers rather than still images.
pub open spec fn spec_is_video_ext(ext: &str) -> bool {
    ||| ext.spec_bytes() == "gif".spec_bytes()
    ||| ext.spec_bytes() == "avi".spec_bytes()
    ||| ext.spec_bytes() == "mp4".spec_bytes()
    ||| ext.spec_bytes() == "mkv".spec_bytes()
    ||| ext.spec_bytes() == "m2v".spec_bytes()
    ||| ext.spec_bytes() == "ogg".spec_bytes()
    ||| ext.spec_bytes() == "ogv".spec_bytes()
    ||| ext.spec_bytes() == "aac".spec_bytes()
    ||| ext.spec_bytes() == "aax".spec_bytes()
    ||| ext.spec_bytes() == "mov".spec_bytes()
    ||| ext.spec_bytes() == "wmv".spec_bytes()
    ||| ext.spec_bytes() == "avchd".spec_bytes()
    ||| ext.spec_bytes() == "m4p".spec_bytes()
    ||| ext.spec_bytes() == "f4v".spec_bytes()
    ||| ext.spec_bytes() == "swf".spec_bytes()
    ||| ext.spec_bytes() == "yuv".spec_bytes()
    ||| ext.spec_bytes() == "webm".spec_bytes()
    ||| ext.spec_bytes() == "amv".spec_bytes()
    ||| ext.spec_bytes() == "m4v".spec_bytes()
    ||| ext.spec_bytes() == "3gp".spec_bytes()
    ||| ext.spec_bytes() == "3g2".spec_bytes()
    ||| ext.spec_bytes() == "nsv".spec_bytes()
}

/// Whether a file extension names a video container.
pub fn is_video_ext(ext: &str) -> (r: bool)
    ensures
        r == spec_is_video_ext(ext),
{
    eq_str(ext, "gif") || eq_str(ext, "avi") || eq_str(ext, "mp4") || eq_str(ext, "mkv") || eq_str(
        ext,
        "m2v",
    ) || eq_str(ext, "ogg") || eq_str(ext, "ogv") || eq_str(ext, "aac") || eq_str(ext, "aax")
        || eq_str(ext, "mov") || eq_str(ext, "wmv") || eq_str(ext, "avchd") || eq_str(ext, "m4p")
        || eq_str(ext, "f4v") || eq_str(ext, "swf") || eq_str(ext, "yuv") || eq_str(ext, "webm")
        || eq_str(ext, "amv") || eq_str(ext, "m4v") || eq_str(ext, "3gp") || eq_str(ext, "3g2")
        || eq_str(ext, "nsv")
}

/// Whether playback loops: an animated gif loops by default and the loop
/// flag turns looping off; anything else loops only when the flag is given.
pub fn effective_loop(is_gif: bool, loop_flag: bool) -> (r: bool)
    ensures
        r == (is_gif != loop_flag),
{
    is_gif ^ loop_flag
}

} // verus!
