//! Encoding frames into a video: checking the request, and the frame list
//! that the encoder reads (each frame file, then how long it is shown).
use vstd::prelude::*;

use crate::output::MediaError;
use crate::paths::{concat_list_path, frame_list_path};

verus! {

/// What encoding a video takes once the request is accepted.
pub struct VideoJob {
    /// The video file to write.
    pub output_path: String,
    /// The frame list to write beside it, and remove after encoding.
    pub concat_path: String,
    /// Frames per second.
    pub fps: u32,
}

/// Checks a request to encode the frames `svgs` into a video at
/// `output_path` with `fps` frames per second, and lays out the job: there
/// must be a frame, and a non-zero frame rate.
pub fn create_video_from_svgs(svgs: &Vec<String>, output_path: &str, fps: u32) -> (r: Result<VideoJob, MediaError>)
    ensures
        svgs.len() == 0 ==> (r matches Err(e) && e == MediaError::NoFrames),
        svgs.len() > 0 && fps == 0 ==> (r matches Err(e) && e == MediaError::ZeroFps),
        svgs.len() > 0 && fps > 0 ==> (r matches Ok(job) && job.output_path@ == output_path@
            && job.concat_path@ == frame_list_path(output_path@) && job.fps == fps),
{
    if svgs.len() == 0 {
        return Err(MediaError::NoFrames);
    }
    if fps == 0 {
        return Err(MediaError::ZeroFps);
    }
    Ok(VideoJob { output_path: String::from_str(output_path), concat_path: concat_list_path(output_path), fps })
}

/// The lines of frame `i` of `frames`: the file, then, but for the last
/// frame, how long it is shown.
pub open spec fn frame_entry(frames: Seq<Seq<char>>, duration: Seq<char>, i: int) -> Seq<char> {
    "file '"@ + frames[i] + "'\n"@ + if i + 1 != frames.len() {
        "duration "@ + duration + "\n"@
    } else {
        seq![]
    }
}

/// The lines of the first `k` frames.
pub open spec fn frame_entries(frames: Seq<Seq<char>>, duration: Seq<char>, k: int) -> Seq<char>
    decreases k,
{
    if k <= 0 {
        seq![]
    } else {
        frame_entries(frames, duration, k - 1) + frame_entry(frames, duration, k - 1)
    }
}

/// The frame list for the encoder: for each of `frames` (absolute paths) a
/// `file '<path>'` line, and between consecutive frames a
/// `duration <duration>` line, `duration` being the frame interval in
/// seconds as text.
pub fn concat_list_contents(frames: &Vec<String>, duration: &str) -> (r: String)
    ensures
        r@ == frame_entries(frames.deep_view(), duration@, frames.len() as int),
{
    let mut out = String::new();
    let n = frames.len();
    let mut i: usize = 0;
    while i < n
        invariant
            n == frames.len(),
            i <= n,
            out@ == frame_entries(frames.deep_view(), duration@, i as int),
        decreases n - i,
    {
        let ghost before = out@;
        out.append("file '");
        out.append(frames[i].as_str());
        out.append("'\n");
        if i + 1 != n {
            out.append("duration ");
            out.append(duration);
            out.append("\n");
        }
        assert(frames.deep_view()[i as int] == frames[i as int]@);
        assert(out@ =~= before + frame_entry(frames.deep_view(), duration@, i as int));
        i = i + 1;
    }
    out
}

} // verus!
