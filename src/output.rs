//! Errors and file names of the rendered outputs of a run.
use vstd::prelude::*;

use crate::paths::{join_path, joined_path};
use crate::text::{decimal, push_decimal_3, zero_padded};

verus! {

/// Why rendering or encoding outputs was refused.
#[derive(PartialEq, Eq, Structural, Clone, Copy, Debug)]
pub enum MediaError {
    /// A video was asked of no frames.
    NoFrames,
    /// A frame rate of zero.
    ZeroFps,
    /// Rendering was asked of an empty trajectory.
    NoStates,
    /// A path whose bytes are not UTF-8.
    NonUtf8Path,
}

/// The message of each error.
pub open spec fn error_message(e: MediaError) -> Seq<char> {
    match e {
        MediaError::NoFrames => "no SVG frames provided"@,
        MediaError::ZeroFps => "fps must be greater than zero"@,
        MediaError::NoStates => "no states to render"@,
        MediaError::NonUtf8Path => "path contains non-UTF-8 characters"@,
    }
}

impl MediaError {
    /// The message of this error.
    pub fn to_string(&self) -> (r: String)
        ensures
            r@ == error_message(*self),
    {
        match self {
            MediaError::NoFrames => String::from_str("no SVG frames provided"),
            MediaError::ZeroFps => String::from_str("fps must be greater than zero"),
            MediaError::NoStates => String::from_str("no states to render"),
            MediaError::NonUtf8Path => String::from_str("path contains non-UTF-8 characters"),
        }
    }
}

/// The files that rendering an open-loop run leaves in its output
/// directory.
pub struct OpenLoopArtifacts {
    pub initial_svg: String,
    pub final_svg: String,
    pub video_path: String,
    pub html_path: String,
}

/// The artifacts of a run rendered into `output_dir`.
pub open spec fn artifacts_in(output_dir: Seq<char>, a: OpenLoopArtifacts) -> bool {
    &&& a.initial_svg@ == joined_path(output_dir, "initial_state.svg"@)
    &&& a.final_svg@ == joined_path(output_dir, "final_state.svg"@)
    &&& a.video_path@ == joined_path(output_dir, "open_loop.mp4"@)
    &&& a.html_path@ == joined_path(output_dir, "open_loop_preview.html"@)
}

/// Where the artifacts of a run rendered into `output_dir` go.
pub fn open_loop_artifacts(output_dir: &str) -> (r: OpenLoopArtifacts)
    ensures
        artifacts_in(output_dir@, r),
{
    OpenLoopArtifacts {
        initial_svg: join_path(output_dir, "initial_state.svg"),
        final_svg: join_path(output_dir, "final_state.svg"),
        video_path: join_path(output_dir, "open_loop.mp4"),
        html_path: join_path(output_dir, "open_loop_preview.html"),
    }
}

/// Checks a request to render `n_states` recorded states at `fps` frames
/// per second: there must be a state, and a non-zero frame rate.
pub fn check_render_request(n_states: usize, fps: u32) -> (r: Result<(), MediaError>)
    ensures
        n_states == 0 ==> r == Err::<(), MediaError>(MediaError::NoStates),
        n_states > 0 && fps == 0 ==> r == Err::<(), MediaError>(MediaError::ZeroFps),
        n_states > 0 && fps > 0 ==> r is Ok,
{
    if n_states == 0 {
        Err(MediaError::NoStates)
    } else if fps == 0 {
        Err(MediaError::ZeroFps)
    } else {
        Ok(())
    }
}

/// File name of the `k`-th intermediate frame: `step_` and `k` in at least
/// three digits.
pub open spec fn step_frame_name(k: nat) -> Seq<char> {
    "step_"@ + zero_padded(decimal(k), 3) + ".svg"@
}

/// File name of the `k`-th intermediate frame (`step_007.svg`).
pub fn step_svg_name(k: usize) -> (r: String)
    ensures
        r@ == step_frame_name(k as nat),
{
    let mut name = String::from_str("step_");
    push_decimal_3(&mut name, k);
    name.append(".svg");
    assert(name@ =~= step_frame_name(k as nat));
    name
}

/// How many frames, from frame `j` on, a state recorded at `key` is drawn
/// in: each frame whose key it reaches, up to the first that it does not.
pub open spec fn due_count(key: u64, frame_keys: Seq<u64>, j: int) -> nat
    decreases frame_keys.len() - j,
{
    if 0 <= j < frame_keys.len() && key >= frame_keys[j] {
        1 + due_count(key, frame_keys, j + 1)
    } else {
        0
    }
}

/// For each frame drawn from the first `m` states, the index of its state:
/// the states are taken in order, and each is drawn in the frames that come
/// due at it.
pub open spec fn frames_drawn(state_keys: Seq<u64>, frame_keys: Seq<u64>, m: int) -> Seq<usize>
    decreases m,
{
    if m <= 0 {
        seq![]
    } else {
        let before = frames_drawn(state_keys, frame_keys, m - 1);
        before + Seq::new(
            due_count(state_keys[m - 1], frame_keys, before.len() as int),
            |k: int| (m - 1) as usize,
        )
    }
}

/// Which recorded state each scheduled frame shows. `state_keys` and
/// `frame_keys` order the states' and frames' times (the state times
/// already widened by the comparison tolerance); a frame comes due at the
/// first state, from the one that showed the previous frame on, whose key
/// reaches the frame's. Frames that no state reaches are not drawn.
pub fn frame_sources(state_keys: &Vec<u64>, frame_keys: &Vec<u64>) -> (r: Vec<usize>)
    ensures
        r@ == frames_drawn(state_keys@, frame_keys@, state_keys.len() as int),
        r.len() <= frame_keys.len(),
        forall|j: int| 0 <= j < r.len() ==> r[j] < state_keys.len(),
{
    let mut r: Vec<usize> = Vec::new();
    let mut i: usize = 0;
    while i < state_keys.len()
        invariant
            i <= state_keys.len(),
            r@ == frames_drawn(state_keys@, frame_keys@, i as int),
            r.len() <= frame_keys.len(),
            forall|j: int| 0 <= j < r.len() ==> r[j] < i,
        decreases state_keys.len() - i,
    {
        let ghost before = r@;
        let key = state_keys[i];
        while r.len() < frame_keys.len() && key >= frame_keys[r.len()]
            invariant
                i < state_keys.len(),
                key == state_keys[i as int],
                before.len() <= r.len() <= frame_keys.len(),
                r@ == before + Seq::new((r.len() - before.len()) as nat, |k: int| i),
                due_count(key, frame_keys@, before.len() as int) == (r.len() - before.len())
                    + due_count(key, frame_keys@, r.len() as int),
                forall|j: int| 0 <= j < before.len() ==> before[j] < i,
            decreases frame_keys.len() - r.len(),
        {
            r.push(i);
            assert(r@ =~= before + Seq::new((r.len() - before.len()) as nat, |k: int| i));
        }
        assert(due_count(key, frame_keys@, r.len() as int) == 0);
        i = i + 1;
        assert(r@ =~= frames_drawn(state_keys@, frame_keys@, i as int));
    }
    r
}

} // verus!
