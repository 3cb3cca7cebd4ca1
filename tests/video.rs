use lap_simulation::output::MediaError;
use lap_simulation::video::{concat_list_contents, create_video_from_svgs};

#[test]
fn test_create_video_from_svgs_empty_frames() {
    let frames: Vec<String> = vec![];
    let err = create_video_from_svgs(&frames, "out.mp4", 10)
        .err()
        .expect("expected error for empty frames");
    assert!(err.to_string().contains("no SVG frames"));
}

#[test]
fn test_create_video_from_svgs_zero_fps() {
    let frames = vec!["frame.svg".to_string()];
    let err = create_video_from_svgs(&frames, "out.mp4", 0)
        .err()
        .expect("expected error for fps=0");
    assert!(err.to_string().contains("fps must be greater than zero"));
}

#[test]
fn empty_frames_checked_before_frame_rate() {
    let frames: Vec<String> = vec![];
    let err = create_video_from_svgs(&frames, "out.mp4", 0).err().unwrap();
    assert_eq!(err, MediaError::NoFrames);
}

#[test]
fn accepted_video_job_lists_frames_beside_video() {
    let frames = vec!["a.svg".to_string(), "b.svg".to_string()];
    let job = create_video_from_svgs(&frames, "results/run.mp4", 10).ok().unwrap();
    assert_eq!(job.output_path, "results/run.mp4");
    assert_eq!(job.concat_path, "results/run_frames.txt");
    assert_eq!(job.fps, 10);
}

#[test]
fn concat_list_has_durations_between_frames() {
    let frames = vec!["/r/a.svg".to_string(), "/r/b.svg".to_string(), "/r/c.svg".to_string()];
    let text = concat_list_contents(&frames, "0.1");
    assert_eq!(
        text,
        "file '/r/a.svg'\nduration 0.1\nfile '/r/b.svg'\nduration 0.1\nfile '/r/c.svg'\n"
    );
}

#[test]
fn concat_list_of_one_frame_has_no_duration() {
    let frames = vec!["/r/only.svg".to_string()];
    assert_eq!(concat_list_contents(&frames, "0.5"), "file '/r/only.svg'\n");
    let none: Vec<String> = vec![];
    assert_eq!(concat_list_contents(&none, "0.5"), "");
}

#[test]
fn error_messages() {
    assert_eq!(MediaError::NoFrames.to_string(), "no SVG frames provided");
    assert_eq!(MediaError::ZeroFps.to_string(), "fps must be greater than zero");
    assert_eq!(MediaError::NoStates.to_string(), "no states to render");
    assert_eq!(MediaError::NonUtf8Path.to_string(), "path contains non-UTF-8 characters");
}
