//! The HTML preview page of an open-loop run: the video and, where they
//! exist, the first and last frames.
use vstd::prelude::*;

use crate::paths::{file_name_of, is_absolute_path, path_file_name, path_is_absolute};
use crate::text::push_char;

verus! {

/// How one character is written inside an HTML attribute or text.
pub open spec fn escaped_char(c: char) -> Seq<char> {
    if c == '&' {
        "&amp;"@
    } else if c == '<' {
        "&lt;"@
    } else if c == '>' {
        "&gt;"@
    } else if c == '"' {
        "&quot;"@
    } else if c == '\'' {
        "&#39;"@
    } else {
        seq![c]
    }
}

/// `s` with each of `& < > " '` replaced by its character reference.
pub open spec fn escaped(s: Seq<char>) -> Seq<char>
    decreases s.len(),
{
    if s.len() == 0 {
        seq![]
    } else {
        escaped(s.drop_last()) + escaped_char(s.last())
    }
}

/// Escapes `value` for use in HTML text or a quoted attribute.
pub fn escape_html(value: &str) -> (r: String)
    ensures
        r@ == escaped(value@),
{
    let mut out = String::new();
    let n = value.unicode_len();
    let mut i: usize = 0;
    while i < n
        invariant
            n == value@.len(),
            i <= n,
            out@ == escaped(value@.subrange(0, i as int)),
        decreases n - i,
    {
        let c = value.get_char(i);
        if c == '&' {
            out.append("&amp;");
        } else if c == '<' {
            out.append("&lt;");
        } else if c == '>' {
            out.append("&gt;");
        } else if c == '"' {
            out.append("&quot;");
        } else if c == '\'' {
            out.append("&#39;");
        } else {
            push_char(&mut out, c);
        }
        assert(value@.subrange(0, i + 1).drop_last() =~= value@.subrange(0, i as int));
        i = i + 1;
    }
    assert(value@.subrange(0, n as int) =~= value@);
    out
}

/// How a preview page in some directory refers to the media file `path`,
/// given whether that file exists: a relative path as it is, an absolute one
/// by its file name; nothing for a missing file.
pub open spec fn media_reference(path: Seq<char>, exists: bool) -> Option<Seq<char>> {
    if !exists {
        None
    } else if is_absolute_path(path) {
        file_name_of(path)
    } else {
        Some(path)
    }
}

/// The reference from a preview page to the media file `path`. `exists`
/// tells whether the file is there: for a relative `path`, taken relative
/// to the page's directory (see `path_in_dir`).
pub fn normalize_media_path(path: &str, exists: bool) -> (r: Option<String>)
    ensures
        r.deep_view() == media_reference(path@, exists),
{
    if !exists {
        None
    } else if path_is_absolute(path) {
        path_file_name(path)
    } else {
        Some(String::from_str(path))
    }
}

} // verus!

verus! {

/// The page up to the video: document head, style and title.
pub const PAGE_HEAD: &'static str = "<!doctype html>\n<html lang=\"en\">\n<head>\n  <meta charset=\"utf-8\">\n  <meta name=\"viewport\" content=\"width=device-width, initial-scale=1\">\n  <title>Open-loop preview</title>\n  <style>\n    body { font-family: system-ui, -apple-system, sans-serif; margin: 24px; }\n    .media { display: grid; gap: 16px; grid-template-columns: repeat(auto-fit, minmax(240px, 1fr)); }\n    figure { margin: 0; }\n    img, video { max-width: 100%; height: auto; border: 1px solid #ddd; border-radius: 6px; }\n  </style>\n</head>\n<body>\n  <h1>Open-loop simulation preview</h1>\n  <p>Video preview:</p>\n";

/// The video element.
pub open spec fn video_element(video: Seq<char>) -> Seq<char> {
    "  <video controls src=\""@ + escaped(video) + "\"></video>\n"@
}

/// One captioned frame image.
pub open spec fn figure(label: Seq<char>, path: Seq<char>) -> Seq<char> {
    "    <figure>\n      <figcaption>"@ + label + "</figcaption>\n      <img alt=\""@ + label
        + "\" src=\""@ + escaped(path) + "\">\n    </figure>\n"@
}

/// The figure of a frame, if there is one.
pub open spec fn optional_figure(label: Seq<char>, path: Option<Seq<char>>) -> Seq<char> {
    match path {
        Some(p) => figure(label, p),
        None => seq![],
    }
}

/// The frame section: present when at least one frame is referenced.
pub open spec fn frame_section(initial: Option<Seq<char>>, last: Option<Seq<char>>) -> Seq<char> {
    if initial is Some || last is Some {
        "  <h2>Frame previews</h2>\n  <div class=\"media\">\n"@ + optional_figure(
            "Initial state"@,
            initial,
        ) + optional_figure("Final state"@, last) + "  </div>\n"@
    } else {
        seq![]
    }
}

/// The whole preview page.
pub open spec fn preview_page(
    video: Seq<char>,
    initial: Option<Seq<char>>,
    last: Option<Seq<char>>,
) -> Seq<char> {
    PAGE_HEAD@ + video_element(video) + frame_section(initial, last) + "</body>\n</html>\n"@
}

fn push_figure(out: &mut String, label: &str, path: &str)
    ensures
        final(out)@ == old(out)@ + figure(label@, path@),
{
    let ghost before = out@;
    out.append("    <figure>\n      <figcaption>");
    out.append(label);
    out.append("</figcaption>\n      <img alt=\"");
    out.append(label);
    out.append("\" src=\"");
    let escaped_path = escape_html(path);
    out.append(escaped_path.as_str());
    out.append("\">\n    </figure>\n");
    assert(out@ =~= before + figure(label@, path@));
}

/// The preview page of a run: the video `video_filename`, then the frames
/// that `initial_ref` and `final_ref` refer to, each where present.
pub fn preview_html(video_filename: &str, initial_ref: &Option<String>, final_ref: &Option<String>) -> (r: String)
    ensures
        r@ == preview_page(video_filename@, initial_ref.deep_view(), final_ref.deep_view()),
{
    let mut out = String::from_str(PAGE_HEAD);
    out.append("  <video controls src=\"");
    let escaped_video = escape_html(video_filename);
    out.append(escaped_video.as_str());
    out.append("\"></video>\n");
    let ghost after_video = out@;
    assert(after_video =~= PAGE_HEAD@ + video_element(video_filename@));
    if initial_ref.is_some() || final_ref.is_some() {
        out.append("  <h2>Frame previews</h2>\n  <div class=\"media\">\n");
        match initial_ref {
            Some(p) => push_figure(&mut out, "Initial state", p.as_str()),
            None => {},
        }
        match final_ref {
            Some(p) => push_figure(&mut out, "Final state", p.as_str()),
            None => {},
        }
        out.append("  </div>\n");
    }
    let ghost before_end = out@;
    assert(before_end =~= after_video + frame_section(initial_ref.deep_view(), final_ref.deep_view()));
    out.append("</body>\n</html>\n");
    assert(out@ =~= preview_page(video_filename@, initial_ref.deep_view(), final_ref.deep_view()));
    out
}

} // verus!
