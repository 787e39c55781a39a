use vstd::prelude::*;
use crate::text::{lower_of, lowercase};

verus! {

/// Index of the last `c` in `s`, or -1.
pub open spec fn last_index(s: Seq<char>, c: char) -> int
    decreases s.len(),
{
    if s.len() == 0 {
        -1
    } else if s.last() == c {
        s.len() - 1
    } else {
        last_index(s.drop_last(), c)
    }
}

/// The last component of a path.
pub open spec fn spec_file_name(path: Seq<char>) -> Seq<char> {
    path.subrange(last_index(path, '/') + 1, path.len() as int)
}

/// The extension of a path: what follows the last dot of its file name,
/// where that dot is not the name's first character.
pub open spec fn spec_extension(path: Seq<char>) -> Option<Seq<char>> {
    let name = spec_file_name(path);
    let d = last_index(name, '.');
    if d > 0 {
        Some(name.subrange(d + 1, name.len() as int))
    } else {
        None
    }
}

/// The lowercase extensions of video files.
pub open spec fn spec_is_video_extension(e: Seq<char>) -> bool {
    e == "mp4"@ || e == "mov"@ || e == "avi"@ || e == "mkv"@ || e == "webm"@ || e == "m4v"@
}

proof fn lemma_last_index_bounds(s: Seq<char>, c: char)
    ensures
        -1 <= last_index(s, c) < s.len(),
        last_index(s, c) >= 0 ==> s[last_index(s, c)] == c,
        forall|k: int| last_index(s, c) < k < s.len() ==> s[k] != c,
    decreases s.len(),
{
    if s.len() > 0 && s.last() != c {
        lemma_last_index_bounds(s.drop_last(), c);
        assert forall|k: int| last_index(s, c) < k < s.len() implies s[k] != c by {
            if k < s.len() - 1 {
                assert(s.drop_last()[k] == s[k]);
            }
        }
    }
}

fn find_last(s: &str, c: char) -> (r: i64)
    requires
        s@.len() < i64::MAX,
    ensures
        r == last_index(s@, c),
{
    let n = s.unicode_len();
    let mut i: usize = n;
    proof {
        assert(s@.subrange(0, n as int) =~= s@);
    }
    while i > 0
        invariant
            n == s@.len(),
            0 <= i <= n,
            n < i64::MAX,
            last_index(s@, c) == last_index(s@.subrange(0, i as int), c),
        decreases i,
    {
        proof {
            assert(s@.subrange(0, i as int).drop_last() =~= s@.subrange(0, i - 1));
        }
        if s.get_char(i - 1) == c {
            return (i - 1) as i64;
        }
        i = i - 1;
    }
    -1
}

/// Whether a lowercase extension is that of a video file.
pub fn is_video_extension(lowered: &str) -> (r: bool)
    ensures
        r == spec_is_video_extension(lowered@),
{
    let e = String::from_str(lowered);
    e.eq(&String::from_str("mp4")) || e.eq(&String::from_str("mov")) || e.eq(&String::from_str("avi"))
        || e.eq(&String::from_str("mkv")) || e.eq(&String::from_str("webm")) || e.eq(&String::from_str("m4v"))
}

/// Whether a path names a video file, by its extension in any case.
pub fn is_video_file(path: &str) -> (r: bool)
    requires
        path@.len() < i64::MAX,
    ensures
        r == (spec_extension(path@) matches Some(e) && spec_is_video_extension(lower_of(e))),
{
    let n = path.unicode_len();
    let slash = find_last(path, '/');
    proof {
        lemma_last_index_bounds(path@, '/');
    }
    let start = (slash + 1) as usize;
    let name = path.substring_char(start, n);
    let dot = find_last(name, '.');
    proof {
        lemma_last_index_bounds(name@, '.');
    }
    if dot <= 0 {
        return false;
    }
    let ext = name.substring_char((dot + 1) as usize, name.unicode_len());
    let lowered = lowercase(ext);
    is_video_extension(lowered.as_str())
}

/// Whether a changed path is worth a notification: a directory or a
/// video file.
pub open spec fn path_reported(path: Seq<char>, is_dir: bool) -> bool {
    is_dir || (spec_extension(path) matches Some(e) && spec_is_video_extension(lower_of(e)))
}

/// Switch for the output folder's change notifications: paused while a
/// recording is written, so that the encoder's own writes raise none.
pub struct WatcherControl {
    enabled: bool,
}

impl View for WatcherControl {
    type V = bool;

    /// Whether notifications are emitted.
    closed spec fn view(&self) -> bool {
        self.enabled
    }
}

impl WatcherControl {
    /// A switch that starts enabled.
    pub fn new() -> (r: WatcherControl)
        ensures
            r@,
    {
        WatcherControl { enabled: true }
    }

    /// Pauses notifications (during recording).
    pub fn pause(&mut self)
        ensures
            !final(self)@,
    {
        self.enabled = false;
    }

    /// Resumes notifications (after the recording is finalized).
    pub fn resume(&mut self)
        ensures
            final(self)@,
    {
        self.enabled = true;
    }

    /// Whether notifications are emitted.
    pub fn is_enabled(&self) -> (r: bool)
        ensures
            r == self@,
    {
        self.enabled
    }

    /// Whether a change event is reported: the switch is on, the event
    /// creates, removes or modifies something, and one of its paths is a
    /// video file or a directory (`is_dir[i]` tells of `paths[i]`).
    pub fn should_notify(&self, relevant_kind: bool, paths: &Vec<String>, is_dir: &Vec<bool>) -> (r: bool)
        requires
            paths@.len() == is_dir@.len(),
            forall|i: int| 0 <= i < paths@.len() ==> (#[trigger] paths@[i])@.len() < i64::MAX,
        ensures
            r == (self@ && relevant_kind && exists|i: int| 0 <= i < paths@.len() && #[trigger] path_reported(
                paths@[i]@, is_dir@[i])),
    {
        if !self.enabled || !relevant_kind {
            return false;
        }
        let mut i: usize = 0;
        while i < paths.len()
            invariant
                self@,
                relevant_kind,
                paths@.len() == is_dir@.len(),
                forall|k: int| 0 <= k < paths@.len() ==> (#[trigger] paths@[k])@.len() < i64::MAX,
                0 <= i <= paths@.len(),
                forall|k: int| 0 <= k < i ==> !#[trigger] path_reported(paths@[k]@, is_dir@[k]),
            decreases paths@.len() - i,
        {
            if is_dir[i] || is_video_file(paths[i].as_str()) {
                proof {
                    let k = i as int;
                    assert(0 <= k < paths@.len() && path_reported(paths@[k]@, is_dir@[k]));
                }
                return true;
            }
            i = i + 1;
        }
        false
    }
}

} // verus!
