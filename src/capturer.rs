use vstd::prelude::*;
use crate::config::{CaptureRegion, RecordingConfig};
use crate::error::CaptureError;
use crate::session::{Recorder, RecorderView, RecordingState};

verus! {

/// Frame rate sessions are prepared with.
pub const CAPTURE_FPS: u32 = 30;
/// Quality sessions are prepared with.
pub const CAPTURE_QUALITY: u32 = 80;

/// The character of a decimal digit.
pub open spec fn digit_char(d: int) -> char {
    if d == 0 { '0' } else if d == 1 { '1' } else if d == 2 { '2' } else if d == 3 { '3' }
    else if d == 4 { '4' } else if d == 5 { '5' } else if d == 6 { '6' } else if d == 7 { '7' }
    else if d == 8 { '8' } else { '9' }
}

/// The decimal digits of a number, without leading zeros.
pub open spec fn spec_decimal(n: nat) -> Seq<char>
    decreases n,
{
    if n < 10 {
        seq![digit_char(n as int)]
    } else {
        spec_decimal(n / 10).push(digit_char((n % 10) as int))
    }
}

fn digit_str(d: u64) -> (r: &'static str)
    requires
        d < 10,
    ensures
        r@ == seq![digit_char(d as int)],
{
    proof {
        reveal_strlit("0");
        reveal_strlit("1");
        reveal_strlit("2");
        reveal_strlit("3");
        reveal_strlit("4");
        reveal_strlit("5");
        reveal_strlit("6");
        reveal_strlit("7");
        reveal_strlit("8");
        reveal_strlit("9");
    }
    if d == 0 { "0" } else if d == 1 { "1" } else if d == 2 { "2" } else if d == 3 { "3" }
    else if d == 4 { "4" } else if d == 5 { "5" } else if d == 6 { "6" } else if d == 7 { "7" }
    else if d == 8 { "8" } else { "9" }
}

/// The decimal digits of `n`.
pub fn decimal(n: u64) -> (r: String)
    ensures
        r@ == spec_decimal(n as nat),
    decreases n,
{
    if n < 10 {
        String::from_str(digit_str(n))
    } else {
        let mut s = decimal(n / 10);
        s.append(digit_str(n % 10));
        s
    }
}

/// The text of each name.
pub open spec fn name_views(names: Seq<String>) -> Seq<Seq<char>> {
    names.map_values(|s: String| s@)
}

/// File name of the `n`-th recording of a folder.
pub open spec fn recording_name(n: nat) -> Seq<char> {
    "recording-"@ + spec_decimal(n) + ".mp4"@
}

/// A path under a folder.
pub open spec fn spec_join(folder: Seq<char>, name: Seq<char>) -> Seq<char> {
    folder + "/"@ + name
}

fn recording_file_name(n: u64) -> (r: String)
    ensures
        r@ == recording_name(n as nat),
{
    let mut s = String::from_str("recording-");
    let digits = decimal(n);
    s.append(digits.as_str());
    s.append(".mp4");
    s
}

fn join(folder: &String, name: &String) -> (r: String)
    ensures
        r@ == spec_join(folder@, name@),
{
    let mut s = folder.clone();
    s.append("/");
    s.append(name.as_str());
    s
}

fn contains_name(names: &Vec<String>, name: &String) -> (r: bool)
    ensures
        r == name_views(names@).contains(name@),
{
    let ghost views = name_views(names@);
    let mut i: usize = 0;
    while i < names.len()
        invariant
            0 <= i <= names@.len(),
            views == name_views(names@),
            forall|k: int| 0 <= k < i ==> views[k] != name@,
        decreases names@.len() - i,
    {
        if names[i].eq(name) {
            proof {
                assert(views[i as int] == name@);
            }
            return true;
        }
        i = i + 1;
    }
    false
}

/// The first recording index, counting from 1, whose file name is not
/// among `names`; None only where every index up to `u64::MAX` is taken.
pub open spec fn spec_first_free(names: Seq<Seq<char>>, n: u64) -> bool {
    &&& 1 <= n
    &&& !names.contains(recording_name(n as nat))
    &&& forall|m: u64| 1 <= m < n ==> names.contains(#[trigger] recording_name(m as nat))
}

fn first_free_index(names: &Vec<String>) -> (r: Option<u64>)
    ensures
        r matches Some(n) ==> spec_first_free(name_views(names@), n),
        r is None ==> forall|m: u64| 1 <= m ==> name_views(names@).contains(#[trigger] recording_name(m as nat)),
{
    let ghost views = name_views(names@);
    let mut n: u64 = 1;
    while n < u64::MAX
        invariant
            1 <= n <= u64::MAX,
            views == name_views(names@),
            forall|m: u64| 1 <= m < n ==> views.contains(#[trigger] recording_name(m as nat)),
        decreases u64::MAX - n,
    {
        let name = recording_file_name(n);
        if !contains_name(names, &name) {
            return Some(n);
        }
        n = n + 1;
    }
    let name = recording_file_name(n);
    if !contains_name(names, &name) {
        return Some(n);
    }
    None
}

/// Whether a capture region, if any, has a size a session can record.
pub open spec fn region_supported(region: Option<(u32, u32, u32, u32)>) -> bool {
    match region {
        Some((_, _, w, h)) => crate::config::valid_side(w) && crate::config::valid_side(h),
        None => true,
    }
}

/// Prepares capture sessions that write numbered recordings
/// (`recording-1.mp4`, `recording-2.mp4`, ...) into one folder.
pub struct ScreenCapturer {
    pub output_folder: String,
    pub mic_enabled: bool,
    pub audio_device_id: Option<String>,
}

impl ScreenCapturer {
    pub fn new(output_folder: String, mic_enabled: bool, audio_device_id: Option<String>) -> (r: ScreenCapturer)
        ensures
            r.output_folder == output_folder,
            r.mic_enabled == mic_enabled,
            r.audio_device_id == audio_device_id,
    {
        ScreenCapturer { output_folder, mic_enabled, audio_device_id }
    }

    /// The path of the first recording whose name is not among the folder's
    /// entries `existing`.
    pub fn get_next_output_path(&self, existing: &Vec<String>) -> (r: Option<String>)
        ensures
            r matches Some(p) ==> exists|n: u64| spec_first_free(name_views(existing@), n)
                && p@ == spec_join(self.output_folder@, recording_name(n as nat)),
            r is None ==> forall|m: u64| 1 <= m ==> name_views(existing@).contains(#[trigger] recording_name(m as nat)),
    {
        match first_free_index(existing) {
            Some(n) => {
                let name = recording_file_name(n);
                Some(join(&self.output_folder, &name))
            },
            None => None,
        }
    }

    /// The path of the last recording of the unbroken run from 1 among the
    /// folder's entries `existing`, or of the first one where there is none.
    pub fn get_last_created_path(&self, existing: &Vec<String>) -> (r: Option<String>)
        ensures
            r matches Some(p) ==> exists|n: u64| #[trigger] spec_first_free(name_views(existing@), n)
                && p@ == spec_join(self.output_folder@, recording_name(if n > 1 { (n - 1) as nat } else { 1 })),
            r is None ==> forall|m: u64| 1 <= m ==> name_views(existing@).contains(#[trigger] recording_name(m as nat)),
    {
        match first_free_index(existing) {
            Some(n) => {
                let last: u64 = if n > 1 { n - 1 } else { 1 };
                let name = recording_file_name(last);
                Some(join(&self.output_folder, &name))
            },
            None => None,
        }
    }

    /// The configuration a session of this capturer records with.
    pub fn recording_config(&self, output_path: String, region: Option<(u32, u32, u32, u32)>) -> (r: RecordingConfig)
        ensures
            r.output_path@ == output_path@,
            r.fps == CAPTURE_FPS,
            r.quality == CAPTURE_QUALITY,
            r.capture_cursor,
            r.display_id == Some(0u32),
            r.capture_microphone == self.mic_enabled,
            r.microphone_device_id == self.audio_device_id,
            region is None ==> r.region is None,
            region matches Some((x, y, w, h)) ==> r.region == Some(CaptureRegion { x, y, width: w, height: h }),
    {
        let capture_region = match region {
            Some((x, y, width, height)) => Some(CaptureRegion { x, y, width, height }),
            None => None,
        };
        RecordingConfig {
            output_path,
            fps: CAPTURE_FPS,
            quality: CAPTURE_QUALITY,
            capture_cursor: true,
            display_id: Some(0),
            region: capture_region,
            capture_microphone: self.mic_enabled,
            microphone_device_id: self.audio_device_id.clone(),
        }
    }

    /// Builds a session for the next free recording path and begins its
    /// native setup (state PreInitializing). Where every name is taken the
    /// result is an I/O error; an invalid configuration is a configuration
    /// error.
    pub fn pre_initialize(&self, region: Option<(u32, u32, u32, u32)>, existing: &Vec<String>) -> (r: Result<Recorder, CaptureError>)
        ensures
            r matches Ok(rec) ==> rec.wf() && rec@.state == RecordingState::PreInitializing
                && rec@.fps == CAPTURE_FPS && rec@.stream is None && exists|n: u64| spec_first_free(
                name_views(existing@), n) && rec@.output_path == spec_join(
                self.output_folder@, recording_name(n as nat)),
            r is Ok <==> (exists|n: u64| spec_first_free(name_views(existing@), n)) && region_supported(region),
            r matches Err(e) ==> e is Io || e is Configuration,
            r matches Err(e) ==> (e is Io <==> !exists|n: u64| spec_first_free(name_views(existing@), n)),
    {
        let path = match self.get_next_output_path(existing) {
            Some(p) => p,
            None => {
                proof {
                    assert forall|n: u64| !spec_first_free(name_views(existing@), n) by {
                        if 1 <= n {
                            assert(name_views(existing@).contains(recording_name(n as nat)));
                        }
                    }
                }
                return Err(CaptureError::Io(String::from_str("no free recording name")));
            },
        };
        proof {
            assert(path@.len() > 0);
        }
        let config = self.recording_config(path, region);
        let mut rec = match Recorder::new(config) {
            Ok(r) => r,
            Err(e) => {
                return Err(e);
            },
        };
        let started = rec.pre_initialize();
        proof {
            assert(started is Ok);
        }
        Ok(rec)
    }
}

} // verus!
