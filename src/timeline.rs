use vstd::prelude::*;
use sha2::Digest;
use crate::capturer::spec_join;
use crate::error::CaptureError;
use crate::text::{
    contains_text, lemma_seq_le_refl, lemma_seq_le_total, lemma_seq_le_trans, lower_of, lowercase, seq_le, spec_contains,
    spec_starts_with, text_le, trim, trimmed,
};
use vstd::seq_lib::{to_multiset_insert, to_multiset_remove};

verus! {

/// Frame size of a recording.
#[derive(Debug, Clone, Copy, PartialEq, Eq)]
pub struct Resolution {
    pub width: u32,
    pub height: u32,
}

/// One recording of a project.
#[derive(Debug, Clone)]
pub struct TimelineEntry {
    pub id: String,
    pub filename: String,
    pub recorded_at: String,
    pub duration_ms: u64,
    pub aspect_ratio: String,
    pub resolution: Resolution,
    pub mic_enabled: bool,
    pub notes: Option<String>,
    /// SHA-256 of the file, in lowercase hex.
    pub checksum: Option<String>,
}

/// Totals of a project's timeline.
#[derive(Debug, Clone)]
pub struct TimelineMetadata {
    pub total_videos: u32,
    pub total_duration: u64,
    pub default_aspect_ratio: Option<String>,
    pub tags: Option<Vec<String>>,
}

/// The recordings of one project, in order.
#[derive(Debug, Clone)]
pub struct ProjectTimeline {
    pub project_name: String,
    pub created_at: String,
    pub last_modified: String,
    pub entries: Vec<TimelineEntry>,
    pub metadata: TimelineMetadata,
}

/// Summary of a project.
#[derive(Debug, Clone)]
pub struct Project {
    pub name: String,
    pub created_at: String,
    pub video_count: u32,
    pub last_modified: String,
}

/// Sum of the entries' durations.
pub open spec fn spec_total_ms(entries: Seq<TimelineEntry>) -> int
    decreases entries.len(),
{
    if entries.len() == 0 {
        0
    } else {
        spec_total_ms(entries.drop_last()) + entries.last().duration_ms
    }
}

/// `n`, or `cap` where `n` is larger.
pub open spec fn capped(n: int, cap: int) -> int {
    if n > cap { cap } else { n }
}

/// Whether the metadata gives the count and total duration of the entries
/// (each capped at its field's range).
pub open spec fn totals_match(t: ProjectTimeline) -> bool {
    &&& t.metadata.total_videos == capped(t.entries@.len() as int, u32::MAX as int)
    &&& t.metadata.total_duration == capped(spec_total_ms(t.entries@), u64::MAX as int)
}

fn total_duration(entries: &Vec<TimelineEntry>) -> (r: u64)
    ensures
        r == capped(spec_total_ms(entries@), u64::MAX as int),
{
    let mut acc: u64 = 0;
    let mut i: usize = 0;
    while i < entries.len()
        invariant
            0 <= i <= entries@.len(),
            spec_total_ms(entries@.subrange(0, i as int)) >= 0,
            acc == capped(spec_total_ms(entries@.subrange(0, i as int)), u64::MAX as int),
        decreases entries@.len() - i,
    {
        let d = entries[i].duration_ms;
        proof {
            assert(entries@.subrange(0, i + 1).drop_last() =~= entries@.subrange(0, i as int));
        }
        if acc > u64::MAX - d {
            acc = u64::MAX;
        } else {
            acc = acc + d;
        }
        i = i + 1;
    }
    proof {
        assert(entries@.subrange(0, entries@.len() as int) =~= entries@);
    }
    acc
}

impl ProjectTimeline {
    /// An empty timeline created at `now`.
    pub fn new(project_name: String, now: String) -> (r: ProjectTimeline)
        ensures
            r.project_name == project_name,
            r.created_at == now,
            r.last_modified == now,
            r.entries@.len() == 0,
            r.metadata.total_videos == 0,
            r.metadata.total_duration == 0,
            r.metadata.default_aspect_ratio is None,
            r.metadata.tags is None,
            totals_match(r),
    {
        ProjectTimeline {
            project_name,
            created_at: now.clone(),
            last_modified: now,
            entries: Vec::new(),
            metadata: TimelineMetadata { total_videos: 0, total_duration: 0, default_aspect_ratio: None, tags: None },
        }
    }

    /// Recomputes the count and total duration from the entries.
    pub fn update_totals(&mut self)
        ensures
            totals_match(*final(self)),
            final(self).entries == old(self).entries,
            final(self).project_name == old(self).project_name,
            final(self).created_at == old(self).created_at,
            final(self).last_modified == old(self).last_modified,
            final(self).metadata.default_aspect_ratio == old(self).metadata.default_aspect_ratio,
            final(self).metadata.tags == old(self).metadata.tags,
    {
        let n = self.entries.len();
        self.metadata.total_videos = if n > u32::MAX as usize { u32::MAX } else { n as u32 };
        self.metadata.total_duration = total_duration(&self.entries);
    }

    /// Appends a recording at `now` and brings the totals up to date.
    pub fn add_entry(&mut self, entry: TimelineEntry, now: String)
        ensures
            final(self).entries@ == old(self).entries@.push(entry),
            final(self).last_modified == now,
            final(self).project_name == old(self).project_name,
            final(self).created_at == old(self).created_at,
            totals_match(*final(self)),
    {
        self.entries.push(entry);
        self.last_modified = now;
        self.update_totals();
    }
}

/// The checksum listed for a file name (the last listing of that name).
pub open spec fn spec_lookup(files: Seq<(String, String)>, name: Seq<char>) -> Option<String>
    decreases files.len(),
{
    if files.len() == 0 {
        None
    } else if files.last().0@ == name {
        Some(files.last().1)
    } else {
        spec_lookup(files.drop_last(), name)
    }
}

/// The entries whose file still exists, in their order, each with the
/// checksum of its file.
pub open spec fn spec_reconciled(entries: Seq<TimelineEntry>, files: Seq<(String, String)>) -> Seq<TimelineEntry>
    decreases entries.len(),
{
    if entries.len() == 0 {
        Seq::empty()
    } else {
        let rest = spec_reconciled(entries.drop_last(), files);
        let e = entries.last();
        match spec_lookup(files, e.filename@) {
            Some(c) => rest.push(TimelineEntry { checksum: Some(c), ..e }),
            None => rest,
        }
    }
}

/// Whether some entry records a file of this name.
pub open spec fn entry_named(entries: Seq<TimelineEntry>, name: Seq<char>) -> bool {
    exists|i: int| 0 <= i < entries.len() && (#[trigger] entries[i]).filename@ == name
}

fn lookup_checksum(files: &Vec<(String, String)>, name: &String) -> (r: Option<String>)
    ensures
        r == spec_lookup(files@, name@),
{
    let mut k: usize = files.len();
    proof {
        assert(files@.subrange(0, k as int) =~= files@);
    }
    while k > 0
        invariant
            0 <= k <= files@.len(),
            spec_lookup(files@, name@) == spec_lookup(files@.subrange(0, k as int), name@),
        decreases k,
    {
        proof {
            assert(files@.subrange(0, k as int).drop_last() =~= files@.subrange(0, k - 1));
        }
        if files[k - 1].0.eq(name) {
            return Some(files[k - 1].1.clone());
        }
        k = k - 1;
    }
    None
}

fn has_entry(entries: &Vec<TimelineEntry>, name: &String) -> (r: bool)
    ensures
        r == entry_named(entries@, name@),
{
    let mut i: usize = 0;
    while i < entries.len()
        invariant
            0 <= i <= entries@.len(),
            forall|k: int| 0 <= k < i ==> (#[trigger] entries@[k]).filename@ != name@,
        decreases entries@.len() - i,
    {
        if entries[i].filename.eq(name) {
            return true;
        }
        i = i + 1;
    }
    false
}

impl ProjectTimeline {
    /// Drops the entries whose file is not among `files` (name, checksum)
    /// and gives each remaining entry its file's checksum. The result is
    /// the number of entries dropped.
    pub fn retain_existing(&mut self, files: &Vec<(String, String)>) -> (removed: usize)
        ensures
            final(self).entries@ == spec_reconciled(old(self).entries@, files@),
            removed == old(self).entries@.len() - final(self).entries@.len(),
            final(self).project_name == old(self).project_name,
            final(self).created_at == old(self).created_at,
            final(self).last_modified == old(self).last_modified,
    {
        let ghost orig = self.entries@;
        let n0 = self.entries.len();
        let mut rest: Vec<TimelineEntry> = Vec::new();
        std::mem::swap(&mut self.entries, &mut rest);
        let mut j: usize = 0;
        proof {
            assert(orig.subrange(0, 0) =~= Seq::<TimelineEntry>::empty());
            assert(orig.subrange(0, orig.len() as int) =~= orig);
        }
        while rest.len() > 0
            invariant
                j + rest@.len() == orig.len(),
                n0 == orig.len(),
                rest@ == orig.subrange(j as int, orig.len() as int),
                self.entries@ == spec_reconciled(orig.subrange(0, j as int), files@),
                self.entries@.len() <= j,
                self.project_name == old(self).project_name,
                self.created_at == old(self).created_at,
                self.last_modified == old(self).last_modified,
            decreases rest@.len(),
        {
            let mut e = rest.remove(0);
            proof {
                assert(orig.subrange(0, j + 1).drop_last() =~= orig.subrange(0, j as int));
                assert(orig.subrange(0, j + 1).last() == e);
                assert(rest@ =~= orig.subrange(j + 1, orig.len() as int));
            }
            match lookup_checksum(files, &e.filename) {
                Some(c) => {
                    e.checksum = Some(c);
                    self.entries.push(e);
                },
                None => {},
            }
            j = j + 1;
        }
        n0 - self.entries.len()
    }

    /// Indices, in ascending order, of the files among `files` that no
    /// entry records yet.
    pub fn new_files(&self, files: &Vec<(String, String)>) -> (r: Vec<usize>)
        ensures
            forall|i: int| 0 <= i < r@.len() ==> r@[i] < files@.len() && !entry_named(self.entries@,
                files@[#[trigger] r@[i] as int].0@),
            forall|k: int| 0 <= k < files@.len() && !entry_named(self.entries@, (#[trigger] files@[k]).0@)
                ==> r@.contains(k as usize),
            forall|i: int, j: int| 0 <= i < j < r@.len() ==> r@[i] < r@[j],
    {
        let mut out: Vec<usize> = Vec::new();
        let mut k: usize = 0;
        while k < files.len()
            invariant
                0 <= k <= files@.len(),
                forall|i: int| 0 <= i < out@.len() ==> out@[i] < k && !entry_named(self.entries@,
                    files@[#[trigger] out@[i] as int].0@),
                forall|m: int| 0 <= m < k && !entry_named(self.entries@, (#[trigger] files@[m]).0@)
                    ==> out@.contains(m as usize),
                forall|i: int, j: int| 0 <= i < j < out@.len() ==> out@[i] < out@[j],
            decreases files@.len() - k,
        {
            let ghost prev = out@;
            if !has_entry(&self.entries, &files[k].0) {
                out.push(k);
                proof {
                    assert(out@[out@.len() - 1] == k);
                }
            }
            proof {
                assert forall|m: int| 0 <= m < k + 1 && !entry_named(self.entries@, (#[trigger] files@[m]).0@)
                    implies out@.contains(m as usize) by {
                    if m == k {
                        assert(out@[out@.len() - 1] == k);
                    } else {
                        assert(prev.contains(m as usize));
                        let w = choose|w: int| 0 <= w < prev.len() && prev[w] == m as usize;
                        assert(out@[w] == m as usize);
                    }
                }
            }
            k = k + 1;
        }
        out
    }
}

/// Entries in order of recording time, as text.
pub open spec fn sorted_by_recorded_at(s: Seq<TimelineEntry>) -> bool {
    forall|i: int, j: int| 0 <= i < j < s.len() ==> seq_le(s[i].recorded_at@, s[j].recorded_at@)
}

/// Projects with the most recently modified first.
pub open spec fn sorted_newest_first(s: Seq<Project>) -> bool {
    forall|i: int, j: int| 0 <= i < j < s.len() ==> seq_le(s[j].last_modified@, s[i].last_modified@)
}

impl ProjectTimeline {
    /// Orders the entries by recording time; entries recorded at the same
    /// time keep their order.
    pub fn sort_entries(&mut self)
        ensures
            sorted_by_recorded_at(final(self).entries@),
            final(self).entries@.to_multiset() == old(self).entries@.to_multiset(),
            final(self).project_name == old(self).project_name,
            final(self).created_at == old(self).created_at,
            final(self).last_modified == old(self).last_modified,
            final(self).metadata == old(self).metadata,
    {
        let mut rest: Vec<TimelineEntry> = Vec::new();
        std::mem::swap(&mut self.entries, &mut rest);
        let ghost orig = rest@;
        proof {
            broadcast use vstd::seq_lib::group_to_multiset_ensures, vstd::multiset::group_multiset_axioms;
            vstd::multiset::lemma_multiset_empty_len(self.entries@.to_multiset());
            assert(rest@.to_multiset() =~= self.entries@.to_multiset().add(rest@.to_multiset()));
        }
        while rest.len() > 0
            invariant
                sorted_by_recorded_at(self.entries@),
                self.entries@.to_multiset().add(rest@.to_multiset()) == orig.to_multiset(),
                self.project_name == old(self).project_name,
                self.created_at == old(self).created_at,
                self.last_modified == old(self).last_modified,
                self.metadata == old(self).metadata,
            decreases rest@.len(),
        {
            let ghost r0 = rest@;
            let x = rest.remove(0);
            proof {
                to_multiset_remove(r0, 0);
            }
            let mut j: usize = self.entries.len();
            while j > 0
                invariant
                    0 <= j <= self.entries@.len(),
                    sorted_by_recorded_at(self.entries@),
                    forall|t: int| j <= t < self.entries@.len() ==> !seq_le(
                        (#[trigger] self.entries@[t]).recorded_at@, x.recorded_at@),
                ensures
                    0 <= j <= self.entries@.len(),
                    forall|t: int| j <= t < self.entries@.len() ==> !seq_le(
                        (#[trigger] self.entries@[t]).recorded_at@, x.recorded_at@),
                    j > 0 ==> seq_le(self.entries@[j - 1].recorded_at@, x.recorded_at@),
                decreases j,
            {
                if text_le(self.entries[j - 1].recorded_at.as_str(), x.recorded_at.as_str()) {
                    break;
                }
                j = j - 1;
            }
            let ghost e0 = self.entries@;
            self.entries.insert(j, x);
            proof {
                to_multiset_insert(e0, j as int, x);
                assert forall|a: int, b: int| 0 <= a < b < self.entries@.len() implies seq_le(
                    self.entries@[a].recorded_at@, self.entries@[b].recorded_at@) by {
                    let s = self.entries@;
                    if a < j {
                        assert(s[a] == e0[a]);
                        if j > 0 && a < j - 1 {
                            assert(seq_le(e0[a].recorded_at@, e0[j - 1].recorded_at@));
                        } else if j > 0 {
                            lemma_seq_le_refl(e0[a].recorded_at@);
                        }
                    }
                    if b == j {
                        lemma_seq_le_trans(s[a].recorded_at@, e0[j - 1].recorded_at@, x.recorded_at@);
                    } else if a == j {
                        lemma_seq_le_total(e0[b - 1].recorded_at@, x.recorded_at@);
                    } else if b < j {
                    } else if a < j {
                        lemma_seq_le_total(e0[b - 1].recorded_at@, x.recorded_at@);
                        if a < j - 1 || j > 0 {
                            if j > 0 {
                                lemma_seq_le_trans(s[a].recorded_at@, e0[j - 1].recorded_at@, x.recorded_at@);
                                lemma_seq_le_trans(s[a].recorded_at@, x.recorded_at@, e0[b - 1].recorded_at@);
                            }
                        }
                    }
                }
                broadcast use vstd::multiset::group_multiset_axioms;
                assert(r0.to_multiset().count(x) > 0) by {
                    broadcast use vstd::seq_lib::group_to_multiset_ensures;
                    assert(r0.contains(x)) by { assert(r0[0] == x); }
                }
                assert(self.entries@.to_multiset().add(rest@.to_multiset()) =~= orig.to_multiset());
            }
        }
    }
}

impl ProjectTimeline {
    /// Ends a reconciliation that dropped `removed` entries: adds the
    /// entries of the files found, orders all entries by recording time,
    /// and brings the totals and the modification time up to date. The
    /// result is the number of changes (dropped plus added).
    pub fn finish_reconcile(&mut self, found: Vec<TimelineEntry>, removed: usize, now: String) -> (changes: u128)
        ensures
            final(self).entries@.to_multiset() == old(self).entries@.to_multiset().add(found@.to_multiset()),
            sorted_by_recorded_at(final(self).entries@),
            totals_match(*final(self)),
            final(self).last_modified == now,
            final(self).project_name == old(self).project_name,
            final(self).created_at == old(self).created_at,
            changes == removed as int + found@.len(),
    {
        let ghost before = self.entries@;
        let n = found.len();
        let mut found = found;
        let ghost f0 = found@;
        let mut k: usize = 0;
        proof {
            broadcast use vstd::seq_lib::group_to_multiset_ensures, vstd::multiset::group_multiset_axioms;
            vstd::multiset::lemma_multiset_empty_len(Seq::<TimelineEntry>::empty().to_multiset());
            assert(f0.subrange(0, 0) =~= Seq::<TimelineEntry>::empty());
            assert(self.entries@.to_multiset() =~= before.to_multiset().add(f0.subrange(0, 0).to_multiset()));
        }
        while found.len() > 0
            invariant
                k + found@.len() == n,
                n == f0.len(),
                found@ == f0.subrange(k as int, n as int),
                self.entries@.to_multiset() == before.to_multiset().add(f0.subrange(0, k as int).to_multiset()),
                self.project_name == old(self).project_name,
                self.created_at == old(self).created_at,
            decreases found@.len(),
        {
            let e = found.remove(0);
            proof {
                broadcast use vstd::seq_lib::group_to_multiset_ensures, vstd::multiset::group_multiset_axioms;
                assert(f0.subrange(0, k + 1) =~= f0.subrange(0, k as int).push(e));
                assert(found@ =~= f0.subrange(k + 1, n as int));
            }
            let ghost prev = self.entries@;
            self.entries.push(e);
            proof {
                broadcast use vstd::seq_lib::group_to_multiset_ensures, vstd::multiset::group_multiset_axioms;
                assert(self.entries@.to_multiset() =~= before.to_multiset().add(f0.subrange(0, k + 1).to_multiset()));
            }
            k = k + 1;
        }
        proof {
            assert(f0.subrange(0, n as int) =~= f0);
        }
        self.sort_entries();
        self.update_totals();
        self.last_modified = now;
        removed as u128 + n as u128
    }
}

/// Orders projects with the most recently modified first; projects
/// modified at the same time keep their order.
pub fn sort_projects_newest_first(projects: &mut Vec<Project>)
    ensures
        sorted_newest_first(final(projects)@),
        final(projects)@.to_multiset() == old(projects)@.to_multiset(),
{
    let mut rest: Vec<Project> = Vec::new();
    std::mem::swap(projects, &mut rest);
    let ghost orig = rest@;
    proof {
        broadcast use vstd::seq_lib::group_to_multiset_ensures, vstd::multiset::group_multiset_axioms;
        vstd::multiset::lemma_multiset_empty_len(projects@.to_multiset());
        assert(rest@.to_multiset() =~= projects@.to_multiset().add(rest@.to_multiset()));
    }
    while rest.len() > 0
        invariant
            sorted_newest_first(projects@),
            projects@.to_multiset().add(rest@.to_multiset()) == orig.to_multiset(),
        decreases rest@.len(),
    {
        let ghost r0 = rest@;
        let x = rest.remove(0);
        proof {
            to_multiset_remove(r0, 0);
        }
        let mut j: usize = projects.len();
        while j > 0
            invariant
                0 <= j <= projects@.len(),
                sorted_newest_first(projects@),
                forall|t: int| j <= t < projects@.len() ==> !seq_le(x.last_modified@,
                    (#[trigger] projects@[t]).last_modified@),
            ensures
                0 <= j <= projects@.len(),
                forall|t: int| j <= t < projects@.len() ==> !seq_le(x.last_modified@,
                    (#[trigger] projects@[t]).last_modified@),
                j > 0 ==> seq_le(x.last_modified@, projects@[j - 1].last_modified@),
            decreases j,
        {
            if text_le(x.last_modified.as_str(), projects[j - 1].last_modified.as_str()) {
                break;
            }
            j = j - 1;
        }
        let ghost e0 = projects@;
        projects.insert(j, x);
        proof {
            to_multiset_insert(e0, j as int, x);
            assert forall|a: int, b: int| 0 <= a < b < projects@.len() implies seq_le(
                projects@[b].last_modified@, projects@[a].last_modified@) by {
                let s = projects@;
                if a < j {
                    assert(s[a] == e0[a]);
                    if j > 0 && a < j - 1 {
                        assert(seq_le(e0[j - 1].last_modified@, e0[a].last_modified@));
                    } else if j > 0 {
                        lemma_seq_le_refl(e0[a].last_modified@);
                    }
                }
                if b == j {
                    lemma_seq_le_trans(x.last_modified@, e0[j - 1].last_modified@, s[a].last_modified@);
                } else if a == j {
                    lemma_seq_le_total(x.last_modified@, e0[b - 1].last_modified@);
                } else if b < j {
                } else if a < j {
                    lemma_seq_le_total(x.last_modified@, e0[b - 1].last_modified@);
                    if j > 0 {
                        lemma_seq_le_trans(x.last_modified@, e0[j - 1].last_modified@, s[a].last_modified@);
                        lemma_seq_le_trans(e0[b - 1].last_modified@, x.last_modified@, s[a].last_modified@);
                    }
                }
            }
            broadcast use vstd::multiset::group_multiset_axioms;
            assert(r0.to_multiset().count(x) > 0) by {
                broadcast use vstd::seq_lib::group_to_multiset_ensures;
                assert(r0.contains(x)) by { assert(r0[0] == x); }
            }
            assert(projects@.to_multiset().add(rest@.to_multiset()) =~= orig.to_multiset());
        }
    }
}

impl Project {
    /// The summary of a project folder `name` with this timeline.
    pub fn from_timeline(name: String, timeline: &ProjectTimeline) -> (r: Project)
        ensures
            r.name == name,
            r.created_at == timeline.created_at,
            r.video_count == timeline.metadata.total_videos,
            r.last_modified == timeline.last_modified,
    {
        Project {
            name,
            created_at: timeline.created_at.clone(),
            video_count: timeline.metadata.total_videos,
            last_modified: timeline.last_modified.clone(),
        }
    }

    /// The summary of a project folder without a readable timeline.
    pub fn empty(name: String, now: String) -> (r: Project)
        ensures
            r.name == name,
            r.created_at == now,
            r.video_count == 0,
            r.last_modified == now,
    {
        Project { name, created_at: now.clone(), video_count: 0, last_modified: now }
    }
}

/// Characters a project name may not hold: they would break its folder.
pub open spec fn is_forbidden_char(c: char) -> bool {
    c == '/' || c == '\\' || c == ':' || c == '*' || c == '?' || c == '"' || c == '<' || c == '>' || c == '|'
}

/// Whether an already trimmed project name can name a project folder.
pub open spec fn spec_name_ok(t: Seq<char>) -> bool {
    t.len() > 0 && forall|i: int| 0 <= i < t.len() ==> !is_forbidden_char(#[trigger] t[i])
}

/// Checks a trimmed project name: an empty one, or one with a character
/// that a folder name cannot hold, is a configuration error.
pub fn check_project_name(t: &str) -> (r: Result<(), CaptureError>)
    ensures
        r is Ok <==> spec_name_ok(t@),
        r matches Err(e) ==> e is Configuration,
{
    let n = t.unicode_len();
    if n == 0 {
        return Err(CaptureError::Configuration(String::from_str("Project name cannot be empty")));
    }
    let mut i: usize = 0;
    while i < n
        invariant
            n == t@.len(),
            0 <= i <= n,
            forall|k: int| 0 <= k < i ==> !is_forbidden_char(#[trigger] t@[k]),
        decreases n - i,
    {
        let c = t.get_char(i);
        if c == '/' || c == '\\' || c == ':' || c == '*' || c == '?' || c == '"' || c == '<' || c == '>' || c == '|' {
            return Err(CaptureError::Configuration(String::from_str("Project name contains invalid characters")));
        }
        i = i + 1;
    }
    Ok(())
}

/// The name a new project gets: the given one without surrounding white
/// space, provided that is a valid folder name.
pub fn validate_project_name(name: &str) -> (r: Result<String, CaptureError>)
    ensures
        r is Ok <==> spec_name_ok(trimmed(name@)),
        r matches Ok(t) ==> t@ == trimmed(name@),
        r matches Err(e) ==> e is Configuration,
{
    let t = trim(name);
    match check_project_name(t.as_str()) {
        Ok(()) => Ok(t),
        Err(e) => Err(e),
    }
}

/// Aspect ratio and size guessed from a lowercase file name.
pub open spec fn spec_video_properties(lower: Seq<char>) -> (Seq<char>, u32, u32) {
    if spec_contains(lower, "1920x1080"@) || spec_contains(lower, "1080p"@) || spec_contains(lower, "fhd"@) {
        ("16:9"@, 1920, 1080)
    } else if spec_contains(lower, "2560x1440"@) || spec_contains(lower, "1440p"@) || spec_contains(lower, "qhd"@) {
        ("16:9"@, 2560, 1440)
    } else if spec_contains(lower, "3840x2160"@) || spec_contains(lower, "4k"@) || spec_contains(lower, "uhd"@) {
        ("16:9"@, 3840, 2160)
    } else if spec_contains(lower, "1080x1920"@) || spec_contains(lower, "vertical"@) || spec_contains(lower, "portrait"@) {
        ("9:16"@, 1080, 1920)
    } else if spec_contains(lower, "1440x2560"@) {
        ("9:16"@, 1440, 2560)
    } else if spec_contains(lower, "2160x3840"@) {
        ("9:16"@, 2160, 3840)
    } else {
        ("16:9"@, 1920, 1080)
    }
}

/// Aspect ratio and size guessed from a lowercase file name.
pub fn video_properties_of_lowered(lower: &str) -> (r: (String, u32, u32))
    ensures
        r.0@ == spec_video_properties(lower@).0,
        r.1 == spec_video_properties(lower@).1,
        r.2 == spec_video_properties(lower@).2,
{
    if contains_text(lower, "1920x1080") || contains_text(lower, "1080p") || contains_text(lower, "fhd") {
        (String::from_str("16:9"), 1920, 1080)
    } else if contains_text(lower, "2560x1440") || contains_text(lower, "1440p") || contains_text(lower, "qhd") {
        (String::from_str("16:9"), 2560, 1440)
    } else if contains_text(lower, "3840x2160") || contains_text(lower, "4k") || contains_text(lower, "uhd") {
        (String::from_str("16:9"), 3840, 2160)
    } else if contains_text(lower, "1080x1920") || contains_text(lower, "vertical") || contains_text(lower, "portrait") {
        (String::from_str("9:16"), 1080, 1920)
    } else if contains_text(lower, "1440x2560") {
        (String::from_str("9:16"), 1440, 2560)
    } else if contains_text(lower, "2160x3840") {
        (String::from_str("9:16"), 2160, 3840)
    } else {
        (String::from_str("16:9"), 1920, 1080)
    }
}

/// Aspect ratio and size guessed from a file name's resolution markers,
/// in any case; 16:9 at 1920x1080 where it has none.
pub fn detect_video_properties_from_filename(filename: &str) -> (r: (String, u32, u32))
    ensures
        r.0@ == spec_video_properties(lower_of(filename@)).0,
        r.1 == spec_video_properties(lower_of(filename@)).1,
        r.2 == spec_video_properties(lower_of(filename@)).2,
{
    let lower = lowercase(filename);
    video_properties_of_lowered(lower.as_str())
}

/// Bytes per second assumed when a duration is estimated from a size.
pub const ESTIMATE_BYTES_PER_SECOND: u64 = 1048576;

pub open spec fn spec_estimate_ms(file_size: u64) -> int {
    let secs = file_size / ESTIMATE_BYTES_PER_SECOND;
    (if secs < 1 { 1 } else { secs }) * 1000
}

/// Rough duration of a recording from its size (about one megabyte per
/// second, at least one second), in milliseconds.
pub fn estimate_duration_from_file_size(file_size: u64) -> (r: u64)
    ensures
        r == spec_estimate_ms(file_size),
{
    let secs = file_size / ESTIMATE_BYTES_PER_SECOND;
    let secs = if secs < 1 { 1 } else { secs };
    secs * 1000
}

/// A path with a leading `~/` replaced by the home folder, where one is
/// known.
pub open spec fn spec_expand_home(path: Seq<char>, home: Option<Seq<char>>) -> Seq<char> {
    if spec_starts_with(path, "~/"@) && home is Some {
        spec_join(home->0, path.subrange(2, path.len() as int))
    } else {
        path
    }
}

/// Expands a leading `~/` to the home folder `home`.
pub fn expand_home_path(path: &str, home: Option<String>) -> (r: String)
    ensures
        r@ == spec_expand_home(path@, match home {
            Some(h) => Some(h@),
            None => None,
        }),
{
    proof {
        reveal_strlit("~/");
    }
    let n = path.unicode_len();
    let tilde = n >= 2 && path.get_char(0) == '~' && path.get_char(1) == '/';
    proof {
        if n >= 2 {
            if tilde {
                assert(path@.subrange(0, 2) =~= "~/"@);
            } else {
                assert(path@.subrange(0, 2)[0] == path@[0]);
                assert(path@.subrange(0, 2)[1] == path@[1]);
            }
        }
    }
    match home {
        Some(h) => {
            if tilde {
                let mut s = h;
                s.append("/");
                s.append(path.substring_char(2, n));
                s
            } else {
                String::from_str(path)
            }
        },
        None => String::from_str(path),
    }
}

/// What SHA-256 gives for a byte string.
pub uninterp spec fn sha256_of(bytes: Seq<u8>) -> Seq<u8>;

/// Relies on `sha2::Sha256::digest`: the 32-byte SHA-256 digest of the
/// bytes, which depends on them alone.
#[verifier::external_body]
fn sha256_digest(bytes: &[u8]) -> (r: Vec<u8>)
    ensures
        r@ == sha256_of(bytes@),
        r@.len() == 32,
{
    sha2::Sha256::digest(bytes).to_vec()
}

/// The lowercase hex digit of a value below 16.
pub open spec fn hex_digit(d: int) -> char {
    if d < 10 { crate::capturer::digit_char(d) } else { hex_letter(d - 10) }
}

pub open spec fn hex_letter(d: int) -> char {
    if d == 0 { 'a' } else if d == 1 { 'b' } else if d == 2 { 'c' } else if d == 3 { 'd' }
    else if d == 4 { 'e' } else { 'f' }
}

/// Two lowercase hex digits per byte, most significant first.
pub open spec fn spec_hex(bytes: Seq<u8>) -> Seq<char>
    decreases bytes.len(),
{
    if bytes.len() == 0 {
        Seq::empty()
    } else {
        spec_hex(bytes.drop_last()) + seq![hex_digit(bytes.last() as int / 16), hex_digit(bytes.last() as int % 16)]
    }
}

fn hex_digit_str(d: u8) -> (r: &'static str)
    requires
        d < 16,
    ensures
        r@ == seq![hex_digit(d as int)],
{
    proof {
        reveal_strlit("0");
        reveal_strlit("1");
        reveal_strlit("2");
        reveal_strlit("3");
        reveal_strlit("4");
        reveal_strlit("5");
        reveal_strlit("6");
        reveal_strlit("7");
        reveal_strlit("8");
        reveal_strlit("9");
        reveal_strlit("a");
        reveal_strlit("b");
        reveal_strlit("c");
        reveal_strlit("d");
        reveal_strlit("e");
        reveal_strlit("f");
    }
    if d == 0 { "0" } else if d == 1 { "1" } else if d == 2 { "2" } else if d == 3 { "3" }
    else if d == 4 { "4" } else if d == 5 { "5" } else if d == 6 { "6" } else if d == 7 { "7" }
    else if d == 8 { "8" } else if d == 9 { "9" } else if d == 10 { "a" } else if d == 11 { "b" }
    else if d == 12 { "c" } else if d == 13 { "d" } else if d == 14 { "e" } else { "f" }
}

/// Lowercase hex text of bytes.
pub fn hex_string(bytes: &[u8]) -> (r: String)
    ensures
        r@ == spec_hex(bytes@),
{
    let mut s = String::new();
    let mut i: usize = 0;
    while i < bytes.len()
        invariant
            0 <= i <= bytes@.len(),
            s@ == spec_hex(bytes@.subrange(0, i as int)),
        decreases bytes@.len() - i,
    {
        let b = bytes[i];
        s.append(hex_digit_str(b / 16));
        s.append(hex_digit_str(b % 16));
        proof {
            assert(bytes@.subrange(0, i + 1).drop_last() =~= bytes@.subrange(0, i as int));
            assert(s@ =~= spec_hex(bytes@.subrange(0, i + 1)));
        }
        i = i + 1;
    }
    proof {
        assert(bytes@.subrange(0, bytes@.len() as int) =~= bytes@);
    }
    s
}

/// The checksum stored for a file's content: its SHA-256 in lowercase hex.
pub fn file_checksum(content: &[u8]) -> (r: String)
    ensures
        r@ == spec_hex(sha256_of(content@)),
{
    let digest = sha256_digest(content);
    hex_string(digest.as_slice())
}

/// Relies on `uuid::Uuid::new_v4` and its `Display`: a random identifier in
/// hyphenated form, 36 characters.
#[verifier::external_body]
fn new_entry_id() -> (r: String)
    ensures
        r@.len() == 36,
{
    uuid::Uuid::new_v4().to_string()
}

/// What chrono gives as RFC 3339 text of a UTC time in whole seconds since
/// the epoch, or nothing where the time is out of its range.
pub uninterp spec fn rfc3339_text(secs: i64) -> Option<Seq<char>>;

/// Relies on `chrono::DateTime::<Utc>::from_timestamp` and `to_rfc3339`:
/// the time as RFC 3339 text, which depends on the seconds alone; None out
/// of chrono's range.
#[verifier::external_body]
fn rfc3339_from_secs(secs: i64) -> (r: Option<String>)
    ensures
        r is Some <==> rfc3339_text(secs) is Some,
        r matches Some(t) ==> rfc3339_text(secs) == Some(t@),
{
    chrono::DateTime::<chrono::Utc>::from_timestamp(secs, 0).map(|dt| dt.to_rfc3339())
}

/// When a file found on disk was recorded: its creation time, or `now`
/// where that is unknown or out of range.
pub open spec fn spec_recorded_at(created_secs: Option<i64>, now: Seq<char>) -> Seq<char> {
    match created_secs {
        Some(t) => match rfc3339_text(t) {
            Some(x) => x,
            None => now,
        },
        None => now,
    }
}

pub fn recorded_at_for(created_secs: Option<i64>, now: String) -> (r: String)
    ensures
        r@ == spec_recorded_at(created_secs, now@),
{
    match created_secs {
        Some(t) => match rfc3339_from_secs(t) {
            Some(text) => text,
            None => now,
        },
        None => now,
    }
}

/// The entry for a video file found on disk but not on the timeline: its
/// time is the file's creation time (or `now`), its duration the probed one
/// or else an estimate from the size, its size and aspect ratio guessed
/// from the name.
pub fn entry_for_found_file(
    filename: String,
    checksum: String,
    created_secs: Option<i64>,
    file_size: u64,
    probed_duration_ms: Option<u64>,
    now: String,
) -> (r: TimelineEntry)
    ensures
        r.filename == filename,
        r.checksum == Some(checksum),
        r.duration_ms == match probed_duration_ms {
            Some(d) => d as int,
            None => spec_estimate_ms(file_size),
        },
        r.aspect_ratio@ == spec_video_properties(lower_of(filename@)).0,
        r.resolution == (Resolution {
            width: spec_video_properties(lower_of(filename@)).1,
            height: spec_video_properties(lower_of(filename@)).2,
        }),
        r.mic_enabled,
        r.notes matches Some(n) && n@ == "Added during timeline reconciliation"@,
        r.recorded_at@ == spec_recorded_at(created_secs, now@),
{
    let (aspect_ratio, width, height) = detect_video_properties_from_filename(filename.as_str());
    let duration_ms = match probed_duration_ms {
        Some(d) => d,
        None => estimate_duration_from_file_size(file_size),
    };
    let recorded_at = recorded_at_for(created_secs, now);
    let mut entry = new_timeline_entry(filename, recorded_at, duration_ms, aspect_ratio, width, height, true, Some(checksum));
    entry.notes = Some(String::from_str("Added during timeline reconciliation"));
    entry
}

/// A new timeline entry with a fresh random identifier.
pub fn new_timeline_entry(
    filename: String,
    recorded_at: String,
    duration_ms: u64,
    aspect_ratio: String,
    width: u32,
    height: u32,
    mic_enabled: bool,
    checksum: Option<String>,
) -> (r: TimelineEntry)
    ensures
        r.id@.len() == 36,
        r.filename == filename,
        r.recorded_at == recorded_at,
        r.duration_ms == duration_ms,
        r.aspect_ratio == aspect_ratio,
        r.resolution == (Resolution { width, height }),
        r.mic_enabled == mic_enabled,
        r.notes is None,
        r.checksum == checksum,
{
    TimelineEntry {
        id: new_entry_id(),
        filename,
        recorded_at,
        duration_ms,
        aspect_ratio,
        resolution: Resolution { width, height },
        mic_enabled,
        notes: None,
        checksum,
    }
}

} // verus!
