//! Music scheduling behind each render call: the running sample cursor,
//! song changes, and the batch of row cues a render reports. The host
//! sounds the rows on its mixer.
use vstd::prelude::*;
use crate::audio::tracker::{RowFire, SongId, Tracker, TrackerView, spec_advance_view, spec_fire};

verus! {

/// Most cues one render reports; later rows still sound but are not
/// reported.
pub const MAX_CUES_PER_BATCH: usize = 16;

/// A row start reported by a render: absolute sample, song row, kick flag.
#[derive(Clone, Copy, Debug, PartialEq, Eq, Structural)]
pub struct AudioCue {
    pub sample: u64,
    pub row: u32,
    pub kick: bool,
}

/// The samples a render covered and the row cues within them.
#[derive(Clone, Copy, Debug, PartialEq, Eq)]
pub struct AudioBatch {
    pub start_sample: u64,
    pub end_sample: u64,
    pub cues: [Option<AudioCue>; 16],
    pub cue_count: usize,
}

/// The cue a fired row gives in a render starting at `start`.
pub open spec fn spec_cue(start: u64, f: RowFire) -> AudioCue {
    AudioCue { sample: (start + f.offset) as u64, row: f.row, kick: f.kick }
}

impl AudioBatch {
    /// The reported cues, in order.
    pub open spec fn spec_cues(&self) -> Seq<AudioCue> {
        Seq::new(
            self.cue_count as nat,
            |i: int|
                match self.cues[i] {
                    Some(c) => c,
                    None => AudioCue { sample: 0, row: 0, kick: false },
                },
        )
    }

    pub open spec fn wf(&self) -> bool {
        &&& self.cue_count <= MAX_CUES_PER_BATCH
        &&& forall|i: int| 0 <= i < self.cue_count ==> #[trigger] self.cues[i] is Some
    }

    /// A batch for `start_sample..end_sample` reporting the first
    /// `MAX_CUES_PER_BATCH` of `fires`.
    pub fn from_fires(start_sample: u64, end_sample: u64, fires: &Vec<RowFire>) -> (b: AudioBatch)
        requires
            forall|i: int| 0 <= i < fires@.len() ==> start_sample + #[trigger] fires@[i].offset <= u64::MAX,
        ensures
            b.wf(),
            b.start_sample == start_sample,
            b.end_sample == end_sample,
            b.spec_cues().len() == if fires@.len() < MAX_CUES_PER_BATCH {
                fires@.len()
            } else {
                MAX_CUES_PER_BATCH as nat
            },
            forall|i: int| 0 <= i < b.spec_cues().len() ==> #[trigger] b.spec_cues()[i] == spec_cue(start_sample, fires@[i]),
            forall|i: int| b.cue_count <= i < MAX_CUES_PER_BATCH ==> #[trigger] b.cues[i] is None,
    {
        let mut cues: [Option<AudioCue>; 16] = [None; 16];
        let mut n: usize = 0;
        while n < fires.len() && n < MAX_CUES_PER_BATCH
            invariant
                n <= fires@.len(),
                n <= MAX_CUES_PER_BATCH,
                forall|i: int| 0 <= i < fires@.len() ==> start_sample + #[trigger] fires@[i].offset <= u64::MAX,
                forall|i: int| 0 <= i < n ==> #[trigger] cues[i] == Some(spec_cue(start_sample, fires@[i])),
                forall|i: int| n <= i < MAX_CUES_PER_BATCH ==> #[trigger] cues[i] is None,
            decreases MAX_CUES_PER_BATCH - n,
        {
            let f = fires[n];
            cues[n] = Some(AudioCue { sample: start_sample + f.offset as u64, row: f.row, kick: f.kick });
            n = n + 1;
        }
        let b = AudioBatch { start_sample, end_sample, cues, cue_count: n };
        assert forall|i: int| 0 <= i < b.spec_cues().len() implies #[trigger] b.spec_cues()[i] == spec_cue(
            start_sample,
            fires@[i],
        ) by {
            assert(cues[i] == Some(spec_cue(start_sample, fires@[i])));
        }
        b
    }

    /// The reported cues, in order.
    pub fn cues(&self) -> (v: Vec<AudioCue>)
        requires
            self.wf(),
        ensures
            v@ == self.spec_cues(),
    {
        let mut v: Vec<AudioCue> = Vec::new();
        let mut i: usize = 0;
        while i < self.cue_count
            invariant
                self.wf(),
                i <= self.cue_count,
                v@ == self.spec_cues().take(i as int),
            decreases self.cue_count - i,
        {
            if let Some(c) = self.cues[i] {
                v.push(c);
            }
            assert(self.spec_cues().take(i as int + 1) =~= self.spec_cues().take(i as int).push(self.spec_cues()[i as int]));
            i = i + 1;
        }
        assert(self.spec_cues().take(self.cue_count as int) =~= self.spec_cues());
        v
    }
}

/// The music side of the audio engine: which song plays, its tracker, and
/// how many samples have been rendered.
pub struct AudioEngine {
    tracker: Tracker,
    song: SongId,
    sample_cursor: u64,
}

impl AudioEngine {
    pub closed spec fn wf(&self) -> bool {
        &&& self.tracker.wf()
        &&& self.tracker@.song == self.song
    }

    /// The tracker's observable state.
    pub closed spec fn tracker_view(&self) -> TrackerView {
        self.tracker@
    }

    pub closed spec fn spec_song(&self) -> SongId {
        self.song
    }

    pub closed spec fn spec_sample_cursor(&self) -> u64 {
        self.sample_cursor
    }

    /// An engine at the start of `song`, nothing rendered.
    pub fn new(song: SongId) -> (e: AudioEngine)
        ensures
            e.wf(),
            e.spec_song() == song,
            e.spec_sample_cursor() == 0,
            e.tracker_view().song == song,
            e.tracker_view().fired == 0,
            e.tracker_view().consumed == 0,
            !e.tracker_view().intensity_on,
            !e.tracker_view().intensity_pending,
    {
        AudioEngine { tracker: Tracker::new(song), song, sample_cursor: 0 }
    }

    /// Switch songs; a different song restarts from its first row, the same
    /// song carries on undisturbed.
    pub fn set_song(&mut self, song: SongId)
        requires
            old(self).wf(),
        ensures
            final(self).wf(),
            final(self).spec_song() == song,
            final(self).spec_sample_cursor() == old(self).spec_sample_cursor(),
            song == old(self).spec_song() ==> final(self).tracker_view() == old(self).tracker_view(),
            song != old(self).spec_song() ==> {
                &&& final(self).tracker_view().song == song
                &&& final(self).tracker_view().fired == 0
                &&& final(self).tracker_view().consumed == 0
                &&& !final(self).tracker_view().intensity_on
                &&& !final(self).tracker_view().intensity_pending
            },
    {
        if self.song != song {
            self.tracker = Tracker::new(song);
            self.song = song;
        }
    }

    /// Request the battle theme's intensity layer on or off (from the next
    /// bar start).
    pub fn set_intensity(&mut self, enabled: bool)
        requires
            old(self).wf(),
        ensures
            final(self).wf(),
            final(self).spec_song() == old(self).spec_song(),
            final(self).spec_sample_cursor() == old(self).spec_sample_cursor(),
            final(self).tracker_view() == (TrackerView { intensity_pending: enabled, ..old(self).tracker_view() }),
    {
        self.tracker.set_intensity(enabled);
    }

    /// Samples rendered so far.
    pub fn sample_cursor(&self) -> (c: u64)
        ensures
            c == self.spec_sample_cursor(),
    {
        self.sample_cursor
    }

    /// Schedule the next `len` samples: advance the song, and return the
    /// rows to sound (in order) with the batch that reports them.
    pub fn render(&mut self, len: u32) -> (r: (AudioBatch, Vec<RowFire>))
        requires
            old(self).wf(),
            old(self).spec_sample_cursor() + len <= u64::MAX,
        ensures
            final(self).wf(),
            final(self).spec_song() == old(self).spec_song(),
            final(self).spec_sample_cursor() == old(self).spec_sample_cursor() + len,
            final(self).tracker_view() == spec_advance_view(old(self).tracker_view(), len as nat),
            r.1@.len() == final(self).tracker_view().fired - old(self).tracker_view().fired,
            forall|i: int|
                0 <= i < r.1@.len() ==> #[trigger] r.1@[i] == spec_fire(
                    old(self).tracker_view(),
                    (old(self).tracker_view().fired + i) as nat,
                ),
            forall|i: int| 0 <= i < r.1@.len() ==> #[trigger] r.1@[i].offset < len,
            r.0.wf(),
            r.0.start_sample == old(self).spec_sample_cursor(),
            r.0.end_sample == old(self).spec_sample_cursor() + len,
            r.0.spec_cues().len() == if r.1@.len() < MAX_CUES_PER_BATCH {
                r.1@.len()
            } else {
                MAX_CUES_PER_BATCH as nat
            },
            forall|i: int|
                0 <= i < r.0.spec_cues().len() ==> #[trigger] r.0.spec_cues()[i] == spec_cue(
                    old(self).spec_sample_cursor(),
                    r.1@[i],
                ),
            forall|i: int| r.0.cue_count <= i < MAX_CUES_PER_BATCH ==> #[trigger] r.0.cues[i] is None,
    {
        let start = self.sample_cursor;
        let fires = self.tracker.advance(len);
        self.sample_cursor = start + len as u64;
        let batch = AudioBatch::from_fires(start, self.sample_cursor, &fires);
        (batch, fires)
    }
}

} // verus!
