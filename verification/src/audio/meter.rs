//! The spectrum meter's stored band levels and how a block of interleaved
//! samples is framed for analysis. The meter is one store of levels; the
//! audio path and the window share it through a handle that the program
//! holds, not through copies.

use vstd::prelude::*;

verus! {

/// The number of frequency bands the meter shows.
pub const BAND_COUNT: usize = 16;

/// The most frames one analysis reads.
pub const MAX_FRAMES: usize = 2048;

/// The fewest frames worth analysing.
pub const MIN_FRAMES: usize = 8;

/// The band levels of the spectrum meter, each in thousandths of full scale.
pub struct PcmMeter {
    bands: Vec<u32>,
}

impl PcmMeter {
    /// The meter holds one level per band.
    pub closed spec fn well_formed(&self) -> bool {
        self.bands@.len() == BAND_COUNT
    }

    /// The stored levels, in thousandths.
    pub closed spec fn levels_milli(&self) -> Seq<u32> {
        self.bands@
    }

    /// A meter with every band at zero.
    pub fn new() -> (r: Self)
        ensures
            r.well_formed(),
            r.levels_milli() == Seq::new(BAND_COUNT as nat, |i: int| 0u32),
    {
        let mut bands: Vec<u32> = Vec::new();
        let mut i: usize = 0;
        while i < BAND_COUNT
            invariant
                i <= BAND_COUNT,
                bands@ == Seq::new(i as nat, |k: int| 0u32),
            decreases BAND_COUNT - i,
        {
            bands.push(0);
            i = i + 1;
            assert(bands@ =~= Seq::new(i as nat, |k: int| 0u32));
        }
        PcmMeter { bands }
    }

    /// Sets every band to zero.
    pub fn clear(&mut self)
        requires
            old(self).well_formed(),
        ensures
            final(self).well_formed(),
            final(self).levels_milli() == Seq::new(BAND_COUNT as nat, |i: int| 0u32),
    {
        let mut i: usize = 0;
        while i < self.bands.len()
            invariant
                self.bands@.len() == BAND_COUNT,
                i <= BAND_COUNT,
                forall|k: int| 0 <= k < i ==> self.bands@[k] == 0u32,
            decreases BAND_COUNT - i,
        {
            self.bands.set(i, 0);
            i = i + 1;
        }
        assert(self.bands@ =~= Seq::new(BAND_COUNT as nat, |i: int| 0u32));
    }

    /// The level of one band, in thousandths.
    pub fn band(&self, index: usize) -> (r: u32)
        requires
            self.well_formed(),
            index < BAND_COUNT,
        ensures
            r == self.levels_milli()[index as int],
    {
        self.bands[index]
    }

    /// Stores the level of one band, in thousandths.
    pub fn store_band(&mut self, index: usize, level_milli: u32)
        requires
            old(self).well_formed(),
            index < BAND_COUNT,
        ensures
            final(self).well_formed(),
            final(self).levels_milli() == old(self).levels_milli().update(index as int, level_milli),
    {
        self.bands.set(index, level_milli);
    }

    /// All levels, in thousandths, band by band.
    pub fn levels_milli_vec(&self) -> (r: Vec<u32>)
        ensures
            r@ == self.levels_milli(),
    {
        self.bands.clone()
    }
}

/// What one analysis does with a block of samples.
#[derive(Clone, Copy, Debug, PartialEq, Eq, Structural)]
pub enum AnalysisPlan {
    /// No channels or no sample rate: the meter is cleared.
    Clear,
    /// Too few frames: the levels stay as they are.
    Skip,
    /// Analyse `frames` frames, starting after the first `frame_stride`.
    Analyze { frames: usize, frame_stride: usize },
}

/// The plan for `sample_count` interleaved samples of `channels` channels:
/// the last frames of the block, at most 2048 of them, and none below 8.
pub open spec fn spec_plan(sample_count: usize, channels: usize, sample_rate: u32) -> AnalysisPlan {
    if channels == 0 || sample_rate == 0 {
        AnalysisPlan::Clear
    } else {
        let available = sample_count / channels;
        let frames = if available < MAX_FRAMES {
            available
        } else {
            MAX_FRAMES
        };
        if frames < MIN_FRAMES {
            AnalysisPlan::Skip
        } else {
            AnalysisPlan::Analyze { frames, frame_stride: (available - frames) as usize }
        }
    }
}

/// Plans the analysis of a block of samples.
pub fn plan_analysis(sample_count: usize, channels: usize, sample_rate: u32) -> (r: AnalysisPlan)
    ensures
        r == spec_plan(sample_count, channels, sample_rate),
{
    if channels == 0 || sample_rate == 0 {
        return AnalysisPlan::Clear;
    }
    let available = sample_count / channels;
    let frames = if available < MAX_FRAMES {
        available
    } else {
        MAX_FRAMES
    };
    if frames < MIN_FRAMES {
        return AnalysisPlan::Skip;
    }
    AnalysisPlan::Analyze { frames, frame_stride: available - frames }
}

/// Every sample an analysis reads lies inside the block: for each frame it
/// reads and each channel, the index is below the sample count.
pub proof fn law_analysis_reads_inside_block(
    sample_count: usize,
    channels: usize,
    sample_rate: u32,
    frame: int,
    channel: int,
)
    requires
        spec_plan(sample_count, channels, sample_rate) is Analyze,
        0 <= frame < spec_plan(sample_count, channels, sample_rate)->frames,
        0 <= channel < channels,
    ensures
        0 <= (spec_plan(sample_count, channels, sample_rate)->frame_stride + frame) * channels + channel
            < sample_count,
{
    let p = spec_plan(sample_count, channels, sample_rate);
    let available = sample_count as int / channels as int;
    let stride = p->frame_stride as int;
    assert(stride + frame + 1 <= available);
    assert((stride + frame) * channels + channel < (stride + frame + 1) * channels) by (nonlinear_arith)
        requires
            channel < channels,
    ;
    assert((stride + frame + 1) * channels <= available * channels) by (nonlinear_arith)
        requires
            stride + frame + 1 <= available,
            channels > 0,
    ;
    assert(available * channels <= sample_count) by (nonlinear_arith)
        requires
            available == sample_count as int / channels as int,
            channels > 0,
    ;
    assert(0 <= (stride + frame) * channels) by (nonlinear_arith)
        requires
            stride + frame >= 0,
            channels > 0,
    ;
}

/// The index of a sample that an analysis reads: channel `channel` of frame
/// `frame` after the skipped frames.
pub fn sample_index(
    sample_count: usize,
    channels: usize,
    sample_rate: u32,
    frames: usize,
    frame_stride: usize,
    frame: usize,
    channel: usize,
) -> (r: usize)
    requires
        spec_plan(sample_count, channels, sample_rate) == (AnalysisPlan::Analyze { frames, frame_stride }),
        frame < frames,
        channel < channels,
    ensures
        r == (frame_stride + frame) * channels + channel,
        r < sample_count,
{
    proof {
        law_analysis_reads_inside_block(sample_count, channels, sample_rate, frame as int, channel as int);
    }
    (frame_stride + frame) * channels + channel
}

/// A source of audio whose output feeds a meter. `M` is the handle through
/// which the meter is shared: the source records into the very meter that
/// handle names, and every holder of the same handle sees what it records.
pub struct MeteredSource<S, M> {
    source: S,
    meter: M,
}

impl<S, M> MeteredSource<S, M> {
    /// The source, metered into the shared meter `meter`.
    pub fn new(source: S, meter: M) -> (r: Self)
        ensures
            r.source() == source,
            r.meter() == meter,
    {
        MeteredSource { source, meter }
    }

    /// The source fed.
    pub closed spec fn source(&self) -> S {
        self.source
    }

    /// The handle of the meter recorded into.
    pub closed spec fn meter(&self) -> M {
        self.meter
    }

    /// The source, to write samples, and the handle of the meter that
    /// records their levels.
    pub fn parts_mut(&mut self) -> (r: (&mut S, &M))
        ensures
            *r.0 == old(self).source(),
            *r.1 == old(self).meter(),
            final(self).source() == *final(r.0),
            final(self).meter() == old(self).meter(),
    {
        (&mut self.source, &self.meter)
    }
}

} // verus!
