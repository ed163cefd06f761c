//! Vertical-axis scale computation: derive an inclusive `[min, max]` domain
//! with a fixed tick step from a sequence of fixed-point sample values.

use vstd::prelude::*;

verus! {

/// Per-metric axis configuration: the default domain used when no sample is
/// available, and the fixed tick step, all in thousandths of a unit.
#[derive(Clone, Copy, PartialEq, Eq, Structural, Debug)]
pub struct ScaleConfig {
    pub default_min: i64,
    pub default_max: i64,
    pub step: i64,
}

impl ScaleConfig {
    /// A configuration is well formed when the tick step is positive and the
    /// default domain is not inverted.
    pub open spec fn wf(self) -> bool {
        0 < self.step && self.default_min <= self.default_max
    }
}

/// An axis domain: inclusive `[min, max]` bounds plus the tick step, in
/// thousandths of a unit.
#[derive(Clone, Copy, PartialEq, Eq, Structural, Debug)]
pub struct Scale {
    pub min: i64,
    pub max: i64,
    pub step: i64,
}

/// Mathematical model of a scale, over unbounded integers.
pub ghost struct ScaleModel {
    pub min: int,
    pub max: int,
    pub step: int,
}

impl View for Scale {
    type V = ScaleModel;

    open spec fn view(&self) -> ScaleModel {
        ScaleModel { min: self.min as int, max: self.max as int, step: self.step as int }
    }
}

impl ScaleModel {
    /// A domain is well formed when it is not inverted and its step is positive.
    pub open spec fn wf(self) -> bool {
        self.min <= self.max && 0 < self.step
    }
}

/// The smallest value of a non-empty sequence of samples.
pub open spec fn seq_min(s: Seq<i64>) -> int
    recommends
        s.len() > 0,
    decreases s.len(),
{
    if s.len() <= 1 {
        s[0] as int
    } else {
        let rest = seq_min(s.drop_last());
        if s.last() as int <= rest {
            s.last() as int
        } else {
            rest
        }
    }
}

/// The largest value of a non-empty sequence of samples.
pub open spec fn seq_max(s: Seq<i64>) -> int
    recommends
        s.len() > 0,
    decreases s.len(),
{
    if s.len() <= 1 {
        s[0] as int
    } else {
        let rest = seq_max(s.drop_last());
        if s.last() as int >= rest {
            s.last() as int
        } else {
            rest
        }
    }
}

/// The domain an axis gets for a sample sequence: the default domain when the
/// sequence is empty, otherwise the raw extrema padded outward by one step.
pub open spec fn scale_model(samples: Seq<i64>, cfg: ScaleConfig) -> ScaleModel {
    if samples.len() == 0 {
        ScaleModel {
            min: cfg.default_min as int,
            max: cfg.default_max as int,
            step: cfg.step as int,
        }
    } else {
        ScaleModel {
            min: seq_min(samples) - cfg.step,
            max: seq_max(samples) + cfg.step,
            step: cfg.step as int,
        }
    }
}

/// A sample value that leaves room for one step of padding on either side
/// without leaving the machine integer range.
pub open spec fn sample_in_range(v: i64, step: i64) -> bool {
    i64::MIN + step <= v as int && v as int <= i64::MAX - step
}

/// The extrema of a non-empty sample sequence bound every element and are
/// themselves elements of the sequence.
pub proof fn lemma_seq_extrema(s: Seq<i64>)
    requires
        s.len() > 0,
    ensures
        forall|i: int| 0 <= i < s.len() ==> seq_min(s) <= s[i] as int,
        forall|i: int| 0 <= i < s.len() ==> s[i] as int <= seq_max(s),
        exists|i: int| 0 <= i < s.len() && seq_min(s) == s[i] as int,
        exists|i: int| 0 <= i < s.len() && seq_max(s) == s[i] as int,
    decreases s.len(),
{
    if s.len() == 1 {
        assert(seq_min(s) == s[0] as int);
        assert(seq_max(s) == s[0] as int);
    } else {
        lemma_seq_extrema(s.drop_last());
        assert forall|i: int| 0 <= i < s.len() implies seq_min(s) <= s[i] as int
            && s[i] as int <= seq_max(s) by {
            if i < s.len() - 1 {
                assert(s.drop_last()[i] == s[i]);
            }
        }
        if seq_min(s) == seq_min(s.drop_last()) {
            let j = choose|j: int|
                0 <= j < s.drop_last().len() && seq_min(s.drop_last()) == s.drop_last()[j] as int;
            assert(seq_min(s) == s[j] as int);
        } else {
            assert(seq_min(s) == s[s.len() - 1] as int);
        }
        if seq_max(s) == seq_max(s.drop_last()) {
            let j = choose|j: int|
                0 <= j < s.drop_last().len() && seq_max(s.drop_last()) == s.drop_last()[j] as int;
            assert(seq_max(s) == s[j] as int);
        } else {
            assert(seq_max(s) == s[s.len() - 1] as int);
        }
    }
}

/// Compute the axis domain for a sample sequence: the default domain when the
/// sequence is empty, otherwise one linear scan for the raw extrema, padded
/// outward by one step.
pub fn compute_scale(samples: &Vec<i64>, cfg: &ScaleConfig) -> (r: Scale)
    requires
        cfg.wf(),
        forall|i: int| 0 <= i < samples@.len() ==> sample_in_range(samples@[i], cfg.step),
    ensures
        r@ == scale_model(samples@, *cfg),
        r@.wf(),
{
    let mut low: Option<i64> = None;
    let mut high: Option<i64> = None;
    let mut idx: usize = 0;
    while idx < samples.len()
        invariant
            0 <= idx <= samples@.len(),
            cfg.wf(),
            forall|i: int| 0 <= i < samples@.len() ==> sample_in_range(samples@[i], cfg.step),
            idx == 0 ==> low is None && high is None,
            idx > 0 ==> (low matches Some(l) && l as int == seq_min(samples@.take(idx as int))),
            idx > 0 ==> (high matches Some(h) && h as int == seq_max(samples@.take(idx as int))),
        decreases samples@.len() - idx,
    {
        let value = samples[idx];
        proof {
            assert(samples@.take(idx as int + 1).drop_last() =~= samples@.take(idx as int));
            assert(samples@.take(idx as int + 1).last() == samples@[idx as int]);
        }
        match low {
            Some(current_low) => {
                if value < current_low {
                    low = Some(value);
                }
            },
            None => {
                low = Some(value);
            },
        }
        match high {
            Some(current_high) => {
                if value > current_high {
                    high = Some(value);
                }
            },
            None => {
                high = Some(value);
            },
        }
        idx = idx + 1;
    }
    proof {
        if samples@.len() > 0 {
            assert(samples@.take(samples@.len() as int) =~= samples@);
            lemma_seq_extrema(samples@);
        }
    }
    match (low, high) {
        (Some(found_low), Some(found_high)) => Scale {
            min: found_low - cfg.step,
            max: found_high + cfg.step,
            step: cfg.step,
        },
        _ => Scale { min: cfg.default_min, max: cfg.default_max, step: cfg.step },
    }
}

/// For every non-empty sample sequence the padded domain is at least two steps
/// wide, and for the empty sequence it equals the default domain exactly.
pub proof fn lemma_scale_width(samples: Seq<i64>, cfg: ScaleConfig)
    requires
        cfg.wf(),
    ensures
        samples.len() > 0 ==> scale_model(samples, cfg).max - scale_model(samples, cfg).min
            >= 2 * cfg.step,
        samples.len() == 0 ==> scale_model(samples, cfg) == (ScaleModel {
            min: cfg.default_min as int,
            max: cfg.default_max as int,
            step: cfg.step as int,
        }),
{
    if samples.len() > 0 {
        lemma_seq_extrema(samples);
        let j = choose|j: int| 0 <= j < samples.len() && seq_min(samples) == samples[j] as int;
        assert(seq_min(samples) <= seq_max(samples));
    }
}

/// For every non-empty sample sequence, every sample — in particular both raw
/// extrema — lies within the padded domain, and the extrema stay strictly
/// clear of its bounds because the step is positive.
pub proof fn lemma_scale_brackets_samples(samples: Seq<i64>, cfg: ScaleConfig)
    requires
        cfg.wf(),
        samples.len() > 0,
    ensures
        scale_model(samples, cfg).min < seq_min(samples),
        seq_min(samples) <= seq_max(samples),
        seq_max(samples) < scale_model(samples, cfg).max,
        forall|i: int|
            0 <= i < samples.len() ==> scale_model(samples, cfg).min <= samples[i] as int
                && samples[i] as int <= scale_model(samples, cfg).max,
{
    lemma_seq_extrema(samples);
    let j = choose|j: int| 0 <= j < samples.len() && seq_min(samples) == samples[j] as int;
    assert(seq_min(samples) <= seq_max(samples));
}

} // verus!
