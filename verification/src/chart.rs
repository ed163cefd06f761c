//! Chart data binding: turn a fetched measurement batch into the two
//! renderable point lists and the two independently scaled axis domains.

use vstd::prelude::*;

use crate::scale::{
    compute_scale, sample_in_range, scale_model, Scale, ScaleConfig, ScaleModel,
};

verus! {

/// One sensor reading: temperature and relative humidity in thousandths of a
/// unit, and the reading's instant as milliseconds since the Unix epoch (UTC).
#[derive(Clone, Copy, PartialEq, Eq, Structural, Debug)]
pub struct Measurement {
    pub temperature_milli: i64,
    pub humidity_milli: i64,
    pub timestamp_ms: i64,
}

/// One plotted point: horizontal position in epoch milliseconds, vertical
/// value in thousandths of a unit, and a label slot for tooltips that this
/// core always leaves unset.
#[derive(Clone, PartialEq, Eq, Debug)]
pub struct SeriesPoint {
    pub timestamp_ms: i64,
    pub value_milli: i64,
    pub label: Option<String>,
}

/// Mathematical model of one plotted point.
pub ghost struct PointModel {
    pub timestamp_ms: int,
    pub value_milli: int,
    pub label: Option<Seq<char>>,
}

impl View for SeriesPoint {
    type V = PointModel;

    open spec fn view(&self) -> PointModel {
        PointModel {
            timestamp_ms: self.timestamp_ms as int,
            value_milli: self.value_milli as int,
            label: match self.label {
                Some(s) => Some(s@),
                None => None,
            },
        }
    }
}

/// The render state of the chart: one point list and one axis domain per
/// metric. A new batch replaces all four cells; nothing accumulates.
#[derive(Clone, PartialEq, Eq, Debug)]
pub struct ChartState {
    pub temperature_points: Vec<SeriesPoint>,
    pub humidity_points: Vec<SeriesPoint>,
    pub temperature_scale: Scale,
    pub humidity_scale: Scale,
}

/// Mathematical model of the render state.
#[verifier::ext_equal]
pub ghost struct ChartModel {
    pub temperature_points: Seq<PointModel>,
    pub humidity_points: Seq<PointModel>,
    pub temperature_scale: ScaleModel,
    pub humidity_scale: ScaleModel,
}

impl View for ChartState {
    type V = ChartModel;

    open spec fn view(&self) -> ChartModel {
        ChartModel {
            temperature_points: self.temperature_points@.map(|i: int, p: SeriesPoint| p@),
            humidity_points: self.humidity_points@.map(|i: int, p: SeriesPoint| p@),
            temperature_scale: self.temperature_scale@,
            humidity_scale: self.humidity_scale@,
        }
    }
}

/// The fixed temperature axis configuration: default domain 8 to 34 degrees,
/// tick step 2 degrees, in thousandths.
pub open spec fn spec_temperature_config() -> ScaleConfig {
    ScaleConfig { default_min: 8_000, default_max: 34_000, step: 2_000 }
}

/// The fixed humidity axis configuration: default domain 0 to 100 percent,
/// tick step 20 percent, in thousandths.
pub open spec fn spec_humidity_config() -> ScaleConfig {
    ScaleConfig { default_min: 0, default_max: 100_000, step: 20_000 }
}

/// The fixed temperature axis configuration (see [`spec_temperature_config`]).
pub fn temperature_config() -> (c: ScaleConfig)
    ensures
        c == spec_temperature_config(),
{
    ScaleConfig { default_min: 8_000, default_max: 34_000, step: 2_000 }
}

/// The fixed humidity axis configuration (see [`spec_humidity_config`]).
pub fn humidity_config() -> (c: ScaleConfig)
    ensures
        c == spec_humidity_config(),
{
    ScaleConfig { default_min: 0, default_max: 100_000, step: 20_000 }
}

/// The temperature samples of a batch, in batch order.
pub open spec fn temperature_values(ms: Seq<Measurement>) -> Seq<i64> {
    ms.map(|i: int, m: Measurement| m.temperature_milli)
}

/// The humidity samples of a batch, in batch order.
pub open spec fn humidity_values(ms: Seq<Measurement>) -> Seq<i64> {
    ms.map(|i: int, m: Measurement| m.humidity_milli)
}

/// The temperature point a record projects to: its instant and its
/// temperature, with the label slot unset.
pub open spec fn temperature_point_model(m: Measurement) -> PointModel {
    PointModel {
        timestamp_ms: m.timestamp_ms as int,
        value_milli: m.temperature_milli as int,
        label: None,
    }
}

/// The humidity point a record projects to: its instant and its humidity,
/// with the label slot unset.
pub open spec fn humidity_point_model(m: Measurement) -> PointModel {
    PointModel {
        timestamp_ms: m.timestamp_ms as int,
        value_milli: m.humidity_milli as int,
        label: None,
    }
}

/// A batch whose samples leave room for one step of axis padding per metric.
pub open spec fn batch_in_range(ms: Seq<Measurement>) -> bool {
    forall|i: int|
        0 <= i < ms.len() ==> sample_in_range(ms[i].temperature_milli, spec_temperature_config().step)
            && sample_in_range(ms[i].humidity_milli, spec_humidity_config().step)
}

/// The render state a measurement batch binds to: per metric, one point per
/// record in batch order, and the axis domain of that metric's samples alone.
pub open spec fn bound_model(ms: Seq<Measurement>, tcfg: ScaleConfig, hcfg: ScaleConfig) -> ChartModel {
    ChartModel {
        temperature_points: ms.map(|i: int, m: Measurement| temperature_point_model(m)),
        humidity_points: ms.map(|i: int, m: Measurement| humidity_point_model(m)),
        temperature_scale: scale_model(temperature_values(ms), tcfg),
        humidity_scale: scale_model(humidity_values(ms), hcfg),
    }
}

/// The temperature samples of a batch, extracted in batch order.
fn temperature_samples(measurements: &Vec<Measurement>) -> (r: Vec<i64>)
    ensures
        r@ == temperature_values(measurements@),
{
    let mut r: Vec<i64> = Vec::new();
    let mut idx: usize = 0;
    while idx < measurements.len()
        invariant
            0 <= idx <= measurements@.len(),
            r@ == temperature_values(measurements@.take(idx as int)),
        decreases measurements@.len() - idx,
    {
        r.push(measurements[idx].temperature_milli);
        proof {
            assert(temperature_values(measurements@.take(idx as int + 1)) =~= temperature_values(
                measurements@.take(idx as int),
            ).push(measurements@[idx as int].temperature_milli));
        }
        idx = idx + 1;
    }
    proof {
        assert(measurements@.take(measurements@.len() as int) =~= measurements@);
    }
    r
}

/// The humidity samples of a batch, extracted in batch order.
fn humidity_samples(measurements: &Vec<Measurement>) -> (r: Vec<i64>)
    ensures
        r@ == humidity_values(measurements@),
{
    let mut r: Vec<i64> = Vec::new();
    let mut idx: usize = 0;
    while idx < measurements.len()
        invariant
            0 <= idx <= measurements@.len(),
            r@ == humidity_values(measurements@.take(idx as int)),
        decreases measurements@.len() - idx,
    {
        r.push(measurements[idx].humidity_milli);
        proof {
            assert(humidity_values(measurements@.take(idx as int + 1)) =~= humidity_values(
                measurements@.take(idx as int),
            ).push(measurements@[idx as int].humidity_milli));
        }
        idx = idx + 1;
    }
    proof {
        assert(measurements@.take(measurements@.len() as int) =~= measurements@);
    }
    r
}

/// Project a batch onto the temperature series: one point per record, in
/// batch order, labels unset.
pub fn temperature_points(measurements: &Vec<Measurement>) -> (r: Vec<SeriesPoint>)
    ensures
        r@.map(|i: int, p: SeriesPoint| p@) == measurements@.map(
            |i: int, m: Measurement| temperature_point_model(m),
        ),
{
    let mut r: Vec<SeriesPoint> = Vec::new();
    let mut idx: usize = 0;
    while idx < measurements.len()
        invariant
            0 <= idx <= measurements@.len(),
            r@.len() == idx,
            forall|i: int| 0 <= i < idx ==> r@[i]@ == temperature_point_model(measurements@[i]),
        decreases measurements@.len() - idx,
    {
        let m = measurements[idx];
        r.push(SeriesPoint { timestamp_ms: m.timestamp_ms, value_milli: m.temperature_milli, label: None });
        idx = idx + 1;
    }
    proof {
        assert(r@.map(|i: int, p: SeriesPoint| p@) =~= measurements@.map(
            |i: int, m: Measurement| temperature_point_model(m),
        ));
    }
    r
}

/// Project a batch onto the humidity series: one point per record, in batch
/// order, labels unset.
pub fn humidity_points(measurements: &Vec<Measurement>) -> (r: Vec<SeriesPoint>)
    ensures
        r@.map(|i: int, p: SeriesPoint| p@) == measurements@.map(
            |i: int, m: Measurement| humidity_point_model(m),
        ),
{
    let mut r: Vec<SeriesPoint> = Vec::new();
    let mut idx: usize = 0;
    while idx < measurements.len()
        invariant
            0 <= idx <= measurements@.len(),
            r@.len() == idx,
            forall|i: int| 0 <= i < idx ==> r@[i]@ == humidity_point_model(measurements@[i]),
        decreases measurements@.len() - idx,
    {
        let m = measurements[idx];
        r.push(SeriesPoint { timestamp_ms: m.timestamp_ms, value_milli: m.humidity_milli, label: None });
        idx = idx + 1;
    }
    proof {
        assert(r@.map(|i: int, p: SeriesPoint| p@) =~= measurements@.map(
            |i: int, m: Measurement| humidity_point_model(m),
        ));
    }
    r
}

/// Bind a freshly fetched measurement batch: recompute both point lists and
/// both axis domains from this batch alone and replace the prior render state.
pub fn update_data(state: &mut ChartState, measurements: &Vec<Measurement>)
    requires
        batch_in_range(measurements@),
    ensures
        final(state)@ == bound_model(
            measurements@,
            spec_temperature_config(),
            spec_humidity_config(),
        ),
{
    let tcfg = temperature_config();
    let hcfg = humidity_config();
    let t_samples = temperature_samples(measurements);
    let h_samples = humidity_samples(measurements);
    state.temperature_points = temperature_points(measurements);
    state.humidity_points = humidity_points(measurements);
    state.temperature_scale = compute_scale(&t_samples, &tcfg);
    state.humidity_scale = compute_scale(&h_samples, &hcfg);
    proof {
        assert(state@ =~= bound_model(
            measurements@,
            spec_temperature_config(),
            spec_humidity_config(),
        ));
    }
}

/// The render state before any fetch has completed: empty series over the
/// default axis domains.
pub fn initial_chart_state() -> (s: ChartState)
    ensures
        s@ == bound_model(
            Seq::<Measurement>::empty(),
            spec_temperature_config(),
            spec_humidity_config(),
        ),
{
    let empty: Vec<Measurement> = Vec::new();
    let mut s = ChartState {
        temperature_points: Vec::new(),
        humidity_points: Vec::new(),
        temperature_scale: Scale { min: 0, max: 0, step: 1 },
        humidity_scale: Scale { min: 0, max: 0, step: 1 },
    };
    update_data(&mut s, &empty);
    proof {
        assert(empty@ =~= Seq::<Measurement>::empty());
    }
    s
}

/// Each metric's point list has exactly one entry per input record, and the
/// entry at each position is the projection of the record at that position:
/// binding preserves batch length and order for both metrics.
pub proof fn lemma_binding_preserves_length_and_order(
    ms: Seq<Measurement>,
    tcfg: ScaleConfig,
    hcfg: ScaleConfig,
)
    ensures
        bound_model(ms, tcfg, hcfg).temperature_points.len() == ms.len(),
        bound_model(ms, tcfg, hcfg).humidity_points.len() == ms.len(),
        forall|i: int|
            0 <= i < ms.len() ==> bound_model(ms, tcfg, hcfg).temperature_points[i]
                == temperature_point_model(ms[i]),
        forall|i: int|
            0 <= i < ms.len() ==> bound_model(ms, tcfg, hcfg).humidity_points[i]
                == humidity_point_model(ms[i]),
{
}

/// The two axis domains are computed independently: two batches that agree on
/// their temperature samples get the same temperature domain however their
/// humidity samples differ, and symmetrically for humidity.
pub proof fn lemma_scales_independent(
    a: Seq<Measurement>,
    b: Seq<Measurement>,
    tcfg: ScaleConfig,
    hcfg: ScaleConfig,
)
    ensures
        temperature_values(a) == temperature_values(b) ==> bound_model(a, tcfg, hcfg)
            .temperature_scale == bound_model(b, tcfg, hcfg).temperature_scale,
        humidity_values(a) == humidity_values(b) ==> bound_model(a, tcfg, hcfg).humidity_scale
            == bound_model(b, tcfg, hcfg).humidity_scale,
{
}

/// Binding is idempotent: the render state a batch binds to is a function of
/// the batch and the axis configurations alone, so binding the same batch
/// twice yields identical point lists and identical domains.
pub proof fn lemma_binding_idempotent(
    ms: Seq<Measurement>,
    tcfg: ScaleConfig,
    hcfg: ScaleConfig,
    s1: ChartModel,
    s2: ChartModel,
)
    requires
        s1 == bound_model(ms, tcfg, hcfg),
        s2 == bound_model(ms, tcfg, hcfg),
    ensures
        s1 == s2,
{
}

} // verus!
