//! The point table of one session: the configured data points, at most one
//! for each pair of kind and index.

use vstd::prelude::*;
use crate::binary64::{exceeds_half, value_exceeds_half};
use crate::models::{
    DataPoint, DataPointType, DataPointView, DataQuality, DeviceConfiguration, PointConfig, VALUE_ONE,
    VALUE_ZERO,
};

verus! {

/// Whether some point of the table is addressed by `(point_type, index)`.
pub open spec fn has_point(points: Seq<DataPointView>, point_type: DataPointType, index: u16) -> bool {
    exists|i: int| 0 <= i < points.len() && (#[trigger] points[i]).has_key(point_type, index)
}

/// No two points of the table share kind and index.
pub open spec fn unique_keys(points: Seq<DataPointView>) -> bool {
    forall|i: int, j: int|
        0 <= i < j < points.len() ==> !(#[trigger] points[i]).has_key(
            (#[trigger] points[j]).point_type,
            points[j].index,
        )
}

/// Position of the first point addressed by `(point_type, index)`; the length
/// of the table if there is none.
pub open spec fn position_of(points: Seq<DataPointView>, point_type: DataPointType, index: u16) -> int
    decreases points.len(),
{
    if points.len() == 0 {
        0
    } else if points[0].has_key(point_type, index) {
        0
    } else {
        1 + position_of(points.drop_first(), point_type, index)
    }
}

/// The table after the point at `position` took a new value and quality at
/// time `now`; unchanged if `position` is none of its positions.
pub open spec fn with_update(
    points: Seq<DataPointView>,
    position: int,
    value: u64,
    quality: DataQuality,
    now: i64,
) -> Seq<DataPointView> {
    if 0 <= position < points.len() {
        points.update(position, points[position].updated(value, quality, now))
    } else {
        points
    }
}

/// The table after a reconnect cleared every point.
pub open spec fn all_cleared(points: Seq<DataPointView>) -> Seq<DataPointView> {
    points.map_values(|p: DataPointView| p.cleared())
}

/// The point that a configuration entry of the given kind stands for.
pub open spec fn configured_point(
    point_type: DataPointType,
    entry: PointConfig,
    now: i64,
) -> DataPointView {
    DataPointView::fresh(point_type, entry.index, entry.name@, DataQuality::Offline, now)
}

/// The table after the entries of one configuration list were taken in, in
/// order: an entry whose kind and index the table already has is passed over.
pub open spec fn absorb(
    points: Seq<DataPointView>,
    point_type: DataPointType,
    entries: Seq<PointConfig>,
    now: i64,
) -> Seq<DataPointView>
    decreases entries.len(),
{
    if entries.len() == 0 {
        points
    } else {
        let before = absorb(points, point_type, entries.drop_last(), now);
        let entry = entries.last();
        if has_point(before, point_type, entry.index) {
            before
        } else {
            before.push(configured_point(point_type, entry, now))
        }
    }
}

/// A configuration list that may be absent.
pub open spec fn listed(list: Option<Vec<PointConfig>>) -> Seq<PointConfig> {
    match list {
        Some(entries) => entries@,
        None => Seq::empty(),
    }
}

/// The table that a device configuration describes at time `now`: binary
/// inputs, binary outputs, analog inputs, analog outputs and counters, in this
/// order, every point offline with value zero.
pub open spec fn configured_table(config: DeviceConfiguration, now: i64) -> Seq<DataPointView> {
    let t0 = absorb(Seq::empty(), DataPointType::BinaryInput, listed(config.binary_inputs), now);
    let t1 = absorb(t0, DataPointType::BinaryOutput, listed(config.binary_outputs), now);
    let t2 = absorb(t1, DataPointType::AnalogInput, listed(config.analog_inputs), now);
    let t3 = absorb(t2, DataPointType::AnalogOutput, listed(config.analog_outputs), now);
    absorb(t3, DataPointType::Counter, listed(config.counters), now)
}

/// What the simulator asks to be drawn for a point of the given kind.
#[derive(Debug, Clone, Copy, PartialEq, Eq, Structural)]
pub enum SampleKind {
    /// A fresh analog level.
    Level,
    /// The counter's value plus a positive step.
    Increment,
    /// A number between zero and one, for a coin flip.
    Coin,
    /// Nothing: the point keeps its value.
    Hold,
}

/// The draw that the simulator needs for a point of the given kind.
pub open spec fn sample_kind_of(point_type: DataPointType) -> SampleKind {
    match point_type {
        DataPointType::AnalogInput => SampleKind::Level,
        DataPointType::Counter => SampleKind::Increment,
        DataPointType::BinaryInput => SampleKind::Coin,
        DataPointType::BinaryOutput => SampleKind::Hold,
        DataPointType::AnalogOutput => SampleKind::Hold,
    }
}

/// Computes [`sample_kind_of`].
pub fn sample_kind_for(point_type: DataPointType) -> (kind: SampleKind)
    ensures
        kind == sample_kind_of(point_type),
{
    match point_type {
        DataPointType::AnalogInput => SampleKind::Level,
        DataPointType::Counter => SampleKind::Increment,
        DataPointType::BinaryInput => SampleKind::Coin,
        DataPointType::BinaryOutput => SampleKind::Hold,
        DataPointType::AnalogOutput => SampleKind::Hold,
    }
}

/// The value of a point after one round of simulation with the draw `sample`.
/// Outputs keep their value whatever was drawn.
pub open spec fn simulated_value(point: DataPointView, sample: u64) -> u64 {
    match sample_kind_of(point.point_type) {
        SampleKind::Level => sample,
        SampleKind::Increment => sample,
        SampleKind::Coin => if exceeds_half(sample) {
            VALUE_ONE
        } else {
            VALUE_ZERO
        },
        SampleKind::Hold => point.value,
    }
}

/// A point after one round of simulation at time `now`: online, stamped, and
/// with the value that [`simulated_value`] gives.
pub open spec fn simulated_point(point: DataPointView, sample: u64, now: i64) -> DataPointView {
    point.updated(simulated_value(point, sample), DataQuality::Online, now)
}

/// The draw for the point at `position`: the one given, or the point's own
/// value where `samples` is too short.
pub open spec fn sample_for(points: Seq<DataPointView>, samples: Seq<u64>, position: int) -> u64 {
    if position < samples.len() {
        samples[position]
    } else {
        points[position].value
    }
}

/// The table after one round of simulation at time `now`.
pub open spec fn simulated_table(points: Seq<DataPointView>, samples: Seq<u64>, now: i64) -> Seq<
    DataPointView,
> {
    Seq::new(points.len(), |i: int| simulated_point(points[i], sample_for(points, samples, i), now))
}

/// One write to the engine's point database: the point's kind and index, its
/// value, whether that value counts as "on", and the time of the update. The
/// point is reported online.
#[derive(Debug, Clone, Copy, PartialEq, Eq, Structural)]
pub struct DatabaseUpdate {
    pub point_type: DataPointType,
    pub index: u16,
    pub value: u64,
    pub state: bool,
    pub timestamp: i64,
}

/// The database write that mirrors a point of the table.
pub open spec fn mirror_of(point: DataPointView) -> DatabaseUpdate {
    DatabaseUpdate {
        point_type: point.point_type,
        index: point.index,
        value: point.value,
        state: exceeds_half(point.value),
        timestamp: point.timestamp,
    }
}

/// One entry of the engine's point database: the point's kind and index.
#[derive(Debug, Clone, Copy, PartialEq, Eq, Structural)]
pub struct DatabasePoint {
    pub point_type: DataPointType,
    pub index: u16,
}

/// The database entry of a point of the table.
pub open spec fn database_point_of(point: DataPointView) -> DatabasePoint {
    DatabasePoint { point_type: point.point_type, index: point.index }
}

/// What [`position_of`] finds is the first point with the key.
pub proof fn lemma_position_of(points: Seq<DataPointView>, point_type: DataPointType, index: u16)
    ensures
        0 <= position_of(points, point_type, index) <= points.len(),
        position_of(points, point_type, index) < points.len() ==> points[position_of(
            points,
            point_type,
            index,
        )].has_key(point_type, index),
        forall|i: int|
            0 <= i < position_of(points, point_type, index) ==> !(#[trigger] points[i]).has_key(
                point_type,
                index,
            ),
        position_of(points, point_type, index) < points.len() <==> has_point(
            points,
            point_type,
            index,
        ),
    decreases points.len(),
{
    if points.len() > 0 && !points[0].has_key(point_type, index) {
        let rest = points.drop_first();
        lemma_position_of(rest, point_type, index);
        let p = position_of(rest, point_type, index);
        assert forall|i: int| 0 <= i < 1 + p implies !(#[trigger] points[i]).has_key(
            point_type,
            index,
        ) by {
            if i > 0 {
                assert(points[i] == rest[i - 1]);
            }
        }
        if p < rest.len() {
            assert(points[1 + p] == rest[p]);
        } else {
            assert forall|i: int| 0 <= i < points.len() implies !(#[trigger] points[i]).has_key(
                point_type,
                index,
            ) by {}
        }
    }
}

/// Taking in a configuration list keeps the keys of a table unique.
pub proof fn lemma_absorb_unique(
    points: Seq<DataPointView>,
    point_type: DataPointType,
    entries: Seq<PointConfig>,
    now: i64,
)
    requires
        unique_keys(points),
    ensures
        unique_keys(absorb(points, point_type, entries, now)),
    decreases entries.len(),
{
    if entries.len() > 0 {
        lemma_absorb_unique(points, point_type, entries.drop_last(), now);
    }
}

/// The table of a configuration has unique keys, whatever the configuration
/// repeats.
pub proof fn lemma_configured_table_unique(config: DeviceConfiguration, now: i64)
    ensures
        unique_keys(configured_table(config, now)),
{
    let t0 = absorb(Seq::empty(), DataPointType::BinaryInput, listed(config.binary_inputs), now);
    let t1 = absorb(t0, DataPointType::BinaryOutput, listed(config.binary_outputs), now);
    let t2 = absorb(t1, DataPointType::AnalogInput, listed(config.analog_inputs), now);
    let t3 = absorb(t2, DataPointType::AnalogOutput, listed(config.analog_outputs), now);
    lemma_absorb_unique(Seq::empty(), DataPointType::BinaryInput, listed(config.binary_inputs), now);
    lemma_absorb_unique(t0, DataPointType::BinaryOutput, listed(config.binary_outputs), now);
    lemma_absorb_unique(t1, DataPointType::AnalogInput, listed(config.analog_inputs), now);
    lemma_absorb_unique(t2, DataPointType::AnalogOutput, listed(config.analog_outputs), now);
    lemma_absorb_unique(t3, DataPointType::Counter, listed(config.counters), now);
}

/// One round of simulation leaves every binary and analog output at its
/// value, and every point at its place, kind, index and name.
pub proof fn lemma_simulation_keeps_outputs(points: Seq<DataPointView>, samples: Seq<u64>, now: i64)
    ensures
        simulated_table(points, samples, now).len() == points.len(),
        forall|i: int|
            0 <= i < points.len() ==> {
                let before = #[trigger] points[i];
                let after = simulated_table(points, samples, now)[i];
                &&& after.point_type == before.point_type
                &&& after.index == before.index
                &&& after.name == before.name
                &&& (before.point_type == DataPointType::BinaryOutput || before.point_type
                    == DataPointType::AnalogOutput) ==> after.value == before.value
            },
{
}

/// The table after the rounds of simulation given by `rounds`, each with its
/// draws and its time, first to last.
pub open spec fn simulated_rounds(points: Seq<DataPointView>, rounds: Seq<(Seq<u64>, i64)>) -> Seq<
    DataPointView,
>
    decreases rounds.len(),
{
    if rounds.len() == 0 {
        points
    } else {
        let round = rounds.last();
        simulated_table(simulated_rounds(points, rounds.drop_last()), round.0, round.1)
    }
}

/// However many rounds the simulator runs and whatever it draws, a binary or
/// analog output holds the value it had before the first round.
pub proof fn lemma_simulation_never_moves_outputs(
    points: Seq<DataPointView>,
    rounds: Seq<(Seq<u64>, i64)>,
)
    ensures
        simulated_rounds(points, rounds).len() == points.len(),
        forall|i: int|
            0 <= i < points.len() ==> {
                let before = #[trigger] points[i];
                let after = simulated_rounds(points, rounds)[i];
                &&& after.point_type == before.point_type
                &&& after.index == before.index
                &&& (before.point_type == DataPointType::BinaryOutput || before.point_type
                    == DataPointType::AnalogOutput) ==> after.value == before.value
            },
    decreases rounds.len(),
{
    if rounds.len() > 0 {
        let earlier = simulated_rounds(points, rounds.drop_last());
        lemma_simulation_never_moves_outputs(points, rounds.drop_last());
        lemma_simulation_keeps_outputs(earlier, rounds.last().0, rounds.last().1);
        assert forall|i: int| 0 <= i < points.len() implies {
            let before = #[trigger] points[i];
            let after = simulated_rounds(points, rounds)[i];
            &&& after.point_type == before.point_type
            &&& after.index == before.index
            &&& (before.point_type == DataPointType::BinaryOutput || before.point_type
                == DataPointType::AnalogOutput) ==> after.value == before.value
        } by {
            assert(earlier[i].point_type == points[i].point_type);
        }
    }
}

/// The configured points of one session.
#[derive(Debug)]
pub struct PointTable {
    points: Vec<DataPoint>,
}

impl View for PointTable {
    type V = Seq<DataPointView>;

    closed spec fn view(&self) -> Seq<DataPointView> {
        self.points.deep_view()
    }
}

impl PointTable {
    /// A table without points.
    pub fn new() -> (table: Self)
        ensures
            table@ == Seq::<DataPointView>::empty(),
    {
        let table = PointTable { points: Vec::new() };
        assert(table@ =~= Seq::<DataPointView>::empty());
        table
    }

    /// Number of points.
    pub fn len(&self) -> (n: usize)
        ensures
            n == self@.len(),
    {
        self.points.len()
    }

    /// The point at `position`.
    pub fn get(&self, position: usize) -> (point: &DataPoint)
        requires
            position < self@.len(),
        ensures
            point@ == self@[position as int],
    {
        &self.points[position]
    }

    /// Position of the first point addressed by `(point_type, index)`.
    pub fn find(&self, point_type: DataPointType, index: u16) -> (position: Option<usize>)
        ensures
            match position {
                Some(at) => at == position_of(self@, point_type, index) && at < self@.len(),
                None => position_of(self@, point_type, index) == self@.len(),
            },
            position is Some <==> has_point(self@, point_type, index),
    {
        let n = self.points.len();
        let mut i: usize = 0;
        while i < n
            invariant
                i <= n,
                n == self.points.len(),
                forall|k: int| 0 <= k < i ==> !(#[trigger] self@[k]).has_key(point_type, index),
            decreases n - i,
        {
            if self.points[i].point_type == point_type && self.points[i].index == index {
                proof {
                    assert(self@[i as int].has_key(point_type, index));
                    lemma_position_of(self@, point_type, index);
                }
                return Some(i);
            }
            i += 1;
        }
        proof {
            lemma_position_of(self@, point_type, index);
        }
        None
    }

    /// Adds a point that is online with value zero, unless the table already
    /// has one of the same kind and index; says whether it was added.
    pub fn add_at(&mut self, point_type: DataPointType, index: u16, name: String, now: i64) -> (added:
        bool)
        ensures
            added == !has_point(old(self)@, point_type, index),
            added ==> final(self)@ == old(self)@.push(
                DataPointView::fresh(point_type, index, name@, DataQuality::Online, now),
            ),
            !added ==> final(self)@ == old(self)@,
            unique_keys(old(self)@) ==> unique_keys(final(self)@),
    {
        if self.find(point_type, index).is_some() {
            return false;
        }
        let point = DataPoint::new_at(point_type, index, name, now);
        self.points.push(point);
        assert(self@ =~= old(self)@.push(
            DataPointView::fresh(point_type, index, name@, DataQuality::Online, now),
        ));
        true
    }

    /// Removes every point.
    pub fn clear(&mut self)
        ensures
            final(self)@ == Seq::<DataPointView>::empty(),
    {
        self.points.clear();
        assert(self@ =~= Seq::<DataPointView>::empty());
    }

    /// Takes in one list of a configuration.
    fn absorb_list(&mut self, point_type: DataPointType, list: &Option<Vec<PointConfig>>, now: i64)
        ensures
            final(self)@ == absorb(old(self)@, point_type, listed(*list), now),
    {
        match list {
            Some(entries) => {
                let n = entries.len();
                let mut i: usize = 0;
                assert(entries@.take(0) =~= Seq::<PointConfig>::empty());
                while i < n
                    invariant
                        i <= n,
                        n == entries.len(),
                        self@ == absorb(old(self)@, point_type, entries@.take(i as int), now),
                    decreases n - i,
                {
                    let entry = &entries[i];
                    proof {
                        assert(entries@.take(i + 1).drop_last() =~= entries@.take(i as int));
                        assert(entries@.take(i + 1).last() == entries@[i as int]);
                    }
                    if self.find(point_type, entry.index).is_none() {
                        let ghost before = self@;
                        self.points.push(
                            DataPoint {
                                point_type,
                                index: entry.index,
                                name: entry.name.clone(),
                                value: VALUE_ZERO,
                                quality: DataQuality::Offline,
                                timestamp: now,
                            },
                        );
                        assert(self@ =~= before.push(configured_point(point_type, *entry, now)));
                    }
                    i += 1;
                }
                assert(entries@.take(n as int) =~= entries@);
            },
            None => {},
        }
    }

    /// Replaces the table by the one that `config` describes at time `now`.
    pub fn load_at(&mut self, config: &DeviceConfiguration, now: i64)
        ensures
            final(self)@ == configured_table(*config, now),
            unique_keys(final(self)@),
    {
        self.clear();
        self.absorb_list(DataPointType::BinaryInput, &config.binary_inputs, now);
        self.absorb_list(DataPointType::BinaryOutput, &config.binary_outputs, now);
        self.absorb_list(DataPointType::AnalogInput, &config.analog_inputs, now);
        self.absorb_list(DataPointType::AnalogOutput, &config.analog_outputs, now);
        self.absorb_list(DataPointType::Counter, &config.counters, now);
        proof {
            lemma_configured_table_unique(*config, now);
        }
    }

    /// Gives the point at `position` a new value and quality at time `now`.
    pub fn update_at(&mut self, position: usize, value: u64, quality: DataQuality, now: i64)
        requires
            position < old(self)@.len(),
        ensures
            final(self)@ == with_update(old(self)@, position as int, value, quality, now),
            unique_keys(old(self)@) ==> unique_keys(final(self)@),
    {
        self.points[position].update_value_at(value, quality, now);
        assert(self@ =~= with_update(old(self)@, position as int, value, quality, now));
    }

    /// Clears every point for a reconnect: value zero, quality offline.
    pub fn reset_offline(&mut self)
        ensures
            final(self)@ == all_cleared(old(self)@),
            unique_keys(old(self)@) ==> unique_keys(final(self)@),
    {
        let n = self.points.len();
        let mut i: usize = 0;
        while i < n
            invariant
                i <= n,
                n == self.points.len(),
                self@.len() == old(self)@.len(),
                forall|k: int| 0 <= k < i ==> (#[trigger] self@[k]) == old(self)@[k].cleared(),
                forall|k: int| i <= k < n ==> (#[trigger] self@[k]) == old(self)@[k],
            decreases n - i,
        {
            let ghost before = self@;
            let point = &mut self.points[i];
            point.value = VALUE_ZERO;
            point.quality = DataQuality::Offline;
            assert(self@ =~= before.update(i as int, before[i as int].cleared()));
            i += 1;
        }
        assert(self@ =~= all_cleared(old(self)@));
    }

    /// Runs one round of simulation at time `now` and returns the database
    /// write for each point, in the order of the table.
    pub fn simulate_at(&mut self, samples: &Vec<u64>, now: i64) -> (updates: Vec<DatabaseUpdate>)
        ensures
            final(self)@ == simulated_table(old(self)@, samples@, now),
            updates@ == final(self)@.map_values(|p: DataPointView| mirror_of(p)),
            unique_keys(old(self)@) ==> unique_keys(final(self)@),
    {
        let mut updates: Vec<DatabaseUpdate> = Vec::new();
        let n = self.points.len();
        let mut i: usize = 0;
        while i < n
            invariant
                i <= n,
                n == self.points.len(),
                self@.len() == old(self)@.len(),
                updates@.len() == i,
                forall|k: int|
                    0 <= k < i ==> (#[trigger] self@[k]) == simulated_point(
                        old(self)@[k],
                        sample_for(old(self)@, samples@, k),
                        now,
                    ),
                forall|k: int| 0 <= k < i ==> (#[trigger] updates@[k]) == mirror_of(self@[k]),
                forall|k: int| i <= k < n ==> (#[trigger] self@[k]) == old(self)@[k],
            decreases n - i,
        {
            let ghost before = self@;
            let current = self.points[i].value;
            let sample = if i < samples.len() {
                samples[i]
            } else {
                current
            };
            let value = match self.points[i].point_type {
                DataPointType::AnalogInput => sample,
                DataPointType::Counter => sample,
                DataPointType::BinaryInput => if value_exceeds_half(sample) {
                    VALUE_ONE
                } else {
                    VALUE_ZERO
                },
                DataPointType::BinaryOutput => current,
                DataPointType::AnalogOutput => current,
            };
            self.points[i].update_value_at(value, DataQuality::Online, now);
            assert(self@ =~= before.update(
                i as int,
                simulated_point(before[i as int], sample_for(old(self)@, samples@, i as int), now),
            ));
            updates.push(
                DatabaseUpdate {
                    point_type: self.points[i].point_type,
                    index: self.points[i].index,
                    value,
                    state: value_exceeds_half(value),
                    timestamp: now,
                },
            );
            i += 1;
        }
        assert(self@ =~= simulated_table(old(self)@, samples@, now));
        assert(updates@ =~= self@.map_values(|p: DataPointView| mirror_of(p)));
        updates
    }

    /// The entries with which the engine's point database starts: one for each
    /// point, in the order of the table.
    pub fn database_points(&self) -> (entries: Vec<DatabasePoint>)
        ensures
            entries@ == self@.map_values(|p: DataPointView| database_point_of(p)),
    {
        let mut entries: Vec<DatabasePoint> = Vec::new();
        let n = self.points.len();
        let mut i: usize = 0;
        while i < n
            invariant
                i <= n,
                n == self.points.len(),
                entries@.len() == i,
                forall|k: int| 0 <= k < i ==> (#[trigger] entries@[k]) == database_point_of(self@[k]),
            decreases n - i,
        {
            entries.push(
                DatabasePoint { point_type: self.points[i].point_type, index: self.points[i].index },
            );
            i += 1;
        }
        assert(entries@ =~= self@.map_values(|p: DataPointView| database_point_of(p)));
        entries
    }

    /// A copy of every point, in the order of the table.
    pub fn snapshot(&self) -> (points: Vec<DataPoint>)
        ensures
            points.deep_view() == self@,
    {
        let mut points: Vec<DataPoint> = Vec::new();
        let n = self.points.len();
        let mut i: usize = 0;
        while i < n
            invariant
                i <= n,
                n == self.points.len(),
                points@.len() == i,
                forall|k: int| 0 <= k < i ==> (#[trigger] points@[k])@ == self@[k],
            decreases n - i,
        {
            points.push(self.points[i].clone());
            i += 1;
        }
        assert(points.deep_view() =~= self@);
        points
    }
}

} // verus!
