//! Biome archetypes and the classification of a cell.
//!
//! An archetype is a box in the space of altitude, rainfall and temperature.
//! A cell scores against an archetype by how close it lies to the middle of
//! that box along each of the three axes; outside the box it scores nothing.
//! The scores of a cell, scaled to weights that add up to one, are its biome
//! presences.

use crate::altitude::{MAX_ALTITUDE, MIN_ALTITUDE};
use crate::fixed::{lemma_div_bounds, lemma_mul_nonneg_bounds, ONE};
use crate::rainfall::{MAX_RAINFALL, MIN_RAINFALL};
use crate::temperature::{MAX_TEMPERATURE, MIN_TEMPERATURE};
use vstd::prelude::*;

verus! {

/// The temperature below which ice caps form and above which the sea is open.
pub const ICE_LINE: i64 = -15_000_000;

/// The temperature from which the temperate and hot biomes occur.
pub const MILD_LINE: i64 = -5_000_000;

/// The temperature from which tundra occurs.
pub const TUNDRA_LINE: i64 = -20_000_000;

/// The kinds of biome, in the order in which a cell lists them.
#[derive(Debug, Copy, Clone, PartialEq, Eq, Hash, Structural)]
pub enum BiomeType {
    IceCap,
    Ocean,
    Grassland,
    Forest,
    Taiga,
    Tundra,
    Desert,
    Rainforest,
}

/// An archetype: its name and the closed ranges of altitude, rainfall and
/// temperature in which the biome occurs.
#[derive(Debug, Clone, Copy)]
pub struct BiomeStats {
    pub name: &'static str,
    pub min_altitude: i64,
    pub max_altitude: i64,
    pub min_rainfall: i64,
    pub max_rainfall: i64,
    pub min_temperature: i64,
    pub max_temperature: i64,
}

/// An archetype as mathematical values: its name and its three ranges.
pub struct BiomeRanges {
    pub name: Seq<char>,
    pub min_altitude: int,
    pub max_altitude: int,
    pub min_rainfall: int,
    pub max_rainfall: int,
    pub min_temperature: int,
    pub max_temperature: int,
}

impl BiomeRanges {
    /// Every range has a lower end below its upper end.
    pub open spec fn wf(self) -> bool {
        &&& self.min_altitude < self.max_altitude
        &&& self.min_rainfall < self.max_rainfall
        &&& self.min_temperature < self.max_temperature
    }

    /// Whether the three values lie in the three ranges, ends included.
    pub open spec fn contains(self, altitude: int, rainfall: int, temperature: int) -> bool {
        &&& self.min_altitude <= altitude <= self.max_altitude
        &&& self.min_rainfall <= rainfall <= self.max_rainfall
        &&& self.min_temperature <= temperature <= self.max_temperature
    }
}

impl View for BiomeStats {
    type V = BiomeRanges;

    open spec fn view(&self) -> BiomeRanges {
        BiomeRanges {
            name: self.name@,
            min_altitude: self.min_altitude as int,
            max_altitude: self.max_altitude as int,
            min_rainfall: self.min_rainfall as int,
            max_rainfall: self.max_rainfall as int,
            min_temperature: self.min_temperature as int,
            max_temperature: self.max_temperature as int,
        }
    }
}

impl BiomeType {
    /// The number of kinds.
    pub const ITEM_COUNT: usize = 8;

    /// The kind at a position of the listing order.
    pub open spec fn at(index: int) -> BiomeType {
        if index == 0 {
            BiomeType::IceCap
        } else if index == 1 {
            BiomeType::Ocean
        } else if index == 2 {
            BiomeType::Grassland
        } else if index == 3 {
            BiomeType::Forest
        } else if index == 4 {
            BiomeType::Taiga
        } else if index == 5 {
            BiomeType::Tundra
        } else if index == 6 {
            BiomeType::Desert
        } else {
            BiomeType::Rainforest
        }
    }

    /// The position of the kind in the listing order.
    pub open spec fn index(self) -> int {
        match self {
            BiomeType::IceCap => 0,
            BiomeType::Ocean => 1,
            BiomeType::Grassland => 2,
            BiomeType::Forest => 3,
            BiomeType::Taiga => 4,
            BiomeType::Tundra => 5,
            BiomeType::Desert => 6,
            BiomeType::Rainforest => 7,
        }
    }

    /// The kind's archetype.
    pub open spec fn stats(self) -> BiomeStats {
        match self {
            BiomeType::IceCap => BiomeStats {
                name: "Ice Cap",
                min_altitude: MIN_ALTITUDE,
                max_altitude: MAX_ALTITUDE,
                min_rainfall: MIN_RAINFALL,
                max_rainfall: MAX_RAINFALL,
                min_temperature: MIN_TEMPERATURE,
                max_temperature: ICE_LINE,
            },
            BiomeType::Ocean => BiomeStats {
                name: "Ocean",
                min_altitude: MIN_ALTITUDE,
                max_altitude: 0,
                min_rainfall: MIN_RAINFALL,
                max_rainfall: MAX_RAINFALL,
                min_temperature: ICE_LINE,
                max_temperature: MAX_TEMPERATURE,
            },
            BiomeType::Grassland => BiomeStats {
                name: "Grassland",
                min_altitude: 0,
                max_altitude: MAX_ALTITUDE,
                min_rainfall: 25_000_000,
                max_rainfall: 1_475_000_000,
                min_temperature: MILD_LINE,
                max_temperature: MAX_TEMPERATURE,
            },
            BiomeType::Forest => BiomeStats {
                name: "Forest",
                min_altitude: 0,
                max_altitude: MAX_ALTITUDE,
                min_rainfall: 975_000_000,
                max_rainfall: 2_475_000_000,
                min_temperature: MILD_LINE,
                max_temperature: MAX_TEMPERATURE,
            },
            BiomeType::Taiga => BiomeStats {
                name: "Taiga",
                min_altitude: 0,
                max_altitude: MAX_ALTITUDE,
                min_rainfall: 475_000_000,
                max_rainfall: MAX_RAINFALL,
                min_temperature: ICE_LINE,
                max_temperature: 0,
            },
            BiomeType::Tundra => BiomeStats {
                name: "Tundra",
                min_altitude: 0,
                max_altitude: MAX_ALTITUDE,
                min_rainfall: MIN_RAINFALL,
                max_rainfall: 725_000_000,
                min_temperature: TUNDRA_LINE,
                max_temperature: 0,
            },
            BiomeType::Desert => BiomeStats {
                name: "Desert",
                min_altitude: 0,
                max_altitude: MAX_ALTITUDE,
                min_rainfall: MIN_RAINFALL,
                max_rainfall: 125_000_000,
                min_temperature: MILD_LINE,
                max_temperature: MAX_TEMPERATURE,
            },
            BiomeType::Rainforest => BiomeStats {
                name: "Rainforest",
                min_altitude: 0,
                max_altitude: MAX_ALTITUDE,
                min_rainfall: 1_975_000_000,
                max_rainfall: MAX_RAINFALL,
                min_temperature: MILD_LINE,
                max_temperature: MAX_TEMPERATURE,
            },
        }
    }

    /// The ranges of the kind's archetype.
    pub open spec fn ranges(self) -> BiomeRanges {
        self.stats()@
    }

    /// The kind at a position of the listing order.
    pub fn from_index(index: usize) -> (kind: BiomeType)
        requires
            index < BiomeType::ITEM_COUNT,
        ensures
            kind == BiomeType::at(index as int),
            kind.index() == index,
    {
        if index == 0 {
            BiomeType::IceCap
        } else if index == 1 {
            BiomeType::Ocean
        } else if index == 2 {
            BiomeType::Grassland
        } else if index == 3 {
            BiomeType::Forest
        } else if index == 4 {
            BiomeType::Taiga
        } else if index == 5 {
            BiomeType::Tundra
        } else if index == 6 {
            BiomeType::Desert
        } else {
            BiomeType::Rainforest
        }
    }
    /// The kinds, in the listing order.
    pub fn items() -> (kinds: Vec<BiomeType>)
        ensures
            kinds@.len() == BiomeType::ITEM_COUNT,
            forall|i: int| 0 <= i < kinds@.len() ==> kinds@[i] == BiomeType::at(i),
    {
        let mut kinds: Vec<BiomeType> = Vec::new();
        let mut index: usize = 0;
        while index < BiomeType::ITEM_COUNT
            invariant
                index <= BiomeType::ITEM_COUNT,
                kinds@.len() == index,
                forall|i: int| 0 <= i < kinds@.len() ==> kinds@[i] == BiomeType::at(i),
            decreases BiomeType::ITEM_COUNT - index,
        {
            kinds.push(BiomeType::from_index(index));
            index = index + 1;
        }
        kinds
    }

    /// The kind's name as an identifier.
    pub open spec fn identifier(self) -> &'static str {
        match self {
            BiomeType::IceCap => "IceCap",
            BiomeType::Ocean => "Ocean",
            BiomeType::Grassland => "Grassland",
            BiomeType::Forest => "Forest",
            BiomeType::Taiga => "Taiga",
            BiomeType::Tundra => "Tundra",
            BiomeType::Desert => "Desert",
            BiomeType::Rainforest => "Rainforest",
        }
    }
}

impl From<BiomeType> for &'static str {
    /// The kind's name as an identifier.
    fn from(value: BiomeType) -> (name: &'static str) {
        match value {
            BiomeType::IceCap => "IceCap",
            BiomeType::Ocean => "Ocean",
            BiomeType::Grassland => "Grassland",
            BiomeType::Forest => "Forest",
            BiomeType::Taiga => "Taiga",
            BiomeType::Tundra => "Tundra",
            BiomeType::Desert => "Desert",
            BiomeType::Rainforest => "Rainforest",
        }
    }
}

impl vstd::std_specs::convert::FromSpecImpl<BiomeType> for &'static str {
    open spec fn obeys_from_spec() -> bool {
        true
    }

    open spec fn from_spec(value: BiomeType) -> &'static str {
        value.identifier()
    }
}

impl From<BiomeType> for BiomeStats {
    /// The archetype of a kind of biome.
    fn from(biome_type: BiomeType) -> (stats: BiomeStats) {
        match biome_type {
            BiomeType::IceCap => BiomeStats {
                name: "Ice Cap",
                min_altitude: MIN_ALTITUDE,
                max_altitude: MAX_ALTITUDE,
                min_rainfall: MIN_RAINFALL,
                max_rainfall: MAX_RAINFALL,
                min_temperature: MIN_TEMPERATURE,
                max_temperature: ICE_LINE,
            },
            BiomeType::Ocean => BiomeStats {
                name: "Ocean",
                min_altitude: MIN_ALTITUDE,
                max_altitude: 0,
                min_rainfall: MIN_RAINFALL,
                max_rainfall: MAX_RAINFALL,
                min_temperature: ICE_LINE,
                max_temperature: MAX_TEMPERATURE,
            },
            BiomeType::Grassland => BiomeStats {
                name: "Grassland",
                min_altitude: 0,
                max_altitude: MAX_ALTITUDE,
                min_rainfall: 25_000_000,
                max_rainfall: 1_475_000_000,
                min_temperature: MILD_LINE,
                max_temperature: MAX_TEMPERATURE,
            },
            BiomeType::Forest => BiomeStats {
                name: "Forest",
                min_altitude: 0,
                max_altitude: MAX_ALTITUDE,
                min_rainfall: 975_000_000,
                max_rainfall: 2_475_000_000,
                min_temperature: MILD_LINE,
                max_temperature: MAX_TEMPERATURE,
            },
            BiomeType::Taiga => BiomeStats {
                name: "Taiga",
                min_altitude: 0,
                max_altitude: MAX_ALTITUDE,
                min_rainfall: 475_000_000,
                max_rainfall: MAX_RAINFALL,
                min_temperature: ICE_LINE,
                max_temperature: 0,
            },
            BiomeType::Tundra => BiomeStats {
                name: "Tundra",
                min_altitude: 0,
                max_altitude: MAX_ALTITUDE,
                min_rainfall: MIN_RAINFALL,
                max_rainfall: 725_000_000,
                min_temperature: TUNDRA_LINE,
                max_temperature: 0,
            },
            BiomeType::Desert => BiomeStats {
                name: "Desert",
                min_altitude: 0,
                max_altitude: MAX_ALTITUDE,
                min_rainfall: MIN_RAINFALL,
                max_rainfall: 125_000_000,
                min_temperature: MILD_LINE,
                max_temperature: MAX_TEMPERATURE,
            },
            BiomeType::Rainforest => BiomeStats {
                name: "Rainforest",
                min_altitude: 0,
                max_altitude: MAX_ALTITUDE,
                min_rainfall: 1_975_000_000,
                max_rainfall: MAX_RAINFALL,
                min_temperature: MILD_LINE,
                max_temperature: MAX_TEMPERATURE,
            },
        }
    }
}

impl vstd::std_specs::convert::FromSpecImpl<BiomeType> for BiomeStats {
    open spec fn obeys_from_spec() -> bool {
        true
    }

    open spec fn from_spec(biome_type: BiomeType) -> BiomeStats {
        biome_type.stats()
    }
}

/// How well `value` fits the range from `low` to `high`: its position in the
/// range, as a fraction, where that is at most one half, else what is left of
/// one. Zero at both ends, one half in the middle.
pub open spec fn membership_spec(value: int, low: int, high: int) -> int {
    let position = ((value - low) * ONE) / (high - low);
    if 2 * position > ONE {
        ONE - position
    } else {
        position
    }
}

/// The score of a cell against an archetype: nothing where any of the three
/// values lies outside its range, else the sum of the three memberships.
pub open spec fn presence_spec(
    altitude: int,
    rainfall: int,
    temperature: int,
    ranges: BiomeRanges,
) -> int {
    if ranges.contains(altitude, rainfall, temperature) {
        membership_spec(altitude, ranges.min_altitude, ranges.max_altitude) + membership_spec(
            rainfall,
            ranges.min_rainfall,
            ranges.max_rainfall,
        ) + membership_spec(temperature, ranges.min_temperature, ranges.max_temperature)
    } else {
        0
    }
}

/// A membership lies between zero and one half.
pub proof fn lemma_membership_bounds(value: int, low: int, high: int)
    requires
        low <= value <= high,
        low < high,
    ensures
        0 <= membership_spec(value, low, high) <= ONE / 2,
        0 <= ((value - low) * ONE) / (high - low) <= ONE,
{
    let span = high - low;
    lemma_mul_nonneg_bounds(value - low, ONE as int, span, ONE as int);
    assert(span * ONE == ONE * span) by (nonlinear_arith);
    lemma_div_bounds((value - low) * ONE, span, 0, ONE as int);
}

/// A score lies between zero and one and a half.
pub proof fn lemma_presence_bounds(
    altitude: int,
    rainfall: int,
    temperature: int,
    ranges: BiomeRanges,
)
    requires
        ranges.wf(),
    ensures
        0 <= presence_spec(altitude, rainfall, temperature, ranges) <= 1_500_000,
{
    if ranges.contains(altitude, rainfall, temperature) {
        lemma_membership_bounds(altitude, ranges.min_altitude, ranges.max_altitude);
        lemma_membership_bounds(rainfall, ranges.min_rainfall, ranges.max_rainfall);
        lemma_membership_bounds(temperature, ranges.min_temperature, ranges.max_temperature);
    }
}

/// Computes how well `value` fits the range from `low` to `high`.
pub fn membership(value: i64, low: i64, high: i64) -> (r: i64)
    requires
        low <= value <= high,
        low < high,
    ensures
        r == membership_spec(value as int, low as int, high as int),
        0 <= r <= ONE / 2,
{
    proof {
        lemma_membership_bounds(value as int, low as int, high as int);
        lemma_mul_nonneg_bounds(
            value - low,
            ONE as int,
            0xFFFF_FFFF_FFFF_FFFF,
            ONE as int,
        );
    }
    let offset: i128 = value as i128 - low as i128;
    let span: i128 = high as i128 - low as i128;
    let position: i64 = ((offset * (ONE as i128)) / span) as i64;
    if 2 * position > ONE {
        ONE - position
    } else {
        position
    }
}

impl BiomeStats {
    /// Every range has a lower end below its upper end.
    pub open spec fn wf(&self) -> bool {
        self@.wf()
    }

    /// Whether the three values lie in the archetype's ranges, ends included.
    pub fn contains(&self, altitude: i64, rainfall: i64, temperature: i64) -> (r: bool)
        ensures
            r == self@.contains(altitude as int, rainfall as int, temperature as int),
    {
        self.min_altitude <= altitude && altitude <= self.max_altitude && self.min_rainfall
            <= rainfall && rainfall <= self.max_rainfall && self.min_temperature <= temperature
            && temperature <= self.max_temperature
    }
}

/// The kinds among the first `count` of the listing order against which the
/// cell scores above zero, each with its score, in that order.
pub open spec fn scores_spec(altitude: int, rainfall: int, temperature: int, count: nat) -> Seq<
    (BiomeType, int),
>
    decreases count,
{
    if count == 0 {
        Seq::empty()
    } else {
        let earlier = scores_spec(altitude, rainfall, temperature, (count - 1) as nat);
        let kind = BiomeType::at(count - 1);
        let score = presence_spec(altitude, rainfall, temperature, kind.ranges());
        if score > 0 {
            earlier.push((kind, score))
        } else {
            earlier
        }
    }
}

/// The sum of the numbers of a list of entries.
pub open spec fn total_spec(entries: Seq<(BiomeType, int)>) -> int
    decreases entries.len(),
{
    if entries.len() == 0 {
        0
    } else {
        total_spec(entries.drop_last()) + entries.last().1
    }
}

/// The share of `score` in `total`, as a fraction rounded up.
pub open spec fn share_spec(score: int, total: int) -> int {
    (score * ONE + total - 1) / total
}

/// The entries with every score replaced by its share in `total`.
pub open spec fn scaled_spec(entries: Seq<(BiomeType, int)>, total: int) -> Seq<(BiomeType, int)> {
    Seq::new(entries.len(), |i: int| (entries[i].0, share_spec(entries[i].1, total)))
}

/// The biome presences of a cell with the given altitude, rainfall and
/// temperature: the kinds against which it scores, each with the share of its
/// score in the sum of the scores. Empty where the cell scores against none.
pub open spec fn presences_spec(altitude: int, rainfall: int, temperature: int) -> Seq<
    (BiomeType, int),
> {
    let scores = scores_spec(altitude, rainfall, temperature, BiomeType::ITEM_COUNT as nat);
    scaled_spec(scores, total_spec(scores))
}

/// Every archetype of the table has a lower end below its upper end in each
/// range.
pub proof fn lemma_table_wf(kind: BiomeType)
    ensures
        kind.ranges().wf(),
        kind.stats().wf(),
{
}

/// What holds of the scored kinds: each is one of the first `count`, scores
/// above zero and at most one and a half, has the cell within its ranges, and
/// comes after the kinds listed before it.
pub proof fn lemma_scores_properties(altitude: int, rainfall: int, temperature: int, count: nat)
    requires
        count <= BiomeType::ITEM_COUNT,
    ensures
        scores_spec(altitude, rainfall, temperature, count).len() <= count,
        forall|i: int|
            0 <= i < scores_spec(altitude, rainfall, temperature, count).len() ==> {
                let entry = #[trigger] scores_spec(altitude, rainfall, temperature, count)[i];
                &&& 0 < entry.1 <= 1_500_000
                &&& entry.1 == presence_spec(altitude, rainfall, temperature, entry.0.ranges())
                &&& entry.0.ranges().contains(altitude, rainfall, temperature)
                &&& entry.0.index() < count
            },
        forall|i: int, j: int|
            0 <= i < j < scores_spec(altitude, rainfall, temperature, count).len() ==> (
            #[trigger] scores_spec(altitude, rainfall, temperature, count)[i]).0.index() < (
            #[trigger] scores_spec(altitude, rainfall, temperature, count)[j]).0.index(),
    decreases count,
{
    if count > 0 {
        lemma_scores_properties(altitude, rainfall, temperature, (count - 1) as nat);
        let kind = BiomeType::at(count - 1);
        lemma_table_wf(kind);
        lemma_presence_bounds(altitude, rainfall, temperature, kind.ranges());
    }
}

/// The sum of a list with one more entry is the sum of the list and the
/// number of that entry.
pub proof fn lemma_total_push(entries: Seq<(BiomeType, int)>, entry: (BiomeType, int))
    ensures
        total_spec(entries.push(entry)) == total_spec(entries) + entry.1,
{
    assert(entries.push(entry).drop_last() =~= entries);
}

/// A share, times the total, is at least the score times one and exceeds it by
/// less than the total.
pub proof fn lemma_share_bounds(score: int, total: int)
    requires
        0 < score <= total,
    ensures
        score * ONE <= share_spec(score, total) * total <= score * ONE + total - 1,
        0 < share_spec(score, total) <= ONE,
{
    let n = score * ONE + total - 1;
    let q = n / total;
    assert(n == total * q + n % total && 0 <= n % total < total) by {
        vstd::arithmetic::div_mod::lemma_fundamental_div_mod(n, total);
    }
    assert(q * total == total * q) by (nonlinear_arith);
    assert(score * ONE >= 1) by (nonlinear_arith)
        requires
            score >= 1,
    ;
    if q <= 0 {
        assert(q * total <= 0) by (nonlinear_arith)
            requires
                q <= 0,
                total > 0,
        ;
    }
    assert(score * ONE <= total * ONE) by (nonlinear_arith)
        requires
            score <= total,
    ;
    if q > ONE {
        assert(q * total >= (ONE + 1) * total) by (nonlinear_arith)
            requires
                q >= ONE + 1,
                total > 0,
        ;
        assert((ONE + 1) * total == total * ONE + total) by (nonlinear_arith);
    }
}

/// The shares of a list of scores in a total, times that total, amount to at
/// least the sum of the scores times one, and exceed it by less than the
/// total for each entry.
pub proof fn lemma_scaled_total(entries: Seq<(BiomeType, int)>, total: int)
    requires
        forall|i: int| 0 <= i < entries.len() ==> 0 < (#[trigger] entries[i]).1 <= total,
    ensures
        total_spec(entries) * ONE <= total_spec(scaled_spec(entries, total)) * total,
        total_spec(scaled_spec(entries, total)) * total <= total_spec(entries) * ONE + entries.len()
            * (total - 1),
    decreases entries.len(),
{
    if entries.len() > 0 {
        let head = entries.drop_last();
        let last = entries.last();
        lemma_scaled_total(head, total);
        assert(scaled_spec(entries, total).drop_last() =~= scaled_spec(head, total));
        lemma_share_bounds(last.1, total);
        let sh = total_spec(scaled_spec(head, total));
        let w = share_spec(last.1, total);
        let th = total_spec(head);
        assert((sh + w) * total == sh * total + w * total) by (nonlinear_arith);
        assert((th + last.1) * ONE == th * ONE + last.1 * ONE) by (nonlinear_arith);
        assert(entries.len() * (total - 1) == head.len() * (total - 1) + (total - 1))
            by (nonlinear_arith)
            requires
                entries.len() == head.len() + 1,
        ;
    } else {
        assert(scaled_spec(entries, total) =~= Seq::<(BiomeType, int)>::empty());
        assert(total_spec(entries) * ONE == 0) by (nonlinear_arith)
            requires
                total_spec(entries) == 0,
        ;
        assert(total_spec(scaled_spec(entries, total)) * total == 0) by (nonlinear_arith)
            requires
                total_spec(scaled_spec(entries, total)) == 0,
        ;
        assert(entries.len() * (total - 1) == 0) by (nonlinear_arith)
            requires
                entries.len() == 0,
        ;
    }
}

/// A sum of scores above zero is not negative, and above zero unless the list
/// is empty.
pub proof fn lemma_total_positive(entries: Seq<(BiomeType, int)>)
    requires
        forall|i: int| 0 <= i < entries.len() ==> 0 < (#[trigger] entries[i]).1,
    ensures
        total_spec(entries) >= 0,
        entries.len() > 0 ==> total_spec(entries) > 0,
    decreases entries.len(),
{
    if entries.len() > 0 {
        let head = entries.drop_last();
        assert forall|i: int| 0 <= i < head.len() implies 0 < (#[trigger] head[i]).1 by {
            assert(head[i] == entries[i]);
        }
        lemma_total_positive(head);
        assert(0 < entries[entries.len() - 1].1);
    }
}

/// Every entry of a list of scores above zero is at most their sum.
pub proof fn lemma_entry_at_most_total(entries: Seq<(BiomeType, int)>, index: int)
    requires
        forall|i: int| 0 <= i < entries.len() ==> 0 < (#[trigger] entries[i]).1,
        0 <= index < entries.len(),
    ensures
        entries[index].1 <= total_spec(entries),
    decreases entries.len(),
{
    let head = entries.drop_last();
    assert forall|i: int| 0 <= i < head.len() implies 0 < (#[trigger] head[i]).1 by {
        assert(head[i] == entries[i]);
    }
    lemma_total_positive(head);
    assert(0 < entries[entries.len() - 1].1);
    if index < entries.len() - 1 {
        lemma_entry_at_most_total(head, index);
        assert(head[index] == entries[index]);
    }
}

/// The biome presences of any cell are normalised: every weight is above zero
/// and at most one, every listed kind has the cell within its ranges, no kind
/// is listed twice, and the weights of a list that is not empty add up to at
/// least one and to less than one plus a millionth for each entry.
pub proof fn lemma_presences_normalized(altitude: int, rainfall: int, temperature: int)
    ensures
        presences_spec(altitude, rainfall, temperature).len() <= BiomeType::ITEM_COUNT,
        forall|i: int|
            0 <= i < presences_spec(altitude, rainfall, temperature).len() ==> {
                let entry = #[trigger] presences_spec(altitude, rainfall, temperature)[i];
                &&& 0 < entry.1 <= ONE
                &&& entry.0.ranges().contains(altitude, rainfall, temperature)
            },
        forall|i: int, j: int|
            0 <= i < j < presences_spec(altitude, rainfall, temperature).len() ==> (
            #[trigger] presences_spec(altitude, rainfall, temperature)[i]).0 != (
            #[trigger] presences_spec(altitude, rainfall, temperature)[j]).0,
        presences_spec(altitude, rainfall, temperature).len() > 0 ==> ONE <= total_spec(
            presences_spec(altitude, rainfall, temperature),
        ) < ONE + presences_spec(altitude, rainfall, temperature).len(),
{
    let count = BiomeType::ITEM_COUNT as nat;
    let scores = scores_spec(altitude, rainfall, temperature, count);
    let total = total_spec(scores);
    let weights = presences_spec(altitude, rainfall, temperature);
    lemma_scores_properties(altitude, rainfall, temperature, count);
    assert forall|i: int| 0 <= i < weights.len() implies {
        let entry = #[trigger] weights[i];
        &&& 0 < entry.1 <= ONE
        &&& entry.0.ranges().contains(altitude, rainfall, temperature)
    } by {
        assert(scores[i].1 > 0);
        lemma_entry_at_most_total(scores, i);
        lemma_share_bounds(scores[i].1, total);
    }
    assert forall|i: int, j: int| 0 <= i < j < weights.len() implies (#[trigger] weights[i]).0 != (
    #[trigger] weights[j]).0 by {
        assert(scores[i].0.index() < scores[j].0.index());
    }
    if weights.len() > 0 {
        lemma_total_positive(scores);
        assert forall|i: int| 0 <= i < scores.len() implies 0 < (#[trigger] scores[i]).1
            <= total by {
            lemma_entry_at_most_total(scores, i);
        }
        lemma_scaled_total(scores, total);
        let sum = total_spec(weights);
        let n = scores.len() as int;
        assert(sum >= ONE) by (nonlinear_arith)
            requires
                total * ONE <= sum * total,
                total > 0,
        ;
        assert(sum < ONE + n) by (nonlinear_arith)
            requires
                sum * total <= total * ONE + n * (total - 1),
                total > 0,
                n > 0,
        ;
    }
}

/// A cell's list of biomes as the mathematical list of kinds and weights.
pub open spec fn entries_view(entries: Seq<(BiomeType, i64)>) -> Seq<(BiomeType, int)> {
    Seq::new(entries.len(), |i: int| (entries[i].0, entries[i].1 as int))
}

/// Computes the score of a cell with the given altitude, rainfall and
/// temperature against an archetype.
pub fn presence(altitude: i64, rainfall: i64, temperature: i64, biome: &BiomeStats) -> (score: i64)
    requires
        biome.wf(),
    ensures
        score == presence_spec(altitude as int, rainfall as int, temperature as int, biome@),
        0 <= score <= 1_500_000,
{
    proof {
        lemma_presence_bounds(altitude as int, rainfall as int, temperature as int, biome@);
    }
    if !biome.contains(altitude, rainfall, temperature) {
        return 0;
    }
    let by_altitude: i64 = membership(altitude, biome.min_altitude, biome.max_altitude);
    let by_rainfall: i64 = membership(rainfall, biome.min_rainfall, biome.max_rainfall);
    let by_temperature: i64 = membership(
        temperature,
        biome.min_temperature,
        biome.max_temperature,
    );
    by_altitude + by_rainfall + by_temperature
}

/// Computes the biome presences of a cell with the given altitude, rainfall
/// and temperature: every kind of the table against which the cell scores, in
/// the table's order, with its share of the scores' sum as weight.
pub fn classify(altitude: i64, rainfall: i64, temperature: i64) -> (presences: Vec<
    (BiomeType, i64),
>)
    ensures
        entries_view(presences@) == presences_spec(
            altitude as int,
            rainfall as int,
            temperature as int,
        ),
{
    let mut scores: Vec<(BiomeType, i64)> = Vec::new();
    let mut total: i64 = 0;
    let mut index: usize = 0;
    while index < BiomeType::ITEM_COUNT
        invariant
            index <= BiomeType::ITEM_COUNT,
            entries_view(scores@) =~= scores_spec(
                altitude as int,
                rainfall as int,
                temperature as int,
                index as nat,
            ),
            total == total_spec(entries_view(scores@)),
            0 <= total <= 1_500_000 * index,
        decreases BiomeType::ITEM_COUNT - index,
    {
        let kind = BiomeType::from_index(index);
        let stats = BiomeStats::from(kind);
        proof {
            lemma_table_wf(kind);
        }
        let score: i64 = presence(altitude, rainfall, temperature, &stats);
        let ghost before = entries_view(scores@);
        if score > 0 {
            scores.push((kind, score));
            total = total + score;
            proof {
                assert(entries_view(scores@) =~= before.push((kind, score as int)));
                lemma_total_push(before, (kind, score as int));
            }
        }
        index = index + 1;
    }
    let ghost listed = entries_view(scores@);
    proof {
        lemma_scores_properties(
            altitude as int,
            rainfall as int,
            temperature as int,
            BiomeType::ITEM_COUNT as nat,
        );
    }
    let mut presences: Vec<(BiomeType, i64)> = Vec::new();
    let mut done: usize = 0;
    while done < scores.len()
        invariant
            done <= scores.len(),
            presences@.len() == done,
            listed == entries_view(scores@),
            total == total_spec(listed),
            0 <= total <= 12_000_000,
            forall|i: int| 0 <= i < listed.len() ==> 0 < (#[trigger] listed[i]).1 <= 1_500_000,
            forall|i: int|
                0 <= i < done ==> (#[trigger] presences@[i]) == (
                    scores@[i].0,
                    share_spec(scores@[i].1 as int, total as int) as i64,
                ),
            forall|i: int|
                0 <= i < done ==> 0 < share_spec((#[trigger] scores@[i]).1 as int, total as int)
                    <= ONE,
        decreases scores.len() - done,
    {
        let (kind, score) = scores[done];
        proof {
            assert(listed[done as int] == (kind, score as int));
            lemma_entry_at_most_total(listed, done as int);
            lemma_share_bounds(score as int, total as int);
            lemma_mul_nonneg_bounds(score as int, ONE as int, 1_500_000, ONE as int);
        }
        let weight: i64 = (score * ONE + total - 1) / total;
        presences.push((kind, weight));
        done = done + 1;
    }
    assert(entries_view(presences@) =~= scaled_spec(listed, total as int));
    presences
}

} // verus!
