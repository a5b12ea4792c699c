//! Film-grain parameter types of `libavutil/film_grain_params.h`.

use vstd::prelude::*;
use vstd::std_specs::convert::FromSpecImpl;

verus! {

/// The active codec member of film-grain parameters, held as its integer
/// value so that types a newer libavutil defines remain representable.
#[derive(Clone, Copy, Debug, PartialEq, Eq, Hash, PartialOrd, Ord)]
pub struct AVFilmGrainParamsType(pub u32);

impl AVFilmGrainParamsType {
    /// No film grain parameters.
    #[allow(non_snake_case)]
    pub fn NONE() -> (result: AVFilmGrainParamsType)
        ensures
            result.0 == 0,
    {
        AVFilmGrainParamsType(0)
    }

    /// AV1 film grain parameters.
    #[allow(non_snake_case)]
    pub fn AV1() -> (result: AVFilmGrainParamsType)
        ensures
            result.0 == 1,
    {
        AVFilmGrainParamsType(1)
    }

    /// H.274 film grain parameters.
    #[allow(non_snake_case)]
    pub fn H274() -> (result: AVFilmGrainParamsType)
        ensures
            result.0 == 2,
    {
        AVFilmGrainParamsType(2)
    }

    /// Wraps a raw value, including one unknown to this crate version.
    pub fn from_raw(value: u32) -> (result: AVFilmGrainParamsType)
        ensures
            result.0 == value,
    {
        AVFilmGrainParamsType(value)
    }

    /// Returns the raw value libavutil uses.
    pub fn as_raw(self) -> (result: u32)
        ensures
            result == self.0,
    {
        self.0
    }

}

impl Default for AVFilmGrainParamsType {
    fn default() -> (result: AVFilmGrainParamsType)
        ensures
            result.0 == 0,
    {
        AVFilmGrainParamsType(0)
    }
}

impl From<u32> for AVFilmGrainParamsType {
    fn from(value: u32) -> (result: AVFilmGrainParamsType) {
        AVFilmGrainParamsType::from_raw(value)
    }
}

impl FromSpecImpl<u32> for AVFilmGrainParamsType {
    open spec fn obeys_from_spec() -> bool {
        true
    }

    open spec fn from_spec(value: u32) -> AVFilmGrainParamsType {
        AVFilmGrainParamsType(value)
    }
}

impl From<AVFilmGrainParamsType> for u32 {
    fn from(value: AVFilmGrainParamsType) -> (result: u32) {
        value.as_raw()
    }
}

impl FromSpecImpl<AVFilmGrainParamsType> for u32 {
    open spec fn obeys_from_spec() -> bool {
        true
    }

    open spec fn from_spec(value: AVFilmGrainParamsType) -> u32 {
        value.0
    }
}

/// The position of entry `[component][interval]` in a row-major
/// `[3][256]` table.
pub open spec fn interval_position(component: int, interval: int) -> int {
    component * 256 + interval
}

/// The position of entry `[component][interval][value]` in a row-major
/// `[3][256][6]` table.
pub open spec fn model_value_position(component: int, interval: int, value: int) -> int {
    interval_position(component, interval) * 6 + value
}

/// Whether a component index is inside the table.
pub open spec fn valid_component(component: int) -> bool {
    0 <= component < 3
}

/// Whether a component and interval index are inside the table.
pub open spec fn valid_interval(component: int, interval: int) -> bool {
    valid_component(component) && 0 <= interval < 256
}

/// Whether a component, interval and model-value index are inside the table.
pub open spec fn valid_model_value(component: int, interval: int, value: int) -> bool {
    valid_interval(component, interval) && 0 <= value < 6
}

/// The position of `[component][interval]` in the flattened interval tables.
fn interval_index(component: usize, interval: usize) -> (result: usize)
    requires
        valid_interval(component as int, interval as int),
    ensures
        result == interval_position(component as int, interval as int),
        result < 768,
{
    component * 256 + interval
}

/// The position of `[component][interval][value]` in the flattened
/// model-value table.
fn model_value_index(component: usize, interval: usize, value: usize) -> (result: usize)
    requires
        valid_model_value(component as int, interval as int, value as int),
    ensures
        result == model_value_position(component as int, interval as int, value as int),
        result < 4608,
{
    interval_index(component, interval) * 6 + value
}

/// Distinct in-range interval indices address distinct table entries, and
/// every one lies inside the `3 * 256` entries of the table.
pub proof fn lemma_interval_position_injective(c1: int, i1: int, c2: int, i2: int)
    requires
        valid_interval(c1, i1),
        valid_interval(c2, i2),
    ensures
        0 <= interval_position(c1, i1) < 768,
        interval_position(c1, i1) == interval_position(c2, i2) ==> c1 == c2 && i1 == i2,
{
}

/// Distinct in-range model-value indices address distinct table entries,
/// and every one lies inside the `3 * 256 * 6` entries of the table.
pub proof fn lemma_model_value_position_injective(
    c1: int,
    i1: int,
    v1: int,
    c2: int,
    i2: int,
    v2: int,
)
    requires
        valid_model_value(c1, i1, v1),
        valid_model_value(c2, i2, v2),
    ensures
        0 <= model_value_position(c1, i1, v1) < 4608,
        model_value_position(c1, i1, v1) == model_value_position(c2, i2, v2) ==> c1 == c2 && i1
            == i2 && v1 == v2,
{
}

/// H.274 film-grain parameters, held as plain values with the array bounds
/// of libavutil's `AVFilmGrainH274Params`.
pub struct AVFilmGrainH274Params {
    model_id: i32,
    blending_mode_id: i32,
    log2_scale_factor: i32,
    component_model_present: Vec<i32>,
    num_intensity_intervals: Vec<u16>,
    num_model_values: Vec<u8>,
    intensity_interval_lower_bound: Vec<u8>,
    intensity_interval_upper_bound: Vec<u8>,
    comp_model_value: Vec<i16>,
}

/// A zero-filled table of `n` entries.
fn zeros_u8(n: usize) -> (result: Vec<u8>)
    ensures
        result@ == Seq::new(n as nat, |i: int| 0u8),
{
    let mut table: Vec<u8> = Vec::new();
    while table.len() < n
        invariant
            table@.len() <= n,
            forall|i: int| 0 <= i < table@.len() ==> table@[i] == 0u8,
        decreases n - table@.len(),
    {
        table.push(0u8);
    }
    assert(table@ =~= Seq::new(n as nat, |i: int| 0u8));
    table
}

impl AVFilmGrainH274Params {
    /// The number of color components H.274 film grain describes.
    pub const COMPONENTS: usize = 3;
    /// The number of intensity intervals per component.
    pub const MAX_INTENSITY_INTERVALS: usize = 256;
    /// The number of model values per intensity interval.
    pub const MAX_MODEL_VALUES: usize = 6;

    /// Every table has the length of its C array.
    pub closed spec fn well_formed(&self) -> bool {
        &&& self.component_model_present@.len() == 3
        &&& self.num_intensity_intervals@.len() == 3
        &&& self.num_model_values@.len() == 3
        &&& self.intensity_interval_lower_bound@.len() == 768
        &&& self.intensity_interval_upper_bound@.len() == 768
        &&& self.comp_model_value@.len() == 4608
    }

    /// `model_id`.
    pub closed spec fn spec_model_id(&self) -> i32 {
        self.model_id
    }

    /// `blending_mode_id`.
    pub closed spec fn spec_blending_mode_id(&self) -> i32 {
        self.blending_mode_id
    }

    /// `log2_scale_factor`.
    pub closed spec fn spec_log2_scale_factor(&self) -> i32 {
        self.log2_scale_factor
    }

    /// `component_model_present`, one entry per component.
    pub closed spec fn spec_component_model_present(&self) -> Seq<i32> {
        self.component_model_present@
    }

    /// `num_intensity_intervals`, one entry per component.
    pub closed spec fn spec_num_intensity_intervals(&self) -> Seq<u16> {
        self.num_intensity_intervals@
    }

    /// `num_model_values`, one entry per component.
    pub closed spec fn spec_num_model_values(&self) -> Seq<u8> {
        self.num_model_values@
    }

    /// `intensity_interval_lower_bound`, flattened row-major.
    pub closed spec fn spec_lower_bounds(&self) -> Seq<u8> {
        self.intensity_interval_lower_bound@
    }

    /// `intensity_interval_upper_bound`, flattened row-major.
    pub closed spec fn spec_upper_bounds(&self) -> Seq<u8> {
        self.intensity_interval_upper_bound@
    }

    /// `comp_model_value`, flattened row-major.
    pub closed spec fn spec_comp_model_values(&self) -> Seq<i16> {
        self.comp_model_value@
    }

    /// Parameters with every field zero.
    pub fn zeroed() -> (result: AVFilmGrainH274Params)
        ensures
            result.well_formed(),
            result.spec_model_id() == 0,
            result.spec_blending_mode_id() == 0,
            result.spec_log2_scale_factor() == 0,
            forall|c: int| 0 <= c < 3 ==> result.spec_component_model_present()[c] == 0,
            forall|c: int| 0 <= c < 3 ==> result.spec_num_intensity_intervals()[c] == 0,
            forall|c: int| 0 <= c < 3 ==> result.spec_num_model_values()[c] == 0,
            forall|k: int| 0 <= k < 768 ==> result.spec_lower_bounds()[k] == 0,
            forall|k: int| 0 <= k < 768 ==> result.spec_upper_bounds()[k] == 0,
            forall|k: int| 0 <= k < 4608 ==> result.spec_comp_model_values()[k] == 0,
    {
        let mut present: Vec<i32> = Vec::new();
        present.push(0);
        present.push(0);
        present.push(0);
        let mut intervals: Vec<u16> = Vec::new();
        intervals.push(0);
        intervals.push(0);
        intervals.push(0);
        let mut values: Vec<u8> = Vec::new();
        values.push(0);
        values.push(0);
        values.push(0);
        let mut model: Vec<i16> = Vec::new();
        while model.len() < 4608
            invariant
                model@.len() <= 4608,
                forall|k: int| 0 <= k < model@.len() ==> model@[k] == 0i16,
            decreases 4608 - model@.len(),
        {
            model.push(0i16);
        }
        AVFilmGrainH274Params {
            model_id: 0,
            blending_mode_id: 0,
            log2_scale_factor: 0,
            component_model_present: present,
            num_intensity_intervals: intervals,
            num_model_values: values,
            intensity_interval_lower_bound: zeros_u8(768),
            intensity_interval_upper_bound: zeros_u8(768),
            comp_model_value: model,
        }
    }

    /// Field: AVFilmGrainH274Params.model_id
    pub fn model_id(&self) -> (result: i32)
        ensures
            result == self.spec_model_id(),
    {
        self.model_id
    }

    /// Sets `model_id`, which is 0 or 1.
    pub fn set_model_id(&mut self, value: i32)
        requires
            0 <= value <= 1,
        ensures
            final(self).spec_model_id() == value,
            final(self).spec_blending_mode_id() == old(self).spec_blending_mode_id(),
            final(self).spec_log2_scale_factor() == old(self).spec_log2_scale_factor(),
            final(self).same_tables(*old(self)),
    {
        self.model_id = value;
    }

    /// Field: AVFilmGrainH274Params.blending_mode_id
    pub fn blending_mode_id(&self) -> (result: i32)
        ensures
            result == self.spec_blending_mode_id(),
    {
        self.blending_mode_id
    }

    /// Sets `blending_mode_id`, which is 0 or 1.
    pub fn set_blending_mode_id(&mut self, value: i32)
        requires
            0 <= value <= 1,
        ensures
            final(self).spec_blending_mode_id() == value,
            final(self).spec_model_id() == old(self).spec_model_id(),
            final(self).spec_log2_scale_factor() == old(self).spec_log2_scale_factor(),
            final(self).same_tables(*old(self)),
    {
        self.blending_mode_id = value;
    }

    /// Field: AVFilmGrainH274Params.log2_scale_factor
    pub fn log2_scale_factor(&self) -> (result: i32)
        ensures
            result == self.spec_log2_scale_factor(),
    {
        self.log2_scale_factor
    }

    /// Sets `log2_scale_factor`.
    pub fn set_log2_scale_factor(&mut self, value: i32)
        ensures
            final(self).spec_log2_scale_factor() == value,
            final(self).spec_model_id() == old(self).spec_model_id(),
            final(self).spec_blending_mode_id() == old(self).spec_blending_mode_id(),
            final(self).same_tables(*old(self)),
    {
        self.log2_scale_factor = value;
    }

    /// Every table equals that of `other`.
    pub open spec fn same_tables(&self, other: AVFilmGrainH274Params) -> bool {
        &&& self.spec_component_model_present() == other.spec_component_model_present()
        &&& self.spec_num_intensity_intervals() == other.spec_num_intensity_intervals()
        &&& self.spec_num_model_values() == other.spec_num_model_values()
        &&& self.spec_lower_bounds() == other.spec_lower_bounds()
        &&& self.spec_upper_bounds() == other.spec_upper_bounds()
        &&& self.spec_comp_model_values() == other.spec_comp_model_values()
        &&& self.well_formed() == other.well_formed()
    }

    /// Every scalar field equals that of `other`.
    pub open spec fn same_scalars(&self, other: AVFilmGrainH274Params) -> bool {
        &&& self.spec_model_id() == other.spec_model_id()
        &&& self.spec_blending_mode_id() == other.spec_blending_mode_id()
        &&& self.spec_log2_scale_factor() == other.spec_log2_scale_factor()
    }

    /// Field: AVFilmGrainH274Params.component_model_present
    pub fn component_model_present(&self, component: usize) -> (result: i32)
        requires
            self.well_formed(),
            valid_component(component as int),
        ensures
            result == self.spec_component_model_present()[component as int],
    {
        self.component_model_present[component]
    }

    /// Sets one entry of `component_model_present`, which is 0 or 1.
    pub fn set_component_model_present(&mut self, component: usize, value: i32)
        requires
            old(self).well_formed(),
            valid_component(component as int),
            0 <= value <= 1,
        ensures
            final(self).well_formed(),
            final(self).spec_component_model_present() == old(self).spec_component_model_present().update(component as int, value),
            final(self).spec_num_intensity_intervals() == old(self).spec_num_intensity_intervals(),
            final(self).spec_num_model_values() == old(self).spec_num_model_values(),
            final(self).spec_lower_bounds() == old(self).spec_lower_bounds(),
            final(self).spec_upper_bounds() == old(self).spec_upper_bounds(),
            final(self).spec_comp_model_values() == old(self).spec_comp_model_values(),
            final(self).same_scalars(*old(self)),
    {
        self.component_model_present.set(component, value);
    }

    /// Field: AVFilmGrainH274Params.num_intensity_intervals
    pub fn num_intensity_intervals(&self, component: usize) -> (result: u16)
        requires
            self.well_formed(),
            valid_component(component as int),
        ensures
            result == self.spec_num_intensity_intervals()[component as int],
    {
        self.num_intensity_intervals[component]
    }

    /// Sets one entry of `num_intensity_intervals`, at most 256.
    pub fn set_num_intensity_intervals(&mut self, component: usize, value: u16)
        requires
            old(self).well_formed(),
            valid_component(component as int),
            value <= 256,
        ensures
            final(self).well_formed(),
            final(self).spec_num_intensity_intervals() == old(self).spec_num_intensity_intervals().update(component as int, value),
            final(self).spec_component_model_present() == old(self).spec_component_model_present(),
            final(self).spec_num_model_values() == old(self).spec_num_model_values(),
            final(self).spec_lower_bounds() == old(self).spec_lower_bounds(),
            final(self).spec_upper_bounds() == old(self).spec_upper_bounds(),
            final(self).spec_comp_model_values() == old(self).spec_comp_model_values(),
            final(self).same_scalars(*old(self)),
    {
        self.num_intensity_intervals.set(component, value);
    }

    /// Field: AVFilmGrainH274Params.num_model_values
    pub fn num_model_values(&self, component: usize) -> (result: u8)
        requires
            self.well_formed(),
            valid_component(component as int),
        ensures
            result == self.spec_num_model_values()[component as int],
    {
        self.num_model_values[component]
    }

    /// Sets one entry of `num_model_values`, at most 6.
    pub fn set_num_model_values(&mut self, component: usize, value: u8)
        requires
            old(self).well_formed(),
            valid_component(component as int),
            value <= 6,
        ensures
            final(self).well_formed(),
            final(self).spec_num_model_values() == old(self).spec_num_model_values().update(
                component as int,
                value,
            ),
            final(self).spec_component_model_present() == old(self).spec_component_model_present(),
            final(self).spec_num_intensity_intervals() == old(self).spec_num_intensity_intervals(),
            final(self).spec_lower_bounds() == old(self).spec_lower_bounds(),
            final(self).spec_upper_bounds() == old(self).spec_upper_bounds(),
            final(self).spec_comp_model_values() == old(self).spec_comp_model_values(),
            final(self).same_scalars(*old(self)),
    {
        self.num_model_values.set(component, value);
    }

    /// Field: AVFilmGrainH274Params.intensity_interval_lower_bound
    pub fn intensity_interval_lower_bound(&self, component: usize, interval: usize) -> (result: u8)
        requires
            self.well_formed(),
            valid_interval(component as int, interval as int),
        ensures
            result == self.spec_lower_bounds()[interval_position(
                component as int,
                interval as int,
            )],
    {
        self.intensity_interval_lower_bound[interval_index(component, interval)]
    }

    /// Sets one entry of `intensity_interval_lower_bound`.
    pub fn set_intensity_interval_lower_bound(
        &mut self,
        component: usize,
        interval: usize,
        value: u8,
    )
        requires
            old(self).well_formed(),
            valid_interval(component as int, interval as int),
        ensures
            final(self).well_formed(),
            final(self).spec_lower_bounds() == old(self).spec_lower_bounds().update(
                interval_position(component as int, interval as int),
                value,
            ),
            final(self).spec_upper_bounds() == old(self).spec_upper_bounds(),
            final(self).spec_comp_model_values() == old(self).spec_comp_model_values(),
            final(self).spec_component_model_present() == old(self).spec_component_model_present(),
            final(self).spec_num_intensity_intervals() == old(self).spec_num_intensity_intervals(),
            final(self).spec_num_model_values() == old(self).spec_num_model_values(),
            final(self).same_scalars(*old(self)),
    {
        let index = interval_index(component, interval);
        self.intensity_interval_lower_bound.set(index, value);
    }

    /// Field: AVFilmGrainH274Params.intensity_interval_upper_bound
    pub fn intensity_interval_upper_bound(&self, component: usize, interval: usize) -> (result: u8)
        requires
            self.well_formed(),
            valid_interval(component as int, interval as int),
        ensures
            result == self.spec_upper_bounds()[interval_position(
                component as int,
                interval as int,
            )],
    {
        self.intensity_interval_upper_bound[interval_index(component, interval)]
    }

    /// Sets one entry of `intensity_interval_upper_bound`.
    pub fn set_intensity_interval_upper_bound(
        &mut self,
        component: usize,
        interval: usize,
        value: u8,
    )
        requires
            old(self).well_formed(),
            valid_interval(component as int, interval as int),
        ensures
            final(self).well_formed(),
            final(self).spec_upper_bounds() == old(self).spec_upper_bounds().update(
                interval_position(component as int, interval as int),
                value,
            ),
            final(self).spec_lower_bounds() == old(self).spec_lower_bounds(),
            final(self).spec_comp_model_values() == old(self).spec_comp_model_values(),
            final(self).spec_component_model_present() == old(self).spec_component_model_present(),
            final(self).spec_num_intensity_intervals() == old(self).spec_num_intensity_intervals(),
            final(self).spec_num_model_values() == old(self).spec_num_model_values(),
            final(self).same_scalars(*old(self)),
    {
        let index = interval_index(component, interval);
        self.intensity_interval_upper_bound.set(index, value);
    }

    /// Field: AVFilmGrainH274Params.comp_model_value
    ///
    /// The entry `[component][interval][value]`.
    pub fn comp_model_value(&self, component: usize, interval: usize, value: usize) -> (result: i16)
        requires
            self.well_formed(),
            valid_model_value(component as int, interval as int, value as int),
        ensures
            result == self.spec_comp_model_values()[model_value_position(
                component as int,
                interval as int,
                value as int,
            )],
    {
        self.comp_model_value[model_value_index(component, interval, value)]
    }

    /// Sets the entry `[component][interval][value]` of `comp_model_value`.
    pub fn set_comp_model_value(
        &mut self,
        component: usize,
        interval: usize,
        value: usize,
        model_value: i16,
    )
        requires
            old(self).well_formed(),
            valid_model_value(component as int, interval as int, value as int),
        ensures
            final(self).well_formed(),
            final(self).spec_comp_model_values() == old(self).spec_comp_model_values().update(
                model_value_position(component as int, interval as int, value as int),
                model_value,
            ),
            final(self).spec_lower_bounds() == old(self).spec_lower_bounds(),
            final(self).spec_upper_bounds() == old(self).spec_upper_bounds(),
            final(self).spec_component_model_present() == old(self).spec_component_model_present(),
            final(self).spec_num_intensity_intervals() == old(self).spec_num_intensity_intervals(),
            final(self).spec_num_model_values() == old(self).spec_num_model_values(),
            final(self).same_scalars(*old(self)),
    {
        let index = model_value_index(component, interval, value);
        self.comp_model_value.set(index, model_value);
    }
}

/// Writing a model value and reading the same entry back gives the written
/// value; every other entry reads as before.
pub proof fn lemma_comp_model_value_read_after_write(
    before: AVFilmGrainH274Params,
    after: AVFilmGrainH274Params,
    written: (int, int, int),
    read: (int, int, int),
    model_value: i16,
)
    requires
        before.well_formed(),
        valid_model_value(written.0, written.1, written.2),
        valid_model_value(read.0, read.1, read.2),
        after.spec_comp_model_values() == before.spec_comp_model_values().update(
            model_value_position(written.0, written.1, written.2),
            model_value,
        ),
    ensures
        after.spec_comp_model_values()[model_value_position(read.0, read.1, read.2)] == if read
            == written {
            model_value
        } else {
            before.spec_comp_model_values()[model_value_position(read.0, read.1, read.2)]
        },
{
    lemma_model_value_position_injective(written.0, written.1, written.2, read.0, read.1, read.2);
    lemma_model_value_position_injective(read.0, read.1, read.2, read.0, read.1, read.2);
}

} // verus!
