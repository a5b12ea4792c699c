//! IAMF values and the selection of parameter subblocks, layers and
//! submixes.

use vstd::prelude::*;
use vstd::std_specs::convert::FromSpecImpl;

verus! {

/// IAMF ambisonics mode; unknown values remain representable.
#[derive(Clone, Copy, Debug, PartialEq, Eq, Hash, PartialOrd, Ord)]
pub struct AVIAMFAmbisonicsMode(pub u32);

impl AVIAMFAmbisonicsMode {
    /// The channel mapping is defined by the associated channel layout.
    #[allow(non_snake_case)]
    pub fn MONO() -> (result: AVIAMFAmbisonicsMode)
        ensures
            result.0 == 0,
    {
        AVIAMFAmbisonicsMode(0)
    }

    /// The layer supplies a projection demixing matrix.
    #[allow(non_snake_case)]
    pub fn PROJECTION() -> (result: AVIAMFAmbisonicsMode)
        ensures
            result.0 == 1,
    {
        AVIAMFAmbisonicsMode(1)
    }

    /// Wraps a raw value, including one unknown to this crate version.
    pub fn from_raw(value: u32) -> (result: AVIAMFAmbisonicsMode)
        ensures
            result.0 == value,
    {
        AVIAMFAmbisonicsMode(value)
    }

    /// Returns the raw value libavutil uses.
    pub fn as_raw(self) -> (result: u32)
        ensures
            result == self.0,
    {
        self.0
    }

}

impl From<u32> for AVIAMFAmbisonicsMode {
    fn from(value: u32) -> (result: AVIAMFAmbisonicsMode) {
        AVIAMFAmbisonicsMode::from_raw(value)
    }
}

impl FromSpecImpl<u32> for AVIAMFAmbisonicsMode {
    open spec fn obeys_from_spec() -> bool {
        true
    }

    open spec fn from_spec(value: u32) -> AVIAMFAmbisonicsMode {
        AVIAMFAmbisonicsMode(value)
    }
}

impl From<AVIAMFAmbisonicsMode> for u32 {
    fn from(value: AVIAMFAmbisonicsMode) -> (result: u32) {
        value.as_raw()
    }
}

impl FromSpecImpl<AVIAMFAmbisonicsMode> for u32 {
    open spec fn obeys_from_spec() -> bool {
        true
    }

    open spec fn from_spec(value: AVIAMFAmbisonicsMode) -> u32 {
        value.0
    }
}

/// IAMF parameter animation type; unknown values remain representable.
#[derive(Clone, Copy, Debug, PartialEq, Eq, Hash, PartialOrd, Ord)]
pub struct AVIAMFAnimationType(pub u32);

impl AVIAMFAnimationType {
    /// Apply the starting value for the entire parameter subblock.
    #[allow(non_snake_case)]
    pub fn STEP() -> (result: AVIAMFAnimationType)
        ensures
            result.0 == 0,
    {
        AVIAMFAnimationType(0)
    }

    /// Interpolate linearly between the starting and ending values.
    #[allow(non_snake_case)]
    pub fn LINEAR() -> (result: AVIAMFAnimationType)
        ensures
            result.0 == 1,
    {
        AVIAMFAnimationType(1)
    }

    /// Interpolate along the specified quadratic Bezier curve.
    #[allow(non_snake_case)]
    pub fn BEZIER() -> (result: AVIAMFAnimationType)
        ensures
            result.0 == 2,
    {
        AVIAMFAnimationType(2)
    }

    /// Wraps a raw value, including one unknown to this crate version.
    pub fn from_raw(value: u32) -> (result: AVIAMFAnimationType)
        ensures
            result.0 == value,
    {
        AVIAMFAnimationType(value)
    }

    /// Returns the raw value libavutil uses.
    pub fn as_raw(self) -> (result: u32)
        ensures
            result == self.0,
    {
        self.0
    }

}

impl From<u32> for AVIAMFAnimationType {
    fn from(value: u32) -> (result: AVIAMFAnimationType) {
        AVIAMFAnimationType::from_raw(value)
    }
}

impl FromSpecImpl<u32> for AVIAMFAnimationType {
    open spec fn obeys_from_spec() -> bool {
        true
    }

    open spec fn from_spec(value: u32) -> AVIAMFAnimationType {
        AVIAMFAnimationType(value)
    }
}

impl From<AVIAMFAnimationType> for u32 {
    fn from(value: AVIAMFAnimationType) -> (result: u32) {
        value.as_raw()
    }
}

impl FromSpecImpl<AVIAMFAnimationType> for u32 {
    open spec fn obeys_from_spec() -> bool {
        true
    }

    open spec fn from_spec(value: AVIAMFAnimationType) -> u32 {
        value.0
    }
}

/// IAMF audio-element type; unknown values remain representable.
#[derive(Clone, Copy, Debug, PartialEq, Eq, Hash, PartialOrd, Ord)]
pub struct AVIAMFAudioElementType(pub u32);

impl AVIAMFAudioElementType {
    /// A scalable channel audio element.
    #[allow(non_snake_case)]
    pub fn CHANNEL() -> (result: AVIAMFAudioElementType)
        ensures
            result.0 == 0,
    {
        AVIAMFAudioElementType(0)
    }

    /// A scene-based audio element.
    #[allow(non_snake_case)]
    pub fn SCENE() -> (result: AVIAMFAudioElementType)
        ensures
            result.0 == 1,
    {
        AVIAMFAudioElementType(1)
    }

    /// Wraps a raw value, including one unknown to this crate version.
    pub fn from_raw(value: u32) -> (result: AVIAMFAudioElementType)
        ensures
            result.0 == value,
    {
        AVIAMFAudioElementType(value)
    }

    /// Returns the raw value libavutil uses.
    pub fn as_raw(self) -> (result: u32)
        ensures
            result == self.0,
    {
        self.0
    }

}

impl From<u32> for AVIAMFAudioElementType {
    fn from(value: u32) -> (result: AVIAMFAudioElementType) {
        AVIAMFAudioElementType::from_raw(value)
    }
}

impl FromSpecImpl<u32> for AVIAMFAudioElementType {
    open spec fn obeys_from_spec() -> bool {
        true
    }

    open spec fn from_spec(value: u32) -> AVIAMFAudioElementType {
        AVIAMFAudioElementType(value)
    }
}

impl From<AVIAMFAudioElementType> for u32 {
    fn from(value: AVIAMFAudioElementType) -> (result: u32) {
        value.as_raw()
    }
}

impl FromSpecImpl<AVIAMFAudioElementType> for u32 {
    open spec fn obeys_from_spec() -> bool {
        true
    }

    open spec fn from_spec(value: AVIAMFAudioElementType) -> u32 {
        value.0
    }
}

/// IAMF headphones rendering mode; unknown values remain representable.
#[derive(Clone, Copy, Debug, PartialEq, Eq, Hash, PartialOrd, Ord)]
pub struct AVIAMFHeadphonesMode(pub u32);

impl AVIAMFHeadphonesMode {
    /// Render the referenced audio element to stereo loudspeakers.
    #[allow(non_snake_case)]
    pub fn STEREO() -> (result: AVIAMFHeadphonesMode)
        ensures
            result.0 == 0,
    {
        AVIAMFHeadphonesMode(0)
    }

    /// Render the referenced audio element with a binaural renderer.
    #[allow(non_snake_case)]
    pub fn BINAURAL() -> (result: AVIAMFHeadphonesMode)
        ensures
            result.0 == 1,
    {
        AVIAMFHeadphonesMode(1)
    }

    /// Wraps a raw value, including one unknown to this crate version.
    pub fn from_raw(value: u32) -> (result: AVIAMFHeadphonesMode)
        ensures
            result.0 == value,
    {
        AVIAMFHeadphonesMode(value)
    }

    /// Returns the raw value libavutil uses.
    pub fn as_raw(self) -> (result: u32)
        ensures
            result == self.0,
    {
        self.0
    }

}

impl From<u32> for AVIAMFHeadphonesMode {
    fn from(value: u32) -> (result: AVIAMFHeadphonesMode) {
        AVIAMFHeadphonesMode::from_raw(value)
    }
}

impl FromSpecImpl<u32> for AVIAMFHeadphonesMode {
    open spec fn obeys_from_spec() -> bool {
        true
    }

    open spec fn from_spec(value: u32) -> AVIAMFHeadphonesMode {
        AVIAMFHeadphonesMode(value)
    }
}

impl From<AVIAMFHeadphonesMode> for u32 {
    fn from(value: AVIAMFHeadphonesMode) -> (result: u32) {
        value.as_raw()
    }
}

impl FromSpecImpl<AVIAMFHeadphonesMode> for u32 {
    open spec fn obeys_from_spec() -> bool {
        true
    }

    open spec fn from_spec(value: AVIAMFHeadphonesMode) -> u32 {
        value.0
    }
}

/// The kind of subblock stored after an IAMF parameter definition; unknown
/// values remain representable.
#[derive(Clone, Copy, Debug, PartialEq, Eq, Hash, PartialOrd, Ord)]
pub struct AVIAMFParamDefinitionType(pub u32);

impl AVIAMFParamDefinitionType {
    /// Subblocks contain mix-gain parameters.
    #[allow(non_snake_case)]
    pub fn MIX_GAIN() -> (result: AVIAMFParamDefinitionType)
        ensures
            result.0 == 0,
    {
        AVIAMFParamDefinitionType(0)
    }

    /// Subblocks contain demixing information.
    #[allow(non_snake_case)]
    pub fn DEMIXING() -> (result: AVIAMFParamDefinitionType)
        ensures
            result.0 == 1,
    {
        AVIAMFParamDefinitionType(1)
    }

    /// Subblocks contain reconstruction-gain parameters.
    #[allow(non_snake_case)]
    pub fn RECON_GAIN() -> (result: AVIAMFParamDefinitionType)
        ensures
            result.0 == 2,
    {
        AVIAMFParamDefinitionType(2)
    }

    /// Wraps a raw value, including one unknown to this crate version.
    pub fn from_raw(value: u32) -> (result: AVIAMFParamDefinitionType)
        ensures
            result.0 == value,
    {
        AVIAMFParamDefinitionType(value)
    }

    /// Returns the raw value libavutil uses.
    pub fn as_raw(self) -> (result: u32)
        ensures
            result == self.0,
    {
        self.0
    }

}

impl From<u32> for AVIAMFParamDefinitionType {
    fn from(value: u32) -> (result: AVIAMFParamDefinitionType) {
        AVIAMFParamDefinitionType::from_raw(value)
    }
}

impl FromSpecImpl<u32> for AVIAMFParamDefinitionType {
    open spec fn obeys_from_spec() -> bool {
        true
    }

    open spec fn from_spec(value: u32) -> AVIAMFParamDefinitionType {
        AVIAMFParamDefinitionType(value)
    }
}

impl From<AVIAMFParamDefinitionType> for u32 {
    fn from(value: AVIAMFParamDefinitionType) -> (result: u32) {
        value.as_raw()
    }
}

impl FromSpecImpl<AVIAMFParamDefinitionType> for u32 {
    open spec fn obeys_from_spec() -> bool {
        true
    }

    open spec fn from_spec(value: AVIAMFParamDefinitionType) -> u32 {
        value.0
    }
}

/// Whether an IAMF submix layout names a loudspeaker sound system or binaural
/// rendering; unknown values remain representable.
#[derive(Clone, Copy, Debug, PartialEq, Eq, Hash, PartialOrd, Ord)]
pub struct AVIAMFSubmixLayoutType(pub u32);

impl AVIAMFSubmixLayoutType {
    /// The layout follows an ITU-2051-3 loudspeaker sound system.
    #[allow(non_snake_case)]
    pub fn LOUDSPEAKERS() -> (result: AVIAMFSubmixLayoutType)
        ensures
            result.0 == 2,
    {
        AVIAMFSubmixLayoutType(2)
    }

    /// The layout is binaural.
    #[allow(non_snake_case)]
    pub fn BINAURAL() -> (result: AVIAMFSubmixLayoutType)
        ensures
            result.0 == 3,
    {
        AVIAMFSubmixLayoutType(3)
    }

    /// Wraps a raw value, including one unknown to this crate version.
    pub fn from_raw(value: u32) -> (result: AVIAMFSubmixLayoutType)
        ensures
            result.0 == value,
    {
        AVIAMFSubmixLayoutType(value)
    }

    /// Returns the raw value libavutil uses.
    pub fn as_raw(self) -> (result: u32)
        ensures
            result == self.0,
    {
        self.0
    }

}

impl From<u32> for AVIAMFSubmixLayoutType {
    fn from(value: u32) -> (result: AVIAMFSubmixLayoutType) {
        AVIAMFSubmixLayoutType::from_raw(value)
    }
}

impl FromSpecImpl<u32> for AVIAMFSubmixLayoutType {
    open spec fn obeys_from_spec() -> bool {
        true
    }

    open spec fn from_spec(value: u32) -> AVIAMFSubmixLayoutType {
        AVIAMFSubmixLayoutType(value)
    }
}

impl From<AVIAMFSubmixLayoutType> for u32 {
    fn from(value: AVIAMFSubmixLayoutType) -> (result: u32) {
        value.as_raw()
    }
}

impl FromSpecImpl<AVIAMFSubmixLayoutType> for u32 {
    open spec fn obeys_from_spec() -> bool {
        true
    }

    open spec fn from_spec(value: AVIAMFSubmixLayoutType) -> u32 {
        value.0
    }
}

/// The parts of an IAMF parameter definition that select its subblocks: the
/// kind of every subblock and how many there are.
pub struct AVIAMFParamDefinitionRef {
    parameter_type: AVIAMFParamDefinitionType,
    nb_subblocks: u32,
}

impl AVIAMFParamDefinitionRef {
    /// The kind of every subblock.
    pub closed spec fn spec_parameter_type(&self) -> AVIAMFParamDefinitionType {
        self.parameter_type
    }

    /// The number of subblocks.
    pub closed spec fn spec_nb_subblocks(&self) -> u32 {
        self.nb_subblocks
    }

    /// Describes a definition with `nb_subblocks` subblocks of the given kind.
    pub fn new(parameter_type: AVIAMFParamDefinitionType, nb_subblocks: u32) -> (result: AVIAMFParamDefinitionRef)
        ensures
            result.spec_parameter_type() == parameter_type,
            result.spec_nb_subblocks() == nb_subblocks,
    {
        AVIAMFParamDefinitionRef { parameter_type, nb_subblocks }
    }

    /// Field: AVIAMFParamDefinition.type
    pub fn parameter_type(&self) -> (result: AVIAMFParamDefinitionType)
        ensures
            result == self.spec_parameter_type(),
    {
        self.parameter_type
    }

    /// Field: AVIAMFParamDefinition.nb_subblocks
    pub fn nb_subblocks(&self) -> (result: u32)
        ensures
            result == self.spec_nb_subblocks(),
    {
        self.nb_subblocks
    }
}

/// A shared view of one subblock of a parameter definition, by kind, with
/// the subblock's index.
#[derive(Clone, Copy, Debug, PartialEq, Eq)]
pub enum AVIAMFParamSubblockRef {
    /// Mix-gain parameter data.
    MixGain(u32),
    /// Demixing parameter data.
    Demixing(u32),
    /// Reconstruction-gain parameter data.
    ReconGain(u32),
}

/// An exclusive view of one subblock of a parameter definition, by kind, with
/// the subblock's index.
#[derive(Debug, PartialEq, Eq)]
pub enum AVIAMFParamSubblockMut {
    /// Mix-gain parameter data.
    MixGain(u32),
    /// Demixing parameter data.
    Demixing(u32),
    /// Reconstruction-gain parameter data.
    ReconGain(u32),
}

/// The subblock `idx` selects: `None` when the index is out of range or the
/// definition carries a kind this crate does not know.
pub open spec fn subblock_spec(parameter_type: u32, nb_subblocks: u32, idx: u32) -> Option<
    AVIAMFParamSubblockRef,
> {
    if idx >= nb_subblocks {
        None
    } else if parameter_type == 0 {
        Some(AVIAMFParamSubblockRef::MixGain(idx))
    } else if parameter_type == 1 {
        Some(AVIAMFParamSubblockRef::Demixing(idx))
    } else if parameter_type == 2 {
        Some(AVIAMFParamSubblockRef::ReconGain(idx))
    } else {
        None
    }
}

/// The `av_iamf_param_definition_get_subblock` operation of libavutil.
///
/// The subblock at `idx`, typed by the definition's kind. `None` means the
/// index is out of range or the kind is unknown; the check never aborts, as
/// the C helper does for an out-of-range index.
pub fn av_iamf_param_definition_get_subblock(par: &AVIAMFParamDefinitionRef, idx: u32) -> (result:
    Option<AVIAMFParamSubblockRef>)
    ensures
        result == subblock_spec(par.spec_parameter_type().0, par.spec_nb_subblocks(), idx),
        idx >= par.spec_nb_subblocks() ==> result is None,
{
    if idx >= par.nb_subblocks() {
        return None;
    }
    let kind = par.parameter_type().as_raw();
    if kind == 0 {
        Some(AVIAMFParamSubblockRef::MixGain(idx))
    } else if kind == 1 {
        Some(AVIAMFParamSubblockRef::Demixing(idx))
    } else if kind == 2 {
        Some(AVIAMFParamSubblockRef::ReconGain(idx))
    } else {
        None
    }
}

/// The exclusive view matching a shared one.
pub open spec fn exclusive_subblock(shared: Option<AVIAMFParamSubblockRef>) -> Option<
    AVIAMFParamSubblockMut,
> {
    match shared {
        None => None,
        Some(AVIAMFParamSubblockRef::MixGain(i)) => Some(AVIAMFParamSubblockMut::MixGain(i)),
        Some(AVIAMFParamSubblockRef::Demixing(i)) => Some(AVIAMFParamSubblockMut::Demixing(i)),
        Some(AVIAMFParamSubblockRef::ReconGain(i)) => Some(AVIAMFParamSubblockMut::ReconGain(i)),
    }
}

/// The `av_iamf_param_definition_get_subblock` operation of libavutil.
///
/// The exclusive form of [`av_iamf_param_definition_get_subblock`]; it
/// consumes the definition's exclusive view.
pub fn av_iamf_param_definition_get_subblock_mut(par: AVIAMFParamDefinitionRef, idx: u32) -> (result:
    Option<AVIAMFParamSubblockMut>)
    ensures
        result == exclusive_subblock(
            subblock_spec(par.spec_parameter_type().0, par.spec_nb_subblocks(), idx),
        ),
        idx >= par.spec_nb_subblocks() ==> result is None,
{
    match av_iamf_param_definition_get_subblock(&par, idx) {
        None => None,
        Some(AVIAMFParamSubblockRef::MixGain(i)) => Some(AVIAMFParamSubblockMut::MixGain(i)),
        Some(AVIAMFParamSubblockRef::Demixing(i)) => Some(AVIAMFParamSubblockMut::Demixing(i)),
        Some(AVIAMFParamSubblockRef::ReconGain(i)) => Some(AVIAMFParamSubblockMut::ReconGain(i)),
    }
}

/// Every subblock inside the range of a definition of a known kind is
/// found, with the kind of the definition and the index asked for.
pub proof fn lemma_subblock_found_inside_range(parameter_type: u32, nb_subblocks: u32, idx: u32)
    requires
        idx < nb_subblocks,
        parameter_type <= 2,
    ensures
        subblock_spec(parameter_type, nb_subblocks, idx) matches Some(found) && match found {
            AVIAMFParamSubblockRef::MixGain(i) => i == idx && parameter_type == 0,
            AVIAMFParamSubblockRef::Demixing(i) => i == idx && parameter_type == 1,
            AVIAMFParamSubblockRef::ReconGain(i) => i == idx && parameter_type == 2,
        },
{
}

/// A subblock lookup never reaches past the definition: an index at or past
/// the number of subblocks finds nothing, whatever the kind, and a subblock
/// that is found carries the index asked for, which is below that number.
pub proof fn lemma_subblock_stays_in_range(parameter_type: u32, nb_subblocks: u32, idx: u32)
    ensures
        idx >= nb_subblocks ==> subblock_spec(parameter_type, nb_subblocks, idx) is None,
        subblock_spec(parameter_type, nb_subblocks, idx) matches Some(found) ==> match found {
            AVIAMFParamSubblockRef::MixGain(i) => i == idx && i < nb_subblocks,
            AVIAMFParamSubblockRef::Demixing(i) => i == idx && i < nb_subblocks,
            AVIAMFParamSubblockRef::ReconGain(i) => i == idx && i < nb_subblocks,
        },
{
}

/// Random access to the layers of an audio element: how many it counts, and
/// whether their table is present.
#[derive(Clone, Copy)]
pub struct AVIAMFLayers {
    len: usize,
    table_present: bool,
}

impl AVIAMFLayers {
    /// The number of layers counted.
    pub closed spec fn spec_len(&self) -> usize {
        self.len
    }

    /// Whether the layer table is present.
    pub closed spec fn spec_table_present(&self) -> bool {
        self.table_present
    }

    /// Describes `len` layers held in a table that may be absent.
    pub fn new(len: usize, table_present: bool) -> (result: AVIAMFLayers)
        ensures
            result.spec_len() == len,
            result.spec_table_present() == table_present,
    {
        AVIAMFLayers { len, table_present }
    }

    /// The number of layers.
    pub fn len(&self) -> (result: usize)
        ensures
            result == self.spec_len(),
    {
        self.len
    }

    /// Whether the audio element holds no layer.
    pub fn is_empty(&self) -> (result: bool)
        ensures
            result == (self.spec_len() == 0),
    {
        self.len == 0
    }

    /// The position of layer `index`, or `None` when it is out of bounds or
    /// the table is absent.
    pub fn get(&self, index: usize) -> (result: Option<usize>)
        ensures
            (index < self.spec_len() && self.spec_table_present()) ==> result == Some(index),
            !(index < self.spec_len() && self.spec_table_present()) ==> result is None,
    {
        if index >= self.len || !self.table_present {
            None
        } else {
            Some(index)
        }
    }
}

/// Iteration over the submixes of a mix presentation, in table order.
pub struct AVIAMFSubmixes {
    index: usize,
    len: usize,
}

impl AVIAMFSubmixes {
    /// The position of the next submix.
    pub closed spec fn spec_index(&self) -> usize {
        self.index
    }

    /// The number of submixes.
    pub closed spec fn spec_len(&self) -> usize {
        self.len
    }

    /// Starts iteration over `len` submixes.
    pub fn new(len: usize) -> (result: AVIAMFSubmixes)
        ensures
            result.spec_index() == 0,
            result.spec_len() == len,
    {
        AVIAMFSubmixes { index: 0, len }
    }

    /// The position of the next submix, or `None` after the last one.
    pub fn next(&mut self) -> (result: Option<usize>)
        requires
            old(self).spec_index() <= old(self).spec_len(),
        ensures
            final(self).spec_len() == old(self).spec_len(),
            final(self).spec_index() <= final(self).spec_len(),
            old(self).spec_index() == old(self).spec_len() ==> (result is None)
                && final(self).spec_index() == old(self).spec_index(),
            old(self).spec_index() < old(self).spec_len() ==> result == Some(old(self).spec_index())
                && final(self).spec_index() == old(self).spec_index() + 1,
    {
        if self.index == self.len {
            return None;
        }
        let index = self.index;
        self.index = self.index + 1;
        Some(index)
    }

    /// The number of submixes still to come, exactly.
    pub fn size_hint(&self) -> (result: (usize, Option<usize>))
        requires
            self.spec_index() <= self.spec_len(),
        ensures
            result.0 == self.spec_len() - self.spec_index(),
            result.1 == Some((self.spec_len() - self.spec_index()) as usize),
    {
        let remaining = self.len - self.index;
        (remaining, Some(remaining))
    }
}

/// Exclusive iteration over the distinct submixes of a mix presentation.
pub struct AVIAMFSubmixesMut {
    index: usize,
    len: usize,
}

impl AVIAMFSubmixesMut {
    /// The position of the next submix.
    pub closed spec fn spec_index(&self) -> usize {
        self.index
    }

    /// The number of submixes.
    pub closed spec fn spec_len(&self) -> usize {
        self.len
    }

    /// Starts iteration over `len` submixes.
    pub fn new(len: usize) -> (result: AVIAMFSubmixesMut)
        ensures
            result.spec_index() == 0,
            result.spec_len() == len,
    {
        AVIAMFSubmixesMut { index: 0, len }
    }

    /// The position of the next submix, or `None` after the last one.
    pub fn next(&mut self) -> (result: Option<usize>)
        requires
            old(self).spec_index() <= old(self).spec_len(),
        ensures
            final(self).spec_len() == old(self).spec_len(),
            final(self).spec_index() <= final(self).spec_len(),
            old(self).spec_index() == old(self).spec_len() ==> (result is None)
                && final(self).spec_index() == old(self).spec_index(),
            old(self).spec_index() < old(self).spec_len() ==> result == Some(old(self).spec_index())
                && final(self).spec_index() == old(self).spec_index() + 1,
    {
        if self.index == self.len {
            return None;
        }
        let index = self.index;
        self.index = self.index + 1;
        Some(index)
    }

    /// The number of submixes still to come, exactly.
    pub fn size_hint(&self) -> (result: (usize, Option<usize>))
        requires
            self.spec_index() <= self.spec_len(),
        ensures
            result.0 == self.spec_len() - self.spec_index(),
            result.1 == Some((self.spec_len() - self.spec_index()) as usize),
    {
        let remaining = self.len - self.index;
        (remaining, Some(remaining))
    }
}

} // verus!
