//! Which sensors an odometry tick consumes.
//!
//! A robot carries up to two vertical and two horizontal tracking wheels and
//! possibly an inertial sensor. Each tick takes its heading change from one
//! source only, and its displacement from one wheel per axis.

use vstd::prelude::*;

verus! {

/// Which sensors are configured.
#[derive(Debug, Clone, Copy, PartialEq, Eq, Structural)]
pub struct SensorLayout {
    pub vertical1: bool,
    pub vertical2: bool,
    pub horizontal1: bool,
    pub horizontal2: bool,
    pub imu: bool,
}

/// Where a tick takes its heading change from.
#[derive(Debug, Clone, Copy, PartialEq, Eq, Structural)]
pub enum HeadingSource {
    /// The difference of the two horizontal wheels.
    HorizontalWheels,
    /// The difference of the two vertical wheels.
    VerticalWheels,
    /// The inertial sensor's own change.
    Inertial,
    /// No source: the heading stays.
    Unchanged,
}

/// One of the two wheels of an axis.
#[derive(Debug, Clone, Copy, PartialEq, Eq, Structural)]
pub enum WheelSlot {
    First,
    Second,
}

impl SensorLayout {
    /// The heading source by priority: a pair of horizontal wheels, else a
    /// pair of vertical wheels, else the inertial sensor.
    pub open spec fn spec_heading_source(self) -> HeadingSource {
        if self.horizontal1 && self.horizontal2 {
            HeadingSource::HorizontalWheels
        } else if self.vertical1 && self.vertical2 {
            HeadingSource::VerticalWheels
        } else if self.imu {
            HeadingSource::Inertial
        } else {
            HeadingSource::Unchanged
        }
    }

    /// The first configured wheel of two, if any.
    pub open spec fn first_of(first: bool, second: bool) -> Option<WheelSlot> {
        if first {
            Some(WheelSlot::First)
        } else if second {
            Some(WheelSlot::Second)
        } else {
            None
        }
    }

    /// No sensor is configured at all.
    pub open spec fn spec_is_empty(self) -> bool {
        !self.vertical1 && !self.vertical2 && !self.horizontal1 && !self.horizontal2 && !self.imu
    }

    /// The source of this tick's heading change.
    pub fn heading_source(&self) -> (source: HeadingSource)
        ensures
            source == self.spec_heading_source(),
    {
        if self.horizontal1 && self.horizontal2 {
            HeadingSource::HorizontalWheels
        } else if self.vertical1 && self.vertical2 {
            HeadingSource::VerticalWheels
        } else if self.imu {
            HeadingSource::Inertial
        } else {
            HeadingSource::Unchanged
        }
    }

    /// The wheel that measures forward travel: the first vertical wheel
    /// that is configured.
    pub fn vertical_wheel(&self) -> (slot: Option<WheelSlot>)
        ensures
            slot == Self::first_of(self.vertical1, self.vertical2),
    {
        if self.vertical1 {
            Some(WheelSlot::First)
        } else if self.vertical2 {
            Some(WheelSlot::Second)
        } else {
            None
        }
    }

    /// The wheel that measures sideways travel: the first horizontal wheel
    /// that is configured.
    pub fn horizontal_wheel(&self) -> (slot: Option<WheelSlot>)
        ensures
            slot == Self::first_of(self.horizontal1, self.horizontal2),
    {
        if self.horizontal1 {
            Some(WheelSlot::First)
        } else if self.horizontal2 {
            Some(WheelSlot::Second)
        } else {
            None
        }
    }

    /// Whether no sensor is configured.
    pub fn is_empty(&self) -> (b: bool)
        ensures
            b == self.spec_is_empty(),
    {
        !self.vertical1 && !self.vertical2 && !self.horizontal1 && !self.horizontal2 && !self.imu
    }
}

/// Sources are ranked, not blended: the horizontal pair outranks the
/// vertical pair, either pair outranks the inertial sensor, and so the
/// presence of an inertial sensor makes no difference to a robot with a
/// wheel pair.
pub proof fn lemma_heading_priority(layout: SensorLayout, imu: bool)
    ensures
        layout.horizontal1 && layout.horizontal2 ==> layout.spec_heading_source()
            == HeadingSource::HorizontalWheels,
        layout.spec_heading_source() == HeadingSource::VerticalWheels <==> layout.vertical1
            && layout.vertical2 && !(layout.horizontal1 && layout.horizontal2),
        layout.spec_heading_source() == HeadingSource::Inertial <==> layout.imu && !(
        layout.horizontal1 && layout.horizontal2) && !(layout.vertical1 && layout.vertical2),
        (layout.horizontal1 && layout.horizontal2) || (layout.vertical1 && layout.vertical2) ==> (
        SensorLayout { imu, ..layout }).spec_heading_source() == layout.spec_heading_source(),
{
}

/// With no sensor configured a tick has nothing to consume: no heading
/// source and no wheel on either axis.
pub proof fn lemma_empty_layout_has_no_source(layout: SensorLayout)
    requires
        layout.spec_is_empty(),
    ensures
        layout.spec_heading_source() == HeadingSource::Unchanged,
        SensorLayout::first_of(layout.vertical1, layout.vertical2) is None,
        SensorLayout::first_of(layout.horizontal1, layout.horizontal2) is None,
{
}

} // verus!
