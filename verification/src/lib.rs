//! The verified core of a web animation engine: the easing-curve engine,
//! playback parameters, property values, and target handling.
//!
//! The easing engine maps a normalized time fraction to an output fraction
//! through closed-form curve families, a direction compositor, a cubic
//! bezier solver and a spring solver, all in exact micro-unit fixed point.
//! Around it, the types here describe *what* an animation does between
//! frames: how often it repeats, in which direction it plays, how animated
//! property values and their CSS units are modelled, and which document
//! elements it applies to. The host-facing layer converts its own
//! floating-point numbers at the boundary and drives the render loop.

use vstd::prelude::*;

pub mod easings;
pub mod engine;
pub mod properties;
pub mod target;

verus! {

/// Playback direction of an animation instance.
#[derive(Debug, Clone, Copy, PartialEq, Eq)]
pub enum Direction {
    Normal,
    Reverse,
    Alternate,
}

impl Direction {
    /// What [`Direction::reverse`] turns a direction into: `Normal` and
    /// `Reverse` swap, while `Alternate` already plays both ways and is kept.
    pub open spec fn spec_reverse(self) -> Direction {
        match self {
            Direction::Normal => Direction::Reverse,
            Direction::Reverse => Direction::Normal,
            Direction::Alternate => Direction::Alternate,
        }
    }

    /// Flip the playback direction in place.
    pub fn reverse(&mut self)
        ensures
            *final(self) == old(self).spec_reverse(),
    {
        *self = match *self {
            Direction::Normal => Direction::Reverse,
            Direction::Reverse => Direction::Normal,
            Direction::Alternate => Direction::Alternate,
        }
    }
}

/// How many times an animation runs.
#[derive(Debug, Clone, Copy, PartialEq, Eq)]
pub enum Repeat {
    Finite { current: u32, total: u32 },
    Infinite,
}

impl Repeat {
    /// A finite repeat count never records more finished runs than it has in
    /// total.
    pub open spec fn wf(self) -> bool {
        match self {
            Repeat::Finite { current, total } => current <= total,
            Repeat::Infinite => true,
        }
    }

    /// How many runs are left, or `None` for an endless animation.
    pub fn remaining(&self) -> (r: Option<u32>)
        requires
            self.wf(),
        ensures
            r == match *self {
                Repeat::Finite { current, total } => Some((total - current) as u32),
                Repeat::Infinite => None::<u32>,
            },
    {
        if let Repeat::Finite { current, total } = self {
            Some(*total - *current)
        } else {
            None
        }
    }

    /// Grant a finite animation `repetitions` more runs; an endless one is
    /// left as it is.
    pub fn add(&mut self, repetitions: u32)
        requires
            match *old(self) {
                Repeat::Finite { current, total } => total + repetitions <= u32::MAX,
                Repeat::Infinite => true,
            },
        ensures
            *final(self) == match *old(self) {
                Repeat::Finite { current, total } => Repeat::Finite {
                    current,
                    total: (total + repetitions) as u32,
                },
                Repeat::Infinite => Repeat::Infinite,
            },
    {
        if let Repeat::Finite { current: _, total } = self {
            *total += repetitions
        }
    }
}

/// A per-element value spread: either one value (with optional spread
/// parameters) or a range distributed over the animated elements.
pub enum Stagger<T> {
    Value(T, Option<StaggerProps>),
    Range(T, T),
}

/// Optional parameters refining how a staggered value spreads over elements.
pub struct StaggerProps {
    start: Option<u32>,
    from: Option<StaggerFrom>,
    direction: Option<StaggerDirection>,
    grid: Option<(u32, u32)>,
    axis: Option<StaggerGridAxis>,
}

/// Which element a staggered spread starts from.
pub enum StaggerFrom {
    First,
    Last,
    Center,
    Index(u32),
}

/// Whether a staggered spread walks the elements forwards or backwards.
pub enum StaggerDirection {
    Normal,
    Reverse,
}

/// Which axis of a grid a staggered spread follows.
pub enum StaggerGridAxis {
    X,
    Y,
}

} // verus!
