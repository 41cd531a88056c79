//! Dock layout regions.
use vstd::prelude::*;
use iced_core::{Length, Pixels};
use crate::measure::length_shrink;

verus! {

/// A region of a dock layout.
#[derive(Debug, Clone, Copy, PartialEq, Eq, Structural)]
pub enum DockRegion {
    North,
    South,
    East,
    West,
    Center,
}

/// A dock: a center, with children docked on its four sides. The sides'
/// sizes start shrunk to their content.
pub struct Dock<E> {
    pub north: Option<E>,
    pub south: Option<E>,
    pub east: Option<E>,
    pub west: Option<E>,
    pub center: E,
    pub north_height: Length,
    pub south_height: Length,
    pub east_width: Length,
    pub west_width: Length,
    /// The spacing set, if any (none is no spacing). It is kept; the
    /// layout does not use it.
    pub spacing: Option<Pixels>,
}

/// What a dock shows: the north child on top (full width, at its height),
/// then a row of the west child (at its width), the center filling the
/// rest and the east child (at its width), then the south child at the
/// bottom.
pub struct DockLayout<E> {
    pub top: Option<(E, Length)>,
    pub left: Option<(E, Length)>,
    pub center: E,
    pub right: Option<(E, Length)>,
    pub bottom: Option<(E, Length)>,
}

pub open spec fn sized<E>(child: Option<E>, size: Length) -> Option<(E, Length)> {
    match child {
        Some(c) => Some((c, size)),
        None => None,
    }
}

impl<E> Dock<E> {
    /// A dock with only a center.
    pub fn new(center: E) -> (r: Self)
        ensures
            r.center == center,
            r.north is None,
            r.south is None,
            r.east is None,
            r.west is None,
            r.spacing is None,
    {
        Dock {
            north: None,
            south: None,
            east: None,
            west: None,
            center,
            north_height: length_shrink(),
            south_height: length_shrink(),
            east_width: length_shrink(),
            west_width: length_shrink(),
            spacing: None,
        }
    }

    pub fn north(self, child: E) -> (r: Self)
        ensures
            r == (Dock { north: Some(child), ..self }),
    {
        Dock { north: Some(child), ..self }
    }

    pub fn south(self, child: E) -> (r: Self)
        ensures
            r == (Dock { south: Some(child), ..self }),
    {
        Dock { south: Some(child), ..self }
    }

    pub fn east(self, child: E) -> (r: Self)
        ensures
            r == (Dock { east: Some(child), ..self }),
    {
        Dock { east: Some(child), ..self }
    }

    pub fn west(self, child: E) -> (r: Self)
        ensures
            r == (Dock { west: Some(child), ..self }),
    {
        Dock { west: Some(child), ..self }
    }

    pub fn north_height(self, height: Length) -> (r: Self)
        ensures
            r == (Dock { north_height: height, ..self }),
    {
        Dock { north_height: height, ..self }
    }

    pub fn south_height(self, height: Length) -> (r: Self)
        ensures
            r == (Dock { south_height: height, ..self }),
    {
        Dock { south_height: height, ..self }
    }

    pub fn east_width(self, width: Length) -> (r: Self)
        ensures
            r == (Dock { east_width: width, ..self }),
    {
        Dock { east_width: width, ..self }
    }

    pub fn west_width(self, width: Length) -> (r: Self)
        ensures
            r == (Dock { west_width: width, ..self }),
    {
        Dock { west_width: width, ..self }
    }

    pub fn spacing(self, spacing: Pixels) -> (r: Self)
        ensures
            r == (Dock { spacing: Some(spacing), ..self }),
    {
        Dock { spacing: Some(spacing), ..self }
    }

    /// The dock's layout.
    pub fn layout(self) -> (r: DockLayout<E>)
        ensures
            r.top == sized(self.north, self.north_height),
            r.left == sized(self.west, self.west_width),
            r.center == self.center,
            r.right == sized(self.east, self.east_width),
            r.bottom == sized(self.south, self.south_height),
    {
        let top = match self.north {
            Some(c) => Some((c, self.north_height)),
            None => None,
        };
        let left = match self.west {
            Some(c) => Some((c, self.west_width)),
            None => None,
        };
        let right = match self.east {
            Some(c) => Some((c, self.east_width)),
            None => None,
        };
        let bottom = match self.south {
            Some(c) => Some((c, self.south_height)),
            None => None,
        };
        DockLayout { top, left, center: self.center, right, bottom }
    }
}

} // verus!
