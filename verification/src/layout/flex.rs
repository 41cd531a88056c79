//! Flex layout options.
use vstd::prelude::*;

verus! {

/// Main axis of a flex container.
#[derive(Debug, Clone, Copy, PartialEq, Eq, Structural)]
pub enum FlexDirection {
    Row,
    Column,
}

/// Cross-axis alignment of flex items.
#[derive(Debug, Clone, Copy, PartialEq, Eq, Structural)]
pub enum FlexAlign {
    Start,
    Center,
    End,
}

/// Main-axis distribution of flex items.
#[derive(Debug, Clone, Copy, PartialEq, Eq, Structural)]
pub enum FlexJustify {
    Start,
    Center,
    End,
    SpaceBetween,
    SpaceAround,
    SpaceEvenly,
}

impl Default for FlexDirection {
    fn default() -> (r: Self)
        ensures
            r == FlexDirection::Row,
    {
        FlexDirection::Row
    }
}

impl Default for FlexAlign {
    fn default() -> (r: Self)
        ensures
            r == FlexAlign::Start,
    {
        FlexAlign::Start
    }
}

impl Default for FlexJustify {
    fn default() -> (r: Self)
        ensures
            r == FlexJustify::Start,
    {
        FlexJustify::Start
    }
}

/// A flex container: its direction, the cross-axis alignment and main-axis
/// distribution of its children, the spacing between them in whole pixels,
/// and its children in order.
pub struct Flex<E> {
    pub direction: FlexDirection,
    pub align: FlexAlign,
    pub justify: FlexJustify,
    pub spacing: u16,
    pub children: Vec<E>,
}

/// What a flex container shows: a row or a column of its children in order,
/// with its spacing and its children aligned across the axis.
pub struct FlexLayout<E> {
    pub direction: FlexDirection,
    pub spacing: u16,
    pub align: FlexAlign,
    pub children: Vec<E>,
}

impl<E> Flex<E> {
    /// An empty container along `direction`, aligned and distributed at the
    /// start, without spacing.
    pub fn new(direction: FlexDirection) -> (r: Self)
        ensures
            r.direction == direction,
            r.align == FlexAlign::Start,
            r.justify == FlexJustify::Start,
            r.spacing == 0,
            r.children@.len() == 0,
    {
        Flex { direction, align: FlexAlign::Start, justify: FlexJustify::Start, spacing: 0, children: Vec::new() }
    }

    /// An empty row.
    pub fn row() -> (r: Self)
        ensures
            r.direction == FlexDirection::Row,
            r.align == FlexAlign::Start,
            r.justify == FlexJustify::Start,
            r.spacing == 0,
            r.children@.len() == 0,
    {
        Self::new(FlexDirection::Row)
    }

    /// An empty column.
    pub fn column() -> (r: Self)
        ensures
            r.direction == FlexDirection::Column,
            r.align == FlexAlign::Start,
            r.justify == FlexJustify::Start,
            r.spacing == 0,
            r.children@.len() == 0,
    {
        Self::new(FlexDirection::Column)
    }

    pub fn align(self, align: FlexAlign) -> (r: Self)
        ensures
            r == (Flex { align, ..self }),
    {
        Flex { align, ..self }
    }

    pub fn justify(self, justify: FlexJustify) -> (r: Self)
        ensures
            r == (Flex { justify, ..self }),
    {
        Flex { justify, ..self }
    }

    pub fn spacing(self, spacing: u16) -> (r: Self)
        ensures
            r == (Flex { spacing, ..self }),
    {
        Flex { spacing, ..self }
    }

    /// Adds a child after the others.
    pub fn push(self, child: E) -> (r: Self)
        ensures
            r == (Flex { children: r.children, ..self }),
            r.children@ == self.children@.push(child),
    {
        let mut s = self;
        s.children.push(child);
        s
    }

    /// The container's layout. The distribution along the main axis is kept
    /// but not applied: children are packed from the start.
    pub fn layout(self) -> (r: FlexLayout<E>)
        ensures
            r.direction == self.direction,
            r.spacing == self.spacing,
            r.align == self.align,
            r.children == self.children,
    {
        FlexLayout { direction: self.direction, spacing: self.spacing, align: self.align, children: self.children }
    }
}

} // verus!
