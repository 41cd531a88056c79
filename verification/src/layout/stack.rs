//! Stack: a container whose children are drawn over each other, in the
//! order they were pushed.
use vstd::prelude::*;
use iced_core::{Length, Padding};
use crate::measure::{length_fill, padding_zero};

verus! {

/// Where a child sits along one axis of its stack: at the start, in the
/// middle, or at the end (the alignments of the toolkit).
#[derive(Debug, Clone, Copy, PartialEq, Eq, Structural)]
pub enum Alignment {
    Start,
    Center,
    End,
}

/// A child of a stack, with its alignment.
pub struct StackChild<E> {
    pub element: E,
    pub align_x: Alignment,
    pub align_y: Alignment,
}

impl<E> StackChild<E> {
    /// Sets the horizontal alignment of this child.
    pub fn align_x(self, align: Alignment) -> (r: Self)
        ensures
            r.element == self.element,
            r.align_x == align,
            r.align_y == self.align_y,
    {
        StackChild { align_x: align, ..self }
    }

    /// Sets the vertical alignment of this child.
    pub fn align_y(self, align: Alignment) -> (r: Self)
        ensures
            r.element == self.element,
            r.align_x == self.align_x,
            r.align_y == align,
    {
        StackChild { align_y: align, ..self }
    }
}

/// A stack: children overlap, later ones above earlier ones. The size
/// starts as `Length::Fill` and the padding as zero.
pub struct Stack<E> {
    pub children: Vec<StackChild<E>>,
    pub width: Length,
    pub height: Length,
    pub padding: Padding,
}

impl<E> Stack<E> {
    /// An empty stack (filling its parent, no padding).
    pub fn new() -> (r: Self)
        ensures
            r.children@.len() == 0,
    {
        Stack { children: Vec::new(), width: length_fill(), height: length_fill(), padding: padding_zero() }
    }

    /// Sets the width.
    pub fn width(self, width: Length) -> (r: Self)
        ensures
            r.children == self.children,
            r.width == width,
            r.height == self.height,
            r.padding == self.padding,
    {
        Stack { width, ..self }
    }

    /// Sets the height.
    pub fn height(self, height: Length) -> (r: Self)
        ensures
            r.children == self.children,
            r.width == self.width,
            r.height == height,
            r.padding == self.padding,
    {
        Stack { height, ..self }
    }

    /// Sets the padding.
    pub fn padding(self, padding: Padding) -> (r: Self)
        ensures
            r.children == self.children,
            r.width == self.width,
            r.height == self.height,
            r.padding == padding,
    {
        Stack { padding, ..self }
    }

    /// Adds a child on top, centered on both axes.
    pub fn push(self, child: E) -> (r: Self)
        ensures
            r.children@ == self.children@.push(
                StackChild { element: child, align_x: Alignment::Center, align_y: Alignment::Center },
            ),
            r.width == self.width,
            r.height == self.height,
            r.padding == self.padding,
    {
        let mut s = self;
        s.children.push(StackChild { element: child, align_x: Alignment::Center, align_y: Alignment::Center });
        s
    }

    /// Adds a child on top with the given alignment.
    pub fn push_aligned(self, child: E, align_x: Alignment, align_y: Alignment) -> (r: Self)
        ensures
            r.children@ == self.children@.push(StackChild { element: child, align_x, align_y }),
            r.width == self.width,
            r.height == self.height,
            r.padding == self.padding,
    {
        let mut s = self;
        s.children.push(StackChild { element: child, align_x, align_y });
        s
    }
}

/// What a stack shows, at its width and height and inside its padding:
/// its children as layers, the first at the bottom and each later one
/// above, each placed by its own alignment; empty space when it has none.
pub struct StackLayout<E> {
    pub layers: Vec<StackChild<E>>,
    pub width: Length,
    pub height: Length,
    pub padding: Padding,
}

impl<E> Stack<E> {
    /// The stack's layout.
    pub fn layout(self) -> (r: StackLayout<E>)
        ensures
            r.layers == self.children,
            r.width == self.width,
            r.height == self.height,
            r.padding == self.padding,
    {
        StackLayout { layers: self.children, width: self.width, height: self.height, padding: self.padding }
    }
}

} // verus!
