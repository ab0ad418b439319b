use vstd::prelude::*;

verus! {

/// A width and a height in logical pixels.
#[derive(PartialEq, Eq, Structural, Clone, Copy, Debug)]
pub struct Size {
    pub width: u32,
    pub height: u32,
}

impl Size {
    pub open spec fn spec_zero() -> Size {
        Size { width: 0, height: 0 }
    }

    /// The empty size.
    pub fn zero() -> (r: Size)
        ensures
            r == Size::spec_zero(),
    {
        Size { width: 0, height: 0 }
    }

    pub fn new(width: u32, height: u32) -> (r: Size)
        ensures
            r.width == width,
            r.height == height,
    {
        Size { width, height }
    }
}

/// A position in logical pixels.
#[derive(PartialEq, Eq, Structural, Clone, Copy, Debug)]
pub struct Point {
    pub x: i32,
    pub y: i32,
}

/// A displacement in logical pixels.
#[derive(PartialEq, Eq, Structural, Clone, Copy, Debug)]
pub struct Vector {
    pub x: i32,
    pub y: i32,
}

/// An axis-aligned rectangle: its top-left corner and its size.
#[derive(PartialEq, Eq, Structural, Clone, Copy, Debug)]
pub struct Rectangle {
    pub x: i32,
    pub y: i32,
    pub width: u32,
    pub height: u32,
}

impl Rectangle {
    pub fn new(position: Point, size: Size) -> (r: Rectangle)
        ensures
            r.x == position.x,
            r.y == position.y,
            r.width == size.width,
            r.height == size.height,
    {
        Rectangle { x: position.x, y: position.y, width: size.width, height: size.height }
    }

    pub open spec fn spec_size(self) -> Size {
        Size { width: self.width, height: self.height }
    }

    /// The width and height of the rectangle.
    pub fn size(&self) -> (r: Size)
        ensures
            r == self.spec_size(),
    {
        Size { width: self.width, height: self.height }
    }

    pub open spec fn spec_offset(self) -> Vector {
        Vector { x: self.x, y: self.y }
    }

    /// The offset of the top-left corner from the origin.
    pub fn offset(&self) -> (r: Vector)
        ensures
            r == self.spec_offset(),
    {
        Vector { x: self.x, y: self.y }
    }
}

/// How a widget wants to be sized along one axis.
#[derive(PartialEq, Eq, Structural, Clone, Copy, Debug)]
pub enum Length {
    /// Take all the space the parent offers.
    Fill,
    /// Take as little space as the content needs.
    Shrink,
    /// A fixed amount of logical pixels.
    Fixed(u32),
}

/// The sizing preference of a widget on both axes.
#[derive(PartialEq, Eq, Structural, Clone, Copy, Debug)]
pub struct Sizing {
    pub width: Length,
    pub height: Length,
}

/// The bounds a parent layout pass imposes on a child.
#[derive(PartialEq, Eq, Structural, Clone, Copy, Debug)]
pub struct Limits {
    pub min: Size,
    pub max: Size,
}

impl Limits {
    pub fn new(min: Size, max: Size) -> (r: Limits)
        ensures
            r.min == min,
            r.max == max,
    {
        Limits { min, max }
    }
}

/// The computed geometry of a widget and of its descendants.
#[derive(Debug)]
pub struct LayoutNode {
    pub bounds: Rectangle,
    pub children: Vec<LayoutNode>,
}

impl LayoutNode {
    /// A leaf node of the given size, placed at the origin.
    pub fn new(size: Size) -> (r: LayoutNode)
        ensures
            r.bounds == Rectangle::new_spec(size),
            r.children@.len() == 0,
    {
        LayoutNode {
            bounds: Rectangle { x: 0, y: 0, width: size.width, height: size.height },
            children: Vec::new(),
        }
    }

    /// A node of the given size, placed at the origin, over `children`.
    pub fn with_children(size: Size, children: Vec<LayoutNode>) -> (r: LayoutNode)
        ensures
            r.bounds == Rectangle::new_spec(size),
            r.children == children,
    {
        LayoutNode {
            bounds: Rectangle { x: 0, y: 0, width: size.width, height: size.height },
            children,
        }
    }
}

impl Rectangle {
    /// The rectangle of the given size with its corner at the origin.
    pub open spec fn new_spec(size: Size) -> Rectangle {
        Rectangle { x: 0, y: 0, width: size.width, height: size.height }
    }
}

/// A layout node together with the offset at which its parent placed it.
#[derive(Clone, Copy)]
pub struct Layout<'a> {
    pub offset: Vector,
    pub node: &'a LayoutNode,
}

impl<'a> Layout<'a> {
    pub fn with_offset(offset: Vector, node: &'a LayoutNode) -> (r: Layout<'a>)
        ensures
            r.offset == offset,
            r.node == node,
    {
        Layout { offset, node }
    }
}

} // verus!
