use vstd::prelude::*;

verus! {

/// A position.
#[derive(Copy, Clone, PartialEq, Eq, Debug)]
pub struct Point<T>(pub T, pub T);

impl<T: Copy> Point<T> {
    pub fn x(&self) -> (r: T)
        ensures
            r == self.0,
    {
        self.0
    }

    pub fn y(&self) -> (r: T)
        ensures
            r == self.1,
    {
        self.1
    }
}

/// A displacement.
#[derive(Copy, Clone, PartialEq, Eq, Debug)]
pub struct Vec<T>(pub T, pub T);

impl<T: Copy> Vec<T> {
    pub fn x(&self) -> (r: T)
        ensures
            r == self.0,
    {
        self.0
    }

    pub fn y(&self) -> (r: T)
        ensures
            r == self.1,
    {
        self.1
    }
}

/// A width and a height.
#[derive(Copy, Clone, PartialEq, Eq, Debug)]
pub struct Size<T: Copy>(pub T, pub T);

impl<T: Copy> Size<T> {
    pub fn width(&self) -> (r: T)
        ensures
            r == self.0,
    {
        self.0
    }

    pub fn height(&self) -> (r: T)
        ensures
            r == self.1,
    {
        self.1
    }
}

/// A rectangle: its top-left corner and its size.
#[derive(Copy, Clone, PartialEq, Eq, Debug)]
pub struct Rect<T: Copy> {
    pub x: T,
    pub y: T,
    pub width: T,
    pub height: T,
}

impl<T: Copy> Rect<T> {
    pub fn new(x: T, y: T, width: T, height: T) -> (r: Rect<T>)
        ensures
            r == (Rect { x, y, width, height }),
    {
        Rect { x, y, width, height }
    }

    pub fn new_s(x: T, y: T, size: Size<T>) -> (r: Rect<T>)
        ensures
            r == (Rect { x, y, width: size.0, height: size.1 }),
    {
        Rect { x, y, width: size.0, height: size.1 }
    }

    pub fn new_p(point: Point<T>, width: T, height: T) -> (r: Rect<T>)
        ensures
            r == (Rect { x: point.0, y: point.1, width, height }),
    {
        Rect { x: point.0, y: point.1, width, height }
    }

    pub fn new_ps(point: Point<T>, size: Size<T>) -> (r: Rect<T>)
        ensures
            r == (Rect { x: point.0, y: point.1, width: size.0, height: size.1 }),
    {
        Rect { x: point.0, y: point.1, width: size.0, height: size.1 }
    }

    pub fn point(&self) -> (r: Point<T>)
        ensures
            r == Point(self.x, self.y),
    {
        Point(self.x, self.y)
    }

    pub fn size(&self) -> (r: Size<T>)
        ensures
            r == Size(self.width, self.height),
    {
        Size(self.width, self.height)
    }

    pub fn left(&self) -> (r: T)
        ensures
            r == self.x,
    {
        self.x
    }

    pub fn top(&self) -> (r: T)
        ensures
            r == self.y,
    {
        self.y
    }
}

impl Rect<i32> {
    pub fn right(&self) -> (r: i32)
        requires
            i32::MIN <= self.x + self.width <= i32::MAX,
        ensures
            r == self.x + self.width,
    {
        self.x + self.width
    }

    pub fn bottom(&self) -> (r: i32)
        requires
            i32::MIN <= self.y + self.height <= i32::MAX,
        ensures
            r == self.y + self.height,
    {
        self.y + self.height
    }
}

/// Margins: left, top, right and bottom.
#[derive(Copy, Clone, PartialEq, Eq, Debug)]
pub struct Margins<T>(pub T, pub T, pub T, pub T);

impl<T: Copy> Margins<T> {
    pub fn left(&self) -> (r: T)
        ensures
            r == self.0,
    {
        self.0
    }

    pub fn top(&self) -> (r: T)
        ensures
            r == self.1,
    {
        self.1
    }

    pub fn right(&self) -> (r: T)
        ensures
            r == self.2,
    {
        self.2
    }

    pub fn bottom(&self) -> (r: T)
        ensures
            r == self.3,
    {
        self.3
    }
}

impl Margins<i32> {
    /// Left and right margins together.
    pub fn horizontal(&self) -> (r: i32)
        requires
            i32::MIN <= self.0 + self.2 <= i32::MAX,
        ensures
            r == self.0 + self.2,
    {
        self.0 + self.2
    }

    /// Top and bottom margins together.
    pub fn vertical(&self) -> (r: i32)
        requires
            i32::MIN <= self.1 + self.3 <= i32::MAX,
        ensures
            r == self.1 + self.3,
    {
        self.1 + self.3
    }
}

} // verus!
