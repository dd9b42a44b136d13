use vstd::prelude::*;
use crate::compositor::sprite_rows;
use crate::input::Key;
use crate::types::{ObjectInfo, PixelCoords, WindowSize};

verus! {

/// What the engine asks of anything that it moves and draws. The engine
/// fixes the order of a frame's stages; what a stage does to an object's
/// position and velocity is the object's own matter.
///
/// Each stage is a function of the object and of what the stage is handed,
/// and so is what the object shows. The spec functions are the names of
/// these functions, and the engine's contracts speak of them. An implementor
/// that gives one no body of its own leaves open which function it is. The
/// methods' contracts are taken on trust of every implementor that is not
/// verified: an object whose stages depend on anything but their arguments
/// breaks them.
pub trait GameObject: Sized {
    /// The object after stage one. Unless the implementor says which, it is
    /// some function of the object.
    open spec fn with_new_velocity(&self) -> Self {
        arbitrary::<spec_fn(int, Self) -> Self>()(1, *self)
    }

    /// The object after stage two. Unless the implementor says which, it is
    /// some function of the object.
    open spec fn moved(&self) -> Self {
        arbitrary::<spec_fn(int, Self) -> Self>()(2, *self)
    }

    /// The object after stage three in a viewport of the given size. Unless
    /// the implementor says which, it is some function of the two.
    open spec fn bounced(&self, window_size: WindowSize) -> Self {
        arbitrary::<spec_fn(Self, WindowSize) -> Self>()(*self, window_size)
    }

    /// The object after it has been told `object_info`. Unless the
    /// implementor says which, it is some function of the two.
    open spec fn informed(&self, object_info: ObjectInfo) -> Self {
        arbitrary::<spec_fn(Self, ObjectInfo) -> Self>()(*self, object_info)
    }

    /// The object after its own reaction to the held keys `keys`. Unless the
    /// implementor says which, it is some function of the two.
    open spec fn reacted(&self, keys: Seq<Key>) -> Self {
        arbitrary::<spec_fn(Self, Seq<Key>) -> Self>()(*self, keys)
    }

    /// The rows of the object's sprite. Unless the implementor says which,
    /// they are some function of the object.
    open spec fn sprite(&self) -> Seq<Seq<u32>> {
        arbitrary::<spec_fn(Self) -> Seq<Seq<u32>>>()(*self)
    }

    /// The pixel at which the sprite's top-left corner belongs. Unless the
    /// implementor says which, it is some function of the object.
    open spec fn anchor(&self) -> PixelCoords {
        arbitrary::<spec_fn(Self) -> PixelCoords>()(*self)
    }

    /// Stage one: the object's velocity takes up gravity and then loses to
    /// the drag of the air, which so damps the new gravity as well.
    fn calc_velocities(&mut self)
        ensures
            *final(self) == old(self).with_new_velocity(),
    ;

    /// Stage two: the object moves by its velocity.
    fn apply_velocities(&mut self)
        ensures
            *final(self) == old(self).moved(),
    ;

    /// Stage three: an object that has left a viewport of the given size is
    /// put back at the boundary that it crossed and bounces off it.
    fn collision_checks(&mut self, window_size: &WindowSize)
        ensures
            *final(self) == old(self).bounced(*window_size),
    ;

    /// Stage four: the object is told what the engine knows of the viewport.
    fn set_object_info(&mut self, object_info: &ObjectInfo)
        ensures
            *final(self) == old(self).informed(*object_info),
    ;

    /// Stage five: the object reacts to the keys that are held down, in its
    /// own way or not at all. An object that says nothing else does not
    /// react: it stays as it is.
    fn handle_input(&mut self, _keys: &[Key])
        ensures
            *final(self) == old(self).reacted(_keys@) || *final(self) == *old(self),
        default_ensures
            *final(self) == *old(self),
    {
    }

    /// The object's sprite, row by row. Rows may differ in length.
    fn draw(&self) -> (raster_vecs: Vec<Vec<u32>>)
        ensures
            sprite_rows(&raster_vecs) == self.sprite(),
    ;

    /// The pixel at which the sprite's top-left corner belongs: the object's
    /// position with the fractions cut off.
    fn pixel_coords(&self) -> (coords: PixelCoords)
        ensures
            coords == self.anchor(),
    ;
}

/// The object as it is when the engine has told it the viewport: after the
/// first four stages of a frame, in their order.
pub open spec fn told<T: GameObject>(object: T, window_size: WindowSize) -> T {
    object.with_new_velocity().moved().bounced(window_size).informed(
        ObjectInfo { window_size },
    )
}

/// The object after all five stages of a frame, where it reacts to the keys
/// in its own way.
pub open spec fn staged<T: GameObject>(object: T, window_size: WindowSize, keys: Seq<Key>) -> T {
    told(object, window_size).reacted(keys)
}

/// Whether `after` is `before` taken through the stages of one frame, in
/// their order: with its own reaction to the keys, or with none.
pub open spec fn is_staged<T: GameObject>(
    before: T,
    after: T,
    window_size: WindowSize,
    keys: Seq<Key>,
) -> bool {
    after == staged(before, window_size, keys) || after == told(before, window_size)
}

} // verus!
