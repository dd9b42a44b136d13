use vstd::prelude::*;
use crate::compositor::{composited, draw_at, rendered, sprite_rows, Sprite};
use crate::game_object::{is_staged, GameObject};
use crate::input::Key;
use crate::types::{ObjectInfo, PixelCoords, WindowSize};

verus! {

/// Why an engine could not be built.
#[derive(Clone, Copy, Debug, PartialEq, Eq, Structural)]
pub enum EngineError {
    /// The viewport has more pixels than a buffer can hold.
    BufferTooLarge,
}

/// The frame buffer of a viewport together with the game objects that are
/// drawn into it, in the order in which they were added.
pub struct Engine<T> {
    buffer: Vec<u32>,
    window_size: WindowSize,
    objects: Vec<T>,
}

/// A buffer of `len` pixels that are all cleared.
pub open spec fn blank(len: int) -> Seq<u32> {
    Seq::new(len as nat, |i: int| 0u32)
}

impl<T> Engine<T> {
    #[verifier::type_invariant]
    spec fn buffer_fits(&self) -> bool {
        self.buffer@.len() == self.window_size.area()
    }

    /// The frame buffer, row by row: pixel `(x, y)` at index `y * width + x`.
    pub closed spec fn pixels(&self) -> Seq<u32> {
        self.buffer@
    }

    /// The size of the viewport.
    pub closed spec fn viewport(&self) -> WindowSize {
        self.window_size
    }

    /// The game objects, oldest first.
    pub closed spec fn game_objects(&self) -> Seq<T> {
        self.objects@
    }

    /// An engine for a viewport of the given size, with a cleared buffer and
    /// no game objects. It fails only for a viewport whose pixels cannot be
    /// counted in a `usize`.
    pub fn new(window_size: &WindowSize) -> (made: Result<Self, EngineError>)
        ensures
            made.is_ok() <==> window_size.area() <= usize::MAX,
            made matches Ok(engine) ==> {
                &&& engine.viewport() == *window_size
                &&& engine.pixels() == blank(window_size.area())
                &&& engine.game_objects() == Seq::<T>::empty()
            },
            made matches Err(e) ==> e == EngineError::BufferTooLarge,
    {
        match window_size.width.checked_mul(window_size.height) {
            Some(len) => {
                let buffer: Vec<u32> = vec![0u32; len];
                assert(buffer@ =~= blank(window_size.area()));
                Ok(Engine { buffer, window_size: *window_size, objects: Vec::new() })
            },
            None => Err(EngineError::BufferTooLarge),
        }
    }

    /// Adds a game object behind those that are there. Objects are updated
    /// and drawn in the order in which they were added.
    pub fn add_game_object(&mut self, game_object: T)
        ensures
            final(self).game_objects() == old(self).game_objects().push(game_object),
            final(self).pixels() == old(self).pixels(),
            final(self).viewport() == old(self).viewport(),
    {
        proof {
            use_type_invariant(&*self);
        }
        let mut objects: Vec<T> = Vec::new();
        std::mem::swap(&mut objects, &mut self.objects);
        objects.push(game_object);
        self.objects = objects;
    }

    /// Number of game objects.
    pub fn object_count(&self) -> (count: usize)
        ensures
            count == self.game_objects().len(),
    {
        self.objects.len()
    }

    /// The game object at `index`, counted from the oldest; `None` behind
    /// the last one.
    pub fn object(&self, index: usize) -> (found: Option<&T>)
        ensures
            found.is_some() <==> index < self.game_objects().len(),
            found matches Some(object) ==> *object == self.game_objects()[index as int],
    {
        if index < self.objects.len() {
            Some(&self.objects[index])
        } else {
            None
        }
    }

    /// The size of the viewport.
    pub fn window_size(&self) -> (size: WindowSize)
        ensures
            size == self.viewport(),
    {
        self.window_size
    }

    /// What every game object is told in every frame: the viewport's size.
    pub fn object_info(&self) -> (info: ObjectInfo)
        ensures
            info.window_size == self.viewport(),
    {
        ObjectInfo { window_size: self.window_size }
    }

    /// The frame buffer as it is handed to a display.
    pub fn buffer(&self) -> (buffer: &Vec<u32>)
        ensures
            buffer@ == self.pixels(),
            buffer@.len() == self.viewport().area(),
    {
        proof {
            use_type_invariant(self);
        }
        &self.buffer
    }

    /// Clears every pixel of the buffer.
    pub fn clear(&mut self)
        ensures
            final(self).pixels() == blank(old(self).viewport().area()),
            final(self).viewport() == old(self).viewport(),
            final(self).game_objects() == old(self).game_objects(),
    {
        proof {
            use_type_invariant(&*self);
        }
        let len = self.buffer.len();
        let mut i: usize = 0;
        while i < len
            invariant
                i <= len,
                len == self.buffer@.len(),
                len == self.window_size.area(),
                self.window_size == old(self).window_size,
                self.objects@ == old(self).objects@,
                forall|k: int| 0 <= k < i ==> self.buffer@[k] == 0,
            decreases len - i,
        {
            self.buffer[i] = 0;
            i += 1;
        }
        assert(self.buffer@ =~= blank(self.window_size.area()));
    }

    /// Copies a sprite onto the buffer with its top-left corner at `coords`,
    /// dropping the cells that fall outside the viewport.
    pub fn draw(&mut self, raster_vecs: Vec<Vec<u32>>, coords: &PixelCoords)
        ensures
            final(self).pixels() == composited(
                old(self).pixels(),
                old(self).viewport().width as int,
                old(self).viewport().height as int,
                sprite_rows(&raster_vecs),
                *coords,
            ),
            final(self).viewport() == old(self).viewport(),
            final(self).game_objects() == old(self).game_objects(),
    {
        proof {
            use_type_invariant(&*self);
        }
        draw_at(
            &mut self.buffer,
            self.window_size.width,
            self.window_size.height,
            raster_vecs,
            coords,
        );
    }
}

/// The sprites that the objects show, each at its anchor, in the objects'
/// order.
pub open spec fn sprites_of<T: GameObject>(objects: Seq<T>) -> Seq<Sprite> {
    Seq::new(
        objects.len(),
        |i: int| Sprite { rows: objects[i].sprite(), anchor: objects[i].anchor() },
    )
}

impl<T: GameObject> Engine<T> {
    /// Draws one frame. The buffer is cleared; then every game object, in
    /// the order in which the objects were added, goes through the stages of
    /// a frame: new velocity, new position, bounce off the boundary, news of
    /// the viewport, reaction to the held keys; and is drawn at its place.
    ///
    /// Afterwards each object is the one that stood at its index, taken
    /// through the stages in their order, and the buffer is the cleared
    /// buffer with the sprite of each object, as it is after its stages,
    /// copied onto it in the objects' order.
    pub fn frame(&mut self, keys: &[Key])
        ensures
            final(self).viewport() == old(self).viewport(),
            final(self).game_objects().len() == old(self).game_objects().len(),
            forall|i: int|
                0 <= i < old(self).game_objects().len() ==> is_staged(
                    old(self).game_objects()[i],
                    #[trigger] final(self).game_objects()[i],
                    old(self).viewport(),
                    keys@,
                ),
            final(self).pixels() == rendered(
                blank(old(self).viewport().area()),
                old(self).viewport().width as int,
                old(self).viewport().height as int,
                sprites_of(final(self).game_objects()),
            ),
    {
        proof {
            use_type_invariant(&*self);
        }
        self.clear();
        let window_size = self.window_size();
        let object_info = self.object_info();
        let mut objects: Vec<T> = Vec::new();
        std::mem::swap(&mut objects, &mut self.objects);
        let count = objects.len();
        let ghost cleared = self.buffer@;
        let ghost before = objects@;
        let ghost width = window_size.width as int;
        let ghost height = window_size.height as int;
        let mut index: usize = 0;
        while index < count
            invariant
                index <= count,
                count == objects.len(),
                before.len() == count,
                object_info.window_size == window_size,
                width == window_size.width,
                height == window_size.height,
                self.window_size == window_size,
                self.buffer@.len() == window_size.area(),
                forall|i: int|
                    0 <= i < index ==> is_staged(
                        before[i],
                        #[trigger] objects@[i],
                        window_size,
                        keys@,
                    ),
                forall|i: int| index <= i < count ==> #[trigger] objects@[i] == before[i],
                self.buffer@ == rendered(
                    cleared,
                    width,
                    height,
                    sprites_of(objects@.take(index as int)),
                ),
            decreases count - index,
        {
            let ghost earlier = objects@;
            let object = &mut objects[index];
            object.calc_velocities();
            object.apply_velocities();
            object.collision_checks(&window_size);
            object.set_object_info(&object_info);
            object.handle_input(keys);
            let raster_vecs = object.draw();
            let coords = object.pixel_coords();
            proof {
                let shown = sprites_of(objects@.take(index + 1));
                assert(objects@.take(index as int) =~= earlier.take(index as int));
                assert(shown.drop_last() =~= sprites_of(earlier.take(index as int)));
                assert(shown.last() == Sprite { rows: sprite_rows(&raster_vecs), anchor: coords });
            }
            draw_at(
                &mut self.buffer,
                window_size.width,
                window_size.height,
                raster_vecs,
                &coords,
            );
            index += 1;
        }
        assert(objects@.take(count as int) =~= objects@);
        self.objects = objects;
    }
}

} // verus!
