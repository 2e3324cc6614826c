//! The board: the items in drawing order, what is selected, and the state
//! machine that turns a frame's pointer state into one manipulation.

use vstd::prelude::*;
use crate::camera::Camera;
use crate::error::BoardError;
use crate::item::{Item, ItemImage, ItemText, Scalar};
use crate::reference::is_last_segment;

verus! {

/// What pointer movement acts on.
#[derive(Debug, Clone, Copy, PartialEq, Eq, Structural)]
pub enum Selectable {
    /// The item at this index.
    Item(usize),
    /// The camera.
    Board,
}

/// One of the two colours of the palette.
#[derive(Debug, Clone, Copy, PartialEq, Eq, Structural)]
pub enum Colour {
    Light,
    Dark,
}

/// The buttons and modifier keys as one frame samples them.
#[derive(Debug, Clone, Copy, PartialEq, Eq, Structural)]
pub struct Pointer {
    /// The primary button is down.
    pub primary: bool,
    /// The secondary button is down.
    pub secondary: bool,
    /// The key that asks for scaling is down.
    pub scale_key: bool,
    /// The key that asks for rotation is down.
    pub rotate_key: bool,
}

/// The button that a press event reports.
#[derive(Debug, Clone, Copy, PartialEq, Eq, Structural)]
pub enum Button {
    Primary,
    Secondary,
    Other,
}

/// What the pointer's movement does in one frame. The caller computes the
/// new numbers and stores them.
#[derive(Debug, Clone, Copy, PartialEq, Eq, Structural)]
pub enum Motion {
    /// Nothing moves.
    Rest,
    /// The movement adds to the scale of the item at this index.
    Scale(usize),
    /// The movement adds to the rotation of the item at this index.
    Rotate(usize),
    /// The movement adds to the position of the item at this index.
    Translate(usize),
    /// The movement adds to the camera's zoom.
    Zoom,
    /// The movement adds to the camera's centre.
    Pivot,
    /// The camera's centre glides towards the last press.
    Glide,
}

/// The part of the board's state that belongs to the session.
#[derive(Debug, Clone, Copy, PartialEq, Eq)]
pub struct BoardState {
    /// Where the pointer was last pressed, in world units.
    pub last_press: (Scalar, Scalar),
    /// What is selected.
    pub selected: Option<Selectable>,
    /// The colours of the background and of the text.
    pub colours: (Colour, Colour),
}

/// The mathematical value of a [`Board`].
pub struct BoardView {
    /// The items; a later one is drawn over an earlier one.
    pub items: Seq<Item>,
    pub camera: Camera,
    pub state: BoardState,
}

impl BoardView {
    /// A selected index names an item of the list.
    pub open spec fn wf(self) -> bool {
        self.state.selected matches Some(Selectable::Item(i)) ==> i < self.items.len()
    }
}

/// The board. A selected index always names an item of the list.
pub struct Board {
    items: Vec<Item>,
    camera: Camera,
    state: BoardState,
}

/// No button is down.
pub open spec fn released(p: Pointer) -> bool {
    !p.primary && !p.secondary
}

/// What stays selected after a frame: nothing once every button is up.
pub open spec fn held(selected: Option<Selectable>, p: Pointer) -> Option<Selectable> {
    if released(p) {
        None
    } else {
        selected
    }
}

/// The routing rule. For an item, scaling comes first (its key, or both
/// buttons), then rotation (its key, or the secondary button alone), then
/// translation. For the camera, both buttons zoom, the primary button
/// pivots and the secondary button glides.
pub open spec fn route(selected: Option<Selectable>, p: Pointer) -> Motion {
    match held(selected, p) {
        None => Motion::Rest,
        Some(Selectable::Item(i)) => {
            if p.scale_key || (p.primary && p.secondary) {
                Motion::Scale(i)
            } else if p.rotate_key || (p.secondary && !p.primary) {
                Motion::Rotate(i)
            } else {
                Motion::Translate(i)
            }
        },
        Some(Selectable::Board) => {
            if p.primary && p.secondary {
                Motion::Zoom
            } else if p.primary {
                Motion::Pivot
            } else {
                Motion::Glide
            }
        },
    }
}

/// The index that a motion acts on, where it acts on an item.
pub open spec fn target(m: Motion) -> Option<usize> {
    match m {
        Motion::Scale(i) => Some(i),
        Motion::Rotate(i) => Some(i),
        Motion::Translate(i) => Some(i),
        _ => None,
    }
}

/// The list with the items at `i` and at the end exchanged.
pub open spec fn raised(items: Seq<Item>, i: int) -> Seq<Item> {
    items.update(i, items.last()).update(items.len() - 1, items[i])
}

/// `r` is the first index below `n` at which `hits` holds, if there is one.
pub open spec fn is_first_hit(hits: Seq<bool>, n: int, r: Option<usize>) -> bool {
    match r {
        Some(i) => i < n && i < hits.len() && hits[i as int] && forall|j: int|
            0 <= j < i ==> !hits[j],
        None => forall|j: int| 0 <= j < n && j < hits.len() ==> !hits[j],
    }
}

/// The items that loaded, in the order of their records.
pub open spec fn loaded(records: Seq<Result<Item, BoardError>>) -> Seq<Item>
    decreases records.len(),
{
    if records.len() == 0 {
        Seq::empty()
    } else {
        match records.last() {
            Ok(item) => loaded(records.drop_last()).push(item),
            Err(_) => loaded(records.drop_last()),
        }
    }
}

/// The state of a board as a press leaves it. A press of the primary or the
/// secondary button while nothing is selected records where it fell and
/// selects: the first item hit, which moves to the end of the list, or the
/// camera. Any other press changes nothing.
pub open spec fn pressed(
    b: BoardView,
    button: Button,
    world: (Scalar, Scalar),
    hit: Option<usize>,
) -> BoardView {
    if b.state.selected is Some || button == Button::Other {
        b
    } else {
        match hit {
            Some(i) => BoardView {
                items: raised(b.items, i as int),
                camera: b.camera,
                state: BoardState {
                    last_press: world,
                    selected: Some(Selectable::Item((b.items.len() - 1) as usize)),
                    ..b.state
                },
            },
            None => BoardView {
                items: b.items,
                camera: b.camera,
                state: BoardState {
                    last_press: world,
                    selected: Some(Selectable::Board),
                    ..b.state
                },
            },
        }
    }
}

impl BoardState {
    /// Nothing selected, no press yet, dark text on a light background.
    pub fn new() -> (r: BoardState)
        ensures
            r == (BoardState {
                last_press: (Scalar::zero(), Scalar::zero()),
                selected: None,
                colours: (Colour::Light, Colour::Dark),
            }),
    {
        BoardState {
            last_press: (Scalar::zero(), Scalar::zero()),
            selected: None,
            colours: (Colour::Light, Colour::Dark),
        }
    }

    pub fn set_colours(&mut self, c: (Colour, Colour))
        ensures
            *final(self) == (BoardState { colours: c, ..*old(self) }),
    {
        self.colours = c;
    }
}

impl View for Board {
    type V = BoardView;

    closed spec fn view(&self) -> BoardView {
        BoardView { items: self.items@, camera: self.camera, state: self.state }
    }
}

impl Board {
    /// A selected index names an item of the list. Every board that
    /// [`Board::create`] makes is well formed, and every method keeps it so.
    pub open spec fn wf(&self) -> bool {
        self@.wf()
    }

    /// A board that holds the items that loaded, in the order of their
    /// records, with nothing selected and a fresh camera on a viewport of
    /// the given size. A record that failed is left out and
    /// does not keep the others from loading.
    pub fn create(records: Vec<Result<Item, BoardError>>, resolution: (Scalar, Scalar)) -> (r:
        Board)
        ensures
            r.wf(),
            r@.items == loaded(records@),
            r@.camera == (Camera {
                centre: (Scalar::zero(), Scalar::zero()),
                zoom: Scalar::one(),
                resolution,
            }),
            r@.state == (BoardState {
                last_press: (Scalar::zero(), Scalar::zero()),
                selected: None,
                colours: (Colour::Light, Colour::Dark),
            }),
    {
        let ghost all = records@;
        let mut items: Vec<Item> = Vec::new();
        for record in it: records
            invariant
                it.seq() == all,
                items@ == loaded(all.take(it.index() as int)),
        {
            proof {
                let n = it.index() as int;
                assert(all.take(n + 1).drop_last() =~= all.take(n));
                assert(all.take(n + 1).last() == record);
            }
            match record {
                Ok(item) => {
                    items.push(item);
                },
                Err(_) => {},
            }
        }
        proof {
            assert(all.take(all.len() as int) =~= all);
        }
        Board { items, camera: Camera::new(resolution), state: BoardState::new() }
    }

    /// Pins a text on top, at the origin.
    pub fn add_text(&mut self, text: String)
        ensures
            old(self).wf() ==> final(self).wf(),
            final(self)@.items == old(self)@.items.push(
                Item::Text(
                    ItemText {
                        text,
                        position: (Scalar::zero(), Scalar::zero()),
                        scale: Scalar::hundred(),
                        rotation: Scalar::zero(),
                    },
                ),
            ),
            final(self)@.camera == old(self)@.camera,
            final(self)@.state == old(self)@.state,
    {
        self.items.push(Item::Text(ItemText::new(text)));
    }

    /// Pins an image on top when its pixels were loaded. One that failed to
    /// load is never pinned: the board stays as it is and the failure is
    /// handed on.
    pub fn add_image(&mut self, image: Result<ItemImage, BoardError>) -> (r: Result<
        (),
        BoardError,
    >)
        ensures
            old(self).wf() ==> final(self).wf(),
            final(self)@.camera == old(self)@.camera,
            final(self)@.state == old(self)@.state,
            match image {
                Ok(i) => r is Ok && final(self)@.items == old(self)@.items.push(Item::Image(i)),
                Err(e) => r == Err::<(), BoardError>(e) && final(self)@.items == old(self)@.items,
            },
    {
        match image {
            Ok(i) => {
                self.items.push(Item::Image(i));
                Ok(())
            },
            Err(e) => Err(e),
        }
    }

    /// The name of the cache entry that holds the image behind `path`: what
    /// follows the last `/`.
    pub fn name_from_path(path: &str) -> (name: &str)
        ensures
            is_last_segment(path@, name@),
    {
        crate::reference::name_from_path(path)
    }

    /// Selects. An item that is selected moves to the end of the list, where
    /// it is drawn on top, and the item that was last takes its place.
    pub fn set_selection(&mut self, selection: Selectable)
        requires
            selection matches Selectable::Item(i) ==> i < old(self)@.items.len(),
        ensures
            final(self).wf(),
            final(self)@.items.len() == old(self)@.items.len(),
            final(self)@.camera == old(self)@.camera,
            final(self)@.state.last_press == old(self)@.state.last_press,
            final(self)@.state.colours == old(self)@.state.colours,
            match selection {
                Selectable::Item(i) => {
                    &&& final(self)@.items == raised(old(self)@.items, i as int)
                    &&& final(self)@.items.last() == old(self)@.items[i as int]
                    &&& final(self)@.state.selected == Some(
                        Selectable::Item((old(self)@.items.len() - 1) as usize),
                    )
                },
                Selectable::Board => {
                    &&& final(self)@.items == old(self)@.items
                    &&& final(self)@.state.selected == Some(Selectable::Board)
                },
            },
    {
        match selection {
            Selectable::Item(i) => {
                let last = self.items.len() - 1;
                self.state.selected = None;
                let item = self.items.swap_remove(i);
                self.items.push(item);
                self.state.selected = Some(Selectable::Item(last));
                proof {
                    assert(self.items@ =~= raised(old(self)@.items, i as int));
                }
            },
            Selectable::Board => {
                self.state.selected = Some(Selectable::Board);
            },
        }
    }

    /// The index of the first item that is hit, where `hits` says of each
    /// item, in the order of the list, whether the pointer is on it.
    pub fn select(&self, hits: &Vec<bool>) -> (r: Option<usize>)
        ensures
            is_first_hit(hits@, self@.items.len() as int, r),
    {
        let mut i: usize = 0;
        while i < self.items.len() && i < hits.len()
            invariant
                forall|j: int| 0 <= j < i ==> !hits@[j],
            decreases hits.len() - i,
        {
            if hits[i] {
                return Some(i);
            }
            i += 1;
        }
        None
    }

    /// A press of a button at `world`, with `hits` as for [`Board::select`].
    pub fn press(&mut self, button: Button, world: (Scalar, Scalar), hits: &Vec<bool>) -> (hit:
        Option<usize>)
        ensures
            old(self).wf() ==> final(self).wf(),
            is_first_hit(hits@, old(self)@.items.len() as int, hit),
            final(self)@ == pressed(old(self)@, button, world, hit),
    {
        let hit = self.select(hits);
        let other = match button {
            Button::Other => true,
            _ => false,
        };
        if self.state.selected.is_none() && !other {
            self.set_last_press(world);
            match hit {
                Some(i) => self.set_selection(Selectable::Item(i)),
                None => self.set_selection(Selectable::Board),
            }
        }
        hit
    }

    /// One frame. Nothing stays selected once every button is up. The result
    /// says what the pointer's movement does in this frame; on a well-formed
    /// board an index in it names an item of the list.
    pub fn manage(&mut self, p: Pointer) -> (m: Motion)
        ensures
            old(self).wf() ==> final(self).wf(),
            m == route(old(self)@.state.selected, p),
            old(self).wf() ==> (target(m) matches Some(i) ==> i < old(self)@.items.len()),
            final(self)@.items == old(self)@.items,
            final(self)@.camera == old(self)@.camera,
            final(self)@.state == (BoardState {
                selected: held(old(self)@.state.selected, p),
                ..old(self)@.state
            }),
    {
        if (!p.primary && !p.secondary) || self.state.selected.is_none() {
            self.state.selected = None;
            return Motion::Rest;
        }
        match self.state.selected {
            Some(Selectable::Item(i)) => {
                if p.scale_key || (p.primary && p.secondary) {
                    Motion::Scale(i)
                } else if p.rotate_key || (p.secondary && !p.primary) {
                    Motion::Rotate(i)
                } else {
                    Motion::Translate(i)
                }
            },
            Some(Selectable::Board) => {
                if p.primary && p.secondary {
                    Motion::Zoom
                } else if p.primary {
                    Motion::Pivot
                } else {
                    Motion::Glide
                }
            },
            None => Motion::Rest,
        }
    }

    /// Where the pointer was last pressed, in world units.
    pub fn last_press(&self) -> (p: (Scalar, Scalar))
        ensures
            p == self@.state.last_press,
    {
        self.state.last_press
    }

    /// What is selected.
    pub fn selected(&self) -> (s: Option<Selectable>)
        ensures
            s == self@.state.selected,
    {
        self.state.selected
    }

    /// The colours of the background and of the text.
    pub fn colours(&self) -> (c: (Colour, Colour))
        ensures
            c == self@.state.colours,
    {
        self.state.colours
    }

    /// Takes the item at `i` off the board and clears the selection. The
    /// result names the cache entry that the caller evicts: that of the item
    /// if it was an image, none if it was a text.
    pub fn remove(&mut self, i: usize) -> (evict: Option<String>)
        requires
            i < old(self)@.items.len(),
        ensures
            final(self).wf(),
            final(self)@.items == old(self)@.items.remove(i as int),
            final(self)@.items.len() == old(self)@.items.len() - 1,
            final(self)@.camera == old(self)@.camera,
            final(self)@.state == (BoardState { selected: None, ..old(self)@.state }),
            match old(self)@.items[i as int] {
                Item::Image(image) => evict matches Some(name) && is_last_segment(
                    image.kind@.argument(),
                    name@,
                ),
                Item::Text(_) => evict is None,
            },
    {
        self.state.selected = None;
        let item = self.items.remove(i);
        match item {
            Item::Image(image) => Some(image.kind.cache_key().to_owned()),
            Item::Text(_) => None,
        }
    }

    /// Moves the item at `i` to `pos`. Without such an item nothing
    /// changes, and the result says so.
    pub fn set_item_position(&mut self, i: usize, pos: (Scalar, Scalar)) -> (done: bool)
        ensures
            old(self).wf() ==> final(self).wf(),
            done == (i < old(self)@.items.len()),
            final(self)@.camera == old(self)@.camera,
            final(self)@.state == old(self)@.state,
            final(self)@.items == (if done {
                old(self)@.items.update(i as int, old(self)@.items[i as int].moved(pos))
            } else {
                old(self)@.items
            }),
    {
        if i >= self.items.len() {
            return false;
        }
        match &mut self.items[i] {
            Item::Text(t) => {
                t.position = pos;
            },
            Item::Image(image) => {
                image.position = pos;
            },
        }
        true
    }

    /// Gives the item at `i` the scale `scale`; a text takes the first
    /// component. Without such an item nothing changes, and the result says
    /// so.
    pub fn set_item_scale(&mut self, i: usize, scale: (Scalar, Scalar)) -> (done: bool)
        ensures
            old(self).wf() ==> final(self).wf(),
            done == (i < old(self)@.items.len()),
            final(self)@.camera == old(self)@.camera,
            final(self)@.state == old(self)@.state,
            final(self)@.items == (if done {
                old(self)@.items.update(i as int, old(self)@.items[i as int].scaled(scale))
            } else {
                old(self)@.items
            }),
    {
        if i >= self.items.len() {
            return false;
        }
        match &mut self.items[i] {
            Item::Text(t) => {
                t.scale = scale.0;
            },
            Item::Image(image) => {
                image.scale = scale;
            },
        }
        true
    }

    /// Turns the item at `i` to `rotation`. Without such an item nothing
    /// changes, and the result says so.
    pub fn set_item_rotation(&mut self, i: usize, rotation: Scalar) -> (done: bool)
        ensures
            old(self).wf() ==> final(self).wf(),
            done == (i < old(self)@.items.len()),
            final(self)@.camera == old(self)@.camera,
            final(self)@.state == old(self)@.state,
            final(self)@.items == (if done {
                old(self)@.items.update(i as int, old(self)@.items[i as int].turned(rotation))
            } else {
                old(self)@.items
            }),
    {
        if i >= self.items.len() {
            return false;
        }
        match &mut self.items[i] {
            Item::Text(t) => {
                t.rotation = rotation;
            },
            Item::Image(image) => {
                image.rotation = rotation;
            },
        }
        true
    }

    /// The index that a request to remove the selection acts on: that of the
    /// selected item, none while the camera or nothing is selected.
    pub fn removal_target(&self) -> (r: Option<usize>)
        ensures
            r == (match self@.state.selected {
                Some(Selectable::Item(i)) => Some(i),
                _ => None,
            }),
            self.wf() ==> (r matches Some(i) ==> i < self@.items.len()),
    {
        match self.state.selected {
            Some(Selectable::Item(i)) => Some(i),
            _ => None,
        }
    }

    /// Whether the item at `i` is the selected one.
    pub fn is_selected(&self, i: usize) -> (b: bool)
        ensures
            b == (self@.state.selected == Some(Selectable::Item(i))),
    {
        match self.state.selected {
            Some(Selectable::Item(s)) => s == i,
            _ => false,
        }
    }

    /// The camera.
    pub fn camera(&self) -> (c: Camera)
        ensures
            c == self@.camera,
    {
        self.camera
    }

    /// Replaces the camera.
    pub fn set_camera(&mut self, camera: Camera)
        ensures
            old(self).wf() ==> final(self).wf(),
            final(self)@ == (BoardView { camera, ..old(self)@ }),
    {
        self.camera = camera;
    }

    /// The item at `i`, if there is one.
    pub fn get(&self, i: usize) -> (r: Option<&Item>)
        ensures
            r is Some == (i < self@.items.len()),
            r matches Some(item) ==> *item == self@.items[i as int],
    {
        if i < self.items.len() {
            Some(&self.items[i])
        } else {
            None
        }
    }

    /// The number of items.
    pub fn len(&self) -> (n: usize)
        ensures
            n == self@.items.len(),
    {
        self.items.len()
    }

    /// The items in drawing order, which is the order in which they are
    /// saved.
    pub fn items(&self) -> (r: &Vec<Item>)
        ensures
            r@ == self@.items,
    {
        &self.items
    }

    pub fn set_colours(&mut self, c: (Colour, Colour))
        ensures
            old(self).wf() ==> final(self).wf(),
            final(self)@.items == old(self)@.items,
            final(self)@.camera == old(self)@.camera,
            final(self)@.state == (BoardState { colours: c, ..old(self)@.state }),
    {
        self.state.colours = c;
    }

    /// Records where the pointer was pressed, in world units.
    pub fn set_last_press(&mut self, p: (Scalar, Scalar))
        ensures
            old(self).wf() ==> final(self).wf(),
            final(self)@.items == old(self)@.items,
            final(self)@.camera == old(self)@.camera,
            final(self)@.state == (BoardState { last_press: p, ..old(self)@.state }),
    {
        self.state.last_press = p;
    }
}

/// A frame is idempotent: a second frame with the same pointer state routes
/// the movement as the first did and leaves the selection as the first left
/// it.
pub proof fn lemma_frame_idempotent(selected: Option<Selectable>, p: Pointer)
    ensures
        held(held(selected, p), p) == held(selected, p),
        route(held(selected, p), p) == route(selected, p),
{
}

} // verus!
