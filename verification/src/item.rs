//! Items: what is pinned to the board, with its place, size and turn.

use vstd::prelude::*;
use crate::reference::{is_last_segment, type_of, ImageType};

verus! {

/// A single-precision number, carried as its bit pattern. The library stores
/// and moves such numbers exactly; arithmetic on them is the caller's.
#[derive(Debug, Clone, Copy, PartialEq, Eq, Structural)]
pub struct Scalar {
    pub bits: u32,
}

impl Scalar {
    /// The number zero.
    pub open spec fn spec_zero() -> Scalar {
        Scalar { bits: 0 }
    }

    /// The number one.
    pub open spec fn spec_one() -> Scalar {
        Scalar { bits: 0x3F80_0000 }
    }

    /// The number one hundred.
    pub open spec fn spec_hundred() -> Scalar {
        Scalar { bits: 0x42C8_0000 }
    }

    #[verifier::when_used_as_spec(spec_zero)]
    pub fn zero() -> (r: Scalar)
        ensures
            r == Scalar::spec_zero(),
    {
        Scalar { bits: 0 }
    }

    #[verifier::when_used_as_spec(spec_one)]
    pub fn one() -> (r: Scalar)
        ensures
            r == Scalar::spec_one(),
    {
        Scalar { bits: 0x3F80_0000 }
    }

    #[verifier::when_used_as_spec(spec_hundred)]
    pub fn hundred() -> (r: Scalar)
        ensures
            r == Scalar::spec_hundred(),
    {
        Scalar { bits: 0x42C8_0000 }
    }
}

/// An image on the board.
#[derive(Debug, PartialEq, Eq)]
pub struct ItemImage {
    /// The key under which the caller keeps the decoded pixels. It is absent
    /// while the image has not been loaded, and it is never stored.
    pub handle: Option<u64>,
    /// Where the image stands, in world units.
    pub position: (Scalar, Scalar),
    /// Its scale along each axis.
    pub scale: (Scalar, Scalar),
    /// Its rotation, in radians.
    pub rotation: Scalar,
    /// Where its pixels come from.
    pub kind: ImageType,
}

/// A piece of text on the board.
#[derive(Debug, PartialEq, Eq)]
pub struct ItemText {
    pub text: String,
    /// Where the text stands, in world units.
    pub position: (Scalar, Scalar),
    /// Its scale, the same along both axes.
    pub scale: Scalar,
    /// Its rotation, in radians.
    pub rotation: Scalar,
}

/// What can be pinned to the board.
#[derive(Debug, PartialEq, Eq)]
pub enum Item {
    Image(ItemImage),
    Text(ItemText),
}

impl Clone for ItemImage {
    fn clone(&self) -> (r: ItemImage)
        ensures
            r == *self,
    {
        ItemImage {
            handle: self.handle,
            position: self.position,
            scale: self.scale,
            rotation: self.rotation,
            kind: self.kind.clone(),
        }
    }
}

impl Clone for ItemText {
    fn clone(&self) -> (r: ItemText)
        ensures
            r == *self,
    {
        ItemText {
            text: self.text.clone(),
            position: self.position,
            scale: self.scale,
            rotation: self.rotation,
        }
    }
}

impl Clone for Item {
    fn clone(&self) -> (r: Item)
        ensures
            r == *self,
    {
        match self {
            Item::Image(i) => Item::Image(i.clone()),
            Item::Text(t) => Item::Text(t.clone()),
        }
    }
}

impl ItemImage {
    /// An image at the origin, at its native size and unturned, whose pixels
    /// the caller keeps under `handle`.
    pub fn new(handle: u64, argument: &str) -> (r: ItemImage)
        ensures
            r.handle == Some(handle),
            r.position == (Scalar::zero(), Scalar::zero()),
            r.scale == (Scalar::one(), Scalar::one()),
            r.rotation == Scalar::zero(),
            r.kind@ == type_of(argument@),
    {
        ItemImage {
            handle: Some(handle),
            position: (Scalar::zero(), Scalar::zero()),
            scale: (Scalar::one(), Scalar::one()),
            rotation: Scalar::zero(),
            kind: ImageType::type_from_argument(argument),
        }
    }

    /// The key of the pixels of a loaded image.
    pub fn handle(&self) -> (h: u64)
        requires
            self.handle is Some,
        ensures
            self.handle == Some(h),
    {
        match self.handle {
            Some(h) => h,
            None => 0,
        }
    }
}

impl ItemText {
    /// A text at the origin, a hundred units high and unturned.
    pub fn new(text: String) -> (r: ItemText)
        ensures
            r == (ItemText {
                text,
                position: (Scalar::zero(), Scalar::zero()),
                scale: Scalar::hundred(),
                rotation: Scalar::zero(),
            }),
    {
        ItemText {
            text,
            position: (Scalar::zero(), Scalar::zero()),
            scale: Scalar::hundred(),
            rotation: Scalar::zero(),
        }
    }
}

impl Item {
    /// Where the item stands.
    pub open spec fn position(self) -> (Scalar, Scalar) {
        match self {
            Item::Image(i) => i.position,
            Item::Text(t) => t.position,
        }
    }

    /// The item's scale along each axis. A text has the same along both.
    pub open spec fn scale(self) -> (Scalar, Scalar) {
        match self {
            Item::Image(i) => i.scale,
            Item::Text(t) => (t.scale, t.scale),
        }
    }

    /// The item's rotation.
    pub open spec fn rotation(self) -> Scalar {
        match self {
            Item::Image(i) => i.rotation,
            Item::Text(t) => t.rotation,
        }
    }

    /// The item moved to `pos`.
    pub open spec fn moved(self, pos: (Scalar, Scalar)) -> Item {
        match self {
            Item::Image(i) => Item::Image(ItemImage { position: pos, ..i }),
            Item::Text(t) => Item::Text(ItemText { position: pos, ..t }),
        }
    }

    /// The item with the scale `scale`. A text takes the first component and
    /// ignores the second.
    pub open spec fn scaled(self, scale: (Scalar, Scalar)) -> Item {
        match self {
            Item::Image(i) => Item::Image(ItemImage { scale, ..i }),
            Item::Text(t) => Item::Text(ItemText { scale: scale.0, ..t }),
        }
    }

    /// The item turned to `rotation`.
    pub open spec fn turned(self, rotation: Scalar) -> Item {
        match self {
            Item::Image(i) => Item::Image(ItemImage { rotation, ..i }),
            Item::Text(t) => Item::Text(ItemText { rotation, ..t }),
        }
    }

    pub fn with_position(self, pos: (Scalar, Scalar)) -> (r: Item)
        ensures
            r == self.moved(pos),
    {
        match self {
            Item::Text(mut t) => {
                t.position = pos;
                Item::Text(t)
            },
            Item::Image(mut i) => {
                i.position = pos;
                Item::Image(i)
            },
        }
    }

    /// For a text only the first component of `scale` is used.
    pub fn with_scale(self, scale: (Scalar, Scalar)) -> (r: Item)
        ensures
            r == self.scaled(scale),
    {
        match self {
            Item::Text(mut t) => {
                t.scale = scale.0;
                Item::Text(t)
            },
            Item::Image(mut i) => {
                i.scale = scale;
                Item::Image(i)
            },
        }
    }

    pub fn with_rotation(self, rotation: Scalar) -> (r: Item)
        ensures
            r == self.turned(rotation),
    {
        match self {
            Item::Text(mut t) => {
                t.rotation = rotation;
                Item::Text(t)
            },
            Item::Image(mut i) => {
                i.rotation = rotation;
                Item::Image(i)
            },
        }
    }

    /// The name of the cache entry that holds the item's pixels; a text has
    /// none.
    pub fn cache_key(&self) -> (name: Option<&str>)
        ensures
            match self {
                Item::Image(i) => name matches Some(n) && is_last_segment(
                    i.kind@.argument(),
                    n@,
                ),
                Item::Text(_) => name is None,
            },
    {
        match self {
            Item::Image(i) => Some(i.kind.cache_key()),
            Item::Text(_) => None,
        }
    }

    /// The name of the item's variant, as it is shown to the user.
    pub fn kind_name(&self) -> (name: &'static str)
        ensures
            name@ == (if self is Text {
                "Text"@
            } else {
                "Image"@
            }),
    {
        match self {
            Item::Text(_) => "Text",
            Item::Image(_) => "Image",
        }
    }
}

} // verus!
