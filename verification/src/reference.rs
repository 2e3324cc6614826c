//! Image references: the durable string that names an image's source, and the
//! rule that tells a direct image address from a page and from a local path.

use vstd::prelude::*;
use crate::text::{chars_of, has_prefix, has_suffix};

verus! {

/// Where an image comes from. Each variant carries the reference as the user
/// gave it.
#[derive(Debug, PartialEq, Eq)]
pub enum ImageType {
    /// The address of a page that has to be searched for an image.
    Web(String),
    /// The address of an image.
    Online(String),
    /// A path on the local file system.
    Local(String),
}

/// The mathematical value of an [`ImageType`].
pub enum ImageRef {
    Web(Seq<char>),
    Online(Seq<char>),
    Local(Seq<char>),
}

impl ImageRef {
    /// The reference that the value carries.
    pub open spec fn argument(self) -> Seq<char> {
        match self {
            ImageRef::Web(url) => url,
            ImageRef::Online(url) => url,
            ImageRef::Local(path) => path,
        }
    }
}

impl Clone for ImageType {
    fn clone(&self) -> (r: ImageType)
        ensures
            r == *self,
    {
        match self {
            ImageType::Web(url) => ImageType::Web(url.clone()),
            ImageType::Online(url) => ImageType::Online(url.clone()),
            ImageType::Local(path) => ImageType::Local(path.clone()),
        }
    }
}

impl View for ImageType {
    type V = ImageRef;

    open spec fn view(&self) -> ImageRef {
        match self {
            ImageType::Web(url) => ImageRef::Web(url@),
            ImageType::Online(url) => ImageRef::Online(url@),
            ImageType::Local(path) => ImageRef::Local(path@),
        }
    }
}

/// The text begins with the scheme token of a web address.
pub open spec fn is_http(s: Seq<char>) -> bool {
    "http"@.is_prefix_of(s)
}

/// The text ends with one of the raster extensions.
pub open spec fn is_raster(s: Seq<char>) -> bool {
    ".png"@.is_suffix_of(s) || ".jpg"@.is_suffix_of(s) || ".jpeg"@.is_suffix_of(s)
        || ".gif"@.is_suffix_of(s)
}

/// The text begins at the root of the file system.
pub open spec fn is_rooted(s: Seq<char>) -> bool {
    "/"@.is_prefix_of(s)
}

/// The classification rule: a web address with a raster extension is an
/// image, any other web address is a page, a rooted path is a local file, and
/// nothing else is an image reference.
pub open spec fn classify(s: Seq<char>) -> Option<ImageRef> {
    if is_http(s) {
        if is_raster(s) {
            Some(ImageRef::Online(s))
        } else {
            Some(ImageRef::Web(s))
        }
    } else if is_rooted(s) {
        Some(ImageRef::Local(s))
    } else {
        None
    }
}

/// What [`ImageType::type_from_argument`] makes of a text: its class, or a
/// local reference with an empty path where it has none.
pub open spec fn type_of(s: Seq<char>) -> ImageRef {
    match classify(s) {
        Some(kind) => kind,
        None => ImageRef::Local(Seq::empty()),
    }
}

/// `name` is what follows the last `/` of `path`: all of `path` where it
/// holds no `/`.
pub open spec fn is_last_segment(path: Seq<char>, name: Seq<char>) -> bool {
    &&& name.is_suffix_of(path)
    &&& !name.contains('/')
    &&& name.len() < path.len() ==> path[path.len() - name.len() - 1] == '/'
}

/// The text is a web address that ends with a raster extension.
pub fn is_direct_image(argument: &str) -> (b: bool)
    ensures
        b == (is_http(argument@) && is_raster(argument@)),
{
    let s = chars_of(argument);
    has_prefix(&s, &chars_of("http")) && (has_suffix(&s, &chars_of(".png")) || has_suffix(
        &s,
        &chars_of(".jpg"),
    ) || has_suffix(&s, &chars_of(".jpeg")) || has_suffix(&s, &chars_of(".gif")))
}

/// The name under which the image behind `path` is cached: what follows the
/// last `/`.
pub fn name_from_path(path: &str) -> (name: &str)
    ensures
        is_last_segment(path@, name@),
{
    let s = chars_of(path);
    let mut start: usize = s.len();
    while start > 0 && s[start - 1] != '/'
        invariant
            start <= s.len(),
            forall|j: int| start <= j < s.len() ==> s@[j] != '/',
        decreases start,
    {
        start -= 1;
    }
    let name = path.substring_char(start, s.len());
    assert(name@ =~= path@.subrange((path@.len() - name@.len()) as int, path@.len() as int));
    name
}

impl ImageType {
    /// Classifies a text; `None` where it is no image reference.
    pub fn classify(argument: &str) -> (r: Option<ImageType>)
        ensures
            r is Some == classify(argument@) is Some,
            r matches Some(kind) ==> classify(argument@) == Some(kind@),
    {
        let s = chars_of(argument);
        if has_prefix(&s, &chars_of("http")) {
            if is_direct_image(argument) {
                Some(ImageType::Online(argument.to_owned()))
            } else {
                Some(ImageType::Web(argument.to_owned()))
            }
        } else if has_prefix(&s, &chars_of("/")) {
            Some(ImageType::Local(argument.to_owned()))
        } else {
            None
        }
    }

    /// Classifies a text. One that is no image reference gives a local
    /// reference with an empty path.
    pub fn type_from_argument(argument: &str) -> (r: ImageType)
        ensures
            r@ == type_of(argument@),
    {
        match ImageType::classify(argument) {
            Some(kind) => kind,
            None => ImageType::Local(String::new()),
        }
    }

    /// The reference as it was given.
    pub fn argument(&self) -> (r: &str)
        ensures
            r@ == self@.argument(),
    {
        match self {
            ImageType::Web(url) => url.as_str(),
            ImageType::Online(url) => url.as_str(),
            ImageType::Local(path) => path.as_str(),
        }
    }

    /// The name of the cache entry that holds this image.
    pub fn cache_key(&self) -> (name: &str)
        ensures
            is_last_segment(self@.argument(), name@),
    {
        name_from_path(self.argument())
    }
}

/// A text that is an image reference classifies to a value that carries it
/// unchanged, and classifying what that value carries gives the value again.
pub proof fn lemma_classify_keeps_argument(s: Seq<char>)
    ensures
        classify(s) matches Some(kind) ==> kind.argument() == s && classify(kind.argument())
            == Some(kind),
        type_of(type_of(s).argument()) == type_of(s),
{
    if classify(s) is None {
        reveal_strlit("http");
        reveal_strlit("/");
        let e = Seq::<char>::empty();
        assert(!is_http(e));
        assert(!is_rooted(e));
    }
}

/// A text has exactly one last segment.
pub proof fn lemma_last_segment_unique(path: Seq<char>, a: Seq<char>, b: Seq<char>)
    requires
        is_last_segment(path, a),
        is_last_segment(path, b),
    ensures
        a == b,
{
    if a.len() < b.len() {
        let k = b.len() - a.len() - 1;
        assert(b[k] == path[path.len() - a.len() - 1]);
        assert(b.contains('/'));
    } else if b.len() < a.len() {
        let k = a.len() - b.len() - 1;
        assert(a[k] == path[path.len() - b.len() - 1]);
        assert(a.contains('/'));
    }
    assert(a =~= b);
}

} // verus!
