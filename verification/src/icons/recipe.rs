//! What classification hands on: the recipe of an icon file, the job that
//! builds it, and the errors of a build.

use vstd::prelude::*;
use crate::cache::CacheError;
use crate::icons::kind::IconKind;
use crate::text::{decimal_digits, join, join_strings, views, chars_of, string_of, push_str};

verus! {

/// How one icon file is made from resources, over plain character sequences.
pub enum RecipeView {
    /// The resource itself, copied or encoded anew as PNG or, where `jpeg`
    /// holds, as JPEG.
    Copy { resource: Seq<char>, jpeg: bool },
    /// The icon with the tech-tier overlay on it.
    Tech { icon: Seq<char>, tech: Seq<char> },
    /// The icon on a blueprint background, under the corner overlay and,
    /// where there is one, the tech-tier overlay `tier`.
    Blueprint { background: Seq<char>, overlay: Seq<char>, icon: Seq<char>, tier: Option<Seq<char>> },
}

/// How one icon file is made from resources.
#[derive(Debug)]
pub enum Recipe {
    /// The resource itself, copied or encoded anew as PNG or, where `jpeg`
    /// holds, as JPEG.
    Copy { resource: String, jpeg: bool },
    /// The icon with the tech-tier overlay on it.
    Tech { icon: String, tech: String },
    /// The icon on a blueprint background, under the corner overlay and,
    /// where there is one, the tech-tier overlay `tier`.
    Blueprint { background: String, overlay: String, icon: String, tier: Option<String> },
}

impl View for Recipe {
    type V = RecipeView;

    open spec fn view(&self) -> RecipeView {
        match *self {
            Recipe::Copy { resource, jpeg } => RecipeView::Copy { resource: resource@, jpeg },
            Recipe::Tech { icon, tech } => RecipeView::Tech { icon: icon@, tech: tech@ },
            Recipe::Blueprint { background, overlay, icon, tier } => RecipeView::Blueprint {
                background: background@,
                overlay: overlay@,
                icon: icon@,
                tier: match tier {
                    Some(t) => Some(t@),
                    None => None,
                },
            },
        }
    }
}

/// One icon file to have in the cache, over plain character sequences.
pub struct JobView {
    /// The kinds that the file serves for its type.
    pub kinds: Seq<IconKind>,
    /// The content-addressed name of the file.
    pub filename: Seq<char>,
    /// How the file is made.
    pub recipe: RecipeView,
}

/// One icon file to have in the cache.
#[derive(Debug)]
pub struct IconJob {
    /// The kinds that the file serves for its type.
    pub kinds: Vec<IconKind>,
    /// The content-addressed name of the file.
    pub filename: String,
    /// How the file is made.
    pub recipe: Recipe,
}

impl View for IconJob {
    type V = JobView;

    open spec fn view(&self) -> JobView {
        JobView { kinds: self.kinds@, filename: self.filename@, recipe: self.recipe@ }
    }
}

/// The views of the jobs of `v`, in order.
pub open spec fn job_views(v: Seq<IconJob>) -> Seq<JobView> {
    v.map_values(|j: IconJob| j@)
}

/// Why the classification of a type fails.
pub enum Failure {
    /// The group of the type has no category.
    GroupWithoutCategory(u32),
    /// The icon of the type has no file.
    UnknownIcon(u32),
    /// The store lacks a resource whose hash is needed; holds its normalized
    /// key.
    ResourceNotFound(Seq<char>),
}

/// What can go wrong in an icon build.
#[derive(Debug)]
pub enum IconError {
    /// The resource store reported an error.
    Cache(CacheError),
    /// The data of the build contradicts itself; holds the message.
    String(String),
    /// The record of the last build is not text.
    CorruptIndex,
    /// A manifest could not be written as JSON.
    Manifest,
    /// The image library could not read or write an image.
    Image(image::ImageError),
    /// The corner overlay of a blueprint does not fit its background.
    Dimensions,
}

impl IconError {
    /// Whether this error reports the failure `f`.
    pub open spec fn reports(&self, f: Failure) -> bool {
        match (*self, f) {
            (IconError::String(s), Failure::GroupWithoutCategory(g)) => s@
                == "group without category: "@ + decimal_digits(g as nat),
            (IconError::String(s), Failure::UnknownIcon(i)) => s@ == "unknown icon id: "@
                + decimal_digits(i as nat),
            (IconError::Cache(CacheError::ResourceNotFound(k)), Failure::ResourceNotFound(key)) => k@
                == key,
            _ => false,
        }
    }

    /// The message of an error. An error of the image library has one
    /// message, whatever the library says of it.
    pub open spec fn spec_message(&self) -> Seq<char> {
        match *self {
            IconError::String(m) => m@,
            IconError::Cache(e) => e.spec_message(),
            IconError::CorruptIndex => "corrupt cache index"@,
            IconError::Manifest => "manifest could not be written"@,
            IconError::Image(_) => "image could not be read or written"@,
            IconError::Dimensions => "Image dimensions do not match"@,
        }
    }

    /// The message of this error.
    pub fn message(&self) -> (s: String)
        ensures
            s@ == self.spec_message(),
    {
        match self {
            IconError::String(m) => m.clone(),
            IconError::Cache(e) => e.message(),
            IconError::CorruptIndex => "corrupt cache index".to_owned(),
            IconError::Manifest => "manifest could not be written".to_owned(),
            IconError::Image(_) => "image could not be read or written".to_owned(),
            IconError::Dimensions => "Image dimensions do not match".to_owned(),
        }
    }
}

/// The name of the cache file that is made of the given parts: the parts
/// with a semicolon between each two, then the extension with its dot.
pub open spec fn cache_filename(parts: Seq<Seq<char>>, ext: Seq<char>) -> Seq<char> {
    join(parts, ';') + ext
}

/// The name of the cache file that is made of the given parts: a tag, where
/// the recipe has one, and the content hash of each resource that the recipe
/// reads, in the order of the recipe.
pub fn make_cache_filename(parts: &Vec<String>, ext: &str) -> (s: String)
    ensures
        s@ == cache_filename(views(parts@), ext@),
{
    let joined = join_strings(parts, ';');
    let mut out = chars_of(joined.as_str());
    push_str(&mut out, ext);
    string_of(&out)
}

} // verus!
