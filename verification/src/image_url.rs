//! Construction of TMDB image URLs from file paths.
use vstd::prelude::*;
use vstd::string::StringExecFns;

use crate::text::owned;

verus! {

/// The base of every TMDB image URL.
pub open spec fn image_base_url() -> Seq<char> {
    "https://image.tmdb.org/t/p/"@
}

/// Poster image sizes available from TMDB.
#[derive(Debug, Clone, Copy, PartialEq, Eq, Structural)]
pub enum PosterSize {
    /// `w92`.
    W92,
    /// `w154`.
    W154,
    /// `w185`.
    W185,
    /// `w342`.
    W342,
    /// `w500`.
    W500,
    /// `w780`.
    W780,
    /// `original`.
    Original,
}

/// The path segment of a poster size.
pub open spec fn poster_size_text(s: PosterSize) -> Seq<char> {
    match s {
        PosterSize::W92 => "w92"@,
        PosterSize::W154 => "w154"@,
        PosterSize::W185 => "w185"@,
        PosterSize::W342 => "w342"@,
        PosterSize::W500 => "w500"@,
        PosterSize::W780 => "w780"@,
        PosterSize::Original => "original"@,
    }
}

impl PosterSize {
    /// The path segment of this size.
    pub fn as_str(&self) -> (r: &'static str)
        ensures
            r@ == poster_size_text(*self),
    {
        match self {
            PosterSize::W92 => "w92",
            PosterSize::W154 => "w154",
            PosterSize::W185 => "w185",
            PosterSize::W342 => "w342",
            PosterSize::W500 => "w500",
            PosterSize::W780 => "w780",
            PosterSize::Original => "original",
        }
    }
}

/// Backdrop image sizes available from TMDB.
#[derive(Debug, Clone, Copy, PartialEq, Eq, Structural)]
pub enum BackdropSize {
    /// `w300`.
    W300,
    /// `w780`.
    W780,
    /// `w1280`.
    W1280,
    /// `original`.
    Original,
}

/// The path segment of a backdrop size.
pub open spec fn backdrop_size_text(s: BackdropSize) -> Seq<char> {
    match s {
        BackdropSize::W300 => "w300"@,
        BackdropSize::W780 => "w780"@,
        BackdropSize::W1280 => "w1280"@,
        BackdropSize::Original => "original"@,
    }
}

impl BackdropSize {
    /// The path segment of this size.
    pub fn as_str(&self) -> (r: &'static str)
        ensures
            r@ == backdrop_size_text(*self),
    {
        match self {
            BackdropSize::W300 => "w300",
            BackdropSize::W780 => "w780",
            BackdropSize::W1280 => "w1280",
            BackdropSize::Original => "original",
        }
    }
}

/// Profile (person) image sizes available from TMDB.
#[derive(Debug, Clone, Copy, PartialEq, Eq, Structural)]
pub enum ProfileSize {
    /// `w45`.
    W45,
    /// `w185`.
    W185,
    /// `h632`.
    H632,
    /// `original`.
    Original,
}

/// The path segment of a profile size.
pub open spec fn profile_size_text(s: ProfileSize) -> Seq<char> {
    match s {
        ProfileSize::W45 => "w45"@,
        ProfileSize::W185 => "w185"@,
        ProfileSize::H632 => "h632"@,
        ProfileSize::Original => "original"@,
    }
}

impl ProfileSize {
    /// The path segment of this size.
    pub fn as_str(&self) -> (r: &'static str)
        ensures
            r@ == profile_size_text(*self),
    {
        match self {
            ProfileSize::W45 => "w45",
            ProfileSize::W185 => "w185",
            ProfileSize::H632 => "h632",
            ProfileSize::Original => "original",
        }
    }
}

/// Still (episode) image sizes available from TMDB.
#[derive(Debug, Clone, Copy, PartialEq, Eq, Structural)]
pub enum StillSize {
    /// `w92`.
    W92,
    /// `w185`.
    W185,
    /// `w300`.
    W300,
    /// `original`.
    Original,
}

/// The path segment of a still size.
pub open spec fn still_size_text(s: StillSize) -> Seq<char> {
    match s {
        StillSize::W92 => "w92"@,
        StillSize::W185 => "w185"@,
        StillSize::W300 => "w300"@,
        StillSize::Original => "original"@,
    }
}

impl StillSize {
    /// The path segment of this size.
    pub fn as_str(&self) -> (r: &'static str)
        ensures
            r@ == still_size_text(*self),
    {
        match self {
            StillSize::W92 => "w92",
            StillSize::W185 => "w185",
            StillSize::W300 => "w300",
            StillSize::Original => "original",
        }
    }
}

/// Logo image sizes available from TMDB.
#[derive(Debug, Clone, Copy, PartialEq, Eq, Structural)]
pub enum LogoSize {
    /// `w45`.
    W45,
    /// `w92`.
    W92,
    /// `w154`.
    W154,
    /// `w185`.
    W185,
    /// `w300`.
    W300,
    /// `w500`.
    W500,
    /// `original`.
    Original,
}

/// The path segment of a logo size.
pub open spec fn logo_size_text(s: LogoSize) -> Seq<char> {
    match s {
        LogoSize::W45 => "w45"@,
        LogoSize::W92 => "w92"@,
        LogoSize::W154 => "w154"@,
        LogoSize::W185 => "w185"@,
        LogoSize::W300 => "w300"@,
        LogoSize::W500 => "w500"@,
        LogoSize::Original => "original"@,
    }
}

impl LogoSize {
    /// The path segment of this size.
    pub fn as_str(&self) -> (r: &'static str)
        ensures
            r@ == logo_size_text(*self),
    {
        match self {
            LogoSize::W45 => "w45",
            LogoSize::W92 => "w92",
            LogoSize::W154 => "w154",
            LogoSize::W185 => "w185",
            LogoSize::W300 => "w300",
            LogoSize::W500 => "w500",
            LogoSize::Original => "original",
        }
    }
}

/// Helper for constructing TMDB image URLs from file paths.
pub struct ImageUrl;

/// An image URL: the base, the size segment, then the raw path.
pub open spec fn image_url(size: Seq<char>, path: Seq<char>) -> Seq<char> {
    image_base_url() + size + path
}

fn build_url(size: &str, path: &str) -> (r: String)
    ensures
        r@ == image_url(size@, path@),
{
    let mut s = owned("https://image.tmdb.org/t/p/");
    s.append(size);
    s.append(path);
    s
}

impl ImageUrl {
    /// Build a full poster image URL.
    ///
    /// `path` is the raw path from the API (e.g. `"/pB8BM7pdSp6B6Ih7QZ4DrQ3PmJK.jpg"`).
    pub fn poster(path: &str, size: PosterSize) -> (r: String)
        ensures
            r@ == image_url(poster_size_text(size), path@),
    {
        build_url(size.as_str(), path)
    }

    /// Build a full backdrop image URL.
    pub fn backdrop(path: &str, size: BackdropSize) -> (r: String)
        ensures
            r@ == image_url(backdrop_size_text(size), path@),
    {
        build_url(size.as_str(), path)
    }

    /// Build a full profile (person) image URL.
    pub fn profile(path: &str, size: ProfileSize) -> (r: String)
        ensures
            r@ == image_url(profile_size_text(size), path@),
    {
        build_url(size.as_str(), path)
    }

    /// Build a full still (episode) image URL.
    pub fn still(path: &str, size: StillSize) -> (r: String)
        ensures
            r@ == image_url(still_size_text(size), path@),
    {
        build_url(size.as_str(), path)
    }

    /// Build a full logo image URL.
    pub fn logo(path: &str, size: LogoSize) -> (r: String)
        ensures
            r@ == image_url(logo_size_text(size), path@),
    {
        build_url(size.as_str(), path)
    }

}

} // verus!
