//! The data model: matches, icons, images and the plugin-wide configuration.
use vstd::prelude::*;
use vstd::std_specs::convert::FromSpecImpl;
use crate::action::Action;
use std::marker::PhantomData;

verus! {

/// The bit pattern of the relevance `1.0`, the weight of a default match.
pub const RELEVANCE_ONE: u64 = 0x3FF0_0000_0000_0000u64;

/// The type of a match.
///
/// The variants are listed by rising confidence that the match is relevant
/// for the user; the number that stands for each on the bus rises with them.
#[derive(Debug, Clone, Copy, PartialEq, Eq, Ord, Structural)]
pub enum MatchType {
    /// Null match.
    NoMatch,
    /// Possible completion for the data of the query.
    CompletionMatch,
    /// Something that may match the query.
    PossibleMatch,
    /// A purely informational, non-runnable match. Deprecated by the host
    /// since KDE Frameworks 5.99.
    InformationalMatch,
    /// A match that represents an action not directly related to activating
    /// the given search term. Never activated implicitly.
    HelperMatch,
    /// An exact match to the query.
    ExactMatch,
}

impl MatchType {
    /// The number that stands for the type on the bus.
    pub open spec fn tag(self) -> int {
        match self {
            MatchType::NoMatch => 0,
            MatchType::CompletionMatch => 10,
            MatchType::PossibleMatch => 30,
            MatchType::InformationalMatch => 50,
            MatchType::HelperMatch => 70,
            MatchType::ExactMatch => 100,
        }
    }

    /// The place of the type in the order of rising confidence.
    pub open spec fn rank(self) -> int {
        match self {
            MatchType::NoMatch => 0,
            MatchType::CompletionMatch => 1,
            MatchType::PossibleMatch => 2,
            MatchType::InformationalMatch => 3,
            MatchType::HelperMatch => 4,
            MatchType::ExactMatch => 5,
        }
    }

    /// The number that stands for the type on the bus, a signed 32-bit
    /// integer.
    pub fn wire_tag(&self) -> (n: i32)
        ensures
            n == self.tag(),
    {
        match self {
            MatchType::NoMatch => 0,
            MatchType::CompletionMatch => 10,
            MatchType::PossibleMatch => 30,
            MatchType::InformationalMatch => 50,
            MatchType::HelperMatch => 70,
            MatchType::ExactMatch => 100,
        }
    }

    /// The numbers on the bus order the types as their confidence does, so
    /// two types with one number are one type.
    pub proof fn lemma_tag_follows_rank(a: MatchType, b: MatchType)
        ensures
            a.rank() < b.rank() <==> a.tag() < b.tag(),
            a.tag() == b.tag() <==> a == b,
    {
    }
}

/// The image formats that the host accepts for inline icons.
#[derive(Debug, Clone, Copy, PartialEq, Eq, Structural)]
pub enum ImageFormat {
    /// 32-bit ARGB.
    Argb32,
    /// 32-bit RGB.
    Rgb32,
}

impl ImageFormat {
    /// Bits in one sample of a pixel.
    pub open spec fn sample_bits(self) -> int {
        8
    }

    /// Number of colour channels of the format.
    pub open spec fn channel_count(self) -> int {
        match self {
            ImageFormat::Argb32 => 4,
            ImageFormat::Rgb32 => 3,
        }
    }

    /// Bits in one sample of a pixel: eight in both formats.
    pub fn bits_per_sample(&self) -> (n: i32)
        ensures
            n == self.sample_bits(),
    {
        match self {
            ImageFormat::Argb32 | ImageFormat::Rgb32 => 8,
        }
    }

    /// Number of colour channels of the format.
    pub fn channels(&self) -> (n: i32)
        ensures
            n == self.channel_count(),
    {
        match self {
            ImageFormat::Argb32 => 4,
            ImageFormat::Rgb32 => 3,
        }
    }
}

/// Inline raster image data for an icon.
///
/// `data` is meant to hold `height * row_stride` bytes; nothing here checks
/// that, it is the caller's to keep.
#[derive(Debug, Clone, PartialEq, Eq)]
pub struct ImageData {
    /// The width of the image.
    pub width: i32,
    /// The height of the image.
    pub height: i32,
    /// The size of one row in bytes.
    pub row_stride: i32,
    /// Whether the image has an alpha channel.
    pub has_alpha: bool,
    /// The format of the image.
    pub format: ImageFormat,
    /// The pixel bytes.
    pub data: Vec<u8>,
}

/// An image as the bus carries it: the seven fields of the record, in order.
#[derive(Debug, Clone, PartialEq, Eq)]
pub struct RemoteImage {
    pub width: i32,
    pub height: i32,
    pub row_stride: i32,
    pub has_alpha: bool,
    pub bits_per_sample: i32,
    pub channels: i32,
    pub data: Vec<u8>,
}

/// What a `RemoteImage` holds.
pub struct RemoteImageView {
    pub width: int,
    pub height: int,
    pub row_stride: int,
    pub has_alpha: bool,
    pub bits_per_sample: int,
    pub channels: int,
    pub data: Seq<u8>,
}

impl View for RemoteImage {
    type V = RemoteImageView;

    open spec fn view(&self) -> RemoteImageView {
        RemoteImageView {
            width: self.width as int,
            height: self.height as int,
            row_stride: self.row_stride as int,
            has_alpha: self.has_alpha,
            bits_per_sample: self.bits_per_sample as int,
            channels: self.channels as int,
            data: self.data@,
        }
    }
}

impl ImageData {
    /// Whether the pixel bytes fill `height` rows of `row_stride` bytes.
    pub open spec fn well_formed(&self) -> bool {
        self.data@.len() == self.height * self.row_stride
    }

    /// Whether the pixel bytes fill `height` rows of `row_stride` bytes.
    /// Encoding does not ask for it; a caller may.
    pub fn is_well_formed(&self) -> (r: bool)
        ensures
            r == self.well_formed(),
    {
        let height: i64 = self.height as i64;
        let stride: i64 = self.row_stride as i64;
        assert(-0x4000_0000_0000_0000 <= height * stride <= 0x4000_0000_0000_0000) by (nonlinear_arith)
            requires
                -0x8000_0000 <= height <= 0x7fff_ffff,
                -0x8000_0000 <= stride <= 0x7fff_ffff,
        ;
        let expected: i64 = height * stride;
        expected >= 0 && self.data.len() as u64 == expected as u64
    }

    /// The record that the image is sent as: the format gives the sample
    /// size and the channel count, the rest passes through.
    pub open spec fn wire(&self) -> RemoteImageView {
        RemoteImageView {
            width: self.width as int,
            height: self.height as int,
            row_stride: self.row_stride as int,
            has_alpha: self.has_alpha,
            bits_per_sample: self.format.sample_bits(),
            channels: self.format.channel_count(),
            data: self.data@,
        }
    }
}

/// The icon displayed for a match.
#[derive(Debug, Clone, PartialEq, Eq)]
pub enum MatchIcon {
    /// An icon given by its name; the empty name means no icon.
    ByName(String),
    /// An icon given by inline image data.
    Custom(ImageData),
}

impl MatchIcon {
    /// The icon of a match that has none: the empty name.
    pub fn new() -> (r: MatchIcon)
        ensures
            r matches MatchIcon::ByName(n) && n@ == Seq::<char>::empty(),
    {
        MatchIcon::ByName(String::new())
    }

    /// The name that goes into the positional icon field of a match: the
    /// icon's name, or the empty string for inline image data.
    pub open spec fn name(&self) -> Seq<char> {
        match self {
            MatchIcon::ByName(n) => n@,
            MatchIcon::Custom(_) => Seq::<char>::empty(),
        }
    }
}

impl Default for MatchIcon {
    fn default() -> (r: MatchIcon)
        ensures
            r matches MatchIcon::ByName(n) && n@ == Seq::<char>::empty(),
    {
        MatchIcon::new()
    }
}

impl From<String> for MatchIcon {
    fn from(s: String) -> (r: MatchIcon) {
        MatchIcon::ByName(s)
    }
}

impl FromSpecImpl<String> for MatchIcon {
    open spec fn obeys_from_spec() -> bool {
        true
    }

    open spec fn from_spec(s: String) -> MatchIcon {
        MatchIcon::ByName(s)
    }
}

impl From<ImageData> for MatchIcon {
    fn from(i: ImageData) -> (r: MatchIcon) {
        MatchIcon::Custom(i)
    }
}

impl FromSpecImpl<ImageData> for MatchIcon {
    open spec fn obeys_from_spec() -> bool {
        true
    }

    open spec fn from_spec(i: ImageData) -> MatchIcon {
        MatchIcon::Custom(i)
    }
}

/// A filter that a query must pass before the host asks for matches.
#[derive(Debug, PartialEq, Eq)]
pub enum MatchFilter {
    /// Trigger words: a query must start with one of them.
    Keywords(Vec<String>),
    /// A regular expression that a query must satisfy.
    Regex(String),
}

impl MatchFilter {
    /// Whether two filters are of one kind and hold the same text.
    pub open spec fn same_as(&self, other: &MatchFilter) -> bool {
        match (*self, *other) {
            (MatchFilter::Keywords(a), MatchFilter::Keywords(b)) => a@ == b@,
            (MatchFilter::Regex(a), MatchFilter::Regex(b)) => a@ == b@,
            _ => false,
        }
    }
}

impl Clone for MatchFilter {
    fn clone(&self) -> (r: MatchFilter)
        ensures
            self.same_as(&r),
    {
        match self {
            MatchFilter::Keywords(words) => {
                let mut copy: Vec<String> = Vec::new();
                let mut i: usize = 0;
                while i < words.len()
                    invariant
                        i <= words.len(),
                        copy@ == words@.take(i as int),
                    decreases words.len() - i,
                {
                    copy.push(words[i].clone());
                    assert(words@.take(i + 1) =~= words@.take(i as int).push(words@[i as int]));
                    i = i + 1;
                }
                assert(words@.take(words.len() as int) =~= words@);
                MatchFilter::Keywords(copy)
            },
            MatchFilter::Regex(regex) => MatchFilter::Regex(regex.clone()),
        }
    }
}

/// Plugin-wide configuration, queried by the host once per session. The host
/// enforces it; nothing here filters queries.
#[derive(Debug, PartialEq, Eq)]
pub struct Config<A> {
    /// The filter that a query must pass before attempting a match.
    pub match_filter: Option<MatchFilter>,
    /// The minimum length a query must have before attempting a match.
    pub min_letter_count: Option<i32>,
    pub phantom: PhantomData<A>,
}

impl<A> Default for Config<A> {
    fn default() -> (r: Config<A>)
        ensures
            r.match_filter is None,
            r.min_letter_count is None,
    {
        Config { match_filter: None, min_letter_count: None, phantom: PhantomData }
    }
}

impl<A> Clone for Config<A> {
    fn clone(&self) -> (r: Config<A>)
        ensures
            r.min_letter_count == self.min_letter_count,
            match self.match_filter {
                Some(f) => r.match_filter is Some && f.same_as(&r.match_filter->Some_0),
                None => r.match_filter is None,
            },
    {
        let match_filter = match &self.match_filter {
            Some(f) => Some(f.clone()),
            None => None,
        };
        Config { match_filter, min_letter_count: self.min_letter_count, phantom: PhantomData }
    }
}

/// One search result.
#[derive(Debug, Clone, PartialEq)]
pub struct Match<A> {
    /// The token that the host hands back on activation.
    pub id: String,
    /// The main title text.
    pub title: String,
    /// The subtitle, typically a description.
    pub subtitle: Option<String>,
    /// The icon.
    pub icon: MatchIcon,
    /// The type of the match.
    pub ty: MatchType,
    /// The relevance, a sorting weight meant to lie between 0 and 1: the bit
    /// pattern of a 64-bit IEEE 754 number, passed on as it is.
    pub relevance: u64,
    /// URLs associated with the match.
    pub urls: Vec<String>,
    /// The category; without one the host uses the plugin's name.
    pub category: Option<String>,
    /// Whether the text is displayed as a multiline string.
    pub multiline: bool,
    /// The actions that the user can perform on this match.
    pub actions: Vec<A>,
}

impl<A: Action> Default for Match<A> {
    fn default() -> (r: Match<A>)
        ensures
            r.id@ == Seq::<char>::empty(),
            r.title@ == Seq::<char>::empty(),
            r.subtitle is None,
            r.icon matches MatchIcon::ByName(n) && n@ == Seq::<char>::empty(),
            r.ty == MatchType::PossibleMatch,
            r.relevance == RELEVANCE_ONE,
            r.urls@ == Seq::<String>::empty(),
            r.category is None,
            !r.multiline,
            r.actions@ == Seq::<A>::empty(),
    {
        Match {
            id: String::new(),
            title: String::new(),
            subtitle: None,
            icon: MatchIcon::new(),
            ty: MatchType::PossibleMatch,
            relevance: RELEVANCE_ONE,
            urls: Vec::new(),
            category: None,
            multiline: false,
            actions: Vec::new(),
        }
    }
}

impl<A: Action> Match<A> {
    /// A match with the given identifier and every other field at its
    /// default: no text, no icon, the type `PossibleMatch` and the relevance
    /// one.
    pub fn new(id: String) -> (r: Match<A>)
        ensures
            r.id == id,
            r.title@ == Seq::<char>::empty(),
            r.subtitle is None,
            r.icon matches MatchIcon::ByName(n) && n@ == Seq::<char>::empty(),
            r.ty == MatchType::PossibleMatch,
            r.relevance == RELEVANCE_ONE,
            r.urls@ == Seq::<String>::empty(),
            r.category is None,
            !r.multiline,
            r.actions@ == Seq::<A>::empty(),
    {
        Match {
            id,
            title: String::new(),
            subtitle: None,
            icon: MatchIcon::new(),
            ty: MatchType::PossibleMatch,
            relevance: RELEVANCE_ONE,
            urls: Vec::new(),
            category: None,
            multiline: false,
            actions: Vec::new(),
        }
    }

    /// The match with its title set.
    pub fn text(self, text: String) -> (r: Match<A>)
        ensures
            r == (Match { title: text, ..self }),
    {
        Match { title: text, ..self }
    }

    /// The match with a named icon.
    pub fn icon(self, icon: String) -> (r: Match<A>)
        ensures
            r == (Match { icon: MatchIcon::ByName(icon), ..self }),
    {
        Match { icon: MatchIcon::ByName(icon), ..self }
    }

    /// The match with its type set.
    pub fn ty(self, ty: MatchType) -> (r: Match<A>)
        ensures
            r == (Match { ty, ..self }),
    {
        Match { ty, ..self }
    }

    /// The match with its relevance set, given as the bit pattern of a
    /// 64-bit IEEE 754 number. No range is enforced.
    pub fn relevance(self, relevance: u64) -> (r: Match<A>)
        ensures
            r == (Match { relevance, ..self }),
    {
        Match { relevance, ..self }
    }

    /// The match with one more URL, after those it has.
    pub fn url(self, url: String) -> (r: Match<A>)
        ensures
            r == (Match { urls: r.urls, ..self }),
            r.urls@ == self.urls@.push(url),
    {
        let mut m = self;
        m.urls.push(url);
        m
    }

    /// The match with its category set.
    pub fn category(self, category: String) -> (r: Match<A>)
        ensures
            r == (Match { category: Some(category), ..self }),
    {
        Match { category: Some(category), ..self }
    }

    /// The match with its subtitle set.
    pub fn subtext(self, subtext: String) -> (r: Match<A>)
        ensures
            r == (Match { subtitle: Some(subtext), ..self }),
    {
        Match { subtitle: Some(subtext), ..self }
    }

    /// The match, displayed as a multiline string.
    pub fn multiline(self) -> (r: Match<A>)
        ensures
            r == (Match { multiline: true, ..self }),
    {
        Match { multiline: true, ..self }
    }

    /// The match with one more action, after those it has.
    pub fn action(self, action: A) -> (r: Match<A>)
        ensures
            r == (Match { actions: r.actions, ..self }),
            r.actions@ == self.actions@.push(action),
    {
        let mut m = self;
        m.actions.push(action);
        m
    }

    /// The match with inline image data for its icon, in place of any name.
    pub fn icon_data(self, icon_data: ImageData) -> (r: Match<A>)
        ensures
            r == (Match { icon: MatchIcon::Custom(icon_data), ..self }),
    {
        Match { icon: MatchIcon::Custom(icon_data), ..self }
    }
}

} // verus!
