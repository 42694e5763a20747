//! Colorspace tags: a closed set of descriptors, each with a name, a channel
//! count and an alpha flag.

use vstd::prelude::*;

verus! {

/// Stores colorspace information.
///
/// Every colorspace has at least one channel.
pub trait Color: Sync + Send {
    /// The name of the colorspace, as a sequence of characters.
    spec fn spec_name() -> Seq<char>;

    /// The number of channels.
    spec fn spec_channels() -> nat;

    /// Whether the last channel is an alpha channel.
    spec fn spec_has_alpha() -> bool;

    /// A colorspace never has zero channels, and its channel count fits a
    /// `usize`.
    proof fn lemma_has_channels()
        ensures
            1 <= Self::spec_channels() <= usize::MAX,
    ;

    /// The name of a colorspace, for example: "rgb"
    fn name() -> (s: &'static str)
        ensures
            s@ == Self::spec_name(),
    ;

    /// The number of channels
    fn channels() -> (n: usize)
        ensures
            n == Self::spec_channels(),
            n >= 1,
    ;

    /// Determines if the last channel should be used as an alpha channel
    fn has_alpha() -> (b: bool)
        ensures
            b == Self::spec_has_alpha(),
    ;
}

/// One luminance channel.
#[derive(Debug, Clone, Copy, PartialEq, Eq)]
pub struct Gray;

impl Color for Gray {
    open spec fn spec_name() -> Seq<char> {
        "gray"@
    }

    open spec fn spec_channels() -> nat {
        1
    }

    open spec fn spec_has_alpha() -> bool {
        false
    }

    proof fn lemma_has_channels() {
    }

    fn name() -> (s: &'static str) {
        "gray"
    }

    fn channels() -> (n: usize) {
        1
    }

    fn has_alpha() -> (b: bool) {
        false
    }
}

/// Red, green and blue.
#[derive(Debug, Clone, Copy, PartialEq, Eq)]
pub struct Rgb;

impl Color for Rgb {
    open spec fn spec_name() -> Seq<char> {
        "rgb"@
    }

    open spec fn spec_channels() -> nat {
        3
    }

    open spec fn spec_has_alpha() -> bool {
        false
    }

    proof fn lemma_has_channels() {
    }

    fn name() -> (s: &'static str) {
        "rgb"
    }

    fn channels() -> (n: usize) {
        3
    }

    fn has_alpha() -> (b: bool) {
        false
    }
}

/// Blue, green and red.
#[derive(Debug, Clone, Copy, PartialEq, Eq)]
pub struct Bgr;

impl Color for Bgr {
    open spec fn spec_name() -> Seq<char> {
        "bgr"@
    }

    open spec fn spec_channels() -> nat {
        3
    }

    open spec fn spec_has_alpha() -> bool {
        false
    }

    proof fn lemma_has_channels() {
    }

    fn name() -> (s: &'static str) {
        "bgr"
    }

    fn channels() -> (n: usize) {
        3
    }

    fn has_alpha() -> (b: bool) {
        false
    }
}

/// Red, green and blue packed into one element: one channel to this
/// library, which does not look inside a packed pixel.
#[derive(Debug, Clone, Copy, PartialEq, Eq)]
pub struct RgbPacked;

impl Color for RgbPacked {
    open spec fn spec_name() -> Seq<char> {
        "rgb_packed"@
    }

    open spec fn spec_channels() -> nat {
        1
    }

    open spec fn spec_has_alpha() -> bool {
        false
    }

    proof fn lemma_has_channels() {
    }

    fn name() -> (s: &'static str) {
        "rgb_packed"
    }

    fn channels() -> (n: usize) {
        1
    }

    fn has_alpha() -> (b: bool) {
        false
    }
}

/// Red, green, blue and alpha.
#[derive(Debug, Clone, Copy, PartialEq, Eq)]
pub struct Rgba;

impl Color for Rgba {
    open spec fn spec_name() -> Seq<char> {
        "rgba"@
    }

    open spec fn spec_channels() -> nat {
        4
    }

    open spec fn spec_has_alpha() -> bool {
        true
    }

    proof fn lemma_has_channels() {
    }

    fn name() -> (s: &'static str) {
        "rgba"
    }

    fn channels() -> (n: usize) {
        4
    }

    fn has_alpha() -> (b: bool) {
        true
    }
}

/// Blue, green, red and alpha.
#[derive(Debug, Clone, Copy, PartialEq, Eq)]
pub struct Bgra;

impl Color for Bgra {
    open spec fn spec_name() -> Seq<char> {
        "bgra"@
    }

    open spec fn spec_channels() -> nat {
        4
    }

    open spec fn spec_has_alpha() -> bool {
        true
    }

    proof fn lemma_has_channels() {
    }

    fn name() -> (s: &'static str) {
        "bgra"
    }

    fn channels() -> (n: usize) {
        4
    }

    fn has_alpha() -> (b: bool) {
        true
    }
}

/// Red, green, blue and alpha packed into one element: one channel to this
/// library, which does not look inside a packed pixel, and so no alpha
/// channel either.
#[derive(Debug, Clone, Copy, PartialEq, Eq)]
pub struct RgbaPacked;

impl Color for RgbaPacked {
    open spec fn spec_name() -> Seq<char> {
        "rgba_packed"@
    }

    open spec fn spec_channels() -> nat {
        1
    }

    open spec fn spec_has_alpha() -> bool {
        false
    }

    proof fn lemma_has_channels() {
    }

    fn name() -> (s: &'static str) {
        "rgba_packed"
    }

    fn channels() -> (n: usize) {
        1
    }

    fn has_alpha() -> (b: bool) {
        false
    }
}

/// Cyan, magenta, yellow and key.
#[derive(Debug, Clone, Copy, PartialEq, Eq)]
pub struct Cmyk;

impl Color for Cmyk {
    open spec fn spec_name() -> Seq<char> {
        "cmyk"@
    }

    open spec fn spec_channels() -> nat {
        4
    }

    open spec fn spec_has_alpha() -> bool {
        false
    }

    proof fn lemma_has_channels() {
    }

    fn name() -> (s: &'static str) {
        "cmyk"
    }

    fn channels() -> (n: usize) {
        4
    }

    fn has_alpha() -> (b: bool) {
        false
    }
}

/// Luma and two chroma channels.
#[derive(Debug, Clone, Copy, PartialEq, Eq)]
pub struct Yuv;

impl Color for Yuv {
    open spec fn spec_name() -> Seq<char> {
        "yuv"@
    }

    open spec fn spec_channels() -> nat {
        3
    }

    open spec fn spec_has_alpha() -> bool {
        false
    }

    proof fn lemma_has_channels() {
    }

    fn name() -> (s: &'static str) {
        "yuv"
    }

    fn channels() -> (n: usize) {
        3
    }

    fn has_alpha() -> (b: bool) {
        false
    }
}

/// The channel count and the alpha flag of each built-in colorspace.
pub proof fn lemma_builtin_colors()
    ensures
        Gray::spec_channels() == 1 && !Gray::spec_has_alpha(),
        Rgb::spec_channels() == 3 && !Rgb::spec_has_alpha(),
        Bgr::spec_channels() == 3 && !Bgr::spec_has_alpha(),
        RgbPacked::spec_channels() == 1 && !RgbPacked::spec_has_alpha(),
        Rgba::spec_channels() == 4 && Rgba::spec_has_alpha(),
        Bgra::spec_channels() == 4 && Bgra::spec_has_alpha(),
        RgbaPacked::spec_channels() == 1 && !RgbaPacked::spec_has_alpha(),
        Cmyk::spec_channels() == 4 && !Cmyk::spec_has_alpha(),
        Yuv::spec_channels() == 3 && !Yuv::spec_has_alpha(),
{
}

} // verus!
