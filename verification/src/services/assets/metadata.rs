//! What a depot's metadata says about its pictures, and a device's resolved art.

use crate::device::DeviceKind;
use crate::text::{owned_view, same_owned_text, same_text};
use std::sync::Arc;
use vstd::prelude::*;

verus! {

/// A point of a picture. Each coordinate is in thousandths, either of a percent
/// of the authored canvas or of one of its pixels.
#[derive(Debug, Clone, Copy, PartialEq, Eq, Structural)]
pub struct Point {
    pub x: i32,
    pub y: i32,
}

/// The size of the canvas that a picture's markers were authored on.
#[derive(Debug, Clone, Copy, PartialEq, Eq, Structural)]
pub struct Origin {
    pub width: u32,
    pub height: u32,
}

/// A control that a picture marks.
#[derive(Debug)]
pub struct Assignment {
    pub slot_name: String,
    pub slot_id: String,
    pub marker: Point,
}

/// A picture and the controls that it marks.
#[derive(Debug)]
pub struct ImageEntry {
    pub key: String,
    pub origin: Origin,
    pub assignments: Vec<Assignment>,
}

/// A depot's metadata.
#[derive(Debug)]
pub struct Metadata {
    pub images: Vec<ImageEntry>,
}

/// A gap between keys, as a part of the picture, in parts per million.
#[derive(Debug, Clone, Copy, PartialEq, Eq, Structural)]
pub struct GlowSegment {
    pub x: u32,
    pub y: u32,
    pub w: u32,
    pub h: u32,
}

/// The gaps between the keys of a picture, and how much wider than high it is.
#[derive(Debug)]
pub struct GlowGeometry {
    pub aspect: u32,
    pub segments: Vec<GlowSegment>,
}

/// A device's art.
#[derive(Debug)]
pub struct ResolvedAsset {
    pub depot: String,
    pub display_name: String,
    /// The registry's opinion on the class of the device.
    pub kind: Option<DeviceKind>,
    pub image_path: String,
    pub hero_image_path: Option<String>,
    pub side_image_path: Option<String>,
    /// The gaps between its keys, if there is a mask of them.
    pub glow: Option<Arc<GlowGeometry>>,
    pub metadata: Metadata,
    /// The size of the picture at `image_path`, padding included.
    pub png_width: u32,
    pub png_height: u32,
}

/// What an [`Assignment`] holds.
pub struct AssignmentView {
    pub slot_name: Seq<char>,
    pub slot_id: Seq<char>,
    pub marker: Point,
}

impl View for Assignment {
    type V = AssignmentView;

    open spec fn view(&self) -> AssignmentView {
        AssignmentView {
            slot_name: self.slot_name@,
            slot_id: self.slot_id@,
            marker: self.marker,
        }
    }
}

/// What an [`ImageEntry`] holds.
pub struct ImageEntryView {
    pub key: Seq<char>,
    pub origin: Origin,
    pub assignments: Seq<AssignmentView>,
}

impl View for ImageEntry {
    type V = ImageEntryView;

    open spec fn view(&self) -> ImageEntryView {
        ImageEntryView {
            key: self.key@,
            origin: self.origin,
            assignments: self.assignments@.map_values(|assignment: Assignment| assignment@),
        }
    }
}

impl View for Metadata {
    type V = Seq<ImageEntryView>;

    open spec fn view(&self) -> Seq<ImageEntryView> {
        self.images@.map_values(|image: ImageEntry| image@)
    }
}

impl View for GlowGeometry {
    type V = (u32, Seq<GlowSegment>);

    open spec fn view(&self) -> (u32, Seq<GlowSegment>) {
        (self.aspect, self.segments@)
    }
}

/// What a [`ResolvedAsset`] holds.
pub struct ResolvedAssetView {
    pub depot: Seq<char>,
    pub display_name: Seq<char>,
    pub kind: Option<DeviceKind>,
    pub image_path: Seq<char>,
    pub hero_image_path: Option<Seq<char>>,
    pub side_image_path: Option<Seq<char>>,
    pub glow: Option<(u32, Seq<GlowSegment>)>,
    pub metadata: Seq<ImageEntryView>,
    pub png_width: u32,
    pub png_height: u32,
}

/// What an optional mask holds.
pub open spec fn glow_view(glow: Option<Arc<GlowGeometry>>) -> Option<(u32, Seq<GlowSegment>)> {
    match glow {
        Some(glow) => Some((*glow)@),
        None => None,
    }
}

impl View for ResolvedAsset {
    type V = ResolvedAssetView;

    open spec fn view(&self) -> ResolvedAssetView {
        ResolvedAssetView {
            depot: self.depot@,
            display_name: self.display_name@,
            kind: self.kind,
            image_path: self.image_path@,
            hero_image_path: owned_view(self.hero_image_path),
            side_image_path: owned_view(self.side_image_path),
            glow: glow_view(self.glow),
            metadata: self.metadata@,
            png_width: self.png_width,
            png_height: self.png_height,
        }
    }
}

impl ImageEntry {
    /// Whether two pictures agree in every field.
    pub fn same(&self, other: &ImageEntry) -> (same: bool)
        ensures
            same == (self@ == other@),
    {
        let ghost mine = self@.assignments;
        let ghost others = other@.assignments;
        if self.assignments.len() != other.assignments.len() {
            assert(mine.len() != others.len());
            return false;
        }
        let mut i: usize = 0;
        while i < self.assignments.len()
            invariant
                i <= self.assignments@.len(),
                self.assignments@.len() == other.assignments@.len(),
                mine == self@.assignments,
                others == other@.assignments,
                forall|j: int| 0 <= j < i ==> (#[trigger] mine[j]) == others[j],
            decreases self.assignments@.len() - i,
        {
            let a = &self.assignments[i];
            let b = &other.assignments[i];
            assert(mine[i as int] == a@ && others[i as int] == b@);
            if !(same_text(a.slot_name.as_str(), b.slot_name.as_str()) && same_text(
                a.slot_id.as_str(),
                b.slot_id.as_str(),
            ) && a.marker == b.marker) {
                return false;
            }
            i += 1;
        }
        assert(mine =~= others);
        same_text(self.key.as_str(), other.key.as_str()) && self.origin == other.origin
    }
}

impl Metadata {
    /// Whether two depots' metadata agree in every field.
    pub fn same(&self, other: &Metadata) -> (same: bool)
        ensures
            same == (self@ == other@),
    {
        if self.images.len() != other.images.len() {
            assert(self@.len() != other@.len());
            return false;
        }
        let mut i: usize = 0;
        while i < self.images.len()
            invariant
                i <= self.images@.len(),
                self.images@.len() == other.images@.len(),
                forall|j: int| 0 <= j < i ==> (#[trigger] self@[j]) == other@[j],
            decreases self.images@.len() - i,
        {
            if !self.images[i].same(&other.images[i]) {
                assert(self@[i as int] != other@[i as int]);
                return false;
            }
            i += 1;
        }
        assert(self@ =~= other@);
        true
    }
}

impl GlowGeometry {
    /// Whether two masks agree in every gap.
    pub fn same(&self, other: &GlowGeometry) -> (same: bool)
        ensures
            same == (self@ == other@),
    {
        if self.segments.len() != other.segments.len() {
            return false;
        }
        let mut i: usize = 0;
        while i < self.segments.len()
            invariant
                i <= self.segments@.len(),
                self.segments@.len() == other.segments@.len(),
                forall|j: int| 0 <= j < i ==> (#[trigger] self.segments@[j]) == other.segments@[j],
            decreases self.segments@.len() - i,
        {
            if self.segments[i] != other.segments[i] {
                return false;
            }
            i += 1;
        }
        assert(self.segments@ =~= other.segments@);
        self.aspect == other.aspect
    }
}

fn same_glow(a: &Option<Arc<GlowGeometry>>, b: &Option<Arc<GlowGeometry>>) -> (same: bool)
    ensures
        same == (glow_view(*a) == glow_view(*b)),
{
    match (a, b) {
        (Some(a), Some(b)) => a.same(b),
        (None, None) => true,
        _ => false,
    }
}

impl ResolvedAsset {
    /// Whether two devices' art agrees in every field.
    pub fn same(&self, other: &ResolvedAsset) -> (same: bool)
        ensures
            same == (self@ == other@),
    {
        same_text(self.depot.as_str(), other.depot.as_str())
            && same_text(self.display_name.as_str(), other.display_name.as_str())
            && self.kind == other.kind
            && same_text(self.image_path.as_str(), other.image_path.as_str())
            && same_owned_text(&self.hero_image_path, &other.hero_image_path)
            && same_owned_text(&self.side_image_path, &other.side_image_path)
            && same_glow(&self.glow, &other.glow)
            && self.metadata.same(&other.metadata)
            && self.png_width == other.png_width
            && self.png_height == other.png_height
    }
}

} // verus!
