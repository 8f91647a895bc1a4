//! Helpers for cutting an image into tiles of a fixed size.

use vstd::prelude::*;
use vstd::std_specs::convert::FromSpecImpl;
use vstd::string::StringExecFns;

use crate::utility::text::{decimal, push_decimal};

verus! {

/// A point (pixel coordinate) on an image.
#[derive(Debug, Hash, PartialEq, Eq, Structural, Clone, Copy)]
pub struct ImagePoint {
    /// The pixel on the x-axis, counted along the width.
    x: u32,
    /// The pixel on the y-axis, counted along the height.
    y: u32,
}

impl ImagePoint {
    /// The coordinates as a pair `(x, y)`.
    pub closed spec fn coordinates(self) -> (u32, u32) {
        (self.x, self.y)
    }

    /// The point with the coordinates `(x, y)`.
    pub closed spec fn at(x: u32, y: u32) -> ImagePoint {
        ImagePoint { x, y }
    }

    /// Creates a point from its x- and y-coordinate.
    pub fn new(x: u32, y: u32) -> (point: Self)
        ensures
            point == Self::at(x, y),
            point.coordinates() == (x, y),
    {
        ImagePoint { x, y }
    }

    /// The x-coordinate of this point.
    pub fn x(self) -> (x: u32)
        ensures
            x == self.coordinates().0,
    {
        self.x
    }

    /// The y-coordinate of this point.
    pub fn y(self) -> (y: u32)
        ensures
            y == self.coordinates().1,
    {
        self.y
    }

    /// The text of this point: `(x = 3 , y = 4)` for the point `(3, 4)`.
    pub open spec fn text(self) -> Seq<char> {
        "(x = "@ + decimal(self.coordinates().0 as nat) + " , y = "@ + decimal(
            self.coordinates().1 as nat,
        ) + ")"@
    }

    /// Writes this point as text.
    pub fn to_string(&self) -> (text: String)
        ensures
            text@ == self.text(),
    {
        let mut text = String::new();
        text.append("(x = ");
        push_decimal(&mut text, self.x as u64);
        text.append(" , y = ");
        push_decimal(&mut text, self.y as u64);
        text.append(")");
        assert(text@ =~= self.text());
        text
    }
}

/// Two points with the same coordinates are the same point.
pub proof fn lemma_point_is_its_coordinates(first: ImagePoint, second: ImagePoint)
    ensures
        first.coordinates() == second.coordinates() <==> first == second,
        first == ImagePoint::at(first.coordinates().0, first.coordinates().1),
{
}

impl From<(u32, u32)> for ImagePoint {
    fn from(point: (u32, u32)) -> (converted: Self) {
        ImagePoint::new(point.0, point.1)
    }
}

impl FromSpecImpl<(u32, u32)> for ImagePoint {
    open spec fn obeys_from_spec() -> bool {
        true
    }

    open spec fn from_spec(point: (u32, u32)) -> Self {
        ImagePoint::at(point.0, point.1)
    }
}

impl From<&(u32, u32)> for ImagePoint {
    fn from(point: &(u32, u32)) -> (converted: Self) {
        ImagePoint::new(point.0, point.1)
    }
}

impl FromSpecImpl<&(u32, u32)> for ImagePoint {
    open spec fn obeys_from_spec() -> bool {
        true
    }

    open spec fn from_spec(point: &(u32, u32)) -> Self {
        ImagePoint::at(point.0, point.1)
    }
}

impl From<ImagePoint> for (u32, u32) {
    fn from(point: ImagePoint) -> (converted: Self) {
        (point.x(), point.y())
    }
}

impl FromSpecImpl<ImagePoint> for (u32, u32) {
    open spec fn obeys_from_spec() -> bool {
        true
    }

    open spec fn from_spec(point: ImagePoint) -> Self {
        point.coordinates()
    }
}

/// A way of one's own to place the tiles on an image.
pub trait CustomSplit {
    /// The upper left corners of the tiles of the size `split_width` by
    /// `split_height` on an image of the size `image_width` by
    /// `image_height`.
    fn starts(&self, image_width: u32, image_height: u32, split_width: u32, split_height: u32) -> Vec<
        ImagePoint,
    >;
}

/// The modes of splitting an image into tiles of a fixed size.
pub enum SplitMode {
    /// Tiles overlap at the left and bottom edges where the image cannot be
    /// split evenly.
    EdgeOverlapBottomLeftMode,
    /// Tiles overlap at the right and bottom edges where the image cannot
    /// be split evenly.
    EdgeOverlapBottomRightMode,
    /// Tiles overlap at the left and top edges where the image cannot be
    /// split evenly.
    EdgeOverlapTopLeftMode,
    /// Tiles overlap at the right and top edges where the image cannot be
    /// split evenly.
    EdgeOverlapTopRightMode,
    /// A custom splitting mode.
    CustomMode(Box<dyn CustomSplit>),
}

impl SplitMode {
    /// The name of this mode.
    pub open spec fn name(&self) -> Seq<char> {
        match self {
            SplitMode::EdgeOverlapBottomLeftMode => "EdgeOverlapBottomLeftMode"@,
            SplitMode::EdgeOverlapBottomRightMode => "EdgeOverlapBottomRightMode"@,
            SplitMode::EdgeOverlapTopLeftMode => "EdgeOverlapTopLeftMode"@,
            SplitMode::EdgeOverlapTopRightMode => "EdgeOverlapTopRightMode"@,
            SplitMode::CustomMode(_) => "CustomMode"@,
        }
    }

    /// The description of this mode.
    pub open spec fn text(&self) -> Seq<char> {
        match self {
            SplitMode::EdgeOverlapBottomLeftMode => "Split mode: overlap at bottom and left edge"@,
            SplitMode::EdgeOverlapBottomRightMode => "Split mode: overlap at bottom and right edge"@,
            SplitMode::EdgeOverlapTopLeftMode => "Split mode: overlap at top and left edge"@,
            SplitMode::EdgeOverlapTopRightMode => "Split mode: overlap at top and right edge"@,
            SplitMode::CustomMode(_) => "Split mode: custom splitting"@,
        }
    }

    /// The name of this mode, as it is written for debugging.
    pub fn debug_name(&self) -> (name: &'static str)
        ensures
            name@ == self.name(),
    {
        match self {
            SplitMode::EdgeOverlapBottomLeftMode => "EdgeOverlapBottomLeftMode",
            SplitMode::EdgeOverlapBottomRightMode => "EdgeOverlapBottomRightMode",
            SplitMode::EdgeOverlapTopLeftMode => "EdgeOverlapTopLeftMode",
            SplitMode::EdgeOverlapTopRightMode => "EdgeOverlapTopRightMode",
            SplitMode::CustomMode(_) => "CustomMode",
        }
    }

    /// Writes the description of this mode.
    pub fn to_string(&self) -> (text: String)
        ensures
            text@ == self.text(),
    {
        let text = match self {
            SplitMode::EdgeOverlapBottomLeftMode => "Split mode: overlap at bottom and left edge",
            SplitMode::EdgeOverlapBottomRightMode => "Split mode: overlap at bottom and right edge",
            SplitMode::EdgeOverlapTopLeftMode => "Split mode: overlap at top and left edge",
            SplitMode::EdgeOverlapTopRightMode => "Split mode: overlap at top and right edge",
            SplitMode::CustomMode(_) => "Split mode: custom splitting",
        };
        String::from_str(text)
    }

    /// The upper left corners that this mode gives to the tiles, for the
    /// modes that are built in; a custom mode decides by itself.
    pub open spec fn placed(
        &self,
        image_width: u32,
        image_height: u32,
        split_width: u32,
        split_height: u32,
    ) -> Option<Seq<ImagePoint>> {
        match self {
            SplitMode::EdgeOverlapBottomLeftMode => Some(
                combined(
                    aligned_to_start(image_width, split_width),
                    aligned_to_end(image_height, split_height),
                ),
            ),
            SplitMode::EdgeOverlapBottomRightMode => Some(
                combined(
                    aligned_to_end(image_width, split_width),
                    aligned_to_end(image_height, split_height),
                ),
            ),
            SplitMode::EdgeOverlapTopLeftMode => Some(
                combined(
                    aligned_to_start(image_width, split_width),
                    aligned_to_start(image_height, split_height),
                ),
            ),
            SplitMode::EdgeOverlapTopRightMode => Some(
                combined(
                    aligned_to_end(image_width, split_width),
                    aligned_to_start(image_height, split_height),
                ),
            ),
            SplitMode::CustomMode(_) => None,
        }
    }

    /// Returns the upper left corners of all the tiles to be cut.
    ///
    /// # Arguments
    ///
    /// * `image_width` - The width of the whole image.
    /// * `image_height` - The height of the whole image.
    /// * `split_width` - The width of the tiles.
    /// * `split_height` - The height of the tiles.
    pub fn get_starts(
        &self,
        image_width: u32,
        image_height: u32,
        split_width: u32,
        split_height: u32,
    ) -> (starts: Vec<ImagePoint>)
        requires
            split_width > 0,
            split_height > 0,
        ensures
            self.placed(image_width, image_height, split_width, split_height) matches Some(
                points,
            ) ==> starts@ == points,
    {
        match self {
            SplitMode::EdgeOverlapBottomLeftMode => combine_coordinates(
                split_range_align_start(image_width, split_width).as_slice(),
                split_range_align_end(image_height, split_height).as_slice(),
            ),
            SplitMode::EdgeOverlapBottomRightMode => combine_coordinates(
                split_range_align_end(image_width, split_width).as_slice(),
                split_range_align_end(image_height, split_height).as_slice(),
            ),
            SplitMode::EdgeOverlapTopLeftMode => combine_coordinates(
                split_range_align_start(image_width, split_width).as_slice(),
                split_range_align_start(image_height, split_height).as_slice(),
            ),
            SplitMode::EdgeOverlapTopRightMode => combine_coordinates(
                split_range_align_end(image_width, split_width).as_slice(),
                split_range_align_start(image_height, split_height).as_slice(),
            ),
            SplitMode::CustomMode(custom) => custom.starts(
                image_width,
                image_height,
                split_width,
                split_height,
            ),
        }
    }
}

impl Default for SplitMode {
    fn default() -> (mode: Self)
        ensures
            mode is EdgeOverlapBottomRightMode,
    {
        SplitMode::EdgeOverlapBottomRightMode
    }
}

/// The starts of the parts of the length `split` into which a range of the
/// length `length` is cut, with the last part moved back to end with the
/// range where the parts do not fill it evenly. Empty if the range is
/// shorter than one part.
pub open spec fn aligned_to_end(length: u32, split: u32) -> Seq<u32> {
    if length < split {
        Seq::empty()
    } else {
        let whole = Seq::new((length / split) as nat, |h: int| (h * split) as u32);
        if length % split != 0 {
            whole.push((length - split) as u32)
        } else {
            whole
        }
    }
}

/// The starts of the parts of the length `split` into which a range of the
/// length `length` is cut, with the parts moved to end with the range and
/// one more part at its start where the parts do not fill it evenly. Empty
/// if the range is shorter than one part.
pub open spec fn aligned_to_start(length: u32, split: u32) -> Seq<u32> {
    if length < split {
        Seq::empty()
    } else {
        let overlap = length % split;
        let shifted = Seq::new((length / split) as nat, |i: int| (i * split + overlap) as u32);
        if overlap != 0 {
            seq![0u32] + shifted
        } else {
            shifted
        }
    }
}

/// The points with the x-coordinate `x` and each of the y-coordinates, in
/// their order.
pub open spec fn column(x: u32, y_coordinates: Seq<u32>) -> Seq<ImagePoint> {
    Seq::new(y_coordinates.len(), |j: int| ImagePoint::at(x, y_coordinates[j]))
}

/// Every pair of an x- and a y-coordinate as a point: for each x in its
/// order, the points with each y in its order.
pub open spec fn combined(x_coordinates: Seq<u32>, y_coordinates: Seq<u32>) -> Seq<ImagePoint>
    decreases x_coordinates.len(),
{
    if x_coordinates.len() == 0 {
        Seq::empty()
    } else {
        combined(x_coordinates.drop_last(), y_coordinates) + column(
            x_coordinates.last(),
            y_coordinates,
        )
    }
}

/// The combination of coordinates holds one point for each pair, and the
/// point of the `i`-th x and the `j`-th y stands at the place
/// `i * y_coordinates.len() + j`.
pub proof fn lemma_combined_holds_every_pair(
    x_coordinates: Seq<u32>,
    y_coordinates: Seq<u32>,
    i: int,
    j: int,
)
    requires
        0 <= i < x_coordinates.len(),
        0 <= j < y_coordinates.len(),
    ensures
        combined(x_coordinates, y_coordinates).len() == x_coordinates.len() * y_coordinates.len(),
        0 <= i * y_coordinates.len() + j < combined(x_coordinates, y_coordinates).len(),
        combined(x_coordinates, y_coordinates)[i * y_coordinates.len() + j] == ImagePoint::at(
            x_coordinates[i],
            y_coordinates[j],
        ),
    decreases x_coordinates.len(),
{
    let shorter = x_coordinates.drop_last();
    lemma_combined_length(x_coordinates, y_coordinates);
    lemma_combined_length(shorter, y_coordinates);
    let rows = y_coordinates.len() as int;
    assert(shorter.len() * rows + rows == x_coordinates.len() * rows) by (nonlinear_arith)
        requires
            shorter.len() + 1 == x_coordinates.len(),
    ;
    if i < shorter.len() {
        lemma_combined_holds_every_pair(shorter, y_coordinates, i, j);
    } else {
        assert(i * rows == shorter.len() * rows) by (nonlinear_arith)
            requires
                i == shorter.len(),
        ;
    }
}

/// The combination of coordinates holds one point for each pair.
pub proof fn lemma_combined_length(x_coordinates: Seq<u32>, y_coordinates: Seq<u32>)
    ensures
        combined(x_coordinates, y_coordinates).len() == x_coordinates.len() * y_coordinates.len(),
    decreases x_coordinates.len(),
{
    if x_coordinates.len() > 0 {
        let shorter = x_coordinates.drop_last();
        lemma_combined_length(shorter, y_coordinates);
        assert(shorter.len() * y_coordinates.len() + y_coordinates.len() == x_coordinates.len()
            * y_coordinates.len()) by (nonlinear_arith)
            requires
                shorter.len() + 1 == x_coordinates.len(),
        ;
    } else {
        assert(x_coordinates.len() * y_coordinates.len() == 0) by (nonlinear_arith)
            requires
                x_coordinates.len() == 0,
        ;
    }
}

/// Splits the specified range into parts of the defined length. Parts may
/// overlap at the end of the range.
///
/// If the `split` length is longer than the range an empty
/// vector is returned.
///
/// # Arguments
///
/// * `length` - The length of a continuous range.
/// * `split` - The length of the parts to split the specified range into.
///   This cannot be zero.
pub fn split_range_align_end(length: u32, split: u32) -> (range: Vec<u32>)
    requires
        split > 0,
    ensures
        range@ == aligned_to_end(length, split),
{
    let mut range: Vec<u32> = Vec::new();
    if length >= split {
        let count: u32 = length / split;
        let mut h: u32 = 0;
        while h < count
            invariant
                split > 0,
                count == length / split,
                h <= count,
                range@ == Seq::new(h as nat, |k: int| (k * split) as u32),
            decreases count - h,
        {
            assert(h * split <= length) by (nonlinear_arith)
                requires
                    h < length / split,
                    split > 0,
            ;
            range.push(h * split);
            h = h + 1;
            assert(range@ =~= Seq::new(h as nat, |k: int| (k * split) as u32));
        }
        if length % split != 0 {
            range.push(length - split);
        }
    }
    assert(range@ =~= aligned_to_end(length, split));
    range
}

/// Splits the specified range into parts of the defined length. Parts may
/// overlap at the start of the range.
///
/// If the `split` length is longer than the range an empty
/// vector is returned.
///
/// # Arguments
///
/// * `length` - The length of a continuous range.
/// * `split` - The length of the parts to split the specified range into.
///   This cannot be zero.
pub fn split_range_align_start(length: u32, split: u32) -> (range: Vec<u32>)
    requires
        split > 0,
    ensures
        range@ == aligned_to_start(length, split),
{
    let mut range: Vec<u32> = Vec::new();
    if length >= split {
        let overlap: u32 = length % split;
        let count: u32 = length / split;
        let ghost lead: Seq<u32> = if overlap != 0 {
            seq![0u32]
        } else {
            Seq::empty()
        };
        if overlap != 0 {
            range.push(0);
        }
        let mut i: u32 = 0;
        while i < count
            invariant
                split > 0,
                count == length / split,
                overlap == length % split,
                i <= count,
                range@ == lead + Seq::new(i as nat, |k: int| (k * split + overlap) as u32),
            decreases count - i,
        {
            assert(i * split + overlap <= length) by (nonlinear_arith)
                requires
                    i < length / split,
                    overlap == length % split,
                    split > 0,
            ;
            range.push(i * split + overlap);
            i = i + 1;
            assert(range@ =~= lead + Seq::new(i as nat, |k: int| (k * split + overlap) as u32));
        }
    }
    assert(range@ =~= aligned_to_start(length, split));
    range
}

/// Combines the coordinates into points by forming every possible pair of
/// an x and a y.
///
/// # Arguments
///
/// * `x_coordinates` - A list of x-coordinates.
/// * `y_coordinates` - A list of y-coordinates.
pub fn combine_coordinates(x_coordinates: &[u32], y_coordinates: &[u32]) -> (points: Vec<
    ImagePoint,
>)
    ensures
        points@ == combined(x_coordinates@, y_coordinates@),
{
    let mut points: Vec<ImagePoint> = Vec::new();
    let mut i: usize = 0;
    while i < x_coordinates.len()
        invariant
            i <= x_coordinates.len(),
            points@ == combined(x_coordinates@.take(i as int), y_coordinates@),
        decreases x_coordinates.len() - i,
    {
        let ghost before = points@;
        let mut j: usize = 0;
        while j < y_coordinates.len()
            invariant
                i < x_coordinates.len(),
                j <= y_coordinates.len(),
                points@ == before + column(x_coordinates@[i as int], y_coordinates@.take(j as int)),
            decreases y_coordinates.len() - j,
        {
            points.push(ImagePoint::new(x_coordinates[i], y_coordinates[j]));
            j = j + 1;
            assert(points@ =~= before + column(
                x_coordinates@[i as int],
                y_coordinates@.take(j as int),
            ));
        }
        assert(y_coordinates@.take(j as int) =~= y_coordinates@);
        assert(x_coordinates@.take(i + 1).drop_last() =~= x_coordinates@.take(i as int));
        i = i + 1;
    }
    assert(x_coordinates@.take(i as int) =~= x_coordinates@);
    points
}

/// The upper left corners of the tiles to cut from an image, in the mode
/// `mode`: none if a tile is larger than the image.
pub fn tile_starts(
    image_width: u32,
    image_height: u32,
    width: u32,
    height: u32,
    mode: &SplitMode,
) -> (starts: Vec<ImagePoint>)
    requires
        width > 0,
        height > 0,
    ensures
        !(image_height >= height && image_width >= width) ==> starts@.len() == 0,
        image_height >= height && image_width >= width ==> (mode.placed(
            image_width,
            image_height,
            width,
            height,
        ) matches Some(points) ==> starts@ == points),
{
    if image_height >= height && image_width >= width {
        mode.get_starts(image_width, image_height, width, height)
    } else {
        Vec::new()
    }
}

/// Every start of a range that is cut into parts leaves room for a whole
/// part before the end of the range.
pub proof fn lemma_parts_fit(length: u32, split: u32, k: int)
    requires
        split > 0,
    ensures
        0 <= k < aligned_to_end(length, split).len() ==> aligned_to_end(length, split)[k] + split
            <= length,
        0 <= k < aligned_to_start(length, split).len() ==> aligned_to_start(length, split)[k]
            + split <= length,
{
    if length >= split {
        let count = length / split;
        let overlap = length % split;
        assert(count * split + overlap == length) by (nonlinear_arith)
            requires
                count == length / split,
                overlap == length % split,
                split > 0,
        ;
        if 0 <= k < count {
            assert(k * split + split <= count * split) by (nonlinear_arith)
                requires
                    0 <= k < count,
                    split > 0,
            ;
        }
        if overlap != 0 && 1 <= k <= count {
            assert((k - 1) * split + split <= count * split) by (nonlinear_arith)
                requires
                    1 <= k <= count,
                    split > 0,
            ;
        }
    }
}

/// Every point of a combination of coordinates has one of the
/// x-coordinates and one of the y-coordinates.
pub proof fn lemma_combined_point(x_coordinates: Seq<u32>, y_coordinates: Seq<u32>, k: int)
    requires
        0 <= k < combined(x_coordinates, y_coordinates).len(),
    ensures
        exists|i: int, j: int|
            0 <= i < x_coordinates.len() && 0 <= j < y_coordinates.len() && combined(
                x_coordinates,
                y_coordinates,
            )[k] == ImagePoint::at(#[trigger] x_coordinates[i], #[trigger] y_coordinates[j]),
    decreases x_coordinates.len(),
{
    let shorter = x_coordinates.drop_last();
    let before = combined(shorter, y_coordinates);
    if k < before.len() {
        lemma_combined_point(shorter, y_coordinates, k);
        let (i, j) = choose|i: int, j: int|
            0 <= i < shorter.len() && 0 <= j < y_coordinates.len() && before[k] == ImagePoint::at(
                #[trigger] shorter[i],
                #[trigger] y_coordinates[j],
            );
        assert(x_coordinates[i] == shorter[i]);
    } else {
        let i = x_coordinates.len() - 1;
        let j = k - before.len();
        assert(combined(x_coordinates, y_coordinates)[k] == ImagePoint::at(
            x_coordinates[i],
            y_coordinates[j],
        ));
    }
}

/// The tiles that a built-in mode places lie on the image.
pub proof fn lemma_placed_tiles_fit(
    mode: SplitMode,
    image_width: u32,
    image_height: u32,
    split_width: u32,
    split_height: u32,
    k: int,
)
    requires
        split_width > 0,
        split_height > 0,
        mode.placed(image_width, image_height, split_width, split_height) is Some,
        0 <= k < mode.placed(image_width, image_height, split_width, split_height)->0.len(),
    ensures
        ({
            let point = mode.placed(image_width, image_height, split_width, split_height)->0[k];
            point.coordinates().0 + split_width <= image_width && point.coordinates().1
                + split_height <= image_height
        }),
{
    let (xs, ys) = match mode {
        SplitMode::EdgeOverlapBottomLeftMode => (
            aligned_to_start(image_width, split_width),
            aligned_to_end(image_height, split_height),
        ),
        SplitMode::EdgeOverlapBottomRightMode => (
            aligned_to_end(image_width, split_width),
            aligned_to_end(image_height, split_height),
        ),
        SplitMode::EdgeOverlapTopLeftMode => (
            aligned_to_start(image_width, split_width),
            aligned_to_start(image_height, split_height),
        ),
        _ => (
            aligned_to_end(image_width, split_width),
            aligned_to_start(image_height, split_height),
        ),
    };
    lemma_combined_point(xs, ys, k);
    let (i, j) = choose|i: int, j: int|
        0 <= i < xs.len() && 0 <= j < ys.len() && combined(xs, ys)[k] == ImagePoint::at(
            #[trigger] xs[i],
            #[trigger] ys[j],
        );
    lemma_parts_fit(image_width, split_width, i);
    lemma_parts_fit(image_height, split_height, j);
}

/// An image of the `image` crate, of any of its pixel formats.
#[verifier::external_type_specification]
#[verifier::external_body]
pub struct ExDynamicImage(image::DynamicImage);

/// The number of pixels in each row of an image.
pub uninterp spec fn pixels_wide(image: image::DynamicImage) -> u32;

/// The number of rows of pixels of an image.
pub uninterp spec fn pixels_high(image: image::DynamicImage) -> u32;

/// How much of a part of the length `size` that starts at `start` lies on
/// a range of the length `length`.
pub open spec fn cut_length(length: u32, start: u32, size: u32) -> int {
    let from = if start < length {
        start
    } else {
        length
    };
    if size < length - from {
        size as int
    } else {
        length - from
    }
}

/// The width of an image in pixels.
///
/// Trusted: this is `DynamicImage::width` of the `image` crate, which gives
/// the number of pixels in each row.
#[verifier::external_body]
fn image_width(image: &image::DynamicImage) -> (width: u32)
    ensures
        width == pixels_wide(*image),
{
    image.width()
}

/// The height of an image in pixels.
///
/// Trusted: this is `DynamicImage::height` of the `image` crate, which
/// gives the number of rows.
#[verifier::external_body]
fn image_height(image: &image::DynamicImage) -> (height: u32)
    ensures
        height == pixels_high(*image),
{
    image.height()
}

/// Cuts the rectangle with the upper left corner `(x, y)` and the given
/// size out of an image, as far as it lies on the image.
///
/// Trusted: this is `DynamicImage::crop` of the `image` crate. It leaves
/// the image as it is. It moves a corner beyond the image to its edge and
/// shortens the rectangle to what lies on the image, and returns an image
/// of the size of that rectangle.
#[verifier::external_body]
fn crop(image: &mut image::DynamicImage, x: u32, y: u32, width: u32, height: u32) -> (tile:
    image::DynamicImage)
    ensures
        *final(image) == *old(image),
        pixels_wide(tile) == cut_length(pixels_wide(*old(image)), x, width),
        pixels_high(tile) == cut_length(pixels_high(*old(image)), y, height),
{
    image.crop(x, y, width, height)
}

/// Images that can be split into tiles.
pub trait SplitableImageExt: Sized {
    /// Splits the image into tiles of the specified size.
    ///
    /// # Arguments
    ///
    /// * `width` - The width of the tiles.
    /// * `height` - The height of the tiles.
    /// * `mode` - The mode of image splitting.
    fn split_into(&mut self, width: u32, height: u32, mode: SplitMode) -> (tiles: Vec<Self>)
        requires
            width > 0,
            height > 0,
    ;
}

impl SplitableImageExt for image::DynamicImage {
    /// Splits the image into tiles of the specified size: one tile for each
    /// place that the mode gives, and none if a tile is larger than the
    /// image. The image stays as it is. With a built-in mode every tile has
    /// the full size; with a custom mode a tile is as large as the image
    /// allows at its place.
    fn split_into(&mut self, width: u32, height: u32, mode: SplitMode) -> (tiles: Vec<Self>)
        ensures
            *final(self) == *old(self),
            !(pixels_high(*old(self)) >= height && pixels_wide(*old(self)) >= width)
                ==> tiles@.len() == 0,
            mode.placed(pixels_wide(*old(self)), pixels_high(*old(self)), width, height)
                matches Some(points) ==> (pixels_high(*old(self)) >= height && pixels_wide(
                *old(self),
            ) >= width ==> tiles@.len() == points.len()) && forall|i: int|
                0 <= i < tiles@.len() ==> pixels_wide(#[trigger] tiles@[i]) == width
                    && pixels_high(tiles@[i]) == height,
            forall|i: int|
                0 <= i < tiles@.len() ==> pixels_wide(#[trigger] tiles@[i]) <= width
                    && pixels_high(tiles@[i]) <= height,
    {
        let image_width = image_width(self);
        let image_height = image_height(self);
        let starts = tile_starts(image_width, image_height, width, height, &mode);
        let ghost placed = mode.placed(image_width, image_height, width, height);
        let mut tiles: Vec<image::DynamicImage> = Vec::new();
        let mut i: usize = 0;
        while i < starts.len()
            invariant
                i <= starts.len(),
                tiles.len() == i,
                width > 0,
                height > 0,
                *self == *old(self),
                image_width == pixels_wide(*self),
                image_height == pixels_high(*self),
                placed == mode.placed(image_width, image_height, width, height),
                !(image_height >= height && image_width >= width) ==> starts@.len() == 0,
                placed matches Some(points) ==> (image_height >= height && image_width >= width
                    ==> starts@ == points),
                forall|k: int|
                    0 <= k < tiles@.len() ==> pixels_wide(#[trigger] tiles@[k]) <= width
                        && pixels_high(tiles@[k]) <= height,
                placed is Some ==> forall|k: int|
                    0 <= k < tiles@.len() ==> pixels_wide(#[trigger] tiles@[k]) == width
                        && pixels_high(tiles@[k]) == height,
            decreases starts.len() - i,
        {
            let start = starts[i];
            proof {
                if placed is Some {
                    lemma_placed_tiles_fit(mode, image_width, image_height, width, height, i as int);
                }
            }
            let tile = crop(self, start.x(), start.y(), width, height);
            tiles.push(tile);
            i = i + 1;
        }
        tiles
    }
}

} // verus!
