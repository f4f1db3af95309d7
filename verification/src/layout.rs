//! Three-region packing of components along a strip.
//!
//! A strip has a fixed width and height. Every component names the region it
//! wants to live in and is measured anew on each pass. Left components are
//! packed from the strip's left edge, right components from its right edge,
//! and middle components around its centre. A component whose measurement is
//! unavailable takes no part in the pass.

use vstd::prelude::*;
use crate::rect::Rect;

verus! {

/// The region of a strip in which a component wants to be placed.
#[derive(Clone, Copy, Debug, PartialEq, Eq, Structural)]
pub enum ComponentLocation {
    Left,
    Middle,
    Right,
}

/// A component as the layout sees it: its region and, where the measurement
/// succeeded, its width.
pub type Slot = (ComponentLocation, Option<i32>);

/// Whether the slot is measured and belongs to `region`.
pub open spec fn takes_part(slot: Slot, region: ComponentLocation) -> bool {
    slot.0 == region && slot.1 is Some
}

/// How far the slot moves the cursor of `region`: its width and one gap if it
/// takes part, nothing otherwise.
pub open spec fn stride(slot: Slot, region: ComponentLocation, gap: int) -> int {
    if takes_part(slot, region) {
        slot.1->0 + gap
    } else {
        0
    }
}

/// The distance the cursor of `region` has travelled before slot `upto`.
pub open spec fn advance(slots: Seq<Slot>, region: ComponentLocation, gap: int, upto: int) -> int
    decreases upto,
{
    if upto <= 0 {
        0
    } else {
        advance(slots, region, gap, upto - 1) + stride(slots[upto - 1], region, gap)
    }
}

/// The sum of the widths of the first `upto` slots that take part in `region`.
pub open spec fn region_width(slots: Seq<Slot>, region: ComponentLocation, upto: int) -> int
    decreases upto,
{
    if upto <= 0 {
        0
    } else {
        region_width(slots, region, upto - 1) + if takes_part(slots[upto - 1], region) {
            slots[upto - 1].1->0 as int
        } else {
            0
        }
    }
}

/// The number of the first `upto` slots that take part in `region`.
pub open spec fn region_count(slots: Seq<Slot>, region: ComponentLocation, upto: int) -> int
    decreases upto,
{
    if upto <= 0 {
        0
    } else {
        region_count(slots, region, upto - 1) + if takes_part(slots[upto - 1], region) {
            1int
        } else {
            0
        }
    }
}

/// Half of `a`, rounded towards zero.
pub open spec fn half(a: int) -> int {
    if a >= 0 {
        a / 2
    } else {
        -((-a) / 2)
    }
}

/// Where the cursor of the middle region starts. The second term counts one
/// gap less one pixel per component.
pub open spec fn middle_start(strip_width: int, gap: int, slots: Seq<Slot>) -> int {
    let n = slots.len() as int;
    half(strip_width) - half(
        region_width(slots, ComponentLocation::Middle, n) + (gap - 1) * region_count(
            slots,
            ComponentLocation::Middle,
            n,
        ),
    )
}

/// The left edge of slot `i`, for a measured slot.
pub open spec fn slot_x(strip_width: int, gap: int, slots: Seq<Slot>, i: int) -> int {
    match slots[i].0 {
        ComponentLocation::Left => advance(slots, ComponentLocation::Left, gap, i),
        ComponentLocation::Right => strip_width - advance(slots, ComponentLocation::Right, gap, i)
            - slots[i].1->0,
        ComponentLocation::Middle => middle_start(strip_width, gap, slots) + advance(
            slots,
            ComponentLocation::Middle,
            gap,
            i,
        ),
    }
}

/// The right edge of slot `i`, for a measured slot.
pub open spec fn slot_x2(strip_width: int, gap: int, slots: Seq<Slot>, i: int) -> int {
    slot_x(strip_width, gap, slots, i) + slots[i].1->0
}

/// Every measured slot has a left edge that an `i32` can hold.
pub open spec fn fits(strip_width: int, gap: int, slots: Seq<Slot>) -> bool {
    forall|i: int|
        0 <= i < slots.len() && slots[i].1 is Some ==> i32::MIN <= #[trigger] slot_x(
            strip_width,
            gap,
            slots,
            i,
        ) <= i32::MAX
}

/// The rectangle of slot `i`: full strip height, at the top of the strip.
/// An unmeasured slot has none.
pub open spec fn placement(
    strip_width: int,
    strip_height: i32,
    gap: int,
    slots: Seq<Slot>,
    i: int,
) -> Option<Rect> {
    match slots[i].1 {
        Some(w) => Some(
            Rect { x: slot_x(strip_width, gap, slots, i) as i32, y: 0, width: w, height: strip_height },
        ),
        None => None,
    }
}

/// The rectangles of all slots, in the order of the slots.
pub open spec fn placements(
    strip_width: int,
    strip_height: i32,
    gap: int,
    slots: Seq<Slot>,
) -> Seq<Option<Rect>> {
    Seq::new(slots.len(), |i: int| placement(strip_width, strip_height, gap, slots, i))
}

/// The slots of components that were all measured.
pub open spec fn measured(components: Seq<(ComponentLocation, i32)>) -> Seq<Slot> {
    Seq::new(components.len(), |i: int| (components[i].0, Some(components[i].1)))
}

/// The cursors and sums of a region stay within bounds that grow with the
/// number of slots seen.
proof fn lemma_region_bounds(slots: Seq<Slot>, region: ComponentLocation, gap: int, upto: int)
    requires
        0 <= upto <= slots.len(),
        i32::MIN <= gap <= i32::MAX,
    ensures
        -upto * 0x1_0000_0000 <= advance(slots, region, gap, upto) <= upto * 0x1_0000_0000,
        -upto * 0x8000_0000 <= region_width(slots, region, upto) <= upto * 0x8000_0000,
        0 <= region_count(slots, region, upto) <= upto,
    decreases upto,
{
    if upto > 0 {
        lemma_region_bounds(slots, region, gap, upto - 1);
    }
}

/// Half of `a`, rounded towards zero.
fn half_of(a: i128) -> (r: i128)
    ensures
        r == half(a as int),
{
    a / 2
}

/// Places every measured slot of a strip.
///
/// Returns the rectangles in the order of the slots, `None` for a slot that
/// has no measurement. Returns `None` as a whole when some left edge cannot
/// be held in an `i32`.
pub fn place(strip_width: i32, strip_height: i32, gap: i32, slots: &Vec<Slot>) -> (r: Option<
    Vec<Option<Rect>>,
>)
    ensures
        r is Some <==> fits(strip_width as int, gap as int, slots@),
        r matches Some(v) ==> v@ == placements(strip_width as int, strip_height, gap as int, slots@),
{
    let n: usize = slots.len();
    let mut total: i128 = 0;
    let mut count: i128 = 0;
    let mut i: usize = 0;
    while i < n
        invariant
            i <= n,
            n == slots.len(),
            total == region_width(slots@, ComponentLocation::Middle, i as int),
            count == region_count(slots@, ComponentLocation::Middle, i as int),
        decreases n - i,
    {
        proof {
            lemma_region_bounds(slots@, ComponentLocation::Middle, gap as int, i as int);
        }
        let slot = slots[i];
        match slot {
            (ComponentLocation::Middle, Some(w)) => {
                total = total + w as i128;
                count = count + 1;
            },
            _ => {},
        }
        i += 1;
    }
    proof {
        lemma_region_bounds(slots@, ComponentLocation::Middle, gap as int, n as int);
    }
    let narrowed: i128 = gap as i128 - 1;
    assert(-0x1_0000_0000 * n <= narrowed * count <= 0x1_0000_0000 * n) by (nonlinear_arith)
        requires
            -0x1_0000_0000 <= narrowed <= 0x1_0000_0000,
            0 <= count <= n,
    ;
    let start: i128 = half_of(strip_width as i128) - half_of(total + narrowed * count);
    let mut left: i128 = 0;
    let mut right: i128 = 0;
    let mut middle: i128 = 0;
    let mut out: Vec<Option<Rect>> = Vec::new();
    let mut k: usize = 0;
    while k < n
        invariant
            k <= n,
            n == slots.len(),
            start == middle_start(strip_width as int, gap as int, slots@),
            -0x1_0000_0000_0000_0000_0000_0000 <= start <= 0x1_0000_0000_0000_0000_0000_0000,
            left == advance(slots@, ComponentLocation::Left, gap as int, k as int),
            right == advance(slots@, ComponentLocation::Right, gap as int, k as int),
            middle == advance(slots@, ComponentLocation::Middle, gap as int, k as int),
            out.len() == k,
            forall|j: int|
                0 <= j < k ==> out[j] == placement(
                    strip_width as int,
                    strip_height,
                    gap as int,
                    slots@,
                    j,
                ),
            forall|j: int|
                0 <= j < k && slots[j].1 is Some ==> i32::MIN <= #[trigger] slot_x(
                    strip_width as int,
                    gap as int,
                    slots@,
                    j,
                ) <= i32::MAX,
        decreases n - k,
    {
        proof {
            lemma_region_bounds(slots@, ComponentLocation::Left, gap as int, k as int);
            lemma_region_bounds(slots@, ComponentLocation::Right, gap as int, k as int);
            lemma_region_bounds(slots@, ComponentLocation::Middle, gap as int, k as int);
        }
        let slot = slots[k];
        match slot.1 {
            None => {
                out.push(None);
            },
            Some(w) => {
                let x: i128 = match slot.0 {
                    ComponentLocation::Left => left,
                    ComponentLocation::Right => strip_width as i128 - right - w as i128,
                    ComponentLocation::Middle => start + middle,
                };
                assert(x == slot_x(strip_width as int, gap as int, slots@, k as int));
                if x < -2147483648 || x > 2147483647 {
                    return None;
                }
                out.push(Some(Rect { x: x as i32, y: 0, width: w, height: strip_height }));
                let moved: i128 = w as i128 + gap as i128;
                match slot.0 {
                    ComponentLocation::Left => {
                        left = left + moved;
                    },
                    ComponentLocation::Right => {
                        right = right + moved;
                    },
                    ComponentLocation::Middle => {
                        middle = middle + moved;
                    },
                }
            },
        }
        k += 1;
    }
    assert(out@ =~= placements(strip_width as int, strip_height, gap as int, slots@));
    Some(out)
}

/// The rectangles of components that were all measured.
pub open spec fn positions(
    strip_width: int,
    strip_height: i32,
    gap: int,
    components: Seq<(ComponentLocation, i32)>,
) -> Seq<Rect> {
    Seq::new(
        components.len(),
        |i: int| placement(strip_width, strip_height, gap, measured(components), i)->0,
    )
}

/// Computes the rectangle of every component of a strip, one per component
/// and in the same order.
///
/// Returns `None` when some left edge cannot be held in an `i32`.
pub fn compute_positions(
    strip_width: i32,
    strip_height: i32,
    gap: i32,
    components: &Vec<(ComponentLocation, i32)>,
) -> (r: Option<Vec<Rect>>)
    ensures
        r is Some <==> fits(strip_width as int, gap as int, measured(components@)),
        r matches Some(v) ==> v@ == positions(
            strip_width as int,
            strip_height,
            gap as int,
            components@,
        ),
{
    let n: usize = components.len();
    let mut slots: Vec<Slot> = Vec::new();
    let mut i: usize = 0;
    while i < n
        invariant
            i <= n,
            n == components.len(),
            slots.len() == i,
            forall|j: int| 0 <= j < i ==> slots[j] == measured(components@)[j],
        decreases n - i,
    {
        slots.push((components[i].0, Some(components[i].1)));
        i += 1;
    }
    assert(slots@ =~= measured(components@));
    match place(strip_width, strip_height, gap, &slots) {
        None => None,
        Some(placed) => {
            let mut out: Vec<Rect> = Vec::new();
            let mut k: usize = 0;
            while k < n
                invariant
                    k <= n,
                    n == components.len(),
                    placed@ == placements(
                        strip_width as int,
                        strip_height,
                        gap as int,
                        measured(components@),
                    ),
                    out.len() == k,
                    forall|j: int| 0 <= j < k ==> Some(out[j]) == placed[j],
                decreases n - k,
            {
                match placed[k] {
                    Some(rect) => {
                        out.push(rect);
                    },
                    None => {
                        assert(false);
                    },
                }
                k += 1;
            }
            assert forall|j: int| 0 <= j < n implies out[j] == positions(
                strip_width as int,
                strip_height,
                gap as int,
                components@,
            )[j] by {
                assert(Some(out[j]) == placed[j]);
            }
            assert(out@ =~= positions(strip_width as int, strip_height, gap as int, components@));
            Some(out)
        },
    }
}

/// No slot strictly between `a` and `b` takes part in `region`.
pub open spec fn none_between(slots: Seq<Slot>, region: ComponentLocation, a: int, b: int) -> bool {
    forall|k: int| a < k < b ==> !takes_part(#[trigger] slots[k], region)
}

/// No measured width is negative.
pub open spec fn widths_non_negative(slots: Seq<Slot>) -> bool {
    forall|k: int| 0 <= k < slots.len() && (#[trigger] slots[k]).1 is Some ==> slots[k].1->0 >= 0
}

/// Between two indices the cursor of a region moves by the strides of the
/// slots between them: not at all where none takes part, and never backwards
/// where widths and gap are not negative.
proof fn lemma_advance_between(
    slots: Seq<Slot>,
    region: ComponentLocation,
    gap: int,
    a: int,
    b: int,
)
    requires
        0 <= a <= b <= slots.len(),
    ensures
        none_between(slots, region, a - 1, b) ==> advance(slots, region, gap, b) == advance(
            slots,
            region,
            gap,
            a,
        ),
        widths_non_negative(slots) && gap >= 0 ==> advance(slots, region, gap, b) >= advance(
            slots,
            region,
            gap,
            a,
        ),
    decreases b - a,
{
    if a < b {
        lemma_advance_between(slots, region, gap, a, b - 1);
        let last = slots[b - 1];
        assert(widths_non_negative(slots) && gap >= 0 ==> stride(last, region, gap) >= 0);
        assert(none_between(slots, region, a - 1, b) ==> none_between(slots, region, a - 1, b - 1));
        assert(none_between(slots, region, a - 1, b) ==> !takes_part(last, region));
    }
}

/// The cursor of a region has moved by the widths it passed and one gap for
/// each of them.
proof fn lemma_advance_is_width_and_gaps(
    slots: Seq<Slot>,
    region: ComponentLocation,
    gap: int,
    upto: int,
)
    requires
        0 <= upto <= slots.len(),
    ensures
        advance(slots, region, gap, upto) == region_width(slots, region, upto) + gap * region_count(
            slots,
            region,
            upto,
        ),
    decreases upto,
{
    if upto > 0 {
        lemma_advance_is_width_and_gaps(slots, region, gap, upto - 1);
        let c = region_count(slots, region, upto - 1);
        assert(gap * (c + 1) == gap * c + gap) by (nonlinear_arith);
    }
}

/// Left components are packed from the strip's left edge, in the order in
/// which they were registered.
///
/// For widths and a gap that are not negative, of two left components the
/// later one starts at least one gap to the right of where the earlier one
/// ends, and exactly one gap where no left component stands between them. It
/// starts strictly to the right of the earlier one's left edge unless that
/// one's width and the gap are both zero. The first left component starts at
/// the left edge of the strip.
pub proof fn law_left_to_right(strip_width: int, gap: int, slots: Seq<Slot>, i: int, j: int)
    requires
        0 <= i < j < slots.len(),
        takes_part(slots[i], ComponentLocation::Left),
        takes_part(slots[j], ComponentLocation::Left),
        widths_non_negative(slots),
        gap >= 0,
    ensures
        slot_x2(strip_width, gap, slots, i) + gap <= slot_x(strip_width, gap, slots, j),
        none_between(slots, ComponentLocation::Left, i, j) ==> slot_x(strip_width, gap, slots, j)
            == slot_x2(strip_width, gap, slots, i) + gap,
        slots[i].1->0 + gap > 0 ==> slot_x(strip_width, gap, slots, i) < slot_x(
            strip_width,
            gap,
            slots,
            j,
        ),
        none_between(slots, ComponentLocation::Left, -1, i) ==> slot_x(strip_width, gap, slots, i)
            == 0,
{
    lemma_advance_between(slots, ComponentLocation::Left, gap, i + 1, j);
    lemma_advance_between(slots, ComponentLocation::Left, gap, 0, i);
}

/// Right components are packed from the strip's right edge, so that they
/// appear from right to left in the order in which they were registered.
///
/// For widths and a gap that are not negative, of two right components the
/// later one ends at least one gap to the left of where the earlier one
/// starts, and exactly one gap where no right component stands between them.
/// It ends strictly to the left of the earlier one's right edge unless that
/// one's width and the gap are both zero. The first right component ends at
/// the right edge of the strip.
pub proof fn law_right_to_left(strip_width: int, gap: int, slots: Seq<Slot>, i: int, j: int)
    requires
        0 <= i < j < slots.len(),
        takes_part(slots[i], ComponentLocation::Right),
        takes_part(slots[j], ComponentLocation::Right),
        widths_non_negative(slots),
        gap >= 0,
    ensures
        slot_x2(strip_width, gap, slots, j) + gap <= slot_x(strip_width, gap, slots, i),
        none_between(slots, ComponentLocation::Right, i, j) ==> slot_x(strip_width, gap, slots, i)
            == slot_x2(strip_width, gap, slots, j) + gap,
        slots[i].1->0 + gap > 0 ==> slot_x2(strip_width, gap, slots, j) < slot_x2(
            strip_width,
            gap,
            slots,
            i,
        ),
        none_between(slots, ComponentLocation::Right, -1, i) ==> slot_x2(
            strip_width,
            gap,
            slots,
            i,
        ) == strip_width,
{
    lemma_advance_between(slots, ComponentLocation::Right, gap, i + 1, j);
    lemma_advance_between(slots, ComponentLocation::Right, gap, 0, i);
}

/// Middle components are packed from left to right, starting at the cursor
/// that the centring formula gives.
///
/// With `first` and `last` the first and the last middle component, `first`
/// starts at half the strip's width less half of the sum of the middle
/// widths and, for each middle component, one gap less one pixel. From the
/// left edge of `first` to the right edge of `last` the components span the
/// sum of their widths and one gap between each two neighbours.
pub proof fn law_middle_span(strip_width: int, gap: int, slots: Seq<Slot>, first: int, last: int)
    requires
        0 <= first <= last < slots.len(),
        takes_part(slots[first], ComponentLocation::Middle),
        takes_part(slots[last], ComponentLocation::Middle),
        none_between(slots, ComponentLocation::Middle, -1, first),
        none_between(slots, ComponentLocation::Middle, last, slots.len() as int),
    ensures
        slot_x(strip_width, gap, slots, first) == half(strip_width) - half(
            region_width(slots, ComponentLocation::Middle, slots.len() as int) + (gap - 1)
                * region_count(slots, ComponentLocation::Middle, slots.len() as int),
        ),
        slot_x2(strip_width, gap, slots, last) - slot_x(strip_width, gap, slots, first)
            == region_width(slots, ComponentLocation::Middle, slots.len() as int) + gap * (
            region_count(slots, ComponentLocation::Middle, slots.len() as int) - 1),
{
    let n = slots.len() as int;
    let count = region_count(slots, ComponentLocation::Middle, n);
    lemma_advance_between(slots, ComponentLocation::Middle, gap, 0, first);
    lemma_advance_between(slots, ComponentLocation::Middle, gap, last + 1, n);
    lemma_advance_is_width_and_gaps(slots, ComponentLocation::Middle, gap, n);
    assert(gap * (count - 1) == gap * count - gap) by (nonlinear_arith);
}

/// Where there are as many middle components as the gap is wide, the middle
/// components stand in the centre of the strip: the space to their left and
/// the space to their right differ by one pixel at most.
///
/// With any other number of components the cursor formula shifts them off
/// the centre by half the difference.
pub proof fn law_middle_centred(strip_width: int, gap: int, slots: Seq<Slot>, first: int, last: int)
    requires
        0 <= first <= last < slots.len(),
        takes_part(slots[first], ComponentLocation::Middle),
        takes_part(slots[last], ComponentLocation::Middle),
        none_between(slots, ComponentLocation::Middle, -1, first),
        none_between(slots, ComponentLocation::Middle, last, slots.len() as int),
        widths_non_negative(slots),
        strip_width >= 0,
        gap == region_count(slots, ComponentLocation::Middle, slots.len() as int),
    ensures
        -1 <= slot_x(strip_width, gap, slots, first) - (strip_width - slot_x2(
            strip_width,
            gap,
            slots,
            last,
        )) <= 1,
{
    let n = slots.len() as int;
    let count = region_count(slots, ComponentLocation::Middle, n);
    let total = region_width(slots, ComponentLocation::Middle, n);
    law_middle_span(strip_width, gap, slots, first, last);
    lemma_region_counts(slots, ComponentLocation::Middle, n, last);
    assert((gap - 1) * count == gap * (count - 1)) by (nonlinear_arith)
        requires
            gap == count,
    ;
    assert(gap * (count - 1) >= 0) by (nonlinear_arith)
        requires
            gap == count,
            count >= 1,
    ;
}

/// A region that holds a component counts at least one, and the sum of
/// widths that are not negative is not negative.
proof fn lemma_region_counts(slots: Seq<Slot>, region: ComponentLocation, upto: int, at: int)
    requires
        0 <= at < upto <= slots.len(),
        takes_part(slots[at], region),
    ensures
        region_count(slots, region, upto) >= 1,
        widths_non_negative(slots) ==> region_width(slots, region, upto) >= 0,
    decreases upto,
{
    lemma_region_width_non_negative(slots, region, upto);
    if at < upto - 1 {
        lemma_region_counts(slots, region, upto - 1, at);
    } else {
        lemma_region_bounds(slots, region, 0, upto - 1);
    }
}

/// The sum of widths that are not negative is not negative.
proof fn lemma_region_width_non_negative(slots: Seq<Slot>, region: ComponentLocation, upto: int)
    requires
        0 <= upto <= slots.len(),
    ensures
        widths_non_negative(slots) ==> region_width(slots, region, upto) >= 0,
    decreases upto,
{
    if upto > 0 {
        lemma_region_width_non_negative(slots, region, upto - 1);
    }
}

} // verus!
