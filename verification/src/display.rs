//! Displays and the order in which they are laid out.

use vstd::prelude::*;
use vstd::string::*;

use crate::geometry::{PhysicalPosition, PhysicalSize};

verus! {

/// One attached display.
#[derive(Clone, Debug, PartialEq, Eq)]
pub struct DisplayGeometry {
    pub name: Option<String>,
    pub position: PhysicalPosition,
    pub size: PhysicalSize,
}

/// What a display is, apart from how its name is stored.
#[verifier::ext_equal]
pub struct DisplayModel {
    pub name: Option<Seq<char>>,
    pub position: PhysicalPosition,
    pub size: PhysicalSize,
}

impl View for DisplayGeometry {
    type V = DisplayModel;

    open spec fn view(&self) -> DisplayModel {
        DisplayModel {
            name: match self.name {
                Some(name) => Some(name@),
                None => None,
            },
            position: self.position,
            size: self.size,
        }
    }
}

/// The displays of a list.
pub open spec fn models(displays: Seq<DisplayGeometry>) -> Seq<DisplayModel> {
    displays.map_values(|display: DisplayGeometry| display@)
}

/// Byte strings in dictionary order: the shorter of two that agree comes first.
pub open spec fn bytes_in_order(left: Seq<u8>, right: Seq<u8>) -> bool
    decreases left.len(),
{
    if left.len() == 0 {
        true
    } else if right.len() == 0 {
        false
    } else if left[0] != right[0] {
        left[0] < right[0]
    } else {
        bytes_in_order(left.drop_first(), right.drop_first())
    }
}

/// Names in the dictionary order of their UTF-8 bytes; a display without a name comes first.
pub open spec fn names_in_order(left: Option<Seq<char>>, right: Option<Seq<char>>) -> bool {
    match (left, right) {
        (None, _) => true,
        (Some(_), None) => false,
        (Some(left), Some(right)) => bytes_in_order(
            vstd::utf8::encode_utf8(left),
            vstd::utf8::encode_utf8(right),
        ),
    }
}

/// Displays in order: from left to right, then from top to bottom, then by width, height and
/// name.
pub open spec fn displays_in_order(left: DisplayModel, right: DisplayModel) -> bool {
    if left.position.x != right.position.x {
        left.position.x < right.position.x
    } else if left.position.y != right.position.y {
        left.position.y < right.position.y
    } else if left.size.width != right.size.width {
        left.size.width < right.size.width
    } else if left.size.height != right.size.height {
        left.size.height < right.size.height
    } else {
        names_in_order(left.name, right.name)
    }
}

/// A list of displays is in order.
pub open spec fn sorted(displays: Seq<DisplayModel>) -> bool {
    forall|i: int, j: int|
        0 <= i < j < displays.len() ==> displays_in_order(
            #[trigger] displays[i],
            #[trigger] displays[j],
        )
}

/// The displays of a list, put in order.
pub open spec fn arranged(displays: Seq<DisplayModel>) -> Seq<DisplayModel> {
    displays.sort_by(|left: DisplayModel, right: DisplayModel| displays_in_order(left, right))
}

/// Whether `left` comes no later than `right` in dictionary order.
fn bytes_ordered(left: &[u8], right: &[u8]) -> (ordered: bool)
    ensures
        ordered == bytes_in_order(left@, right@),
{
    let mut i: usize = 0;
    assert(left@.skip(0) =~= left@);
    assert(right@.skip(0) =~= right@);
    while i < left.len() && i < right.len()
        invariant
            i <= left@.len(),
            i <= right@.len(),
            bytes_in_order(left@, right@) == bytes_in_order(
                left@.skip(i as int),
                right@.skip(i as int),
            ),
        decreases left@.len() - i,
    {
        if left[i] != right[i] {
            return left[i] < right[i];
        }
        assert(left@.skip(i as int).drop_first() =~= left@.skip(i + 1));
        assert(right@.skip(i as int).drop_first() =~= right@.skip(i + 1));
        i = i + 1;
    }
    i == left.len()
}

impl DisplayGeometry {
    /// Whether this display comes no later than `other`.
    pub fn ordered_before(&self, other: &DisplayGeometry) -> (ordered: bool)
        ensures
            ordered == displays_in_order(self@, other@),
    {
        if self.position.x != other.position.x {
            self.position.x < other.position.x
        } else if self.position.y != other.position.y {
            self.position.y < other.position.y
        } else if self.size.width != other.size.width {
            self.size.width < other.size.width
        } else if self.size.height != other.size.height {
            self.size.height < other.size.height
        } else {
            match (&self.name, &other.name) {
                (None, _) => true,
                (Some(_), None) => false,
                (Some(name), Some(other_name)) => bytes_ordered(
                    name.as_str().as_bytes(),
                    other_name.as_str().as_bytes(),
                ),
            }
        }
    }

    /// Whether both displays are the same.
    pub fn equals(&self, other: &DisplayGeometry) -> (equal: bool)
        ensures
            equal == (self@ == other@),
    {
        self.position == other.position && self.size == other.size && match (
            &self.name,
            &other.name,
        ) {
            (None, None) => true,
            (Some(name), Some(other_name)) => *name == *other_name,
            _ => false,
        }
    }
}

/// Whether two lists hold the same displays in the same order.
pub fn layouts_equal(left: &Vec<DisplayGeometry>, right: &Vec<DisplayGeometry>) -> (equal: bool)
    ensures
        equal == (models(left@) == models(right@)),
{
    if left.len() != right.len() {
        assert(models(left@).len() != models(right@).len());
        return false;
    }
    let mut i: usize = 0;
    while i < left.len()
        invariant
            left.len() == right.len(),
            i <= left.len(),
            forall|k: int| 0 <= k < i ==> left@[k]@ == right@[k]@,
        decreases left.len() - i,
    {
        if !left[i].equals(&right[i]) {
            assert(models(left@)[i as int] != models(right@)[i as int]);
            return false;
        }
        i = i + 1;
    }
    assert(models(left@) =~= models(right@));
    true
}

/// Moving an element forward in a list keeps what the list holds.
proof fn lemma_move_keeps_contents(displays: Seq<DisplayModel>, from: int, to: int)
    requires
        0 <= to <= from < displays.len(),
    ensures
        displays.remove(from).insert(to, displays[from]).to_multiset() == displays.to_multiset(),
{
    broadcast use vstd::seq_lib::group_to_multiset_ensures;

    let rest = displays.remove(from);
    vstd::seq_lib::to_multiset_remove(displays, from);
    vstd::seq_lib::to_multiset_insert(rest, to, displays[from]);
    assert(displays.to_multiset().count(displays[from]) > 0) by {
        assert(displays.contains(displays[from]));
    }
    assert(displays.to_multiset().remove(displays[from]).insert(displays[from])
        =~= displays.to_multiset());
}

/// Puts displays in order.
pub fn sort_displays(displays: &mut Vec<DisplayGeometry>)
    ensures
        models(final(displays)@) == arranged(models(old(displays)@)),
        sorted(models(final(displays)@)),
        models(final(displays)@).to_multiset() == models(old(displays)@).to_multiset(),
{
    let mut placed: usize = 0;
    while placed < displays.len()
        invariant
            placed <= displays.len(),
            sorted(models(displays@).take(placed as int)),
            models(displays@).to_multiset() == models(old(displays)@).to_multiset(),
        decreases displays.len() - placed,
    {
        let ghost before = models(displays@);
        let ghost prefix = before.take(placed as int);
        let mut at: usize = placed;
        while at > 0 && !displays[at - 1].ordered_before(&displays[placed])
            invariant
                at <= placed < displays.len(),
                models(displays@) == before,
                forall|k: int|
                    at <= k < placed ==> !displays_in_order(
                        #[trigger] before[k],
                        before[placed as int],
                    ),
            decreases at,
        {
            assert(before[at - 1] == displays@[at - 1]@);
            assert(before[placed as int] == displays@[placed as int]@);
            at = at - 1;
        }
        proof {
            if at > 0 {
                assert(before[at - 1] == displays@[at - 1]@);
                assert(before[placed as int] == displays@[placed as int]@);
            }
            lemma_move_keeps_contents(before, placed as int, at as int);
        }
        let display = displays.remove(placed);
        displays.insert(at, display);
        let ghost after = models(displays@);
        assert(after =~= before.remove(placed as int).insert(at as int, before[placed as int]));
        assert(sorted(after.take(placed + 1))) by {
            let moved = before[placed as int];
            let longer = after.take(placed + 1);
            assert forall|i: int, j: int| 0 <= i < j < longer.len() implies displays_in_order(
                #[trigger] longer[i],
                #[trigger] longer[j],
            ) by {
                let from_i = if i < at { i } else { i - 1 };
                let from_j = if j < at { j } else { j - 1 };
                if i == at {
                    assert(longer[j] == prefix[j - 1]);
                    assert(!displays_in_order(before[j - 1], moved));
                    lemma_order_is_total(moved, before[j - 1]);
                } else if j == at {
                    assert(longer[i] == prefix[i]);
                    if i < at - 1 {
                        assert(displays_in_order(prefix[i], prefix[at - 1]));
                        lemma_order_is_transitive(before[i], before[at - 1], moved);
                    }
                } else {
                    assert(longer[i] == prefix[from_i]);
                    assert(longer[j] == prefix[from_j]);
                }
            }
        }
        placed = placed + 1;
    }
    assert(models(displays@).take(placed as int) =~= models(displays@));
    proof {
        law_arrangement_is_the_sorted_list(models(old(displays)@), models(displays@));
    }
}

/// The displays that are attached, in order, however the system lists them.
pub fn available_displays(enumerated: Vec<DisplayGeometry>) -> (displays: Vec<DisplayGeometry>)
    ensures
        models(displays@) == arranged(models(enumerated@)),
        sorted(models(displays@)),
        models(displays@).to_multiset() == models(enumerated@).to_multiset(),
{
    let mut displays = enumerated;
    sort_displays(&mut displays);
    displays
}

proof fn lemma_bytes_total(left: Seq<u8>, right: Seq<u8>)
    ensures
        bytes_in_order(left, right) || bytes_in_order(right, left),
        bytes_in_order(left, left),
    decreases left.len(),
{
    if left.len() > 0 {
        lemma_bytes_total(left.drop_first(), right.drop_first());
    }
}

proof fn lemma_bytes_antisymmetric(left: Seq<u8>, right: Seq<u8>)
    requires
        bytes_in_order(left, right),
        bytes_in_order(right, left),
    ensures
        left == right,
    decreases left.len(),
{
    if left.len() > 0 && right.len() > 0 {
        lemma_bytes_antisymmetric(left.drop_first(), right.drop_first());
        assert(left =~= seq![left[0]] + left.drop_first());
        assert(right =~= seq![right[0]] + right.drop_first());
    } else {
        assert(left =~= right);
    }
}

proof fn lemma_bytes_transitive(left: Seq<u8>, middle: Seq<u8>, right: Seq<u8>)
    requires
        bytes_in_order(left, middle),
        bytes_in_order(middle, right),
    ensures
        bytes_in_order(left, right),
    decreases left.len(),
{
    if left.len() > 0 && left[0] == middle[0] && middle[0] == right[0] {
        lemma_bytes_transitive(left.drop_first(), middle.drop_first(), right.drop_first());
    }
}

/// Of two displays one comes no later than the other.
proof fn lemma_order_is_total(left: DisplayModel, right: DisplayModel)
    ensures
        displays_in_order(left, right) || displays_in_order(right, left),
        displays_in_order(left, left),
{
    if left.name is Some {
        let bytes = vstd::utf8::encode_utf8(left.name->0);
        lemma_bytes_total(bytes, bytes);
        if right.name is Some {
            lemma_bytes_total(bytes, vstd::utf8::encode_utf8(right.name->0));
        }
    }
}

/// The order of displays carries over.
proof fn lemma_order_is_transitive(left: DisplayModel, middle: DisplayModel, right: DisplayModel)
    requires
        displays_in_order(left, middle),
        displays_in_order(middle, right),
    ensures
        displays_in_order(left, right),
{
    if left.position == middle.position && middle.position == right.position && left.size
        == middle.size && middle.size == right.size && left.name is Some {
        lemma_bytes_transitive(
            vstd::utf8::encode_utf8(left.name->0),
            vstd::utf8::encode_utf8(middle.name->0),
            vstd::utf8::encode_utf8(right.name->0),
        );
    }
}

/// Displays that come no later than each other are the same.
proof fn lemma_order_is_antisymmetric(left: DisplayModel, right: DisplayModel)
    requires
        displays_in_order(left, right),
        displays_in_order(right, left),
    ensures
        left == right,
{
    if left.name is Some {
        vstd::utf8::encode_utf8_decode_utf8(left.name->0);
        vstd::utf8::encode_utf8_decode_utf8(right.name->0);
        lemma_bytes_antisymmetric(
            vstd::utf8::encode_utf8(left.name->0),
            vstd::utf8::encode_utf8(right.name->0),
        );
    }
}

/// The order of displays is a total order.
proof fn lemma_order_is_a_total_order()
    ensures
        vstd::relations::total_ordering(
            |left: DisplayModel, right: DisplayModel| displays_in_order(left, right),
        ),
{
    let leq = |left: DisplayModel, right: DisplayModel| displays_in_order(left, right);
    assert forall|left: DisplayModel| #[trigger] leq(left, left) by {
        lemma_order_is_total(left, left);
    }
    assert forall|left: DisplayModel, right: DisplayModel| #[trigger]
        leq(left, right) || #[trigger] leq(right, left) by {
        lemma_order_is_total(left, right);
    }
    assert forall|left: DisplayModel, right: DisplayModel| #[trigger]
        leq(left, right) && #[trigger] leq(right, left) implies left == right by {
        lemma_order_is_antisymmetric(left, right);
    }
    assert forall|left: DisplayModel, middle: DisplayModel, right: DisplayModel| #[trigger]
        leq(left, middle) && #[trigger] leq(middle, right) implies leq(left, right) by {
        lemma_order_is_transitive(left, middle, right);
    }
}

/// Lists that hold the same are equally long.
pub(crate) proof fn lemma_same_contents_same_length(
    first: Seq<DisplayModel>,
    second: Seq<DisplayModel>,
)
    requires
        first.to_multiset() == second.to_multiset(),
    ensures
        first.len() == second.len(),
{
    broadcast use vstd::seq_lib::group_to_multiset_ensures;

    assert(first.to_multiset().len() == first.len());
    assert(second.to_multiset().len() == second.len());
}

/// A display in one of two lists that hold the same is in the other.
pub(crate) proof fn lemma_same_contents_same_members(
    first: Seq<DisplayModel>,
    second: Seq<DisplayModel>,
    display: DisplayModel,
)
    requires
        first.to_multiset() == second.to_multiset(),
        first.contains(display),
    ensures
        second.contains(display),
{
    broadcast use vstd::seq_lib::group_to_multiset_ensures;

    assert(first.to_multiset().count(display) > 0);
    assert(second.to_multiset().count(display) > 0);
}

/// The arrangement of some displays is the one list in order that holds just them.
pub proof fn law_arrangement_is_the_sorted_list(
    displays: Seq<DisplayModel>,
    list: Seq<DisplayModel>,
)
    ensures
        list == arranged(displays) <==> sorted(list) && list.to_multiset()
            == displays.to_multiset(),
{
    let leq = |left: DisplayModel, right: DisplayModel| displays_in_order(left, right);
    lemma_order_is_a_total_order();
    displays.lemma_sort_by_ensures(leq);
    let in_order = arranged(displays);
    assert(sorted(in_order)) by {
        assert forall|i: int, j: int| 0 <= i < j < in_order.len() implies displays_in_order(
            #[trigger] in_order[i],
            #[trigger] in_order[j],
        ) by {
            assert(leq(in_order[i], in_order[j]));
        }
    }
    if sorted(list) && list.to_multiset() == displays.to_multiset() {
        assert(vstd::relations::sorted_by(list, leq));
        vstd::seq_lib::lemma_sorted_unique(list, in_order, leq);
    }
}

/// The arrangement does not depend on the order in which the system lists the displays, and
/// displays that are arranged stay as they are.
pub proof fn law_layout_is_independent_of_enumeration(
    first: Seq<DisplayModel>,
    second: Seq<DisplayModel>,
)
    ensures
        first.to_multiset() == second.to_multiset() <==> arranged(first) == arranged(second),
        arranged(arranged(first)) == arranged(first),
{
    law_arrangement_is_the_sorted_list(first, arranged(first));
    law_arrangement_is_the_sorted_list(second, arranged(second));
    law_arrangement_is_the_sorted_list(second, arranged(first));
    law_arrangement_is_the_sorted_list(arranged(first), arranged(first));
}

/// Displays go from left to right, those above each other from top to bottom, and those at the same
/// place by width, then by height: each comes strictly before the other.
pub proof fn law_displays_go_by_place_and_size(left: DisplayModel, right: DisplayModel)
    ensures
        ({
            let before = displays_in_order(left, right) && !displays_in_order(right, left);
            let same_place = left.position.x == right.position.x && left.position.y
                == right.position.y;
            &&& left.position.x < right.position.x ==> before
            &&& left.position.x == right.position.x && left.position.y < right.position.y ==> before
            &&& same_place && left.size.width < right.size.width ==> before
            &&& same_place && left.size.width == right.size.width && left.size.height
                < right.size.height ==> before
            &&& same_place && left.size == right.size ==> displays_in_order(left, right)
                == names_in_order(left.name, right.name)
        }),
{
}

/// Names go by their UTF-8 bytes: the first byte that differs decides, and a name comes before one
/// that it begins. A display without a name comes before those with one.
pub proof fn law_names_go_by_their_bytes(
    name: Seq<char>,
    other: Seq<char>,
    at: int,
)
    requires
        0 <= at,
    ensures
        names_in_order(None, Some(name)) && !names_in_order(Some(name), None),
        names_in_order(None, None),
        ({
            let bytes = vstd::utf8::encode_utf8(name);
            let other_bytes = vstd::utf8::encode_utf8(other);
            let alike = at <= bytes.len() && at <= other_bytes.len() && bytes.take(at)
                == other_bytes.take(at);
            &&& alike && at < bytes.len() && at < other_bytes.len() && bytes[at] < other_bytes[at]
                ==> names_in_order(Some(name), Some(other)) && !names_in_order(
                Some(other),
                Some(name),
            )
            &&& alike && at == bytes.len() ==> names_in_order(Some(name), Some(other))
            &&& alike && at == bytes.len() && at < other_bytes.len() ==> !names_in_order(
                Some(other),
                Some(name),
            )
        }),
{
    let bytes = vstd::utf8::encode_utf8(name);
    let other_bytes = vstd::utf8::encode_utf8(other);
    if at <= bytes.len() && at <= other_bytes.len() && bytes.take(at) == other_bytes.take(at) {
        lemma_bytes_after_common_start(bytes, other_bytes, at);
        lemma_bytes_after_common_start(other_bytes, bytes, at);
    }
}

/// A common start does not decide the order.
proof fn lemma_bytes_after_common_start(left: Seq<u8>, right: Seq<u8>, at: int)
    requires
        0 <= at <= left.len(),
        at <= right.len(),
        left.take(at) == right.take(at),
    ensures
        bytes_in_order(left, right) == bytes_in_order(left.skip(at), right.skip(at)),
    decreases at,
{
    if at == 0 {
        assert(left.skip(0) =~= left);
        assert(right.skip(0) =~= right);
    } else {
        let left_rest = left.drop_first();
        let right_rest = right.drop_first();
        assert(left[0] == left.take(at)[0]);
        assert(right[0] == right.take(at)[0]);
        assert(left_rest.take(at - 1) =~= left.take(at).drop_first());
        assert(right_rest.take(at - 1) =~= right.take(at).drop_first());
        lemma_bytes_after_common_start(left_rest, right_rest, at - 1);
        assert(left_rest.skip(at - 1) =~= left.skip(at));
        assert(right_rest.skip(at - 1) =~= right.skip(at));
    }
}

/// Displays are told apart by name, position and size.
pub proof fn law_displays_are_told_apart(left: DisplayGeometry, right: DisplayGeometry)
    ensures
        left@ == right@ <==> {
            &&& left.position.x == right.position.x
            &&& left.position.y == right.position.y
            &&& left.size.width == right.size.width
            &&& left.size.height == right.size.height
            &&& left.name is Some <==> right.name is Some
            &&& left.name is Some ==> left.name->0@ == right.name->0@
        },
{
}

/// An arrangement holds the displays that it was made of, each as often, from left to right.
pub proof fn law_arrangement_goes_from_left_to_right(
    displays: Seq<DisplayModel>,
    first: int,
    second: int,
)
    requires
        0 <= first < second < arranged(displays).len(),
    ensures
        arranged(displays).to_multiset() == displays.to_multiset(),
        arranged(displays)[first].position.x <= arranged(displays)[second].position.x,
        displays_in_order(arranged(displays)[first], arranged(displays)[second]),
{
    law_arrangement_is_the_sorted_list(displays, arranged(displays));
    law_displays_go_by_place_and_size(
        arranged(displays)[second],
        arranged(displays)[first],
    );
}

/// A list of displays has an entry for each display, in its place.
pub proof fn law_lists_hold_every_display(displays: Seq<DisplayGeometry>, at: int)
    requires
        0 <= at < displays.len(),
    ensures
        models(displays).len() == displays.len(),
        models(displays)[at] == displays[at]@,
{
}

} // verus!
