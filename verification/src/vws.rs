//! The variable-width stroke tool: which widths belong to which contour, how the
//! handles the user drags change them, and what a mouse event means to the tool.
use vstd::prelude::*;

verus! {

/// Which of the two width handles of a contour point is meant: `A` sets the left
/// offset, `B` the right one.
#[derive(Clone, Copy, Debug, PartialEq, Eq, Structural)]
pub enum WhichHandle {
    Neither,
    A,
    B,
}

/// The stroke width at one point of a contour: how far the stroke reaches to the left
/// and to the right of the path (`O`), and how the width changes towards the next
/// point (`I`).
#[derive(Clone, Copy, Debug)]
pub struct VwsHandle<O, I> {
    pub left_offset: O,
    pub right_offset: O,
    pub interpolation: I,
}

/// The width handles of one stroked contour; `id` is the index of the glyph's contour
/// that they belong to.
#[derive(Debug)]
pub struct VwsContour<O, I> {
    pub handles: Vec<VwsHandle<O, I>>,
    pub id: usize,
}

/// A stroked contour as a mathematical value.
pub struct VwsContourView<O, I> {
    pub handles: Seq<VwsHandle<O, I>>,
    pub id: usize,
}

impl<O, I> View for VwsContour<O, I> {
    type V = VwsContourView<O, I>;

    open spec fn view(&self) -> VwsContourView<O, I> {
        VwsContourView { handles: self.handles@, id: self.id }
    }
}

/// A table of stroked contours as a mathematical value.
pub open spec fn table_view<O, I>(t: Seq<VwsContour<O, I>>) -> Seq<VwsContourView<O, I>> {
    t.map_values(|c: VwsContour<O, I>| c@)
}

/// `i` is the first position of the table whose contour has the id `id`.
pub open spec fn is_first_with_id<O, I>(t: Seq<VwsContourView<O, I>>, id: usize, i: int) -> bool {
    &&& 0 <= i < t.len()
    &&& t[i].id == id
    &&& forall|j: int| 0 <= j < i ==> t[j].id != id
}

/// The first position of the table whose contour has the id `id`, if any.
pub open spec fn find_contour<O, I>(t: Seq<VwsContourView<O, I>>, id: usize) -> Option<int> {
    if exists|i: int| is_first_with_id(t, id, i) {
        Some(choose|i: int| is_first_with_id(t, id, i))
    } else {
        None
    }
}

/// A table holds at most one first position for an id.
pub proof fn lemma_first_with_id_unique<O, I>(
    t: Seq<VwsContourView<O, I>>,
    id: usize,
    i: int,
    j: int,
)
    requires
        is_first_with_id(t, id, i),
        is_first_with_id(t, id, j),
    ensures
        i == j,
{
    if i < j {
        assert(t[i].id != id);
    } else if j < i {
        assert(t[j].id != id);
    }
}

/// A first position of an id is what `find_contour` gives.
pub proof fn lemma_find_contour<O, I>(t: Seq<VwsContourView<O, I>>, id: usize, i: int)
    requires
        is_first_with_id(t, id, i),
    ensures
        find_contour(t, id) == Some(i),
{
    let c = choose|k: int| is_first_with_id(t, id, k);
    lemma_first_with_id_unique(t, id, i, c);
}

/// A contour of `n` handles, each of them `default`.
pub open spec fn new_contour<O, I>(id: usize, n: nat, default: VwsHandle<O, I>) -> VwsContourView<
    O,
    I,
> {
    VwsContourView { handles: Seq::new(n, |k: int| default), id }
}

/// The table once the glyph contour `id` has a stroked contour: unchanged when it had
/// one, else with a new contour of one default handle per outline point and one more.
pub open spec fn ensure_contour<O, I>(
    t: Seq<VwsContourView<O, I>>,
    id: usize,
    outline_len: nat,
    default: VwsHandle<O, I>,
) -> Seq<VwsContourView<O, I>> {
    if find_contour(t, id) is Some {
        t
    } else {
        t.push(new_contour(id, outline_len + 1, default))
    }
}

/// A handle with the offset on `side` replaced by `pos`.
pub open spec fn with_side<O, I>(h: VwsHandle<O, I>, side: WhichHandle, pos: O) -> VwsHandle<O, I> {
    match side {
        WhichHandle::A => VwsHandle { left_offset: pos, ..h },
        WhichHandle::B => VwsHandle { right_offset: pos, ..h },
        WhichHandle::Neither => h,
    }
}

/// The table with handle `idx` of contour `k` moved to `pos` on `side`.
pub open spec fn set_one<O, I>(
    t: Seq<VwsContourView<O, I>>,
    k: int,
    idx: int,
    side: WhichHandle,
    pos: O,
) -> Seq<VwsContourView<O, I>> {
    if side == WhichHandle::Neither {
        t
    } else {
        t.update(
            k,
            VwsContourView {
                handles: t[k].handles.update(idx, with_side(t[k].handles[idx], side, pos)),
                id: t[k].id,
            },
        )
    }
}

/// Returns the position of the first stroked contour that belongs to the glyph's contour
/// `contour_idx`, or `None` when it has none.
pub fn get_vws_contour<O, I>(contours: &Vec<VwsContour<O, I>>, contour_idx: usize) -> (r: Option<
    usize,
>)
    ensures
        match r {
            Some(i) => find_contour(table_view(contours@), contour_idx) == Some(i as int),
            None => find_contour(table_view(contours@), contour_idx) is None,
        },
{
    let ghost t = table_view(contours@);
    let n = contours.len();
    let mut idx: usize = 0;
    while idx < n
        invariant
            n == contours@.len(),
            t == table_view(contours@),
            idx <= n,
            forall|j: int| 0 <= j < idx ==> t[j].id != contour_idx,
        decreases n - idx,
    {
        if contours[idx].id == contour_idx {
            proof {
                lemma_find_contour(t, contour_idx, idx as int);
            }
            return Some(idx);
        }
        idx = idx + 1;
    }
    assert(!exists|i: int| is_first_with_id(t, contour_idx, i));
    None
}

/// Whether the glyph's contour `idx` is drawn as a plain outline: only when it has no
/// stroked contour.
pub fn should_draw_contour<O, I>(contours: &Vec<VwsContour<O, I>>, idx: usize) -> (r: bool)
    ensures
        r == (find_contour(table_view(contours@), idx) is None),
{
    if get_vws_contour(contours, idx).is_some() {
        return false;
    }
    true
}

/// Adds a stroked contour for the glyph's contour `contour_idx`, whose outline has
/// `outline_len` points: one `default` handle per point, and one more.
pub fn generate_vws_contour<O: Copy, I: Copy>(
    contours: &mut Vec<VwsContour<O, I>>,
    contour_idx: usize,
    outline_len: usize,
    default: VwsHandle<O, I>,
)
    requires
        outline_len < usize::MAX,
    ensures
        table_view(final(contours)@) == table_view(old(contours)@).push(
            new_contour(contour_idx, (outline_len + 1) as nat, default),
        ),
{
    let mut new_vws_contour = VwsContour { handles: Vec::new(), id: contour_idx };
    let n = outline_len + 1;
    let mut i: usize = 0;
    while i < n
        invariant
            i <= n,
            new_vws_contour.id == contour_idx,
            new_vws_contour.handles@ == Seq::new(i as nat, |k: int| default),
        decreases n - i,
    {
        new_vws_contour.handles.push(default);
        i = i + 1;
        assert(new_vws_contour.handles@ =~= Seq::new(i as nat, |k: int| default));
    }
    let ghost before = contours@;
    contours.push(new_vws_contour);
    assert(table_view(contours@) =~= table_view(before).push(
        new_contour(contour_idx, (outline_len + 1) as nat, default),
    ));
}

/// The table with contour `k` topped up with `default` handles to one handle per
/// outline point and one more; a contour that has that many already is left as it is.
pub open spec fn fixed_contour<O, I>(
    t: Seq<VwsContourView<O, I>>,
    k: int,
    outline_len: nat,
    default: VwsHandle<O, I>,
) -> Seq<VwsContourView<O, I>> {
    let missing = if t[k].handles.len() < outline_len + 1 {
        (outline_len + 1 - t[k].handles.len()) as nat
    } else {
        0
    };
    t.update(
        k,
        VwsContourView {
            handles: t[k].handles + Seq::new(missing, |j: int| default),
            id: t[k].id,
        },
    )
}

/// Tops up the handles of the stroked contour at position `contour_idx`, whose glyph
/// contour's outline has `outline_len` points: `default` handles are appended until it
/// holds one handle per point and one more.
pub fn fix_vws_contour<O: Copy, I: Copy>(
    contours: &mut Vec<VwsContour<O, I>>,
    contour_idx: usize,
    outline_len: usize,
    default: VwsHandle<O, I>,
)
    requires
        contour_idx < old(contours)@.len(),
        outline_len < usize::MAX,
    ensures
        table_view(final(contours)@) == fixed_contour(
            table_view(old(contours)@),
            contour_idx as int,
            outline_len as nat,
            default,
        ),
{
    let ghost t = table_view(contours@);
    let wanted = outline_len + 1;
    let vws_contour_size = contours[contour_idx].handles.len();
    if vws_contour_size < wanted {
        let missing = wanted - vws_contour_size;
        let mut i: usize = 0;
        while i < missing
            invariant
                contour_idx < contours@.len(),
                i <= missing,
                contours@.len() == t.len(),
                forall|j: int| 0 <= j < t.len() && j != contour_idx ==> contours@[j]@ == t[j],
                contours@[contour_idx as int].id == t[contour_idx as int].id,
                contours@[contour_idx as int].handles@ == t[contour_idx as int].handles + Seq::new(
                    i as nat,
                    |j: int| default,
                ),
            decreases missing - i,
        {
            contours[contour_idx].handles.push(default);
            i = i + 1;
            assert(contours@[contour_idx as int].handles@ =~= t[contour_idx as int].handles
                + Seq::new(i as nat, |j: int| default));
        }
    }
    assert(t[contour_idx as int].handles + Seq::new(0, |j: int| default) =~= t[contour_idx as int].handles);
    assert(table_view(contours@) =~= fixed_contour(t, contour_idx as int, outline_len as nat, default));
}

/// Moves handle `idx` of the stroked contour at position `k` to `pos` on `side`.
fn set_side<O: Copy, I: Copy>(
    contours: &mut Vec<VwsContour<O, I>>,
    k: usize,
    idx: usize,
    side: WhichHandle,
    pos: O,
)
    requires
        k < old(contours)@.len(),
        side != WhichHandle::Neither ==> idx < old(contours)@[k as int].handles@.len(),
    ensures
        table_view(final(contours)@) == set_one(
            table_view(old(contours)@),
            k as int,
            idx as int,
            side,
            pos,
        ),
{
    let ghost t = table_view(contours@);
    match side {
        WhichHandle::A => {
            contours[k].handles[idx].left_offset = pos;
        },
        WhichHandle::B => {
            contours[k].handles[idx].right_offset = pos;
        },
        WhichHandle::Neither => {},
    }
    assert(table_view(contours@) =~= set_one(t, k as int, idx as int, side, pos));
}

proof fn lemma_first_exists<O, I>(t: Seq<VwsContourView<O, I>>, id: usize, j: int)
    requires
        0 <= j < t.len(),
        t[j].id == id,
    ensures
        exists|i: int| is_first_with_id(t, id, i),
    decreases j,
{
    if forall|k: int| 0 <= k < j ==> t[k].id != id {
        assert(is_first_with_id(t, id, j));
    } else {
        let k = choose|k: int| 0 <= k < j && t[k].id == id;
        lemma_first_exists(t, id, k);
    }
}

/// No first position for an id means that no contour of the table has that id.
pub proof fn lemma_find_none<O, I>(t: Seq<VwsContourView<O, I>>, id: usize)
    requires
        find_contour(t, id) is None,
    ensures
        forall|j: int| 0 <= j < t.len() ==> t[j].id != id,
{
    assert forall|j: int| 0 <= j < t.len() implies t[j].id != id by {
        if t[j].id == id {
            lemma_first_exists(t, id, j);
        }
    }
}

/// Once the glyph contour `id` has been given a stroked contour, it is found, and it
/// has the handles that were there or, when it is new, one per outline point and one
/// more.
pub proof fn lemma_ensure_contour<O, I>(
    t: Seq<VwsContourView<O, I>>,
    id: usize,
    outline_len: nat,
    default: VwsHandle<O, I>,
)
    ensures
        find_contour(ensure_contour(t, id, outline_len, default), id) is Some,
        find_contour(t, id) is Some ==> ensure_contour(t, id, outline_len, default) == t,
        find_contour(t, id) is None ==> find_contour(ensure_contour(t, id, outline_len, default), id)
            == Some(t.len() as int),
        handle_count(ensure_contour(t, id, outline_len, default), id, outline_len)
            == handle_count(t, id, outline_len),
{
    if find_contour(t, id) is None {
        lemma_find_none(t, id);
        let t1 = ensure_contour(t, id, outline_len, default);
        assert(is_first_with_id(t1, id, t.len() as int));
        lemma_find_contour(t1, id, t.len() as int);
    }
}

/// How many handles the stroked contour of the glyph contour `id` has, counting one per
/// outline point and one more when it has none yet.
pub open spec fn handle_count<O, I>(t: Seq<VwsContourView<O, I>>, id: usize, outline_len: nat) -> nat {
    match find_contour(t, id) {
        Some(k) => t[k].handles.len(),
        None => outline_len + 1,
    }
}

/// The inputs on which `set_vws_handle` does its work: a new contour's handle count
/// fits in a `usize`, a closed contour has a last handle to mirror handle 0 to, and the
/// handle that is moved exists.
pub open spec fn can_set_vws_handle<O, I>(
    t: Seq<VwsContourView<O, I>>,
    contour_idx: usize,
    handle_idx: usize,
    side: WhichHandle,
    outline_len: nat,
    closed: bool,
) -> bool {
    &&& find_contour(t, contour_idx) is None ==> outline_len < usize::MAX
    &&& handle_idx == 0 && closed ==> handle_count(t, contour_idx, outline_len) > 0
    &&& side != WhichHandle::Neither ==> handle_idx < handle_count(t, contour_idx, outline_len)
}

/// The table after `set_vws_handle`: the glyph contour has a stroked contour, whose
/// handle `handle_idx` is moved to `pos` on `side`; on a closed contour handle 0 and
/// the last handle are the same point, so moving handle 0 moves the last one too.
pub open spec fn vws_handle_set<O, I>(
    t: Seq<VwsContourView<O, I>>,
    contour_idx: usize,
    handle_idx: usize,
    side: WhichHandle,
    pos: O,
    outline_len: nat,
    closed: bool,
    default: VwsHandle<O, I>,
) -> Seq<VwsContourView<O, I>> {
    let t1 = ensure_contour(t, contour_idx, outline_len, default);
    let k = find_contour(t1, contour_idx)->Some_0;
    let t2 = if handle_idx == 0 && closed {
        set_one(t1, k, t1[k].handles.len() - 1, side, pos)
    } else {
        t1
    };
    set_one(t2, k, handle_idx as int, side, pos)
}

/// Moves handle `handle_idx` of the glyph contour `contour_idx` to `pos` on `side`,
/// giving the contour its stroked contour first when it has none; `outline_len` and
/// `closed` describe the glyph contour's outline.
pub fn set_vws_handle<O: Copy, I: Copy>(
    contours: &mut Vec<VwsContour<O, I>>,
    contour_idx: usize,
    handle_idx: usize,
    side: WhichHandle,
    pos: O,
    outline_len: usize,
    closed: bool,
    default: VwsHandle<O, I>,
)
    requires
        can_set_vws_handle(
            table_view(old(contours)@),
            contour_idx,
            handle_idx,
            side,
            outline_len as nat,
            closed,
        ),
    ensures
        table_view(final(contours)@) == vws_handle_set(
            table_view(old(contours)@),
            contour_idx,
            handle_idx,
            side,
            pos,
            outline_len as nat,
            closed,
            default,
        ),
{
    let ghost t = table_view(contours@);
    proof {
        lemma_ensure_contour(t, contour_idx, outline_len as nat, default);
    }
    if get_vws_contour(contours, contour_idx).is_none() {
        generate_vws_contour(contours, contour_idx, outline_len, default);
    }
    let ghost t1 = table_view(contours@);
    assert(t1 == ensure_contour(t, contour_idx, outline_len as nat, default));
    // the contour exists now
    let vws_contour = get_vws_contour(contours, contour_idx).unwrap();
    assert(contours@[vws_contour as int].handles@ == t1[vws_contour as int].handles);
    let ghost k = vws_contour as int;
    if handle_idx == 0 && closed {
        let last_handle = contours[vws_contour].handles.len() - 1;
        set_side(contours, vws_contour, last_handle, side, pos);
        assert(table_view(contours@).len() == contours@.len());
        assert(table_view(contours@)[k].handles.len() == t1[k].handles.len());
    }
    assert(table_view(contours@).len() == contours@.len());
    assert(table_view(contours@)[k] == contours@[k]@);
    set_side(contours, vws_contour, handle_idx, side, pos);
}

/// A handle with both offsets at `pos` when `ctrl` is held, else with the offset on
/// `side` at `pos`.
pub open spec fn with_all<O, I>(h: VwsHandle<O, I>, side: WhichHandle, pos: O, ctrl: bool) -> VwsHandle<
    O,
    I,
> {
    if ctrl {
        VwsHandle { left_offset: pos, right_offset: pos, ..h }
    } else {
        with_side(h, side, pos)
    }
}

/// The table after `set_all_vws_handles`: every handle of the glyph contour's stroked
/// contour is moved to `pos`, on both sides when `ctrl` is held.
pub open spec fn all_vws_handles_set<O, I>(
    t: Seq<VwsContourView<O, I>>,
    contour_idx: usize,
    side: WhichHandle,
    pos: O,
    ctrl: bool,
    outline_len: nat,
    default: VwsHandle<O, I>,
) -> Seq<VwsContourView<O, I>> {
    let t1 = ensure_contour(t, contour_idx, outline_len, default);
    let k = find_contour(t1, contour_idx)->Some_0;
    t1.update(
        k,
        VwsContourView {
            handles: t1[k].handles.map_values(|h: VwsHandle<O, I>| with_all(h, side, pos, ctrl)),
            id: t1[k].id,
        },
    )
}

/// Moves every handle of the glyph contour `contour_idx` to `pos`: on both sides when
/// `ctrl` is held, else on `side`; the contour gets its stroked contour first when it
/// has none.
pub fn set_all_vws_handles<O: Copy, I: Copy>(
    contours: &mut Vec<VwsContour<O, I>>,
    contour_idx: usize,
    side: WhichHandle,
    pos: O,
    ctrl: bool,
    outline_len: usize,
    default: VwsHandle<O, I>,
)
    requires
        find_contour(table_view(old(contours)@), contour_idx) is None ==> outline_len < usize::MAX,
    ensures
        table_view(final(contours)@) == all_vws_handles_set(
            table_view(old(contours)@),
            contour_idx,
            side,
            pos,
            ctrl,
            outline_len as nat,
            default,
        ),
{
    let ghost t = table_view(contours@);
    proof {
        lemma_ensure_contour(t, contour_idx, outline_len as nat, default);
    }
    if get_vws_contour(contours, contour_idx).is_none() {
        generate_vws_contour(contours, contour_idx, outline_len, default);
    }
    let ghost t1 = table_view(contours@);
    assert(t1 == ensure_contour(t, contour_idx, outline_len as nat, default));
    // the contour exists now
    let vws_contour = get_vws_contour(contours, contour_idx).unwrap();
    let ghost k = vws_contour as int;
    let ghost hs = t1[k].handles;
    let n = contours[vws_contour].handles.len();
    let mut handle_idx: usize = 0;
    while handle_idx < n
        invariant
            k == vws_contour as int,
            vws_contour < contours@.len(),
            contours@.len() == t1.len(),
            n == hs.len(),
            handle_idx <= n,
            forall|j: int| 0 <= j < t1.len() && j != k ==> contours@[j]@ == t1[j],
            contours@[k].id == t1[k].id,
            contours@[k].handles@.len() == n,
            forall|j: int|
                0 <= j < handle_idx ==> contours@[k].handles@[j] == with_all(hs[j], side, pos, ctrl),
            forall|j: int| handle_idx <= j < n ==> contours@[k].handles@[j] == hs[j],
        decreases n - handle_idx,
    {
        if ctrl {
            contours[vws_contour].handles[handle_idx].left_offset = pos;
            contours[vws_contour].handles[handle_idx].right_offset = pos;
        } else {
            match side {
                WhichHandle::A => {
                    contours[vws_contour].handles[handle_idx].left_offset = pos;
                },
                WhichHandle::B => {
                    contours[vws_contour].handles[handle_idx].right_offset = pos;
                },
                WhichHandle::Neither => {},
            }
        }
        handle_idx = handle_idx + 1;
    }
    assert(find_contour(t1, contour_idx) == Some(k));
    assert(contours@[k].handles@ =~= hs.map_values(
        |h: VwsHandle<O, I>| with_all(h, side, pos, ctrl),
    ));
    assert(table_view(contours@) =~= all_vws_handles_set(
        t,
        contour_idx,
        side,
        pos,
        ctrl,
        outline_len as nat,
        default,
    ));
}

/// The table once `get_vws_handle` has made sure that contour `vc` reaches handle
/// `handle_idx`: topped up when that handle does not exist yet.
pub open spec fn handle_reached<O, I>(
    t: Seq<VwsContourView<O, I>>,
    vc: int,
    handle_idx: usize,
    outline_len: nat,
    default: VwsHandle<O, I>,
) -> Seq<VwsContourView<O, I>> {
    if t[vc].handles.len() <= handle_idx {
        fixed_contour(t, vc, outline_len, default)
    } else {
        t
    }
}

/// The inputs on which `get_vws_handle` does its work: the stroked contour exists, and
/// a handle it does not hold yet lies within one handle per outline point and one more.
pub open spec fn can_get_vws_handle<O, I>(
    t: Seq<VwsContourView<O, I>>,
    vcontour: Option<usize>,
    handle_idx: usize,
    outline_len: nat,
) -> bool {
    match vcontour {
        Some(vc) => {
            &&& vc < t.len()
            &&& t[vc as int].handles.len() <= handle_idx ==> {
                &&& handle_idx < outline_len + 1
                &&& outline_len < usize::MAX
            }
        },
        None => true,
    }
}

/// The handle `handle_idx` of the stroked contour at position `vcontour`; when the
/// contour does not hold that handle yet, `default` handles are first added until it
/// holds one per point of its glyph contour's outline (`outline_len` points) and one
/// more. Without a stroked contour, the `default` handle.
pub fn get_vws_handle<O: Copy, I: Copy>(
    contours: &mut Vec<VwsContour<O, I>>,
    vcontour: Option<usize>,
    handle_idx: usize,
    outline_len: usize,
    default: VwsHandle<O, I>,
) -> (h: VwsHandle<O, I>)
    requires
        can_get_vws_handle(table_view(old(contours)@), vcontour, handle_idx, outline_len as nat),
    ensures
        match vcontour {
            Some(vc) => {
                let t1 = handle_reached(
                    table_view(old(contours)@),
                    vc as int,
                    handle_idx,
                    outline_len as nat,
                    default,
                );
                &&& table_view(final(contours)@) == t1
                &&& h == t1[vc as int].handles[handle_idx as int]
            },
            None => {
                &&& final(contours)@ == old(contours)@
                &&& h == default
            },
        },
{
    let ghost t = table_view(contours@);
    if let Some(vc) = vcontour {
        assert(t.len() == contours@.len() && t[vc as int] == contours@[vc as int]@);
        // if the contour exists but this handle doesn't, handles are added until the
        // contour has the right amount
        if contours[vc].handles.len() <= handle_idx {
            fix_vws_contour(contours, vc, outline_len, default);
        }
        assert(table_view(contours@).len() == contours@.len());
        assert(table_view(contours@)[vc as int] == contours@[vc as int]@);
        return contours[vc].handles[handle_idx];
    }
    default
}

/// What the stroke tool remembers between mouse events: the glyph contour and the point
/// whose handle was clicked, which of its handles, how the editor follows the mouse
/// (`F`), and whether shift or ctrl was held.
#[derive(Clone, Copy, Debug)]
pub struct VwsToolData<F> {
    pub contour: Option<usize>,
    pub cur_point: Option<usize>,
    pub follow: F,
    pub handle: WhichHandle,
    pub shift: bool,
    pub ctrl: bool,
}

/// Which handle of a point a click hits, given whether it lies in the box of the left
/// handle and in that of the right one: the left handle wins when both are hit.
pub fn handle_hit(left: bool, right: bool) -> (r: Option<WhichHandle>)
    ensures
        r == (if left {
            Some(WhichHandle::A)
        } else if right {
            Some(WhichHandle::B)
        } else {
            None
        }),
{
    if left {
        Some(WhichHandle::A)
    } else if right {
        Some(WhichHandle::B)
    } else {
        None
    }
}

/// The tool's memory once nothing is selected.
pub open spec fn deselected<F>(data: VwsToolData<F>) -> VwsToolData<F> {
    VwsToolData { contour: None, cur_point: None, handle: WhichHandle::Neither, ..data }
}

/// The tool's memory after a press of the mouse button, `clicked` being the contour,
/// point and handle under the mouse, if any.
pub open spec fn pressed<F>(
    data: VwsToolData<F>,
    clicked: Option<(usize, usize, WhichHandle)>,
    follow: F,
    shift: bool,
    ctrl: bool,
) -> VwsToolData<F> {
    match clicked {
        Some((ci, pi, wh)) => VwsToolData {
            contour: Some(ci),
            cur_point: Some(pi),
            follow,
            handle: wh,
            shift,
            ctrl,
        },
        None => deselected(data),
    }
}

/// A press of the mouse button: `clicked` is the contour, point and handle under the
/// mouse, if any. A click on a handle selects it and records the follow mode and the
/// modifier keys; a click elsewhere clears the selection. The event is never consumed.
pub fn mouse_pressed<F>(
    data: &mut VwsToolData<F>,
    clicked: Option<(usize, usize, WhichHandle)>,
    follow: F,
    shift: bool,
    ctrl: bool,
) -> (handled: bool)
    ensures
        !handled,
        *final(data) == pressed(*old(data), clicked, follow, shift, ctrl),
{
    match clicked {
        Some((ci, pi, wh)) => {
            data.contour = Some(ci);
            data.cur_point = Some(pi);
            data.follow = follow;
            data.handle = wh;
            data.shift = shift;
            data.ctrl = ctrl;
        },
        None => {
            data.contour = None;
            data.cur_point = None;
            data.handle = WhichHandle::Neither;
        },
    }
    false
}

/// A mouse button event the tool does not act on.
pub fn mouse_button() -> (handled: bool)
    ensures
        !handled,
{
    false
}

/// The mouse button is let go: the selection is cleared and the event consumed.
pub fn mouse_released<F>(data: &mut VwsToolData<F>) -> (handled: bool)
    ensures
        handled,
        *final(data) == deselected(*old(data)),
{
    data.contour = None;
    data.cur_point = None;
    data.handle = WhichHandle::Neither;
    true
}

/// What a mouse move means to the stroke tool.
#[derive(Clone, Copy, Debug, PartialEq, Eq, Structural)]
pub enum MouseMove {
    /// The button is up: the tool does not consume the event.
    Ignored,
    /// The button is down but no handle is selected: consumed, nothing moves.
    Handled,
    /// The selected handle follows the mouse: consumed.
    Drag { contour: usize, point: usize, handle: WhichHandle },
}

impl MouseMove {
    /// Whether the tool consumed the mouse move.
    pub fn handled(&self) -> (r: bool)
        ensures
            r == !(*self is Ignored),
    {
        match self {
            MouseMove::Ignored => false,
            _ => true,
        }
    }
}

/// What a mouse move means: nothing while the button is up; while it is down, a drag of
/// the selected handle, if one is selected.
pub open spec fn move_outcome<F>(data: VwsToolData<F>, mousedown: bool) -> MouseMove {
    if !mousedown {
        MouseMove::Ignored
    } else {
        match (data.contour, data.cur_point) {
            (Some(ci), Some(pi)) => MouseMove::Drag { contour: ci, point: pi, handle: data.handle },
            _ => MouseMove::Handled,
        }
    }
}

/// A move of the mouse, with the button held down or not: while it is down and a
/// handle is selected, that handle is dragged.
pub fn mouse_moved<F>(data: &VwsToolData<F>, mousedown: bool) -> (r: MouseMove)
    ensures
        r == move_outcome(*data, mousedown),
{
    if !mousedown {
        return MouseMove::Ignored;
    }
    match (data.contour, data.cur_point) {
        (Some(ci), Some(pi)) => MouseMove::Drag { contour: ci, point: pi, handle: data.handle },
        _ => MouseMove::Handled,
    }
}

/// The inputs on which `drag_vws_handle` does its work.
pub open spec fn can_drag_vws_handle<O, I, F>(
    data: VwsToolData<F>,
    t: Seq<VwsContourView<O, I>>,
    contour_idx: usize,
    handle_idx: usize,
    side: WhichHandle,
    outline_len: nat,
    closed: bool,
) -> bool {
    if data.shift || data.ctrl {
        find_contour(t, contour_idx) is None ==> outline_len < usize::MAX
    } else {
        can_set_vws_handle(t, contour_idx, handle_idx, side, outline_len, closed)
    }
}

/// The table after a drag: with shift or ctrl held every handle of the contour moves,
/// else only the dragged one.
pub open spec fn vws_handle_dragged<O, I, F>(
    data: VwsToolData<F>,
    t: Seq<VwsContourView<O, I>>,
    contour_idx: usize,
    handle_idx: usize,
    side: WhichHandle,
    pos: O,
    outline_len: nat,
    closed: bool,
    default: VwsHandle<O, I>,
) -> Seq<VwsContourView<O, I>> {
    if data.shift || data.ctrl {
        all_vws_handles_set(t, contour_idx, side, pos, data.ctrl, outline_len, default)
    } else {
        vws_handle_set(t, contour_idx, handle_idx, side, pos, outline_len, closed, default)
    }
}

/// Drags handle `handle_idx` of the glyph contour `contour_idx` to the offset `pos`
/// that the mouse is at: with shift or ctrl held every handle of the contour follows.
pub fn drag_vws_handle<O: Copy, I: Copy, F>(
    data: &VwsToolData<F>,
    contours: &mut Vec<VwsContour<O, I>>,
    contour_idx: usize,
    handle_idx: usize,
    side: WhichHandle,
    pos: O,
    outline_len: usize,
    closed: bool,
    default: VwsHandle<O, I>,
)
    requires
        can_drag_vws_handle(
            *data,
            table_view(old(contours)@),
            contour_idx,
            handle_idx,
            side,
            outline_len as nat,
            closed,
        ),
    ensures
        table_view(final(contours)@) == vws_handle_dragged(
            *data,
            table_view(old(contours)@),
            contour_idx,
            handle_idx,
            side,
            pos,
            outline_len as nat,
            closed,
            default,
        ),
{
    // with shift or ctrl held all the points are scaled
    if data.shift || data.ctrl {
        set_all_vws_handles(contours, contour_idx, side, pos, data.ctrl, outline_len, default);
    } else {
        set_vws_handle(contours, contour_idx, handle_idx, side, pos, outline_len, closed, default);
    }
}

/// Whether the stroke previews are to be made again: only while the mouse button is
/// down.
pub fn update_previews(mousedown: bool) -> (regenerate: bool)
    ensures
        regenerate == mousedown,
{
    if !mousedown {
        return false;
    }
    true
}

/// The handle that was clicked is the one that is dragged: after a press on a handle,
/// moving the mouse with the button down drags that handle of that point and contour.
pub proof fn lemma_clicked_handle_is_dragged<F>(
    data: VwsToolData<F>,
    ci: usize,
    pi: usize,
    wh: WhichHandle,
    follow: F,
    shift: bool,
    ctrl: bool,
)
    ensures
        move_outcome(pressed(data, Some((ci, pi, wh)), follow, shift, ctrl), true)
            == (MouseMove::Drag { contour: ci, point: pi, handle: wh }),
{
}

/// Nothing is dragged once the button was let go, or after a press beside every handle:
/// moving the mouse with the button down then drags no handle.
pub proof fn lemma_deselected_drags_nothing<F>(data: VwsToolData<F>, follow: F, shift: bool, ctrl: bool)
    ensures
        move_outcome(deselected(data), true) == MouseMove::Handled,
        move_outcome(pressed(data, None, follow, shift, ctrl), true) == MouseMove::Handled,
{
}

/// Setting a handle reads back. Afterwards the glyph contour has a stroked contour with
/// as many handles as before (one per outline point and one more when it is new);
/// handle `handle_idx` holds `pos` on `side`; on a closed contour, moving handle 0
/// moves the last handle too; every other handle, and every other stroked contour, is
/// left as it was.
pub proof fn lemma_set_vws_handle_reads_back<O, I>(
    t: Seq<VwsContourView<O, I>>,
    contour_idx: usize,
    handle_idx: usize,
    side: WhichHandle,
    pos: O,
    outline_len: nat,
    closed: bool,
    default: VwsHandle<O, I>,
)
    requires
        can_set_vws_handle(t, contour_idx, handle_idx, side, outline_len, closed),
    ensures
        ({
            let t1 = ensure_contour(t, contour_idx, outline_len, default);
            let r = vws_handle_set(t, contour_idx, handle_idx, side, pos, outline_len, closed, default);
            let k = find_contour(r, contour_idx)->Some_0;
            let n = handle_count(t, contour_idx, outline_len);
            let mirrored = handle_idx == 0 && closed;
            &&& find_contour(r, contour_idx) == find_contour(t1, contour_idx)
            &&& find_contour(r, contour_idx) is Some
            &&& r.len() == t1.len()
            &&& r[k].id == contour_idx
            &&& r[k].handles.len() == n
            &&& side == WhichHandle::A ==> r[k].handles[handle_idx as int].left_offset == pos
            &&& side == WhichHandle::B ==> r[k].handles[handle_idx as int].right_offset == pos
            &&& side == WhichHandle::A && mirrored ==> r[k].handles[n - 1].left_offset == pos
            &&& side == WhichHandle::B && mirrored ==> r[k].handles[n - 1].right_offset == pos
            &&& forall|i: int|
                0 <= i < n && i != handle_idx && !(mirrored && i == n - 1) ==> r[k].handles[i]
                    == t1[k].handles[i]
            &&& forall|j: int| 0 <= j < t.len() && j != k ==> r[j] == t[j]
        }),
{
    let t1 = ensure_contour(t, contour_idx, outline_len, default);
    lemma_ensure_contour(t, contour_idx, outline_len, default);
    let k = find_contour(t1, contour_idx)->Some_0;
    assert(is_first_with_id(t1, contour_idx, k)) by {
        let c = choose|i: int| is_first_with_id(t1, contour_idx, i);
        assert(is_first_with_id(t1, contour_idx, c));
    }
    let r = vws_handle_set(t, contour_idx, handle_idx, side, pos, outline_len, closed, default);
    assert(r.len() == t1.len());
    assert(r[k].id == t1[k].id);
    assert forall|j: int| 0 <= j < k implies r[j].id != contour_idx by {
        assert(r[j] == t1[j]);
    }
    assert(is_first_with_id(r, contour_idx, k));
    lemma_find_contour(r, contour_idx, k);
    if find_contour(t, contour_idx) is None {
        assert(k == t.len());
    }
}

/// Setting every handle reads back: afterwards each handle of the glyph contour's
/// stroked contour holds `pos` on both sides when `ctrl` is held, else on `side`; the
/// number of handles is kept and every other stroked contour is left as it was.
pub proof fn lemma_set_all_vws_handles_reads_back<O, I>(
    t: Seq<VwsContourView<O, I>>,
    contour_idx: usize,
    side: WhichHandle,
    pos: O,
    ctrl: bool,
    outline_len: nat,
    default: VwsHandle<O, I>,
)
    ensures
        ({
            let t1 = ensure_contour(t, contour_idx, outline_len, default);
            let r = all_vws_handles_set(t, contour_idx, side, pos, ctrl, outline_len, default);
            let k = find_contour(r, contour_idx)->Some_0;
            let n = handle_count(t, contour_idx, outline_len);
            &&& find_contour(r, contour_idx) == find_contour(t1, contour_idx)
            &&& find_contour(r, contour_idx) is Some
            &&& r.len() == t1.len()
            &&& r[k].handles.len() == n
            &&& forall|i: int|
                0 <= i < n ==> {
                    &&& (ctrl || side == WhichHandle::A) ==> r[k].handles[i].left_offset == pos
                    &&& (ctrl || side == WhichHandle::B) ==> r[k].handles[i].right_offset == pos
                }
            &&& forall|j: int| 0 <= j < t.len() && j != k ==> r[j] == t[j]
        }),
{
    let t1 = ensure_contour(t, contour_idx, outline_len, default);
    lemma_ensure_contour(t, contour_idx, outline_len, default);
    let k = find_contour(t1, contour_idx)->Some_0;
    assert(is_first_with_id(t1, contour_idx, k)) by {
        let c = choose|i: int| is_first_with_id(t1, contour_idx, i);
        assert(is_first_with_id(t1, contour_idx, c));
    }
    let r = all_vws_handles_set(t, contour_idx, side, pos, ctrl, outline_len, default);
    assert forall|j: int| 0 <= j < k implies r[j].id != contour_idx by {
        assert(r[j] == t1[j]);
    }
    assert(is_first_with_id(r, contour_idx, k));
    lemma_find_contour(r, contour_idx, k);
    if find_contour(t, contour_idx) is None {
        assert(k == t.len());
    }
}

/// Reading a handle that a stroked contour does not hold yet tops the contour up: it
/// then holds one handle per outline point and one more, its old handles first and
/// default handles after them, the handle read is a default one, and every other
/// contour is left as it was. A contour that holds the handle is left as it is.
pub proof fn lemma_get_vws_handle_tops_up<O, I>(
    t: Seq<VwsContourView<O, I>>,
    vc: int,
    handle_idx: usize,
    outline_len: nat,
    default: VwsHandle<O, I>,
)
    requires
        0 <= vc < t.len(),
    ensures
        ({
            let r = handle_reached(t, vc, handle_idx, outline_len, default);
            let n = t[vc].handles.len();
            &&& r.len() == t.len()
            &&& r[vc].id == t[vc].id
            &&& forall|j: int| 0 <= j < t.len() && j != vc ==> r[j] == t[j]
            &&& handle_idx < n ==> r == t
            &&& n <= handle_idx < outline_len + 1 ==> {
                &&& r[vc].handles.len() == outline_len + 1
                &&& r[vc].handles.subrange(0, n as int) == t[vc].handles
                &&& forall|i: int| n <= i < outline_len + 1 ==> r[vc].handles[i] == default
                &&& r[vc].handles[handle_idx as int] == default
            }
        }),
{
    let r = handle_reached(t, vc, handle_idx, outline_len, default);
    let n = t[vc].handles.len();
    if n <= handle_idx && handle_idx < outline_len + 1 {
        assert(r[vc].handles.subrange(0, n as int) =~= t[vc].handles);
    }
}

/// The stroked contour that the glyph contour had, or else the new one: the table is
/// unchanged when the glyph contour had a stroked contour, and a new one holds only
/// `default` handles, one per outline point and one more.
pub proof fn lemma_ensure_contour_before<O, I>(
    t: Seq<VwsContourView<O, I>>,
    contour_idx: usize,
    outline_len: nat,
    default: VwsHandle<O, I>,
)
    ensures
        ({
            let t1 = ensure_contour(t, contour_idx, outline_len, default);
            let k = find_contour(t1, contour_idx)->Some_0;
            &&& find_contour(t, contour_idx) is Some ==> t1 == t && find_contour(t, contour_idx)
                == Some(k)
            &&& find_contour(t, contour_idx) is None ==> {
                &&& k == t.len()
                &&& t1[k].id == contour_idx
                &&& t1[k].handles.len() == outline_len + 1
                &&& forall|i: int| 0 <= i < outline_len + 1 ==> t1[k].handles[i] == default
            }
        }),
{
    lemma_ensure_contour(t, contour_idx, outline_len, default);
}

/// Setting a handle moves only the offset on its side: the moved handle (and, on a
/// closed contour, the last handle when handle 0 moves) keeps its other offset and its
/// interpolation; with no side, nothing changes.
pub proof fn lemma_set_vws_handle_keeps_other_fields<O, I>(
    t: Seq<VwsContourView<O, I>>,
    contour_idx: usize,
    handle_idx: usize,
    side: WhichHandle,
    pos: O,
    outline_len: nat,
    closed: bool,
    default: VwsHandle<O, I>,
)
    requires
        can_set_vws_handle(t, contour_idx, handle_idx, side, outline_len, closed),
    ensures
        ({
            let t1 = ensure_contour(t, contour_idx, outline_len, default);
            let r = vws_handle_set(t, contour_idx, handle_idx, side, pos, outline_len, closed, default);
            let k = find_contour(t1, contour_idx)->Some_0;
            let n = handle_count(t, contour_idx, outline_len);
            let mirrored = handle_idx == 0 && closed;
            &&& side == WhichHandle::Neither ==> r == t1
            &&& forall|i: int|
                0 <= i < n && (i == handle_idx || (mirrored && i == n - 1)) ==> {
                    &&& r[k].handles[i].interpolation == t1[k].handles[i].interpolation
                    &&& side == WhichHandle::A ==> r[k].handles[i].left_offset == pos
                        && r[k].handles[i].right_offset == t1[k].handles[i].right_offset
                    &&& side == WhichHandle::B ==> r[k].handles[i].right_offset == pos
                        && r[k].handles[i].left_offset == t1[k].handles[i].left_offset
                }
        }),
{
    lemma_set_vws_handle_reads_back(t, contour_idx, handle_idx, side, pos, outline_len, closed, default);
    lemma_ensure_contour(t, contour_idx, outline_len, default);
}

/// Setting every handle moves only offsets: each handle of the contour keeps its
/// interpolation, and without ctrl keeps the offset on the other side (and, with no
/// side, is left as it was).
pub proof fn lemma_set_all_vws_handles_keeps_other_fields<O, I>(
    t: Seq<VwsContourView<O, I>>,
    contour_idx: usize,
    side: WhichHandle,
    pos: O,
    ctrl: bool,
    outline_len: nat,
    default: VwsHandle<O, I>,
)
    ensures
        ({
            let t1 = ensure_contour(t, contour_idx, outline_len, default);
            let r = all_vws_handles_set(t, contour_idx, side, pos, ctrl, outline_len, default);
            let k = find_contour(t1, contour_idx)->Some_0;
            let n = handle_count(t, contour_idx, outline_len);
            &&& r[k].id == t1[k].id
            &&& forall|i: int|
                0 <= i < n ==> {
                    &&& r[k].handles[i].interpolation == t1[k].handles[i].interpolation
                    &&& !ctrl && side == WhichHandle::A ==> r[k].handles[i].right_offset
                        == t1[k].handles[i].right_offset
                    &&& !ctrl && side == WhichHandle::B ==> r[k].handles[i].left_offset
                        == t1[k].handles[i].left_offset
                    &&& !ctrl && side == WhichHandle::Neither ==> r[k].handles[i]
                        == t1[k].handles[i]
                }
        }),
{
    lemma_set_all_vws_handles_reads_back(t, contour_idx, side, pos, ctrl, outline_len, default);
    lemma_ensure_contour(t, contour_idx, outline_len, default);
}

/// A drag without shift or ctrl is a setting of the dragged handle: on a closed
/// contour, dragging handle 0 also moves the last handle on that side, and every other
/// handle and contour stays. With shift or ctrl held every handle of the contour moves
/// to the new offset: on both sides with ctrl, on the dragged side with shift.
pub proof fn lemma_drag_vws_handle<O, I, F>(
    data: VwsToolData<F>,
    t: Seq<VwsContourView<O, I>>,
    contour_idx: usize,
    handle_idx: usize,
    side: WhichHandle,
    pos: O,
    outline_len: nat,
    closed: bool,
    default: VwsHandle<O, I>,
)
    requires
        can_drag_vws_handle(data, t, contour_idx, handle_idx, side, outline_len, closed),
    ensures
        ({
            let t1 = ensure_contour(t, contour_idx, outline_len, default);
            let r = vws_handle_dragged(
                data,
                t,
                contour_idx,
                handle_idx,
                side,
                pos,
                outline_len,
                closed,
                default,
            );
            let k = find_contour(t1, contour_idx)->Some_0;
            let n = handle_count(t, contour_idx, outline_len);
            let mirrored = handle_idx == 0 && closed;
            &&& find_contour(r, contour_idx) == Some(k)
            &&& r.len() == t1.len()
            &&& r[k].handles.len() == n
            &&& forall|j: int| 0 <= j < t.len() && j != k ==> r[j] == t[j]
            &&& !data.shift && !data.ctrl ==> {
                &&& side == WhichHandle::A ==> r[k].handles[handle_idx as int].left_offset == pos
                &&& side == WhichHandle::B ==> r[k].handles[handle_idx as int].right_offset == pos
                &&& side == WhichHandle::A && mirrored ==> r[k].handles[n - 1].left_offset == pos
                &&& side == WhichHandle::B && mirrored ==> r[k].handles[n - 1].right_offset == pos
                &&& forall|i: int|
                    0 <= i < n && i != handle_idx && !(mirrored && i == n - 1) ==> r[k].handles[i]
                        == t1[k].handles[i]
            }
            &&& (data.shift || data.ctrl) ==> forall|i: int|
                0 <= i < n ==> {
                    &&& (data.ctrl || side == WhichHandle::A) ==> r[k].handles[i].left_offset == pos
                    &&& (data.ctrl || side == WhichHandle::B) ==> r[k].handles[i].right_offset
                        == pos
                    &&& r[k].handles[i].interpolation == t1[k].handles[i].interpolation
                }
        }),
{
    lemma_ensure_contour(t, contour_idx, outline_len, default);
    if data.shift || data.ctrl {
        lemma_set_all_vws_handles_reads_back(t, contour_idx, side, pos, data.ctrl, outline_len, default);
        lemma_set_all_vws_handles_keeps_other_fields(
            t,
            contour_idx,
            side,
            pos,
            data.ctrl,
            outline_len,
            default,
        );
    } else {
        lemma_set_vws_handle_reads_back(t, contour_idx, handle_idx, side, pos, outline_len, closed, default);
    }
}

} // verus!
