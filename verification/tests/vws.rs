use mfekglif::vws::{
    drag_vws_handle, fix_vws_contour, handle_hit, generate_vws_contour, get_vws_contour, get_vws_handle,
    mouse_button, mouse_moved, mouse_pressed, mouse_released, set_all_vws_handles,
    set_vws_handle, should_draw_contour, update_previews, MouseMove, VwsContour, VwsHandle,
    VwsToolData, WhichHandle,
};

type H = VwsHandle<f64, u8>;

const DEFAULT: H = VwsHandle { left_offset: 10.0, right_offset: 10.0, interpolation: 1 };

fn handle(l: f64, r: f64) -> H {
    VwsHandle { left_offset: l, right_offset: r, interpolation: 1 }
}

fn contour(id: usize, hs: &[(f64, f64)]) -> VwsContour<f64, u8> {
    VwsContour { handles: hs.iter().map(|&(l, r)| handle(l, r)).collect(), id }
}

fn offsets(c: &VwsContour<f64, u8>) -> Vec<(f64, f64)> {
    c.handles.iter().map(|h| (h.left_offset, h.right_offset)).collect()
}

fn tool() -> VwsToolData<u8> {
    VwsToolData { contour: None, cur_point: None, follow: 0, handle: WhichHandle::Neither, shift: false, ctrl: false }
}

#[test]
fn get_vws_contour_finds_the_first_with_the_id() {
    let cs = vec![contour(4, &[]), contour(2, &[]), contour(2, &[(1.0, 1.0)])];
    assert_eq!(get_vws_contour(&cs, 2), Some(1));
    assert_eq!(get_vws_contour(&cs, 4), Some(0));
    assert_eq!(get_vws_contour(&cs, 0), None);
    assert_eq!(get_vws_contour(&Vec::<VwsContour<f64, u8>>::new(), 0), None);
}

#[test]
fn should_draw_contour_only_without_stroke() {
    let cs = vec![contour(1, &[(1.0, 1.0)])];
    assert!(!should_draw_contour(&cs, 1));
    assert!(should_draw_contour(&cs, 0));
}

#[test]
fn generate_vws_contour_adds_one_handle_more_than_points() {
    let mut cs = vec![contour(0, &[(1.0, 1.0)])];
    generate_vws_contour(&mut cs, 5, 3, DEFAULT);
    assert_eq!(cs.len(), 2);
    assert_eq!(cs[1].id, 5);
    assert_eq!(offsets(&cs[1]), vec![(10.0, 10.0); 4]);
    assert_eq!(offsets(&cs[0]), vec![(1.0, 1.0)]);
}

#[test]
fn fix_vws_contour_tops_up_to_one_handle_more_than_points() {
    let mut cs = vec![contour(0, &[(1.0, 2.0); 2]), contour(1, &[(3.0, 3.0)])];
    // five points: 5 + 1 handles
    fix_vws_contour(&mut cs, 0, 5, DEFAULT);
    assert_eq!(cs[0].handles.len(), 6);
    assert_eq!(offsets(&cs[0])[..2], [(1.0, 2.0); 2]);
    assert_eq!(offsets(&cs[0])[2..], [(10.0, 10.0); 4]);
    assert_eq!(offsets(&cs[1]), vec![(3.0, 3.0)]);
}

#[test]
fn fix_vws_contour_leaves_a_full_contour() {
    let mut exact = vec![contour(0, &[(1.0, 2.0); 3])];
    fix_vws_contour(&mut exact, 0, 2, DEFAULT);
    assert_eq!(exact[0].handles.len(), 3);
    let mut more = vec![contour(0, &[(1.0, 2.0); 5])];
    fix_vws_contour(&mut more, 0, 2, DEFAULT);
    assert_eq!(offsets(&more[0]), vec![(1.0, 2.0); 5]);
}

#[test]
fn get_vws_handle_without_contour_is_the_default() {
    let mut cs: Vec<VwsContour<f64, u8>> = vec![];
    let h = get_vws_handle(&mut cs, None, 7, 3, DEFAULT);
    assert_eq!((h.left_offset, h.right_offset), (10.0, 10.0));
    assert!(cs.is_empty());
}

#[test]
fn get_vws_handle_reads_the_handle() {
    let mut cs = vec![contour(3, &[(1.0, 2.0), (3.0, 4.0)])];
    let h = get_vws_handle(&mut cs, Some(0), 1, 1, DEFAULT);
    assert_eq!((h.left_offset, h.right_offset), (3.0, 4.0));
    assert_eq!(cs[0].handles.len(), 2);
}

#[test]
fn get_vws_handle_tops_up_a_short_contour() {
    // 2 handles for a 4-point outline: topped up to 5 handles to reach handle 3
    let mut cs = vec![contour(0, &[(1.0, 1.0); 2])];
    let h = get_vws_handle(&mut cs, Some(0), 3, 4, DEFAULT);
    assert_eq!(cs[0].handles.len(), 5);
    assert_eq!((h.left_offset, h.right_offset), (10.0, 10.0));
    assert_eq!(offsets(&cs[0])[..2], [(1.0, 1.0); 2]);
}

#[test]
fn get_vws_handle_tops_up_for_the_next_handle() {
    let mut cs = vec![contour(0, &[(1.0, 1.0); 2])];
    let h = get_vws_handle(&mut cs, Some(0), 2, 2, DEFAULT);
    assert_eq!(cs[0].handles.len(), 3);
    assert_eq!((h.left_offset, h.right_offset), (10.0, 10.0));
}

#[test]
fn handle_hit_prefers_the_left_handle() {
    assert_eq!(handle_hit(true, true), Some(WhichHandle::A));
    assert_eq!(handle_hit(true, false), Some(WhichHandle::A));
    assert_eq!(handle_hit(false, true), Some(WhichHandle::B));
    assert_eq!(handle_hit(false, false), None);
}

#[test]
fn set_vws_handle_moves_one_side() {
    let mut cs = vec![contour(0, &[(1.0, 1.0), (2.0, 2.0), (3.0, 3.0)])];
    set_vws_handle(&mut cs, 0, 1, WhichHandle::A, 7.5, 2, false, DEFAULT);
    assert_eq!(offsets(&cs[0]), vec![(1.0, 1.0), (7.5, 2.0), (3.0, 3.0)]);
    set_vws_handle(&mut cs, 0, 1, WhichHandle::B, 8.5, 2, false, DEFAULT);
    assert_eq!(offsets(&cs[0]), vec![(1.0, 1.0), (7.5, 8.5), (3.0, 3.0)]);
    set_vws_handle(&mut cs, 0, 1, WhichHandle::Neither, 9.5, 2, false, DEFAULT);
    assert_eq!(offsets(&cs[0]), vec![(1.0, 1.0), (7.5, 8.5), (3.0, 3.0)]);
}

#[test]
fn set_vws_handle_on_a_closed_contour_moves_the_seam() {
    let mut cs = vec![contour(0, &[(1.0, 1.0), (2.0, 2.0), (3.0, 3.0)])];
    set_vws_handle(&mut cs, 0, 0, WhichHandle::B, 5.0, 2, true, DEFAULT);
    assert_eq!(offsets(&cs[0]), vec![(1.0, 5.0), (2.0, 2.0), (3.0, 5.0)]);
    // an open contour keeps its last handle
    set_vws_handle(&mut cs, 0, 0, WhichHandle::A, 6.0, 2, false, DEFAULT);
    assert_eq!(offsets(&cs[0]), vec![(6.0, 5.0), (2.0, 2.0), (3.0, 5.0)]);
}

#[test]
fn set_vws_handle_creates_the_stroked_contour() {
    let mut cs = vec![contour(1, &[(1.0, 1.0)])];
    set_vws_handle(&mut cs, 4, 2, WhichHandle::A, 3.0, 2, false, DEFAULT);
    assert_eq!(cs.len(), 2);
    assert_eq!(cs[1].id, 4);
    assert_eq!(offsets(&cs[1]), vec![(10.0, 10.0), (10.0, 10.0), (3.0, 10.0)]);
    assert!(!should_draw_contour(&cs, 4));
}

#[test]
fn set_all_vws_handles_moves_every_handle() {
    let mut cs = vec![contour(0, &[(1.0, 1.0), (2.0, 2.0)]), contour(1, &[(4.0, 4.0)])];
    set_all_vws_handles(&mut cs, 0, WhichHandle::A, 3.0, false, 1, DEFAULT);
    assert_eq!(offsets(&cs[0]), vec![(3.0, 1.0), (3.0, 2.0)]);
    set_all_vws_handles(&mut cs, 0, WhichHandle::A, 5.0, true, 1, DEFAULT);
    assert_eq!(offsets(&cs[0]), vec![(5.0, 5.0), (5.0, 5.0)]);
    assert_eq!(offsets(&cs[1]), vec![(4.0, 4.0)]);
}

#[test]
fn mouse_pressed_selects_the_clicked_handle() {
    let mut data = tool();
    let handled = mouse_pressed(&mut data, Some((2, 3, WhichHandle::B)), 7, true, false);
    assert!(!handled);
    assert_eq!((data.contour, data.cur_point, data.handle), (Some(2), Some(3), WhichHandle::B));
    assert_eq!((data.follow, data.shift, data.ctrl), (7, true, false));
    assert_eq!(
        mouse_moved(&data, true),
        MouseMove::Drag { contour: 2, point: 3, handle: WhichHandle::B }
    );
    assert_eq!(mouse_moved(&data, false), MouseMove::Ignored);
}

#[test]
fn mouse_pressed_beside_the_handles_deselects() {
    let mut data = tool();
    mouse_pressed(&mut data, Some((2, 3, WhichHandle::B)), 7, true, true);
    let handled = mouse_pressed(&mut data, None, 9, false, false);
    assert!(!handled);
    assert_eq!((data.contour, data.cur_point, data.handle), (None, None, WhichHandle::Neither));
    // the follow mode and modifiers of the last click on a handle stay
    assert_eq!((data.follow, data.shift, data.ctrl), (7, true, true));
    assert_eq!(mouse_moved(&data, true), MouseMove::Handled);
}

#[test]
fn mouse_released_deselects() {
    let mut data = tool();
    mouse_pressed(&mut data, Some((0, 0, WhichHandle::A)), 1, false, false);
    assert!(mouse_released(&mut data));
    assert_eq!((data.contour, data.cur_point, data.handle), (None, None, WhichHandle::Neither));
    assert_eq!(mouse_moved(&data, true), MouseMove::Handled);
    assert!(mouse_moved(&data, true).handled());
    assert!(!mouse_moved(&data, false).handled());
}

#[test]
fn drag_moves_one_or_all_handles() {
    let mut data = tool();
    let mut cs = vec![contour(0, &[(1.0, 1.0), (2.0, 2.0), (3.0, 3.0)])];
    mouse_pressed(&mut data, Some((0, 1, WhichHandle::A)), 0, false, false);
    drag_vws_handle(&data, &mut cs, 0, 1, WhichHandle::A, 4.0, 2, false, DEFAULT);
    assert_eq!(offsets(&cs[0]), vec![(1.0, 1.0), (4.0, 2.0), (3.0, 3.0)]);
    mouse_pressed(&mut data, Some((0, 1, WhichHandle::A)), 0, true, false);
    drag_vws_handle(&data, &mut cs, 0, 1, WhichHandle::A, 6.0, 2, false, DEFAULT);
    assert_eq!(offsets(&cs[0]), vec![(6.0, 1.0), (6.0, 2.0), (6.0, 3.0)]);
    mouse_pressed(&mut data, Some((0, 1, WhichHandle::A)), 0, false, true);
    drag_vws_handle(&data, &mut cs, 0, 1, WhichHandle::A, 8.0, 2, false, DEFAULT);
    assert_eq!(offsets(&cs[0]), vec![(8.0, 8.0); 3]);
}

#[test]
fn previews_follow_the_mouse_button() {
    assert!(update_previews(true));
    assert!(!update_previews(false));
    assert!(!mouse_button());
}
