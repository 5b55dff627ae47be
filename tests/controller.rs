use marco::{FrameController, ImageRecord, StoreError};

fn record(id: i32, name: &str) -> ImageRecord {
    ImageRecord {
        image_id: id,
        image_path: format!("/images/{}", name),
        thumb_path: format!("/thumbs/{}", name),
        date_added: 100 + id,
        date_created: 0,
        favourite: false,
    }
}

fn controller_with(ids: &[i32]) -> FrameController<()> {
    let mut c = FrameController::new(());
    let records: Vec<ImageRecord> = ids.iter().map(|&i| record(i, &format!("{}.jpg", i))).collect();
    c.reload(records);
    c
}

#[test]
fn new_controller_is_empty_at_zero() {
    let c = FrameController::new(7u8);
    assert_eq!(c.len(), 0);
    assert_eq!(c.current_index(), 0);
    assert!(c.current().is_none());
    assert_eq!(*c.database(), 7u8);
}

#[test]
fn advance_on_single_record_returns_it_and_stays() {
    let mut c = controller_with(&[1]);
    let shown = c.advance().expect("a record");
    assert_eq!(shown.image_id, 1);
    assert_eq!(shown.image_path, "/images/1.jpg");
    assert_eq!(c.current_index(), 0);
}

#[test]
fn three_advances_visit_one_two_zero() {
    let mut c = controller_with(&[1, 2, 3]);
    assert_eq!(c.current_index(), 0);
    let mut seen = Vec::new();
    for _ in 0..3 {
        c.advance();
        seen.push(c.current_index());
    }
    assert_eq!(seen, vec![1, 2, 0]);
}

#[test]
fn advance_returns_record_under_new_cursor() {
    let mut c = controller_with(&[10, 20, 30]);
    assert_eq!(c.advance().unwrap().image_id, 20);
    assert_eq!(c.advance().unwrap().image_id, 30);
    assert_eq!(c.advance().unwrap().image_id, 10);
}

#[test]
fn advance_on_empty_library_has_nothing() {
    let mut c = FrameController::new(());
    assert!(c.advance().is_none());
    assert_eq!(c.current_index(), 0);
}

#[test]
fn repeated_advance_reaches_last_then_wraps() {
    let mut c = controller_with(&[1, 2, 3, 4]);
    let mut reached_last = false;
    for _ in 0..8 {
        c.next();
        assert!(c.current_index() < 4);
        if c.current_index() == 3 {
            reached_last = true;
            c.next();
            assert_eq!(c.current_index(), 0);
        }
    }
    assert!(reached_last);
}

#[test]
fn single_record_cursor_never_moves() {
    let mut c = controller_with(&[5]);
    for _ in 0..10 {
        c.next();
        assert_eq!(c.current_index(), 0);
    }
}

#[test]
fn many_advances_end_at_rotation() {
    let mut c = controller_with(&[1, 2, 3, 4, 5]);
    c.next();
    c.next();
    for _ in 0..13 {
        c.next();
    }
    assert_eq!(c.current_index(), (2 + 13) % 5);
}

#[test]
fn reload_shorter_clamps_cursor_to_zero() {
    let mut c = controller_with(&[1, 2, 3, 4]);
    c.next();
    c.next();
    c.next();
    assert_eq!(c.current_index(), 3);
    c.reload(vec![record(8, "8.jpg"), record(9, "9.jpg")]);
    assert_eq!(c.current_index(), 0);
    assert_eq!(c.current().unwrap().image_id, 8);
}

#[test]
fn reload_keeps_cursor_inside_new_library() {
    let mut c = controller_with(&[1, 2, 3]);
    c.next();
    c.reload(vec![record(4, "4.jpg"), record(5, "5.jpg"), record(6, "6.jpg")]);
    assert_eq!(c.current_index(), 1);
    assert_eq!(c.current().unwrap().image_id, 5);
}

#[test]
fn reload_to_empty_has_no_current() {
    let mut c = controller_with(&[1, 2]);
    c.next();
    c.reload(Vec::new());
    assert_eq!(c.current_index(), 0);
    assert!(c.current().is_none());
}

#[test]
fn failed_store_read_keeps_library() {
    let mut c = controller_with(&[1, 2, 3]);
    c.next();
    let r = c.update_library(Err(StoreError::ReadFailed));
    assert_eq!(r, Err(StoreError::ReadFailed));
    assert_eq!(c.len(), 3);
    assert_eq!(c.current_index(), 1);
}

#[test]
fn successful_store_read_replaces_library() {
    let mut c = controller_with(&[1, 2, 3]);
    let r: Result<(), StoreError> = c.update_library(Ok(vec![record(7, "7.jpg")]));
    assert_eq!(r, Ok(()));
    assert_eq!(c.len(), 1);
    assert_eq!(c.current().unwrap().image_id, 7);
}

#[test]
fn snapshot_copies_every_record_in_order() {
    let c = controller_with(&[3, 1, 2]);
    let snap = c.library_snapshot();
    let ids: Vec<i32> = snap.images.iter().map(|r| r.image_id).collect();
    assert_eq!(ids, vec![3, 1, 2]);
    assert_eq!(snap.images[1].thumb_path, "/thumbs/1.jpg");
}

#[test]
fn thumb_path_checks_bounds() {
    let c = controller_with(&[1, 2]);
    assert_eq!(c.thumb_path(1), Some("/thumbs/2.jpg".to_string()));
    assert_eq!(c.thumb_path(0), Some("/thumbs/1.jpg".to_string()));
    assert_eq!(c.thumb_path(2), None);
    assert_eq!(c.thumb_path(-1), None);
}

#[test]
fn lookups_by_path_and_id() {
    let c = controller_with(&[4, 6]);
    assert!(c.holds_path(&"/images/4.jpg".to_string(), &"/thumbs/none.jpg".to_string()));
    assert!(c.holds_path(&"/images/none.jpg".to_string(), &"/thumbs/6.jpg".to_string()));
    assert!(!c.holds_path(&"/images/5.jpg".to_string(), &"/thumbs/5.jpg".to_string()));
    assert!(c.holds_id(6));
    assert!(!c.holds_id(5));
    assert_eq!(c.find_id(6).unwrap().image_path, "/images/6.jpg");
    assert!(c.find_id(5).is_none());
}
