use marge::ui::Ui;

fn three_rows() -> Vec<String> {
    vec!["one".to_string(), "two".to_string(), "three".to_string()]
}

#[test]
fn new_ui_shows_waiting_line() {
    let ui = Ui::new();
    assert_eq!(ui.list_vec(), &vec!["waiting".to_string()]);
    assert_eq!(ui.selected(), Some(0));
    assert_eq!(ui.status(), &String::new());
}

#[test]
fn down_wraps_around() {
    let mut ui = Ui::new();
    ui.set_list_vec(three_rows());
    assert_eq!(ui.selected(), Some(0));
    ui.down();
    assert_eq!(ui.selected(), Some(1));
    ui.down();
    assert_eq!(ui.selected(), Some(2));
    ui.down();
    assert_eq!(ui.selected(), Some(0));
}

#[test]
fn up_wraps_around() {
    let mut ui = Ui::new();
    ui.set_list_vec(three_rows());
    assert_eq!(ui.selected(), Some(0));
    ui.up();
    assert_eq!(ui.selected(), Some(2));
    ui.up();
    assert_eq!(ui.selected(), Some(1));
    ui.up();
    assert_eq!(ui.selected(), Some(0));
}

#[test]
fn n_downs_return_to_start_and_stay_in_range() {
    let mut ui = Ui::new();
    ui.set_list_vec(three_rows());
    ui.select(Some(1));
    for _ in 0..3 {
        ui.down();
        let i = ui.selected().expect("cursor present");
        assert!(i < 3);
    }
    assert_eq!(ui.selected(), Some(1));
}

#[test]
fn mixed_moves_stay_in_range() {
    let mut ui = Ui::new();
    ui.set_list_vec(three_rows());
    let moves = [true, false, true, true, false, false, true, false, true, true];
    for down in moves {
        if down {
            ui.down();
        } else {
            ui.up();
        }
        let i = ui.selected().expect("cursor present");
        assert!(i < 3);
    }
}

#[test]
fn moves_from_no_cursor_start_at_top() {
    let mut ui = Ui::new();
    ui.set_list_vec(three_rows());
    ui.select(None);
    ui.down();
    assert_eq!(ui.selected(), Some(0));
    ui.select(None);
    ui.up();
    assert_eq!(ui.selected(), Some(0));
}

#[test]
fn empty_list_keeps_cursor_away() {
    let mut ui = Ui::new();
    ui.set_list_vec(Vec::new());
    assert_eq!(ui.selected(), None);
    ui.down();
    assert_eq!(ui.selected(), None);
    ui.up();
    assert_eq!(ui.selected(), None);
}

#[test]
fn replacing_rows_resets_cursor_to_top() {
    let mut ui = Ui::new();
    ui.set_list_vec(three_rows());
    ui.down();
    ui.down();
    assert_eq!(ui.selected(), Some(2));
    ui.set_list_vec(vec!["only".to_string()]);
    assert_eq!(ui.selected(), Some(0));
}
