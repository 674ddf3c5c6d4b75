use win_cursor::click::{left_click, right_click, Button, Click, ClickStage};
use win_cursor::record::{
    mouse_flags, InputRecord, MouseRecord, MOUSEEVENTF_ABSOLUTE, MOUSEEVENTF_LEFTDOWN,
    MOUSEEVENTF_LEFTUP, MOUSEEVENTF_MIDDLEDOWN, MOUSEEVENTF_MIDDLEUP, MOUSEEVENTF_MOVE,
    MOUSEEVENTF_MOVE_NOCOALESCE, MOUSEEVENTF_RIGHTDOWN, MOUSEEVENTF_RIGHTUP,
};
use win_cursor::send::{finish_send, prepare_send, OsError, SendStep};
use win_cursor::{Input, MouseInput, MoveType, Rect};

#[test]
fn new_mouse_input_is_blank() {
    let m = MouseInput::new();
    assert_eq!(m.x, 0);
    assert_eq!(m.y, 0);
    assert_eq!(m.move_type, MoveType::Relative);
    assert!(!m.movement);
    assert!(m.coalesce);
    assert!(!m.left_down && !m.left_up);
    assert!(!m.right_down && !m.right_up);
    assert!(!m.middle_down && !m.middle_up);
}

#[test]
fn default_mouse_input_matches_new() {
    assert_eq!(MouseInput::default(), MouseInput::new());
    assert_eq!(MoveType::default(), MoveType::Relative);
}

#[test]
fn mouse_input_converts_into_input() {
    let mut m = MouseInput::new();
    m.x = 7;
    let input: Input = m.into();
    assert_eq!(input, Input::Mouse(m));
}

#[test]
fn get_mouse_input_mut_edits_in_place() {
    let mut input = Input::Mouse(MouseInput::new());
    {
        let m = input.get_mouse_input_mut().expect("mouse input");
        m.left_down = true;
        m.y = -3;
    }
    let mut expected = MouseInput::new();
    expected.left_down = true;
    expected.y = -3;
    assert_eq!(input, Input::Mouse(expected));
}

#[test]
fn rect_corners() {
    let r = Rect::new_xywh(10, 20, 100, 50);
    assert_eq!(r.top_left(), (10, 20));
    assert_eq!(r.bottom_right(), (110, 70));
}

#[test]
fn rect_corners_with_negative_extent() {
    let r = Rect::new_xywh(10, 20, -30, -5);
    assert_eq!(r.top_left(), (10, 20));
    assert_eq!(r.bottom_right(), (-20, 15));
}

#[test]
fn rect_from_edges() {
    let r = Rect::from_ltrb(-5, 3, 1915, 1083);
    assert_eq!(r, Rect::new_xywh(-5, 3, 1920, 1080));
    assert_eq!(r.top_left(), (-5, 3));
    assert_eq!(r.bottom_right(), (1915, 1083));
}

#[test]
fn rect_from_inverted_edges() {
    let r = Rect::from_ltrb(100, 100, 40, 90);
    assert_eq!(r.width, -60);
    assert_eq!(r.height, -10);
    assert_eq!(r.bottom_right(), (40, 90));
}

#[test]
fn left_down_sets_only_its_bit() {
    let mut m = MouseInput::new();
    m.left_down = true;
    let record = InputRecord::from_input(&Input::Mouse(m));
    assert_eq!(record, InputRecord::Mouse(MouseRecord { dx: 0, dy: 0, flags: MOUSEEVENTF_LEFTDOWN }));
    assert_eq!(mouse_flags(&m), 0x0002);
}

#[test]
fn absolute_movement_record() {
    let mut m = MouseInput::new();
    m.move_type = MoveType::Absolute;
    m.x = 500;
    m.y = 300;
    m.movement = true;
    let record = InputRecord::from_input(&Input::Mouse(m));
    assert_eq!(
        record,
        InputRecord::Mouse(MouseRecord {
            dx: 500,
            dy: 300,
            flags: MOUSEEVENTF_ABSOLUTE | MOUSEEVENTF_MOVE,
        })
    );
    assert_eq!(mouse_flags(&m), 0x8001);
}

#[test]
fn blank_input_has_no_flags() {
    assert_eq!(mouse_flags(&MouseInput::new()), 0);
}

#[test]
fn no_coalesce_sets_its_bit() {
    let mut m = MouseInput::new();
    m.coalesce = false;
    m.x = -12;
    m.y = 4;
    let record = InputRecord::from_input(&Input::Mouse(m));
    assert_eq!(
        record,
        InputRecord::Mouse(MouseRecord { dx: -12, dy: 4, flags: MOUSEEVENTF_MOVE_NOCOALESCE })
    );
    assert_eq!(mouse_flags(&m), 0x2000);
}

#[test]
fn every_flag_at_once() {
    let m = MouseInput {
        x: 1,
        y: 2,
        move_type: MoveType::Absolute,
        movement: true,
        coalesce: false,
        left_down: true,
        left_up: true,
        right_down: true,
        right_up: true,
        middle_down: true,
        middle_up: true,
    };
    let all = MOUSEEVENTF_ABSOLUTE
        | MOUSEEVENTF_MOVE
        | MOUSEEVENTF_MOVE_NOCOALESCE
        | MOUSEEVENTF_LEFTDOWN
        | MOUSEEVENTF_LEFTUP
        | MOUSEEVENTF_RIGHTDOWN
        | MOUSEEVENTF_RIGHTUP
        | MOUSEEVENTF_MIDDLEDOWN
        | MOUSEEVENTF_MIDDLEUP;
    assert_eq!(mouse_flags(&m), all);
    assert_eq!(all, 0xa07f);
}

#[test]
fn button_flags_each_set_one_bit() {
    let cases: [(fn(&mut MouseInput), u32); 6] = [
        (|m| m.left_down = true, 0x0002),
        (|m| m.left_up = true, 0x0004),
        (|m| m.right_down = true, 0x0008),
        (|m| m.right_up = true, 0x0010),
        (|m| m.middle_down = true, 0x0020),
        (|m| m.middle_up = true, 0x0040),
    ];
    for (set, bit) in cases {
        let mut m = MouseInput::new();
        set(&mut m);
        assert_eq!(mouse_flags(&m), bit);
    }
}

#[test]
fn empty_batch_is_finished_with_zero() {
    assert_eq!(prepare_send(&[]), SendStep::Finished(0));
}

#[test]
fn batch_is_translated_in_order() {
    let mut a = MouseInput::new();
    a.x = 5;
    a.right_up = true;
    let mut b = MouseInput::new();
    b.move_type = MoveType::Absolute;
    b.movement = true;
    b.y = 9;
    let step = prepare_send(&[Input::Mouse(a), Input::Mouse(b)]);
    assert_eq!(
        step,
        SendStep::Submit(vec![
            InputRecord::Mouse(MouseRecord { dx: 5, dy: 0, flags: MOUSEEVENTF_RIGHTUP }),
            InputRecord::Mouse(MouseRecord {
                dx: 0,
                dy: 9,
                flags: MOUSEEVENTF_ABSOLUTE | MOUSEEVENTF_MOVE,
            }),
        ])
    );
}

#[test]
fn submission_outcomes() {
    assert_eq!(finish_send(0, 5), Err(OsError { code: 5 }));
    assert_eq!(finish_send(1, 5), Ok(1));
    assert_eq!(finish_send(3, 0), Ok(3));
}

#[test]
fn left_click_presses_then_releases() {
    let mut click = left_click();
    assert_eq!(click, Click { button: Button::Left, stage: ClickStage::Press });
    let mut down = MouseInput::new();
    down.left_down = true;
    assert_eq!(click.inputs(), vec![Input::Mouse(down)]);
    assert_eq!(click.advance(Ok(1)), None);
    assert!(!click.is_done());
    let mut up = MouseInput::new();
    up.left_up = true;
    assert_eq!(click.inputs(), vec![Input::Mouse(up)]);
    assert_eq!(click.advance(Ok(1)), Some(Ok(1)));
    assert!(click.is_done());
}

#[test]
fn right_click_presses_then_releases() {
    let mut click = right_click();
    let mut down = MouseInput::new();
    down.right_down = true;
    assert_eq!(click.inputs(), vec![Input::Mouse(down)]);
    assert_eq!(click.advance(Ok(2)), None);
    let mut up = MouseInput::new();
    up.right_up = true;
    assert_eq!(click.inputs(), vec![Input::Mouse(up)]);
    assert_eq!(click.advance(Ok(1)), Some(Ok(2)));
    assert!(click.is_done());
}

#[test]
fn click_stops_after_failed_press() {
    let mut click = left_click();
    assert_eq!(click.advance(Err(OsError { code: 87 })), Some(Err(OsError { code: 87 })));
    assert!(click.is_done());
}

#[test]
fn click_reports_failed_release() {
    let mut click = right_click();
    assert_eq!(click.advance(Ok(1)), None);
    assert_eq!(click.advance(Err(OsError { code: 5 })), Some(Err(OsError { code: 5 })));
    assert!(click.is_done());
}
