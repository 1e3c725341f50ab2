use deployc::{
    find_current, key_command, line_style, next_index_skipping_current, render_lines, LineStyle,
    Menu, MenuCommand, MenuKey, MenuOutcome, MenuStep,
};

fn strings(v: &[&str]) -> Vec<String> {
    v.iter().map(|s| s.to_string()).collect()
}

#[test]
fn initial_cursor_without_current_is_zero() {
    let m = Menu::new(3, None);
    assert_eq!(m.cursor, 0);
}

#[test]
fn initial_cursor_with_nonzero_current_is_zero() {
    let m = Menu::new(3, Some(2));
    assert_eq!(m.cursor, 0);
}

#[test]
fn initial_cursor_skips_current_at_zero() {
    let m = Menu::new(3, Some(0));
    assert_eq!(m.cursor, 1);
}

#[test]
fn initial_cursor_single_option_stays_zero() {
    let m = Menu::new(1, Some(0));
    assert_eq!(m.cursor, 0);
}

#[test]
fn scenario_a_choose_second_option() {
    let options = strings(&["A", "B", "C"]);
    let mut m = Menu::new(options.len(), None);
    assert_eq!(m.cursor, 0);
    let frame = m.frame(&options);
    assert_eq!(frame.len(), 3);
    assert_eq!(frame[0].style, LineStyle::Selected);
    assert_eq!(frame[0].text, "A");

    let step = m.handle_key(&MenuKey::Down);
    assert_eq!(step, MenuStep::Continue);
    assert_eq!(m.cursor, 1);
    let frame = m.frame(&options);
    assert_eq!(frame[1].style, LineStyle::Selected);
    assert_eq!(frame[1].text, "B");

    let step = m.handle_key(&MenuKey::Enter);
    assert_eq!(step, MenuStep::Finish(MenuOutcome::Chosen(1)));
}

#[test]
fn scenario_b_down_skips_current() {
    let options = strings(&["A", "B", "C"]);
    let current = find_current(&options, &"B".to_string());
    assert_eq!(current, Some(1));
    let mut m = Menu::new(options.len(), current);
    assert_eq!(m.cursor, 0);
    let step = m.handle_key(&MenuKey::Down);
    assert_eq!(step, MenuStep::Continue);
    assert_eq!(m.cursor, 2);
}

#[test]
fn scenario_c_single_option() {
    let options = strings(&["A"]);
    let mut m = Menu::new(options.len(), None);
    let frame = m.frame(&options);
    assert_eq!(frame.len(), 1);
    assert_eq!(frame[0].style, LineStyle::Selected);
    assert_eq!(frame[0].text, "A");
    assert_eq!(m.handle_key(&MenuKey::Up), MenuStep::Continue);
    assert_eq!(m.cursor, 0);
    assert_eq!(m.handle_key(&MenuKey::Down), MenuStep::Continue);
    assert_eq!(m.cursor, 0);
    assert_eq!(m.handle_key(&MenuKey::Enter), MenuStep::Finish(MenuOutcome::Chosen(0)));
}

#[test]
fn scenario_d_escape_cancels_anywhere() {
    for start_moves in 0..3usize {
        let mut m = Menu::new(4, None);
        for _ in 0..start_moves {
            m.step(MenuCommand::MoveDown);
        }
        let step = m.handle_key(&MenuKey::Esc);
        assert_eq!(step, MenuStep::Finish(MenuOutcome::Canceled));
    }
}

#[test]
fn ctrl_c_cancels_like_escape() {
    let mut m = Menu::new(2, None);
    assert_eq!(m.handle_key(&MenuKey::CtrlC), MenuStep::Finish(MenuOutcome::Canceled));
}

#[test]
fn confirm_uses_cursor_at_confirmation_time() {
    let mut m = Menu::new(5, None);
    m.step(MenuCommand::MoveDown);
    m.step(MenuCommand::MoveDown);
    m.step(MenuCommand::MoveDown);
    m.step(MenuCommand::MoveUp);
    assert_eq!(m.cursor, 2);
    assert_eq!(m.step(MenuCommand::Confirm), MenuStep::Finish(MenuOutcome::Chosen(2)));
}

#[test]
fn up_rejected_when_current_sits_on_first_row() {
    let mut m = Menu::new(3, Some(0));
    assert_eq!(m.cursor, 1);
    m.step(MenuCommand::MoveUp);
    assert_eq!(m.cursor, 1);
}

#[test]
fn down_rejected_when_current_sits_on_last_row() {
    let mut m = Menu::new(3, Some(2));
    m.step(MenuCommand::MoveDown);
    assert_eq!(m.cursor, 1);
    m.step(MenuCommand::MoveDown);
    assert_eq!(m.cursor, 1);
}

#[test]
fn up_skips_over_current_in_the_middle() {
    let mut m = Menu::new(3, Some(1));
    let step = m.step(MenuCommand::MoveDown);
    assert_eq!(step, MenuStep::Continue);
    assert_eq!(m.cursor, 2);
    m.step(MenuCommand::MoveUp);
    assert_eq!(m.cursor, 0);
}

#[test]
fn cursor_stays_in_bounds_and_off_current() {
    let moves = [
        MenuCommand::MoveUp,
        MenuCommand::MoveDown,
        MenuCommand::MoveDown,
        MenuCommand::MoveDown,
        MenuCommand::MoveDown,
        MenuCommand::MoveDown,
        MenuCommand::MoveUp,
        MenuCommand::MoveUp,
        MenuCommand::Noop,
        MenuCommand::MoveUp,
        MenuCommand::MoveUp,
        MenuCommand::MoveDown,
    ];
    let mut m = Menu::new(5, Some(2));
    assert_eq!(m.cursor, 0);
    for cmd in moves {
        m.step(cmd);
        assert!(m.cursor < 5);
        assert_ne!(m.cursor, 2);
    }
}

#[test]
fn one_step_per_key_and_constant_frame_height() {
    let options = strings(&["A", "B", "C", "D"]);
    let keys = [MenuKey::Other, MenuKey::Up, MenuKey::Down, MenuKey::Other, MenuKey::Down];
    let mut m = Menu::new(options.len(), None);
    let mut redraws = 0usize;
    for key in &keys {
        match m.handle_key(key) {
            MenuStep::Continue => {
                let frame = m.frame(&options);
                assert_eq!(frame.len(), options.len());
                redraws += 1;
            }
            MenuStep::Finish(_) => unreachable!(),
        }
    }
    assert_eq!(redraws, keys.len());
    assert_eq!(m.handle_key(&MenuKey::Enter), MenuStep::Finish(MenuOutcome::Chosen(m.cursor)));
}

#[test]
fn render_marks_current_row() {
    let options = strings(&["A", "B", "C"]);
    let lines = render_lines(&options, 0, Some(1));
    assert_eq!(lines[0].style, LineStyle::Selected);
    assert_eq!(lines[1].style, LineStyle::Current);
    assert_eq!(lines[2].style, LineStyle::Normal);
    assert_eq!(lines[1].text, "B");
}

#[test]
fn selected_wins_over_current_on_same_row() {
    assert_eq!(line_style(0, 0, Some(0)), LineStyle::Selected);
    assert_eq!(line_style(1, 0, Some(0)), LineStyle::Normal);
}

#[test]
fn key_mapping_is_exact() {
    assert_eq!(key_command(&MenuKey::Up), MenuCommand::MoveUp);
    assert_eq!(key_command(&MenuKey::Down), MenuCommand::MoveDown);
    assert_eq!(key_command(&MenuKey::Enter), MenuCommand::Confirm);
    assert_eq!(key_command(&MenuKey::Esc), MenuCommand::Cancel);
    assert_eq!(key_command(&MenuKey::CtrlC), MenuCommand::Cancel);
    assert_eq!(key_command(&MenuKey::Other), MenuCommand::Noop);
}

#[test]
fn next_index_matches_policy_at_edges() {
    assert_eq!(next_index_skipping_current(true, 0, None, 3), 0);
    assert_eq!(next_index_skipping_current(false, 2, None, 3), 2);
    assert_eq!(next_index_skipping_current(true, 2, Some(1), 3), 0);
    assert_eq!(next_index_skipping_current(false, 0, Some(1), 3), 2);
    assert_eq!(next_index_skipping_current(true, 1, Some(0), 3), 1);
    assert_eq!(next_index_skipping_current(false, 1, Some(2), 3), 1);
}

#[test]
fn find_current_returns_first_match() {
    let options = strings(&["x", "y", "x"]);
    assert_eq!(find_current(&options, &"x".to_string()), Some(0));
    assert_eq!(find_current(&options, &"y".to_string()), Some(1));
    assert_eq!(find_current(&options, &"z".to_string()), None);
}
