use filebrowser::DirectoryState;
use filebrowser::Effect;
use filebrowser::Event;
use filebrowser::FileData;
use filebrowser::Input;
use filebrowser::InputMode;
use filebrowser::Key;
use filebrowser::event::step;

fn file(name: &str) -> FileData {
    FileData::new(name.to_string(), 0o100644, None, None, None)
}

fn dir(name: &str) -> FileData {
    FileData::new(name.to_string(), 0o040755, None, None, None)
}

fn sample_listing() -> Vec<FileData> {
    vec![file("a.txt"), dir("sub")]
}

#[test]
fn wraparound_up_from_first_selects_last() {
    let mut nav = DirectoryState::new(Vec::new(), vec![file("a"), file("b"), file("c")]);
    assert_eq!(nav.selected, Some(0));
    nav.move_selection(-1);
    assert_eq!(nav.selected, Some(2));
}

#[test]
fn wraparound_down_from_last_selects_first() {
    let mut nav = DirectoryState::new(Vec::new(), vec![file("a"), file("b"), file("c")]);
    nav.move_selection(-1);
    assert_eq!(nav.selected, Some(2));
    nav.move_selection(1);
    assert_eq!(nav.selected, Some(0));
}

#[test]
fn single_entry_wraps_to_itself() {
    let mut nav = DirectoryState::new(Vec::new(), vec![file("only")]);
    nav.move_selection(1);
    assert_eq!(nav.selected, Some(0));
    nav.move_selection(-1);
    assert_eq!(nav.selected, Some(0));
}

#[test]
fn empty_listing_never_selects() {
    let mut nav = DirectoryState::new(Vec::new(), Vec::new());
    assert_eq!(nav.selected, None);
    nav.move_selection(1);
    assert_eq!(nav.selected, None);
    nav.move_selection(-1);
    assert_eq!(nav.selected, None);
    let mut input = Input::default();
    let eff = step(&mut nav, &mut input, Event::Key(Key::Down));
    assert_eq!(eff, Effect::Nothing);
    assert_eq!(nav.selected, None);
}

#[test]
fn leave_at_root_changes_nothing() {
    let mut nav = DirectoryState::new(Vec::new(), sample_listing());
    assert_eq!(nav.leave_target(), None);
    let mut input = Input::default();
    let eff = step(&mut nav, &mut input, Event::Key(Key::Left));
    assert_eq!(eff, Effect::Nothing);
    assert_eq!(nav.path, Vec::<String>::new());
    assert_eq!(nav.entries.len(), 2);
    assert_eq!(nav.selected, Some(0));
    let again = step(&mut nav, &mut input, Event::Key(Key::Left));
    assert_eq!(again, Effect::Nothing);
    assert_eq!(nav.path, Vec::<String>::new());
    assert_eq!(nav.entries.len(), 2);
}

#[test]
fn leave_below_root_names_the_parent() {
    let mut nav = DirectoryState::new(
        vec!["home".to_string(), "user".to_string()],
        sample_listing(),
    );
    let mut input = Input::default();
    let eff = step(&mut nav, &mut input, Event::Key(Key::Left));
    assert_eq!(eff, Effect::Leave);
    assert_eq!(nav.leave_target(), Some(vec!["home".to_string()]));
    nav.leave_to(vec![dir("user"), file("notes")]);
    assert_eq!(nav.path, vec!["home".to_string()]);
    assert_eq!(nav.entries.len(), 2);
    assert_eq!(nav.selected, Some(0));
}

#[test]
fn colon_opens_editing_with_colon_buffer() {
    let mut input = Input::default();
    assert_eq!(input.input_mode, InputMode::Normal);
    input.start_editing();
    assert_eq!(input.input_mode, InputMode::Editing);
    assert_eq!(input.input, ":");
}

#[test]
fn escape_returns_to_normal_with_empty_buffer() {
    let mut input = Input::default();
    input.start_editing();
    input.append_char('x');
    input.cancel();
    assert_eq!(input.input_mode, InputMode::Normal);
    assert_eq!(input.input, "");
}

#[test]
fn appends_then_equal_backspaces_restore_buffer() {
    let mut input = Input::default();
    input.start_editing();
    input.append_char('a');
    input.append_char('b');
    let before = input.input.clone();
    input.append_char('x');
    input.append_char('y');
    input.append_char('z');
    input.backspace();
    input.backspace();
    input.backspace();
    assert_eq!(input.input, before);
}

#[test]
fn backspace_keeps_the_opening_colon() {
    let mut input = Input::default();
    input.start_editing();
    input.backspace();
    assert_eq!(input.input, ":");
    input.backspace();
    assert_eq!(input.input, ":");
    assert_eq!(input.input_mode, InputMode::Editing);
}

#[test]
fn right_on_selected_file_asks_to_open_it() {
    let mut nav = DirectoryState::new(Vec::new(), sample_listing());
    let mut input = Input::default();
    assert_eq!(nav.selected, Some(0));
    let eff = step(&mut nav, &mut input, Event::Key(Key::Right));
    assert_eq!(eff, Effect::OpenFile("a.txt".to_string()));
    assert_eq!(nav.path, Vec::<String>::new());
    assert_eq!(nav.selected, Some(0));
    assert_eq!(nav.entries.len(), 2);
}

#[test]
fn right_on_selected_directory_descends_into_it() {
    let mut nav = DirectoryState::new(Vec::new(), sample_listing());
    let mut input = Input::default();
    let eff = step(&mut nav, &mut input, Event::Key(Key::Down));
    assert_eq!(eff, Effect::Nothing);
    assert_eq!(nav.selected, Some(1));
    let eff = step(&mut nav, &mut input, Event::Key(Key::Right));
    assert_eq!(eff, Effect::EnterDir("sub".to_string()));
    nav.enter_dir("sub".to_string(), vec![file("inner.txt")]);
    assert_eq!(nav.path, vec!["sub".to_string()]);
    assert_eq!(nav.selected, Some(0));
    assert_eq!(nav.entries[0].name, "inner.txt");
}

#[test]
fn descending_into_empty_directory_selects_nothing() {
    let mut nav = DirectoryState::new(Vec::new(), sample_listing());
    nav.enter_dir("sub".to_string(), Vec::new());
    assert_eq!(nav.path, vec!["sub".to_string()]);
    assert_eq!(nav.selected, None);
}

#[test]
fn typed_command_runs_against_selected_entry() {
    let mut nav = DirectoryState::new(Vec::new(), sample_listing());
    let mut input = Input::default();
    let eff = step(&mut nav, &mut input, Event::Key(Key::Char(':')));
    assert_eq!(eff, Effect::Nothing);
    assert_eq!(input.input_mode, InputMode::Editing);
    step(&mut nav, &mut input, Event::Key(Key::Char('r')));
    step(&mut nav, &mut input, Event::Key(Key::Char('m')));
    assert_eq!(input.input, ":rm");
    let eff = step(&mut nav, &mut input, Event::Key(Key::Char('\n')));
    assert_eq!(
        eff,
        Effect::RunCommand { buffer: ":rm".to_string(), selected: Some("a.txt".to_string()) },
    );
    assert_eq!(input.input_mode, InputMode::Normal);
    assert_eq!(input.input, "");
}

#[test]
fn command_without_selection_runs_against_none() {
    let mut nav = DirectoryState::new(Vec::new(), Vec::new());
    let mut input = Input::default();
    step(&mut nav, &mut input, Event::Key(Key::Char(':')));
    step(&mut nav, &mut input, Event::Key(Key::Char('q')));
    let eff = step(&mut nav, &mut input, Event::Key(Key::Char('\n')));
    assert_eq!(eff, Effect::RunCommand { buffer: ":q".to_string(), selected: None });
}

#[test]
fn invalid_buffer_surfaces_error_mode() {
    let mut input = Input { input: "rm".to_string(), input_mode: InputMode::Editing };
    input.execute();
    assert_eq!(input.input_mode, InputMode::Error);
    assert_eq!(input.input, "");
}

#[test]
fn error_mode_reopens_through_colon() {
    let mut input = Input { input: String::new(), input_mode: InputMode::Error };
    input.start_editing();
    assert_eq!(input.input_mode, InputMode::Editing);
    assert_eq!(input.input, ":");
}

#[test]
fn quit_keys_ask_to_quit() {
    let mut nav = DirectoryState::new(Vec::new(), sample_listing());
    let mut input = Input::default();
    assert_eq!(step(&mut nav, &mut input, Event::Key(Key::Char('q'))), Effect::Quit);
    assert_eq!(step(&mut nav, &mut input, Event::Key(Key::Ctrl('c'))), Effect::Quit);
}

#[test]
fn q_while_editing_is_appended_not_quit() {
    let mut nav = DirectoryState::new(Vec::new(), sample_listing());
    let mut input = Input::default();
    step(&mut nav, &mut input, Event::Key(Key::Char(':')));
    let eff = step(&mut nav, &mut input, Event::Key(Key::Char('q')));
    assert_eq!(eff, Effect::Nothing);
    assert_eq!(input.input, ":q");
}

#[test]
fn tick_only_redraws() {
    let mut nav = DirectoryState::new(Vec::new(), sample_listing());
    let mut input = Input::default();
    let eff = step(&mut nav, &mut input, Event::Tick);
    assert_eq!(eff, Effect::Nothing);
    assert_eq!(nav.selected, Some(0));
    assert_eq!(input.input_mode, InputMode::Normal);
}

#[test]
fn refresh_keeps_a_still_valid_position() {
    let mut nav = DirectoryState::new(Vec::new(), vec![file("a"), file("b"), file("c")]);
    nav.move_selection(1);
    nav.move_selection(1);
    assert_eq!(nav.selected, Some(2));
    nav.refresh(vec![file("a"), file("b"), file("c"), file("d")]);
    assert_eq!(nav.selected, Some(2));
    assert_eq!(nav.entries.len(), 4);
}

#[test]
fn refresh_falls_back_when_position_vanishes() {
    let mut nav = DirectoryState::new(Vec::new(), vec![file("a"), file("b"), file("c")]);
    nav.move_selection(-1);
    assert_eq!(nav.selected, Some(2));
    nav.refresh(vec![file("a")]);
    assert_eq!(nav.selected, Some(0));
    nav.refresh(Vec::new());
    assert_eq!(nav.selected, None);
    nav.refresh(vec![file("z")]);
    assert_eq!(nav.selected, Some(0));
}

#[test]
fn selected_name_follows_the_cursor() {
    let nav = DirectoryState::new(Vec::new(), sample_listing());
    assert_eq!(nav.selected_name(), Some("a.txt".to_string()));
    let empty = DirectoryState::new(Vec::new(), Vec::new());
    assert_eq!(empty.selected_name(), None);
}
