use termite::mode::{Mode, DATA_DIRECTORY};

#[test]
fn each_mode_has_its_file() {
    assert_eq!(Mode::Text.filename(), "text_history.txt");
    assert_eq!(Mode::Path.filename(), "path_history.txt");
    assert_eq!(Mode::Command.filename(), "command_history.txt");
}

#[test]
fn no_two_modes_share_a_file() {
    let modes = [Mode::Text, Mode::Path, Mode::Command];
    for a in modes {
        for b in modes {
            assert_eq!(a == b, a.filename() == b.filename());
        }
    }
}

#[test]
fn the_files_lie_in_the_data_directory() {
    assert_eq!(DATA_DIRECTORY, ".local/share/termite/");
    assert_eq!(Mode::Text.relative_path(), ".local/share/termite/text_history.txt");
    assert_eq!(Mode::Path.relative_path(), ".local/share/termite/path_history.txt");
    assert_eq!(Mode::Command.relative_path(), ".local/share/termite/command_history.txt");
}
