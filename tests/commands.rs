use stardew_saves::{greet, set_save_file_path, watch_message, LogMessage};

#[test]
fn save_path_is_echoed() {
    assert_eq!(
        set_save_file_path("C:/Games/Saves/FarmA"),
        "Okay, the file path is: C:/Games/Saves/FarmA"
    );
}

#[test]
fn empty_save_path_is_echoed() {
    assert_eq!(set_save_file_path(""), "Okay, the file path is: ");
}

#[test]
fn greeting_names_the_user() {
    assert_eq!(greet("Robin"), "Hello, Robin! You've been greeted from Rust!");
}

#[test]
fn watch_message_names_the_path() {
    assert_eq!(watch_message("Saves/FarmA"), "Watching directory Saves/FarmA");
}

#[test]
fn info_record_carries_the_message() {
    let record = LogMessage::info(watch_message("Saves"));
    assert_eq!(record.level, "info");
    assert_eq!(record.message, "Watching directory Saves");
}
