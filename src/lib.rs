//! Native-side support for a save-game browser: where the saves live, which
//! save folders exist, and when a save was last written.
pub mod commands;
pub mod game_files;
pub mod utc_time;

pub use commands::{greet, set_save_file_path, watch_message, LogMessage};
pub use game_files::{
    get_all_save_folders, get_saves_data_dir, modified_time_text, DirListing, SaveError,
    APP_FOLDER, SAVES_FOLDER,
};
pub use utc_time::{convert_date_to_string, EpochOffset, Timestamp, MAX_UTC_SECS, MIN_UTC_SECS};
