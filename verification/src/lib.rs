pub mod errors;
pub mod launcher;
pub mod note;

pub use errors::exit_code;
pub use errors::Error;
pub use note::note_path;
pub use note::notes_dir;
pub use note::run;
pub use note::Note;
