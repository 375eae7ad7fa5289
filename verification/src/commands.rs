//! The operations that the host exposes to its user interface.

pub mod category;
pub mod file;
pub mod info;
pub mod notification;
pub mod shell;

pub use category::{
    delete_category_from_db, load_categories_from_db, rename_category_in_db,
    save_categories_to_db,
};
pub use file::{load_files_from_db, save_files_to_db};
pub use info::get_file_info;
pub use shell::{open_file_location, open_path};
