pub mod bash;
pub mod edit_file;
pub mod list_files;
pub mod read_file;
