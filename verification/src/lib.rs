pub mod fs_tree;
pub mod notable_files;
pub mod environment;
pub mod text;
pub mod paths;
pub mod scheme;
pub mod vcc;
