//! Model of a graph-style file explorer: file entries and their categories,
//! size and age labels, directory listing order, layout bookkeeping and the
//! navigation state of a workspace.
pub mod text;
pub mod fs_entry;
pub mod numeric;
pub mod sorting;
pub mod external;
pub mod table;
pub mod layout;
pub mod workspace;
pub mod panels;
