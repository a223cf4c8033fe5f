pub mod address;
pub mod bookshelf;
pub mod endpoints;
pub mod model;
pub mod paging;
