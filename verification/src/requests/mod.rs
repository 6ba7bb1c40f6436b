pub mod endpoints;
pub mod paging;
pub mod parsing;
pub mod validation;
pub mod filters;
pub mod ordering;
