pub mod consts;
pub mod credential;
pub mod enums;
pub mod info;
pub mod text;
pub mod urls;
pub mod params;
