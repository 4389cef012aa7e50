pub mod dispatch;
pub mod fileview;
pub mod index;
pub mod lister;
pub mod mime;
pub mod port;
pub mod response;
pub mod text;
