pub mod text;
pub mod html_to_md;
