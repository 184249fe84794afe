//! Colouring engine for templated ASCII-art logos shown beside a system
//! summary.
//!
//! - `token`: the template grammar (lines, `${N}` placeholders, visible length)
//! - `render`: placeholder substitution with a style carried across lines
//! - `style`, `theme`: terminal styles and the palette of a platform's logo
//! - `os`: platform logos
//! - `compose`: padding the logo and laying out the text beside it
//! - `info`, `model`: the summary rows assembled from host facts
//! - `laws`: properties of rendering and layout

pub mod style;
pub mod token;
pub mod render;
pub mod theme;
pub mod os;
pub mod compose;
pub mod laws;
pub mod info;
pub mod model;
