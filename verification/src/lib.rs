//! A weekly class timetable: the codecs that read its saved form, the
//! schedule model, and the layout engine that places every meeting on a
//! time-bounded grid as a list of drawing primitives.

pub mod text;
pub mod color;
pub mod model;
pub mod parser;
pub mod vectorial;
