//! The decision logic of a `div` element: its style refinements and their
//! cascade, the stack of group bounds that grouped elements publish while
//! they paint, and the hover, press and click listeners that react to mouse
//! events. Geometry in pixels is floating point and stays with the caller,
//! which hands hit tests in as booleans and bounds in as their bit patterns.

mod bounds_stack;
pub mod geometry;
pub mod group;
pub mod style;
pub mod interaction;
pub mod div;
