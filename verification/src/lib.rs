//! A retained-mode UI layout and styling core.
//!
//! Given a tree of visual elements annotated with CSS-like style
//! declarations, the library resolves each element's effective style by
//! cascading class rules, inline rules and parent inheritance, computes
//! natural and requested sizes bottom-up, and allocates final positions
//! and sizes top-down, including row-flex distribution, cross-axis
//! alignment and overflow/scrollbar negotiation.
//!
//! All geometry is carried in whole pixel units; exact rational numbers
//! stand for scroll positions and scrollbar ratios, so every layout
//! computation is exact integer arithmetic.

pub mod geometry;
pub mod styles;
pub mod element;
pub mod estimate;
pub mod allocate;
pub mod cascade;
pub mod css_parser;
pub mod renderer;
pub mod id_generator;
pub mod app_state;
