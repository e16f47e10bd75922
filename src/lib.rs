//! Request handling and content pipeline of a personal website: routes and
//! their two response modes, the post and project indexes, and Markdown
//! rendering at a chosen trust level.

pub mod content;
pub mod index;
pub mod markup;
pub mod pages;
pub mod routing;
