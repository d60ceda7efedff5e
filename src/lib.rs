//! Markdown slide compiler, slide layout and transition engine for a
//! terminal presenter.
pub mod style;
pub mod text;
pub mod theme;
pub mod frontmatter;
pub mod directive;
pub mod events;
pub mod slides;
pub mod columns;
pub mod compiler;
pub mod laws;
pub mod layout;
pub mod transition;
pub mod presenter;
pub mod query;
