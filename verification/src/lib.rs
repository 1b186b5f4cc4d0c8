//! A parser for Minecraft's legacy formatting codes, created with careful
//! attention to the quirks of the vanilla client's implementation.
//!
//! A formatting code is a start character, `§` for the vanilla client and
//! often `&` in community tools, followed by a character that selects one of
//! sixteen colors, sets a style or resets both. [`SpanIter`] reads a string
//! once, from left to right, and yields the text between the codes as
//! [`Span`]s that borrow from the string:
//!
//! ```
//! use mc_legacy_formatting::{Color, Span, SpanIter, Styles};
//!
//! let s = "§4This will be dark red §oand italic";
//! let mut span_iter = SpanIter::new(s);
//!
//! assert_eq!(
//!     span_iter.next().unwrap(),
//!     Span::new_styled("This will be dark red ", Color::DarkRed, Styles::empty())
//! );
//! assert_eq!(
//!     span_iter.next().unwrap(),
//!     Span::new_styled("and italic", Color::DarkRed, Styles::ITALIC())
//! );
//! assert!(span_iter.next().is_none());
//! ```
//!
//! With a custom start character:
//!
//! ```
//! use mc_legacy_formatting::{Color, Span, SpanIter, Styles};
//!
//! let s = "&6It's a lot easier to type &b& &6than &b§";
//! let spans = SpanIter::new(s).with_start_char('&').collect();
//!
//! assert_eq!(
//!     spans,
//!     vec![
//!         Span::new_styled("It's a lot easier to type ", Color::Gold, Styles::empty()),
//!         Span::new_styled("& ", Color::Aqua, Styles::empty()),
//!         Span::new_styled("than ", Color::Gold, Styles::empty()),
//!         Span::new_styled("§", Color::Aqua, Styles::empty()),
//!     ]
//! );
//! ```
//!
//! What the parser yields is defined in [`grammar`] over the characters of
//! the input, and [`SpanIter::next`] is proved to yield exactly that.
//! [`laws`] holds what follows for every input. Whatever does not parse as a
//! code is text: the parser has no error.

pub mod color;
pub mod color_print;
pub mod fixture;
pub mod grammar;
pub mod laws;
pub mod presets;
pub mod render;
pub mod span;
pub mod span_iter;
pub mod styles;
pub mod text;

pub use color::Color;
pub use grammar::{Format, FormatCode};
pub use presets::PresetText;
pub use color_print::PrintSpanColored;
pub use render::{Decoration, TerminalColor};
pub use span::{Span, SpanView};
pub use span_iter::{SpanExt, SpanIter, SpanIterView};
pub use styles::Styles;
