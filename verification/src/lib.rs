//! Turns a structured book manuscript into a flat, balanced stream of book
//! events, and renders that stream as the pages and the package of an EPUB
//! or as a LaTeX document with its preamble. The tokens of the manuscript
//! come from a token source; what this library adds to plain tokens, and
//! how it smartens their text, is here too.

pub mod roles;
pub mod seqs;
pub mod events;
pub mod book_event;
pub mod sections;
pub mod headers;
pub mod text;
pub mod isbn;
pub mod numbers;
pub mod mimetypes;
pub mod metadata;
pub mod tokens;
pub mod builder;
pub mod assembler;
pub mod balance;
pub mod laws;
pub mod epub_options;
pub mod latex_options;
pub mod escape;
pub mod helpers;
pub mod bundle;
pub mod latex;
pub mod epub_roles;
pub mod epub;
pub mod epub_pages;
pub mod images;
pub mod epub_render;
pub mod footnotes;
pub mod titlepage;
pub mod preamble;
pub mod unified;
pub mod quotes;
pub mod scripts;
pub mod vocabulary;
pub mod package;
pub mod toc;
pub mod bundler;
pub mod stamps;
pub mod langtag;
pub mod preamble_options;
pub mod spans;
pub mod chunks;
pub mod extended;
