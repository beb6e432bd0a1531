//! A terminal emulation engine: a screen buffer with damage tracking, an
//! escape-sequence decoder that drives it, and the event dispatch between a
//! shell on a pseudo-terminal and a renderer. Beside it, the lexer of the
//! shell's command language.
//!
//! Every mutation of the screen and every step of the decoder is defined as
//! a function on abstract values ([`screen::Screen`],
//! [`decoder::DecoderModel`]); the executable code is proved to compute
//! these functions, and the laws of the engine are proved about them.

pub mod cell;
pub mod screen;
pub mod buffer;
pub mod sgr;
pub mod decoder;
pub mod display;
pub mod session;
pub mod terminal;
pub mod window;
pub mod palette;
pub mod token_source;
pub mod lexer;
