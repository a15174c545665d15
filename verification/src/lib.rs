//! Template-to-source conversion: literal text interleaved with `<# code #>`
//! and `<#= expression #>` tags becomes source code of a target language.

pub mod text;
pub mod escape;
pub mod markers;
pub mod r42t;
pub mod langs;
pub mod r42;
