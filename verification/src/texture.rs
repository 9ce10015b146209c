//! Flat placeholder textures handed to the rendering collaborator.

use vstd::prelude::*;

verus! {

/// One RGBA pixel.
#[derive(Clone, Copy, Debug, PartialEq, Eq, Structural)]
pub struct Pixel {
    pub r: u8,
    pub g: u8,
    pub b: u8,
    pub a: u8,
}

impl Pixel {
    /// A fully opaque pixel.
    pub fn rgb(r: u8, g: u8, b: u8) -> (p: Pixel)
        ensures
            p == (Pixel { r, g, b, a: 255 }),
    {
        Self::rgba(r, g, b, 255)
    }

    /// A pixel with an explicit alpha.
    pub fn rgba(r: u8, g: u8, b: u8, a: u8) -> (p: Pixel)
        ensures
            p == (Pixel { r, g, b, a }),
    {
        Pixel { r, g, b, a }
    }
}

/// A tiny owned pixel image.
#[derive(Debug, PartialEq)]
pub struct Texture {
    pub pixels: Vec<Pixel>,
    pub width: u32,
    pub height: u32,
}

impl Texture {
    /// The one-pixel flat white texture.
    pub fn white() -> (t: Texture)
        ensures
            t.pixels@.len() == 1,
            t.pixels@[0] == (Pixel { r: 255, g: 255, b: 255, a: 255 }),
            t.width == 1,
            t.height == 1,
    {
        let mut pixels: Vec<Pixel> = Vec::new();
        pixels.push(Pixel::rgb(255, 255, 255));
        Texture { pixels, width: 1, height: 1 }
    }
}

/// A texture behind a shared reference-counted handle.
#[derive(Clone)]
pub struct SharedTexture {
    pub texture: std::sync::Arc<Texture>,
}

impl SharedTexture {
    /// Wrap a finished texture for read-only sharing.
    pub fn new(texture: Texture) -> (r: SharedTexture)
        ensures
            r.texture == texture,
    {
        SharedTexture { texture: std::sync::Arc::new(texture) }
    }
}

} // verus!
