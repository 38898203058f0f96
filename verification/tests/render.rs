//! Tests of the render driver: dimension validation, buffer handoff, and
//! failure propagation.

use julia_set::raster::generate_pixels;
use julia_set::render::{render, DrawError, Surface};

struct RecordingSurface {
    calls: Vec<(u32, u32, Vec<u8>)>,
}

impl Surface for RecordingSurface {
    fn put_pixels(&mut self, width: u32, height: u32, pixels: &Vec<u8>) -> Result<(), String> {
        self.calls.push((width, height, pixels.clone()));
        Ok(())
    }
}

struct FailingSurface;

impl Surface for FailingSurface {
    fn put_pixels(&mut self, _width: u32, _height: u32, _pixels: &Vec<u8>) -> Result<(), String> {
        Err("surface unavailable".to_string())
    }
}

#[test]
fn zero_width_fails_without_surface_call() {
    let mut surface = RecordingSurface { calls: Vec::new() };
    let r = render(&mut surface, 0, 5, 1.5f64.to_bits(), 1.5f64.to_bits());
    assert_eq!(r, Err(DrawError::InvalidDimensions));
    assert!(surface.calls.is_empty());
}

#[test]
fn zero_height_fails_without_surface_call() {
    let mut surface = RecordingSurface { calls: Vec::new() };
    let r = render(&mut surface, 5, 0, 1.5f64.to_bits(), 1.5f64.to_bits());
    assert_eq!(r, Err(DrawError::InvalidDimensions));
    assert!(surface.calls.is_empty());
}

#[test]
fn render_hands_buffer_to_surface() {
    let mut surface = RecordingSurface { calls: Vec::new() };
    let re = (-0.4f64).to_bits();
    let im = 0.6f64.to_bits();
    let r = render(&mut surface, 2, 3, re, im);
    assert_eq!(r, Ok(()));
    assert_eq!(surface.calls.len(), 1);
    let (w, h, pixels) = &surface.calls[0];
    assert_eq!((*w, *h), (2, 3));
    assert_eq!(*pixels, generate_pixels(2, 3, re, im));
}

#[test]
fn surface_failure_propagates() {
    let mut surface = FailingSurface;
    let r = render(&mut surface, 2, 2, 0.0f64.to_bits(), 0.0f64.to_bits());
    assert_eq!(
        r,
        Err(DrawError::Surface("surface unavailable".to_string())),
    );
}
