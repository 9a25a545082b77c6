use blackhole::schwarz::{Schwarz, SchwarzError};
use blackhole::texture::{Rgba, Texture};

fn solid_sky() -> Texture {
    Texture::new(1, 1, vec![10, 20, 30, 255]).unwrap()
}

fn pixel(frame: &[u8], pitch: usize, col: usize, py: usize) -> (u8, u8, u8, u8) {
    let base = 4 * (py * pitch + col);
    (frame[base], frame[base + 1], frame[base + 2], frame[base + 3])
}

const SKY: (u8, u8, u8, u8) = (10, 20, 30, 255);
const BLACK: (u8, u8, u8, u8) = (0, 0, 0, 0);

#[test]
fn placeholder_lookup_resolves_to_single_texel() {
    // Whatever a captured lookup's result angle, sampling the one-texel
    // placeholder stays in bounds and yields its transparent black texel.
    let t = Texture::placeholder();
    assert_eq!(t.sample(0, 0), Rgba { r: 0, g: 0, b: 0, a: 0 });
    assert_eq!(t.sample(65535, 65535), Rgba { r: 0, g: 0, b: 0, a: 0 });
    assert_eq!(t.sample(12345, 54321), Rgba { r: 0, g: 0, b: 0, a: 0 });
}

#[test]
fn end_to_end_solid_sky_four_by_four() {
    // Solid-color sky, no surface texture, lens center at the screen
    // middle, one ray per pixel, four-by-four resolution: the corner
    // pixels look past the hole and show the sky's solid color, while the
    // twelve pixels near the center fall inside the capture disc and show
    // the placeholder's transparent black.
    let mut s = Schwarz::new(1, 8192, 4, 4, solid_sky(), None).unwrap();
    let mut dest: Vec<u8> = Vec::new();
    s.render(&mut dest, 4, 131072, 131072);
    assert_eq!(dest.len(), 64);
    for py in 0..4 {
        for col in 0..4 {
            let c = pixel(&dest, 4, col, py);
            let corner = (py == 0 || py == 3) && (col == 0 || col == 3);
            if corner {
                assert_eq!(c, SKY);
            } else {
                assert_eq!(c, BLACK);
            }
        }
    }
}

#[test]
fn supersampling_keeps_flat_regions_flat() {
    // On a pixel whose every sub-sample escapes into a solid sky, one ray
    // per pixel and four rays per pixel agree exactly.
    let mut one = Schwarz::new(1, 8192, 8, 8, solid_sky(), None).unwrap();
    let mut two = Schwarz::new(2, 8192, 8, 8, solid_sky(), None).unwrap();
    let mut frame_one: Vec<u8> = Vec::new();
    let mut frame_two: Vec<u8> = Vec::new();
    one.render(&mut frame_one, 8, 262144, 262144);
    two.render(&mut frame_two, 8, 262144, 262144);
    assert_eq!(pixel(&frame_one, 8, 0, 0), SKY);
    assert_eq!(pixel(&frame_two, 8, 0, 0), SKY);
    assert_eq!(pixel(&frame_one, 8, 0, 0), pixel(&frame_two, 8, 0, 0));
}

#[test]
fn frames_are_reproducible() {
    // The sub-sample grid is deterministic: two passes with one camera
    // state agree byte for byte.
    let mut s = Schwarz::new(2, 1024, 6, 6, solid_sky(), None).unwrap();
    let mut a: Vec<u8> = Vec::new();
    let mut b: Vec<u8> = Vec::new();
    s.render(&mut a, 6, 196608, 196608);
    s.render(&mut b, 6, 196608, 196608);
    assert_eq!(a, b);
}

#[test]
fn row_padding_is_zeroed() {
    let mut s = Schwarz::new(1, 1024, 4, 2, solid_sky(), None).unwrap();
    let mut dest: Vec<u8> = Vec::new();
    s.render(&mut dest, 6, 131072, 65536);
    assert_eq!(dest.len(), 4 * 6 * 2);
    for py in 0..2 {
        for col in 4..6 {
            assert_eq!(pixel(&dest, 6, col, py), (0, 0, 0, 0));
        }
    }
}

#[test]
fn construction_validates_the_configuration() {
    assert_eq!(
        Schwarz::new(1, 1024, 0, 4, solid_sky(), None).err().unwrap(),
        SchwarzError::BadResolution
    );
    assert_eq!(
        Schwarz::new(0, 1024, 4, 4, solid_sky(), None).err().unwrap(),
        SchwarzError::BadAntialias
    );
    assert_eq!(
        Schwarz::new(1, 0, 4, 4, solid_sky(), None).err().unwrap(),
        SchwarzError::BadTableSize
    );
}

#[test]
fn surface_texture_is_used_when_given() {
    // A supplied event-horizon texture replaces the placeholder: the
    // captured center pixel then shows the surface's color.
    let surface = Texture::new(1, 1, vec![200, 100, 50, 255]).unwrap();
    let mut s = Schwarz::new(1, 8192, 4, 4, solid_sky(), Some(surface)).unwrap();
    let mut dest: Vec<u8> = Vec::new();
    s.render(&mut dest, 4, 131072, 131072);
    assert_eq!(pixel(&dest, 4, 1, 1), (200, 100, 50, 255));
    assert_eq!(pixel(&dest, 4, 0, 0), SKY);
}

#[test]
fn submit_then_await_matches_render() {
    // The two-phase interface: a submitted frame is read back unchanged,
    // and equals what the combined entry point produces.
    let mut s = Schwarz::new(1, 1024, 4, 4, solid_sky(), None).unwrap();
    let mut combined: Vec<u8> = Vec::new();
    s.render(&mut combined, 4, 131072, 131072);
    s.submit_frame(4, 131072, 131072);
    let mut staged: Vec<u8> = Vec::new();
    s.await_frame(&mut staged);
    assert_eq!(staged, combined);
}
